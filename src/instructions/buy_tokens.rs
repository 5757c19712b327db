use vstd::prelude::*;

use crate::authority::{signer_seeds_of, seeds_view, CustodyAuthority};
use crate::errors::CrowdsaleError;
use crate::state::{Crowdsale, CrowdsaleStatus, Key};

verus! {

/// The accounts of a purchase, as balances: the buyer's currency and units,
/// the sale record, the vault's units and the owner's currency.
#[derive(Debug)]
pub struct BuyTokens {
    /// The buyer, who signs and pays.
    pub buyer: Key,
    /// Native currency that the buyer can spend.
    pub buyer_lamports: u64,
    /// Units in the buyer's unit account.
    pub buyer_token_amount: u64,
    pub crowdsale: Crowdsale,
    /// Units in the sale's vault.
    pub crowdsale_token_amount: u64,
    /// The sale's custody authority, which alone may move units out of the vault.
    pub crowdsale_authority: CustodyAuthority,
    /// Native currency held by the sale's owner.
    pub owner_lamports: u64,
}

/// The two transfers of a purchase, made together or not at all.
#[derive(Debug)]
pub struct Purchase {
    /// Native currency that goes from the buyer to the payee.
    pub cost: u64,
    /// Units that go from the vault to the buyer's unit account.
    pub amount: u64,
    /// The seeds with which the program signs the unit transfer for the custody authority.
    pub signer_seeds: Vec<Vec<u8>>,
}

/// What `amount` units cost at `cost` each.
pub open spec fn purchase_cost(amount: u64, cost: u32) -> int {
    amount * cost
}

/// The first precondition of a purchase that fails, in the order they are
/// checked, or `None` where all hold.
pub open spec fn buy_error(s: BuyTokens, amount: u64) -> Option<CrowdsaleError> {
    if s.crowdsale.status != CrowdsaleStatus::Open {
        Some(CrowdsaleError::CrowdsaleClosed)
    } else if amount == 0 {
        Some(CrowdsaleError::InvalidAmount)
    } else if purchase_cost(amount, s.crowdsale.cost) > u64::MAX {
        Some(CrowdsaleError::Overflow)
    } else if s.crowdsale_token_amount < amount {
        Some(CrowdsaleError::InsufficientTokens)
    } else if s.buyer_lamports < purchase_cost(amount, s.crowdsale.cost) {
        Some(CrowdsaleError::InsufficientFunds)
    } else {
        None
    }
}

/// The balances after a purchase of `amount` units for `cost`: the four
/// change together, and nothing else changes.
pub open spec fn bought(s: BuyTokens, t: BuyTokens, amount: u64, cost: int) -> bool {
    &&& t.buyer_lamports == s.buyer_lamports - cost
    &&& t.owner_lamports == s.owner_lamports + cost
    &&& t.crowdsale_token_amount == s.crowdsale_token_amount - amount
    &&& t.buyer_token_amount == s.buyer_token_amount + amount
    &&& t.buyer == s.buyer
    &&& t.crowdsale == s.crowdsale
    &&& t.crowdsale_authority == s.crowdsale_authority
}

/// Balances that the ledger can hold: the currency of buyer and owner
/// together, and the units of vault and buyer together, fit in 64 bits, as
/// the total supply of each does.
pub open spec fn buy_balances_fit(s: BuyTokens) -> bool {
    &&& s.buyer_lamports + s.owner_lamports <= u64::MAX
    &&& s.crowdsale_token_amount + s.buyer_token_amount <= u64::MAX
}

impl BuyTokens {
    /// Buys `amount` units at the sale's cost: checks that the sale is open,
    /// that the amount is positive, that its cost fits in 64 bits, that the
    /// vault holds the units and that the buyer holds the cost; then moves the
    /// cost from the buyer to the owner and the units from the vault to the
    /// buyer, signed for by the custody authority.
    pub fn handler(&mut self, amount: u64) -> (r: Result<Purchase, CrowdsaleError>)
        requires
            buy_balances_fit(*old(self)),
        ensures
            match r {
                Ok(p) => {
                    &&& buy_error(*old(self), amount) is None
                    &&& p.cost == purchase_cost(amount, old(self).crowdsale.cost)
                    &&& p.amount == amount
                    &&& seeds_view(p.signer_seeds@) == signer_seeds_of(
                        old(self).crowdsale.id@,
                        old(self).crowdsale_authority.bump,
                    )
                    &&& bought(*old(self), *final(self), amount, p.cost as int)
                },
                Err(e) => buy_error(*old(self), amount) == Some(e) && *final(self) == *old(self),
            },
            old(self).crowdsale.status == CrowdsaleStatus::Closed ==> {
                &&& r == Err::<Purchase, CrowdsaleError>(CrowdsaleError::CrowdsaleClosed)
                &&& *final(self) == *old(self)
            },
            old(self).crowdsale.status == CrowdsaleStatus::Open && purchase_cost(
                amount,
                old(self).crowdsale.cost,
            ) > u64::MAX ==> {
                &&& r == Err::<Purchase, CrowdsaleError>(CrowdsaleError::Overflow)
                &&& *final(self) == *old(self)
            },
    {
        if self.crowdsale.status != CrowdsaleStatus::Open {
            return Err(CrowdsaleError::CrowdsaleClosed);
        }
        if amount == 0 {
            return Err(CrowdsaleError::InvalidAmount);
        }
        let cost = match amount.checked_mul(self.crowdsale.cost as u64) {
            Some(c) => c,
            None => {
                return Err(CrowdsaleError::Overflow);
            },
        };
        if self.crowdsale_token_amount < amount {
            return Err(CrowdsaleError::InsufficientTokens);
        }
        if self.buyer_lamports < cost {
            return Err(CrowdsaleError::InsufficientFunds);
        }
        let signer_seeds = self.crowdsale_authority.signer_seeds(&self.crowdsale.id);
        self.buyer_lamports = self.buyer_lamports - cost;
        self.owner_lamports = self.owner_lamports + cost;
        self.crowdsale_token_amount = self.crowdsale_token_amount - amount;
        self.buyer_token_amount = self.buyer_token_amount + amount;
        Ok(Purchase { cost, amount, signer_seeds })
    }

    /// The first draft of a purchase, kept for callers that still use it: it
    /// checks nothing, sends the payment to the sale record's own account
    /// rather than to the owner, and leaves the balances to the caller. The
    /// product `amount * cost` must fit in 32 bits.
    pub fn handler_deprecated(&self, amount: u32) -> (r: Purchase)
        requires
            amount * self.crowdsale.cost <= u32::MAX,
        ensures
            r.cost == amount * self.crowdsale.cost,
            r.amount == amount,
            seeds_view(r.signer_seeds@) == signer_seeds_of(
                self.crowdsale.id@,
                self.crowdsale_authority.bump,
            ),
    {
        let cost = (amount * self.crowdsale.cost) as u64;
        let signer_seeds = self.crowdsale_authority.signer_seeds(&self.crowdsale.id);
        Purchase { cost, amount: amount as u64, signer_seeds }
    }
}

} // verus!
