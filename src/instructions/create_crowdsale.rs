use vstd::prelude::*;

use crate::errors::CrowdsaleError;
use crate::state::{Crowdsale, CrowdsaleStatus, Key};

verus! {

/// The accounts of a creation: the storage for the new record, the unit
/// type, the vault with the unit type it holds, and the creator.
#[derive(Debug)]
pub struct CreateCrowdSale {
    /// The storage that the new record fills.
    pub crowdsale: Crowdsale,
    /// The type of the units on sale.
    pub mint_account: Key,
    /// The vault for the unsold units.
    pub token_account: Key,
    /// The unit type that the vault holds.
    pub token_account_mint: Key,
    /// The caller, who becomes the owner.
    pub creator: Key,
}

/// The first precondition of a creation that fails, or `None`.
pub open spec fn create_error(s: CreateCrowdSale, cost: u32) -> Option<CrowdsaleError> {
    if cost == 0 {
        Some(CrowdsaleError::InvalidCost)
    } else if s.token_account_mint@ != s.mint_account@ {
        Some(CrowdsaleError::MintMismatch)
    } else {
        None
    }
}

/// The record that a successful creation writes.
pub open spec fn created(s: CreateCrowdSale, id: Key, cost: u32) -> Crowdsale {
    Crowdsale {
        id,
        cost,
        mint_account: s.mint_account,
        token_account: s.token_account,
        status: CrowdsaleStatus::Open,
        owner: s.creator,
    }
}

impl CreateCrowdSale {
    /// Creates an open sale of units of `mint_account` from the vault
    /// `token_account` at `cost` each, owned by the creator.
    pub fn handler(&mut self, id: Key, cost: u32) -> (r: Result<(), CrowdsaleError>)
        ensures
            match r {
                Ok(()) => {
                    &&& create_error(*old(self), cost) is None
                    &&& final(self).crowdsale == created(*old(self), id, cost)
                    &&& final(self).crowdsale.wf()
                    &&& final(self).mint_account == old(self).mint_account
                    &&& final(self).token_account == old(self).token_account
                    &&& final(self).token_account_mint == old(self).token_account_mint
                    &&& final(self).creator == old(self).creator
                },
                Err(e) => create_error(*old(self), cost) == Some(e) && *final(self) == *old(self),
            },
            cost == 0 ==> r == Err::<(), CrowdsaleError>(CrowdsaleError::InvalidCost),
            cost > 0 && old(self).token_account_mint@ == old(self).mint_account@ ==> {
                &&& r is Ok
                &&& final(self).crowdsale.status == CrowdsaleStatus::Open
            },
    {
        if cost == 0 {
            return Err(CrowdsaleError::InvalidCost);
        }
        if self.token_account_mint != self.mint_account {
            return Err(CrowdsaleError::MintMismatch);
        }
        self.crowdsale = Crowdsale {
            id,
            cost,
            mint_account: self.mint_account,
            token_account: self.token_account,
            status: CrowdsaleStatus::Open,
            owner: self.creator,
        };
        Ok(())
    }
}

} // verus!
