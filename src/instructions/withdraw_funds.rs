use vstd::prelude::*;

use crate::errors::CrowdsaleError;
use crate::state::{Crowdsale, CrowdsaleStatus, Key};

verus! {

/// The accounts of a withdrawal: the caller and its currency, the sale
/// record, the currency held by the record's own account, and the reserve
/// that this account must keep to remain valid storage.
#[derive(Debug)]
pub struct WithdrawFunds {
    /// The caller, who must be the sale's owner.
    pub owner: Key,
    /// Native currency held by the caller.
    pub owner_lamports: u64,
    pub crowdsale: Crowdsale,
    /// Native currency held by the record's own account.
    pub crowdsale_lamports: u64,
    /// The least the record's account must hold for the storage it takes.
    pub reserve_minimum: u64,
}

/// The first precondition of a withdrawal that fails, or `None`.
pub open spec fn withdraw_error(s: WithdrawFunds) -> Option<CrowdsaleError> {
    if s.owner@ != s.crowdsale.owner@ {
        Some(CrowdsaleError::Unauthorized)
    } else if s.crowdsale.status != CrowdsaleStatus::Closed {
        Some(CrowdsaleError::CrowdsaleNotClosed)
    } else if s.crowdsale_lamports < s.reserve_minimum {
        Some(CrowdsaleError::InsufficientFunds)
    } else if s.crowdsale_lamports == s.reserve_minimum {
        Some(CrowdsaleError::NoFundsToWithdraw)
    } else {
        None
    }
}

/// What the record's account holds above its reserve.
pub open spec fn withdrawable(s: WithdrawFunds) -> int {
    s.crowdsale_lamports - s.reserve_minimum
}

impl WithdrawFunds {
    /// Moves all that the record's account holds above its reserve to the
    /// owner, once the sale is closed. Returns the sum moved.
    pub fn handler(&mut self) -> (r: Result<u64, CrowdsaleError>)
        requires
            old(self).owner_lamports + old(self).crowdsale_lamports <= u64::MAX,
        ensures
            match r {
                Ok(w) => {
                    &&& withdraw_error(*old(self)) is None
                    &&& w == withdrawable(*old(self))
                    &&& final(self).crowdsale_lamports == old(self).crowdsale_lamports - w
                    &&& final(self).owner_lamports == old(self).owner_lamports + w
                    &&& final(self).owner == old(self).owner
                    &&& final(self).crowdsale == old(self).crowdsale
                    &&& final(self).reserve_minimum == old(self).reserve_minimum
                },
                Err(e) => withdraw_error(*old(self)) == Some(e) && *final(self) == *old(self),
            },
            r is Ok ==> old(self).crowdsale.status == CrowdsaleStatus::Closed,
            final(self).crowdsale_lamports >= final(self).reserve_minimum || *final(self) == *old(
                self,
            ),
    {
        if self.owner != self.crowdsale.owner {
            return Err(CrowdsaleError::Unauthorized);
        }
        if self.crowdsale.status != CrowdsaleStatus::Closed {
            return Err(CrowdsaleError::CrowdsaleNotClosed);
        }
        let w = match self.crowdsale_lamports.checked_sub(self.reserve_minimum) {
            Some(w) => w,
            None => {
                return Err(CrowdsaleError::InsufficientFunds);
            },
        };
        if w == 0 {
            return Err(CrowdsaleError::NoFundsToWithdraw);
        }
        self.crowdsale_lamports = self.crowdsale_lamports - w;
        self.owner_lamports = self.owner_lamports + w;
        Ok(w)
    }
}

} // verus!
