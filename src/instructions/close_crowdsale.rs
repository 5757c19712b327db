use vstd::prelude::*;

use crate::errors::CrowdsaleError;
use crate::state::{Crowdsale, CrowdsaleStatus, Key};

verus! {

/// The accounts of a close: the caller and the sale record.
#[derive(Debug)]
pub struct CloseCrowdsale {
    /// The caller, who must be the sale's owner.
    pub owner: Key,
    pub crowdsale: Crowdsale,
}

/// The record after a close: closed, and otherwise as it was.
pub open spec fn closed(c: Crowdsale) -> Crowdsale {
    Crowdsale { status: CrowdsaleStatus::Closed, ..c }
}

impl CloseCrowdsale {
    /// Closes the sale to purchases, for good. Only the owner may close; a
    /// sale that is already closed stays closed and the call succeeds.
    pub fn handler(&mut self) -> (r: Result<(), CrowdsaleError>)
        ensures
            old(self).owner@ == old(self).crowdsale.owner@ ==> {
                &&& r is Ok
                &&& final(self).crowdsale == closed(old(self).crowdsale)
                &&& final(self).owner == old(self).owner
            },
            old(self).owner@ != old(self).crowdsale.owner@ ==> {
                &&& r == Err::<(), CrowdsaleError>(CrowdsaleError::Unauthorized)
                &&& *final(self) == *old(self)
            },
    {
        if self.owner != self.crowdsale.owner {
            return Err(CrowdsaleError::Unauthorized);
        }
        self.crowdsale.status = CrowdsaleStatus::Closed;
        Ok(())
    }
}

} // verus!
