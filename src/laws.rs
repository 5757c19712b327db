//! Facts that relate several instructions, or hold of every outcome of one.
use vstd::prelude::*;

use crate::errors::CrowdsaleError;
use crate::instructions::buy_tokens::{buy_error, bought, BuyTokens};
use crate::instructions::close_crowdsale::closed;
use crate::instructions::withdraw_funds::{withdraw_error, withdrawable, WithdrawFunds};
use crate::state::{Crowdsale, CrowdsaleStatus};

verus! {

/// Once a sale is closed, every purchase from it fails with `CrowdsaleClosed`,
/// whatever the amount and the balances.
pub proof fn lemma_closed_sale_refuses_purchases(c: Crowdsale, s: BuyTokens, amount: u64)
    requires
        s.crowdsale == closed(c),
    ensures
        buy_error(s, amount) == Some(CrowdsaleError::CrowdsaleClosed),
{
}

/// Closing a closed sale changes nothing: the status never goes back to open.
pub proof fn lemma_close_is_final(c: Crowdsale)
    ensures
        closed(closed(c)) == closed(c),
        closed(c).status == CrowdsaleStatus::Closed,
{
}

/// A purchase creates and destroys nothing: the currency of buyer and owner,
/// and the units of vault and buyer, have the same sums before and after.
pub proof fn lemma_purchase_conserves(s: BuyTokens, t: BuyTokens, amount: u64, cost: int)
    requires
        bought(s, t, amount, cost),
    ensures
        t.buyer_lamports + t.owner_lamports == s.buyer_lamports + s.owner_lamports,
        t.crowdsale_token_amount + t.buyer_token_amount == s.crowdsale_token_amount
            + s.buyer_token_amount,
{
}

/// A withdrawal that goes through moves a positive sum and leaves the
/// record's account with exactly its reserve.
pub proof fn lemma_withdrawal_leaves_reserve(s: WithdrawFunds)
    requires
        withdraw_error(s) is None,
    ensures
        withdrawable(s) > 0,
        s.crowdsale_lamports - withdrawable(s) == s.reserve_minimum,
        s.crowdsale.status == CrowdsaleStatus::Closed,
{
}

} // verus!
