//! A fixed-price token sale: one sale record, a vault of units sold at a
//! fixed cost each, and an owner who closes the sale and withdraws proceeds.
//!
//! Each instruction is a handler over a snapshot of the accounts it touches.
//! The handler checks every precondition before anything changes, and either
//! applies all of its effects to the snapshot or none of them.
use vstd::prelude::*;

pub mod authority;
pub mod constants;
pub mod errors;
pub mod instructions;
pub mod laws;
pub mod state;

use crate::authority::{seeds_view, signer_seeds_of};
use crate::errors::CrowdsaleError;
use crate::instructions::buy_tokens::{buy_balances_fit, buy_error, bought, purchase_cost, BuyTokens, Purchase};
use crate::instructions::close_crowdsale::{closed, CloseCrowdsale};
use crate::instructions::create_crowdsale::{create_error, created, CreateCrowdSale};
use crate::instructions::withdraw_funds::{withdraw_error, withdrawable, WithdrawFunds};
use crate::state::Key;

verus! {

/// Creates a sale with the given id and cost per unit.
pub fn initialize(ctx: &mut CreateCrowdSale, id: Key, cost: u32) -> (r: Result<(), CrowdsaleError>)
    ensures
        match r {
            Ok(()) => {
                &&& create_error(*old(ctx), cost) is None
                &&& final(ctx).crowdsale == created(*old(ctx), id, cost)
                &&& final(ctx).mint_account == old(ctx).mint_account
                &&& final(ctx).token_account == old(ctx).token_account
                &&& final(ctx).token_account_mint == old(ctx).token_account_mint
                &&& final(ctx).creator == old(ctx).creator
            },
            Err(e) => create_error(*old(ctx), cost) == Some(e) && *final(ctx) == *old(ctx),
        },
{
    ctx.handler(id, cost)
}

/// Closes a sale to purchases; only its owner may.
pub fn close_crowdsale(ctx: &mut CloseCrowdsale) -> (r: Result<(), CrowdsaleError>)
    ensures
        old(ctx).owner@ == old(ctx).crowdsale.owner@ ==> {
            &&& r is Ok
            &&& final(ctx).crowdsale == closed(old(ctx).crowdsale)
            &&& final(ctx).owner == old(ctx).owner
        },
        old(ctx).owner@ != old(ctx).crowdsale.owner@ ==> {
            &&& r == Err::<(), CrowdsaleError>(CrowdsaleError::Unauthorized)
            &&& *final(ctx) == *old(ctx)
        },
{
    ctx.handler()
}

/// Buys `amount` units of an open sale.
pub fn buy_tokens(ctx: &mut BuyTokens, amount: u64) -> (r: Result<Purchase, CrowdsaleError>)
    requires
        buy_balances_fit(*old(ctx)),
    ensures
        match r {
            Ok(p) => {
                &&& buy_error(*old(ctx), amount) is None
                &&& p.cost == purchase_cost(amount, old(ctx).crowdsale.cost)
                &&& p.amount == amount
                &&& seeds_view(p.signer_seeds@) == signer_seeds_of(
                    old(ctx).crowdsale.id@,
                    old(ctx).crowdsale_authority.bump,
                )
                &&& bought(*old(ctx), *final(ctx), amount, p.cost as int)
            },
            Err(e) => buy_error(*old(ctx), amount) == Some(e) && *final(ctx) == *old(ctx),
        },
{
    ctx.handler(amount)
}

/// Withdraws the proceeds of a closed sale to its owner.
pub fn withdraw_funds(ctx: &mut WithdrawFunds) -> (r: Result<u64, CrowdsaleError>)
    requires
        old(ctx).owner_lamports + old(ctx).crowdsale_lamports <= u64::MAX,
    ensures
        match r {
            Ok(w) => {
                &&& withdraw_error(*old(ctx)) is None
                &&& w == withdrawable(*old(ctx))
                &&& final(ctx).crowdsale_lamports == old(ctx).crowdsale_lamports - w
                &&& final(ctx).owner_lamports == old(ctx).owner_lamports + w
                &&& final(ctx).owner == old(ctx).owner
                &&& final(ctx).crowdsale == old(ctx).crowdsale
                &&& final(ctx).reserve_minimum == old(ctx).reserve_minimum
            },
            Err(e) => withdraw_error(*old(ctx)) == Some(e) && *final(ctx) == *old(ctx),
        },
{
    ctx.handler()
}

} // verus!
