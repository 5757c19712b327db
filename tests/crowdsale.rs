use anchor_lang::prelude::Pubkey;
use crowdsale::authority::{authority_signer_seeds, record_address, CustodyAuthority};
use crowdsale::constants::AUTHORITY_SEED;
use crowdsale::errors::CrowdsaleError;
use crowdsale::instructions::buy_tokens::BuyTokens;
use crowdsale::instructions::close_crowdsale::CloseCrowdsale;
use crowdsale::instructions::create_crowdsale::CreateCrowdSale;
use crowdsale::instructions::withdraw_funds::WithdrawFunds;
use crowdsale::state::{Crowdsale, CrowdsaleStatus, Key};
use crowdsale::{buy_tokens, close_crowdsale, initialize, withdraw_funds};

fn key(b: u8) -> Key {
    Key::new([b; 32])
}

fn empty_record() -> Crowdsale {
    Crowdsale {
        id: key(0),
        cost: 0,
        mint_account: key(0),
        token_account: key(0),
        status: CrowdsaleStatus::Open,
        owner: key(0),
    }
}

fn create_accounts(mint: u8, vault_mint: u8) -> CreateCrowdSale {
    CreateCrowdSale {
        crowdsale: empty_record(),
        mint_account: key(mint),
        token_account: key(20),
        token_account_mint: key(vault_mint),
        creator: key(30),
    }
}

fn open_record(cost: u32) -> Crowdsale {
    Crowdsale {
        id: key(1),
        cost,
        mint_account: key(10),
        token_account: key(20),
        status: CrowdsaleStatus::Open,
        owner: key(30),
    }
}

fn buy_accounts(record: Crowdsale, buyer_lamports: u64, vault_units: u64) -> BuyTokens {
    BuyTokens {
        buyer: key(40),
        buyer_lamports,
        buyer_token_amount: 0,
        crowdsale: record,
        crowdsale_token_amount: vault_units,
        crowdsale_authority: CustodyAuthority { address: key(50), bump: 254 },
        owner_lamports: 1_000,
    }
}

fn same_buy(a: &BuyTokens, b: &BuyTokens) -> bool {
    a.buyer == b.buyer
        && a.buyer_lamports == b.buyer_lamports
        && a.buyer_token_amount == b.buyer_token_amount
        && same_record(&a.crowdsale, &b.crowdsale)
        && a.crowdsale_token_amount == b.crowdsale_token_amount
        && a.owner_lamports == b.owner_lamports
}

fn same_record(a: &Crowdsale, b: &Crowdsale) -> bool {
    a.id == b.id
        && a.cost == b.cost
        && a.mint_account == b.mint_account
        && a.token_account == b.token_account
        && a.status == b.status
        && a.owner == b.owner
}

fn withdraw_accounts(record: Crowdsale, caller: u8, lamports: u64, reserve: u64) -> WithdrawFunds {
    WithdrawFunds {
        owner: key(caller),
        owner_lamports: 500,
        crowdsale: record,
        crowdsale_lamports: lamports,
        reserve_minimum: reserve,
    }
}

#[test]
fn create_with_zero_cost_fails() {
    let mut ctx = create_accounts(10, 10);
    assert_eq!(initialize(&mut ctx, key(1), 0), Err(CrowdsaleError::InvalidCost));
    assert!(same_record(&ctx.crowdsale, &empty_record()));
    let mut ctx = create_accounts(10, 11);
    assert_eq!(initialize(&mut ctx, key(1), 0), Err(CrowdsaleError::InvalidCost));
}

#[test]
fn create_with_positive_cost_opens_the_sale() {
    for cost in [1u32, 5, u32::MAX] {
        let mut ctx = create_accounts(10, 10);
        assert_eq!(initialize(&mut ctx, key(1), cost), Ok(()));
        assert_eq!(ctx.crowdsale.status, CrowdsaleStatus::Open);
        assert_eq!(ctx.crowdsale.cost, cost);
        assert!(ctx.crowdsale.id == key(1));
        assert!(ctx.crowdsale.owner == key(30));
        assert!(ctx.crowdsale.mint_account == key(10));
        assert!(ctx.crowdsale.token_account == key(20));
    }
}

#[test]
fn create_with_other_unit_type_fails() {
    let mut ctx = create_accounts(10, 11);
    assert_eq!(initialize(&mut ctx, key(1), 5), Err(CrowdsaleError::MintMismatch));
    assert!(same_record(&ctx.crowdsale, &empty_record()));
}

#[test]
fn scenario_create_then_buy() {
    let mut create = create_accounts(10, 10);
    assert_eq!(initialize(&mut create, key(1), 5), Ok(()));
    assert_eq!(create.crowdsale.status, CrowdsaleStatus::Open);
    assert_eq!(create.crowdsale.cost, 5);
    let mut ctx = buy_accounts(create.crowdsale, 50, 100);
    let p = buy_tokens(&mut ctx, 10).unwrap();
    assert_eq!(p.cost, 50);
    assert_eq!(p.amount, 10);
    assert_eq!(ctx.buyer_lamports, 0);
    assert_eq!(ctx.buyer_token_amount, 10);
    assert_eq!(ctx.crowdsale_token_amount, 90);
    assert_eq!(ctx.owner_lamports, 1_050);
}

#[test]
fn buy_moves_all_four_balances() {
    let mut ctx = buy_accounts(open_record(7), 1_000, 30);
    let p = buy_tokens(&mut ctx, 3).unwrap();
    assert_eq!(p.cost, 21);
    assert_eq!(ctx.buyer_lamports, 979);
    assert_eq!(ctx.owner_lamports, 1_021);
    assert_eq!(ctx.crowdsale_token_amount, 27);
    assert_eq!(ctx.buyer_token_amount, 3);
    assert_eq!(p.signer_seeds, vec![vec![1u8; 32], b"authority".to_vec(), vec![254u8]]);
}

#[test]
fn buy_with_exact_balances_empties_them() {
    let mut ctx = buy_accounts(open_record(4), 40, 10);
    assert!(buy_tokens(&mut ctx, 10).is_ok());
    assert_eq!(ctx.buyer_lamports, 0);
    assert_eq!(ctx.crowdsale_token_amount, 0);
}

#[test]
fn scenario_buy_zero_amount() {
    let mut ctx = buy_accounts(open_record(5), 100, 100);
    let before = buy_accounts(open_record(5), 100, 100);
    assert_eq!(buy_tokens(&mut ctx, 0).unwrap_err(), CrowdsaleError::InvalidAmount);
    assert!(same_buy(&ctx, &before));
}

#[test]
fn buy_overflow_fails() {
    let mut ctx = buy_accounts(open_record(2), u64::MAX - 1_000, u64::MAX - 1_000);
    let before = buy_accounts(open_record(2), u64::MAX - 1_000, u64::MAX - 1_000);
    assert_eq!(buy_tokens(&mut ctx, u64::MAX / 2 + 1).unwrap_err(), CrowdsaleError::Overflow);
    assert!(same_buy(&ctx, &before));
    let mut ctx = buy_accounts(open_record(u32::MAX), 0, 0);
    assert_eq!(buy_tokens(&mut ctx, 1u64 << 33).unwrap_err(), CrowdsaleError::Overflow);
}

#[test]
fn buy_from_closed_sale_fails() {
    let mut record = open_record(5);
    record.status = CrowdsaleStatus::Closed;
    for amount in [0u64, 1, 10, u64::MAX] {
        let mut ctx = buy_accounts(record, 100, 100);
        let before = buy_accounts(record, 100, 100);
        assert_eq!(buy_tokens(&mut ctx, amount).unwrap_err(), CrowdsaleError::CrowdsaleClosed);
        assert!(same_buy(&ctx, &before));
    }
}

#[test]
fn buy_more_than_the_vault_fails() {
    let mut ctx = buy_accounts(open_record(5), 1_000, 9);
    assert_eq!(buy_tokens(&mut ctx, 10).unwrap_err(), CrowdsaleError::InsufficientTokens);
    assert_eq!(ctx.crowdsale_token_amount, 9);
    assert_eq!(ctx.buyer_lamports, 1_000);
}

#[test]
fn buy_without_the_cost_fails() {
    let mut ctx = buy_accounts(open_record(5), 49, 100);
    assert_eq!(buy_tokens(&mut ctx, 10).unwrap_err(), CrowdsaleError::InsufficientFunds);
    assert_eq!(ctx.buyer_lamports, 49);
    assert_eq!(ctx.owner_lamports, 1_000);
    assert_eq!(ctx.crowdsale_token_amount, 100);
}

#[test]
fn deprecated_purchase_computes_cost_without_checks() {
    let mut record = open_record(6);
    record.status = CrowdsaleStatus::Closed;
    let ctx = buy_accounts(record, 0, 0);
    let p = ctx.handler_deprecated(7);
    assert_eq!(p.cost, 42);
    assert_eq!(p.amount, 7);
    assert_eq!(p.signer_seeds[1], AUTHORITY_SEED.to_vec());
}

#[test]
fn scenario_close_by_non_owner() {
    let mut ctx = CloseCrowdsale { owner: key(99), crowdsale: open_record(5) };
    assert_eq!(close_crowdsale(&mut ctx), Err(CrowdsaleError::Unauthorized));
    assert_eq!(ctx.crowdsale.status, CrowdsaleStatus::Open);
}

#[test]
fn close_by_owner_changes_only_the_status() {
    let mut ctx = CloseCrowdsale { owner: key(30), crowdsale: open_record(5) };
    assert_eq!(close_crowdsale(&mut ctx), Ok(()));
    let mut expected = open_record(5);
    expected.status = CrowdsaleStatus::Closed;
    assert!(same_record(&ctx.crowdsale, &expected));
    assert_eq!(close_crowdsale(&mut ctx), Ok(()));
    assert!(same_record(&ctx.crowdsale, &expected));
}

#[test]
fn scenario_close_then_buy() {
    let mut close = CloseCrowdsale { owner: key(30), crowdsale: open_record(5) };
    assert_eq!(close_crowdsale(&mut close), Ok(()));
    let mut ctx = buy_accounts(close.crowdsale, 100, 100);
    assert_eq!(buy_tokens(&mut ctx, 1).unwrap_err(), CrowdsaleError::CrowdsaleClosed);
}

#[test]
fn scenario_withdraw_before_close() {
    let mut ctx = withdraw_accounts(open_record(5), 30, 5_000, 1_000);
    assert_eq!(withdraw_funds(&mut ctx), Err(CrowdsaleError::CrowdsaleNotClosed));
    assert_eq!(ctx.crowdsale_lamports, 5_000);
    assert_eq!(ctx.owner_lamports, 500);
}

#[test]
fn scenario_withdraw_at_the_reserve() {
    let mut close = CloseCrowdsale { owner: key(30), crowdsale: open_record(5) };
    assert_eq!(close_crowdsale(&mut close), Ok(()));
    let mut ctx = withdraw_accounts(close.crowdsale, 30, 1_000, 1_000);
    assert_eq!(withdraw_funds(&mut ctx), Err(CrowdsaleError::NoFundsToWithdraw));
    assert_eq!(ctx.crowdsale_lamports, 1_000);
}

#[test]
fn withdraw_below_the_reserve_fails() {
    let mut record = open_record(5);
    record.status = CrowdsaleStatus::Closed;
    let mut ctx = withdraw_accounts(record, 30, 999, 1_000);
    assert_eq!(withdraw_funds(&mut ctx), Err(CrowdsaleError::InsufficientFunds));
    assert_eq!(ctx.crowdsale_lamports, 999);
}

#[test]
fn withdraw_by_non_owner_fails() {
    let mut record = open_record(5);
    record.status = CrowdsaleStatus::Closed;
    let mut ctx = withdraw_accounts(record, 31, 5_000, 1_000);
    assert_eq!(withdraw_funds(&mut ctx), Err(CrowdsaleError::Unauthorized));
    assert_eq!(ctx.crowdsale_lamports, 5_000);
}

#[test]
fn withdraw_moves_all_above_the_reserve() {
    let mut record = open_record(5);
    record.status = CrowdsaleStatus::Closed;
    let mut ctx = withdraw_accounts(record, 30, 5_000, 1_000);
    assert_eq!(withdraw_funds(&mut ctx), Ok(4_000));
    assert_eq!(ctx.crowdsale_lamports, 1_000);
    assert_eq!(ctx.owner_lamports, 4_500);
    assert_eq!(withdraw_funds(&mut ctx), Err(CrowdsaleError::NoFundsToWithdraw));
}

#[test]
fn status_names() {
    assert_eq!(CrowdsaleStatus::Open.to_string(), "Open");
    assert_eq!(CrowdsaleStatus::Closed.to_string(), "Closed");
}

#[test]
fn record_size() {
    assert_eq!(Crowdsale::MAXIMUM_SIZE, 165);
}

#[test]
fn keys_compare_by_every_byte() {
    let mut b = [3u8; 32];
    assert!(Key::new(b) == Key::new(b));
    b[31] = 4;
    assert!(Key::new(b) != Key::new([3u8; 32]));
    b[31] = 3;
    b[0] = 0;
    assert!(Key::new(b) != Key::new([3u8; 32]));
}

#[test]
fn custody_authority_is_the_program_address_of_id_and_tag() {
    let id = [7u8; 32];
    let program = [9u8; 32];
    let a = CustodyAuthority::derive(&Key::new(id), &Key::new(program)).unwrap();
    let (expected, bump) = Pubkey::find_program_address(
        &[&id, b"authority"],
        &Pubkey::new_from_array(program),
    );
    assert_eq!(a.address.bytes, expected.to_bytes());
    assert_eq!(a.bump, bump);
    assert!(a.address != Key::new(program));
    assert!(a.address != Key::new(id));
    let seeds = a.signer_seeds(&Key::new(id));
    assert_eq!(seeds, authority_signer_seeds(&Key::new(id), bump));
    let again = Pubkey::create_program_address(
        &[&seeds[0], &seeds[1], &seeds[2]],
        &Pubkey::new_from_array(program),
    )
    .unwrap();
    assert_eq!(again, expected);
}

#[test]
fn record_address_is_the_program_address_of_id() {
    let id = [7u8; 32];
    let program = [9u8; 32];
    let (k, bump) = record_address(&Key::new(id), &Key::new(program)).unwrap();
    let (expected, b) = Pubkey::find_program_address(&[&id], &Pubkey::new_from_array(program));
    assert_eq!(k.bytes, expected.to_bytes());
    assert_eq!(bump, b);
    let a = CustodyAuthority::derive(&Key::new(id), &Key::new(program)).unwrap();
    assert!(a.address != k);
}
