use anchor_lang::prelude::Pubkey;
use enswap_amm::accounts::{TokenAccountData, Transfer};
use enswap_amm::enswap_amm::swap;
use enswap_amm::errors::{AmmError, ProgramError};
use enswap_amm::instructions::swap::{handler, Swap};
use enswap_amm::key::Key;
use enswap_amm::state::Pool;
use std::str::FromStr;

fn program_id() -> Pubkey {
    Pubkey::from_str("F4dfAy46FYa11G28VkreEirfqdfPw3ptgmd8rwQffsYS").unwrap()
}

fn derive(seeds: &[&[u8]]) -> (Key, u8) {
    let (address, bump) = Pubkey::find_program_address(seeds, &program_id());
    (Key(address.to_bytes()), bump)
}

fn pid() -> Key {
    Key(program_id().to_bytes())
}

/// A pool of 1000 A and 1000 B at a 30 bps fee, and a user who swaps A for B.
fn setup() -> Swap {
    let mint_a = Key([1; 32]);
    let mint_b = Key([2; 32]);
    let (pool_key, _) = derive(&[b"pool", &mint_a.0, &mint_b.0]);
    let (authority, bump) = derive(&[b"authority", &pool_key.0]);
    let reserve_a = Key([3; 32]);
    let reserve_b = Key([4; 32]);
    let signer = Key([6; 32]);
    let pool = Pool {
        fee_bps: 30,
        mint_a,
        mint_b,
        token_reserve_a: reserve_a,
        token_reserve_b: reserve_b,
        lp_mint: Key([5; 32]),
        sign_authority_bump: bump,
    };
    Swap {
        mint_a,
        mint_b,
        pool_key,
        pool,
        token_reserve_src: TokenAccountData { key: reserve_b, mint: mint_b, owner: authority, amount: 1000 },
        token_reserve_dst: TokenAccountData { key: reserve_a, mint: mint_a, owner: authority, amount: 1000 },
        user_src_token_acc: TokenAccountData { key: Key([7; 32]), mint: mint_a, owner: signer, amount: 500 },
        user_dst_token_acc: TokenAccountData { key: Key([8; 32]), mint: mint_b, owner: signer, amount: 0 },
        pool_authority: authority,
        signer,
    }
}

#[test]
fn swap_pays_constant_product_output() {
    let ctx = setup();
    let plan = swap(&ctx, &pid(), 100, 90).unwrap();
    // 100 less 0.3% is 99; 1000 * 99 / 1099 is 90.
    assert_eq!(
        plan.deposit,
        Transfer { from: Key([7; 32]), to: Key([3; 32]), authority: Key([6; 32]), amount: 100 }
    );
    assert_eq!(
        plan.payout,
        Transfer { from: Key([4; 32]), to: Key([8; 32]), authority: ctx.pool_authority, amount: 90 }
    );
    assert_eq!(
        plan.payout_signer_seeds,
        vec![b"authority".to_vec(), ctx.pool_key.0.to_vec(), vec![ctx.pool.sign_authority_bump]]
    );
}

#[test]
fn swap_keeps_product_of_reserves() {
    let ctx = setup();
    let plan = swap(&ctx, &pid(), 100, 0).unwrap();
    let before = 1000u128 * 1000;
    let after = (1000 + plan.deposit.amount as u128) * (1000 - plan.payout.amount as u128);
    assert!(after >= before);
}

#[test]
fn swap_slippage_exceeded() {
    let ctx = setup();
    assert_eq!(swap(&ctx, &pid(), 100, 91).unwrap_err(), ProgramError::Amm(AmmError::SlippageExceeded));
}

#[test]
fn swap_more_than_balance_is_insufficient() {
    let ctx = setup();
    assert_eq!(swap(&ctx, &pid(), 501, 0).unwrap_err(), ProgramError::Amm(AmmError::InsufficientFunds));
}

#[test]
fn swap_zero_is_insufficient() {
    let ctx = setup();
    assert_eq!(swap(&ctx, &pid(), 0, 0).unwrap_err(), ProgramError::Amm(AmmError::InsufficientFunds));
}

#[test]
fn swap_without_fee_and_full_fee() {
    let mut ctx = setup();
    ctx.pool.fee_bps = 0;
    // 1000 * 100 / 1100 is 90.
    assert_eq!(handler(&ctx, 100, 0).unwrap().payout.amount, 90);
    ctx.pool.fee_bps = 10000;
    assert_eq!(handler(&ctx, 100, 0).unwrap().payout.amount, 0);
}

#[test]
fn swap_larger_input_pays_more() {
    let ctx = setup();
    let small = handler(&ctx, 10, 0).unwrap().payout.amount;
    let large = handler(&ctx, 400, 0).unwrap().payout.amount;
    // 400 less the fee is 398; 1000 * 398 / 1398 is 284.
    assert_eq!(large, 284);
    assert!(small <= large);
}

#[test]
fn swap_foreign_reserve_is_invalid() {
    let mut ctx = setup();
    ctx.token_reserve_src.key = Key([9; 32]);
    assert_eq!(swap(&ctx, &pid(), 100, 0).unwrap_err(), ProgramError::Amm(AmmError::InvalidReserve));
}

#[test]
fn swap_same_reserve_twice() {
    let mut ctx = setup();
    ctx.token_reserve_dst.key = ctx.token_reserve_src.key;
    assert_eq!(swap(&ctx, &pid(), 100, 0).unwrap_err(), ProgramError::Amm(AmmError::SameReserve));
}

#[test]
fn swap_reserve_not_owned_by_authority() {
    let mut ctx = setup();
    ctx.token_reserve_dst.owner = Key([6; 32]);
    assert_eq!(swap(&ctx, &pid(), 100, 0).unwrap_err(), ProgramError::Amm(AmmError::Unauthorized));
}

#[test]
fn swap_mint_mismatch() {
    let mut ctx = setup();
    ctx.user_dst_token_acc.mint = Key([1; 32]);
    assert_eq!(swap(&ctx, &pid(), 100, 0).unwrap_err(), ProgramError::Amm(AmmError::InvalidMint));
}

#[test]
fn swap_same_user_account() {
    let mut ctx = setup();
    ctx.user_dst_token_acc.key = ctx.user_src_token_acc.key;
    assert_eq!(swap(&ctx, &pid(), 100, 0).unwrap_err(), ProgramError::Amm(AmmError::SameAccount));
}

#[test]
fn swap_user_account_of_someone_else() {
    let mut ctx = setup();
    ctx.user_src_token_acc.owner = Key([9; 32]);
    assert_eq!(swap(&ctx, &pid(), 100, 0).unwrap_err(), ProgramError::Amm(AmmError::Unauthorized));
}

#[test]
fn swap_wrong_mint_account() {
    let mut ctx = setup();
    ctx.mint_b = Key([9; 32]);
    assert_eq!(swap(&ctx, &pid(), 100, 0).unwrap_err(), ProgramError::ConstraintAddress);
}

#[test]
fn swap_wrong_pool_address() {
    let mut ctx = setup();
    ctx.pool_key = Key([9; 32]);
    assert_eq!(swap(&ctx, &pid(), 100, 0).unwrap_err(), ProgramError::ConstraintSeeds);
}

#[test]
fn swap_wrong_authority_address() {
    let mut ctx = setup();
    let fake = Key([9; 32]);
    ctx.pool_authority = fake;
    ctx.token_reserve_src.owner = fake;
    ctx.token_reserve_dst.owner = fake;
    assert_eq!(swap(&ctx, &pid(), 100, 0).unwrap_err(), ProgramError::ConstraintSeeds);
}

#[test]
fn swap_account_errors_come_before_amount_errors() {
    let mut ctx = setup();
    ctx.user_dst_token_acc.key = ctx.user_src_token_acc.key;
    assert_eq!(swap(&ctx, &pid(), 0, 0).unwrap_err(), ProgramError::Amm(AmmError::SameAccount));
}

#[test]
fn swap_arithmetic_failure_is_reported() {
    let mut ctx = setup();
    ctx.pool.fee_bps = 10001;
    assert_eq!(swap(&ctx, &pid(), 100, 0).unwrap_err(), ProgramError::ArithmeticFailure);
    // The balance check comes before the arithmetic.
    assert_eq!(swap(&ctx, &pid(), 0, 0).unwrap_err(), ProgramError::Amm(AmmError::InsufficientFunds));
}

#[test]
fn swap_into_full_reserve_fails() {
    let mut ctx = setup();
    ctx.token_reserve_dst.amount = u64::MAX - 10;
    assert_eq!(swap(&ctx, &pid(), 100, 0).unwrap_err(), ProgramError::ArithmeticFailure);
}

#[test]
fn swap_never_drains_a_stocked_pool() {
    let mut ctx = setup();
    ctx.user_src_token_acc.amount = u64::MAX / 2;
    let plan = swap(&ctx, &pid(), u64::MAX / 2, 0).unwrap();
    assert_eq!(plan.payout.amount, 999);
}

#[test]
fn swap_into_empty_input_reserve_takes_whole_output() {
    let mut ctx = setup();
    ctx.token_reserve_dst.amount = 0;
    let plan = swap(&ctx, &pid(), 100, 0).unwrap();
    assert_eq!(plan.payout.amount, 1000);
}

#[test]
fn swap_round_trip_returns_no_more() {
    let ctx = setup();
    let there = swap(&ctx, &pid(), 100, 0).unwrap();
    let mut back = ctx;
    // Reserves after the first swap, and the user swapping B back for A.
    back.token_reserve_src = TokenAccountData { amount: 1000 + there.deposit.amount, ..ctx.token_reserve_dst };
    back.token_reserve_dst = TokenAccountData { amount: 1000 - there.payout.amount, ..ctx.token_reserve_src };
    back.user_src_token_acc = TokenAccountData { amount: there.payout.amount, ..ctx.user_dst_token_acc };
    back.user_dst_token_acc = TokenAccountData { amount: 400, ..ctx.user_src_token_acc };
    let returned = swap(&back, &pid(), there.payout.amount, 0).unwrap();
    // 90 less the fee is 89; 1100 * 89 / 999 is 97.
    assert_eq!(returned.payout.amount, 97);
    assert!(returned.payout.amount <= 100);
}
