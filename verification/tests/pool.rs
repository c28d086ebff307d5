use anchor_lang::prelude::Pubkey;
use enswap_amm::accounts::{MintData, TokenAccountData};
use enswap_amm::instructions::swap::Swap;
use enswap_amm::instructions::withdraw_liquidity::WithdrawLiquidity;
use enswap_amm::enswap_amm::initialize_pool;
use enswap_amm::errors::{AmmError, ProgramError};
use enswap_amm::instructions::initialize_pool::Initialize;
use enswap_amm::key::Key;
use enswap_amm::math::{amount_in_after_fee, constant_product_payout, pro_rata_share};
use enswap_amm::pda::{authority_signer_seeds, check_seeds, derive_address, pool_seeds};
use enswap_amm::state::{Pool, POOL_ACCOUNT_SPACE};
use std::str::FromStr;

fn program_id() -> Pubkey {
    Pubkey::from_str("F4dfAy46FYa11G28VkreEirfqdfPw3ptgmd8rwQffsYS").unwrap()
}

fn derive(seeds: &[&[u8]]) -> (Key, u8) {
    let (address, bump) = Pubkey::find_program_address(seeds, &program_id());
    (Key(address.to_bytes()), bump)
}

fn pid() -> Key {
    Key(program_id().to_bytes())
}

fn setup() -> Initialize {
    let mint_a = Key([1; 32]);
    let mint_b = Key([2; 32]);
    let (pool, _) = derive(&[b"pool", &mint_a.0, &mint_b.0]);
    Initialize {
        mint_a,
        mint_b,
        pool,
        lp_mint: derive(&[b"lp_mint", &pool.0]).0,
        token_reserve_a: derive(&[b"reserve_a", &pool.0]).0,
        token_reserve_b: derive(&[b"reserve_b", &pool.0]).0,
        pool_authority: derive(&[b"authority", &pool.0]).0,
        signer: Key([6; 32]),
    }
}

#[test]
fn initialize_records_pool() {
    let ctx = setup();
    let (_, bump) = derive(&[b"authority", &ctx.pool.0]);
    let pool = initialize_pool(&ctx, &pid(), 30).unwrap();
    assert_eq!(
        pool,
        Pool {
            fee_bps: 30,
            mint_a: ctx.mint_a,
            mint_b: ctx.mint_b,
            token_reserve_a: ctx.token_reserve_a,
            token_reserve_b: ctx.token_reserve_b,
            lp_mint: ctx.lp_mint,
            sign_authority_bump: bump,
        }
    );
}

#[test]
fn initialize_accepts_full_fee() {
    let ctx = setup();
    assert_eq!(initialize_pool(&ctx, &pid(), 10000).unwrap().fee_bps, 10000);
}

#[test]
fn initialize_refuses_excessive_fee() {
    let ctx = setup();
    assert_eq!(initialize_pool(&ctx, &pid(), 10001).unwrap_err(), ProgramError::Amm(AmmError::InvalidFee));
}

#[test]
fn initialize_refuses_wrong_reserve_address() {
    let mut ctx = setup();
    ctx.token_reserve_b = Key([9; 32]);
    assert_eq!(initialize_pool(&ctx, &pid(), 30).unwrap_err(), ProgramError::ConstraintSeeds);
}

#[test]
fn initialize_checks_accounts_before_fee() {
    let mut ctx = setup();
    ctx.pool_authority = Key([9; 32]);
    assert_eq!(initialize_pool(&ctx, &pid(), 20000).unwrap_err(), ProgramError::ConstraintSeeds);
}

#[test]
fn derived_address_matches_runtime_search() {
    let mint_a = Key([1; 32]);
    let mint_b = Key([2; 32]);
    let seeds = pool_seeds(&mint_a, &mint_b);
    assert_eq!(seeds, vec![b"pool".to_vec(), vec![1u8; 32], vec![2u8; 32]]);
    let expected = derive(&[b"pool", &mint_a.0, &mint_b.0]);
    assert_eq!(derive_address(&seeds, &pid()), Some(expected));
    assert_eq!(check_seeds(&expected.0, &seeds, &pid()), Ok(expected.1));
    assert_eq!(check_seeds(&mint_a, &seeds, &pid()), Err(ProgramError::ConstraintSeeds));
}

#[test]
fn too_long_seed_derives_nothing() {
    let seeds = vec![vec![0u8; 33]];
    assert_eq!(derive_address(&seeds, &pid()), None);
    assert_eq!(check_seeds(&Key([0; 32]), &seeds, &pid()), Err(ProgramError::NoViableBumpSeed));
}

#[test]
fn signer_seeds_layout() {
    let pool = Key([4; 32]);
    assert_eq!(authority_signer_seeds(&pool, 254), vec![b"authority".to_vec(), vec![4u8; 32], vec![254u8]]);
}

#[test]
fn fee_arithmetic() {
    assert_eq!(amount_in_after_fee(100, 30), 99);
    assert_eq!(amount_in_after_fee(u64::MAX, 0), u64::MAX);
    assert_eq!(amount_in_after_fee(u64::MAX, 10000), 0);
    assert_eq!(amount_in_after_fee(10000, 1), 9999);
}

#[test]
fn payout_arithmetic() {
    assert_eq!(constant_product_payout(1000, 1000, 99), 90);
    assert_eq!(constant_product_payout(u64::MAX, 0, u64::MAX), u64::MAX);
    assert_eq!(constant_product_payout(0, 5, 7), 0);
}

#[test]
fn share_arithmetic() {
    assert_eq!(pro_rata_share(1, 1000, 3), 333);
    assert_eq!(pro_rata_share(3, 1000, 3), 1000);
    // More tokens than the supply: the share is cut to 64 bits.
    assert_eq!(pro_rata_share(u64::MAX, u64::MAX, 1), 1);
}

#[test]
fn error_codes_and_messages() {
    assert_eq!(AmmError::InvalidFee.code(), 6000);
    assert_eq!(AmmError::SlippageExceeded.code(), 6005);
    assert_eq!(AmmError::SameAccount.code(), 6011);
    assert_eq!(AmmError::InsufficientFunds.message(), "Insufficient Funds");
    assert_eq!(ProgramError::Amm(AmmError::Unauthorized).code(), Some(6008));
    assert_eq!(ProgramError::ConstraintSeeds.code(), Some(2006));
    assert_eq!(ProgramError::ConstraintAddress.code(), Some(2012));
    assert_eq!(ProgramError::ConstraintTokenOwner.code(), Some(2015));
    assert_eq!(ProgramError::ConstraintAssociated.code(), Some(2009));
    assert_eq!(ProgramError::NoViableBumpSeed.code(), None);
    assert_eq!(ProgramError::ArithmeticFailure.code(), None);
}

#[test]
fn key_comparison() {
    let a = Key::new([1; 32]);
    let mut bytes = [1u8; 32];
    assert!(a.same_as(&Key::new(bytes)));
    bytes[31] = 2;
    assert!(!a.same_as(&Key::new(bytes)));
    assert_eq!(a.to_vec(), vec![1u8; 32]);
    assert_eq!(a.to_bytes(), [1u8; 32]);
}

#[test]
fn pool_account_space() {
    assert_eq!(POOL_ACCOUNT_SPACE, 171);
}

#[test]
fn arithmetic_guards() {
    let k = Key([0; 32]);
    let acct = |amount: u64| TokenAccountData { key: k, mint: k, owner: k, amount };
    let pool = Pool { fee_bps: 30, mint_a: k, mint_b: k, token_reserve_a: k, token_reserve_b: k, lp_mint: k, sign_authority_bump: 0 };
    let mut s = Swap {
        mint_a: k,
        mint_b: k,
        pool_key: k,
        pool,
        token_reserve_src: acct(1000),
        token_reserve_dst: acct(1000),
        user_src_token_acc: acct(500),
        user_dst_token_acc: acct(0),
        pool_authority: k,
        signer: k,
    };
    assert!(s.arithmetic_defined(100));
    s.pool.fee_bps = 10001;
    assert!(!s.arithmetic_defined(100));
    // Refused by the balance check before any arithmetic.
    assert!(s.arithmetic_defined(0));
    s.pool.fee_bps = 10000;
    s.token_reserve_dst.amount = 0;
    assert!(!s.arithmetic_defined(100));
    s.pool.fee_bps = 0;
    s.token_reserve_dst.amount = u64::MAX;
    assert!(!s.arithmetic_defined(100));
    let mut w = WithdrawLiquidity {
        mint_a: k,
        mint_b: k,
        pool_key: k,
        pool,
        pool_authority: k,
        reserve_a: acct(10),
        reserve_b: acct(10),
        lp_mint: MintData { key: k, supply: 0 },
        user_lp_token_vault: acct(5),
        user_token_a: acct(0),
        user_token_b: acct(0),
        signer: k,
    };
    assert!(!w.arithmetic_defined(5));
    assert!(w.arithmetic_defined(6));
    w.lp_mint.supply = 5;
    assert!(w.arithmetic_defined(5));
}

#[test]
fn constraint_codes_match_the_framework() {
    let framework = |e: anchor_lang::error::ErrorCode| Some(e as u32);
    assert_eq!(ProgramError::ConstraintSeeds.code(), framework(anchor_lang::error::ErrorCode::ConstraintSeeds));
    assert_eq!(ProgramError::ConstraintAddress.code(), framework(anchor_lang::error::ErrorCode::ConstraintAddress));
    assert_eq!(ProgramError::ConstraintTokenOwner.code(), framework(anchor_lang::error::ErrorCode::ConstraintTokenOwner));
    assert_eq!(ProgramError::ConstraintAssociated.code(), framework(anchor_lang::error::ErrorCode::ConstraintAssociated));
}
