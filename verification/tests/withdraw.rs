use anchor_lang::prelude::Pubkey;
use anchor_spl::associated_token::get_associated_token_address;
use enswap_amm::pda::{associated_token_account_address, associated_token_program_key, token_program_key};
use enswap_amm::accounts::{Burn, MintData, TokenAccountData, Transfer};
use enswap_amm::enswap_amm::withdraw_liquidity;
use enswap_amm::errors::{AmmError, ProgramError};
use enswap_amm::instructions::withdraw_liquidity::WithdrawLiquidity;
use enswap_amm::key::Key;
use enswap_amm::state::Pool;
use std::str::FromStr;

fn program_id() -> Pubkey {
    Pubkey::from_str("F4dfAy46FYa11G28VkreEirfqdfPw3ptgmd8rwQffsYS").unwrap()
}

fn derive(seeds: &[&[u8]]) -> (Key, u8) {
    let (address, bump) = Pubkey::find_program_address(seeds, &program_id());
    (Key(address.to_bytes()), bump)
}

fn ata(wallet: &Key, mint: &Key) -> Key {
    let address = get_associated_token_address(&Pubkey::new_from_array(wallet.0), &Pubkey::new_from_array(mint.0));
    Key(address.to_bytes())
}

fn pid() -> Key {
    Key(program_id().to_bytes())
}

/// A pool of 1000 A and 3000 B with 300 liquidity tokens, 100 of them the user's.
fn setup() -> WithdrawLiquidity {
    let mint_a = Key([1; 32]);
    let mint_b = Key([2; 32]);
    let (pool_key, _) = derive(&[b"pool", &mint_a.0, &mint_b.0]);
    let (authority, bump) = derive(&[b"authority", &pool_key.0]);
    let (lp_mint, _) = derive(&[b"lp_mint", &pool_key.0]);
    let reserve_a = Key([3; 32]);
    let reserve_b = Key([4; 32]);
    let signer = Key([6; 32]);
    let pool = Pool {
        fee_bps: 30,
        mint_a,
        mint_b,
        token_reserve_a: reserve_a,
        token_reserve_b: reserve_b,
        lp_mint,
        sign_authority_bump: bump,
    };
    WithdrawLiquidity {
        mint_a,
        mint_b,
        pool_key,
        pool,
        pool_authority: authority,
        reserve_a: TokenAccountData { key: reserve_a, mint: mint_a, owner: authority, amount: 1000 },
        reserve_b: TokenAccountData { key: reserve_b, mint: mint_b, owner: authority, amount: 3000 },
        lp_mint: MintData { key: lp_mint, supply: 300 },
        user_lp_token_vault: TokenAccountData { key: ata(&signer, &lp_mint), mint: lp_mint, owner: signer, amount: 100 },
        user_token_a: TokenAccountData { key: ata(&signer, &mint_a), mint: mint_a, owner: signer, amount: 0 },
        user_token_b: TokenAccountData { key: ata(&signer, &mint_b), mint: mint_b, owner: signer, amount: 0 },
        signer,
    }
}

#[test]
fn withdraw_pays_pro_rata_shares() {
    let ctx = setup();
    let plan = withdraw_liquidity(&ctx, &pid(), 100, 333, 1000).unwrap();
    assert_eq!(
        plan.burn,
        Burn { mint: ctx.lp_mint.key, from: ctx.user_lp_token_vault.key, authority: Key([6; 32]), amount: 100 }
    );
    // 100 * 1000 / 300 is 333; 100 * 3000 / 300 is 1000.
    assert_eq!(
        plan.payout_a,
        Transfer { from: Key([3; 32]), to: ctx.user_token_a.key, authority: ctx.pool_authority, amount: 333 }
    );
    assert_eq!(
        plan.payout_b,
        Transfer { from: Key([4; 32]), to: ctx.user_token_b.key, authority: ctx.pool_authority, amount: 1000 }
    );
    assert_eq!(
        plan.payout_signer_seeds,
        vec![b"authority".to_vec(), ctx.pool_key.0.to_vec(), vec![ctx.pool.sign_authority_bump]]
    );
}

#[test]
fn withdraw_keeps_value_of_remaining_tokens() {
    let ctx = setup();
    let plan = withdraw_liquidity(&ctx, &pid(), 100, 0, 0).unwrap();
    // 667 A left for 200 tokens is at least 1000 A for 300 tokens.
    assert!((1000 - plan.payout_a.amount as u128) * 300 >= 1000 * 200);
    assert!((3000 - plan.payout_b.amount as u128) * 300 >= 3000 * 200);
}

#[test]
fn withdraw_whole_supply_empties_reserves() {
    let mut ctx = setup();
    ctx.user_lp_token_vault.amount = 300;
    let plan = withdraw_liquidity(&ctx, &pid(), 300, 0, 0).unwrap();
    assert_eq!(plan.payout_a.amount, 1000);
    assert_eq!(plan.payout_b.amount, 3000);
}

#[test]
fn withdraw_zero_is_insufficient() {
    let ctx = setup();
    assert_eq!(withdraw_liquidity(&ctx, &pid(), 0, 0, 0).unwrap_err(), ProgramError::Amm(AmmError::InsufficientFunds));
}

#[test]
fn withdraw_more_than_held_is_insufficient() {
    let ctx = setup();
    assert_eq!(withdraw_liquidity(&ctx, &pid(), 101, 0, 0).unwrap_err(), ProgramError::Amm(AmmError::InsufficientFunds));
}

#[test]
fn withdraw_slippage_on_a() {
    let ctx = setup();
    assert_eq!(withdraw_liquidity(&ctx, &pid(), 100, 334, 0).unwrap_err(), ProgramError::Amm(AmmError::SlippageExceeded));
}

#[test]
fn withdraw_slippage_on_b() {
    let ctx = setup();
    assert_eq!(withdraw_liquidity(&ctx, &pid(), 100, 0, 1001).unwrap_err(), ProgramError::Amm(AmmError::SlippageExceeded));
}

#[test]
fn withdraw_reserve_not_owned_by_authority() {
    let mut ctx = setup();
    ctx.reserve_b.owner = Key([6; 32]);
    assert_eq!(withdraw_liquidity(&ctx, &pid(), 100, 0, 0).unwrap_err(), ProgramError::Amm(AmmError::Unauthorized));
}

#[test]
fn withdraw_wrong_reserve_address() {
    let mut ctx = setup();
    ctx.reserve_a.key = Key([9; 32]);
    assert_eq!(withdraw_liquidity(&ctx, &pid(), 100, 0, 0).unwrap_err(), ProgramError::ConstraintAddress);
}

#[test]
fn withdraw_wrong_lp_mint() {
    let mut ctx = setup();
    ctx.lp_mint.key = Key([9; 32]);
    assert_eq!(withdraw_liquidity(&ctx, &pid(), 100, 0, 0).unwrap_err(), ProgramError::ConstraintSeeds);
}

#[test]
fn withdraw_wrong_mint_account() {
    let mut ctx = setup();
    ctx.mint_a = Key([9; 32]);
    assert_eq!(withdraw_liquidity(&ctx, &pid(), 100, 0, 0).unwrap_err(), ProgramError::ConstraintAddress);
}

#[test]
fn withdraw_from_empty_supply_fails() {
    let mut ctx = setup();
    ctx.lp_mint.supply = 0;
    assert_eq!(withdraw_liquidity(&ctx, &pid(), 100, 0, 0).unwrap_err(), ProgramError::ArithmeticFailure);
}

#[test]
fn withdraw_payout_account_of_someone_else() {
    let mut ctx = setup();
    ctx.user_token_a.owner = Key([9; 32]);
    assert_eq!(withdraw_liquidity(&ctx, &pid(), 100, 0, 0).unwrap_err(), ProgramError::ConstraintTokenOwner);
}

#[test]
fn withdraw_payout_account_not_associated() {
    let mut ctx = setup();
    ctx.user_token_b.key = Key([12; 32]);
    assert_eq!(withdraw_liquidity(&ctx, &pid(), 100, 0, 0).unwrap_err(), ProgramError::ConstraintAssociated);
}

#[test]
fn withdraw_lp_vault_not_associated() {
    let mut ctx = setup();
    ctx.user_lp_token_vault.key = ctx.user_token_a.key;
    assert_eq!(withdraw_liquidity(&ctx, &pid(), 100, 0, 0).unwrap_err(), ProgramError::ConstraintAssociated);
}

#[test]
fn withdraw_reserve_errors_come_before_user_account_errors() {
    let mut ctx = setup();
    ctx.user_token_a.owner = Key([9; 32]);
    ctx.reserve_b.owner = Key([6; 32]);
    assert_eq!(withdraw_liquidity(&ctx, &pid(), 100, 0, 0).unwrap_err(), ProgramError::Amm(AmmError::Unauthorized));
}

#[test]
fn associated_address_matches_token_program_client() {
    let wallet = Key([6; 32]);
    let mint = Key([1; 32]);
    assert_eq!(associated_token_account_address(&wallet, &mint), Some(ata(&wallet, &mint)));
    assert_ne!(associated_token_account_address(&wallet, &mint), Some(ata(&wallet, &Key([2; 32]))));
}

#[test]
fn withdrawing_more_pays_no_less() {
    let mut ctx = setup();
    ctx.user_lp_token_vault.amount = 300;
    let small = withdraw_liquidity(&ctx, &pid(), 50, 0, 0).unwrap();
    let large = withdraw_liquidity(&ctx, &pid(), 200, 0, 0).unwrap();
    assert_eq!((small.payout_a.amount, small.payout_b.amount), (166, 500));
    assert_eq!((large.payout_a.amount, large.payout_b.amount), (666, 2000));
}

#[test]
fn program_ids_match_the_token_crates() {
    assert_eq!(token_program_key(), Key(anchor_spl::token::ID.to_bytes()));
    assert_eq!(associated_token_program_key(), Key(anchor_spl::associated_token::ID.to_bytes()));
}
