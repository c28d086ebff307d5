use vstd::prelude::*;
use crate::errors::{AmmError, ProgramError};
use crate::instructions::initialize_pool::{self, Initialize};
use crate::instructions::swap::{
    self, swap_accounts_check, swap_computable, swap_plan_is, swap_refusal, Swap, SwapPlan,
};
use crate::instructions::withdraw_liquidity::{
    self, withdraw_accounts_check, withdraw_computable, withdraw_plan_is, withdraw_refusal,
    WithdrawLiquidity, WithdrawPlan,
};
use crate::key::Key;
use crate::state::Pool;

verus! {

/// Creates a pool under `program_id` with a fee of `fee` basis points: the
/// accounts are checked first, then the fee, and the pool's record comes
/// back.
pub fn initialize_pool(ctx: &Initialize, program_id: &Key, fee: u16) -> (r: Result<Pool, ProgramError>)
    ensures
        match ctx.accounts_check(program_id@) {
            Err(e) => r == Err::<Pool, ProgramError>(e),
            Ok(bumps) => if fee > 10000 {
                r == Err::<Pool, ProgramError>(ProgramError::Amm(AmmError::InvalidFee))
            } else {
                r == Ok::<Pool, ProgramError>(ctx.new_pool(bumps, fee))
            },
        },
{
    let bumps = match ctx.try_accounts(program_id) {
        Err(e) => return Err(e),
        Ok(b) => b,
    };
    match initialize_pool::handler(ctx, &bumps, fee) {
        Err(e) => Err(ProgramError::Amm(e)),
        Ok(pool) => Ok(pool),
    }
}

/// Swaps `amount_in` of the user's tokens for at least `min_amount_out` of
/// the other token: the accounts are checked first, then the amounts, and
/// the transfers to make come back. Where the swap's arithmetic has no
/// value, the result says so.
pub fn swap(ctx: &Swap, program_id: &Key, amount_in: u64, min_amount_out: u64) -> (r: Result<SwapPlan, ProgramError>)
    ensures
        match swap_accounts_check(*ctx, program_id@) {
            Err(e) => r matches Err(f) && f == e,
            Ok(_) => if !swap_computable(*ctx, amount_in) {
                r matches Err(f) && f == ProgramError::ArithmeticFailure
            } else {
                match r {
                    Err(f) => swap_refusal(*ctx, amount_in, min_amount_out) matches Some(a) && f == ProgramError::Amm(a),
                    Ok(plan) => swap_refusal(*ctx, amount_in, min_amount_out) is None && swap_plan_is(*ctx, amount_in, plan),
                }
            },
        },
{
    match ctx.try_accounts(program_id) {
        Err(e) => return Err(e),
        Ok(_) => {},
    }
    if !ctx.arithmetic_defined(amount_in) {
        return Err(ProgramError::ArithmeticFailure);
    }
    match swap::handler(ctx, amount_in, min_amount_out) {
        Err(e) => Err(ProgramError::Amm(e)),
        Ok(plan) => Ok(plan),
    }
}

/// Withdraws `lp_tokens` of the user's liquidity for shares of the two
/// reserves of at least `min_amount_a` and `min_amount_b`: the accounts are
/// checked first, then the amounts, and the burn and transfers to make come
/// back. Where the withdrawal's arithmetic has no value, the result says so.
pub fn withdraw_liquidity(
    ctx: &WithdrawLiquidity,
    program_id: &Key,
    lp_tokens: u64,
    min_amount_a: u64,
    min_amount_b: u64,
) -> (r: Result<WithdrawPlan, ProgramError>)
    ensures
        match withdraw_accounts_check(*ctx, program_id@) {
            Err(e) => r matches Err(f) && f == e,
            Ok(_) => if !withdraw_computable(*ctx, lp_tokens) {
                r matches Err(f) && f == ProgramError::ArithmeticFailure
            } else {
                match r {
                    Err(f) => withdraw_refusal(*ctx, lp_tokens, min_amount_a, min_amount_b) matches Some(a) && f == ProgramError::Amm(a),
                    Ok(plan) => withdraw_refusal(*ctx, lp_tokens, min_amount_a, min_amount_b) is None
                        && withdraw_plan_is(*ctx, lp_tokens, plan),
                }
            },
        },
{
    match ctx.try_accounts(program_id) {
        Err(e) => return Err(e),
        Ok(_) => {},
    }
    if !ctx.arithmetic_defined(lp_tokens) {
        return Err(ProgramError::ArithmeticFailure);
    }
    match withdraw_liquidity::handler(ctx, lp_tokens, min_amount_a, min_amount_b) {
        Err(e) => Err(ProgramError::Amm(e)),
        Ok(plan) => Ok(plan),
    }
}

} // verus!
