use vstd::prelude::*;
use crate::accounts::{Burn, MintData, TokenAccountData, Transfer};
use crate::errors::{AmmError, ProgramError};
use crate::key::Key;
use crate::math::{pro_rata, pro_rata_share};
use crate::pda::{
    authority_signer_seeds, authority_signer_seeds_of, authority_tag, authority_tag_bytes,
    associated_account_check, check_associated_account, check_seeds, lp_mint_tag, lp_mint_tag_bytes, pool_child_seed_vec, pool_child_seeds,
    pool_seeds, pool_seeds_of, seeds_check,
};
use crate::state::Pool;

verus! {

/// The accounts that a withdrawal names: the mints, the pool, its
/// authority, its reserves and liquidity mint, and the user's liquidity and
/// token accounts.
#[derive(Clone, Copy, Debug, PartialEq, Eq)]
pub struct WithdrawLiquidity {
    pub mint_a: Key,
    pub mint_b: Key,
    pub pool_key: Key,
    pub pool: Pool,
    pub pool_authority: Key,
    pub reserve_a: TokenAccountData,
    pub reserve_b: TokenAccountData,
    pub lp_mint: MintData,
    pub user_lp_token_vault: TokenAccountData,
    pub user_token_a: TokenAccountData,
    pub user_token_b: TokenAccountData,
    pub signer: Key,
}

/// The bump seeds of the program addresses that a withdrawal checks.
#[derive(Clone, Copy, Debug, PartialEq, Eq)]
pub struct WithdrawBumps {
    pub pool: u8,
    pub pool_authority: u8,
    pub lp_mint: u8,
}

/// What a withdrawal has the token program do, in this order: burn the
/// user's liquidity tokens, then pay the user their share of each reserve,
/// signed by the pool's authority with `payout_signer_seeds`.
#[derive(Clone, Debug)]
pub struct WithdrawPlan {
    pub burn: Burn,
    pub payout_a: Transfer,
    pub payout_b: Transfer,
    pub payout_signer_seeds: Vec<Vec<u8>>,
}

/// The outcome of a withdrawal's account checks, in the order of the
/// accounts: the mints are the pool's, the pool and its authority are the
/// program addresses of their seeds, each reserve belongs to the authority
/// and is the one the pool records, the liquidity mint is the program
/// address of the pool, and the user's liquidity, token-A and token-B
/// accounts are the signer's associated token accounts for the liquidity
/// mint, mint A and mint B.
pub open spec fn withdraw_accounts_check(ctx: WithdrawLiquidity, program_id: Seq<u8>) -> Result<WithdrawBumps, ProgramError> {
    if ctx.mint_a@ != ctx.pool.mint_a@ {
        Err(ProgramError::ConstraintAddress)
    } else if ctx.mint_b@ != ctx.pool.mint_b@ {
        Err(ProgramError::ConstraintAddress)
    } else {
        match seeds_check(ctx.pool_key@, pool_seeds_of(ctx.mint_a@, ctx.mint_b@), program_id) {
            Err(e) => Err(e),
            Ok(pool) => match seeds_check(ctx.pool_authority@, pool_child_seeds(authority_tag(), ctx.pool_key@), program_id) {
                Err(e) => Err(e),
                Ok(pool_authority) => if ctx.reserve_a.owner@ != ctx.pool_authority@ {
                    Err(ProgramError::Amm(AmmError::Unauthorized))
                } else if ctx.reserve_a.key@ != ctx.pool.token_reserve_a@ {
                    Err(ProgramError::ConstraintAddress)
                } else if ctx.reserve_b.owner@ != ctx.pool_authority@ {
                    Err(ProgramError::Amm(AmmError::Unauthorized))
                } else if ctx.reserve_b.key@ != ctx.pool.token_reserve_b@ {
                    Err(ProgramError::ConstraintAddress)
                } else {
                    match seeds_check(ctx.lp_mint.key@, pool_child_seeds(lp_mint_tag(), ctx.pool_key@), program_id) {
                        Err(e) => Err(e),
                        Ok(lp_mint) => match associated_account_check(ctx.user_lp_token_vault, ctx.signer@, ctx.lp_mint.key@) {
                            Some(e) => Err(e),
                            None => match associated_account_check(ctx.user_token_a, ctx.signer@, ctx.mint_a@) {
                                Some(e) => Err(e),
                                None => match associated_account_check(ctx.user_token_b, ctx.signer@, ctx.mint_b@) {
                                    Some(e) => Err(e),
                                    None => Ok(WithdrawBumps { pool, pool_authority, lp_mint }),
                                },
                            },
                        },
                    }
                },
            },
        }
    }
}

/// Where the division by the liquidity supply would otherwise abort (an
/// empty supply), the withdrawal is not asked for: this holds of every
/// withdrawal that passes the balance checks, as no one holds tokens of an
/// empty supply.
pub open spec fn withdraw_computable(ctx: WithdrawLiquidity, lp_tokens: u64) -> bool {
    lp_tokens > 0 && ctx.user_lp_token_vault.amount >= lp_tokens ==> ctx.lp_mint.supply > 0
}

/// The user's share of reserve A for `lp_tokens`, cut to 64 bits.
pub open spec fn withdraw_amount_a(ctx: WithdrawLiquidity, lp_tokens: u64) -> u64 {
    pro_rata(lp_tokens as int, ctx.reserve_a.amount as int, ctx.lp_mint.supply as int) as u64
}

/// The user's share of reserve B for `lp_tokens`, cut to 64 bits.
pub open spec fn withdraw_amount_b(ctx: WithdrawLiquidity, lp_tokens: u64) -> u64 {
    pro_rata(lp_tokens as int, ctx.reserve_b.amount as int, ctx.lp_mint.supply as int) as u64
}

/// The error that refuses a withdrawal of `lp_tokens` that must return at
/// least `min_amount_a` and `min_amount_b`: the amount must not be zero, the
/// user must hold it, and each share must reach its minimum. `None` where it
/// goes through.
pub open spec fn withdraw_refusal(ctx: WithdrawLiquidity, lp_tokens: u64, min_amount_a: u64, min_amount_b: u64) -> Option<AmmError> {
    if lp_tokens == 0 {
        Some(AmmError::InsufficientFunds)
    } else if ctx.user_lp_token_vault.amount < lp_tokens {
        Some(AmmError::InsufficientFunds)
    } else if withdraw_amount_a(ctx, lp_tokens) < min_amount_a {
        Some(AmmError::SlippageExceeded)
    } else if withdraw_amount_b(ctx, lp_tokens) < min_amount_b {
        Some(AmmError::SlippageExceeded)
    } else {
        None
    }
}

/// The operations of a withdrawal that goes through: the burn of the
/// user's liquidity tokens and the two payouts of their shares.
pub open spec fn withdraw_plan_is(ctx: WithdrawLiquidity, lp_tokens: u64, plan: WithdrawPlan) -> bool {
    &&& plan.burn == (Burn {
        mint: ctx.lp_mint.key,
        from: ctx.user_lp_token_vault.key,
        authority: ctx.signer,
        amount: lp_tokens,
    })
    &&& plan.payout_a == (Transfer {
        from: ctx.reserve_a.key,
        to: ctx.user_token_a.key,
        authority: ctx.pool_authority,
        amount: withdraw_amount_a(ctx, lp_tokens),
    })
    &&& plan.payout_b == (Transfer {
        from: ctx.reserve_b.key,
        to: ctx.user_token_b.key,
        authority: ctx.pool_authority,
        amount: withdraw_amount_b(ctx, lp_tokens),
    })
    &&& plan.payout_signer_seeds.deep_view() == authority_signer_seeds_of(ctx.pool_key@, ctx.pool.sign_authority_bump)
}

impl WithdrawLiquidity {
    /// Whether the withdrawal's arithmetic has a value for `lp_tokens`,
    /// wherever the balance checks let it run; where it has none, the program
    /// aborts.
    pub fn arithmetic_defined(&self, lp_tokens: u64) -> (r: bool)
        ensures
            r == withdraw_computable(*self, lp_tokens),
    {
        !(lp_tokens > 0 && self.user_lp_token_vault.amount >= lp_tokens) || self.lp_mint.supply > 0
    }

    /// Checks the accounts of a withdrawal, in their order, and gives the
    /// bump seeds.
    pub fn try_accounts(&self, program_id: &Key) -> (r: Result<WithdrawBumps, ProgramError>)
        ensures
            r == withdraw_accounts_check(*self, program_id@),
    {
        if !self.mint_a.same_as(&self.pool.mint_a) {
            return Err(ProgramError::ConstraintAddress);
        }
        if !self.mint_b.same_as(&self.pool.mint_b) {
            return Err(ProgramError::ConstraintAddress);
        }
        let pool = match check_seeds(&self.pool_key, &pool_seeds(&self.mint_a, &self.mint_b), program_id) {
            Err(e) => return Err(e),
            Ok(b) => b,
        };
        let pool_authority = match check_seeds(&self.pool_authority, &pool_child_seed_vec(authority_tag_bytes(), &self.pool_key), program_id) {
            Err(e) => return Err(e),
            Ok(b) => b,
        };
        if !self.reserve_a.owner.same_as(&self.pool_authority) {
            return Err(ProgramError::Amm(AmmError::Unauthorized));
        }
        if !self.reserve_a.key.same_as(&self.pool.token_reserve_a) {
            return Err(ProgramError::ConstraintAddress);
        }
        if !self.reserve_b.owner.same_as(&self.pool_authority) {
            return Err(ProgramError::Amm(AmmError::Unauthorized));
        }
        if !self.reserve_b.key.same_as(&self.pool.token_reserve_b) {
            return Err(ProgramError::ConstraintAddress);
        }
        let lp_mint = match check_seeds(&self.lp_mint.key, &pool_child_seed_vec(lp_mint_tag_bytes(), &self.pool_key), program_id) {
            Err(e) => return Err(e),
            Ok(b) => b,
        };
        match check_associated_account(&self.user_lp_token_vault, &self.signer, &self.lp_mint.key) {
            Some(e) => return Err(e),
            None => {},
        }
        match check_associated_account(&self.user_token_a, &self.signer, &self.mint_a) {
            Some(e) => return Err(e),
            None => {},
        }
        match check_associated_account(&self.user_token_b, &self.signer, &self.mint_b) {
            Some(e) => return Err(e),
            None => {},
        }
        Ok(WithdrawBumps { pool, pool_authority, lp_mint })
    }
}

/// Withdraws `lp_tokens` of the user's liquidity for their shares of the
/// two reserves, which must reach `min_amount_a` and `min_amount_b`: refuses
/// a zero amount, an amount the user does not hold, or a share below its
/// minimum, and otherwise gives the burn and the two payouts.
pub fn handler(ctx: &WithdrawLiquidity, lp_tokens: u64, min_amount_a: u64, min_amount_b: u64) -> (r: Result<WithdrawPlan, AmmError>)
    requires
        withdraw_computable(*ctx, lp_tokens),
    ensures
        match r {
            Err(e) => withdraw_refusal(*ctx, lp_tokens, min_amount_a, min_amount_b) == Some(e),
            Ok(plan) => withdraw_refusal(*ctx, lp_tokens, min_amount_a, min_amount_b) is None
                && withdraw_plan_is(*ctx, lp_tokens, plan),
        },
        r matches Ok(plan) ==> {
            &&& plan.burn.amount == lp_tokens
            &&& plan.burn.from == ctx.user_lp_token_vault.key
            &&& plan.burn.mint == ctx.lp_mint.key
            &&& plan.payout_a.from == ctx.reserve_a.key
            &&& plan.payout_a.to == ctx.user_token_a.key
            &&& plan.payout_b.from == ctx.reserve_b.key
            &&& plan.payout_b.to == ctx.user_token_b.key
            &&& plan.payout_a.amount >= min_amount_a
            &&& plan.payout_b.amount >= min_amount_b
        },
{
    let total_lp_supply = ctx.lp_mint.supply;
    if !(lp_tokens > 0) {
        return Err(AmmError::InsufficientFunds);
    }
    if !(ctx.user_lp_token_vault.amount >= lp_tokens) {
        return Err(AmmError::InsufficientFunds);
    }
    let amount_a = pro_rata_share(lp_tokens, ctx.reserve_a.amount, total_lp_supply);
    let amount_b = pro_rata_share(lp_tokens, ctx.reserve_b.amount, total_lp_supply);
    if !(amount_a >= min_amount_a) {
        return Err(AmmError::SlippageExceeded);
    }
    if !(amount_b >= min_amount_b) {
        return Err(AmmError::SlippageExceeded);
    }
    let burn = Burn {
        mint: ctx.lp_mint.key,
        from: ctx.user_lp_token_vault.key,
        authority: ctx.signer,
        amount: lp_tokens,
    };
    let payout_a = Transfer {
        from: ctx.reserve_a.key,
        to: ctx.user_token_a.key,
        authority: ctx.pool_authority,
        amount: amount_a,
    };
    let payout_b = Transfer {
        from: ctx.reserve_b.key,
        to: ctx.user_token_b.key,
        authority: ctx.pool_authority,
        amount: amount_b,
    };
    let payout_signer_seeds = authority_signer_seeds(&ctx.pool_key, ctx.pool.sign_authority_bump);
    Ok(WithdrawPlan { burn, payout_a, payout_b, payout_signer_seeds })
}

} // verus!
