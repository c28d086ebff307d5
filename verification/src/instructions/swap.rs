use vstd::prelude::*;
use crate::accounts::{TokenAccountData, Transfer};
use crate::errors::{AmmError, ProgramError};
use crate::key::Key;
use crate::math::{after_fee, amount_in_after_fee, constant_product_payout, product_payout, swap_arithmetic_ok};
use crate::pda::{
    authority_signer_seeds, authority_signer_seeds_of, authority_tag, authority_tag_bytes,
    check_seeds, pool_child_seed_vec, pool_child_seeds, pool_seeds, pool_seeds_of, seeds_check,
};
use crate::state::Pool;

verus! {

/// The accounts that a swap names. The user pays into `token_reserve_dst`
/// from `user_src_token_acc`, and is paid out of `token_reserve_src` into
/// `user_dst_token_acc`.
#[derive(Clone, Copy, Debug, PartialEq, Eq)]
pub struct Swap {
    pub mint_a: Key,
    pub mint_b: Key,
    pub pool_key: Key,
    pub pool: Pool,
    pub token_reserve_src: TokenAccountData,
    pub token_reserve_dst: TokenAccountData,
    pub user_src_token_acc: TokenAccountData,
    pub user_dst_token_acc: TokenAccountData,
    pub pool_authority: Key,
    pub signer: Key,
}

/// The bump seeds of the program addresses that a swap checks.
#[derive(Clone, Copy, Debug, PartialEq, Eq)]
pub struct SwapBumps {
    pub pool: u8,
    pub pool_authority: u8,
}

/// What a swap has the token program do, in this order: take the user's
/// input into the input reserve, then pay the user out of the output
/// reserve, signed by the pool's authority with `payout_signer_seeds`.
#[derive(Clone, Debug)]
pub struct SwapPlan {
    pub deposit: Transfer,
    pub payout: Transfer,
    pub payout_signer_seeds: Vec<Vec<u8>>,
}

/// The first of the pool's own rules on a swap's token accounts that they
/// break, in the order of the accounts: each reserve must be one of the
/// pool's, the two must differ, each must belong to the pool's authority and
/// hold the mint of the user account it pays or is paid by; the two user
/// accounts must differ and belong to the signer.
pub open spec fn swap_account_violation(ctx: Swap) -> Option<AmmError> {
    let src = ctx.token_reserve_src;
    let dst = ctx.token_reserve_dst;
    let user_src = ctx.user_src_token_acc;
    let user_dst = ctx.user_dst_token_acc;
    let pool = ctx.pool;
    if !(src.key@ == pool.token_reserve_a@ || src.key@ == pool.token_reserve_b@) {
        Some(AmmError::InvalidReserve)
    } else if src.key@ == dst.key@ {
        Some(AmmError::SameReserve)
    } else if src.owner@ != ctx.pool_authority@ {
        Some(AmmError::Unauthorized)
    } else if src.mint@ != user_dst.mint@ {
        Some(AmmError::InvalidMint)
    } else if !(dst.key@ == pool.token_reserve_a@ || dst.key@ == pool.token_reserve_b@) {
        Some(AmmError::InvalidReserve)
    } else if dst.key@ == src.key@ {
        Some(AmmError::SameReserve)
    } else if dst.owner@ != ctx.pool_authority@ {
        Some(AmmError::Unauthorized)
    } else if dst.mint@ != user_src.mint@ {
        Some(AmmError::InvalidMint)
    } else if user_src.key@ == user_dst.key@ {
        Some(AmmError::SameAccount)
    } else if user_src.owner@ != ctx.signer@ {
        Some(AmmError::Unauthorized)
    } else if user_dst.key@ == user_src.key@ {
        Some(AmmError::SameAccount)
    } else if user_dst.owner@ != ctx.signer@ {
        Some(AmmError::Unauthorized)
    } else {
        None
    }
}

/// The outcome of a swap's account checks, in the order of the accounts:
/// the mints are the pool's, the pool is the program address of its mints,
/// the token accounts keep the pool's rules, and the authority is the
/// program address of the pool.
pub open spec fn swap_accounts_check(ctx: Swap, program_id: Seq<u8>) -> Result<SwapBumps, ProgramError> {
    if ctx.mint_a@ != ctx.pool.mint_a@ {
        Err(ProgramError::ConstraintAddress)
    } else if ctx.mint_b@ != ctx.pool.mint_b@ {
        Err(ProgramError::ConstraintAddress)
    } else {
        match seeds_check(ctx.pool_key@, pool_seeds_of(ctx.mint_a@, ctx.mint_b@), program_id) {
            Err(e) => Err(e),
            Ok(pool) => match swap_account_violation(ctx) {
                Some(e) => Err(ProgramError::Amm(e)),
                None => match seeds_check(ctx.pool_authority@, pool_child_seeds(authority_tag(), ctx.pool_key@), program_id) {
                    Err(e) => Err(e),
                    Ok(pool_authority) => Ok(SwapBumps { pool, pool_authority }),
                },
            },
        }
    }
}

/// What the user is paid for `amount_in`: the constant-product payout of
/// the output reserve for the input net of the pool's fee.
pub open spec fn swap_payout(ctx: Swap, amount_in: u64) -> int {
    product_payout(
        ctx.token_reserve_src.amount as int,
        ctx.token_reserve_dst.amount as int,
        after_fee(amount_in as int, ctx.pool.fee_bps as int),
    )
}

/// Where a swap's arithmetic would otherwise abort (a fee above the whole
/// input, or an input reserve that would overflow or stay empty), the swap
/// is not asked for: this holds of every swap that passes the balance
/// checks.
pub open spec fn swap_computable(ctx: Swap, amount_in: u64) -> bool {
    ctx.user_src_token_acc.amount >= amount_in && amount_in > 0 ==> swap_arithmetic_ok(
        ctx.pool.fee_bps as int,
        ctx.token_reserve_dst.amount as int,
        amount_in as int,
    )
}

/// The error that refuses a swap of `amount_in` that must pay out at least
/// `min_amount_out`: the user must hold the input, which must not be zero,
/// and the payout must reach the minimum. `None` where it goes through.
pub open spec fn swap_refusal(ctx: Swap, amount_in: u64, min_amount_out: u64) -> Option<AmmError> {
    if ctx.user_src_token_acc.amount < amount_in || amount_in == 0 {
        Some(AmmError::InsufficientFunds)
    } else if swap_payout(ctx, amount_in) < min_amount_out {
        Some(AmmError::SlippageExceeded)
    } else {
        None
    }
}

/// The transfers of a swap that goes through: the whole input from the
/// user into the input reserve, and the payout from the output reserve to
/// the user, signed by the pool's authority.
pub open spec fn swap_plan_is(ctx: Swap, amount_in: u64, plan: SwapPlan) -> bool {
    &&& plan.deposit == (Transfer {
        from: ctx.user_src_token_acc.key,
        to: ctx.token_reserve_dst.key,
        authority: ctx.signer,
        amount: amount_in,
    })
    &&& plan.payout.from == ctx.token_reserve_src.key
    &&& plan.payout.to == ctx.user_dst_token_acc.key
    &&& plan.payout.authority == ctx.pool_authority
    &&& plan.payout.amount == swap_payout(ctx, amount_in)
    &&& plan.payout_signer_seeds.deep_view() == authority_signer_seeds_of(ctx.pool_key@, ctx.pool.sign_authority_bump)
}

impl Swap {
    /// Whether the swap's arithmetic has a value for `amount_in`, wherever
    /// the balance checks let it run; where it has none, the program aborts.
    pub fn arithmetic_defined(&self, amount_in: u64) -> (r: bool)
        ensures
            r == swap_computable(*self, amount_in),
    {
        if !(self.user_src_token_acc.amount >= amount_in && amount_in > 0) {
            return true;
        }
        if self.pool.fee_bps > 10000 {
            return false;
        }
        let net = amount_in_after_fee(amount_in, self.pool.fee_bps);
        let reserve_in = self.token_reserve_dst.amount;
        reserve_in <= u64::MAX - net && reserve_in + net > 0
    }

    /// Checks the accounts of a swap, in their order, and gives the bump
    /// seeds.
    pub fn try_accounts(&self, program_id: &Key) -> (r: Result<SwapBumps, ProgramError>)
        ensures
            r == swap_accounts_check(*self, program_id@),
    {
        if !self.mint_a.same_as(&self.pool.mint_a) {
            return Err(ProgramError::ConstraintAddress);
        }
        if !self.mint_b.same_as(&self.pool.mint_b) {
            return Err(ProgramError::ConstraintAddress);
        }
        let pool = match check_seeds(&self.pool_key, &pool_seeds(&self.mint_a, &self.mint_b), program_id) {
            Err(e) => return Err(e),
            Ok(b) => b,
        };
        match self.account_violation() {
            Some(e) => return Err(ProgramError::Amm(e)),
            None => {},
        }
        let pool_authority = match check_seeds(&self.pool_authority, &pool_child_seed_vec(authority_tag_bytes(), &self.pool_key), program_id) {
            Err(e) => return Err(e),
            Ok(b) => b,
        };
        Ok(SwapBumps { pool, pool_authority })
    }

    /// The first of the pool's own rules on the token accounts that they
    /// break.
    pub fn account_violation(&self) -> (r: Option<AmmError>)
        ensures
            r == swap_account_violation(*self),
    {
        let src = &self.token_reserve_src;
        let dst = &self.token_reserve_dst;
        let user_src = &self.user_src_token_acc;
        let user_dst = &self.user_dst_token_acc;
        let pool = &self.pool;
        if !(src.key.same_as(&pool.token_reserve_a) || src.key.same_as(&pool.token_reserve_b)) {
            return Some(AmmError::InvalidReserve);
        }
        if src.key.same_as(&dst.key) {
            return Some(AmmError::SameReserve);
        }
        if !src.owner.same_as(&self.pool_authority) {
            return Some(AmmError::Unauthorized);
        }
        if !src.mint.same_as(&user_dst.mint) {
            return Some(AmmError::InvalidMint);
        }
        if !(dst.key.same_as(&pool.token_reserve_a) || dst.key.same_as(&pool.token_reserve_b)) {
            return Some(AmmError::InvalidReserve);
        }
        if dst.key.same_as(&src.key) {
            return Some(AmmError::SameReserve);
        }
        if !dst.owner.same_as(&self.pool_authority) {
            return Some(AmmError::Unauthorized);
        }
        if !dst.mint.same_as(&user_src.mint) {
            return Some(AmmError::InvalidMint);
        }
        if user_src.key.same_as(&user_dst.key) {
            return Some(AmmError::SameAccount);
        }
        if !user_src.owner.same_as(&self.signer) {
            return Some(AmmError::Unauthorized);
        }
        if user_dst.key.same_as(&user_src.key) {
            return Some(AmmError::SameAccount);
        }
        if !user_dst.owner.same_as(&self.signer) {
            return Some(AmmError::Unauthorized);
        }
        None
    }
}

/// Swaps `amount_in` of the user's tokens for at least `min_amount_out` of
/// the other token: refuses where the user does not hold the input, the
/// input is zero or the payout falls short of the minimum, and otherwise
/// gives the two transfers.
pub fn handler(ctx: &Swap, amount_in: u64, min_amount_out: u64) -> (r: Result<SwapPlan, AmmError>)
    requires
        swap_computable(*ctx, amount_in),
    ensures
        match r {
            Err(e) => swap_refusal(*ctx, amount_in, min_amount_out) == Some(e),
            Ok(plan) => swap_refusal(*ctx, amount_in, min_amount_out) is None && swap_plan_is(*ctx, amount_in, plan),
        },
        r matches Ok(plan) ==> {
            &&& plan.deposit.from == ctx.user_src_token_acc.key
            &&& plan.deposit.to == ctx.token_reserve_dst.key
            &&& plan.deposit.amount == amount_in
            &&& plan.payout.from == ctx.token_reserve_src.key
            &&& plan.payout.to == ctx.user_dst_token_acc.key
            &&& plan.payout.amount >= min_amount_out
        },
{
    if !(ctx.user_src_token_acc.amount >= amount_in) {
        return Err(AmmError::InsufficientFunds);
    }
    if !(amount_in > 0) {
        return Err(AmmError::InsufficientFunds);
    }
    let pool = &ctx.pool;
    let amount_in_post_fee = amount_in_after_fee(amount_in, pool.fee_bps);
    let reserve_src = &ctx.token_reserve_src;
    let reserve_dst = &ctx.token_reserve_dst;
    let calculated_amount_out = constant_product_payout(reserve_src.amount, reserve_dst.amount, amount_in_post_fee);
    if !(reserve_src.amount >= calculated_amount_out) {
        return Err(AmmError::InsufficientFunds);
    }
    if !(calculated_amount_out >= min_amount_out) {
        return Err(AmmError::SlippageExceeded);
    }
    let deposit = Transfer {
        from: ctx.user_src_token_acc.key,
        to: ctx.token_reserve_dst.key,
        authority: ctx.signer,
        amount: amount_in,
    };
    let payout = Transfer {
        from: ctx.token_reserve_src.key,
        to: ctx.user_dst_token_acc.key,
        authority: ctx.pool_authority,
        amount: calculated_amount_out,
    };
    let payout_signer_seeds = authority_signer_seeds(&ctx.pool_key, pool.sign_authority_bump);
    Ok(SwapPlan { deposit, payout, payout_signer_seeds })
}

} // verus!
