use vstd::prelude::*;
use vstd::arithmetic::div_mod::*;
use vstd::arithmetic::mul::*;
use crate::instructions::initialize_pool::{Initialize, InitializeBumps};
use crate::instructions::swap::{swap_accounts_check, swap_computable, swap_payout, swap_plan_is, swap_refusal, Swap, SwapPlan};
use crate::instructions::withdraw_liquidity::{
    withdraw_accounts_check, withdraw_computable, withdraw_plan_is, withdraw_refusal, WithdrawLiquidity, WithdrawPlan,
};
use crate::math::{after_fee, lemma_after_fee_bounded, lemma_payout_bounded, lemma_pro_rata_bounded, pro_rata, product_payout};
use crate::errors::AmmError;
use crate::pda::{
    associated_token_address_of, authority_tag, lp_mint_tag, pool_child_seeds, pool_seeds_of, program_address,
    reserve_a_tag, reserve_b_tag,
};
use crate::state::Pool;

verus! {

/// If `q * d <= n` with `d > 0`, then `q` is at most `n / d`.
proof fn lemma_mul_le_implies_le_div(q: int, d: int, n: int)
    requires
        d > 0,
        q >= 0,
        q * d <= n,
    ensures
        q <= n / d,
{
    lemma_div_is_ordered(q * d, n, d);
    lemma_div_by_multiple(q, d);
}

/// The quotient times the divisor never exceeds the dividend.
proof fn lemma_div_times_divisor_le(n: int, d: int)
    requires
        d > 0,
        n >= 0,
    ensures
        (n / d) * d <= n,
        n - (n / d) * d < d,
{
    lemma_fundamental_div_mod(n, d);
    lemma_mod_bound(n, d);
    lemma_mul_is_commutative(d, n / d);
}

/// Without a fee the whole input goes into the pool; with the highest fee,
/// nothing does.
pub proof fn law_fee_extremes(amount_in: int)
    requires
        amount_in >= 0,
    ensures
        after_fee(amount_in, 0) == amount_in,
        after_fee(amount_in, 10000) == 0,
{
    lemma_div_by_multiple(amount_in, 10000);
}

/// A larger input never nets less after the same fee.
pub proof fn law_after_fee_monotone(a1: int, a2: int, fee_bps: int)
    requires
        0 <= a1 <= a2,
        0 <= fee_bps <= 10000,
    ensures
        after_fee(a1, fee_bps) <= after_fee(a2, fee_bps),
{
    let k = 10000 - fee_bps;
    assert(a1 * k <= a2 * k) by (nonlinear_arith)
        requires
            0 <= a1 <= a2,
            0 <= k,
    ;
    lemma_div_is_ordered(a1 * k, a2 * k, 10000);
}

/// A swap never lowers the product of the two reserves: the input reserve
/// grows by the whole input (fee included) and the output reserve shrinks by
/// the payout, and the product afterwards is at least the product before.
pub proof fn law_swap_keeps_product(reserve_in: int, reserve_out: int, amount_in: int, fee_bps: int)
    requires
        0 <= reserve_in,
        0 <= reserve_out,
        0 <= amount_in,
        0 <= fee_bps <= 10000,
        reserve_in + after_fee(amount_in, fee_bps) > 0,
    ensures
        ({
            let out = product_payout(reserve_out, reserve_in, after_fee(amount_in, fee_bps));
            (reserve_in + amount_in) * (reserve_out - out) >= reserve_in * reserve_out
        }),
{
    let net = after_fee(amount_in, fee_bps);
    lemma_after_fee_bounded(amount_in, fee_bps);
    let d = reserve_in + net;
    let out = product_payout(reserve_out, reserve_in, net);
    lemma_payout_bounded(reserve_out, reserve_in, net);
    assert(reserve_out * net >= 0) by (nonlinear_arith)
        requires
            reserve_out >= 0,
            net >= 0,
    ;
    lemma_div_times_divisor_le(reserve_out * net, d);
    assert(out * d <= reserve_out * net);
    assert((reserve_in + amount_in) * (reserve_out - out) >= reserve_in * reserve_out)
        by (nonlinear_arith)
        requires
            d == reserve_in + net,
            out * d <= reserve_out * net,
            0 <= out <= reserve_out,
            0 <= net <= amount_in,
            0 <= reserve_in,
    ;
}

/// A swap into a pool whose input reserve is not empty never drains the
/// output reserve: the payout stays below it.
pub proof fn law_swap_never_drains(reserve_in: int, reserve_out: int, amount: int)
    requires
        0 < reserve_in,
        0 < reserve_out,
        0 <= amount,
    ensures
        product_payout(reserve_out, reserve_in, amount) < reserve_out,
{
    let d = reserve_in + amount;
    let out = product_payout(reserve_out, reserve_in, amount);
    assert(reserve_out * amount >= 0) by (nonlinear_arith)
        requires
            reserve_out >= 0,
            amount >= 0,
    ;
    lemma_div_times_divisor_le(reserve_out * amount, d);
    assert(out < reserve_out) by (nonlinear_arith)
        requires
            d == reserve_in + amount,
            out * d <= reserve_out * amount,
            0 < reserve_in,
            0 < reserve_out,
            0 <= amount,
    ;
}

/// At the same reserves, a larger net input never gets a smaller payout.
pub proof fn law_payout_monotone(reserve_in: int, reserve_out: int, a1: int, a2: int)
    requires
        0 <= reserve_in,
        0 <= reserve_out,
        0 <= a1 <= a2,
        reserve_in + a1 > 0,
    ensures
        product_payout(reserve_out, reserve_in, a1) <= product_payout(reserve_out, reserve_in, a2),
{
    let d1 = reserve_in + a1;
    let d2 = reserve_in + a2;
    let q1 = product_payout(reserve_out, reserve_in, a1);
    lemma_payout_bounded(reserve_out, reserve_in, a1);
    assert(reserve_out * a1 >= 0) by (nonlinear_arith)
        requires
            reserve_out >= 0,
            a1 >= 0,
    ;
    lemma_div_times_divisor_le(reserve_out * a1, d1);
    assert(q1 * d2 <= reserve_out * a2) by (nonlinear_arith)
        requires
            d1 == reserve_in + a1,
            d2 == reserve_in + a2,
            q1 * d1 <= reserve_out * a1,
            0 <= q1 <= reserve_out,
            a1 <= a2,
    ;
    lemma_mul_le_implies_le_div(q1, d2, reserve_out * a2);
}

/// A larger input never gets a smaller payout, at the same reserves and fee.
pub proof fn law_swap_monotone(reserve_in: int, reserve_out: int, a1: int, a2: int, fee_bps: int)
    requires
        0 <= reserve_in,
        0 <= reserve_out,
        0 <= a1 <= a2,
        0 <= fee_bps <= 10000,
        reserve_in + after_fee(a1, fee_bps) > 0,
    ensures
        product_payout(reserve_out, reserve_in, after_fee(a1, fee_bps))
            <= product_payout(reserve_out, reserve_in, after_fee(a2, fee_bps)),
{
    law_after_fee_monotone(a1, a2, fee_bps);
    lemma_after_fee_bounded(a1, fee_bps);
    law_payout_monotone(reserve_in, reserve_out, after_fee(a1, fee_bps), after_fee(a2, fee_bps));
}

/// A withdrawal never lowers what each remaining liquidity token stands
/// for: the reserve left, per token left, is at least the reserve before,
/// per token before.
pub proof fn law_withdraw_keeps_share_value(lp: int, reserve: int, supply: int)
    requires
        0 <= lp <= supply,
        0 <= reserve,
        supply > 0,
    ensures
        (reserve - pro_rata(lp, reserve, supply)) * supply >= reserve * (supply - lp),
{
    let q = pro_rata(lp, reserve, supply);
    assert(lp * reserve >= 0) by (nonlinear_arith)
        requires
            lp >= 0,
            reserve >= 0,
    ;
    lemma_div_times_divisor_le(lp * reserve, supply);
    assert((reserve - q) * supply >= reserve * (supply - lp)) by (nonlinear_arith)
        requires
            q * supply <= lp * reserve,
    ;
}

/// Withdrawing the whole liquidity supply returns the whole reserve, and
/// withdrawing nothing returns nothing.
pub proof fn law_withdraw_extremes(reserve: int, supply: int)
    requires
        0 <= reserve,
        supply > 0,
    ensures
        pro_rata(supply, reserve, supply) == reserve,
        pro_rata(0, reserve, supply) == 0,
{
    lemma_mul_is_commutative(supply, reserve);
    lemma_div_by_multiple(reserve, supply);
}

/// The reserve check of a swap never refuses it: whatever passes the
/// balance checks is paid out of the output reserve no more than it holds.
pub proof fn law_swap_payout_within_reserve(ctx: Swap, amount_in: u64)
    requires
        swap_computable(ctx, amount_in),
        ctx.user_src_token_acc.amount >= amount_in,
        amount_in > 0,
    ensures
        0 <= swap_payout(ctx, amount_in) <= ctx.token_reserve_src.amount,
{
    lemma_after_fee_bounded(amount_in as int, ctx.pool.fee_bps as int);
    lemma_payout_bounded(
        ctx.token_reserve_src.amount as int,
        ctx.token_reserve_dst.amount as int,
        after_fee(amount_in as int, ctx.pool.fee_bps as int),
    );
}

/// A swap that goes through never lowers the product of the pool's
/// reserves: the input reserve gains the whole deposit and the output
/// reserve loses the payout, and the product afterwards is at least the
/// product before.
pub proof fn law_swap_plan_keeps_product(ctx: Swap, amount_in: u64, min_amount_out: u64, plan: SwapPlan)
    requires
        swap_computable(ctx, amount_in),
        swap_refusal(ctx, amount_in, min_amount_out) is None,
        swap_plan_is(ctx, amount_in, plan),
    ensures
        plan.payout.amount <= ctx.token_reserve_src.amount,
        (ctx.token_reserve_dst.amount + plan.deposit.amount) * (ctx.token_reserve_src.amount - plan.payout.amount)
            >= ctx.token_reserve_dst.amount * ctx.token_reserve_src.amount,
{
    law_swap_payout_within_reserve(ctx, amount_in);
    law_swap_keeps_product(
        ctx.token_reserve_dst.amount as int,
        ctx.token_reserve_src.amount as int,
        amount_in as int,
        ctx.pool.fee_bps as int,
    );
}

/// A swap into a pool whose two reserves both hold tokens never empties the
/// output reserve.
pub proof fn law_swap_plan_never_drains(ctx: Swap, amount_in: u64, min_amount_out: u64, plan: SwapPlan)
    requires
        swap_computable(ctx, amount_in),
        swap_refusal(ctx, amount_in, min_amount_out) is None,
        swap_plan_is(ctx, amount_in, plan),
        ctx.token_reserve_dst.amount > 0,
        ctx.token_reserve_src.amount > 0,
    ensures
        plan.payout.amount < ctx.token_reserve_src.amount,
{
    lemma_after_fee_bounded(amount_in as int, ctx.pool.fee_bps as int);
    law_swap_never_drains(
        ctx.token_reserve_dst.amount as int,
        ctx.token_reserve_src.amount as int,
        after_fee(amount_in as int, ctx.pool.fee_bps as int),
    );
}

/// A withdrawal that goes through pays out no more than each reserve holds
/// and never lowers what each remaining liquidity token stands for, as long
/// as it withdraws no more than the whole liquidity supply (as every
/// withdrawal from a token account does, no account holding more than the
/// supply).
pub proof fn law_withdraw_plan_keeps_share_value(
    ctx: WithdrawLiquidity,
    lp_tokens: u64,
    min_amount_a: u64,
    min_amount_b: u64,
    plan: WithdrawPlan,
)
    requires
        withdraw_computable(ctx, lp_tokens),
        withdraw_refusal(ctx, lp_tokens, min_amount_a, min_amount_b) is None,
        withdraw_plan_is(ctx, lp_tokens, plan),
        lp_tokens <= ctx.lp_mint.supply,
    ensures
        plan.payout_a.amount <= ctx.reserve_a.amount,
        plan.payout_b.amount <= ctx.reserve_b.amount,
        (ctx.reserve_a.amount - plan.payout_a.amount) * ctx.lp_mint.supply
            >= ctx.reserve_a.amount * (ctx.lp_mint.supply - lp_tokens),
        (ctx.reserve_b.amount - plan.payout_b.amount) * ctx.lp_mint.supply
            >= ctx.reserve_b.amount * (ctx.lp_mint.supply - lp_tokens),
{
    let supply = ctx.lp_mint.supply as int;
    lemma_pro_rata_bounded(lp_tokens as int, ctx.reserve_a.amount as int, supply);
    lemma_pro_rata_bounded(lp_tokens as int, ctx.reserve_b.amount as int, supply);
    law_withdraw_keeps_share_value(lp_tokens as int, ctx.reserve_a.amount as int, supply);
    law_withdraw_keeps_share_value(lp_tokens as int, ctx.reserve_b.amount as int, supply);
}

/// The bump seed that a new pool records is the one with which the pool's
/// seeds derive its authority: signing with it signs as that authority.
pub proof fn law_pool_records_authority_bump(ctx: Initialize, program_id: Seq<u8>, fee: u16)
    requires
        ctx.accounts_check(program_id) is Ok,
        fee <= 10000,
    ensures
        program_address(pool_child_seeds(authority_tag(), ctx.pool@), program_id) == Some(
            (ctx.pool_authority@, ctx.new_pool(ctx.accounts_check(program_id)->Ok_0, fee).sign_authority_bump),
        ),
{
}

/// A swap whose accounts pass the checks moves tokens only between the
/// pool's two reserves, which differ and belong to the pool's authority, and
/// two different accounts of the signer, each reserve holding the mint of
/// the user account on its side; and the authority is the program address
/// of the pool.
pub proof fn law_checked_swap_accounts(ctx: Swap, program_id: Seq<u8>)
    requires
        swap_accounts_check(ctx, program_id) is Ok,
    ensures
        ctx.token_reserve_src.key@ == ctx.pool.token_reserve_a@ || ctx.token_reserve_src.key@ == ctx.pool.token_reserve_b@,
        ctx.token_reserve_dst.key@ == ctx.pool.token_reserve_a@ || ctx.token_reserve_dst.key@ == ctx.pool.token_reserve_b@,
        ctx.token_reserve_src.key@ != ctx.token_reserve_dst.key@,
        ctx.token_reserve_src.owner@ == ctx.pool_authority@,
        ctx.token_reserve_dst.owner@ == ctx.pool_authority@,
        ctx.token_reserve_src.mint@ == ctx.user_dst_token_acc.mint@,
        ctx.token_reserve_dst.mint@ == ctx.user_src_token_acc.mint@,
        ctx.user_src_token_acc.key@ != ctx.user_dst_token_acc.key@,
        ctx.user_src_token_acc.owner@ == ctx.signer@,
        ctx.user_dst_token_acc.owner@ == ctx.signer@,
        program_address(pool_child_seeds(authority_tag(), ctx.pool_key@), program_id) == Some(
            (ctx.pool_authority@, (swap_accounts_check(ctx, program_id)->Ok_0).pool_authority),
        ),
{
}

/// A withdrawal whose accounts pass the checks pays out of exactly the two
/// reserves that the pool records, both belonging to the pool's authority,
/// which is the program address of the pool; it burns only from, and pays
/// only into, the signer's own associated token accounts for the liquidity
/// mint and the two mints.
pub proof fn law_checked_withdraw_accounts(ctx: WithdrawLiquidity, program_id: Seq<u8>)
    requires
        withdraw_accounts_check(ctx, program_id) is Ok,
    ensures
        ctx.reserve_a.key@ == ctx.pool.token_reserve_a@,
        ctx.reserve_b.key@ == ctx.pool.token_reserve_b@,
        ctx.reserve_a.owner@ == ctx.pool_authority@,
        ctx.reserve_b.owner@ == ctx.pool_authority@,
        program_address(pool_child_seeds(authority_tag(), ctx.pool_key@), program_id) == Some(
            (ctx.pool_authority@, (withdraw_accounts_check(ctx, program_id)->Ok_0).pool_authority),
        ),
        ctx.user_lp_token_vault.owner@ == ctx.signer@,
        ctx.user_token_a.owner@ == ctx.signer@,
        ctx.user_token_b.owner@ == ctx.signer@,
        associated_token_address_of(ctx.signer@, ctx.lp_mint.key@) == Some(ctx.user_lp_token_vault.key@),
        associated_token_address_of(ctx.signer@, ctx.mint_a@) == Some(ctx.user_token_a.key@),
        associated_token_address_of(ctx.signer@, ctx.mint_b@) == Some(ctx.user_token_b.key@),
{
}

/// Swapping and swapping straight back, at the same fee, never returns
/// more than was put in: for `amount_in` paid into a pool of `reserve_in`
/// and `reserve_out`, the payout paid back into the new reserves gets at
/// most `amount_in`.
pub proof fn law_swap_round_trip(reserve_in: int, reserve_out: int, amount_in: int, fee_bps: int)
    requires
        0 <= reserve_in,
        0 <= reserve_out,
        0 <= amount_in,
        0 <= fee_bps <= 10000,
        reserve_in + after_fee(amount_in, fee_bps) > 0,
        ({
            let back = product_payout(reserve_out, reserve_in, after_fee(amount_in, fee_bps));
            reserve_out - back + after_fee(back, fee_bps) > 0
        }),
    ensures
        ({
            let back = product_payout(reserve_out, reserve_in, after_fee(amount_in, fee_bps));
            product_payout(reserve_in + amount_in, reserve_out - back, after_fee(back, fee_bps)) <= amount_in
        }),
{
    let n1 = after_fee(amount_in, fee_bps);
    lemma_after_fee_bounded(amount_in, fee_bps);
    let d1 = reserve_in + n1;
    let y = product_payout(reserve_out, reserve_in, n1);
    lemma_payout_bounded(reserve_out, reserve_in, n1);
    assert(reserve_out * n1 >= 0) by (nonlinear_arith)
        requires
            reserve_out >= 0,
            n1 >= 0,
    ;
    lemma_div_times_divisor_le(reserve_out * n1, d1);
    // The first payout is at most the output reserve's share of the input.
    assert(y * (reserve_in + amount_in) <= reserve_out * amount_in) by (nonlinear_arith)
        requires
            d1 == reserve_in + n1,
            y * d1 <= reserve_out * n1,
            0 <= y <= reserve_out,
            0 <= n1 <= amount_in,
    ;
    let n2 = after_fee(y, fee_bps);
    lemma_after_fee_bounded(y, fee_bps);
    let a2 = reserve_in + amount_in;
    let d2 = reserve_out - y + n2;
    let z = product_payout(a2, reserve_out - y, n2);
    assert(a2 * n2 >= 0) by (nonlinear_arith)
        requires
            a2 >= 0,
            n2 >= 0,
    ;
    lemma_div_times_divisor_le(a2 * n2, d2);
    assert(z <= amount_in) by (nonlinear_arith)
        requires
            a2 == reserve_in + amount_in,
            d2 == reserve_out - y + n2,
            d2 > 0,
            z * d2 <= a2 * n2,
            y * a2 <= reserve_out * amount_in,
            0 <= n2 <= y,
            0 <= reserve_in,
            0 <= amount_in,
    ;
}

/// Withdrawing more liquidity tokens, up to the whole supply, never pays
/// out less of a reserve.
pub proof fn law_pro_rata_monotone(l1: int, l2: int, reserve: int, supply: int)
    requires
        0 <= l1 <= l2 <= supply,
        0 <= reserve,
        supply > 0,
    ensures
        pro_rata(l1, reserve, supply) <= pro_rata(l2, reserve, supply),
{
    assert(l1 * reserve <= l2 * reserve) by (nonlinear_arith)
        requires
            0 <= l1 <= l2,
            0 <= reserve,
    ;
    lemma_div_is_ordered(l1 * reserve, l2 * reserve, supply);
}

/// Of two withdrawals that go through from the same accounts, the one that
/// burns more liquidity tokens, up to the whole supply, pays out no less of
/// either token.
pub proof fn law_withdraw_monotone(
    ctx: WithdrawLiquidity,
    l1: u64,
    min1_a: u64,
    min1_b: u64,
    plan1: WithdrawPlan,
    l2: u64,
    min2_a: u64,
    min2_b: u64,
    plan2: WithdrawPlan,
)
    requires
        withdraw_computable(ctx, l1),
        withdraw_computable(ctx, l2),
        withdraw_refusal(ctx, l1, min1_a, min1_b) is None,
        withdraw_refusal(ctx, l2, min2_a, min2_b) is None,
        withdraw_plan_is(ctx, l1, plan1),
        withdraw_plan_is(ctx, l2, plan2),
        l1 <= l2 <= ctx.lp_mint.supply,
    ensures
        plan1.payout_a.amount <= plan2.payout_a.amount,
        plan1.payout_b.amount <= plan2.payout_b.amount,
{
    let supply = ctx.lp_mint.supply as int;
    lemma_pro_rata_bounded(l1 as int, ctx.reserve_a.amount as int, supply);
    lemma_pro_rata_bounded(l2 as int, ctx.reserve_a.amount as int, supply);
    lemma_pro_rata_bounded(l1 as int, ctx.reserve_b.amount as int, supply);
    lemma_pro_rata_bounded(l2 as int, ctx.reserve_b.amount as int, supply);
    law_pro_rata_monotone(l1 as int, l2 as int, ctx.reserve_a.amount as int, supply);
    law_pro_rata_monotone(l1 as int, l2 as int, ctx.reserve_b.amount as int, supply);
}

/// Floor division pinned by its two bounds: `q` is `n / d` exactly when
/// `q * d <= n < (q + 1) * d`.
proof fn lemma_floor_bounds(n: int, d: int)
    requires
        d > 0,
        n >= 0,
    ensures
        (n / d) * d <= n < (n / d + 1) * d,
{
    lemma_div_times_divisor_le(n, d);
    let q = n / d;
    assert((q + 1) * d == q * d + d) by (nonlinear_arith);
}

/// A swap that goes through takes exactly `amount_in` from the user's input
/// account into the input reserve it names, under the user's signature, and
/// pays the user's output account out of the output reserve it names, under
/// the pool authority's signature. The payout is at least the minimum asked
/// for, and is the largest whole amount that keeps the product of the
/// reserves, with the input net of the fee: writing `x` and `y` for the
/// input and output reserves and `n` for `amount_in * (10000 - fee) / 10000`
/// rounded down, `payout * (x + n) <= y * n < (payout + 1) * (x + n)`.
pub proof fn law_swap_result(ctx: Swap, amount_in: u64, min_amount_out: u64, plan: SwapPlan)
    requires
        swap_computable(ctx, amount_in),
        swap_refusal(ctx, amount_in, min_amount_out) is None,
        swap_plan_is(ctx, amount_in, plan),
    ensures
        plan.deposit.from == ctx.user_src_token_acc.key,
        plan.deposit.to == ctx.token_reserve_dst.key,
        plan.deposit.authority == ctx.signer,
        plan.deposit.amount == amount_in,
        plan.payout.from == ctx.token_reserve_src.key,
        plan.payout.to == ctx.user_dst_token_acc.key,
        plan.payout.authority == ctx.pool_authority,
        plan.payout.amount >= min_amount_out,
        amount_in > 0,
        amount_in <= ctx.user_src_token_acc.amount,
        ({
            let n = (amount_in as int) * (10000 - ctx.pool.fee_bps as int) / 10000;
            let x = ctx.token_reserve_dst.amount as int;
            let y = ctx.token_reserve_src.amount as int;
            &&& plan.payout.amount * (x + n) <= y * n
            &&& y * n < (plan.payout.amount + 1) * (x + n)
        }),
{
    let n = after_fee(amount_in as int, ctx.pool.fee_bps as int);
    lemma_after_fee_bounded(amount_in as int, ctx.pool.fee_bps as int);
    let x = ctx.token_reserve_dst.amount as int;
    let y = ctx.token_reserve_src.amount as int;
    assert(y * n >= 0) by (nonlinear_arith)
        requires
            y >= 0,
            n >= 0,
    ;
    lemma_floor_bounds(y * n, x + n);
}

/// A swap is refused for want of funds exactly when the user asks to swap
/// nothing or more than the input account holds; otherwise it is refused
/// for slippage exactly when the constant-product payout of the input net of
/// the fee, `y * n / (x + n)` rounded down, falls short of the minimum, and
/// goes through exactly when it does not. (`x`, `y` are the input and output
/// reserves, `n` is `amount_in * (10000 - fee) / 10000` rounded down.)
pub proof fn law_swap_refusals(ctx: Swap, amount_in: u64, min_amount_out: u64)
    ensures
        ({
            let short = amount_in == 0 || ctx.user_src_token_acc.amount < amount_in;
            let n = (amount_in as int) * (10000 - ctx.pool.fee_bps as int) / 10000;
            let x = ctx.token_reserve_dst.amount as int;
            let y = ctx.token_reserve_src.amount as int;
            let p = y * n / (x + n);
            &&& (swap_refusal(ctx, amount_in, min_amount_out) == Some(AmmError::InsufficientFunds)) <==> short
            &&& (swap_refusal(ctx, amount_in, min_amount_out) == Some(AmmError::SlippageExceeded))
                <==> (!short && p < min_amount_out)
            &&& (swap_refusal(ctx, amount_in, min_amount_out) is None) <==> (!short && p >= min_amount_out)
        }),
{
}

/// A withdrawal that goes through burns exactly the liquidity tokens asked
/// for, of the liquidity mint, out of the user's liquidity account under the
/// user's signature, and pays the user's token accounts out of the two
/// reserves under the pool authority's signature, each payout at least its
/// minimum. Where the tokens burnt are within the supply, each payout is the
/// reserve's share for them rounded down:
/// `payout * supply <= lp_tokens * reserve < (payout + 1) * supply`.
pub proof fn law_withdraw_result(
    ctx: WithdrawLiquidity,
    lp_tokens: u64,
    min_amount_a: u64,
    min_amount_b: u64,
    plan: WithdrawPlan,
)
    requires
        withdraw_computable(ctx, lp_tokens),
        withdraw_refusal(ctx, lp_tokens, min_amount_a, min_amount_b) is None,
        withdraw_plan_is(ctx, lp_tokens, plan),
    ensures
        plan.burn.amount == lp_tokens,
        plan.burn.mint == ctx.lp_mint.key,
        plan.burn.from == ctx.user_lp_token_vault.key,
        plan.burn.authority == ctx.signer,
        plan.payout_a.from == ctx.reserve_a.key,
        plan.payout_a.to == ctx.user_token_a.key,
        plan.payout_a.authority == ctx.pool_authority,
        plan.payout_b.from == ctx.reserve_b.key,
        plan.payout_b.to == ctx.user_token_b.key,
        plan.payout_b.authority == ctx.pool_authority,
        plan.payout_a.amount >= min_amount_a,
        plan.payout_b.amount >= min_amount_b,
        0 < lp_tokens <= ctx.user_lp_token_vault.amount,
        plan.payout_a.amount == ((lp_tokens as int) * (ctx.reserve_a.amount as int) / (ctx.lp_mint.supply as int)) as u64,
        plan.payout_b.amount == ((lp_tokens as int) * (ctx.reserve_b.amount as int) / (ctx.lp_mint.supply as int)) as u64,
        lp_tokens <= ctx.lp_mint.supply ==> {
            let s = ctx.lp_mint.supply as int;
            let l = lp_tokens as int;
            &&& plan.payout_a.amount * s <= l * ctx.reserve_a.amount
            &&& l * ctx.reserve_a.amount < (plan.payout_a.amount + 1) * s
            &&& plan.payout_b.amount * s <= l * ctx.reserve_b.amount
            &&& l * ctx.reserve_b.amount < (plan.payout_b.amount + 1) * s
        },
{
    if lp_tokens <= ctx.lp_mint.supply {
        let s = ctx.lp_mint.supply as int;
        let l = lp_tokens as int;
        lemma_pro_rata_bounded(l, ctx.reserve_a.amount as int, s);
        lemma_pro_rata_bounded(l, ctx.reserve_b.amount as int, s);
        assert(l * ctx.reserve_a.amount >= 0 && l * ctx.reserve_b.amount >= 0) by (nonlinear_arith)
            requires
                l >= 0,
        ;
        lemma_floor_bounds(l * ctx.reserve_a.amount, s);
        lemma_floor_bounds(l * ctx.reserve_b.amount, s);
    }
}

/// A withdrawal is refused for want of funds exactly when it asks to burn
/// nothing or more liquidity tokens than the user holds; otherwise it is
/// refused for slippage exactly when a reserve's share, `lp_tokens * reserve
/// / supply` rounded down (and cut to 64 bits), falls short of its minimum,
/// and goes through exactly when neither does.
pub proof fn law_withdraw_refusals(ctx: WithdrawLiquidity, lp_tokens: u64, min_amount_a: u64, min_amount_b: u64)
    ensures
        ({
            let short = lp_tokens == 0 || ctx.user_lp_token_vault.amount < lp_tokens;
            let s = ctx.lp_mint.supply as int;
            let a = ((lp_tokens as int) * (ctx.reserve_a.amount as int) / s) as u64;
            let b = ((lp_tokens as int) * (ctx.reserve_b.amount as int) / s) as u64;
            &&& (withdraw_refusal(ctx, lp_tokens, min_amount_a, min_amount_b) == Some(AmmError::InsufficientFunds))
                <==> short
            &&& (withdraw_refusal(ctx, lp_tokens, min_amount_a, min_amount_b) == Some(AmmError::SlippageExceeded))
                <==> (!short && (a < min_amount_a || b < min_amount_b))
            &&& (withdraw_refusal(ctx, lp_tokens, min_amount_a, min_amount_b) is None)
                <==> (!short && a >= min_amount_a && b >= min_amount_b)
        }),
{
}

/// A new pool records exactly what it was created with: the fee asked for,
/// the two mints, the two reserves and the liquidity mint named, and the
/// bump seed of its authority.
pub proof fn law_new_pool_records_request(ctx: Initialize, bumps: InitializeBumps, fee: u16, pool: Pool)
    requires
        fee <= 10000,
        pool == ctx.new_pool(bumps, fee),
    ensures
        pool.fee_bps == fee,
        pool.mint_a == ctx.mint_a,
        pool.mint_b == ctx.mint_b,
        pool.token_reserve_a == ctx.token_reserve_a,
        pool.token_reserve_b == ctx.token_reserve_b,
        pool.lp_mint == ctx.lp_mint,
        pool.sign_authority_bump == bumps.pool_authority,
{
}

/// The accounts for creating a pool pass the checks exactly when the pool,
/// the liquidity mint, the two reserves and the authority are each the
/// program address of their seeds; the bump seeds given back are the ones
/// that derive them.
pub proof fn law_checked_initialize_accounts(ctx: Initialize, program_id: Seq<u8>)
    ensures
        ctx.accounts_check(program_id) is Ok <==> {
            &&& program_address(pool_seeds_of(ctx.mint_a@, ctx.mint_b@), program_id) matches Some((a, _)) && a == ctx.pool@
            &&& program_address(pool_child_seeds(lp_mint_tag(), ctx.pool@), program_id) matches Some((a, _)) && a == ctx.lp_mint@
            &&& program_address(pool_child_seeds(reserve_a_tag(), ctx.pool@), program_id) matches Some((a, _)) && a == ctx.token_reserve_a@
            &&& program_address(pool_child_seeds(reserve_b_tag(), ctx.pool@), program_id) matches Some((a, _)) && a == ctx.token_reserve_b@
            &&& program_address(pool_child_seeds(authority_tag(), ctx.pool@), program_id) matches Some((a, _)) && a == ctx.pool_authority@
        },
        ctx.accounts_check(program_id) matches Ok(b) ==> {
            &&& program_address(pool_seeds_of(ctx.mint_a@, ctx.mint_b@), program_id) == Some((ctx.pool@, b.pool))
            &&& program_address(pool_child_seeds(lp_mint_tag(), ctx.pool@), program_id) == Some((ctx.lp_mint@, b.lp_mint))
            &&& program_address(pool_child_seeds(reserve_a_tag(), ctx.pool@), program_id) == Some((ctx.token_reserve_a@, b.token_reserve_a))
            &&& program_address(pool_child_seeds(reserve_b_tag(), ctx.pool@), program_id) == Some((ctx.token_reserve_b@, b.token_reserve_b))
            &&& program_address(pool_child_seeds(authority_tag(), ctx.pool@), program_id) == Some((ctx.pool_authority@, b.pool_authority))
        },
{
}

} // verus!
