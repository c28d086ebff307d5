use vstd::prelude::*;
use vstd::arithmetic::div_mod::*;
use vstd::arithmetic::mul::*;

verus! {

/// What is left of `amount_in` once a fee of `fee_bps` basis points is taken,
/// rounded down.
pub open spec fn after_fee(amount_in: int, fee_bps: int) -> int {
    amount_in * (10000 - fee_bps) / 10000
}

/// What a constant-product pool pays out of `reserve_out` for `amount`
/// added to `reserve_in`, rounded down: the payout that keeps the product of
/// the reserves, `reserve_out * amount / (reserve_in + amount)`.
pub open spec fn product_payout(reserve_out: int, reserve_in: int, amount: int) -> int {
    reserve_out * amount / (reserve_in + amount)
}

/// The part of `reserve` that `lp` liquidity tokens out of `supply` stand
/// for, rounded down.
pub open spec fn pro_rata(lp: int, reserve: int, supply: int) -> int {
    lp * reserve / supply
}

/// Whether the swap arithmetic has a value: the fee is at most the whole
/// input, and the input reserve with the net input added is neither empty
/// nor beyond `u64`.
pub open spec fn swap_arithmetic_ok(fee_bps: int, reserve_in: int, amount_in: int) -> bool {
    &&& fee_bps <= 10000
    &&& 0 < reserve_in + after_fee(amount_in, fee_bps) <= u64::MAX
}

/// The net input after the fee never exceeds the input.
pub proof fn lemma_after_fee_bounded(amount_in: int, fee_bps: int)
    requires
        0 <= amount_in,
        0 <= fee_bps <= 10000,
    ensures
        0 <= after_fee(amount_in, fee_bps) <= amount_in,
{
    let k = 10000 - fee_bps;
    assert(0 <= amount_in * k <= amount_in * 10000) by (nonlinear_arith)
        requires
            0 <= k <= 10000,
            0 <= amount_in,
    ;
    lemma_div_is_ordered(amount_in * k, amount_in * 10000, 10000);
    lemma_div_by_multiple(amount_in, 10000);
    lemma_div_pos_is_pos(amount_in * k, 10000);
}

/// The payout never exceeds the reserve it comes from.
pub proof fn lemma_payout_bounded(reserve_out: int, reserve_in: int, amount: int)
    requires
        0 <= reserve_out,
        0 <= reserve_in,
        0 <= amount,
        reserve_in + amount > 0,
    ensures
        0 <= product_payout(reserve_out, reserve_in, amount) <= reserve_out,
{
    let d = reserve_in + amount;
    assert(0 <= reserve_out * amount <= reserve_out * d) by (nonlinear_arith)
        requires
            d == reserve_in + amount,
            0 <= reserve_out,
            0 <= reserve_in,
            0 <= amount,
    ;
    lemma_div_is_ordered(reserve_out * amount, reserve_out * d, d);
    lemma_div_by_multiple(reserve_out, d);
    lemma_div_pos_is_pos(reserve_out * amount, d);
}

/// The liquidity tokens' share of a reserve is at most the reserve, as long
/// as they are no more than the supply.
pub proof fn lemma_pro_rata_bounded(lp: int, reserve: int, supply: int)
    requires
        0 <= lp <= supply,
        0 <= reserve,
        supply > 0,
    ensures
        0 <= pro_rata(lp, reserve, supply) <= reserve,
{
    assert(0 <= lp * reserve <= supply * reserve) by (nonlinear_arith)
        requires
            0 <= lp <= supply,
            0 <= reserve,
    ;
    lemma_div_is_ordered(lp * reserve, supply * reserve, supply);
    lemma_mul_is_commutative(supply, reserve);
    lemma_div_by_multiple(reserve, supply);
    lemma_div_pos_is_pos(lp * reserve, supply);
}

/// The input net of a fee of `fee_bps` basis points, rounded down.
pub fn amount_in_after_fee(amount_in: u64, fee_bps: u16) -> (r: u64)
    requires
        fee_bps <= 10000,
    ensures
        r == after_fee(amount_in as int, fee_bps as int),
        r <= amount_in,
{
    let kept: u128 = 10000u128 - fee_bps as u128;
    assert((amount_in as int) * (kept as int) <= (u64::MAX as int) * 10000) by (nonlinear_arith)
        requires
            amount_in <= u64::MAX,
            kept <= 10000,
    ;
    let scaled: u128 = amount_in as u128 * kept;
    let net: u128 = scaled / 10000;
    proof {
        lemma_after_fee_bounded(amount_in as int, fee_bps as int);
    }
    net as u64
}

/// What the pool pays out of `reserve_out` for `amount` added to
/// `reserve_in` (both after the fee), by the constant-product rule.
pub fn constant_product_payout(reserve_out: u64, reserve_in: u64, amount: u64) -> (r: u64)
    requires
        0 < reserve_in + amount <= u64::MAX,
    ensures
        r == product_payout(reserve_out as int, reserve_in as int, amount as int),
        r <= reserve_out,
{
    let new_reserve_in: u64 = reserve_in + amount;
    assert((reserve_out as int) * (amount as int) <= (u64::MAX as int) * (u64::MAX as int))
        by (nonlinear_arith)
        requires
            reserve_out <= u64::MAX,
            amount <= u64::MAX,
    ;
    let product: u128 = reserve_out as u128 * amount as u128;
    let out: u128 = product / new_reserve_in as u128;
    proof {
        lemma_payout_bounded(reserve_out as int, reserve_in as int, amount as int);
    }
    out as u64
}

/// The share of `reserve` that `lp` liquidity tokens out of `supply` stand
/// for, rounded down and cut to 64 bits as the program's cast does. Where
/// `lp` is at most `supply` the share fits, and nothing is cut.
pub fn pro_rata_share(lp: u64, reserve: u64, supply: u64) -> (r: u64)
    requires
        supply > 0,
    ensures
        r == pro_rata(lp as int, reserve as int, supply as int) as u64,
        lp <= supply ==> r == pro_rata(lp as int, reserve as int, supply as int) && r <= reserve,
{
    assert((lp as int) * (reserve as int) <= (u64::MAX as int) * (u64::MAX as int))
        by (nonlinear_arith)
        requires
            lp <= u64::MAX,
            reserve <= u64::MAX,
    ;
    let product: u128 = lp as u128 * reserve as u128;
    let share: u128 = product / supply as u128;
    proof {
        if lp <= supply {
            lemma_pro_rata_bounded(lp as int, reserve as int, supply as int);
        }
    }
    share as u64
}

} // verus!
