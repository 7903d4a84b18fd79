//! Period arithmetic: which period of a pool a ledger falls in.

#[allow(deprecated)]
use fixed_point_math::FixedPoint;
use vstd::arithmetic::div_mod::{lemma_fundamental_div_mod, lemma_fundamental_div_mod_converse, lemma_mod_bound, lemma_div_is_ordered};
use vstd::prelude::*;

verus! {

/// Quotient of `a` by `b` rounded toward zero, as Rust's integer `/` computes it.
pub open spec fn trunc_div(a: int, b: int) -> int {
    let q: int = vstd::math::abs(a) as int / vstd::math::abs(b) as int;
    if (a < 0) != (b < 0) {
        -q
    } else {
        q
    }
}

/// What `ceil(x * y / z)` on `i128` gives, as the fixed-point crate computes it:
/// `None` when `x * y` leaves `i128` or `z` is zero (or the one overflowing
/// division), the quotient rounded up when `x * y > 0` and `z > 0`, and the
/// quotient rounded toward zero otherwise.
pub open spec fn mul_div_ceil(x: int, y: int, z: int) -> Option<int> {
    let r = x * y;
    if r < i128::MIN || r > i128::MAX || z == 0 {
        None
    } else if r <= 0 || z < 0 {
        if r == i128::MIN && z == -1 {
            None
        } else {
            Some(trunc_div(r, z))
        }
    } else {
        Some(r / z + if r % z > 0 { 1int } else { 0int })
    }
}

/// `FixedPoint::fixed_div_ceil` of `fixed_point_math` on `i128`: it returns
/// `mul_div_ceil(x, denominator, y)`, that is `ceil(x * denominator / y)` with
/// the crate's rounding and its `None` on overflow or a zero divisor.
#[verifier::external_body]
fn fixed_div_ceil(x: i128, y: i128, denominator: i128) -> (r: Option<i128>)
    ensures
        r is Some <==> mul_div_ceil(x as int, denominator as int, y as int) is Some,
        r matches Some(q) ==> q as int == mul_div_ceil(x as int, denominator as int, y as int).unwrap(),
{
    x.fixed_div_ceil(y, denominator)
}

/// The number of whole or started periods of length `periods` in `diff` ledgers.
pub open spec fn period_count(diff: int, periods: int) -> int {
    mul_div_ceil(diff, 1, periods).unwrap()
}

/// The period a ledger count maps to: period `1` when no period has started,
/// otherwise the count cast to `i32`.
pub open spec fn period_from_count(count: int) -> i32 {
    if count == 0 {
        1
    } else {
        count as i32
    }
}

/// The period of ledger `current` for a pool whose genesis ledger is `genesis`
/// and whose periods last `periods` ledgers.
pub open spec fn period_at(current: int, genesis: int, periods: int) -> i32 {
    period_from_count(period_count(current - genesis, periods))
}

/// Computes the period of ledger `current` for a pool that started at ledger
/// `genesis` with periods of `periods` ledgers.
pub fn calculate_period(current: i128, genesis: i128, periods: i128) -> (period: i32)
    requires
        i128::MIN <= current - genesis <= i128::MAX,
        periods != 0,
        !(current - genesis == i128::MIN && periods == -1),
    ensures
        period == period_at(current as int, genesis as int, periods as int),
{
    let current_ledger: i128 = current;
    let genesis_ledger: i128 = genesis;
    let diff: i128 = current_ledger - genesis_ledger;
    let div: i128 = fixed_div_ceil(diff, periods, 1).unwrap();
    if div == 0 {
        return 1;
    }
    div as i32
}

/// Computes the current period of a pool from the current ledger sequence,
/// the pool's genesis ledger and the length of its periods.
pub fn actual_period(current_ledger: u32, genesis_ledger: i32, periods: i32) -> (period: i32)
    requires
        periods != 0,
    ensures
        period == period_at(current_ledger as int, genesis_ledger as int, periods as int),
{
    calculate_period(current_ledger as i128, genesis_ledger as i128, periods as i128)
}

/// `a / b` rounded up, for `b > 0`.
pub open spec fn ceil_div(a: int, b: int) -> int {
    -((-a) / b)
}

/// The rounded-up quotient `c` of `d` by `p > 0` is the one integer with
/// `(c - 1) * p < d <= c * p`.
proof fn lemma_ceil_div_bounds(d: int, p: int)
    requires
        p > 0,
    ensures
        (ceil_div(d, p) - 1) * p < d <= ceil_div(d, p) * p,
{
    let q = (-d) / p;
    let r = (-d) % p;
    lemma_fundamental_div_mod(-d, p);
    lemma_mod_bound(-d, p);
    assert((ceil_div(d, p) - 1) * p < d <= ceil_div(d, p) * p) by (nonlinear_arith)
        requires
            -d == p * q + r,
            0 <= r < p,
            ceil_div(d, p) == -q,
    ;
}

/// Any `k` with `(k - 1) * p < d <= k * p` is the rounded-up quotient of `d` by `p > 0`.
proof fn lemma_ceil_div_unique(d: int, p: int, k: int)
    requires
        p > 0,
        (k - 1) * p < d <= k * p,
    ensures
        ceil_div(d, p) == k,
{
    assert(-d == (-k) * p + (k * p - d) && 0 <= k * p - d < p) by (nonlinear_arith)
        requires
            p > 0,
            (k - 1) * p < d <= k * p,
    ;
    lemma_fundamental_div_mod_converse(-d, p, -k, k * p - d);
}

/// For periods of positive length, the crate's rounding is rounding up.
proof fn lemma_period_count_is_ceil(diff: int, periods: int)
    requires
        periods > 0,
        i128::MIN <= diff <= i128::MAX,
    ensures
        period_count(diff, periods) == ceil_div(diff, periods),
{
    assert(diff * 1 == diff);
    if diff <= 0 {
        assert(vstd::math::abs(diff) as int == -diff);
        assert(vstd::math::abs(periods) as int == periods);
        if diff == 0 {
            assert(0int / periods == 0) by {
                lemma_fundamental_div_mod_converse(0, periods, 0, 0);
            }
        }
    } else {
        let q = diff / periods;
        let m = diff % periods;
        lemma_fundamental_div_mod(diff, periods);
        lemma_mod_bound(diff, periods);
        if m == 0 {
            assert(-diff == (-q) * periods + 0) by (nonlinear_arith)
                requires
                    diff == periods * q + m,
                    m == 0,
            ;
            lemma_fundamental_div_mod_converse(-diff, periods, -q, 0);
        } else {
            assert(-diff == (-q - 1) * periods + (periods - m)) by (nonlinear_arith)
                requires
                    diff == periods * q + m,
            ;
            lemma_fundamental_div_mod_converse(-diff, periods, -q - 1, periods - m);
        }
    }
}

/// A ledger in the `k`-th period after genesis, that is with
/// `genesis + (k - 1) * periods < current <= genesis + k * periods`, is in
/// period `k`.
pub proof fn law_ledger_in_kth_period(current: int, genesis: int, periods: int, k: int)
    requires
        periods > 0,
        1 <= k <= i32::MAX,
        i128::MIN <= current - genesis <= i128::MAX,
        genesis + (k - 1) * periods < current <= genesis + k * periods,
    ensures
        period_at(current, genesis, periods) == k,
{
    let diff = current - genesis;
    lemma_period_count_is_ceil(diff, periods);
    lemma_ceil_div_unique(diff, periods, k);
}

/// Period `1` covers both the first period after genesis and the period of
/// ledgers just before it: `genesis - periods < current <= genesis + periods`.
pub proof fn law_first_period_around_genesis(current: int, genesis: int, periods: int)
    requires
        periods > 0,
        i128::MIN <= current - genesis <= i128::MAX,
        genesis - periods < current <= genesis + periods,
    ensures
        period_at(current, genesis, periods) == 1,
{
    let diff = current - genesis;
    lemma_period_count_is_ceil(diff, periods);
    if diff > 0 {
        lemma_ceil_div_unique(diff, periods, 1);
    } else {
        lemma_ceil_div_unique(diff, periods, 0);
    }
}

/// Periods never go back: from one period before genesis on, a later ledger
/// is in the same or a later period (while periods fit in an `i32`).
pub proof fn law_period_is_monotonic(current1: int, current2: int, genesis: int, periods: int)
    requires
        periods > 0,
        genesis - periods < current1 <= current2,
        i128::MIN <= current1 - genesis <= i128::MAX,
        i128::MIN <= current2 - genesis <= i128::MAX,
        ceil_div(current2 - genesis, periods) <= i32::MAX,
    ensures
        period_at(current1, genesis, periods) <= period_at(current2, genesis, periods),
{
    let d1 = current1 - genesis;
    let d2 = current2 - genesis;
    lemma_period_count_is_ceil(d1, periods);
    lemma_period_count_is_ceil(d2, periods);
    lemma_div_is_ordered(-d2, -d1, periods);
    lemma_ceil_div_bounds(d1, periods);
    assert(ceil_div(d1, periods) >= 0) by (nonlinear_arith)
        requires
            periods > 0,
            d1 > -periods,
            d1 <= ceil_div(d1, periods) * periods,
    ;
}

} // verus!
