//! Two-decimal fixed-point arithmetic.
//!
//! Every financial quantity in this crate is an `i64` holding hundredths of
//! the underlying unit: `1234` stands for `12.34` currency units, percent
//! points, or ratio points.  Division rounds half away from zero, matching the
//! two-decimal rounding applied to every published ratio and growth rate.
use vstd::prelude::*;

verus! {

use vstd::arithmetic::div_mod::{
    lemma_div_is_ordered,
    lemma_div_is_ordered_by_denominator,
    lemma_div_pos_is_pos,
    lemma_fundamental_div_mod,
};

/// One whole unit (currency unit, percent point, share) in fixed point.
pub const CENTI: i64 = 100;

/// One hundred percent, in hundredths of a percent point.
pub const PCT_SCALE: i64 = 10_000;

/// Unit of the growth-adjustment curve's intermediate values
/// (punishment and adjusted growth carry four decimals).
pub const CURVE_ONE: i64 = 10_000;

/// Unit of the growth-adjustment factor itself (eight decimals).
pub const FACTOR_ONE: i64 = 100_000_000;

/// Largest magnitude accepted for a raw statement line item
/// (one hundred trillion units).
pub const AMOUNT_LIMIT: i64 = 10_000_000_000_000_000;

/// Largest magnitude accepted for an ingested percentage or ratio
/// (ten thousand percent).
pub const PCT_LIMIT: i64 = 1_000_000;

/// Largest magnitude any derived value may take; computations whose result
/// would fall outside this range yield a missing value instead.
pub const VALUE_LIMIT: i64 = 2_000_000_000_000_000_000;

/// Quotient of `a / b` rounded to the nearest integer, ties away from zero.
pub open spec fn round_div(a: int, b: int) -> int
    recommends
        b > 0,
{
    if a >= 0 {
        (2 * a + b) / (2 * b)
    } else {
        -((2 * -a + b) / (2 * b))
    }
}

/// `round_div` really is rounding to the nearest multiple: the result stays
/// within half a divisor of the exact quotient.
pub proof fn lemma_round_div_error(a: int, b: int)
    requires
        b > 0,
    ensures
        2 * (a - round_div(a, b) * b) <= b,
        2 * (round_div(a, b) * b - a) <= b,
{
    let n = if a >= 0 { a } else { -a };
    let q = (2 * n + b) / (2 * b);
    lemma_fundamental_div_mod(2 * n + b, 2 * b);
    let r1 = (2 * n + b) % (2 * b);
    assert(2 * (n - q * b) <= b && 2 * (q * b - n) <= b) by (nonlinear_arith)
        requires
            b > 0,
            2 * n + b == 2 * b * q + r1,
            0 <= r1 < 2 * b,
    {}
    if a < 0 {
        assert(round_div(a, b) == -q);
        assert((-q) * b == -(q * b)) by (nonlinear_arith) {}
        assert(a - round_div(a, b) * b == q * b - n);
    }
}

/// The rounded quotient differs from the truncated quotient of the
/// magnitudes by at most one, and keeps the sign of the dividend.
pub proof fn lemma_round_div_range(a: int, b: int)
    requires
        b > 0,
    ensures
        a >= 0 ==> a / b <= round_div(a, b) <= a / b + 1,
        a < 0 ==> -((-a) / b + 1) <= round_div(a, b) <= -((-a) / b),
{
    let n = if a >= 0 { a } else { -a };
    let q = (2 * n + b) / (2 * b);
    lemma_fundamental_div_mod(2 * n + b, 2 * b);
    lemma_fundamental_div_mod(n, b);
    let r1 = (2 * n + b) % (2 * b);
    let r2 = n % b;
    assert(n / b <= q <= n / b + 1) by (nonlinear_arith)
        requires
            b > 0,
            n >= 0,
            2 * n + b == 2 * b * q + r1,
            0 <= r1 < 2 * b,
            n == b * (n / b) + r2,
            0 <= r2 < b,
    {}
}

/// Bound on the magnitude of a rounded quotient: if the dividend is at most
/// `m` in magnitude and the divisor at least `c`, the result is at most
/// `m / c + 1` in magnitude.
pub proof fn lemma_round_div_abs(a: int, b: int, m: int, c: int)
    requires
        0 < c <= b,
        -m <= a <= m,
    ensures
        -(m / c + 1) <= round_div(a, b) <= m / c + 1,
{
    lemma_round_div_range(a, b);
    if a >= 0 {
        lemma_div_is_ordered(a, m, b);
        lemma_div_is_ordered_by_denominator(m, c, b);
        lemma_div_pos_is_pos(a, b);
    } else {
        lemma_div_is_ordered(-a, m, b);
        lemma_div_is_ordered_by_denominator(m, c, b);
        lemma_div_pos_is_pos(-a, b);
    }
}

/// Multiple-based cap: a dividend within `cap` divisors of zero rounds to a
/// quotient within `cap`.
pub proof fn lemma_round_div_cap(a: int, b: int, cap: int)
    requires
        b > 0,
        cap >= 0,
        -(cap * b) <= a <= cap * b,
    ensures
        -cap <= round_div(a, b) <= cap,
{
    let n = if a >= 0 { a } else { -a };
    let q = (2 * n + b) / (2 * b);
    lemma_fundamental_div_mod(2 * n + b, 2 * b);
    let r1 = (2 * n + b) % (2 * b);
    assert(0 <= q <= cap) by (nonlinear_arith)
        requires
            b > 0,
            cap >= 0,
            0 <= n <= cap * b,
            2 * n + b == 2 * b * q + r1,
            0 <= r1 < 2 * b,
    {}
}

/// A derived value the engine is willing to carry.
pub open spec fn in_range(v: int) -> bool {
    -VALUE_LIMIT <= v <= VALUE_LIMIT
}

/// A present value must be in range; a missing one trivially is.
pub open spec fn opt_in_range(v: Option<i64>) -> bool {
    match v {
        Some(x) => in_range(x as int),
        None => true,
    }
}

/// A present value bounded by `limit` in magnitude.
pub open spec fn opt_bounded(v: Option<i64>, limit: int) -> bool {
    match v {
        Some(x) => -limit <= x <= limit,
        None => true,
    }
}

/// Clamps a computed value into the engine's carrying range by declaring it
/// missing when it falls outside.
pub open spec fn fit(x: int) -> Option<i64> {
    if in_range(x) {
        Some(x as i64)
    } else {
        None
    }
}

/// Widest dividend magnitude the executable divider accepts.
pub const DIVIDEND_LIMIT: i128 = 40_000_000_000_000_000_000_000_000_000_000_000_000;

/// Rounding division on machine integers; the workhorse behind every formula.
pub fn round_div_i128(num: i128, den: i128) -> (r: i128)
    requires
        0 < den <= DIVIDEND_LIMIT,
        -DIVIDEND_LIMIT <= num <= DIVIDEND_LIMIT,
    ensures
        r == round_div(num as int, den as int),
{
    if num >= 0 {
        (2 * num + den) / (2 * den)
    } else {
        -((2 * -num + den) / (2 * den))
    }
}

} // verus!
