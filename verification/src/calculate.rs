//! The formula library and its missing-value-aware wrappers: growth rates,
//! ratios, the growth-adjustment valuation curve, price targets, averages
//! and trend classification.
//!
//! Every value is two-decimal fixed point (see [`crate::fixed`]).  A missing
//! input, a non-positive denominator, or a result outside the engine's
//! carrying range all yield `None` rather than a fault.
use vstd::prelude::*;

verus! {

use crate::fixed::{
    round_div,
    round_div_i128,
    lemma_round_div_abs,
    lemma_round_div_cap,
    lemma_round_div_range,
    in_range,
    opt_in_range,
    opt_bounded,
    fit,
    AMOUNT_LIMIT,
    PCT_LIMIT,
    VALUE_LIMIT,
    FACTOR_ONE,
};
use crate::helper::str_eq;
use crate::trend::{Trend, count_trend};
use vstd::arithmetic::div_mod::{
    lemma_div_is_ordered,
    lemma_div_denominator,
    lemma_div_multiples_vanish,
};
use vstd::arithmetic::mul::lemma_mul_inequality;

/// Largest value the growth-adjustment factor can take (eight decimals).
pub const FACTOR_BOUND: i64 = 30_000_000_000;

// ---------------------------------------------------------------------------
// Year-over-year growth
// ---------------------------------------------------------------------------
/// Percentage growth from `prev` to `curr`, in hundredths of a percent,
/// rounded half away from zero on the second decimal.
pub open spec fn spec_yoy_growth(curr: int, prev: int) -> int
    recommends
        prev != 0,
{
    if prev > 0 {
        round_div(curr * 10000, prev) - 10000
    } else {
        round_div(-(curr * 10000), -prev) - 10000
    }
}

/// Growth of `curr_val` over `prev_val`: `1000` means `10.00` percent.
pub fn calculate_yoy_growth(curr_val: i64, prev_val: i64) -> (r: i64)
    requires
        prev_val != 0,
        -AMOUNT_LIMIT <= curr_val <= AMOUNT_LIMIT,
        -AMOUNT_LIMIT <= prev_val <= AMOUNT_LIMIT,
        in_range(spec_yoy_growth(curr_val as int, prev_val as int)),
    ensures
        r == spec_yoy_growth(curr_val as int, prev_val as int),
{
    let mut num: i128 = (curr_val as i128) * 10000;
    let mut den: i128 = prev_val as i128;
    if den < 0 {
        num = -num;
        den = -den;
    }
    let q = round_div_i128(num, den);
    (q - 10000) as i64
}

/// Missing-safe growth: missing or non-positive inputs, and results beyond
/// the carrying range, are missing.
pub open spec fn spec_yoy_growth_option(curr: Option<i64>, prev: Option<i64>) -> Option<i64> {
    match (curr, prev) {
        (Some(c), Some(p)) => if c <= 0 || p <= 0 {
            None
        } else {
            fit(spec_yoy_growth(c as int, p as int))
        },
        _ => None,
    }
}

pub fn calculate_yoy_growth_option(curr_val: Option<i64>, prev_val: Option<i64>) -> (r: Option<
    i64,
>)
    requires
        opt_bounded(curr_val, AMOUNT_LIMIT as int),
        opt_bounded(prev_val, AMOUNT_LIMIT as int),
    ensures
        r == spec_yoy_growth_option(curr_val, prev_val),
        opt_in_range(r),
{
    match (curr_val, prev_val) {
        (Some(c), Some(p)) => {
            if c <= 0 || p <= 0 {
                None
            } else {
                let q = round_div_i128((c as i128) * 10000, p as i128);
                let g = q - 10000;
                if g < -(VALUE_LIMIT as i128) || g > VALUE_LIMIT as i128 {
                    None
                } else {
                    Some(g as i64)
                }
            }
        },
        _ => None,
    }
}

// ---------------------------------------------------------------------------
// Ratios
// ---------------------------------------------------------------------------
/// `value / total` carried to two decimals: `45` means a ratio of `0.45`.
pub open spec fn spec_ratio(value: int, total: int) -> int
    recommends
        total > 0,
{
    round_div(value * 100, total)
}

/// `value / total` as a two-decimal percentage: `4523` means `45.23` percent.
pub open spec fn spec_ratio_as_pct(value: int, total: int) -> int
    recommends
        total > 0,
{
    round_div(value * 10000, total)
}

pub open spec fn spec_calculate_ratio(value: Option<i64>, total: int) -> Option<i64> {
    if total <= 0 {
        None
    } else {
        match value {
            Some(v) => fit(spec_ratio(v as int, total)),
            None => None,
        }
    }
}

/// Ratio of an optional line item to a known total; missing when the total
/// is zero or negative.
pub fn calculate_ratio(value: Option<i64>, total: i64) -> (r: Option<i64>)
    requires
        opt_bounded(value, AMOUNT_LIMIT as int),
        -AMOUNT_LIMIT <= total <= AMOUNT_LIMIT,
    ensures
        r == spec_calculate_ratio(value, total as int),
        total <= 0 ==> r is None,
        total > 0 && value is Some ==> r is Some,
{
    if total <= 0 {
        return None;
    }
    match value {
        Some(v) => {
            let q = round_div_i128((v as i128) * 100, total as i128);
            proof {
                lemma_round_div_abs(v as int * 100, total as int, AMOUNT_LIMIT as int * 100, 1);
            }
            Some(q as i64)
        },
        None => None,
    }
}

pub open spec fn spec_calculate_ratio_option(value: Option<i64>, total: Option<i64>) -> Option<
    i64,
> {
    match total {
        Some(t) => spec_calculate_ratio(value, t as int),
        None => None,
    }
}

/// Ratio of two optional values; missing when either is absent or the total
/// is not positive.
pub fn calculate_ratio_option(value: Option<i64>, total: Option<i64>) -> (r: Option<i64>)
    requires
        opt_bounded(value, AMOUNT_LIMIT as int),
        opt_bounded(total, AMOUNT_LIMIT as int),
    ensures
        r == spec_calculate_ratio_option(value, total),
{
    match total {
        Some(t) => calculate_ratio(value, t),
        None => None,
    }
}

pub open spec fn spec_calculate_ratio_as_pct(value: Option<i64>, total: int) -> Option<i64> {
    if total <= 0 {
        None
    } else {
        match value {
            Some(v) => fit(spec_ratio_as_pct(v as int, total)),
            None => None,
        }
    }
}

/// Two-decimal percentage of an optional line item over a known total.
pub fn calculate_ratio_as_pct(value: Option<i64>, total: i64) -> (r: Option<i64>)
    requires
        opt_bounded(value, AMOUNT_LIMIT as int),
        -AMOUNT_LIMIT <= total <= AMOUNT_LIMIT,
    ensures
        r == spec_calculate_ratio_as_pct(value, total as int),
        total <= 0 ==> r is None,
{
    if total <= 0 {
        return None;
    }
    match value {
        Some(v) => {
            let q = round_div_i128((v as i128) * 10000, total as i128);
            if q < -(VALUE_LIMIT as i128) || q > VALUE_LIMIT as i128 {
                None
            } else {
                Some(q as i64)
            }
        },
        None => None,
    }
}

// ---------------------------------------------------------------------------
// Portions and per-share values
// ---------------------------------------------------------------------------
/// `total * margin` where the margin is a two-decimal percentage.
pub open spec fn spec_margin_portion(total: int, margin: int) -> int {
    round_div(total * margin, 10000)
}

pub open spec fn spec_calculate_margin_portion(total: Option<i64>, margin: Option<i64>) -> Option<
    i64,
> {
    match (total, margin) {
        (Some(t), Some(m)) => fit(spec_margin_portion(t as int, m as int)),
        _ => None,
    }
}

/// The slice of `total` that a two-decimal percentage `margin` selects.
pub fn calculate_margin_portion(total: Option<i64>, margin: Option<i64>) -> (r: Option<i64>)
    requires
        opt_bounded(total, AMOUNT_LIMIT as int),
        opt_bounded(margin, PCT_LIMIT as int),
    ensures
        r == spec_calculate_margin_portion(total, margin),
        total is Some && margin is Some ==> r is Some,
        opt_in_range(r),
{
    match (total, margin) {
        (Some(t), Some(m)) => {
            proof {
                assert((t as int) * (m as int) <= AMOUNT_LIMIT as int * PCT_LIMIT as int
                    && -(AMOUNT_LIMIT as int * PCT_LIMIT as int) <= (t as int) * (m as int))
                    by (nonlinear_arith)
                    requires
                        -AMOUNT_LIMIT <= t <= AMOUNT_LIMIT,
                        -PCT_LIMIT <= m <= PCT_LIMIT,
                {}
                lemma_round_div_abs(
                    t as int * (m as int),
                    10000,
                    AMOUNT_LIMIT as int * PCT_LIMIT as int,
                    10000,
                );
            }
            let q = round_div_i128((t as i128) * (m as i128), 10000);
            Some(q as i64)
        },
        _ => None,
    }
}

pub open spec fn spec_calculate_per_share(total: Option<i64>, share: Option<i64>) -> Option<i64> {
    match (total, share) {
        (Some(t), Some(s)) => if s <= 0 {
            None
        } else {
            fit(round_div(t as int * 100, s as int))
        },
        _ => None,
    }
}

/// A per-share amount; missing when the share count is absent or not
/// positive.
pub fn calculate_per_share(total: Option<i64>, share: Option<i64>) -> (r: Option<i64>)
    requires
        opt_in_range(total),
        opt_in_range(share),
    ensures
        r == spec_calculate_per_share(total, share),
        opt_in_range(r),
{
    match (total, share) {
        (Some(t), Some(s)) => {
            if s <= 0 {
                None
            } else {
                let q = round_div_i128((t as i128) * 100, s as i128);
                if q < -(VALUE_LIMIT as i128) || q > VALUE_LIMIT as i128 {
                    None
                } else {
                    Some(q as i64)
                }
            }
        },
        _ => None,
    }
}

// ---------------------------------------------------------------------------
// The growth-adjustment valuation curve
// ---------------------------------------------------------------------------
/// Punishment leg of the valuation curve, four decimals: growth above fifty
/// percent is cut to `0.6`, and the cut phases out towards twenty percent.
pub open spec fn spec_punishment(growth: int) -> int {
    if growth > 5000 {
        6000
    } else if growth > 4000 {
        6000 + 2 * (5000 - growth)
    } else if growth > 2000 {
        8000 + (4000 - growth)
    } else {
        10000
    }
}

/// Adjusted growth multiplier, four decimals: `1 + growth`, floored at
/// `1.01` and capped at `1.5`.
pub open spec fn spec_adjusted_growth(growth: int) -> int {
    if growth > 5000 {
        15000
    } else if growth > 100 {
        10000 + growth
    } else {
        10100
    }
}

/// Iterated fixed-point power of the adjusted growth multiplier: the result
/// carries eight decimals and each squaring-free step rounds once.
pub open spec fn pow_curve(a: int, n: nat) -> int
    decreases n,
{
    if n == 0 {
        100000000
    } else {
        round_div(pow_curve(a, (n - 1) as nat) * a, 10000)
    }
}

/// Bound on `pow_curve` after `n` steps: each step grows the value by at
/// most half plus the rounding unit.
pub open spec fn pow_curve_cap(n: nat) -> int
    decreases n,
{
    if n == 0 {
        100000000
    } else {
        3 * pow_curve_cap((n - 1) as nat) / 2 + 1
    }
}

proof fn lemma_pow_curve_step(a: int, x: int, c: int)
    requires
        10000 <= a <= 15000,
        0 < x <= c,
    ensures
        0 < round_div(x * a, 10000) <= 3 * c / 2 + 1,
        0 < x * a <= c * 15000,
{
    lemma_round_div_range(x * a, 10000);
    assert(10000 <= x * a <= c * 15000) by (nonlinear_arith)
        requires
            10000 <= a <= 15000,
            0 < x <= c,
    {}
    lemma_div_is_ordered(10000, x * a, 10000);
    lemma_div_is_ordered(x * a, c * 15000, 10000);
    lemma_div_denominator(c * 15000, 5000, 2);
    lemma_div_multiples_vanish(3 * c, 5000);
    assert(c * 15000 == 5000 * (3 * c));
}

/// The factor a given punishment and adjusted growth produce:
/// `(adjusted^10 / 2.6 * 10 + 5) * punishment`, in eight-decimal fixed
/// point.
pub open spec fn spec_factor_from(punishment: int, adjusted: int) -> int {
    round_div(
        (round_div(pow_curve(adjusted, 10) * 50, 13) + 5 * 100000000) * punishment,
        10000,
    )
}

/// The hand-tuned valuation multiplier, eight decimals: reward growth up to
/// a point, then punish it for unsustainability.
pub open spec fn spec_growth_adjustment_factor(growth: int) -> int {
    spec_factor_from(spec_punishment(growth), spec_adjusted_growth(growth))
}

/// Below one percent the curve sits on its floor: every such growth rate is
/// adjusted to exactly `1.01` with no punishment, so the factor equals the
/// factor at zero growth.
pub proof fn lemma_growth_adjustment_floor(growth: int)
    requires
        growth <= 100,
    ensures
        spec_growth_adjustment_factor(growth) == spec_growth_adjustment_factor(0),
        spec_growth_adjustment_factor(growth) == spec_factor_from(10000, 10100),
{
}

/// A rounded quotient pinned by hand: the dividend sits between the chosen
/// multiple of the divisor and the next one.
proof fn lemma_round_div_eq(a: int, b: int, q: int)
    requires
        b > 0,
        a >= 0,
        q >= 0,
        2 * b * q <= 2 * a + b < 2 * b * (q + 1),
    ensures
        round_div(a, b) == q,
{
    assert(q * (2 * b) == 2 * b * q) by (nonlinear_arith) {}
    assert(2 * b * (q + 1) == 2 * b * q + 2 * b) by (nonlinear_arith) {}
    vstd::arithmetic::div_mod::lemma_fundamental_div_mod_converse(
        2 * a + b,
        2 * b,
        q,
        2 * a + b - q * (2 * b),
    );
}

/// The floor case evaluated out: ten rounded multiplications by `1.01`,
/// then `/ 2.6 * 10 + 5` with no punishment, give exactly `9.24854662`.
pub proof fn lemma_growth_adjustment_floor_value()
    ensures
        spec_growth_adjustment_factor(0) == 924854662,
{
    reveal_with_fuel(pow_curve, 11);
    lemma_round_div_eq((100000000 * 10100) as int, 10000, 101000000);
    assert(pow_curve(10100, 1) == 101000000);
    lemma_round_div_eq((101000000 * 10100) as int, 10000, 102010000);
    assert(pow_curve(10100, 2) == 102010000);
    lemma_round_div_eq((102010000 * 10100) as int, 10000, 103030100);
    assert(pow_curve(10100, 3) == 103030100);
    lemma_round_div_eq((103030100 * 10100) as int, 10000, 104060401);
    assert(pow_curve(10100, 4) == 104060401);
    lemma_round_div_eq((104060401 * 10100) as int, 10000, 105101005);
    assert(pow_curve(10100, 5) == 105101005);
    lemma_round_div_eq((105101005 * 10100) as int, 10000, 106152015);
    assert(pow_curve(10100, 6) == 106152015);
    lemma_round_div_eq((106152015 * 10100) as int, 10000, 107213535);
    assert(pow_curve(10100, 7) == 107213535);
    lemma_round_div_eq((107213535 * 10100) as int, 10000, 108285670);
    assert(pow_curve(10100, 8) == 108285670);
    lemma_round_div_eq((108285670 * 10100) as int, 10000, 109368527);
    assert(pow_curve(10100, 9) == 109368527);
    lemma_round_div_eq((109368527 * 10100) as int, 10000, 110462212);
    assert(pow_curve(10100, 10) == 110462212);
    lemma_round_div_eq((110462212 * 50) as int, 13, 424854662);
    lemma_round_div_eq((924854662 * 10000) as int, 10000, 924854662);
}

/// At each breakpoint of the piecewise curve the two adjacent formulas
/// agree exactly: the boundary values at growth rates of one, twenty, forty
/// and fifty percent can be computed from either side.
pub proof fn lemma_growth_adjustment_boundaries()
    ensures
        spec_growth_adjustment_factor(5000) == spec_factor_from(6000, 15000),
        spec_growth_adjustment_factor(4000) == spec_factor_from(
            6000 + 2 * (5000 - 4000),
            spec_adjusted_growth(4000),
        ),
        spec_growth_adjustment_factor(2000) == spec_factor_from(
            8000 + (4000 - 2000),
            spec_adjusted_growth(2000),
        ),
        spec_growth_adjustment_factor(100) == spec_factor_from(10000, (10000 + 100) as int),
{
}

/// Valuation multiplier for a net growth rate (two-decimal percent): the
/// result carries eight decimals, `924854665` meaning a factor of about
/// `9.2485`.
pub fn calculate_growth_adjustment_factor(growth: i64) -> (r: i64)
    ensures
        r == spec_growth_adjustment_factor(growth as int),
        0 < r <= FACTOR_BOUND,
{
    let punishment: i64 = if growth > 5000 {
        6000
    } else if growth > 4000 {
        6000 + 2 * (5000 - growth)
    } else if growth > 2000 {
        8000 + (4000 - growth)
    } else {
        10000
    };
    let adjusted: i64 = if growth > 5000 {
        15000
    } else if growth > 100 {
        10000 + growth
    } else {
        10100
    };
    assert(punishment == spec_punishment(growth as int));
    assert(adjusted == spec_adjusted_growth(growth as int));
    let mut x: i64 = 100000000;
    let mut k: usize = 0;
    while k < 10
        invariant
            0 <= k <= 10,
            10000 <= adjusted <= 15000,
            x == pow_curve(adjusted as int, k as nat),
            0 < x <= pow_curve_cap(k as nat),
        decreases 10 - k,
    {
        proof {
            lemma_pow_curve_cap_10();
            lemma_pow_curve_cap_mono(k as nat);
            lemma_pow_curve_step(adjusted as int, x as int, pow_curve_cap(k as nat));
            lemma_mul_inequality(pow_curve_cap(k as nat), 5766503998, 15000);
        }
        x = round_div_i128((x as i128) * (adjusted as i128), 10000) as i64;
        k = k + 1;
    }
    proof {
        lemma_pow_curve_cap_10();
    }
    let t = round_div_i128((x as i128) * 50, 13);
    proof {
        lemma_round_div_abs(x as int * 50, 13, (5766503998 * 50) as int, 13);
        lemma_round_div_range(x as int * 50, 13);
        vstd::arithmetic::div_mod::lemma_div_pos_is_pos(x as int * 50, 13);
    }
    let u = t + 500000000;
    proof {
        assert(u * (punishment as int) <= 23178861532 * 10000 && 10000 <= u * (
        punishment as int)) by (nonlinear_arith)
            requires
                500000000 <= u <= 23178861532,
                6000 <= punishment <= 10000,
        {}
        lemma_round_div_range(u as int * (punishment as int), 10000);
        lemma_div_is_ordered(10000, u as int * (punishment as int), 10000);
        lemma_div_is_ordered(u as int * (punishment as int), (23178861532 * 10000) as int, 10000);
    }
    let f = round_div_i128(u * (punishment as i128), 10000);
    f as i64
}

/// `pow_curve_cap` evaluated out to ten steps.
proof fn lemma_pow_curve_cap_10()
    ensures
        pow_curve_cap(10) == 5766503998,
{
    reveal_with_fuel(pow_curve_cap, 11);
    assert(pow_curve_cap(1) == 150000001);
    assert(pow_curve_cap(2) == 225000002);
    assert(pow_curve_cap(3) == 337500004);
    assert(pow_curve_cap(4) == 506250007);
    assert(pow_curve_cap(5) == 759375011);
    assert(pow_curve_cap(6) == 1139062517);
    assert(pow_curve_cap(7) == 1708593776);
    assert(pow_curve_cap(8) == 2562890665);
    assert(pow_curve_cap(9) == 3844335998);
}

/// The cap starts at one hundred million and never goes below it.
proof fn lemma_pow_curve_cap_pos(n: nat)
    ensures
        pow_curve_cap(n) >= 100000000,
    decreases n,
{
    if n > 0 {
        lemma_pow_curve_cap_pos((n - 1) as nat);
        let c = pow_curve_cap((n - 1) as nat);
        lemma_div_is_ordered(2 * c, 3 * c, 2);
        lemma_div_multiples_vanish(c, 2);
    }
}

/// The cap never shrinks as more steps are taken.
proof fn lemma_pow_curve_cap_mono(k: nat)
    requires
        k <= 9,
    ensures
        pow_curve_cap(k) <= pow_curve_cap(10),
    decreases 10 - k,
{
    if k < 9 {
        lemma_pow_curve_cap_mono(k + 1);
    }
    lemma_pow_curve_cap_pos(k);
    let c = pow_curve_cap(k);
    lemma_div_is_ordered(2 * c, 3 * c, 2);
    lemma_div_multiples_vanish(c, 2);
    assert(pow_curve_cap(k) <= pow_curve_cap(k + 1));
}

// ---------------------------------------------------------------------------
// Price targets
// ---------------------------------------------------------------------------
/// A theoretical share price: earnings per share scaled by the valuation
/// curve at the dilution-netted growth rate.
pub open spec fn spec_price_target(eps: int, growth_pct: int, share_change: int) -> int {
    round_div(eps * spec_growth_adjustment_factor(growth_pct - share_change), FACTOR_ONE as int)
}

pub fn calculate_price_target(eps: i64, growth_pct: i64, share_change: i64) -> (r: i64)
    requires
        in_range(eps as int),
        in_range(growth_pct as int),
        in_range(share_change as int),
        in_range(spec_price_target(eps as int, growth_pct as int, share_change as int)),
    ensures
        r == spec_price_target(eps as int, growth_pct as int, share_change as int),
{
    let g = growth_pct - share_change;
    let factor = calculate_growth_adjustment_factor(g);
    proof {
        assert(-(VALUE_LIMIT as int * FACTOR_BOUND as int) <= (eps as int) * (factor as int) <=
        VALUE_LIMIT as int * FACTOR_BOUND as int) by (nonlinear_arith)
            requires
                -VALUE_LIMIT <= eps <= VALUE_LIMIT,
                0 < factor <= FACTOR_BOUND,
        {}
    }
    let q = round_div_i128((eps as i128) * (factor as i128), FACTOR_ONE as i128);
    q as i64
}

pub open spec fn spec_calculate_price_target_option(
    eps: Option<i64>,
    growth_pct: Option<i64>,
    share_change: Option<i64>,
) -> Option<i64> {
    match (eps, growth_pct, share_change) {
        (Some(e), Some(g), Some(s)) => fit(spec_price_target(e as int, g as int, s as int)),
        _ => None,
    }
}

/// Missing-safe price target: each target is independently missing when its
/// growth input (or any other input) is missing.
pub fn calculate_price_target_option(
    eps: Option<i64>,
    growth_pct: Option<i64>,
    share_change: Option<i64>,
) -> (r: Option<i64>)
    requires
        opt_in_range(eps),
        opt_in_range(growth_pct),
        opt_in_range(share_change),
    ensures
        r == spec_calculate_price_target_option(eps, growth_pct, share_change),
        opt_in_range(r),
{
    match (eps, growth_pct, share_change) {
        (Some(e), Some(g), Some(s)) => {
            let net = g - s;
            let factor = calculate_growth_adjustment_factor(net);
            proof {
                assert(-(VALUE_LIMIT as int * FACTOR_BOUND as int) <= (e as int) * (factor as int)
                    <= VALUE_LIMIT as int * FACTOR_BOUND as int) by (nonlinear_arith)
                    requires
                        -VALUE_LIMIT <= e <= VALUE_LIMIT,
                        0 < factor <= FACTOR_BOUND,
                {}
            }
            let q = round_div_i128((e as i128) * (factor as i128), FACTOR_ONE as i128);
            if q < -(VALUE_LIMIT as i128) || q > VALUE_LIMIT as i128 {
                None
            } else {
                Some(q as i64)
            }
        },
        _ => None,
    }
}

// ---------------------------------------------------------------------------
// Industry net-margin factors
// ---------------------------------------------------------------------------
/// Industry-calibrated net-margin divisor, two decimals: `2000` divides a
/// gross margin by twenty.
pub open spec fn spec_net_margin_factor(industry: Seq<char>) -> int {
    if industry == "Airlines"@ {
        2000
    } else if industry == "Grocery Stores"@ || industry == "Department Stores"@ {
        900
    } else if industry == "Discount Stores"@ {
        600
    } else if industry == "Apparel Retail"@ || industry == "Apparel Manufacturing"@ || industry
        == "Footwear & Accessories"@ {
        500
    } else if industry == "Banks - Diversified"@ || industry == "Banks - Regional"@ {
        500
    } else if industry == "Internet Retail"@ || industry == "Specialty Retail"@ {
        350
    } else if industry == "Specialty Industrial Machinery"@ {
        250
    } else if industry == "Semiconductors"@ || industry == "Semiconductor Equipment & Materials"@
        || industry == "Auto Manufacturers"@ || industry == "Auto Parts"@ || industry
        == "Consumer Electronics"@ || industry == "Electrical Equipment & Parts"@ {
        200
    } else {
        300
    }
}

/// Looks up the net-margin divisor for an industry name; unknown industries
/// fall back to the default divisor of three.
pub fn get_net_margin_factor(industry: &str) -> (r: i64)
    ensures
        r == spec_net_margin_factor(industry@),
        200 <= r <= 2000,
{
    if str_eq(industry, "Airlines") {
        2000
    } else if str_eq(industry, "Grocery Stores") || str_eq(industry, "Department Stores") {
        900
    } else if str_eq(industry, "Discount Stores") {
        600
    } else if str_eq(industry, "Apparel Retail") || str_eq(industry, "Apparel Manufacturing")
        || str_eq(industry, "Footwear & Accessories") {
        500
    } else if str_eq(industry, "Banks - Diversified") || str_eq(industry, "Banks - Regional") {
        500
    } else if str_eq(industry, "Internet Retail") || str_eq(industry, "Specialty Retail") {
        350
    } else if str_eq(industry, "Specialty Industrial Machinery") {
        250
    } else if str_eq(industry, "Semiconductors") || str_eq(
        industry,
        "Semiconductor Equipment & Materials",
    ) || str_eq(industry, "Auto Manufacturers") || str_eq(industry, "Auto Parts") || str_eq(
        industry,
        "Consumer Electronics",
    ) || str_eq(industry, "Electrical Equipment & Parts") {
        200
    } else {
        300
    }
}

// ---------------------------------------------------------------------------
// Sums and averages
// ---------------------------------------------------------------------------
/// Sum of a value series.
pub open spec fn sum_i64(s: Seq<i64>) -> int
    decreases s.len(),
{
    if s.len() == 0 {
        0
    } else {
        sum_i64(s.drop_last()) + s.last()
    }
}

/// How many entries of an optional series are present.
pub open spec fn count_present(s: Seq<Option<i64>>) -> int
    decreases s.len(),
{
    if s.len() == 0 {
        0
    } else {
        count_present(s.drop_last()) + match s.last() {
            Some(_) => 1int,
            None => 0int,
        }
    }
}

/// Sum of the present entries of an optional series.
pub open spec fn sum_present(s: Seq<Option<i64>>) -> int
    decreases s.len(),
{
    if s.len() == 0 {
        0
    } else {
        sum_present(s.drop_last()) + match s.last() {
            Some(v) => v as int,
            None => 0int,
        }
    }
}

/// Arithmetic mean of a nonempty series, rounded to two decimals.
pub open spec fn spec_average(s: Seq<i64>) -> i64
    recommends
        s.len() > 0,
{
    round_div(sum_i64(s), s.len() as int) as i64
}

/// Mean of an optional series under one of the two gap policies: strict
/// (any gap poisons the result) or ignore-missing (average what is there;
/// nothing there means no result).
pub open spec fn spec_average_options(s: Seq<Option<i64>>, ignore_none: bool) -> Option<i64> {
    if ignore_none {
        if count_present(s) == 0 {
            None
        } else {
            Some(round_div(sum_present(s), count_present(s)) as i64)
        }
    } else {
        if s.len() == 0 || count_present(s) < s.len() {
            None
        } else {
            Some(round_div(sum_present(s), s.len() as int) as i64)
        }
    }
}

/// Sums `vals[from..to]`, also reporting the linear bound the elements give.
fn sum_range(vals: &Vec<i64>, from: usize, to: usize) -> (s: i128)
    requires
        from <= to <= vals@.len(),
        forall|i: int| from <= i < to ==> in_range(#[trigger] vals@[i] as int),
    ensures
        s == sum_i64(vals@.subrange(from as int, to as int)),
        -((to - from) as int * VALUE_LIMIT as int) <= s <= (to - from) as int
            * VALUE_LIMIT as int,
{
    let mut acc: i128 = 0;
    let mut j: usize = from;
    while j < to
        invariant
            from <= j <= to,
            acc == sum_i64(vals@.subrange(from as int, j as int)),
            -((j - from) as int * VALUE_LIMIT as int) <= acc <= (j - from) as int
                * VALUE_LIMIT as int,
        decreases to - j,
    {
        proof {
            assert(vals@.subrange(from as int, j + 1).drop_last() =~= vals@.subrange(
                from as int,
                j as int,
            ));
        }
        acc = acc + (vals[j] as i128);
        j = j + 1;
    }
    proof {
        assert(vals@.subrange(from as int, to as int) =~= vals@.subrange(from as int, j as int));
    }
    acc
}

/// Counts and sums the present entries of `vals[from..to]`.
fn scan_present(vals: &Vec<Option<i64>>, from: usize, to: usize) -> (res: (usize, i128))
    requires
        from <= to <= vals@.len(),
        forall|i: int| from <= i < to ==> opt_in_range(#[trigger] vals@[i]),
    ensures
        res.0 == count_present(vals@.subrange(from as int, to as int)),
        res.1 == sum_present(vals@.subrange(from as int, to as int)),
        res.0 <= to - from,
        -(res.0 as int * VALUE_LIMIT as int) <= res.1 <= res.0 as int * VALUE_LIMIT as int,
{
    let mut cnt: usize = 0;
    let mut acc: i128 = 0;
    let mut j: usize = from;
    while j < to
        invariant
            from <= j <= to,
            cnt == count_present(vals@.subrange(from as int, j as int)),
            acc == sum_present(vals@.subrange(from as int, j as int)),
            cnt <= j - from,
            -(cnt as int * VALUE_LIMIT as int) <= acc <= cnt as int * VALUE_LIMIT as int,
        decreases to - j,
    {
        proof {
            assert(vals@.subrange(from as int, j + 1).drop_last() =~= vals@.subrange(
                from as int,
                j as int,
            ));
        }
        match vals[j] {
            Some(v) => {
                acc = acc + (v as i128);
                cnt = cnt + 1;
            },
            None => {},
        }
        j = j + 1;
    }
    proof {
        assert(vals@.subrange(from as int, to as int) =~= vals@.subrange(from as int, j as int));
    }
    (cnt, acc)
}

/// Mean of `vals[from..to]` under the chosen gap policy.
fn average_options_range(vals: &Vec<Option<i64>>, from: usize, to: usize, ignore_none: bool) -> (r:
    Option<i64>)
    requires
        from <= to <= vals@.len(),
        forall|i: int| from <= i < to ==> opt_in_range(#[trigger] vals@[i]),
    ensures
        r == spec_average_options(vals@.subrange(from as int, to as int), ignore_none),
        opt_in_range(r),
{
    let (cnt, sum) = scan_present(vals, from, to);
    if ignore_none {
        if cnt == 0 {
            None
        } else {
            proof {
                lemma_round_div_cap(sum as int, cnt as int, VALUE_LIMIT as int);
            }
            let mean = round_div_i128(sum, cnt as i128);
            Some(mean as i64)
        }
    } else {
        if to == from || cnt < to - from {
            None
        } else {
            proof {
                lemma_round_div_cap(sum as int, (to - from) as int, VALUE_LIMIT as int);
            }
            let mean = round_div_i128(sum, (to - from) as i128);
            Some(mean as i64)
        }
    }
}

/// Mean of a series that may have gaps, under the chosen policy.
pub fn average_options(options: &Vec<Option<i64>>, ignore_none: bool) -> (r: Option<i64>)
    requires
        forall|i: int| 0 <= i < options@.len() ==> opt_in_range(#[trigger] options@[i]),
    ensures
        r == spec_average_options(options@, ignore_none),
        opt_in_range(r),
{
    proof {
        assert(options@.subrange(0, options@.len() as int) =~= options@);
    }
    average_options_range(options, 0, options.len(), ignore_none)
}

/// Mean of a gap-free growth series; the caller guards against emptiness.
pub fn calculate_average_growth(growth_vec: Vec<i64>) -> (r: i64)
    requires
        growth_vec@.len() > 0,
        forall|i: int| 0 <= i < growth_vec@.len() ==> in_range(#[trigger] growth_vec@[i] as int),
    ensures
        r == spec_average(growth_vec@),
        in_range(r as int),
{
    let s = sum_range(&growth_vec, 0, growth_vec.len());
    proof {
        assert(growth_vec@.subrange(0, growth_vec@.len() as int) =~= growth_vec@);
        lemma_round_div_cap(s as int, growth_vec@.len() as int, VALUE_LIMIT as int);
    }
    let mean = round_div_i128(s, growth_vec.len() as i128);
    mean as i64
}

// ---------------------------------------------------------------------------
// Trend classification
// ---------------------------------------------------------------------------
/// The three-way comparison at the heart of every trend label: a difference
/// at or above the flat threshold trends up, at or below its negation trends
/// down, anything in between is flat.
pub open spec fn spec_three_way(diff: int, eps: int) -> Trend {
    if diff >= eps {
        Trend::Uptrend
    } else if diff <= -eps {
        Trend::Downtrend
    } else {
        Trend::Flat
    }
}

/// Short-term label of period `i`: its value against the mean of the four
/// periods that follow it.
pub open spec fn spec_short_label(vals: Seq<i64>, i: int, eps: int) -> Trend {
    spec_three_way(
        vals[i] - round_div(sum_i64(vals.subrange(i + 1, i + 5)), 4),
        eps,
    )
}

/// Per-period short-term labels over the most recent `length` periods; a
/// series shorter than `length + 4` cannot support the sliding four-period
/// baseline and yields the single label `Irrelevant`.
pub open spec fn spec_short_term_trend(vals: Seq<i64>, length: int, eps: int) -> Seq<Trend> {
    if vals.len() < length + 4 {
        seq![Trend::Irrelevant]
    } else {
        Seq::new(length as nat, |i: int| spec_short_label(vals, i, eps))
    }
}

/// Short-term labels of a gap-free series, most recent first.
pub fn calculate_short_term_trend(vals: &Vec<i64>, length: usize, flat_threshold: i64) -> (r: Vec<
    Trend,
>)
    requires
        forall|i: int| 0 <= i < vals@.len() ==> in_range(#[trigger] vals@[i] as int),
        in_range(flat_threshold as int),
    ensures
        r@ == spec_short_term_trend(vals@, length as int, flat_threshold as int),
        vals@.len() < length + 4 ==> r@ =~= seq![Trend::Irrelevant],
{
    if vals.len() < length || vals.len() - length < 4 {
        let mut r: Vec<Trend> = Vec::new();
        r.push(Trend::Irrelevant);
        proof {
            assert(r@ =~= seq![Trend::Irrelevant]);
        }
        return r;
    }
    let mut r: Vec<Trend> = Vec::new();
    let mut i: usize = 0;
    while i < length
        invariant
            0 <= i <= length,
            length + 4 <= vals@.len(),
            in_range(flat_threshold as int),
            forall|p: int| 0 <= p < vals@.len() ==> in_range(#[trigger] vals@[p] as int),
            r@.len() == i,
            forall|j: int|
                0 <= j < i ==> r@[j] == spec_short_label(
                    vals@,
                    j,
                    flat_threshold as int,
                ),
        decreases length - i,
    {
        let s = sum_range(vals, i + 1, i + 5);
        proof {
            lemma_round_div_cap(s as int, 4, VALUE_LIMIT as int);
        }
        let mean = round_div_i128(s, 4) as i64;
        let diff = vals[i] - mean;
        let label = if diff >= flat_threshold {
            Trend::Uptrend
        } else if diff <= -flat_threshold {
            Trend::Downtrend
        } else {
            Trend::Flat
        };
        r.push(label);
        i = i + 1;
    }
    proof {
        assert(r@ =~= spec_short_term_trend(vals@, length as int, flat_threshold as int));
    }
    r
}

/// Short-term label of period `i` in a series with gaps: `Irrelevant` when
/// either the period's own value or the four-period baseline is missing.
pub open spec fn spec_short_label_option(
    vals: Seq<Option<i64>>,
    i: int,
    ignore_none: bool,
    eps: int,
) -> Trend {
    match (vals[i], spec_average_options(vals.subrange(i + 1, i + 5), ignore_none)) {
        (Some(v), Some(m)) => spec_three_way(v - m, eps),
        _ => Trend::Irrelevant,
    }
}

/// Per-period short-term labels of a series with gaps.
pub open spec fn spec_short_term_trend_option(
    vals: Seq<Option<i64>>,
    length: int,
    ignore_none: bool,
    eps: int,
) -> Seq<Trend> {
    if vals.len() < length + 4 {
        seq![Trend::Irrelevant]
    } else {
        Seq::new(length as nat, |i: int| spec_short_label_option(vals, i, ignore_none, eps))
    }
}

/// Short-term labels of a series that may have gaps, most recent first.
pub fn calculate_short_term_trend_option(
    vals: &Vec<Option<i64>>,
    length: usize,
    ignore_none: bool,
    flat_threshold: i64,
) -> (r: Vec<Trend>)
    requires
        forall|i: int| 0 <= i < vals@.len() ==> opt_in_range(#[trigger] vals@[i]),
        in_range(flat_threshold as int),
    ensures
        r@ == spec_short_term_trend_option(
            vals@,
            length as int,
            ignore_none,
            flat_threshold as int,
        ),
        vals@.len() < length + 4 ==> r@ =~= seq![Trend::Irrelevant],
{
    if vals.len() < length || vals.len() - length < 4 {
        let mut r: Vec<Trend> = Vec::new();
        r.push(Trend::Irrelevant);
        proof {
            assert(r@ =~= seq![Trend::Irrelevant]);
        }
        return r;
    }
    let mut r: Vec<Trend> = Vec::new();
    let mut i: usize = 0;
    while i < length
        invariant
            0 <= i <= length,
            length + 4 <= vals@.len(),
            in_range(flat_threshold as int),
            forall|p: int| 0 <= p < vals@.len() ==> opt_in_range(#[trigger] vals@[p]),
            r@.len() == i,
            forall|j: int|
                0 <= j < i ==> r@[j] == spec_short_label_option(
                    vals@,
                    j,
                    ignore_none,
                    flat_threshold as int,
                ),
        decreases length - i,
    {
        let past_four_ave = average_options_range(vals, i + 1, i + 5, ignore_none);
        let label = match (vals[i], past_four_ave) {
            (Some(curr), Some(prev)) => {
                let diff = curr - prev;
                if diff >= flat_threshold {
                    Trend::Uptrend
                } else if diff <= -flat_threshold {
                    Trend::Downtrend
                } else {
                    Trend::Flat
                }
            },
            _ => Trend::Irrelevant,
        };
        r.push(label);
        i = i + 1;
    }
    proof {
        assert(r@ =~= spec_short_term_trend_option(
            vals@,
            length as int,
            ignore_none,
            flat_threshold as int,
        ));
    }
    r
}

/// Long-term label of a gap-free series: the newer half's mean against the
/// older half's, the extra element of an odd-length series going to the
/// older half.  Fewer than two periods cannot be split and are `Irrelevant`.
pub open spec fn spec_long_term_trend(vals: Seq<i64>, eps: int) -> Trend {
    if vals.len() < 2 {
        Trend::Irrelevant
    } else {
        let split = vals.len() as int / 2;
        let new_ave = round_div(sum_i64(vals.subrange(0, split)), split);
        let old_ave = round_div(sum_i64(vals.subrange(split, vals.len() as int)), vals.len()
            - split);
        spec_three_way(new_ave - old_ave, eps)
    }
}

pub fn calculate_long_term_trend(vals: &Vec<i64>, flat_threshold: i64) -> (r: Trend)
    requires
        forall|i: int| 0 <= i < vals@.len() ==> in_range(#[trigger] vals@[i] as int),
        in_range(flat_threshold as int),
    ensures
        r == spec_long_term_trend(vals@, flat_threshold as int),
        vals@.len() < 2 ==> r == Trend::Irrelevant,
{
    if vals.len() < 2 {
        return Trend::Irrelevant;
    }
    let split = vals.len() / 2;
    let s_new = sum_range(vals, 0, split);
    let s_old = sum_range(vals, split, vals.len());
    proof {
        lemma_round_div_cap(s_new as int, split as int, VALUE_LIMIT as int);
        lemma_round_div_cap(s_old as int, (vals@.len() - split) as int, VALUE_LIMIT as int);
    }
    let new_ave = round_div_i128(s_new, split as i128) as i64;
    let old_ave = round_div_i128(s_old, (vals.len() - split) as i128) as i64;
    let diff = new_ave - old_ave;
    if diff >= flat_threshold {
        Trend::Uptrend
    } else if diff <= -flat_threshold {
        Trend::Downtrend
    } else {
        Trend::Flat
    }
}

/// Long-term label of a series with gaps: `Irrelevant` when either half's
/// mean is missing under the chosen policy.
pub open spec fn spec_long_term_trend_option(
    vals: Seq<Option<i64>>,
    ignore_none: bool,
    eps: int,
) -> Trend {
    if vals.len() < 2 {
        Trend::Irrelevant
    } else {
        let split = vals.len() as int / 2;
        match (
            spec_average_options(vals.subrange(0, split), ignore_none),
            spec_average_options(vals.subrange(split, vals.len() as int), ignore_none),
        ) {
            (Some(n), Some(o)) => spec_three_way(n - o, eps),
            _ => Trend::Irrelevant,
        }
    }
}

pub fn calculate_long_term_trend_option(
    vals: &Vec<Option<i64>>,
    ignore_none: bool,
    flat_threshold: i64,
) -> (r: Trend)
    requires
        forall|i: int| 0 <= i < vals@.len() ==> opt_in_range(#[trigger] vals@[i]),
        in_range(flat_threshold as int),
    ensures
        r == spec_long_term_trend_option(vals@, ignore_none, flat_threshold as int),
        vals@.len() < 2 ==> r == Trend::Irrelevant,
{
    if vals.len() < 2 {
        return Trend::Irrelevant;
    }
    let split = vals.len() / 2;
    let new_ave = average_options_range(vals, 0, split, ignore_none);
    let old_ave = average_options_range(vals, split, vals.len(), ignore_none);
    match (new_ave, old_ave) {
        (Some(new_val), Some(old_val)) => {
            let diff = new_val - old_val;
            if diff >= flat_threshold {
                Trend::Uptrend
            } else if diff <= -flat_threshold {
                Trend::Downtrend
            } else {
                Trend::Flat
            }
        },
        _ => Trend::Irrelevant,
    }
}

// ---------------------------------------------------------------------------
// Aggregate trend reduction
// ---------------------------------------------------------------------------
/// Collapses a label sequence to one label.  Dominance of up or down labels
/// is checked first, against both the count threshold and the opposing
/// count; only then does the result fall back to flat or irrelevant.
pub open spec fn spec_concat_trend(s: Seq<Trend>, count_threshold: int) -> Trend {
    let u = count_trend(s, Trend::Uptrend);
    let d = count_trend(s, Trend::Downtrend);
    let f = count_trend(s, Trend::Flat);
    if u >= count_threshold && u > d {
        Trend::Uptrend
    } else if d >= count_threshold && d > u {
        Trend::Downtrend
    } else if f >= count_threshold || u == d {
        Trend::Flat
    } else {
        Trend::Irrelevant
    }
}

pub fn concat_trend(trend_vec: Vec<Trend>, count_threshold: usize) -> (r: Trend)
    ensures
        r == spec_concat_trend(trend_vec@, count_threshold as int),
{
    let ghost s = trend_vec@;
    let mut u: usize = 0;
    let mut d: usize = 0;
    let mut f: usize = 0;
    let mut i: usize = 0;
    while i < trend_vec.len()
        invariant
            0 <= i <= s.len(),
            s == trend_vec@,
            u == count_trend(s.subrange(0, i as int), Trend::Uptrend),
            d == count_trend(s.subrange(0, i as int), Trend::Downtrend),
            f == count_trend(s.subrange(0, i as int), Trend::Flat),
            u <= i && d <= i && f <= i,
        decreases s.len() - i,
    {
        proof {
            assert(s.subrange(0, i + 1).drop_last() =~= s.subrange(0, i as int));
        }
        match trend_vec[i] {
            Trend::Uptrend => {
                u = u + 1;
            },
            Trend::Downtrend => {
                d = d + 1;
            },
            Trend::Flat => {
                f = f + 1;
            },
            Trend::Irrelevant => {},
        }
        i = i + 1;
    }
    proof {
        assert(s.subrange(0, s.len() as int) =~= s);
    }
    if u >= count_threshold && u > d {
        Trend::Uptrend
    } else if d >= count_threshold && d > u {
        Trend::Downtrend
    } else if f >= count_threshold || u == d {
        Trend::Flat
    } else {
        Trend::Irrelevant
    }
}

} // verus!
