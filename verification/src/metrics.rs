//! Per-company metric judgements: the theoretical net margin and its
//! optimization decision, the cash-position health check, and the composed
//! trend queries that classify an extracted value series and collapse the
//! labels to a single trend.
use vstd::prelude::*;

verus! {

use crate::calculate::{
    calculate_long_term_trend,
    calculate_long_term_trend_option,
    calculate_short_term_trend,
    calculate_short_term_trend_option,
    concat_trend,
    spec_concat_trend,
    spec_long_term_trend,
    spec_long_term_trend_option,
    spec_short_term_trend,
    spec_short_term_trend_option,
};
use crate::fixed::{round_div, in_range, opt_in_range, lemma_round_div_cap, PCT_LIMIT};
use crate::records::EarningsReport;
use crate::trend::Trend;

/// Theoretical net margin: the gross margin (assumed a full hundred percent
/// when unknown) divided by the industry factor; and whether the company
/// already operates at or above it while its operating margin leaves room.
pub open spec fn spec_is_net_margin_optimized(stock_data: EarningsReport, margin_factor: int) -> (
    int,
    bool,
) {
    let gross_margin = match stock_data.gross_margin {
        Some(g) => g as int,
        None => 10000int,
    };
    let theoretical = round_div(gross_margin * 100, margin_factor);
    (
        theoretical,
        theoretical <= stock_data.net_margin && stock_data.operating_margin
            > stock_data.net_margin,
    )
}

/// Computes the theoretical net margin for the period's industry factor and
/// judges whether the actual margin already meets it.
pub fn is_net_margin_optimized(stock_data: &EarningsReport, margin_factor: i64) -> (r: (i64, bool))
    requires
        stock_data.valid(),
        100 <= margin_factor <= PCT_LIMIT,
    ensures
        r.0 == spec_is_net_margin_optimized(*stock_data, margin_factor as int).0,
        r.1 == spec_is_net_margin_optimized(*stock_data, margin_factor as int).1,
        -PCT_LIMIT <= r.0 <= PCT_LIMIT,
{
    let curr_gross_margin: i64 = match stock_data.gross_margin {
        Some(g) => g,
        None => 10000,
    };
    proof {
        lemma_round_div_cap(
            curr_gross_margin as int * 100,
            margin_factor as int,
            PCT_LIMIT as int,
        );
    }
    let curr_theoretical_net_margin = crate::fixed::round_div_i128(
        (curr_gross_margin as i128) * 100,
        margin_factor as i128,
    ) as i64;
    let curr_net_margin = stock_data.net_margin;
    let curr_operating_margin = stock_data.operating_margin;
    let is_optimized = curr_theoretical_net_margin <= curr_net_margin && curr_operating_margin
        > curr_net_margin;
    (curr_theoretical_net_margin, is_optimized)
}

/// A healthy cash position: net cash is nonnegative, or the debt is less
/// than two years of positive net income.
pub open spec fn spec_has_healthy_cash_position(stock_data: EarningsReport) -> bool {
    stock_data.net_cash >= 0 || (stock_data.net_income > 0 && -stock_data.net_cash < 2
        * stock_data.net_income)
}

/// Tells if the current net cash is at a healthy level.
pub fn has_healthy_cash_position(stock_data: &EarningsReport) -> (r: bool)
    requires
        stock_data.valid(),
    ensures
        r == spec_has_healthy_cash_position(*stock_data),
{
    let curr_net_income = stock_data.net_income;
    let curr_net_cash = stock_data.net_cash;
    curr_net_cash >= 0 || (curr_net_income > 0 && -curr_net_cash < 2 * curr_net_income)
}

/// Aggregate short-term trend of a gap-free value series.
pub open spec fn spec_get_short_term_trend(
    values: Seq<i64>,
    length: int,
    eps: int,
    count_threshold: int,
) -> Trend {
    spec_concat_trend(spec_short_term_trend(values, length, eps), count_threshold)
}

pub fn get_short_term_trend(
    values: &Vec<i64>,
    length: usize,
    flat_threshold: i64,
    count_threshold: usize,
) -> (r: Trend)
    requires
        forall|i: int| 0 <= i < values@.len() ==> in_range(#[trigger] values@[i] as int),
        in_range(flat_threshold as int),
    ensures
        r == spec_get_short_term_trend(
            values@,
            length as int,
            flat_threshold as int,
            count_threshold as int,
        ),
{
    let trend_vec = calculate_short_term_trend(values, length, flat_threshold);
    concat_trend(trend_vec, count_threshold)
}

/// Aggregate short-term trend of a series with gaps.
pub open spec fn spec_get_short_term_trend_option(
    values: Seq<Option<i64>>,
    length: int,
    ignore_none: bool,
    eps: int,
    count_threshold: int,
) -> Trend {
    spec_concat_trend(
        spec_short_term_trend_option(values, length, ignore_none, eps),
        count_threshold,
    )
}

pub fn get_short_term_trend_option(
    values: &Vec<Option<i64>>,
    length: usize,
    ignore_none: bool,
    flat_threshold: i64,
    count_threshold: usize,
) -> (r: Trend)
    requires
        forall|i: int| 0 <= i < values@.len() ==> opt_in_range(#[trigger] values@[i]),
        in_range(flat_threshold as int),
    ensures
        r == spec_get_short_term_trend_option(
            values@,
            length as int,
            ignore_none,
            flat_threshold as int,
            count_threshold as int,
        ),
{
    let trend_vec = calculate_short_term_trend_option(values, length, ignore_none, flat_threshold);
    concat_trend(trend_vec, count_threshold)
}

/// Long-term trend of a gap-free value series.
pub fn get_long_term_trend(values: &Vec<i64>, flat_threshold: i64) -> (r: Trend)
    requires
        forall|i: int| 0 <= i < values@.len() ==> in_range(#[trigger] values@[i] as int),
        in_range(flat_threshold as int),
    ensures
        r == spec_long_term_trend(values@, flat_threshold as int),
{
    calculate_long_term_trend(values, flat_threshold)
}

/// Long-term trend of a series with gaps.
pub fn get_long_term_trend_option(
    values: &Vec<Option<i64>>,
    ignore_none: bool,
    flat_threshold: i64,
) -> (r: Trend)
    requires
        forall|i: int| 0 <= i < values@.len() ==> opt_in_range(#[trigger] values@[i]),
        in_range(flat_threshold as int),
    ensures
        r == spec_long_term_trend_option(values@, ignore_none, flat_threshold as int),
{
    calculate_long_term_trend_option(values, ignore_none, flat_threshold)
}

} // verus!
