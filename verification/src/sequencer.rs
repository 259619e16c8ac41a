//! The recomputation sequencer: decides which derived fields of a company's
//! records are stale and recomputes them in dependency order — ratio and
//! growth backfill over the statement periods first, then the
//! trailing-twelve-month snapshot, multi-year averages and trend labels,
//! and only then the price targets and the guidance-based forward target.
//!
//! Everything here is pure: the storage collaborator hands in a company's
//! period series (most recent first) and takes the rewritten records back.
use vstd::prelude::*;

verus! {

use crate::calculate::{
    average_options,
    calculate_average_growth,
    calculate_margin_portion,
    calculate_per_share,
    calculate_price_target_option,
    calculate_ratio,
    calculate_ratio_as_pct,
    calculate_ratio_option,
    get_net_margin_factor,
    spec_average,
    spec_average_options,
    spec_calculate_margin_portion,
    spec_calculate_per_share,
    spec_calculate_price_target_option,
    spec_calculate_ratio,
    spec_calculate_ratio_as_pct,
    spec_calculate_ratio_option,
    spec_net_margin_factor,
    spec_yoy_growth,
    spec_yoy_growth_option,
    calculate_yoy_growth_option,
};
use crate::fixed::{in_range, opt_in_range, round_div_i128, VALUE_LIMIT};
use crate::metrics::{
    get_long_term_trend,
    get_long_term_trend_option,
    get_short_term_trend,
    get_short_term_trend_option,
    is_net_margin_optimized,
    spec_get_short_term_trend,
    spec_get_short_term_trend_option,
    spec_is_net_margin_optimized,
};
use crate::calculate::{spec_long_term_trend, spec_long_term_trend_option};
use crate::records::{Config, CurrentMetrics, DurationKind, EarningsReport, Forecasts, DATE_LIMIT};

/// A statement series a backfill or metric pass can work on: every period
/// well formed.
pub open spec fn all_valid(s: Seq<EarningsReport>) -> bool {
    forall|i: int| 0 <= i < s.len() ==> (#[trigger] s[i]).valid()
}

/// Hard failures of a pipeline step: the storage collaborator did not hand
/// over a row the step depends on.
#[derive(Clone, Copy, Debug, PartialEq, Eq, Structural)]
pub enum EngineError {
    /// No trailing-twelve-month period exists for the company.
    MissingQuarterlyData,
    /// No annual period exists for the company.
    MissingAnnualData,
}

impl EngineError {
    /// A fixed description for logs and error responses.
    pub fn message(&self) -> (r: &'static str)
        ensures
            *self == EngineError::MissingQuarterlyData ==> r@ == "no quarterly earnings data"@,
            *self == EngineError::MissingAnnualData ==> r@ == "no annual earnings data"@,
    {
        match self {
            EngineError::MissingQuarterlyData => "no quarterly earnings data",
            EngineError::MissingAnnualData => "no annual earnings data",
        }
    }
}

// ---------------------------------------------------------------------------
// Column extraction
// ---------------------------------------------------------------------------
/// The optional statement columns the trend and average passes read.
#[derive(Clone, Copy, Debug, PartialEq, Eq, Structural)]
pub enum MetricField {
    NetInterestGrowthYoy,
    NetInterestMargin,
    CostOfRisk,
    RevenueGrowthYoy,
    GrossProfitGrowthYoy,
    GrossMargin,
    SgaGpRatio,
    RndGpRatio,
    OperatingCashFlowMargin,
    FfoMargin,
}

/// The always-present statement columns the trend passes read.
#[derive(Clone, Copy, Debug, PartialEq, Eq, Structural)]
pub enum PlainField {
    OperatingMargin,
    SharesChangeYoy,
    RetainedEarnings,
    NetCash,
}

pub open spec fn spec_field(p: EarningsReport, f: MetricField) -> Option<i64> {
    match f {
        MetricField::NetInterestGrowthYoy => p.net_interest_growth_yoy,
        MetricField::NetInterestMargin => p.net_interest_margin,
        MetricField::CostOfRisk => p.cost_of_risk,
        MetricField::RevenueGrowthYoy => p.revenue_growth_yoy,
        MetricField::GrossProfitGrowthYoy => p.gross_profit_growth_yoy,
        MetricField::GrossMargin => p.gross_margin,
        MetricField::SgaGpRatio => p.sga_gp_ratio,
        MetricField::RndGpRatio => p.rnd_gp_ratio,
        MetricField::OperatingCashFlowMargin => p.operating_cash_flow_margin,
        MetricField::FfoMargin => p.ffo_margin,
    }
}

pub open spec fn spec_plain_field(p: EarningsReport, f: PlainField) -> i64 {
    match f {
        PlainField::OperatingMargin => p.operating_margin,
        PlainField::SharesChangeYoy => p.shares_change_yoy,
        PlainField::RetainedEarnings => p.retained_earnings,
        PlainField::NetCash => p.net_cash,
    }
}

/// The chosen optional column of every period, in series order.
pub open spec fn spec_extract_field(s: Seq<EarningsReport>, f: MetricField) -> Seq<Option<i64>> {
    Seq::new(s.len(), |i: int| spec_field(s[i], f))
}

/// The chosen plain column of every period, in series order.
pub open spec fn spec_extract_plain_field(s: Seq<EarningsReport>, f: PlainField) -> Seq<i64> {
    Seq::new(s.len(), |i: int| spec_plain_field(s[i], f))
}

/// Extracts a specific optional column from a statement series.
pub fn extract_field(data: &Vec<EarningsReport>, field: MetricField) -> (r: Vec<Option<i64>>)
    ensures
        r@ == spec_extract_field(data@, field),
        all_valid(data@) ==> forall|i: int| 0 <= i < r@.len() ==> opt_in_range(#[trigger] r@[i]),
{
    let mut r: Vec<Option<i64>> = Vec::new();
    let mut i: usize = 0;
    while i < data.len()
        invariant
            0 <= i <= data@.len(),
            r@.len() == i,
            forall|j: int| 0 <= j < i ==> r@[j] == spec_field(data@[j], field),
        decreases data@.len() - i,
    {
        let p = &data[i];
        let v = match field {
            MetricField::NetInterestGrowthYoy => p.net_interest_growth_yoy,
            MetricField::NetInterestMargin => p.net_interest_margin,
            MetricField::CostOfRisk => p.cost_of_risk,
            MetricField::RevenueGrowthYoy => p.revenue_growth_yoy,
            MetricField::GrossProfitGrowthYoy => p.gross_profit_growth_yoy,
            MetricField::GrossMargin => p.gross_margin,
            MetricField::SgaGpRatio => p.sga_gp_ratio,
            MetricField::RndGpRatio => p.rnd_gp_ratio,
            MetricField::OperatingCashFlowMargin => p.operating_cash_flow_margin,
            MetricField::FfoMargin => p.ffo_margin,
        };
        r.push(v);
        i = i + 1;
    }
    proof {
        assert(r@ =~= spec_extract_field(data@, field));
    }
    r
}

/// Extracts a specific always-present column from a statement series.
pub fn extract_plain_field(data: &Vec<EarningsReport>, field: PlainField) -> (r: Vec<i64>)
    ensures
        r@ == spec_extract_plain_field(data@, field),
        all_valid(data@) ==> forall|i: int|
            0 <= i < r@.len() ==> in_range(#[trigger] r@[i] as int),
{
    let mut r: Vec<i64> = Vec::new();
    let mut i: usize = 0;
    while i < data.len()
        invariant
            0 <= i <= data@.len(),
            r@.len() == i,
            forall|j: int| 0 <= j < i ==> r@[j] == spec_plain_field(data@[j], field),
        decreases data@.len() - i,
    {
        let p = &data[i];
        let v = match field {
            PlainField::OperatingMargin => p.operating_margin,
            PlainField::SharesChangeYoy => p.shares_change_yoy,
            PlainField::RetainedEarnings => p.retained_earnings,
            PlainField::NetCash => p.net_cash,
        };
        r.push(v);
        i = i + 1;
    }
    proof {
        assert(r@ =~= spec_extract_plain_field(data@, field));
    }
    r
}

// ---------------------------------------------------------------------------
// Series lookups
// ---------------------------------------------------------------------------
/// First period of the given duration kind, scanning in series order; with
/// the series most recent first this is the latest such period.
pub open spec fn spec_first_of_kind(s: Seq<EarningsReport>, d: DurationKind) -> Option<
    EarningsReport,
>
    decreases s.len(),
{
    if s.len() == 0 {
        None
    } else if s[0].duration == d {
        Some(s[0])
    } else {
        spec_first_of_kind(s.skip(1), d)
    }
}

proof fn lemma_first_of_kind_at(s: Seq<EarningsReport>, d: DurationKind, i: int)
    requires
        0 <= i <= s.len(),
        forall|j: int| 0 <= j < i ==> (#[trigger] s[j]).duration != d,
        i == s.len() || s[i].duration == d,
    ensures
        spec_first_of_kind(s, d) == if i == s.len() {
            None
        } else {
            Some(s[i])
        },
    decreases i,
{
    if i > 0 {
        assert(s.skip(1) =~= s.subrange(1, s.len() as int));
        lemma_first_of_kind_at(s.skip(1), d, i - 1);
    }
}

/// Retrieves the latest trailing-twelve-month period from a series ordered
/// most recent first.
pub fn latest_quarter_data(periods: &Vec<EarningsReport>) -> (r: Option<EarningsReport>)
    ensures
        r == spec_first_of_kind(periods@, DurationKind::Ttm),
{
    first_of_kind(periods, DurationKind::Ttm)
}

/// Retrieves the latest annual period from a series ordered most recent
/// first.
pub fn latest_annual_data(periods: &Vec<EarningsReport>) -> (r: Option<EarningsReport>)
    ensures
        r == spec_first_of_kind(periods@, DurationKind::Annual),
{
    first_of_kind(periods, DurationKind::Annual)
}

fn first_of_kind(periods: &Vec<EarningsReport>, d: DurationKind) -> (r: Option<EarningsReport>)
    ensures
        r == spec_first_of_kind(periods@, d),
{
    let mut i: usize = 0;
    while i < periods.len()
        invariant
            0 <= i <= periods@.len(),
            forall|j: int| 0 <= j < i ==> (#[trigger] periods@[j]).duration != d,
        decreases periods@.len() - i,
    {
        if periods[i].duration == d {
            proof {
                lemma_first_of_kind_at(periods@, d, i as int);
            }
            return Some(periods[i]);
        }
        i = i + 1;
    }
    proof {
        lemma_first_of_kind_at(periods@, d, periods@.len() as int);
    }
    None
}

/// Whether `q` is the statement of the same fiscal quarter one year before
/// `p`, in the same duration series.
pub open spec fn is_prev_year_period(p: EarningsReport, q: EarningsReport) -> bool {
    q.duration == p.duration && q.year_str == p.year_str - 1 && q.quarter_str == p.quarter_str
}

/// First period in the series that reports the same fiscal quarter one year
/// before `p`.
pub open spec fn spec_prev_year_period(s: Seq<EarningsReport>, p: EarningsReport) -> Option<
    EarningsReport,
>
    decreases s.len(),
{
    if s.len() == 0 {
        None
    } else if is_prev_year_period(p, s[0]) {
        Some(s[0])
    } else {
        spec_prev_year_period(s.skip(1), p)
    }
}

proof fn lemma_prev_year_period_at(s: Seq<EarningsReport>, p: EarningsReport, i: int)
    requires
        0 <= i <= s.len(),
        forall|j: int| 0 <= j < i ==> !is_prev_year_period(p, #[trigger] s[j]),
        i == s.len() || is_prev_year_period(p, s[i]),
    ensures
        spec_prev_year_period(s, p) == if i == s.len() {
            None
        } else {
            Some(s[i])
        },
    decreases i,
{
    if i > 0 {
        assert(s.skip(1) =~= s.subrange(1, s.len() as int));
        lemma_prev_year_period_at(s.skip(1), p, i - 1);
    }
}

/// Retrieves the same-quarter statement from the previous fiscal year, if
/// the series holds one.
pub fn same_quarter_prev_year_data(periods: &Vec<EarningsReport>, p: &EarningsReport) -> (r:
    Option<EarningsReport>)
    ensures
        r == spec_prev_year_period(periods@, *p),
{
    let mut i: usize = 0;
    while i < periods.len()
        invariant
            0 <= i <= periods@.len(),
            forall|j: int| 0 <= j < i ==> !is_prev_year_period(*p, #[trigger] periods@[j]),
        decreases periods@.len() - i,
    {
        let q = &periods[i];
        if q.duration == p.duration && (q.year_str as i32) == (p.year_str as i32) - 1
            && q.quarter_str == p.quarter_str {
            proof {
                lemma_prev_year_period_at(periods@, *p, i as int);
            }
            return Some(periods[i]);
        }
        i = i + 1;
    }
    proof {
        lemma_prev_year_period_at(periods@, *p, periods@.len() as int);
    }
    None
}

/// The first `n` rows of a series — the bounded window a metric pass reads.
pub open spec fn spec_take_latest(s: Seq<EarningsReport>, n: int) -> Seq<EarningsReport> {
    if s.len() <= n {
        s
    } else {
        s.subrange(0, n)
    }
}

pub fn take_latest(periods: &Vec<EarningsReport>, n: usize) -> (r: Vec<EarningsReport>)
    ensures
        r@ == spec_take_latest(periods@, n as int),
{
    let end = if periods.len() <= n {
        periods.len()
    } else {
        n
    };
    let mut r: Vec<EarningsReport> = Vec::new();
    let mut i: usize = 0;
    while i < end
        invariant
            0 <= i <= end <= periods@.len(),
            r@.len() == i,
            forall|j: int| 0 <= j < i ==> r@[j] == periods@[j],
        decreases end - i,
    {
        r.push(periods[i]);
        i = i + 1;
    }
    proof {
        assert(r@ =~= spec_take_latest(periods@, n as int));
    }
    r
}

// ---------------------------------------------------------------------------
// Ratio backfill
// ---------------------------------------------------------------------------
/// One period after the ratio pass: the four derived ratios computed
/// missing-safe from its raw line items, and the flag set — exactly once,
/// regardless of whether any ratio came out missing.
pub open spec fn spec_update_ratios(p: EarningsReport) -> EarningsReport {
    EarningsReport {
        sga_gp_ratio: spec_calculate_ratio_option(p.sga_expenses, p.gross_profit),
        rnd_gp_ratio: spec_calculate_ratio_option(p.rnd_expenses, p.gross_profit),
        interest_expenses_op_income_ratio: spec_calculate_ratio(
            p.interest_expenses,
            p.operating_income as int,
        ),
        operating_cash_flow_margin: spec_calculate_ratio_as_pct(
            p.operating_cash_flow,
            p.revenue as int,
        ),
        ratios_calculated: true,
        ..p
    }
}

/// Computes the missing ratios and margins for one statement period.
pub fn update_ratios(p: &EarningsReport) -> (r: EarningsReport)
    requires
        p.valid(),
    ensures
        r == spec_update_ratios(*p),
        r.valid(),
{
    let mut r = *p;
    r.sga_gp_ratio = calculate_ratio_option(p.sga_expenses, p.gross_profit);
    r.rnd_gp_ratio = calculate_ratio_option(p.rnd_expenses, p.gross_profit);
    r.interest_expenses_op_income_ratio = calculate_ratio(p.interest_expenses, p.operating_income);
    r.operating_cash_flow_margin = calculate_ratio_as_pct(p.operating_cash_flow, p.revenue);
    r.ratios_calculated = true;
    r
}

/// One step of the ratio backfill pass: flagged periods pass through
/// untouched.
pub open spec fn spec_ratio_step(p: EarningsReport) -> EarningsReport {
    if p.ratios_calculated {
        p
    } else {
        spec_update_ratios(p)
    }
}

/// The whole series after a ratio backfill pass.
pub open spec fn spec_ratio_backfill(s: Seq<EarningsReport>) -> Seq<EarningsReport> {
    Seq::new(s.len(), |i: int| spec_ratio_step(s[i]))
}

/// Fills the missing ratios of every period not yet flagged, and flags it.
pub fn update_ratios_batch(periods: &Vec<EarningsReport>) -> (r: Vec<EarningsReport>)
    requires
        all_valid(periods@),
    ensures
        r@ == spec_ratio_backfill(periods@),
        all_valid(r@),
{
    let mut r: Vec<EarningsReport> = Vec::new();
    let mut i: usize = 0;
    while i < periods.len()
        invariant
            0 <= i <= periods@.len(),
            all_valid(periods@),
            r@.len() == i,
            forall|j: int| 0 <= j < i ==> r@[j] == spec_ratio_step(periods@[j]),
            forall|j: int| 0 <= j < i ==> (#[trigger] r@[j]).valid(),
        decreases periods@.len() - i,
    {
        if periods[i].ratios_calculated {
            r.push(periods[i]);
        } else {
            r.push(update_ratios(&periods[i]));
        }
        i = i + 1;
    }
    proof {
        assert(r@ =~= spec_ratio_backfill(periods@));
    }
    r
}

/// Once a period's ratio flag is set, later ratio passes leave the period —
/// its derived ratio fields included — exactly as it is.
pub proof fn lemma_ratio_backfill_idempotent(s: Seq<EarningsReport>)
    ensures
        forall|i: int|
            0 <= i < s.len() && (#[trigger] s[i]).ratios_calculated ==> spec_ratio_backfill(s)[i]
                == s[i],
        spec_ratio_backfill(spec_ratio_backfill(s)) =~= spec_ratio_backfill(s),
{
    assert forall|i: int| 0 <= i < s.len() implies spec_ratio_backfill(spec_ratio_backfill(s))[i]
        == spec_ratio_backfill(s)[i] by {
        assert(spec_ratio_step(s[i]).ratios_calculated);
    }
}

// ---------------------------------------------------------------------------
// Growth backfill
// ---------------------------------------------------------------------------
/// One period after the growth pass, given its previous-year counterpart:
/// if either period's gross profit is missing or exactly zero — or the
/// growth would overflow the carrying range — the computation is skipped,
/// but the flag is still set.
pub open spec fn spec_update_growth(p: EarningsReport, prev: Option<EarningsReport>) -> EarningsReport {
    let prev_gp: Option<i64> = match prev {
        Some(q) => q.gross_profit,
        None => None,
    };
    let growth: Option<i64> = match (p.gross_profit, prev_gp) {
        (Some(c), Some(pv)) => if c != 0 && pv != 0 && in_range(
            spec_yoy_growth(c as int, pv as int),
        ) {
            Some(spec_yoy_growth(c as int, pv as int) as i64)
        } else {
            None
        },
        _ => None,
    };
    match growth {
        Some(g) => EarningsReport {
            gross_profit_growth_yoy: Some(g),
            growth_calculated: true,
            ..p
        },
        None => EarningsReport { growth_calculated: true, ..p },
    }
}

/// Computes the year-over-year gross-profit growth for one period from its
/// previous-year counterpart.
pub fn update_yoy_growth(p: &EarningsReport, prev_year: Option<EarningsReport>) -> (r:
    EarningsReport)
    requires
        p.valid(),
        match prev_year {
            Some(q) => q.valid(),
            None => true,
        },
    ensures
        r == spec_update_growth(*p, prev_year),
        r.valid(),
{
    let mut r = *p;
    r.growth_calculated = true;
    let prev_gp: Option<i64> = match prev_year {
        Some(q) => q.gross_profit,
        None => None,
    };
    match (p.gross_profit, prev_gp) {
        (Some(c), Some(pv)) => {
            if c != 0 && pv != 0 {
                let mut num: i128 = (c as i128) * 10000;
                let mut den: i128 = pv as i128;
                if den < 0 {
                    num = -num;
                    den = -den;
                }
                let g = round_div_i128(num, den) - 10000;
                if -(VALUE_LIMIT as i128) <= g && g <= VALUE_LIMIT as i128 {
                    r.gross_profit_growth_yoy = Some(g as i64);
                }
            }
        },
        _ => {},
    }
    r
}

/// One step of the growth backfill pass: flagged periods pass through
/// untouched; others are paired with their previous-year counterpart from
/// the series.
pub open spec fn spec_growth_step(s: Seq<EarningsReport>, p: EarningsReport) -> EarningsReport {
    if p.growth_calculated {
        p
    } else {
        spec_update_growth(p, spec_prev_year_period(s, p))
    }
}

/// The whole series after a growth backfill pass; counterparts are looked
/// up in the incoming series, whose gross profits the pass never touches.
pub open spec fn spec_growth_backfill(s: Seq<EarningsReport>) -> Seq<EarningsReport> {
    Seq::new(s.len(), |i: int| spec_growth_step(s, s[i]))
}

/// Fills the missing gross-profit growth of every period not yet flagged,
/// and flags it.
pub fn update_growths_batch(periods: &Vec<EarningsReport>) -> (r: Vec<EarningsReport>)
    requires
        all_valid(periods@),
    ensures
        r@ == spec_growth_backfill(periods@),
        all_valid(r@),
{
    let mut r: Vec<EarningsReport> = Vec::new();
    let mut i: usize = 0;
    while i < periods.len()
        invariant
            0 <= i <= periods@.len(),
            all_valid(periods@),
            r@.len() == i,
            forall|j: int| 0 <= j < i ==> r@[j] == spec_growth_step(periods@, periods@[j]),
            forall|j: int| 0 <= j < i ==> (#[trigger] r@[j]).valid(),
        decreases periods@.len() - i,
    {
        if periods[i].growth_calculated {
            r.push(periods[i]);
        } else {
            let prev = same_quarter_prev_year_data(periods, &periods[i]);
            proof {
                if prev is Some {
                    lemma_prev_year_valid(periods@, periods@[i as int]);
                }
            }
            r.push(update_yoy_growth(&periods[i], prev));
        }
        i = i + 1;
    }
    proof {
        assert(r@ =~= spec_growth_backfill(periods@));
    }
    r
}

/// A previous-year counterpart found in a well-formed series is itself well
/// formed.
proof fn lemma_prev_year_valid(s: Seq<EarningsReport>, p: EarningsReport)
    requires
        all_valid(s),
        spec_prev_year_period(s, p) is Some,
    ensures
        spec_prev_year_period(s, p).unwrap().valid(),
    decreases s.len(),
{
    if s.len() > 0 && !is_prev_year_period(p, s[0]) {
        assert(all_valid(s.skip(1))) by {
            assert(forall|i: int|
                0 <= i < s.skip(1).len() ==> #[trigger] s.skip(1)[i] == s[i + 1]);
        }
        lemma_prev_year_valid(s.skip(1), p);
    }
}

// ---------------------------------------------------------------------------
// Metric-record steps
// ---------------------------------------------------------------------------
/// The metrics record after the trailing-twelve-month snapshot copy: every
/// snapshot field overwritten from the latest quarterly statement, all other
/// fields kept.
pub open spec fn spec_copy_latest_data(m: CurrentMetrics, latest: EarningsReport) -> CurrentMetrics {
    CurrentMetrics {
        net_interest_income_growth_yoy_ttm: latest.net_interest_growth_yoy,
        net_interest_margin_ttm: latest.net_interest_margin,
        cost_of_risk_ttm: latest.cost_of_risk,
        revenue_ttm: Some(latest.revenue),
        revenue_growth_yoy_ttm: latest.revenue_growth_yoy,
        gross_profit_growth_yoy_ttm: latest.gross_profit_growth_yoy,
        gross_margin_ttm: latest.gross_margin,
        sga_ratio_ttm: latest.sga_gp_ratio,
        rnd_ratio_ttm: latest.rnd_gp_ratio,
        operating_margin_ttm: Some(latest.operating_margin),
        interest_expense_ratio_ttm: latest.interest_expenses_op_income_ratio,
        net_margin_ttm: Some(latest.net_margin),
        shares_outstanding_diluted_ttm: Some(latest.shares_outstanding_diluted),
        shares_change_ttm: Some(latest.shares_change_yoy),
        retained_earnings_ttm: Some(latest.retained_earnings),
        net_cash_ttm: Some(latest.net_cash),
        operating_cash_flow_ttm: latest.operating_cash_flow,
        operating_cash_flow_margin_ttm: latest.operating_cash_flow_margin,
        free_cash_flow_ttm: latest.free_cash_flow,
        free_cash_flow_margin_ttm: latest.free_cash_flow_margin,
        ffo_margin_ttm: latest.ffo_margin,
        ..m
    }
}

/// Copies the latest quarterly statement's values into the metrics record's
/// snapshot fields.
pub fn copy_latest_data(metrics: &CurrentMetrics, latest_ttm: &EarningsReport) -> (r:
    CurrentMetrics)
    requires
        metrics.valid(),
        latest_ttm.valid(),
    ensures
        r == spec_copy_latest_data(*metrics, *latest_ttm),
        r.valid(),
{
    let mut r = *metrics;
    r.net_interest_income_growth_yoy_ttm = latest_ttm.net_interest_growth_yoy;
    r.net_interest_margin_ttm = latest_ttm.net_interest_margin;
    r.cost_of_risk_ttm = latest_ttm.cost_of_risk;
    r.revenue_ttm = Some(latest_ttm.revenue);
    r.revenue_growth_yoy_ttm = latest_ttm.revenue_growth_yoy;
    r.gross_profit_growth_yoy_ttm = latest_ttm.gross_profit_growth_yoy;
    r.gross_margin_ttm = latest_ttm.gross_margin;
    r.sga_ratio_ttm = latest_ttm.sga_gp_ratio;
    r.rnd_ratio_ttm = latest_ttm.rnd_gp_ratio;
    r.operating_margin_ttm = Some(latest_ttm.operating_margin);
    r.interest_expense_ratio_ttm = latest_ttm.interest_expenses_op_income_ratio;
    r.net_margin_ttm = Some(latest_ttm.net_margin);
    r.shares_outstanding_diluted_ttm = Some(latest_ttm.shares_outstanding_diluted);
    r.shares_change_ttm = Some(latest_ttm.shares_change_yoy);
    r.retained_earnings_ttm = Some(latest_ttm.retained_earnings);
    r.net_cash_ttm = Some(latest_ttm.net_cash);
    r.operating_cash_flow_ttm = latest_ttm.operating_cash_flow;
    r.operating_cash_flow_margin_ttm = latest_ttm.operating_cash_flow_margin;
    r.free_cash_flow_ttm = latest_ttm.free_cash_flow;
    r.free_cash_flow_margin_ttm = latest_ttm.free_cash_flow_margin;
    r.ffo_margin_ttm = latest_ttm.ffo_margin;
    r
}

/// The metrics record after the multi-year pass: each growth column of the
/// annual window averaged over the periods that report it; the dilution
/// average is missing only when the window is empty.
pub open spec fn spec_update_multi_yr_growth(
    m: CurrentMetrics,
    annual: Seq<EarningsReport>,
) -> CurrentMetrics {
    CurrentMetrics {
        net_interest_income_growth_multi_year: spec_average_options(
            spec_extract_field(annual, MetricField::NetInterestGrowthYoy),
            true,
        ),
        revenue_growth_multi_year: spec_average_options(
            spec_extract_field(annual, MetricField::RevenueGrowthYoy),
            true,
        ),
        gross_profit_growth_multi_year: spec_average_options(
            spec_extract_field(annual, MetricField::GrossProfitGrowthYoy),
            true,
        ),
        shares_change_multi_year: if annual.len() == 0 {
            None
        } else {
            Some(spec_average(spec_extract_plain_field(annual, PlainField::SharesChangeYoy)))
        },
        ..m
    }
}

/// Refreshes the multi-year growth averages from the annual window.
pub fn update_multi_yr_growth(metrics: &CurrentMetrics, annual: &Vec<EarningsReport>) -> (r:
    CurrentMetrics)
    requires
        metrics.valid(),
        all_valid(annual@),
    ensures
        r == spec_update_multi_yr_growth(*metrics, annual@),
        r.valid(),
{
    let nii_growth = extract_field(annual, MetricField::NetInterestGrowthYoy);
    let nii_ave = average_options(&nii_growth, true);
    let rev_growth = extract_field(annual, MetricField::RevenueGrowthYoy);
    let rev_ave = average_options(&rev_growth, true);
    let gp_growth = extract_field(annual, MetricField::GrossProfitGrowthYoy);
    let gp_ave = average_options(&gp_growth, true);
    let shares_change = extract_plain_field(annual, PlainField::SharesChangeYoy);
    let shares_ave = if shares_change.len() == 0 {
        None
    } else {
        Some(calculate_average_growth(shares_change))
    };
    let mut r = *metrics;
    r.net_interest_income_growth_multi_year = nii_ave;
    r.revenue_growth_multi_year = rev_ave;
    r.gross_profit_growth_multi_year = gp_ave;
    r.shares_change_multi_year = shares_ave;
    r
}

/// The metrics record after the short-term pass: one aggregate label per
/// watched metric, over the quarterly window.
pub open spec fn spec_update_short_term_trends(
    m: CurrentMetrics,
    ttm: Seq<EarningsReport>,
    cfg: Config,
) -> CurrentMetrics {
    let len = cfg.short_term_length as int;
    let k = cfg.trend_count_threshold as int;
    CurrentMetrics {
        net_interest_margin_short_term_trend: Some(
            spec_get_short_term_trend_option(
                spec_extract_field(ttm, MetricField::NetInterestMargin),
                len,
                true,
                cfg.margin_flat_threshold as int,
                k,
            ),
        ),
        cost_of_risk_short_term_trend: Some(
            spec_get_short_term_trend_option(
                spec_extract_field(ttm, MetricField::CostOfRisk),
                len,
                true,
                cfg.margin_flat_threshold as int,
                k,
            ),
        ),
        gross_margin_short_term_trend: Some(
            spec_get_short_term_trend_option(
                spec_extract_field(ttm, MetricField::GrossMargin),
                len,
                true,
                cfg.margin_flat_threshold as int,
                k,
            ),
        ),
        sga_short_term_trend: Some(
            spec_get_short_term_trend_option(
                spec_extract_field(ttm, MetricField::SgaGpRatio),
                len,
                true,
                cfg.ratio_flat_threshold as int,
                k,
            ),
        ),
        rnd_short_term_trend: Some(
            spec_get_short_term_trend_option(
                spec_extract_field(ttm, MetricField::RndGpRatio),
                len,
                true,
                cfg.ratio_flat_threshold as int,
                k,
            ),
        ),
        operating_margin_short_term_trend: Some(
            spec_get_short_term_trend(
                spec_extract_plain_field(ttm, PlainField::OperatingMargin),
                len,
                cfg.margin_flat_threshold as int,
                k,
            ),
        ),
        ..m
    }
}

/// Refreshes every short-term trend label from the quarterly window.
pub fn update_short_term_trends(
    metrics: &CurrentMetrics,
    ttm: &Vec<EarningsReport>,
    cfg: &Config,
) -> (r: CurrentMetrics)
    requires
        metrics.valid(),
        all_valid(ttm@),
        cfg.valid(),
    ensures
        r == spec_update_short_term_trends(*metrics, ttm@, *cfg),
        r.valid(),
{
    let len = cfg.short_term_length;
    let k = cfg.trend_count_threshold;
    let nim = extract_field(ttm, MetricField::NetInterestMargin);
    let nim_trend = get_short_term_trend_option(&nim, len, true, cfg.margin_flat_threshold, k);
    let cor = extract_field(ttm, MetricField::CostOfRisk);
    let cor_trend = get_short_term_trend_option(&cor, len, true, cfg.margin_flat_threshold, k);
    let gm = extract_field(ttm, MetricField::GrossMargin);
    let gm_trend = get_short_term_trend_option(&gm, len, true, cfg.margin_flat_threshold, k);
    let sga = extract_field(ttm, MetricField::SgaGpRatio);
    let sga_trend = get_short_term_trend_option(&sga, len, true, cfg.ratio_flat_threshold, k);
    let rnd = extract_field(ttm, MetricField::RndGpRatio);
    let rnd_trend = get_short_term_trend_option(&rnd, len, true, cfg.ratio_flat_threshold, k);
    let om = extract_plain_field(ttm, PlainField::OperatingMargin);
    let om_trend = get_short_term_trend(&om, len, cfg.margin_flat_threshold, k);
    let mut r = *metrics;
    r.net_interest_margin_short_term_trend = Some(nim_trend);
    r.cost_of_risk_short_term_trend = Some(cor_trend);
    r.gross_margin_short_term_trend = Some(gm_trend);
    r.sga_short_term_trend = Some(sga_trend);
    r.rnd_short_term_trend = Some(rnd_trend);
    r.operating_margin_short_term_trend = Some(om_trend);
    r
}

/// The metrics record after the long-term pass: one split-half label per
/// watched metric, over the annual window.
pub open spec fn spec_update_long_term_trends(
    m: CurrentMetrics,
    annual: Seq<EarningsReport>,
    cfg: Config,
) -> CurrentMetrics {
    CurrentMetrics {
        net_interest_margin_long_term_trend: Some(
            spec_long_term_trend_option(
                spec_extract_field(annual, MetricField::NetInterestMargin),
                false,
                cfg.long_margin_flat_threshold as int,
            ),
        ),
        cost_of_risk_long_term_trend: Some(
            spec_long_term_trend_option(
                spec_extract_field(annual, MetricField::CostOfRisk),
                false,
                cfg.long_margin_flat_threshold as int,
            ),
        ),
        gross_margin_long_term_trend: Some(
            spec_long_term_trend_option(
                spec_extract_field(annual, MetricField::GrossMargin),
                false,
                cfg.long_margin_flat_threshold as int,
            ),
        ),
        sga_long_term_trend: Some(
            spec_long_term_trend_option(
                spec_extract_field(annual, MetricField::SgaGpRatio),
                false,
                cfg.long_ratio_flat_threshold as int,
            ),
        ),
        rnd_long_term_trend: Some(
            spec_long_term_trend_option(
                spec_extract_field(annual, MetricField::RndGpRatio),
                false,
                cfg.long_ratio_flat_threshold as int,
            ),
        ),
        operating_margin_long_term_trend: Some(
            spec_long_term_trend(
                spec_extract_plain_field(annual, PlainField::OperatingMargin),
                cfg.long_margin_flat_threshold as int,
            ),
        ),
        shares_change_trend: Some(
            spec_long_term_trend(
                spec_extract_plain_field(annual, PlainField::SharesChangeYoy),
                cfg.dilution_flat_threshold as int,
            ),
        ),
        retained_earnings_trend: Some(
            spec_long_term_trend(
                spec_extract_plain_field(annual, PlainField::RetainedEarnings),
                cfg.dollar_flat_threshold as int,
            ),
        ),
        net_cash_trend: Some(
            spec_long_term_trend(
                spec_extract_plain_field(annual, PlainField::NetCash),
                cfg.dollar_flat_threshold as int,
            ),
        ),
        operating_cash_flow_margin_trend: Some(
            spec_long_term_trend_option(
                spec_extract_field(annual, MetricField::OperatingCashFlowMargin),
                false,
                cfg.long_margin_flat_threshold as int,
            ),
        ),
        ffo_margin_trend: Some(
            spec_long_term_trend_option(
                spec_extract_field(annual, MetricField::FfoMargin),
                false,
                cfg.long_margin_flat_threshold as int,
            ),
        ),
        ..m
    }
}

/// Refreshes every long-term trend label from the annual window.
pub fn update_long_term_trends(
    metrics: &CurrentMetrics,
    annual: &Vec<EarningsReport>,
    cfg: &Config,
) -> (r: CurrentMetrics)
    requires
        metrics.valid(),
        all_valid(annual@),
        cfg.valid(),
    ensures
        r == spec_update_long_term_trends(*metrics, annual@, *cfg),
        r.valid(),
{
    let nim = extract_field(annual, MetricField::NetInterestMargin);
    let nim_trend = get_long_term_trend_option(&nim, false, cfg.long_margin_flat_threshold);
    let cor = extract_field(annual, MetricField::CostOfRisk);
    let cor_trend = get_long_term_trend_option(&cor, false, cfg.long_margin_flat_threshold);
    let gm = extract_field(annual, MetricField::GrossMargin);
    let gm_trend = get_long_term_trend_option(&gm, false, cfg.long_margin_flat_threshold);
    let sga = extract_field(annual, MetricField::SgaGpRatio);
    let sga_trend = get_long_term_trend_option(&sga, false, cfg.long_ratio_flat_threshold);
    let rnd = extract_field(annual, MetricField::RndGpRatio);
    let rnd_trend = get_long_term_trend_option(&rnd, false, cfg.long_ratio_flat_threshold);
    let om = extract_plain_field(annual, PlainField::OperatingMargin);
    let om_trend = get_long_term_trend(&om, cfg.long_margin_flat_threshold);
    let dilution = extract_plain_field(annual, PlainField::SharesChangeYoy);
    let dilution_trend = get_long_term_trend(&dilution, cfg.dilution_flat_threshold);
    let retained = extract_plain_field(annual, PlainField::RetainedEarnings);
    let retained_trend = get_long_term_trend(&retained, cfg.dollar_flat_threshold);
    let net_cash = extract_plain_field(annual, PlainField::NetCash);
    let net_cash_trend = get_long_term_trend(&net_cash, cfg.dollar_flat_threshold);
    let ocfm = extract_field(annual, MetricField::OperatingCashFlowMargin);
    let ocfm_trend = get_long_term_trend_option(&ocfm, false, cfg.long_margin_flat_threshold);
    let ffom = extract_field(annual, MetricField::FfoMargin);
    let ffom_trend = get_long_term_trend_option(&ffom, false, cfg.long_margin_flat_threshold);
    let mut r = *metrics;
    r.net_interest_margin_long_term_trend = Some(nim_trend);
    r.cost_of_risk_long_term_trend = Some(cor_trend);
    r.gross_margin_long_term_trend = Some(gm_trend);
    r.sga_long_term_trend = Some(sga_trend);
    r.rnd_long_term_trend = Some(rnd_trend);
    r.operating_margin_long_term_trend = Some(om_trend);
    r.shares_change_trend = Some(dilution_trend);
    r.retained_earnings_trend = Some(retained_trend);
    r.net_cash_trend = Some(net_cash_trend);
    r.operating_cash_flow_margin_trend = Some(ocfm_trend);
    r.ffo_margin_trend = Some(ffom_trend);
    r
}

/// The records after the price-target step.  The theoretical net income
/// follows the optimization decision: the company's own net margin when it
/// is already optimized, the industry-derived theoretical margin otherwise.
/// Each of the four price targets is independently missing when its growth
/// input is missing.
pub open spec fn spec_update_price_target(
    latest: EarningsReport,
    industry: Seq<char>,
    m: CurrentMetrics,
    f: Forecasts,
) -> (CurrentMetrics, Forecasts) {
    let factor = spec_net_margin_factor(industry);
    let th = spec_is_net_margin_optimized(latest, factor).0;
    let optimized = spec_is_net_margin_optimized(latest, factor).1;
    let income = if optimized {
        spec_calculate_margin_portion(m.revenue_ttm, m.net_margin_ttm)
    } else {
        spec_calculate_margin_portion(m.revenue_ttm, Some(th as i64))
    };
    let eps = spec_calculate_per_share(income, m.shares_outstanding_diluted_ttm);
    (
        CurrentMetrics {
            theoretical_net_margin: Some(th as i64),
            is_net_margin_optimized: Some(optimized),
            ..m
        },
        Forecasts {
            price_current_revenue_growth: spec_calculate_price_target_option(
                eps,
                m.revenue_growth_yoy_ttm,
                m.shares_change_ttm,
            ),
            price_current_gp_growth: spec_calculate_price_target_option(
                eps,
                m.gross_profit_growth_yoy_ttm,
                m.shares_change_ttm,
            ),
            price_multi_year_revenue_growth: spec_calculate_price_target_option(
                eps,
                m.revenue_growth_multi_year,
                m.shares_change_ttm,
            ),
            price_multi_year_gp_growth: spec_calculate_price_target_option(
                eps,
                m.gross_profit_growth_multi_year,
                m.shares_change_ttm,
            ),
            ..f
        },
    )
}

/// Refreshes the theoretical-margin decision and the four price targets.
pub fn update_price_target(
    latest_earnings: &EarningsReport,
    industry: &str,
    metrics: &CurrentMetrics,
    forecasts: &Forecasts,
) -> (r: (CurrentMetrics, Forecasts))
    requires
        latest_earnings.valid(),
        metrics.valid(),
        forecasts.valid(),
    ensures
        r == spec_update_price_target(*latest_earnings, industry@, *metrics, *forecasts),
        r.0.valid(),
        r.1.valid(),
{
    let net_margin_factor = get_net_margin_factor(industry);
    let (curr_theoretical_net_margin, optimized) = is_net_margin_optimized(
        latest_earnings,
        net_margin_factor,
    );
    let curr_theoretical_net_income = if optimized {
        calculate_margin_portion(metrics.revenue_ttm, metrics.net_margin_ttm)
    } else {
        calculate_margin_portion(metrics.revenue_ttm, Some(curr_theoretical_net_margin))
    };
    let curr_theoretical_eps = calculate_per_share(
        curr_theoretical_net_income,
        metrics.shares_outstanding_diluted_ttm,
    );
    let price_rev = calculate_price_target_option(
        curr_theoretical_eps,
        metrics.revenue_growth_yoy_ttm,
        metrics.shares_change_ttm,
    );
    let price_gp = calculate_price_target_option(
        curr_theoretical_eps,
        metrics.gross_profit_growth_yoy_ttm,
        metrics.shares_change_ttm,
    );
    let price_multi_rev = calculate_price_target_option(
        curr_theoretical_eps,
        metrics.revenue_growth_multi_year,
        metrics.shares_change_ttm,
    );
    let price_multi_gp = calculate_price_target_option(
        curr_theoretical_eps,
        metrics.gross_profit_growth_multi_year,
        metrics.shares_change_ttm,
    );
    let mut m = *metrics;
    m.theoretical_net_margin = Some(curr_theoretical_net_margin);
    m.is_net_margin_optimized = Some(optimized);
    let mut f = *forecasts;
    f.price_current_revenue_growth = price_rev;
    f.price_current_gp_growth = price_gp;
    f.price_multi_year_revenue_growth = price_multi_rev;
    f.price_multi_year_gp_growth = price_multi_gp;
    (m, f)
}

/// The forecast record after the guidance step: next year's revenue growth
/// from the guidance against the latest annual revenue, and a forward price
/// target that reuses the optimization decision already decided this run.
pub open spec fn spec_update_guidance(
    latest_annual: EarningsReport,
    m: CurrentMetrics,
    f: Forecasts,
) -> Forecasts {
    let growth = spec_yoy_growth_option(f.revenue_next_year, Some(latest_annual.revenue));
    let income = match m.is_net_margin_optimized {
        Some(true) => spec_calculate_margin_portion(f.revenue_next_year, m.net_margin_ttm),
        Some(false) => spec_calculate_margin_portion(
            f.revenue_next_year,
            m.theoretical_net_margin,
        ),
        None => None,
    };
    let eps = spec_calculate_per_share(income, m.shares_outstanding_diluted_ttm);
    Forecasts {
        revenue_growth_next_year: growth,
        price_next_year_revenue_growth: spec_calculate_price_target_option(
            eps,
            growth,
            m.shares_change_ttm,
        ),
        ..f
    }
}

/// Refreshes the guidance-based forward growth and price target.
pub fn update_guidance(
    latest_annual: &EarningsReport,
    metrics: &CurrentMetrics,
    forecasts: &Forecasts,
) -> (r: Forecasts)
    requires
        latest_annual.valid(),
        metrics.valid(),
        forecasts.valid(),
    ensures
        r == spec_update_guidance(*latest_annual, *metrics, *forecasts),
        r.valid(),
{
    let next_yr_rev_growth = calculate_yoy_growth_option(
        forecasts.revenue_next_year,
        Some(latest_annual.revenue),
    );
    let next_theoretical_net_income = match metrics.is_net_margin_optimized {
        Some(true) => calculate_margin_portion(forecasts.revenue_next_year, metrics.net_margin_ttm),
        Some(false) => calculate_margin_portion(
            forecasts.revenue_next_year,
            metrics.theoretical_net_margin,
        ),
        None => None,
    };
    let next_theoretical_eps = calculate_per_share(
        next_theoretical_net_income,
        metrics.shares_outstanding_diluted_ttm,
    );
    let next_yr_theoretical_price = calculate_price_target_option(
        next_theoretical_eps,
        next_yr_rev_growth,
        metrics.shares_change_ttm,
    );
    let mut f = *forecasts;
    f.revenue_growth_next_year = next_yr_rev_growth;
    f.price_next_year_revenue_growth = next_yr_theoretical_price;
    f
}

// ---------------------------------------------------------------------------
// The composed pipeline
// ---------------------------------------------------------------------------
/// The quarterly pipeline: snapshot copy, short-term trends, price targets,
/// guidance — multi-year averages and long-term trends keep their last
/// annual refresh.
pub open spec fn spec_update_metrics_ttm(
    ttm: Seq<EarningsReport>,
    annual: Seq<EarningsReport>,
    industry: Seq<char>,
    m: CurrentMetrics,
    f: Forecasts,
    cfg: Config,
) -> (CurrentMetrics, Forecasts)
    recommends
        ttm.len() > 0,
        annual.len() > 0,
{
    let m1 = spec_copy_latest_data(m, ttm[0]);
    let m2 = spec_update_short_term_trends(
        m1,
        spec_take_latest(ttm, cfg.short_term_window as int),
        cfg,
    );
    let mf = spec_update_price_target(ttm[0], industry, m2, f);
    let f2 = spec_update_guidance(annual[0], mf.0, mf.1);
    (mf.0, f2)
}

/// Updates all metrics after a quarterly earnings refresh.
pub fn update_metrics_ttm(
    ttm: &Vec<EarningsReport>,
    annual: &Vec<EarningsReport>,
    industry: &str,
    metrics: &CurrentMetrics,
    forecasts: &Forecasts,
    cfg: &Config,
) -> (r: Result<(CurrentMetrics, Forecasts), EngineError>)
    requires
        all_valid(ttm@),
        all_valid(annual@),
        metrics.valid(),
        forecasts.valid(),
        cfg.valid(),
    ensures
        r == Err::<(CurrentMetrics, Forecasts), EngineError>(EngineError::MissingQuarterlyData)
            <==> ttm@.len() == 0,
        r == Err::<(CurrentMetrics, Forecasts), EngineError>(EngineError::MissingAnnualData) <==> (
        ttm@.len() > 0 && annual@.len() == 0),
        ttm@.len() > 0 && annual@.len() > 0 ==> r == Ok::<(CurrentMetrics, Forecasts), EngineError>(
            spec_update_metrics_ttm(ttm@, annual@, industry@, *metrics, *forecasts, *cfg),
        ),
        r matches Ok(p) ==> p.0.valid() && p.1.valid(),
{
    if ttm.len() == 0 {
        return Err(EngineError::MissingQuarterlyData);
    }
    if annual.len() == 0 {
        return Err(EngineError::MissingAnnualData);
    }
    let window = take_latest(ttm, cfg.short_term_window);
    proof {
        assert(all_valid(window@));
    }
    let m1 = copy_latest_data(metrics, &ttm[0]);
    let m2 = update_short_term_trends(&m1, &window, cfg);
    let (m3, f1) = update_price_target(&ttm[0], industry, &m2, forecasts);
    let f2 = update_guidance(&annual[0], &m3, &f1);
    Ok((m3, f2))
}

/// The annual pipeline: snapshot copy, short-term trends, multi-year
/// averages, long-term trends, price targets, guidance — in that order, so
/// that the price targets read averages refreshed in the same run.
pub open spec fn spec_update_metrics_annual(
    ttm: Seq<EarningsReport>,
    annual: Seq<EarningsReport>,
    industry: Seq<char>,
    m: CurrentMetrics,
    f: Forecasts,
    cfg: Config,
) -> (CurrentMetrics, Forecasts)
    recommends
        ttm.len() > 0,
        annual.len() > 0,
{
    let m1 = spec_copy_latest_data(m, ttm[0]);
    let m2 = spec_update_short_term_trends(
        m1,
        spec_take_latest(ttm, cfg.short_term_window as int),
        cfg,
    );
    let m3 = spec_update_multi_yr_growth(
        m2,
        spec_take_latest(annual, cfg.multi_year_window as int),
    );
    let m4 = spec_update_long_term_trends(
        m3,
        spec_take_latest(annual, cfg.long_term_window as int),
        cfg,
    );
    let mf = spec_update_price_target(ttm[0], industry, m4, f);
    let f2 = spec_update_guidance(annual[0], mf.0, mf.1);
    (mf.0, f2)
}

/// Updates all metrics after an annual (fourth-quarter) earnings refresh.
pub fn update_metrics_annual(
    ttm: &Vec<EarningsReport>,
    annual: &Vec<EarningsReport>,
    industry: &str,
    metrics: &CurrentMetrics,
    forecasts: &Forecasts,
    cfg: &Config,
) -> (r: Result<(CurrentMetrics, Forecasts), EngineError>)
    requires
        all_valid(ttm@),
        all_valid(annual@),
        metrics.valid(),
        forecasts.valid(),
        cfg.valid(),
    ensures
        r == Err::<(CurrentMetrics, Forecasts), EngineError>(EngineError::MissingQuarterlyData)
            <==> ttm@.len() == 0,
        r == Err::<(CurrentMetrics, Forecasts), EngineError>(EngineError::MissingAnnualData) <==> (
        ttm@.len() > 0 && annual@.len() == 0),
        ttm@.len() > 0 && annual@.len() > 0 ==> r == Ok::<(CurrentMetrics, Forecasts), EngineError>(
            spec_update_metrics_annual(ttm@, annual@, industry@, *metrics, *forecasts, *cfg),
        ),
        r matches Ok(p) ==> p.0.valid() && p.1.valid(),
{
    if ttm.len() == 0 {
        return Err(EngineError::MissingQuarterlyData);
    }
    if annual.len() == 0 {
        return Err(EngineError::MissingAnnualData);
    }
    let short_window = take_latest(ttm, cfg.short_term_window);
    let multi_window = take_latest(annual, cfg.multi_year_window);
    let long_window = take_latest(annual, cfg.long_term_window);
    proof {
        assert(all_valid(short_window@));
        assert(all_valid(multi_window@));
        assert(all_valid(long_window@));
    }
    let m1 = copy_latest_data(metrics, &ttm[0]);
    let m2 = update_short_term_trends(&m1, &short_window, cfg);
    let m3 = update_multi_yr_growth(&m2, &multi_window);
    let m4 = update_long_term_trends(&m3, &long_window, cfg);
    let (m5, f1) = update_price_target(&ttm[0], industry, &m4, forecasts);
    let f2 = update_guidance(&annual[0], &m5, &f1);
    Ok((m5, f2))
}

/// One full recomputation: growth backfill, ratio backfill, then the annual
/// metric pipeline over the backfilled series.
pub open spec fn spec_run_recomputation(
    ttm: Seq<EarningsReport>,
    annual: Seq<EarningsReport>,
    industry: Seq<char>,
    m: CurrentMetrics,
    f: Forecasts,
    cfg: Config,
) -> (Seq<EarningsReport>, Seq<EarningsReport>, CurrentMetrics, Forecasts)
    recommends
        ttm.len() > 0,
        annual.len() > 0,
{
    let t2 = spec_ratio_backfill(spec_growth_backfill(ttm));
    let a2 = spec_ratio_backfill(spec_growth_backfill(annual));
    let mf = spec_update_metrics_annual(t2, a2, industry, m, f, cfg);
    (t2, a2, mf.0, mf.1)
}

/// Runs the whole recomputation sequence for one company and returns the
/// backfilled series together with the rewritten records.
pub fn run_recomputation(
    ttm: &Vec<EarningsReport>,
    annual: &Vec<EarningsReport>,
    industry: &str,
    metrics: &CurrentMetrics,
    forecasts: &Forecasts,
    cfg: &Config,
) -> (r: Result<(Vec<EarningsReport>, Vec<EarningsReport>, CurrentMetrics, Forecasts), EngineError>)
    requires
        all_valid(ttm@),
        all_valid(annual@),
        metrics.valid(),
        forecasts.valid(),
        cfg.valid(),
    ensures
        r is Err <==> (ttm@.len() == 0 || annual@.len() == 0),
        r matches Ok(out) ==> {
            let spec_out = spec_run_recomputation(
                ttm@,
                annual@,
                industry@,
                *metrics,
                *forecasts,
                *cfg,
            );
            &&& out.0@ == spec_out.0
            &&& out.1@ == spec_out.1
            &&& out.2 == spec_out.2
            &&& out.3 == spec_out.3
            &&& all_valid(out.0@)
            &&& all_valid(out.1@)
            &&& out.2.valid()
            &&& out.3.valid()
        },
{
    let t1 = update_growths_batch(ttm);
    let t2 = update_ratios_batch(&t1);
    let a1 = update_growths_batch(annual);
    let a2 = update_ratios_batch(&a1);
    match update_metrics_annual(&t2, &a2, industry, metrics, forecasts, cfg) {
        Ok((m2, f2)) => Ok((t2, a2, m2, f2)),
        Err(e) => Err(e),
    }
}

/// After a backfill run, both flags of every period are set.
proof fn lemma_backfill_flags(s: Seq<EarningsReport>)
    ensures
        forall|i: int|
            0 <= i < s.len() ==> (#[trigger] spec_ratio_backfill(spec_growth_backfill(s))[i])
                .ratios_calculated && spec_ratio_backfill(spec_growth_backfill(s))[i]
                .growth_calculated,
{
    assert forall|i: int| 0 <= i < s.len() implies (#[trigger] spec_ratio_backfill(
        spec_growth_backfill(s),
    )[i]).ratios_calculated && spec_ratio_backfill(spec_growth_backfill(s))[i].growth_calculated by {
        let g = spec_growth_step(s, s[i]);
        assert(g.growth_calculated);
        assert(spec_ratio_step(g).growth_calculated && spec_ratio_step(g).ratios_calculated);
    }
}

/// Running the full recomputation sequence a second time on its own output
/// changes nothing: the backfills are flag-gated and every derived field is
/// overwritten with a value computed from the same backfilled series.
pub proof fn lemma_recomputation_idempotent(
    ttm: Seq<EarningsReport>,
    annual: Seq<EarningsReport>,
    industry: Seq<char>,
    m: CurrentMetrics,
    f: Forecasts,
    cfg: Config,
)
    requires
        ttm.len() > 0,
        annual.len() > 0,
    ensures
        ({
            let out = spec_run_recomputation(ttm, annual, industry, m, f, cfg);
            spec_run_recomputation(out.0, out.1, industry, out.2, out.3, cfg) == out
        }),
{
    let out = spec_run_recomputation(ttm, annual, industry, m, f, cfg);
    let t1 = out.0;
    let a1 = out.1;
    lemma_backfill_flags(ttm);
    lemma_backfill_flags(annual);
    lemma_growth_backfill_idempotent(t1);
    lemma_growth_backfill_idempotent(annual);
    assert forall|i: int| 0 <= i < t1.len() implies #[trigger] spec_growth_backfill(t1)[i]
        == t1[i] by {
        assert(t1[i].growth_calculated);
    }
    assert(spec_growth_backfill(t1) =~= t1);
    assert forall|i: int| 0 <= i < a1.len() implies #[trigger] spec_growth_backfill(a1)[i]
        == a1[i] by {
        assert(a1[i].growth_calculated);
    }
    assert(spec_growth_backfill(a1) =~= a1);
    assert forall|i: int| 0 <= i < t1.len() implies #[trigger] spec_ratio_backfill(t1)[i]
        == t1[i] by {
        assert(t1[i].ratios_calculated);
    }
    assert(spec_ratio_backfill(t1) =~= t1);
    assert forall|i: int| 0 <= i < a1.len() implies #[trigger] spec_ratio_backfill(a1)[i]
        == a1[i] by {
        assert(a1[i].ratios_calculated);
    }
    assert(spec_ratio_backfill(a1) =~= a1);
    assert(spec_ratio_backfill(spec_growth_backfill(t1)) == t1);
    assert(spec_ratio_backfill(spec_growth_backfill(a1)) == a1);
    let first = spec_update_metrics_annual(t1, a1, industry, m, f, cfg);
    let second = spec_update_metrics_annual(t1, a1, industry, first.0, first.1, cfg);
    assert(second.0 == first.0);
    assert(second.1 == first.1);
}

// ---------------------------------------------------------------------------
// Staleness and scheduling
// ---------------------------------------------------------------------------
/// A scraped next-earnings date is only believable when it lies at least a
/// quarter after the latest statement's period end.
pub fn validate_next_earnings_date(next_earnings: Option<i64>, latest_period_ending: i64) -> (r:
    Option<i64>)
    requires
        crate::fixed::opt_bounded(next_earnings, DATE_LIMIT as int),
        -DATE_LIMIT <= latest_period_ending <= DATE_LIMIT,
    ensures
        r == match next_earnings {
            Some(d) => if d - latest_period_ending >= 90 {
                Some(d)
            } else {
                None::<i64>
            },
            None => None::<i64>,
        },
{
    match next_earnings {
        Some(d) => if d - latest_period_ending >= 90 {
            Some(d)
        } else {
            None
        },
        None => None,
    }
}

/// A next-earnings date is kept only when it is not already more than a day
/// in the past.
pub fn get_validate_next_earnings_date(next_earnings: Option<i64>, today: i64) -> (r: Option<i64>)
    requires
        crate::fixed::opt_bounded(next_earnings, DATE_LIMIT as int),
        -DATE_LIMIT <= today <= DATE_LIMIT,
    ensures
        r == match next_earnings {
            Some(d) => if d >= today || today - d <= 1 {
                Some(d)
            } else {
                None::<i64>
            },
            None => None::<i64>,
        },
{
    match next_earnings {
        Some(d) => if d >= today || today - d <= 1 {
            Some(d)
        } else {
            None
        },
        None => None,
    }
}

/// A company profile is rechecked when its last check lies a quarter or
/// more in the past.
pub fn ticker_check_needed(last_updated: i64, today: i64) -> (r: bool)
    requires
        -DATE_LIMIT <= last_updated <= DATE_LIMIT,
        -DATE_LIMIT <= today <= DATE_LIMIT,
    ensures
        r == (today - last_updated >= 90),
{
    today - last_updated >= 90
}

/// What kind of remote refresh a company needs next.
#[derive(Clone, Copy, Debug, PartialEq, Eq, Structural)]
pub enum UpdatePlan {
    /// Fetch annual and quarterly statements, then run the annual pipeline.
    FullEarningsUpdate,
    /// Fetch quarterly statements only, then run the quarterly pipeline.
    QuarterEarningsUpdate,
    /// Only refresh the price and dates, then rerun the annual pipeline.
    RegularRefresh,
    /// Nothing to fetch; rerun the annual pipeline on stored data.
    MetricsOnly,
}

/// Picks the refresh kind from the staleness checks and the latest known
/// fiscal quarter: a fourth-quarter report (or no data at all) calls for
/// the full annual fetch.
pub fn plan_update(
    earnings_update_needed: bool,
    regular_update_needed: bool,
    latest_quarter: Option<i16>,
) -> (r: UpdatePlan)
    ensures
        r == (if earnings_update_needed {
            match latest_quarter {
                Some(q) => if q == 3 {
                    UpdatePlan::FullEarningsUpdate
                } else {
                    UpdatePlan::QuarterEarningsUpdate
                },
                None => UpdatePlan::FullEarningsUpdate,
            }
        } else if regular_update_needed {
            UpdatePlan::RegularRefresh
        } else {
            UpdatePlan::MetricsOnly
        }),
{
    if earnings_update_needed {
        match latest_quarter {
            Some(q) => if q == 3 {
                UpdatePlan::FullEarningsUpdate
            } else {
                UpdatePlan::QuarterEarningsUpdate
            },
            None => UpdatePlan::FullEarningsUpdate,
        }
    } else if regular_update_needed {
        UpdatePlan::RegularRefresh
    } else {
        UpdatePlan::MetricsOnly
    }
}

/// Once a period's growth flag is set, later growth passes leave the period
/// — its derived growth field included — exactly as it is.
pub proof fn lemma_growth_backfill_idempotent(s: Seq<EarningsReport>)
    ensures
        forall|i: int|
            0 <= i < s.len() && (#[trigger] s[i]).growth_calculated ==> spec_growth_backfill(s)[i]
                == s[i],
        spec_growth_backfill(spec_growth_backfill(s)) =~= spec_growth_backfill(s),
{
    let s1 = spec_growth_backfill(s);
    assert forall|i: int| 0 <= i < s.len() implies spec_growth_backfill(s1)[i] == s1[i] by {
        assert(spec_growth_step(s, s[i]).growth_calculated);
    }
}

} // verus!
