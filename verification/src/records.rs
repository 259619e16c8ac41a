//! The engine's data records: one financial-statement period, the derived
//! per-company metrics record, the forecast record, and the tunable
//! configuration.
//!
//! Values are two-decimal fixed point (`i64` hundredths); dates are plain
//! day numbers whose epoch the storage collaborator chooses.  Well-formed
//! records keep every line item inside the limits of [`crate::fixed`], which
//! is what makes every downstream formula total.
use vstd::prelude::*;

verus! {

use crate::fixed::{opt_bounded, opt_in_range, in_range, AMOUNT_LIMIT, PCT_LIMIT};
use crate::trend::Trend;

/// Largest day number a bookkeeping date may carry.
pub const DATE_LIMIT: i64 = 100_000_000;

/// Reporting duration of a statement period.
#[derive(Clone, Copy, Debug, PartialEq, Eq, Structural)]
pub enum DurationKind {
    /// Trailing twelve months, rolled forward each quarter.
    Ttm,
    /// A full fiscal year.
    Annual,
}

/// One reporting period of one company, as the storage collaborator hands it
/// over.  Raw line items are ingested; the ratio and growth fields marked
/// "derived" are filled by the engine's backfill passes, gated by the two
/// `*_calculated` flags.
#[derive(Clone, Copy, Debug, PartialEq, Eq, Structural)]
pub struct EarningsReport {
    pub duration: DurationKind,
    pub year_str: i16,
    pub quarter_str: i16,
    /// Day number on which the period ended.
    pub period_ending: i64,
    pub net_interest_growth_yoy: Option<i64>,
    pub net_interest_margin: Option<i64>,
    pub cost_of_risk: Option<i64>,
    pub revenue: i64,
    pub revenue_growth_yoy: Option<i64>,
    pub gross_profit: Option<i64>,
    /// Derived by the growth backfill.
    pub gross_profit_growth_yoy: Option<i64>,
    pub gross_margin: Option<i64>,
    pub sga_expenses: Option<i64>,
    /// Derived by the ratio backfill.
    pub sga_gp_ratio: Option<i64>,
    pub rnd_expenses: Option<i64>,
    /// Derived by the ratio backfill.
    pub rnd_gp_ratio: Option<i64>,
    pub operating_income: i64,
    pub operating_margin: i64,
    pub interest_expenses: Option<i64>,
    /// Derived by the ratio backfill.
    pub interest_expenses_op_income_ratio: Option<i64>,
    pub net_income: i64,
    pub net_margin: i64,
    pub shares_outstanding_diluted: i64,
    pub shares_change_yoy: i64,
    pub retained_earnings: i64,
    pub net_cash: i64,
    pub operating_cash_flow: Option<i64>,
    /// Derived by the ratio backfill.
    pub operating_cash_flow_margin: Option<i64>,
    pub free_cash_flow: Option<i64>,
    pub free_cash_flow_margin: Option<i64>,
    pub ffo_margin: Option<i64>,
    /// True once the ratio backfill has run for this period; never reset.
    pub ratios_calculated: bool,
    /// True once the growth backfill has run for this period; never reset.
    pub growth_calculated: bool,
}

impl EarningsReport {
    /// Well-formedness: every amount, percentage and derived value lies
    /// within the fixed-point limits.
    pub open spec fn valid(self) -> bool {
        &&& -AMOUNT_LIMIT <= self.revenue <= AMOUNT_LIMIT
        &&& opt_bounded(self.gross_profit, AMOUNT_LIMIT as int)
        &&& opt_bounded(self.sga_expenses, AMOUNT_LIMIT as int)
        &&& opt_bounded(self.rnd_expenses, AMOUNT_LIMIT as int)
        &&& -AMOUNT_LIMIT <= self.operating_income <= AMOUNT_LIMIT
        &&& opt_bounded(self.interest_expenses, AMOUNT_LIMIT as int)
        &&& -AMOUNT_LIMIT <= self.net_income <= AMOUNT_LIMIT
        &&& 0 <= self.shares_outstanding_diluted <= AMOUNT_LIMIT
        &&& -AMOUNT_LIMIT <= self.retained_earnings <= AMOUNT_LIMIT
        &&& -AMOUNT_LIMIT <= self.net_cash <= AMOUNT_LIMIT
        &&& opt_bounded(self.operating_cash_flow, AMOUNT_LIMIT as int)
        &&& opt_bounded(self.free_cash_flow, AMOUNT_LIMIT as int)
        &&& opt_bounded(self.net_interest_growth_yoy, PCT_LIMIT as int)
        &&& opt_bounded(self.net_interest_margin, PCT_LIMIT as int)
        &&& opt_bounded(self.cost_of_risk, PCT_LIMIT as int)
        &&& opt_bounded(self.revenue_growth_yoy, PCT_LIMIT as int)
        &&& opt_bounded(self.gross_margin, PCT_LIMIT as int)
        &&& -PCT_LIMIT <= self.operating_margin <= PCT_LIMIT
        &&& -PCT_LIMIT <= self.net_margin <= PCT_LIMIT
        &&& -PCT_LIMIT <= self.shares_change_yoy <= PCT_LIMIT
        &&& opt_bounded(self.free_cash_flow_margin, PCT_LIMIT as int)
        &&& opt_bounded(self.ffo_margin, PCT_LIMIT as int)
        &&& opt_in_range(self.gross_profit_growth_yoy)
        &&& opt_in_range(self.sga_gp_ratio)
        &&& opt_in_range(self.rnd_gp_ratio)
        &&& opt_in_range(self.interest_expenses_op_income_ratio)
        &&& opt_in_range(self.operating_cash_flow_margin)
        &&& -DATE_LIMIT <= self.period_ending <= DATE_LIMIT
    }
}

/// The per-company derived-metrics record: trailing-twelve-month snapshot
/// values, multi-year averages, trend labels and the theoretical-margin
/// decision.  Created empty once per company, then every field overwritten by
/// each run of the recomputation sequence.
#[derive(Clone, Copy, Debug, PartialEq, Eq, Structural)]
pub struct CurrentMetrics {
    pub net_interest_income_growth_yoy_ttm: Option<i64>,
    pub net_interest_income_growth_multi_year: Option<i64>,
    pub net_interest_margin_ttm: Option<i64>,
    pub net_interest_margin_short_term_trend: Option<Trend>,
    pub net_interest_margin_long_term_trend: Option<Trend>,
    pub cost_of_risk_ttm: Option<i64>,
    pub cost_of_risk_short_term_trend: Option<Trend>,
    pub cost_of_risk_long_term_trend: Option<Trend>,
    pub revenue_ttm: Option<i64>,
    pub revenue_growth_yoy_ttm: Option<i64>,
    pub revenue_growth_multi_year: Option<i64>,
    pub gross_profit_growth_yoy_ttm: Option<i64>,
    pub gross_profit_growth_multi_year: Option<i64>,
    pub gross_margin_ttm: Option<i64>,
    pub gross_margin_short_term_trend: Option<Trend>,
    pub gross_margin_long_term_trend: Option<Trend>,
    pub sga_ratio_ttm: Option<i64>,
    pub sga_short_term_trend: Option<Trend>,
    pub sga_long_term_trend: Option<Trend>,
    pub rnd_ratio_ttm: Option<i64>,
    pub rnd_short_term_trend: Option<Trend>,
    pub rnd_long_term_trend: Option<Trend>,
    pub operating_margin_ttm: Option<i64>,
    pub operating_margin_short_term_trend: Option<Trend>,
    pub operating_margin_long_term_trend: Option<Trend>,
    pub interest_expense_ratio_ttm: Option<i64>,
    pub net_margin_ttm: Option<i64>,
    pub theoretical_net_margin: Option<i64>,
    pub is_net_margin_optimized: Option<bool>,
    pub shares_outstanding_diluted_ttm: Option<i64>,
    pub shares_change_ttm: Option<i64>,
    pub shares_change_multi_year: Option<i64>,
    pub shares_change_trend: Option<Trend>,
    pub retained_earnings_ttm: Option<i64>,
    pub retained_earnings_trend: Option<Trend>,
    pub net_cash_ttm: Option<i64>,
    pub has_healthy_net_cash: Option<bool>,
    pub net_cash_trend: Option<Trend>,
    pub operating_cash_flow_ttm: Option<i64>,
    pub operating_cash_flow_margin_ttm: Option<i64>,
    pub operating_cash_flow_margin_trend: Option<Trend>,
    pub free_cash_flow_ttm: Option<i64>,
    pub free_cash_flow_margin_ttm: Option<i64>,
    pub ffo_margin_ttm: Option<i64>,
    pub ffo_margin_trend: Option<Trend>,
}

impl CurrentMetrics {
    /// Well-formedness of the numeric fields.
    pub open spec fn valid(self) -> bool {
        &&& opt_bounded(self.revenue_ttm, AMOUNT_LIMIT as int)
        &&& opt_bounded(self.shares_outstanding_diluted_ttm, AMOUNT_LIMIT as int)
        &&& opt_bounded(self.retained_earnings_ttm, AMOUNT_LIMIT as int)
        &&& opt_bounded(self.net_cash_ttm, AMOUNT_LIMIT as int)
        &&& opt_bounded(self.operating_cash_flow_ttm, AMOUNT_LIMIT as int)
        &&& opt_bounded(self.free_cash_flow_ttm, AMOUNT_LIMIT as int)
        &&& opt_bounded(self.net_interest_income_growth_yoy_ttm, PCT_LIMIT as int)
        &&& opt_bounded(self.net_interest_margin_ttm, PCT_LIMIT as int)
        &&& opt_bounded(self.cost_of_risk_ttm, PCT_LIMIT as int)
        &&& opt_bounded(self.revenue_growth_yoy_ttm, PCT_LIMIT as int)
        &&& opt_bounded(self.gross_margin_ttm, PCT_LIMIT as int)
        &&& opt_bounded(self.operating_margin_ttm, PCT_LIMIT as int)
        &&& opt_bounded(self.net_margin_ttm, PCT_LIMIT as int)
        &&& opt_bounded(self.theoretical_net_margin, PCT_LIMIT as int)
        &&& opt_bounded(self.shares_change_ttm, PCT_LIMIT as int)
        &&& opt_bounded(self.free_cash_flow_margin_ttm, PCT_LIMIT as int)
        &&& opt_bounded(self.ffo_margin_ttm, PCT_LIMIT as int)
        &&& opt_in_range(self.net_interest_income_growth_multi_year)
        &&& opt_in_range(self.revenue_growth_multi_year)
        &&& opt_in_range(self.gross_profit_growth_yoy_ttm)
        &&& opt_in_range(self.gross_profit_growth_multi_year)
        &&& opt_in_range(self.sga_ratio_ttm)
        &&& opt_in_range(self.rnd_ratio_ttm)
        &&& opt_in_range(self.interest_expense_ratio_ttm)
        &&& opt_in_range(self.operating_cash_flow_margin_ttm)
        &&& opt_in_range(self.shares_change_multi_year)
    }

    /// The record every company starts from: nothing derived yet.
    pub open spec fn spec_empty() -> CurrentMetrics {
        CurrentMetrics {
            net_interest_income_growth_yoy_ttm: None,
            net_interest_income_growth_multi_year: None,
            net_interest_margin_ttm: None,
            net_interest_margin_short_term_trend: None,
            net_interest_margin_long_term_trend: None,
            cost_of_risk_ttm: None,
            cost_of_risk_short_term_trend: None,
            cost_of_risk_long_term_trend: None,
            revenue_ttm: None,
            revenue_growth_yoy_ttm: None,
            revenue_growth_multi_year: None,
            gross_profit_growth_yoy_ttm: None,
            gross_profit_growth_multi_year: None,
            gross_margin_ttm: None,
            gross_margin_short_term_trend: None,
            gross_margin_long_term_trend: None,
            sga_ratio_ttm: None,
            sga_short_term_trend: None,
            sga_long_term_trend: None,
            rnd_ratio_ttm: None,
            rnd_short_term_trend: None,
            rnd_long_term_trend: None,
            operating_margin_ttm: None,
            operating_margin_short_term_trend: None,
            operating_margin_long_term_trend: None,
            interest_expense_ratio_ttm: None,
            net_margin_ttm: None,
            theoretical_net_margin: None,
            is_net_margin_optimized: None,
            shares_outstanding_diluted_ttm: None,
            shares_change_ttm: None,
            shares_change_multi_year: None,
            shares_change_trend: None,
            retained_earnings_ttm: None,
            retained_earnings_trend: None,
            net_cash_ttm: None,
            has_healthy_net_cash: None,
            net_cash_trend: None,
            operating_cash_flow_ttm: None,
            operating_cash_flow_margin_ttm: None,
            operating_cash_flow_margin_trend: None,
            free_cash_flow_ttm: None,
            free_cash_flow_margin_ttm: None,
            ffo_margin_ttm: None,
            ffo_margin_trend: None,
        }
    }

    /// Creates the metrics record for a company seen for the first time.
    pub fn create_new_entry() -> (r: CurrentMetrics)
        ensures
            r == Self::spec_empty(),
            r.valid(),
    {
        CurrentMetrics {
            net_interest_income_growth_yoy_ttm: None,
            net_interest_income_growth_multi_year: None,
            net_interest_margin_ttm: None,
            net_interest_margin_short_term_trend: None,
            net_interest_margin_long_term_trend: None,
            cost_of_risk_ttm: None,
            cost_of_risk_short_term_trend: None,
            cost_of_risk_long_term_trend: None,
            revenue_ttm: None,
            revenue_growth_yoy_ttm: None,
            revenue_growth_multi_year: None,
            gross_profit_growth_yoy_ttm: None,
            gross_profit_growth_multi_year: None,
            gross_margin_ttm: None,
            gross_margin_short_term_trend: None,
            gross_margin_long_term_trend: None,
            sga_ratio_ttm: None,
            sga_short_term_trend: None,
            sga_long_term_trend: None,
            rnd_ratio_ttm: None,
            rnd_short_term_trend: None,
            rnd_long_term_trend: None,
            operating_margin_ttm: None,
            operating_margin_short_term_trend: None,
            operating_margin_long_term_trend: None,
            interest_expense_ratio_ttm: None,
            net_margin_ttm: None,
            theoretical_net_margin: None,
            is_net_margin_optimized: None,
            shares_outstanding_diluted_ttm: None,
            shares_change_ttm: None,
            shares_change_multi_year: None,
            shares_change_trend: None,
            retained_earnings_ttm: None,
            retained_earnings_trend: None,
            net_cash_ttm: None,
            has_healthy_net_cash: None,
            net_cash_trend: None,
            operating_cash_flow_ttm: None,
            operating_cash_flow_margin_ttm: None,
            operating_cash_flow_margin_trend: None,
            free_cash_flow_ttm: None,
            free_cash_flow_margin_ttm: None,
            ffo_margin_ttm: None,
            ffo_margin_trend: None,
        }
    }
}

/// Forward-looking bookkeeping for one company: guidance, price targets
/// computed from it, and the staleness dates.
#[derive(Clone, Copy, Debug, PartialEq, Eq, Structural)]
pub struct Forecasts {
    /// Day number of the next known earnings date, if any.
    pub next_earnings_date: Option<i64>,
    pub latest_price: Option<i64>,
    /// Day number of the last regular refresh.
    pub last_updated: Option<i64>,
    pub revenue_next_year: Option<i64>,
    pub revenue_growth_next_year: Option<i64>,
    pub price_current_revenue_growth: Option<i64>,
    pub price_current_gp_growth: Option<i64>,
    pub price_next_year_revenue_growth: Option<i64>,
    pub price_multi_year_revenue_growth: Option<i64>,
    pub price_multi_year_gp_growth: Option<i64>,
}

impl Forecasts {
    pub open spec fn valid(self) -> bool {
        &&& opt_bounded(self.next_earnings_date, DATE_LIMIT as int)
        &&& opt_bounded(self.last_updated, DATE_LIMIT as int)
        &&& opt_in_range(self.latest_price)
        &&& opt_bounded(self.revenue_next_year, AMOUNT_LIMIT as int)
        &&& opt_in_range(self.revenue_growth_next_year)
        &&& opt_in_range(self.price_current_revenue_growth)
        &&& opt_in_range(self.price_current_gp_growth)
        &&& opt_in_range(self.price_next_year_revenue_growth)
        &&& opt_in_range(self.price_multi_year_revenue_growth)
        &&& opt_in_range(self.price_multi_year_gp_growth)
    }

    pub open spec fn spec_empty() -> Forecasts {
        Forecasts {
            next_earnings_date: None,
            latest_price: None,
            last_updated: None,
            revenue_next_year: None,
            revenue_growth_next_year: None,
            price_current_revenue_growth: None,
            price_current_gp_growth: None,
            price_next_year_revenue_growth: None,
            price_multi_year_revenue_growth: None,
            price_multi_year_gp_growth: None,
        }
    }

    /// An earnings refresh is owed when the next known earnings date lies at
    /// least the grace period in the past, or no date is known at all.
    pub fn is_earnings_update_needed(&self, today: i64, grace_days: i64) -> (r: bool)
        requires
            self.valid(),
            -DATE_LIMIT <= today <= DATE_LIMIT,
            0 <= grace_days <= DATE_LIMIT,
        ensures
            r == match self.next_earnings_date {
                Some(d) => today - d >= grace_days,
                None => true,
            },
    {
        match self.next_earnings_date {
            Some(d) => today - d >= grace_days,
            None => true,
        }
    }

    /// A regular price refresh is owed when the record was last updated
    /// before today, or never.
    pub fn is_regular_update_needed(&self, today: i64) -> (r: bool)
        requires
            self.valid(),
            -DATE_LIMIT <= today <= DATE_LIMIT,
        ensures
            r == match self.last_updated {
                Some(d) => d < today,
                None => true,
            },
    {
        match self.last_updated {
            Some(d) => d < today,
            None => true,
        }
    }

    /// Creates the forecast record for a company seen for the first time.
    pub fn create_empty() -> (r: Forecasts)
        ensures
            r == Self::spec_empty(),
            r.valid(),
    {
        Forecasts {
            next_earnings_date: None,
            latest_price: None,
            last_updated: None,
            revenue_next_year: None,
            revenue_growth_next_year: None,
            price_current_revenue_growth: None,
            price_current_gp_growth: None,
            price_next_year_revenue_growth: None,
            price_multi_year_revenue_growth: None,
            price_multi_year_gp_growth: None,
        }
    }
}

/// Tunable constants of the engine: window sizes, flat thresholds per metric
/// family, the trend count threshold and the earnings-staleness grace.
#[derive(Clone, Copy, Debug, PartialEq, Eq, Structural)]
pub struct Config {
    /// Periods a short-term classification labels.
    pub short_term_length: usize,
    /// Minimum quarterly series the short-term pass loads.
    pub short_term_window: usize,
    /// Annual periods averaged for multi-year growth.
    pub multi_year_window: usize,
    /// Annual periods the long-term pass loads.
    pub long_term_window: usize,
    /// Labels of one kind needed to dominate an aggregate trend.
    pub trend_count_threshold: usize,
    /// Flat threshold for margin-style percentages (`50` is half a point).
    pub margin_flat_threshold: i64,
    /// Flat threshold for expense ratios.
    pub ratio_flat_threshold: i64,
    /// Long-term flat threshold for margins.
    pub long_margin_flat_threshold: i64,
    /// Long-term flat threshold for expense ratios.
    pub long_ratio_flat_threshold: i64,
    /// Long-term flat threshold for share-count dilution.
    pub dilution_flat_threshold: i64,
    /// Long-term flat threshold for absolute-dollar series.
    pub dollar_flat_threshold: i64,
    /// Days past the expected earnings date before an update is owed.
    pub earnings_grace_days: i64,
}

impl Config {
    pub open spec fn valid(self) -> bool {
        &&& self.short_term_length <= 1000
        &&& self.short_term_window <= 1000
        &&& self.multi_year_window <= 1000
        &&& self.long_term_window <= 1000
        &&& 0 <= self.margin_flat_threshold <= PCT_LIMIT
        &&& 0 <= self.ratio_flat_threshold <= PCT_LIMIT
        &&& 0 <= self.long_margin_flat_threshold <= PCT_LIMIT
        &&& 0 <= self.long_ratio_flat_threshold <= PCT_LIMIT
        &&& 0 <= self.dilution_flat_threshold <= PCT_LIMIT
        &&& 0 <= self.dollar_flat_threshold <= AMOUNT_LIMIT
        &&& 0 <= self.earnings_grace_days <= DATE_LIMIT
    }

    pub open spec fn spec_standard() -> Config {
        Config {
            short_term_length: 4,
            short_term_window: 8,
            multi_year_window: 4,
            long_term_window: 6,
            trend_count_threshold: 2,
            margin_flat_threshold: 50,
            ratio_flat_threshold: 1,
            long_margin_flat_threshold: 100,
            long_ratio_flat_threshold: 2,
            dilution_flat_threshold: 200,
            dollar_flat_threshold: 10000,
            earnings_grace_days: 1,
        }
    }

    /// The configuration the production pipeline runs with.
    pub fn standard() -> (r: Config)
        ensures
            r == Self::spec_standard(),
            r.valid(),
    {
        Config {
            short_term_length: 4,
            short_term_window: 8,
            multi_year_window: 4,
            long_term_window: 6,
            trend_count_threshold: 2,
            margin_flat_threshold: 50,
            ratio_flat_threshold: 1,
            long_margin_flat_threshold: 100,
            long_ratio_flat_threshold: 2,
            dilution_flat_threshold: 200,
            dollar_flat_threshold: 10000,
            earnings_grace_days: 1,
        }
    }
}

} // verus!
