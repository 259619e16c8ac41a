//! The recomputation sequencer: backfills, the metric pipeline, staleness
//! scheduling, and the fiscal-caption parser.
use bullseye_metrics::calculate::calculate_growth_adjustment_factor;
use bullseye_metrics::helper::process_fiscal_string;
use bullseye_metrics::metrics::{has_healthy_cash_position, is_net_margin_optimized};
use bullseye_metrics::records::{Config, CurrentMetrics, DurationKind, EarningsReport, Forecasts};
use bullseye_metrics::sequencer::{
    copy_latest_data, latest_annual_data, latest_quarter_data, plan_update, run_recomputation,
    same_quarter_prev_year_data, take_latest, ticker_check_needed, update_guidance,
    update_metrics_annual, update_metrics_ttm, update_multi_yr_growth, update_price_target,
    update_ratios_batch,
    update_growths_batch, get_validate_next_earnings_date, validate_next_earnings_date,
    EngineError, UpdatePlan,
};
use bullseye_metrics::trend::Trend;

/// A plausible quarterly statement; tests tweak individual fields.
fn period(duration: DurationKind, year: i16, quarter: i16) -> EarningsReport {
    EarningsReport {
        duration,
        year_str: year,
        quarter_str: quarter,
        period_ending: 20000,
        net_interest_growth_yoy: None,
        net_interest_margin: None,
        cost_of_risk: None,
        revenue: 100000,
        revenue_growth_yoy: Some(1111),
        gross_profit: Some(40000),
        gross_profit_growth_yoy: None,
        gross_margin: Some(4000),
        sga_expenses: Some(10000),
        sga_gp_ratio: None,
        rnd_expenses: Some(5000),
        rnd_gp_ratio: None,
        operating_income: 20000,
        operating_margin: 2000,
        interest_expenses: Some(1000),
        interest_expenses_op_income_ratio: None,
        net_income: 10000,
        net_margin: 1000,
        shares_outstanding_diluted: 1000,
        shares_change_yoy: 200,
        retained_earnings: 50000,
        net_cash: 20000,
        operating_cash_flow: Some(15000),
        operating_cash_flow_margin: None,
        free_cash_flow: Some(12000),
        free_cash_flow_margin: Some(1200),
        ffo_margin: None,
        ratios_calculated: false,
        growth_calculated: false,
    }
}

fn ttm_series() -> Vec<EarningsReport> {
    // eight quarters, most recent first, with a prior-year match for each
    let mut v = Vec::new();
    for (y, q) in [
        (2024, 1),
        (2023, 4),
        (2023, 3),
        (2023, 2),
        (2023, 1),
        (2022, 4),
        (2022, 3),
        (2022, 2),
    ] {
        let mut p = period(DurationKind::Ttm, y, q);
        if y == 2022 || (y == 2023 && q < 3) {
            p.gross_profit = Some(35000);
        }
        v.push(p);
    }
    v
}

fn annual_series() -> Vec<EarningsReport> {
    let mut v = Vec::new();
    for y in [2023, 2022, 2021, 2020] {
        let mut p = period(DurationKind::Annual, y, 0);
        p.revenue = 90000 + 2500 * ((y - 2020) as i64);
        v.push(p);
    }
    v
}

#[test]
fn fiscal_string_quarterly() {
    assert_eq!(process_fiscal_string("Q3 2024"), Some((2024, 3)));
    assert_eq!(process_fiscal_string("Q4 2019"), Some((2019, 4)));
}

#[test]
fn fiscal_string_without_space_is_rejected() {
    assert_eq!(process_fiscal_string("Annual"), None);
    assert_eq!(process_fiscal_string(""), None);
}

#[test]
fn fiscal_string_annual_caption_reads_quarter_zero() {
    assert_eq!(process_fiscal_string("FY 2020"), Some((2020, 0)));
    assert_eq!(process_fiscal_string("Q 2020"), Some((2020, 0)));
    assert_eq!(process_fiscal_string(" 2020"), Some((2020, 0)));
}

#[test]
fn fiscal_string_bad_year_reads_zero() {
    assert_eq!(process_fiscal_string("Q2 20x0"), Some((0, 2)));
    assert_eq!(process_fiscal_string("Q2 99999"), Some((0, 2)));
}

#[test]
fn ratio_backfill_fills_and_flags() {
    let out = update_ratios_batch(&vec![period(DurationKind::Ttm, 2024, 1)]);
    let p = out[0];
    // 100 over 400 is 0.25; 50 over 400 is 0.125 -> 0.13
    assert_eq!(p.sga_gp_ratio, Some(25));
    assert_eq!(p.rnd_gp_ratio, Some(13));
    // 10 over 200 is 0.05
    assert_eq!(p.interest_expenses_op_income_ratio, Some(5));
    // 150 over 1000 is 15.00 percent
    assert_eq!(p.operating_cash_flow_margin, Some(1500));
    assert!(p.ratios_calculated);
}

#[test]
fn ratio_backfill_leaves_flagged_period_alone() {
    let mut p = period(DurationKind::Ttm, 2024, 1);
    p.ratios_calculated = true;
    p.sga_gp_ratio = Some(999);
    let out = update_ratios_batch(&vec![p]);
    assert_eq!(out[0], p);
    assert_eq!(out[0].sga_gp_ratio, Some(999));
}

#[test]
fn growth_backfill_computes_from_prior_year() {
    let curr = period(DurationKind::Ttm, 2024, 1);
    let mut prev = period(DurationKind::Ttm, 2023, 1);
    prev.gross_profit = Some(35000);
    let out = update_growths_batch(&vec![curr, prev]);
    // 400 over 350 is +14.29 percent
    assert_eq!(out[0].gross_profit_growth_yoy, Some(1429));
    assert!(out[0].growth_calculated);
    // the prior year has no counterpart of its own: flag set, no value
    assert_eq!(out[1].gross_profit_growth_yoy, None);
    assert!(out[1].growth_calculated);
}

#[test]
fn growth_backfill_skips_zero_gross_profit_but_flags() {
    let mut curr = period(DurationKind::Ttm, 2024, 1);
    curr.gross_profit = Some(0);
    let prev = period(DurationKind::Ttm, 2023, 1);
    let out = update_growths_batch(&vec![curr, prev]);
    assert_eq!(out[0].gross_profit_growth_yoy, None);
    assert!(out[0].growth_calculated);
}

#[test]
fn growth_backfill_skips_missing_gross_profit_but_flags() {
    let mut curr = period(DurationKind::Ttm, 2024, 1);
    curr.gross_profit = None;
    let prev = period(DurationKind::Ttm, 2023, 1);
    let out = update_growths_batch(&vec![curr, prev]);
    assert_eq!(out[0].gross_profit_growth_yoy, None);
    assert!(out[0].growth_calculated);
}

#[test]
fn growth_backfill_leaves_flagged_period_alone() {
    let mut p = period(DurationKind::Ttm, 2024, 1);
    p.growth_calculated = true;
    p.gross_profit_growth_yoy = Some(777);
    let prev = period(DurationKind::Ttm, 2023, 1);
    let out = update_growths_batch(&vec![p, prev]);
    assert_eq!(out[0], p);
}

#[test]
fn series_lookups() {
    let mixed = vec![
        period(DurationKind::Annual, 2023, 0),
        period(DurationKind::Ttm, 2024, 1),
        period(DurationKind::Ttm, 2023, 1),
    ];
    assert_eq!(latest_quarter_data(&mixed), Some(mixed[1]));
    assert_eq!(latest_annual_data(&mixed), Some(mixed[0]));
    assert_eq!(latest_annual_data(&vec![]), None);
    assert_eq!(same_quarter_prev_year_data(&mixed, &mixed[1]), Some(mixed[2]));
    assert_eq!(same_quarter_prev_year_data(&mixed, &mixed[2]), None);
}

#[test]
fn take_latest_limits_the_window() {
    let s = ttm_series();
    assert_eq!(take_latest(&s, 4).len(), 4);
    assert_eq!(take_latest(&s, 4)[0], s[0]);
    assert_eq!(take_latest(&s, 20).len(), 8);
}

#[test]
fn net_margin_decision() {
    let p = period(DurationKind::Ttm, 2024, 1);
    // gross margin 40.00 over a factor of 3.00: theoretical 13.33 percent
    let (th, optimized) = is_net_margin_optimized(&p, 300);
    assert_eq!(th, 1333);
    // 13.33 > the actual 10.00 net margin: not optimized
    assert!(!optimized);
    let mut better = p;
    better.net_margin = 1500;
    let (_, optimized2) = is_net_margin_optimized(&better, 300);
    assert!(optimized2);
}

#[test]
fn net_margin_decision_defaults_unknown_gross_margin() {
    let mut p = period(DurationKind::Ttm, 2024, 1);
    p.gross_margin = None;
    // unknown gross margin is taken as the full hundred percent
    let (th, _) = is_net_margin_optimized(&p, 300);
    assert_eq!(th, 3333);
}

#[test]
fn cash_position_health() {
    let mut p = period(DurationKind::Ttm, 2024, 1);
    assert!(has_healthy_cash_position(&p));
    p.net_cash = -15000;
    assert!(has_healthy_cash_position(&p));
    p.net_cash = -30000;
    assert!(!has_healthy_cash_position(&p));
    p.net_cash = -1;
    p.net_income = 0;
    assert!(!has_healthy_cash_position(&p));
}

#[test]
fn price_target_step_end_to_end() {
    // revenue 1000, prior-year revenue 900, gross profit 400, prior 350,
    // dilution 2 percent: growth 11.11, gross-profit growth 14.29, and the
    // target prices the EPS through the curve at 11.11 - 2
    let latest = period(DurationKind::Ttm, 2024, 1);
    let metrics = CurrentMetrics::create_new_entry();
    let forecasts = Forecasts::create_empty();
    let mut m = copy_latest_data(&metrics, &latest);
    m.gross_profit_growth_yoy_ttm = Some(1429);
    let (m2, f2) = update_price_target(&latest, "Software - Infrastructure", &m, &forecasts);
    assert_eq!(m2.theoretical_net_margin, Some(1333));
    assert_eq!(m2.is_net_margin_optimized, Some(false));
    // income 1000 * 13.33% = 133.30; eps over ten shares = 13.33
    let factor = calculate_growth_adjustment_factor(1111 - 200) as i128;
    let expected_rev_price = ((2 * 1333 * factor + 100_000_000) / 200_000_000) as i64;
    assert_eq!(f2.price_current_revenue_growth, Some(expected_rev_price));
    let factor_gp = calculate_growth_adjustment_factor(1429 - 200) as i128;
    let expected_gp_price = ((2 * 1333 * factor_gp + 100_000_000) / 200_000_000) as i64;
    assert_eq!(f2.price_current_gp_growth, Some(expected_gp_price));
    // no multi-year averages yet: those targets stay missing
    assert_eq!(f2.price_multi_year_revenue_growth, None);
    assert_eq!(f2.price_multi_year_gp_growth, None);
}

#[test]
fn guidance_step_uses_decided_decision() {
    let annual = period(DurationKind::Annual, 2023, 0);
    let metrics = CurrentMetrics::create_new_entry();
    let m = copy_latest_data(&metrics, &annual);
    let (m2, f1) = update_price_target(&annual, "Software - Infrastructure", &m, &Forecasts::create_empty());
    let mut f = f1;
    f.revenue_next_year = Some(110000);
    let f2 = update_guidance(&annual, &m2, &f);
    // 1100 over 1000 is +10.00 percent
    assert_eq!(f2.revenue_growth_next_year, Some(1000));
    assert!(f2.price_next_year_revenue_growth.is_some());
    let mut no_guidance = f;
    no_guidance.revenue_next_year = None;
    let f3 = update_guidance(&annual, &m2, &no_guidance);
    assert_eq!(f3.revenue_growth_next_year, None);
    assert_eq!(f3.price_next_year_revenue_growth, None);
}

#[test]
fn pipeline_reports_missing_data() {
    let cfg = Config::standard();
    let m = CurrentMetrics::create_new_entry();
    let f = Forecasts::create_empty();
    let annual = annual_series();
    let ttm = ttm_series();
    assert_eq!(
        update_metrics_annual(&vec![], &annual, "Airlines", &m, &f, &cfg),
        Err(EngineError::MissingQuarterlyData)
    );
    assert_eq!(
        update_metrics_annual(&ttm, &vec![], "Airlines", &m, &f, &cfg),
        Err(EngineError::MissingAnnualData)
    );
    assert_eq!(
        update_metrics_ttm(&vec![], &annual, "Airlines", &m, &f, &cfg),
        Err(EngineError::MissingQuarterlyData)
    );
    assert_eq!(
        update_metrics_ttm(&ttm, &vec![], "Airlines", &m, &f, &cfg),
        Err(EngineError::MissingAnnualData)
    );
    assert_eq!(
        EngineError::MissingQuarterlyData.message(),
        "no quarterly earnings data"
    );
    assert_eq!(EngineError::MissingAnnualData.message(), "no annual earnings data");
}

#[test]
fn full_recomputation_fills_every_layer() {
    let cfg = Config::standard();
    let m = CurrentMetrics::create_new_entry();
    let f = Forecasts::create_empty();
    let (t1, _a1, m1, f1) = run_recomputation(
        &ttm_series(),
        &annual_series(),
        "Software - Infrastructure",
        &m,
        &f,
        &cfg,
    )
        .unwrap();
    assert!(t1[0].ratios_calculated && t1[0].growth_calculated);
    assert_eq!(m1.revenue_ttm, Some(100000));
    assert_eq!(m1.sga_ratio_ttm, Some(25));
    assert!(m1.gross_margin_short_term_trend.is_some());
    assert!(m1.shares_change_trend.is_some());
    assert!(m1.theoretical_net_margin.is_some());
    assert!(m1.revenue_growth_multi_year.is_some());
    assert!(f1.price_current_revenue_growth.is_some());
}

#[test]
fn recomputation_twice_is_identical() {
    // running the full sequence again on its own output changes nothing
    let cfg = Config::standard();
    let m = CurrentMetrics::create_new_entry();
    let f = Forecasts::create_empty();
    let ttm = ttm_series();
    let annual = annual_series();
    let (t1, a1, m1, f1) = run_recomputation(&ttm, &annual, "Airlines", &m, &f, &cfg).unwrap();
    let (t2, a2, m2, f2) = run_recomputation(&t1, &a1, "Airlines", &m1, &f1, &cfg).unwrap();
    assert_eq!(t1, t2);
    assert_eq!(a1, a2);
    assert_eq!(m1, m2);
    assert_eq!(f1, f2);
}

#[test]
fn staleness_checks() {
    let mut f = Forecasts::create_empty();
    let today = 20100;
    assert!(f.is_earnings_update_needed(today, 1));
    f.next_earnings_date = Some(20099);
    assert!(f.is_earnings_update_needed(today, 1));
    f.next_earnings_date = Some(20100);
    assert!(!f.is_earnings_update_needed(today, 1));
    f.next_earnings_date = Some(20098);
    assert!(f.is_earnings_update_needed(today, 3) == false);
    assert!(f.is_earnings_update_needed(today, 2));
    assert!(f.is_regular_update_needed(today));
    f.last_updated = Some(20099);
    assert!(f.is_regular_update_needed(today));
    f.last_updated = Some(20100);
    assert!(!f.is_regular_update_needed(today));
}

#[test]
fn earnings_date_validation() {
    assert_eq!(validate_next_earnings_date(Some(20090), 20000), Some(20090));
    assert_eq!(validate_next_earnings_date(Some(20089), 20000), None);
    assert_eq!(validate_next_earnings_date(None, 20000), None);
    let today = 20100;
    assert_eq!(get_validate_next_earnings_date(Some(20200), today), Some(20200));
    assert_eq!(get_validate_next_earnings_date(Some(20099), today), Some(20099));
    assert_eq!(get_validate_next_earnings_date(Some(20098), today), None);
    assert_eq!(get_validate_next_earnings_date(None, today), None);
}

#[test]
fn ticker_and_plan_scheduling() {
    assert!(ticker_check_needed(20000, 20090));
    assert!(!ticker_check_needed(20000, 20089));
    assert_eq!(plan_update(true, false, Some(3)), UpdatePlan::FullEarningsUpdate);
    assert_eq!(plan_update(true, true, Some(1)), UpdatePlan::QuarterEarningsUpdate);
    assert_eq!(plan_update(true, false, None), UpdatePlan::FullEarningsUpdate);
    assert_eq!(plan_update(false, true, Some(3)), UpdatePlan::RegularRefresh);
    assert_eq!(plan_update(false, false, Some(3)), UpdatePlan::MetricsOnly);
}

#[test]
fn empty_records_start_blank() {
    let m = CurrentMetrics::create_new_entry();
    assert_eq!(m.revenue_ttm, None);
    assert_eq!(m.theoretical_net_margin, None);
    assert_eq!(m.gross_margin_short_term_trend, None);
    assert_eq!(m.has_healthy_net_cash, None);
    let f = Forecasts::create_empty();
    assert_eq!(f.next_earnings_date, None);
    assert_eq!(f.price_current_revenue_growth, None);
}

#[test]
fn standard_config_values() {
    let cfg = Config::standard();
    assert_eq!(cfg.short_term_length, 4);
    assert_eq!(cfg.short_term_window, 8);
    assert_eq!(cfg.multi_year_window, 4);
    assert_eq!(cfg.long_term_window, 6);
    assert_eq!(cfg.trend_count_threshold, 2);
    assert_eq!(cfg.margin_flat_threshold, 50);
    assert_eq!(cfg.ratio_flat_threshold, 1);
    assert_eq!(cfg.long_margin_flat_threshold, 100);
    assert_eq!(cfg.long_ratio_flat_threshold, 2);
    assert_eq!(cfg.dilution_flat_threshold, 200);
    assert_eq!(cfg.dollar_flat_threshold, 10000);
    assert_eq!(cfg.earnings_grace_days, 1);
}

#[test]
fn trend_labels_survive_the_pipeline() {
    // gross margins flat across the window: the short-term label is Flat
    let cfg = Config::standard();
    let m = CurrentMetrics::create_new_entry();
    let f = Forecasts::create_empty();
    let (m1, _f1) = update_metrics_annual(
        &ttm_series(),
        &annual_series(),
        "Airlines",
        &m,
        &f,
        &cfg,
    )
        .unwrap();
    assert_eq!(m1.gross_margin_short_term_trend, Some(Trend::Flat));
    // net interest margin is absent throughout: every label is Irrelevant,
    // and the zero up-count ties the zero down-count, reducing to Flat
    assert_eq!(m1.net_interest_margin_short_term_trend, Some(Trend::Flat));
}

#[test]
fn quarterly_pipeline_keeps_annual_layers() {
    // the quarterly pipeline refreshes the snapshot, short-term trends and
    // price targets, but leaves multi-year averages and long-term trends at
    // their last annual refresh
    let cfg = Config::standard();
    let m = CurrentMetrics::create_new_entry();
    let f = Forecasts::create_empty();
    let ttm = update_growths_batch(&update_ratios_batch(&ttm_series()));
    let annual = update_growths_batch(&update_ratios_batch(&annual_series()));
    let (m1, f1) = update_metrics_ttm(&ttm, &annual, "Airlines", &m, &f, &cfg).unwrap();
    assert_eq!(m1.revenue_ttm, Some(100000));
    assert!(m1.gross_margin_short_term_trend.is_some());
    assert!(m1.theoretical_net_margin.is_some());
    // never refreshed by the quarterly pipeline
    assert_eq!(m1.revenue_growth_multi_year, None);
    assert_eq!(m1.gross_margin_long_term_trend, None);
    // without multi-year averages those two price targets stay missing
    assert_eq!(f1.price_multi_year_revenue_growth, None);
    assert!(f1.price_current_revenue_growth.is_some());
}

#[test]
fn multi_year_growth_averages() {
    let m = CurrentMetrics::create_new_entry();
    let mut annual = annual_series();
    annual[0].revenue_growth_yoy = Some(1000);
    annual[1].revenue_growth_yoy = Some(2000);
    annual[2].revenue_growth_yoy = None;
    annual[3].revenue_growth_yoy = Some(3000);
    let m1 = update_multi_yr_growth(&m, &annual);
    // ignore-missing policy: the mean of the three present values
    assert_eq!(m1.revenue_growth_multi_year, Some(2000));
    // dilution is averaged over every period
    assert_eq!(m1.shares_change_multi_year, Some(200));
    assert_eq!(m1.net_interest_income_growth_multi_year, None);
}

#[test]
fn multi_year_growth_empty_window() {
    let m = CurrentMetrics::create_new_entry();
    let m1 = update_multi_yr_growth(&m, &vec![]);
    assert_eq!(m1.revenue_growth_multi_year, None);
    assert_eq!(m1.shares_change_multi_year, None);
}
