//! Exact-value checks for the formula library: growth, ratios, the
//! valuation curve, price targets and averages.
use bullseye_metrics::calculate::{
    average_options, calculate_average_growth, calculate_growth_adjustment_factor,
    calculate_margin_portion, calculate_per_share, calculate_price_target,
    calculate_price_target_option, calculate_ratio, calculate_ratio_as_pct, calculate_ratio_option,
    calculate_yoy_growth, calculate_yoy_growth_option, get_net_margin_factor,
};

/// Rounds `num / den` half away from zero, as the library specifies.
fn round_div(num: i128, den: i128) -> i128 {
    if num >= 0 {
        (2 * num + den) / (2 * den)
    } else {
        -((2 * -num + den) / (2 * den))
    }
}

#[test]
fn yoy_growth_ten_percent_up() {
    // 110 over 100 is +10.00 percent
    assert_eq!(calculate_yoy_growth(11000, 10000), 1000);
}

#[test]
fn yoy_growth_ten_percent_down() {
    // 90 over 100 is -10.00 percent
    assert_eq!(calculate_yoy_growth(9000, 10000), -1000);
}

#[test]
fn yoy_growth_rounds_half_away_from_zero() {
    // 1000 over 900 is 11.111... -> 11.11
    assert_eq!(calculate_yoy_growth(100000, 90000), 1111);
    // 400 over 350 is 14.2857... -> 14.29
    assert_eq!(calculate_yoy_growth(40000, 35000), 1429);
}

#[test]
fn yoy_growth_option_rejects_missing_and_nonpositive() {
    assert_eq!(calculate_yoy_growth_option(None, Some(10000)), None);
    assert_eq!(calculate_yoy_growth_option(Some(10000), None), None);
    assert_eq!(calculate_yoy_growth_option(Some(0), Some(10000)), None);
    assert_eq!(calculate_yoy_growth_option(Some(10000), Some(0)), None);
    assert_eq!(calculate_yoy_growth_option(Some(-5), Some(10000)), None);
    assert_eq!(calculate_yoy_growth_option(Some(10000), Some(-5)), None);
    assert_eq!(calculate_yoy_growth_option(Some(11000), Some(10000)), Some(1000));
}

#[test]
fn ratio_zero_total_is_missing() {
    for v in [-100000i64, -1, 0, 1, 45, 100000] {
        assert_eq!(calculate_ratio(Some(v), 0), None);
    }
}

#[test]
fn ratio_negative_total_is_missing() {
    for v in [-100000i64, -1, 0, 1, 45, 100000] {
        assert_eq!(calculate_ratio(Some(v), -500), None);
    }
}

#[test]
fn ratio_option_missing_total_is_missing() {
    assert_eq!(calculate_ratio_option(Some(100), None), None);
    assert_eq!(calculate_ratio_option(Some(100), Some(-500)), None);
    assert_eq!(calculate_ratio_option(None, Some(500)), None);
}

#[test]
fn ratio_exact_values() {
    // 450 over 1000 is a ratio of 0.45
    assert_eq!(calculate_ratio(Some(45000), 100000), Some(45));
    // 50 over 400 is 0.125, rounded half away from zero to 0.13
    assert_eq!(calculate_ratio(Some(5000), 40000), Some(13));
    assert_eq!(calculate_ratio(None, 100000), None);
}

#[test]
fn ratio_as_pct_exact_values() {
    // 150 over 1000 is 15.00 percent
    assert_eq!(calculate_ratio_as_pct(Some(15000), 100000), Some(1500));
    assert_eq!(calculate_ratio_as_pct(Some(15000), 0), None);
    assert_eq!(calculate_ratio_as_pct(Some(15000), -1), None);
}

#[test]
fn margin_portion_exact() {
    // ten percent of 1000 is 100
    assert_eq!(calculate_margin_portion(Some(100000), Some(1000)), Some(10000));
    assert_eq!(calculate_margin_portion(None, Some(1000)), None);
    assert_eq!(calculate_margin_portion(Some(100000), None), None);
}

#[test]
fn per_share_exact() {
    // 133.30 over ten shares is 13.33 a share
    assert_eq!(calculate_per_share(Some(13330), Some(1000)), Some(1333));
    assert_eq!(calculate_per_share(Some(13330), Some(0)), None);
    assert_eq!(calculate_per_share(Some(13330), Some(-100)), None);
    assert_eq!(calculate_per_share(None, Some(1000)), None);
    assert_eq!(calculate_per_share(Some(13330), None), None);
}

#[test]
fn growth_adjustment_floor_value() {
    // the floor case (1.01^10 / 2.6 * 10 + 5) * 1.0 in eight-decimal fixed
    // point, every step rounded half away from zero
    assert_eq!(calculate_growth_adjustment_factor(0), 924854662);
}

#[test]
fn growth_adjustment_floor_covers_all_low_growth() {
    let floor = calculate_growth_adjustment_factor(0);
    assert_eq!(calculate_growth_adjustment_factor(100), floor);
    assert_eq!(calculate_growth_adjustment_factor(50), floor);
    assert_eq!(calculate_growth_adjustment_factor(-5000), floor);
    assert_eq!(calculate_growth_adjustment_factor(i64::MIN), floor);
}

#[test]
fn growth_adjustment_agrees_at_fifty_percent() {
    // at fifty percent the closed branch gives punishment 0.6 and adjusted
    // 1.5, exactly the values the open branch uses beyond fifty
    assert_eq!(
        calculate_growth_adjustment_factor(5000),
        calculate_growth_adjustment_factor(7500)
    );
    assert_eq!(
        calculate_growth_adjustment_factor(5000),
        calculate_growth_adjustment_factor(i64::MAX)
    );
}

#[test]
fn growth_adjustment_is_monotone_on_samples() {
    let lo = calculate_growth_adjustment_factor(500);
    let mid = calculate_growth_adjustment_factor(1500);
    let hi = calculate_growth_adjustment_factor(2000);
    assert!(lo < mid && mid < hi);
}

#[test]
fn price_target_matches_curve() {
    let factor = calculate_growth_adjustment_factor(911) as i128;
    let expected = round_div(1333 * factor, 100_000_000) as i64;
    assert_eq!(calculate_price_target(1333, 1111, 200), expected);
    assert_eq!(
        calculate_price_target_option(Some(1333), Some(1111), Some(200)),
        Some(expected)
    );
}

#[test]
fn price_target_option_missing_inputs() {
    assert_eq!(calculate_price_target_option(None, Some(1111), Some(200)), None);
    assert_eq!(calculate_price_target_option(Some(1333), None, Some(200)), None);
    assert_eq!(calculate_price_target_option(Some(1333), Some(1111), None), None);
}

#[test]
fn net_margin_factor_table() {
    assert_eq!(get_net_margin_factor("Airlines"), 2000);
    assert_eq!(get_net_margin_factor("Grocery Stores"), 900);
    assert_eq!(get_net_margin_factor("Department Stores"), 900);
    assert_eq!(get_net_margin_factor("Discount Stores"), 600);
    assert_eq!(get_net_margin_factor("Apparel Retail"), 500);
    assert_eq!(get_net_margin_factor("Footwear & Accessories"), 500);
    assert_eq!(get_net_margin_factor("Banks - Diversified"), 500);
    assert_eq!(get_net_margin_factor("Banks - Regional"), 500);
    assert_eq!(get_net_margin_factor("Internet Retail"), 350);
    assert_eq!(get_net_margin_factor("Specialty Retail"), 350);
    assert_eq!(get_net_margin_factor("Specialty Industrial Machinery"), 250);
    assert_eq!(get_net_margin_factor("Semiconductors"), 200);
    assert_eq!(get_net_margin_factor("Auto Manufacturers"), 200);
    assert_eq!(get_net_margin_factor("Consumer Electronics"), 200);
    assert_eq!(get_net_margin_factor("Electrical Equipment & Parts"), 200);
}

#[test]
fn net_margin_factor_default() {
    assert_eq!(get_net_margin_factor("Software - Infrastructure"), 300);
    assert_eq!(get_net_margin_factor(""), 300);
    assert_eq!(get_net_margin_factor("airlines"), 300);
}

#[test]
fn average_growth_exact() {
    assert_eq!(calculate_average_growth(vec![1000, 2000, 3000]), 2000);
    // 1.5 rounds half away from zero to 2
    assert_eq!(calculate_average_growth(vec![1, 2]), 2);
    assert_eq!(calculate_average_growth(vec![-1, -2]), -2);
}

#[test]
fn average_options_strict_poisoned_by_gap() {
    assert_eq!(average_options(&vec![Some(100), None, Some(300)], false), None);
    assert_eq!(average_options(&vec![Some(100), Some(300)], false), Some(200));
}

#[test]
fn average_options_ignore_skips_gaps() {
    assert_eq!(average_options(&vec![Some(100), None, Some(300)], true), Some(200));
    assert_eq!(average_options(&vec![None, None], true), None);
}

#[test]
fn average_options_empty_is_missing() {
    assert_eq!(average_options(&vec![], true), None);
    assert_eq!(average_options(&vec![], false), None);
}
