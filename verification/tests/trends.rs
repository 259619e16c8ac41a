//! Trend classification: short-term sliding labels, long-term split-half
//! labels, and the aggregate reduction.
use bullseye_metrics::calculate::{
    calculate_long_term_trend, calculate_long_term_trend_option, calculate_short_term_trend,
    calculate_short_term_trend_option, concat_trend,
};
use bullseye_metrics::metrics::{get_long_term_trend, get_short_term_trend_option};
use bullseye_metrics::trend::Trend;

#[test]
fn short_series_is_irrelevant() {
    // fewer than length + 4 periods: one single Irrelevant label
    let vals = vec![100, 200, 300, 400, 500, 600, 700];
    assert_eq!(
        calculate_short_term_trend(&vals, 4, 50),
        vec![Trend::Irrelevant]
    );
    assert_eq!(calculate_short_term_trend(&vec![], 0, 50), vec![Trend::Irrelevant]);
}

#[test]
fn short_series_is_irrelevant_option() {
    let vals = vec![Some(100), Some(200), None, Some(400), Some(500), Some(600), Some(700)];
    assert_eq!(
        calculate_short_term_trend_option(&vals, 4, true, 50),
        vec![Trend::Irrelevant]
    );
}

#[test]
fn short_term_labels_against_sliding_baseline() {
    // most recent first; each label compares a value to the mean of the
    // four periods after it
    let vals = vec![1000, 500, 500, 500, 500, 500, 500, 500];
    assert_eq!(
        calculate_short_term_trend(&vals, 4, 100),
        vec![Trend::Uptrend, Trend::Flat, Trend::Flat, Trend::Flat]
    );
    let falling = vec![100, 500, 500, 500, 500, 500, 500, 500];
    assert_eq!(
        calculate_short_term_trend(&falling, 4, 100),
        vec![Trend::Downtrend, Trend::Flat, Trend::Flat, Trend::Flat]
    );
}

#[test]
fn short_term_option_missing_value_is_irrelevant() {
    let vals = vec![None, Some(500), Some(500), Some(500), Some(500), Some(500), Some(500), Some(
        500,
    )];
    assert_eq!(
        calculate_short_term_trend_option(&vals, 4, true, 100),
        vec![Trend::Irrelevant, Trend::Flat, Trend::Flat, Trend::Flat]
    );
}

#[test]
fn short_term_option_strict_baseline_gap() {
    // under the strict policy one gap in the baseline window poisons it
    let vals = vec![Some(1000), None, Some(500), Some(500), Some(500), Some(500), Some(500), Some(
        500,
    )];
    let labels = calculate_short_term_trend_option(&vals, 4, false, 100);
    assert_eq!(labels[0], Trend::Irrelevant);
    // with ignore-missing the remaining three values still give a mean
    let labels2 = calculate_short_term_trend_option(&vals, 4, true, 100);
    assert_eq!(labels2[0], Trend::Uptrend);
}

#[test]
fn concat_trend_dominant_up() {
    let v = vec![Trend::Uptrend, Trend::Uptrend, Trend::Uptrend, Trend::Downtrend];
    assert_eq!(concat_trend(v, 2), Trend::Uptrend);
}

#[test]
fn concat_trend_tie_is_flat() {
    let v = vec![Trend::Uptrend, Trend::Downtrend];
    assert_eq!(concat_trend(v, 2), Trend::Flat);
}

#[test]
fn concat_trend_flat_count() {
    let v = vec![Trend::Flat, Trend::Flat, Trend::Irrelevant];
    assert_eq!(concat_trend(v, 2), Trend::Flat);
}

#[test]
fn concat_trend_dominant_down() {
    let v = vec![Trend::Downtrend, Trend::Downtrend, Trend::Uptrend];
    assert_eq!(concat_trend(v, 2), Trend::Downtrend);
}

#[test]
fn concat_trend_nothing_dominates() {
    let v = vec![Trend::Uptrend, Trend::Irrelevant, Trend::Irrelevant];
    assert_eq!(concat_trend(v, 2), Trend::Irrelevant);
}

#[test]
fn long_term_split_half() {
    // new half mean 10, old half mean 5: up at threshold 1, flat at 10
    let vals = vec![1000, 1000, 500, 500];
    assert_eq!(calculate_long_term_trend(&vals, 100), Trend::Uptrend);
    assert_eq!(calculate_long_term_trend(&vals, 1000), Trend::Flat);
}

#[test]
fn long_term_downtrend() {
    let vals = vec![500, 500, 1000, 1000];
    assert_eq!(calculate_long_term_trend(&vals, 100), Trend::Downtrend);
}

#[test]
fn long_term_short_series_is_irrelevant() {
    assert_eq!(calculate_long_term_trend(&vec![1000], 100), Trend::Irrelevant);
    assert_eq!(calculate_long_term_trend(&vec![], 100), Trend::Irrelevant);
}

#[test]
fn long_term_odd_length_extra_goes_to_old_half() {
    // [9, 6, 3]: the new half is [9], the old half [6, 3] with mean 4.5
    let vals = vec![900, 600, 300];
    assert_eq!(calculate_long_term_trend(&vals, 100), Trend::Uptrend);
    // 9 - 4.5 = 4.5, just meeting a flat threshold of 4.5
    assert_eq!(calculate_long_term_trend(&vals, 450), Trend::Uptrend);
    assert_eq!(calculate_long_term_trend(&vals, 451), Trend::Flat);
}

#[test]
fn long_term_option_strict_gap_is_irrelevant() {
    let vals = vec![Some(1000), None, Some(500), Some(500)];
    assert_eq!(
        calculate_long_term_trend_option(&vals, false, 100),
        Trend::Irrelevant
    );
    assert_eq!(
        calculate_long_term_trend_option(&vals, true, 100),
        Trend::Uptrend
    );
}

#[test]
fn composed_short_term_trend() {
    let vals = vec![Some(1000), Some(900), Some(500), Some(500), Some(500), Some(500), Some(500),
        Some(500)];
    // labels: Up, Up, Flat, Flat -> two uptrends meet the threshold
    assert_eq!(get_short_term_trend_option(&vals, 4, true, 100, 2), Trend::Uptrend);
}

#[test]
fn composed_long_term_trend() {
    let vals = vec![1000, 1000, 500, 500];
    assert_eq!(get_long_term_trend(&vals, 100), Trend::Uptrend);
}

#[test]
fn trend_storage_codec_round_trip() {
    for t in [Trend::Uptrend, Trend::Downtrend, Trend::Flat, Trend::Irrelevant] {
        assert_eq!(Trend::from_storage_str(t.to_storage_str()), Some(t));
    }
    assert_eq!(Trend::to_storage_str(&Trend::Uptrend), "up");
    assert_eq!(Trend::to_storage_str(&Trend::Downtrend), "down");
    assert_eq!(Trend::to_storage_str(&Trend::Flat), "flat");
    assert_eq!(Trend::to_storage_str(&Trend::Irrelevant), "irrelevant");
    assert_eq!(Trend::from_storage_str("sideways"), None);
    assert_eq!(Trend::from_storage_str(""), None);
}
