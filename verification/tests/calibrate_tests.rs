use vanity_search::calibrate::{build_report, calibrate, pow58_capped};
use vanity_search::config::GenerationMode;

#[test]
fn pow58_small_values() {
    assert_eq!(pow58_capped(0), 1);
    assert_eq!(pow58_capped(1), 58);
    assert_eq!(pow58_capped(2), 3364);
    assert_eq!(pow58_capped(5), 656_356_768);
}

#[test]
fn pow58_saturates() {
    // 58^22 no longer fits in 128 bits.
    assert_eq!(pow58_capped(100), u128::MAX);
    assert!(pow58_capped(21) < u128::MAX);
}

#[test]
fn report_formulas_are_exact() {
    // 1000 keys generated in one second on one lane, 4 lanes, a pattern of
    // length 5: 4000 keys/sec against a space of 58^5 = 656356768 keys.
    let r = build_report(1000, 1_000_000_000, 4, 5);
    assert_eq!(r.per_lane_rate, 1000);
    assert_eq!(r.total_rate, 4000);
    assert_eq!(r.pattern_length, 5);
    assert_eq!(r.best_case_secs, 0);
    assert_eq!(r.average_case_secs, 656_356_768 / 4000);
    assert_eq!(r.average_case_secs, 164_089);
    assert_eq!(r.p_high_case_secs, 5 * 164_089);
}

#[test]
fn report_clamps_degenerate_measurements() {
    // A zero elapsed time is treated as one nanosecond; a rate that rounds
    // to zero is clamped to one key per second.
    let r = build_report(1000, 0, 1, 1);
    assert_eq!(r.per_lane_rate, 1_000_000_000_000);
    let r = build_report(1, u64::MAX, 1, 1);
    assert_eq!(r.per_lane_rate, 1);
    assert_eq!(r.total_rate, 1);
    assert_eq!(r.best_case_secs, 1);
    assert_eq!(r.average_case_secs, 58);
}

#[test]
fn report_saturates_astronomical_estimates() {
    let r = build_report(1, u64::MAX, 1, 100);
    assert_eq!(r.total_rate, 1);
    assert_eq!(r.average_case_secs, u64::MAX);
    assert_eq!(r.p_high_case_secs, u64::MAX);
}

#[test]
fn total_rate_scales_linearly_and_average_shrinks() {
    let one = build_report(1000, 2_000_000_000, 1, 6);
    let four = build_report(1000, 2_000_000_000, 4, 6);
    assert_eq!(one.per_lane_rate, four.per_lane_rate);
    assert_eq!(four.total_rate, 4 * one.total_rate);
    assert!(four.average_case_secs <= one.average_case_secs);
    assert!(four.p_high_case_secs <= one.p_high_case_secs);
}

#[test]
fn calibrate_measures_and_projects() {
    let r = calibrate(GenerationMode::Raw, 3, 4);
    assert_eq!(r.pattern_length, 4);
    assert!(r.per_lane_rate >= 1);
    assert_eq!(r.total_rate, r.per_lane_rate as u128 * 3);
    assert!(r.best_case_secs <= 1);
}
