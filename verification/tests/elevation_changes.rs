//! The derived elevation gain/loss walk and its noise threshold.

use fitcore::elevation::calculate_elevation_changes;

/// Whole meters expressed in micro-meters.
fn m(x: i64) -> i64 {
    x * 1_000_000
}

#[test]
fn fewer_than_two_samples_yield_absence() {
    assert_eq!(calculate_elevation_changes(&vec![]), (None, None));
    assert_eq!(calculate_elevation_changes(&vec![m(100)]), (None, None));
}

#[test]
fn gain_and_loss_follow_the_strict_threshold() {
    // Steps: +3.0 (gain), -3.0 (loss), -5.0 (loss), +0.5 (noise).
    let alts = vec![m(100), m(103), m(100), m(95), 95_500_000];
    let (gain, loss) = calculate_elevation_changes(&alts);
    assert_eq!(gain, Some(m(3)));
    assert_eq!(loss, Some(m(8)));
}

#[test]
fn steps_exactly_at_the_threshold_are_noise() {
    let alts = vec![m(100), m(102), m(100)];
    let (gain, loss) = calculate_elevation_changes(&alts);
    assert_eq!(gain, Some(0));
    assert_eq!(loss, Some(0));
}

#[test]
fn flat_series_yields_zero_not_absence() {
    let alts = vec![m(100), m(100), m(100)];
    assert_eq!(calculate_elevation_changes(&alts), (Some(0), Some(0)));
}
