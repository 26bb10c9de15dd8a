//! The activity-streak walk over distinct workout days.

use fitcore::reports::current_streak;

#[test]
fn empty_history_has_no_streak() {
    assert_eq!(current_streak(&vec![], 20000), 0);
}

#[test]
fn streak_counts_consecutive_days_from_today() {
    assert_eq!(current_streak(&vec![20000, 19999, 19998], 20000), 3);
}

#[test]
fn streak_may_start_yesterday() {
    assert_eq!(current_streak(&vec![19999, 19998], 20000), 2);
}

#[test]
fn stale_history_has_no_streak() {
    assert_eq!(current_streak(&vec![19997, 19996], 20000), 0);
}

#[test]
fn a_gap_ends_the_streak() {
    assert_eq!(current_streak(&vec![20000, 19999, 19997], 20000), 2);
}

#[test]
fn repeated_days_are_passed_over() {
    assert_eq!(current_streak(&vec![20000, 20000, 19999], 20000), 2);
}
