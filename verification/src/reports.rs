//! Report data types filled by the storage layer's aggregation queries, and
//! the activity-streak walk over distinct workout days.

use vstd::prelude::*;

verus! {

/// Current run of consecutive active days, plus the number of distinct
/// active days over the last year.
#[derive(Debug, Clone, PartialEq)]
pub struct StreakInfo {
    pub current_streak: i64,
    pub active_days: i64,
}

/// One day of the contribution calendar: its date label, how many workouts
/// it holds and their types.
#[derive(Debug, Clone, PartialEq)]
pub struct ContributionDay {
    pub date: String,
    pub count: i64,
    pub workout_types: Vec<String>,
}

/// One week of the weekly activity summary: its week label and how many
/// workouts it holds.
#[derive(Debug, Clone, PartialEq)]
pub struct WeeklySummary {
    pub week: String,
    pub count: i64,
}

/// The streak walk: given distinct workout day numbers, most recent first,
/// count how many match the expected day, stepping the expectation back one
/// day per match; a day older than expected ends the walk, a more recent
/// one is passed over.
pub open spec fn spec_streak_walk(days: Seq<i64>, expected: int) -> int
    decreases days.len(),
{
    if days.len() == 0 {
        0
    } else if days[0] == expected {
        1 + spec_streak_walk(days.drop_first(), expected - 1)
    } else if days[0] < expected {
        0
    } else {
        spec_streak_walk(days.drop_first(), expected)
    }
}

/// The current streak: zero unless the most recent workout day is today or
/// yesterday, else the streak walk starting from that day.
pub open spec fn spec_current_streak(days: Seq<i64>, today: i64) -> int {
    if days.len() == 0 {
        0
    } else if days[0] == today {
        spec_streak_walk(days, today as int)
    } else if days[0] == today - 1 {
        spec_streak_walk(days, today - 1)
    } else {
        0
    }
}

/// Count the current streak of consecutive active days. `days` holds the
/// distinct workout days as day numbers, most recent first; `today` is the
/// current day number. A streak counts only while it is still active, that
/// is, when the most recent workout fell today or yesterday.
pub fn current_streak(days: &Vec<i64>, today: i64) -> (r: u64)
    ensures
        r == spec_current_streak(days@, today),
{
    if days.len() == 0 {
        return 0;
    }
    let first = days[0];
    let mut expected: i128 = if first == today {
        today as i128
    } else if first as i128 == today as i128 - 1 {
        today as i128 - 1
    } else {
        return 0;
    };
    proof {
        assert(days@.skip(0) =~= days@);
    }
    let ghost total = spec_current_streak(days@, today);
    let mut count: u64 = 0;
    let mut j: usize = 0;
    while j < days.len()
        invariant
            j <= days.len(),
            count <= j,
            expected >= today as i128 - 1 - j as i128,
            expected <= today as i128,
            total == spec_current_streak(days@, today),
            count + spec_streak_walk(days@.skip(j as int), expected as int) == total,
        decreases days.len() - j,
    {
        proof {
            assert(days@.skip(j as int)[0] == days@[j as int]);
            assert(days@.skip(j as int).drop_first() =~= days@.skip(j as int + 1));
        }
        let d = days[j];
        if d as i128 == expected {
            count = count + 1;
            expected = expected - 1;
        } else if (d as i128) < expected {
            return count;
        }
        j = j + 1;
    }
    proof {
        assert(days@.skip(days.len() as int) =~= Seq::<i64>::empty());
    }
    count
}

} // verus!
