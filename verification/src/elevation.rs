//! Elevation gain and loss derived from a raw altitude series, with
//! noise suppression: only steps strictly larger than a fixed threshold
//! count.

use vstd::prelude::*;

verus! {

/// Minimum altitude step, in micro-meters, that counts as real elevation
/// change; smaller steps are treated as sensor noise.
pub const ELEVATION_THRESHOLD_MICRO: i64 = 2_000_000;

/// Total elevation gain of an altitude series, in micro-meters: the sum of
/// all successive differences strictly greater than the threshold.
pub open spec fn spec_elevation_gain(alts: Seq<i64>) -> int
    decreases alts.len(),
{
    if alts.len() < 2 {
        0
    } else {
        let d = alts.last() - alts[alts.len() - 2];
        spec_elevation_gain(alts.drop_last()) + if d > ELEVATION_THRESHOLD_MICRO {
            d
        } else {
            0
        }
    }
}

/// Total elevation loss of an altitude series, in micro-meters: the sum of
/// the magnitudes of all successive differences strictly below the negated
/// threshold.
pub open spec fn spec_elevation_loss(alts: Seq<i64>) -> int
    decreases alts.len(),
{
    if alts.len() < 2 {
        0
    } else {
        let d = alts.last() - alts[alts.len() - 2];
        spec_elevation_loss(alts.drop_last()) + if d < -ELEVATION_THRESHOLD_MICRO {
            -d
        } else {
            0
        }
    }
}

/// Clamp a nonnegative total into the representable range.
pub open spec fn spec_sat_i64(x: int) -> i64 {
    if x > i64::MAX {
        i64::MAX
    } else {
        x as i64
    }
}

/// Elevation gain and loss of an altitude series: absent (not zero) when
/// fewer than two samples exist, so that "no data" stays distinct from "no
/// elevation change".
pub open spec fn spec_elevation_changes(alts: Seq<i64>) -> (Option<i64>, Option<i64>) {
    if alts.len() < 2 {
        (None, None)
    } else {
        (
            Some(spec_sat_i64(spec_elevation_gain(alts))),
            Some(spec_sat_i64(spec_elevation_loss(alts))),
        )
    }
}

pub proof fn lemma_elevation_nonneg(alts: Seq<i64>)
    ensures
        spec_elevation_gain(alts) >= 0,
        spec_elevation_loss(alts) >= 0,
    decreases alts.len(),
{
    if alts.len() >= 2 {
        lemma_elevation_nonneg(alts.drop_last());
    }
}

/// Compute elevation gain and loss, in micro-meters, from a raw altitude
/// series in micro-meters. Steps of magnitude up to the threshold are
/// ignored as noise; with fewer than two samples both results are absent.
pub fn calculate_elevation_changes(altitudes: &Vec<i64>) -> (r: (Option<i64>, Option<i64>))
    ensures
        r == spec_elevation_changes(altitudes@),
{
    if altitudes.len() < 2 {
        return (None, None);
    }
    let ghost all = altitudes@;
    let mut gain: i64 = 0;
    let mut loss: i64 = 0;
    let mut i: usize = 1;
    proof {
        assert(all.take(1).len() < 2);
    }
    while i < altitudes.len()
        invariant
            1 <= i <= altitudes.len(),
            all == altitudes@,
            gain == spec_sat_i64(spec_elevation_gain(all.take(i as int))),
            loss == spec_sat_i64(spec_elevation_loss(all.take(i as int))),
        decreases altitudes.len() - i,
    {
        let ghost prefix = all.take(i as int);
        let ghost next = all.take(i as int + 1);
        proof {
            assert(next.drop_last() =~= prefix);
            lemma_elevation_nonneg(prefix);
            lemma_elevation_nonneg(next);
        }
        let d: i128 = altitudes[i] as i128 - altitudes[i - 1] as i128;
        if d > ELEVATION_THRESHOLD_MICRO as i128 {
            if (i64::MAX - gain) as i128 >= d {
                gain = ((gain as i128) + d) as i64;
            } else {
                gain = i64::MAX;
            }
        } else if d < -(ELEVATION_THRESHOLD_MICRO as i128) {
            let m = -d;
            if (i64::MAX - loss) as i128 >= m {
                loss = ((loss as i128) + m) as i64;
            } else {
                loss = i64::MAX;
            }
        }
        i = i + 1;
    }
    proof {
        assert(all.take(all.len() as int) =~= all);
    }
    (Some(gain), Some(loss))
}

} // verus!
