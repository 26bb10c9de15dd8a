//! Rendering of absolute timestamps (seconds since the UNIX epoch) in the
//! RFC 3339 textual form, backed by chrono's calendar arithmetic.

use vstd::prelude::*;

use chrono::TimeZone;

verus! {

/// The RFC 3339 rendering in UTC of a timestamp in seconds since the UNIX
/// epoch, absent when the instant lies outside the calendar's range. The
/// calendar computation is well beyond stating here; the contracts only rely
/// on it being a function of the seconds value.
pub uninterp spec fn rfc3339_of(secs: i64) -> Option<Seq<char>>;

/// Relies on chrono's `TimeZone::timestamp_opt` for `Utc` and
/// `DateTime::to_rfc3339`: the RFC 3339 rendering of the instant `secs`
/// seconds after the UNIX epoch, in UTC, absent exactly when the instant is
/// outside chrono's representable range; determined by `secs` alone.
#[verifier::external_body]
fn render_rfc3339(secs: i64) -> (r: Option<String>)
    ensures
        match r {
            Some(s) => rfc3339_of(secs) == Some(s@),
            None => rfc3339_of(secs) is None,
        },
{
    match chrono::Utc.timestamp_opt(secs, 0).single() {
        Some(dt) => Some(dt.to_rfc3339()),
        None => None,
    }
}

/// The rendering of an optional timestamp: absent when the timestamp is
/// absent or unrepresentable.
pub open spec fn spec_render_opt_timestamp(ts: Option<i64>) -> Option<Seq<char>> {
    match ts {
        Some(t) => rfc3339_of(t),
        None => None,
    }
}

/// Render an optional timestamp in RFC 3339 form, in UTC.
pub fn render_opt_timestamp(ts: Option<i64>) -> (r: Option<String>)
    ensures
        r.deep_view() == spec_render_opt_timestamp(ts),
{
    match ts {
        Some(t) => render_rfc3339(t),
        None => None,
    }
}

} // verus!
