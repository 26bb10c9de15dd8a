//! The message dispatcher and per-kind extractors: a single ordered pass
//! over the decoded message stream, folded into the normalized workout
//! record.

use vstd::prelude::*;

use crate::elevation::{calculate_elevation_changes, spec_elevation_changes};
use crate::identity::{compute_file_hash, spec_content_hash};
use crate::message::{DecodedMessage, FieldV, MessageV, get_field_value, spec_field_lookup};
use crate::samples::{
    ChartData, ChartDataV, GpsPoint, GpsPointV, SensorPoint, SensorPointV, build_chart_data,
    spec_chart_data, spec_gps_valid,
};
use crate::sport::{spec_sport_name, sport_to_string};
use crate::text::{lower_of, lowercase};
use crate::timefmt::{render_opt_timestamp, spec_render_opt_timestamp};
use crate::values::{
    TypedValue, ValueV, semicircles_to_microdeg, micro_to_seconds, spec_micro_to_seconds,
    spec_semicircles_to_microdeg, spec_value_to_i64, spec_value_to_micro,
    spec_value_to_timestamp, value_to_i64, value_to_micro, value_to_timestamp,
};

verus! {

// ---------------------------------------------------------------------------
// Field update combinators: the precedence and fallback rules, one value at
// a time.
// ---------------------------------------------------------------------------
/// Present field assigned through the integer coercion; a present but
/// non-coercible value clears the slot, an absent field keeps it.
pub open spec fn spec_assign_int(cur: Option<i64>, fields: Seq<FieldV>, name: Seq<char>) -> Option<
    i64,
> {
    match spec_field_lookup(fields, name) {
        Some(v) => spec_value_to_i64(v),
        None => cur,
    }
}

/// Present field assigned through the fixed-point coercion; a present but
/// non-coercible value clears the slot, an absent field keeps it.
pub open spec fn spec_assign_micro(
    cur: Option<i64>,
    fields: Seq<FieldV>,
    name: Seq<char>,
) -> Option<i64> {
    match spec_field_lookup(fields, name) {
        Some(v) => spec_value_to_micro(v),
        None => cur,
    }
}

/// Slot set only when the field is present and coerces to a fixed-point
/// real; kept otherwise.
pub open spec fn spec_set_micro(cur: Option<i64>, fields: Seq<FieldV>, name: Seq<char>) -> Option<
    i64,
> {
    match spec_field_lookup(fields, name) {
        Some(v) => match spec_value_to_micro(v) {
            Some(x) => Some(x),
            None => cur,
        },
        None => cur,
    }
}

/// Slot set only when the field is present and coerces to a timestamp; kept
/// otherwise.
pub open spec fn spec_set_ts(cur: Option<i64>, fields: Seq<FieldV>, name: Seq<char>) -> Option<
    i64,
> {
    match spec_field_lookup(fields, name) {
        Some(v) => match spec_value_to_timestamp(v) {
            Some(t) => Some(t),
            None => cur,
        },
        None => cur,
    }
}

/// Slot set to whole seconds only when the field is present and coerces to a
/// fixed-point duration; kept otherwise.
pub open spec fn spec_set_seconds(cur: Option<i64>, fields: Seq<FieldV>, name: Seq<char>) -> Option<
    i64,
> {
    match spec_field_lookup(fields, name) {
        Some(v) => match spec_value_to_micro(v) {
            Some(m) => Some(spec_micro_to_seconds(m)),
            None => cur,
        },
        None => cur,
    }
}

/// The workout-type label carried by a sport-typed value: text is
/// lower-cased, a numeric code goes through the fixed sport table.
pub open spec fn spec_sport_label(v: ValueV) -> Option<Seq<char>> {
    match v {
        ValueV::Text(s) => Some(lower_of(s)),
        ValueV::UInt8(n) => Some(spec_sport_name(n)),
        _ => None,
    }
}

/// Workout type set only when the field is present and carries a usable
/// sport value; kept otherwise.
pub open spec fn spec_set_sport(
    cur: Option<Seq<char>>,
    fields: Seq<FieldV>,
    name: Seq<char>,
) -> Option<Seq<char>> {
    match spec_field_lookup(fields, name) {
        Some(v) => match spec_sport_label(v) {
            Some(l) => Some(l),
            None => cur,
        },
        None => cur,
    }
}

/// The coerced fixed-point value of a field, absent when the field is absent
/// or non-coercible.
pub open spec fn spec_coerced_micro(fields: Seq<FieldV>, name: Seq<char>) -> Option<i64> {
    match spec_field_lookup(fields, name) {
        Some(v) => spec_value_to_micro(v),
        None => None,
    }
}

// ---------------------------------------------------------------------------
// The in-progress accumulator state.
// ---------------------------------------------------------------------------
/// Mathematical model of a [`ParseState`].
#[verifier::ext_equal]
pub struct StateV {
    pub workout_type: Option<Seq<char>>,
    pub start_time: Option<i64>,
    pub end_time: Option<i64>,
    pub duration_seconds: Option<i64>,
    pub distance_meters: Option<i64>,
    pub total_calories: Option<i64>,
    pub avg_heart_rate: Option<i64>,
    pub max_heart_rate: Option<i64>,
    pub avg_power: Option<i64>,
    pub max_power: Option<i64>,
    pub avg_cadence: Option<i64>,
    pub max_cadence: Option<i64>,
    pub avg_speed: Option<i64>,
    pub max_speed: Option<i64>,
    pub elevation_gain: Option<i64>,
    pub elevation_loss: Option<i64>,
    pub gps_data: Seq<GpsPointV>,
    pub sensor_data: Seq<SensorPointV>,
    pub altitudes: Seq<i64>,
}

/// The accumulator threaded through the single pass over the message
/// stream. Real-valued summary fields are in micro-units; timestamps in
/// seconds since the UNIX epoch.
pub struct ParseState {
    pub workout_type: Option<String>,
    pub start_time: Option<i64>,
    pub end_time: Option<i64>,
    pub duration_seconds: Option<i64>,
    pub distance_meters: Option<i64>,
    pub total_calories: Option<i64>,
    pub avg_heart_rate: Option<i64>,
    pub max_heart_rate: Option<i64>,
    pub avg_power: Option<i64>,
    pub max_power: Option<i64>,
    pub avg_cadence: Option<i64>,
    pub max_cadence: Option<i64>,
    pub avg_speed: Option<i64>,
    pub max_speed: Option<i64>,
    pub elevation_gain: Option<i64>,
    pub elevation_loss: Option<i64>,
    pub gps_data: Vec<GpsPoint>,
    pub sensor_data: Vec<SensorPoint>,
    pub altitudes: Vec<i64>,
}

impl View for ParseState {
    type V = StateV;

    open spec fn view(&self) -> StateV {
        StateV {
            workout_type: self.workout_type.deep_view(),
            start_time: self.start_time,
            end_time: self.end_time,
            duration_seconds: self.duration_seconds,
            distance_meters: self.distance_meters,
            total_calories: self.total_calories,
            avg_heart_rate: self.avg_heart_rate,
            max_heart_rate: self.max_heart_rate,
            avg_power: self.avg_power,
            max_power: self.max_power,
            avg_cadence: self.avg_cadence,
            max_cadence: self.max_cadence,
            avg_speed: self.avg_speed,
            max_speed: self.max_speed,
            elevation_gain: self.elevation_gain,
            elevation_loss: self.elevation_loss,
            gps_data: self.gps_data.deep_view(),
            sensor_data: self.sensor_data.deep_view(),
            altitudes: self.altitudes@,
        }
    }
}

/// The state before any message has been seen: every summary field absent
/// and every series empty.
pub open spec fn spec_init_state() -> StateV {
    StateV {
        workout_type: None,
        start_time: None,
        end_time: None,
        duration_seconds: None,
        distance_meters: None,
        total_calories: None,
        avg_heart_rate: None,
        max_heart_rate: None,
        avg_power: None,
        max_power: None,
        avg_cadence: None,
        max_cadence: None,
        avg_speed: None,
        max_speed: None,
        elevation_gain: None,
        elevation_loss: None,
        gps_data: Seq::empty(),
        sensor_data: Seq::empty(),
        altitudes: Seq::empty(),
    }
}

impl ParseState {
    /// A fresh accumulator.
    pub fn new() -> (s: ParseState)
        ensures
            s@ == spec_init_state(),
    {
        let s = ParseState {
            workout_type: None,
            start_time: None,
            end_time: None,
            duration_seconds: None,
            distance_meters: None,
            total_calories: None,
            avg_heart_rate: None,
            max_heart_rate: None,
            avg_power: None,
            max_power: None,
            avg_cadence: None,
            max_cadence: None,
            avg_speed: None,
            max_speed: None,
            elevation_gain: None,
            elevation_loss: None,
            gps_data: Vec::new(),
            sensor_data: Vec::new(),
            altitudes: Vec::new(),
        };
        proof {
            assert(s.gps_data.deep_view() =~= Seq::<GpsPointV>::empty());
            assert(s.sensor_data.deep_view() =~= Seq::<SensorPointV>::empty());
            assert(s@ =~= spec_init_state());
        }
        s
    }
}

// ---------------------------------------------------------------------------
// Per-kind step functions and their executable extractors.
// ---------------------------------------------------------------------------
/// Effect of a `sport` message: the workout type taken from its `sport`
/// field, overriding any earlier label.
pub open spec fn spec_sport_step(s: StateV, fields: Seq<FieldV>) -> StateV {
    StateV { workout_type: spec_set_sport(s.workout_type, fields, "sport"@), ..s }
}

/// Effect of a `session` message on the summary fields: primary sources
/// assign directly, enhanced speed fields apply only where the plain ones
/// left nothing, and the workout type is only a fallback for an earlier
/// `sport` message.
pub open spec fn spec_session_step(s: StateV, fields: Seq<FieldV>) -> StateV {
    let wt = if s.workout_type is Some {
        s.workout_type
    } else {
        spec_set_sport(s.workout_type, fields, "sport"@)
    };
    let dur0 = spec_set_seconds(s.duration_seconds, fields, "total_elapsed_time"@);
    let dur = if dur0 is None {
        spec_set_seconds(None, fields, "total_timer_time"@)
    } else {
        dur0
    };
    let asp0 = spec_assign_micro(s.avg_speed, fields, "avg_speed"@);
    let asp = if asp0 is None {
        spec_assign_micro(None, fields, "enhanced_avg_speed"@)
    } else {
        asp0
    };
    let msp0 = spec_assign_micro(s.max_speed, fields, "max_speed"@);
    let msp = if msp0 is None {
        spec_assign_micro(None, fields, "enhanced_max_speed"@)
    } else {
        msp0
    };
    StateV {
        workout_type: wt,
        start_time: spec_set_ts(s.start_time, fields, "start_time"@),
        end_time: spec_set_ts(s.end_time, fields, "timestamp"@),
        duration_seconds: dur,
        distance_meters: spec_set_micro(s.distance_meters, fields, "total_distance"@),
        total_calories: spec_assign_int(s.total_calories, fields, "total_calories"@),
        avg_heart_rate: spec_assign_int(s.avg_heart_rate, fields, "avg_heart_rate"@),
        max_heart_rate: spec_assign_int(s.max_heart_rate, fields, "max_heart_rate"@),
        avg_power: spec_assign_int(s.avg_power, fields, "avg_power"@),
        max_power: spec_assign_int(s.max_power, fields, "max_power"@),
        avg_cadence: spec_assign_int(s.avg_cadence, fields, "avg_cadence"@),
        max_cadence: spec_assign_int(s.max_cadence, fields, "max_cadence"@),
        avg_speed: asp,
        max_speed: msp,
        elevation_gain: spec_assign_micro(s.elevation_gain, fields, "total_ascent"@),
        elevation_loss: spec_assign_micro(s.elevation_loss, fields, "total_descent"@),
        ..s
    }
}

/// The rendered timestamp of a record message, if its `timestamp` field
/// coerces and the instant is representable.
pub open spec fn spec_record_ts(fields: Seq<FieldV>) -> Option<Seq<char>> {
    match spec_field_lookup(fields, "timestamp"@) {
        Some(v) => spec_render_opt_timestamp(spec_value_to_timestamp(v)),
        None => None,
    }
}

/// A coordinate of a record message: the canonical integer of the field,
/// reinterpreted as 32-bit semicircles and converted to micro-degrees.
pub open spec fn spec_record_coord(fields: Seq<FieldV>, name: Seq<char>) -> Option<i64> {
    match spec_field_lookup(fields, name) {
        Some(v) => match spec_value_to_i64(v) {
            Some(x) => Some(spec_semicircles_to_microdeg(x as i32)),
            None => None,
        },
        None => None,
    }
}

/// A fixed-point field with a fallback name, tried only when the primary
/// field is absent altogether.
pub open spec fn spec_micro_with_fallback(
    fields: Seq<FieldV>,
    name: Seq<char>,
    fallback: Seq<char>,
) -> Option<i64> {
    match spec_field_lookup(fields, name) {
        Some(v) => spec_value_to_micro(v),
        None => spec_coerced_micro(fields, fallback),
    }
}

/// The canonical integer of a field, absent when the field is absent or
/// non-coercible.
pub open spec fn spec_coerced_int(fields: Seq<FieldV>, name: Seq<char>) -> Option<i64> {
    match spec_field_lookup(fields, name) {
        Some(v) => spec_value_to_i64(v),
        None => None,
    }
}

/// The sensor sample a record message yields: one per record, every field
/// independently optional.
pub open spec fn spec_record_sensor(fields: Seq<FieldV>) -> SensorPointV {
    SensorPointV {
        timestamp: spec_record_ts(fields),
        heart_rate: spec_coerced_int(fields, "heart_rate"@),
        power: spec_coerced_int(fields, "power"@),
        cadence: spec_coerced_int(fields, "cadence"@),
        speed: spec_micro_with_fallback(fields, "speed"@, "enhanced_speed"@),
        distance: spec_coerced_micro(fields, "distance"@),
        altitude: spec_micro_with_fallback(fields, "altitude"@, "enhanced_altitude"@),
    }
}

/// Effect of a `record` message: at most one validated GPS sample, exactly
/// one sensor sample, and its altitude - when present - appended to the raw
/// altitude series.
pub open spec fn spec_record_step(s: StateV, fields: Seq<FieldV>) -> StateV {
    let ts = spec_record_ts(fields);
    let lat = spec_record_coord(fields, "position_lat"@);
    let lon = spec_record_coord(fields, "position_long"@);
    let altitude = spec_micro_with_fallback(fields, "altitude"@, "enhanced_altitude"@);
    let gps = if lat is Some && lon is Some && spec_gps_valid(lat.unwrap(), lon.unwrap()) {
        s.gps_data.push(
            GpsPointV { timestamp: ts, lat: lat.unwrap(), lon: lon.unwrap(), altitude },
        )
    } else {
        s.gps_data
    };
    let alts = match altitude {
        Some(a) => s.altitudes.push(a),
        None => s.altitudes,
    };
    StateV {
        gps_data: gps,
        sensor_data: s.sensor_data.push(spec_record_sensor(fields)),
        altitudes: alts,
        ..s
    }
}

/// Effect of an `activity` message: only a last-resort workout type from its
/// `type` field.
pub open spec fn spec_activity_step(s: StateV, fields: Seq<FieldV>) -> StateV {
    if s.workout_type is Some {
        s
    } else {
        StateV { workout_type: spec_set_sport(s.workout_type, fields, "type"@), ..s }
    }
}

/// Effect of a `lap` message: only a fallback start time when the session
/// never set one.
pub open spec fn spec_lap_step(s: StateV, fields: Seq<FieldV>) -> StateV {
    if s.start_time is Some {
        s
    } else {
        StateV { start_time: spec_set_ts(s.start_time, fields, "start_time"@), ..s }
    }
}

/// Effect of one message on the state, routed by its kind tag; unknown kinds
/// change nothing.
pub open spec fn spec_step_state(s: StateV, m: MessageV) -> StateV {
    if m.kind == "sport"@ {
        spec_sport_step(s, m.fields)
    } else if m.kind == "session"@ {
        spec_session_step(s, m.fields)
    } else if m.kind == "record"@ {
        spec_record_step(s, m.fields)
    } else if m.kind == "activity"@ {
        spec_activity_step(s, m.fields)
    } else if m.kind == "lap"@ {
        spec_lap_step(s, m.fields)
    } else {
        s
    }
}

/// The state after the whole stream, folded in order from the initial
/// state.
pub open spec fn spec_fold_state(msgs: Seq<MessageV>) -> StateV
    decreases msgs.len(),
{
    if msgs.len() == 0 {
        spec_init_state()
    } else {
        spec_step_state(spec_fold_state(msgs.drop_last()), msgs.last())
    }
}

// ---------------------------------------------------------------------------
// Executable combinators.
// ---------------------------------------------------------------------------
fn upd_assign_int(cur: Option<i64>, msg: &DecodedMessage, name: &str) -> (r: Option<i64>)
    ensures
        r == spec_assign_int(cur, msg@.fields, name@),
{
    let n = String::from_str(name);
    match get_field_value(msg, &n) {
        Some(v) => value_to_i64(v),
        None => cur,
    }
}

fn upd_assign_micro(cur: Option<i64>, msg: &DecodedMessage, name: &str) -> (r: Option<i64>)
    ensures
        r == spec_assign_micro(cur, msg@.fields, name@),
{
    let n = String::from_str(name);
    match get_field_value(msg, &n) {
        Some(v) => value_to_micro(v),
        None => cur,
    }
}

fn upd_set_micro(cur: Option<i64>, msg: &DecodedMessage, name: &str) -> (r: Option<i64>)
    ensures
        r == spec_set_micro(cur, msg@.fields, name@),
{
    let n = String::from_str(name);
    match get_field_value(msg, &n) {
        Some(v) => match value_to_micro(v) {
            Some(x) => Some(x),
            None => cur,
        },
        None => cur,
    }
}

fn upd_set_ts(cur: Option<i64>, msg: &DecodedMessage, name: &str) -> (r: Option<i64>)
    ensures
        r == spec_set_ts(cur, msg@.fields, name@),
{
    let n = String::from_str(name);
    match get_field_value(msg, &n) {
        Some(v) => match value_to_timestamp(v) {
            Some(t) => Some(t),
            None => cur,
        },
        None => cur,
    }
}

fn upd_set_seconds(cur: Option<i64>, msg: &DecodedMessage, name: &str) -> (r: Option<i64>)
    ensures
        r == spec_set_seconds(cur, msg@.fields, name@),
{
    let n = String::from_str(name);
    match get_field_value(msg, &n) {
        Some(v) => match value_to_micro(v) {
            Some(m) => Some(micro_to_seconds(m)),
            None => cur,
        },
        None => cur,
    }
}

/// The workout-type label carried by a sport-typed value.
fn sport_label(v: &TypedValue) -> (r: Option<String>)
    ensures
        r.deep_view() == spec_sport_label(v@),
{
    match v {
        TypedValue::Text(s) => Some(lowercase(s.as_str())),
        TypedValue::UInt8(n) => Some(sport_to_string(*n)),
        _ => None,
    }
}

/// Set the workout type from the named field, when it carries a usable
/// sport value.
fn upd_set_sport(wt: &mut Option<String>, msg: &DecodedMessage, name: &str)
    ensures
        final(wt).deep_view() == spec_set_sport(old(wt).deep_view(), msg@.fields, name@),
{
    let n = String::from_str(name);
    match get_field_value(msg, &n) {
        Some(v) => match sport_label(v) {
            Some(l) => {
                *wt = Some(l);
            },
            None => {},
        },
        None => {},
    }
}

fn lookup_int(msg: &DecodedMessage, name: &str) -> (r: Option<i64>)
    ensures
        r == spec_coerced_int(msg@.fields, name@),
{
    let n = String::from_str(name);
    match get_field_value(msg, &n) {
        Some(v) => value_to_i64(v),
        None => None,
    }
}

fn lookup_micro_with_fallback(msg: &DecodedMessage, name: &str, fallback: &str) -> (r: Option<
    i64,
>)
    ensures
        r == spec_micro_with_fallback(msg@.fields, name@, fallback@),
{
    let n = String::from_str(name);
    match get_field_value(msg, &n) {
        Some(v) => value_to_micro(v),
        None => {
            let f = String::from_str(fallback);
            match get_field_value(msg, &f) {
                Some(v) => value_to_micro(v),
                None => None,
            }
        },
    }
}

fn lookup_coord(msg: &DecodedMessage, name: &str) -> (r: Option<i64>)
    ensures
        r == spec_record_coord(msg@.fields, name@),
{
    let n = String::from_str(name);
    match get_field_value(msg, &n) {
        Some(v) => match value_to_i64(v) {
            Some(x) => Some(semicircles_to_microdeg(#[verifier::truncate] (x as i32))),
            None => None,
        },
        None => None,
    }
}

/// Clone an optional timestamp string.
fn clone_opt_string(o: &Option<String>) -> (r: Option<String>)
    ensures
        r == *o,
{
    match o {
        Some(s) => Some(s.clone()),
        None => None,
    }
}

// ---------------------------------------------------------------------------
// Executable extractors and the dispatcher.
// ---------------------------------------------------------------------------
/// Extract the workout type from a `sport` message.
fn extract_sport(state: &mut ParseState, msg: &DecodedMessage)
    ensures
        final(state)@ == spec_sport_step(old(state)@, msg@.fields),
{
    upd_set_sport(&mut state.workout_type, msg, "sport");
    proof {
        assert(final(state)@ =~= spec_sport_step(old(state)@, msg@.fields));
    }
}

/// Extract the summary fields from a `session` message, honouring the
/// precedence and fallback rules.
fn extract_session(state: &mut ParseState, msg: &DecodedMessage)
    ensures
        final(state)@ == spec_session_step(old(state)@, msg@.fields),
{
    if state.workout_type.is_none() {
        upd_set_sport(&mut state.workout_type, msg, "sport");
    }
    state.start_time = upd_set_ts(state.start_time, msg, "start_time");
    state.end_time = upd_set_ts(state.end_time, msg, "timestamp");
    state.duration_seconds = upd_set_seconds(state.duration_seconds, msg, "total_elapsed_time");
    if state.duration_seconds.is_none() {
        state.duration_seconds = upd_set_seconds(None, msg, "total_timer_time");
    }
    state.distance_meters = upd_set_micro(state.distance_meters, msg, "total_distance");
    state.total_calories = upd_assign_int(state.total_calories, msg, "total_calories");
    state.avg_heart_rate = upd_assign_int(state.avg_heart_rate, msg, "avg_heart_rate");
    state.max_heart_rate = upd_assign_int(state.max_heart_rate, msg, "max_heart_rate");
    state.avg_power = upd_assign_int(state.avg_power, msg, "avg_power");
    state.max_power = upd_assign_int(state.max_power, msg, "max_power");
    state.avg_cadence = upd_assign_int(state.avg_cadence, msg, "avg_cadence");
    state.max_cadence = upd_assign_int(state.max_cadence, msg, "max_cadence");
    state.avg_speed = upd_assign_micro(state.avg_speed, msg, "avg_speed");
    state.max_speed = upd_assign_micro(state.max_speed, msg, "max_speed");
    if state.avg_speed.is_none() {
        state.avg_speed = upd_assign_micro(None, msg, "enhanced_avg_speed");
    }
    if state.max_speed.is_none() {
        state.max_speed = upd_assign_micro(None, msg, "enhanced_max_speed");
    }
    state.elevation_gain = upd_assign_micro(state.elevation_gain, msg, "total_ascent");
    state.elevation_loss = upd_assign_micro(state.elevation_loss, msg, "total_descent");
    proof {
        assert(final(state)@ =~= spec_session_step(old(state)@, msg@.fields));
    }
}

/// Extract the GPS sample, the sensor sample and the raw altitude from a
/// `record` message.
fn extract_record(state: &mut ParseState, msg: &DecodedMessage)
    ensures
        final(state)@ == spec_record_step(old(state)@, msg@.fields),
{
    let n = String::from_str("timestamp");
    let ts: Option<i64> = match get_field_value(msg, &n) {
        Some(v) => value_to_timestamp(v),
        None => None,
    };
    let ts_str: Option<String> = match ts {
        Some(t) => render_opt_timestamp(Some(t)),
        None => None,
    };
    proof {
        assert(ts_str.deep_view() == spec_record_ts(msg@.fields));
    }
    let lat = lookup_coord(msg, "position_lat");
    let lon = lookup_coord(msg, "position_long");
    let altitude = lookup_micro_with_fallback(msg, "altitude", "enhanced_altitude");

    if let (Some(lat_v), Some(lon_v)) = (lat, lon) {
        if -crate::samples::MAX_LAT_MICRO <= lat_v && lat_v <= crate::samples::MAX_LAT_MICRO
            && -crate::samples::MAX_LON_MICRO <= lon_v && lon_v
            <= crate::samples::MAX_LON_MICRO {
            state.gps_data.push(
                GpsPoint {
                    timestamp: clone_opt_string(&ts_str),
                    lat: lat_v,
                    lon: lon_v,
                    altitude,
                },
            );
        }
    }
    if let Some(a) = altitude {
        state.altitudes.push(a);
    }
    let heart_rate = lookup_int(msg, "heart_rate");
    let power = lookup_int(msg, "power");
    let cadence = lookup_int(msg, "cadence");
    let speed = lookup_micro_with_fallback(msg, "speed", "enhanced_speed");
    let distance = {
        let d = String::from_str("distance");
        match get_field_value(msg, &d) {
            Some(v) => value_to_micro(v),
            None => None,
        }
    };
    state.sensor_data.push(
        SensorPoint { timestamp: ts_str, heart_rate, power, cadence, speed, distance, altitude },
    );
    proof {
        assert(state.sensor_data.deep_view().last() == spec_record_sensor(msg@.fields));
        assert(final(state)@ =~= spec_record_step(old(state)@, msg@.fields));
    }
}

/// Extract the fallback workout type from an `activity` message.
fn extract_activity(state: &mut ParseState, msg: &DecodedMessage)
    ensures
        final(state)@ == spec_activity_step(old(state)@, msg@.fields),
{
    if state.workout_type.is_none() {
        upd_set_sport(&mut state.workout_type, msg, "type");
    }
    proof {
        assert(final(state)@ =~= spec_activity_step(old(state)@, msg@.fields));
    }
}

/// Extract the fallback start time from a `lap` message.
fn extract_lap(state: &mut ParseState, msg: &DecodedMessage)
    ensures
        final(state)@ == spec_lap_step(old(state)@, msg@.fields),
{
    if state.start_time.is_none() {
        state.start_time = upd_set_ts(state.start_time, msg, "start_time");
    }
    proof {
        assert(final(state)@ =~= spec_lap_step(old(state)@, msg@.fields));
    }
}

// ---------------------------------------------------------------------------
// The normalized workout record and its assembly.
// ---------------------------------------------------------------------------
/// Mathematical model of a [`ParsedFitData`].
#[verifier::ext_equal]
pub struct WorkoutV {
    pub file_hash: Seq<char>,
    pub filename: Seq<char>,
    pub workout_type: Option<Seq<char>>,
    pub start_time: Option<Seq<char>>,
    pub end_time: Option<Seq<char>>,
    pub duration_seconds: Option<i64>,
    pub distance_meters: Option<i64>,
    pub total_calories: Option<i64>,
    pub avg_heart_rate: Option<i64>,
    pub max_heart_rate: Option<i64>,
    pub avg_power_watts: Option<i64>,
    pub max_power_watts: Option<i64>,
    pub avg_cadence: Option<i64>,
    pub max_cadence: Option<i64>,
    pub avg_speed_mps: Option<i64>,
    pub max_speed_mps: Option<i64>,
    pub elevation_gain_meters: Option<i64>,
    pub elevation_loss_meters: Option<i64>,
    pub gps_data: Seq<GpsPointV>,
    pub sensor_data: Seq<SensorPointV>,
    pub chart_data: ChartDataV,
}

/// The normalized workout record: scalar summary metrics, the validated GPS
/// track, the sensor series and the bounded chart series. No field is ever
/// required; a stream without recognized messages yields a record with every
/// optional field absent and all series empty.
///
/// Distance, speed and elevation fields are fixed-point micro-units (so
/// `avg_speed_mps` counts micro-meters per second); timestamps are RFC 3339
/// strings.
#[derive(Debug, Clone, PartialEq)]
pub struct ParsedFitData {
    pub file_hash: String,
    pub filename: String,
    pub workout_type: Option<String>,
    pub start_time: Option<String>,
    pub end_time: Option<String>,
    pub duration_seconds: Option<i64>,
    pub distance_meters: Option<i64>,
    pub total_calories: Option<i64>,
    pub avg_heart_rate: Option<i64>,
    pub max_heart_rate: Option<i64>,
    pub avg_power_watts: Option<i64>,
    pub max_power_watts: Option<i64>,
    pub avg_cadence: Option<i64>,
    pub max_cadence: Option<i64>,
    pub avg_speed_mps: Option<i64>,
    pub max_speed_mps: Option<i64>,
    pub elevation_gain_meters: Option<i64>,
    pub elevation_loss_meters: Option<i64>,
    pub gps_data: Vec<GpsPoint>,
    pub sensor_data: Vec<SensorPoint>,
    pub chart_data: ChartData,
}

impl View for ParsedFitData {
    type V = WorkoutV;

    open spec fn view(&self) -> WorkoutV {
        WorkoutV {
            file_hash: self.file_hash@,
            filename: self.filename@,
            workout_type: self.workout_type.deep_view(),
            start_time: self.start_time.deep_view(),
            end_time: self.end_time.deep_view(),
            duration_seconds: self.duration_seconds,
            distance_meters: self.distance_meters,
            total_calories: self.total_calories,
            avg_heart_rate: self.avg_heart_rate,
            max_heart_rate: self.max_heart_rate,
            avg_power_watts: self.avg_power_watts,
            max_power_watts: self.max_power_watts,
            avg_cadence: self.avg_cadence,
            max_cadence: self.max_cadence,
            avg_speed_mps: self.avg_speed_mps,
            max_speed_mps: self.max_speed_mps,
            elevation_gain_meters: self.elevation_gain_meters,
            elevation_loss_meters: self.elevation_loss_meters,
            gps_data: self.gps_data.deep_view(),
            sensor_data: self.sensor_data.deep_view(),
            chart_data: self.chart_data@,
        }
    }
}

/// The normalized record of a whole file: the fold of the message stream,
/// elevation derived from the raw altitudes for whichever of gain and loss
/// the session left unset, the chart built from the sensor series, and the
/// content hash of the raw bytes.
pub open spec fn spec_parse(data: Seq<u8>, filename: Seq<char>, msgs: Seq<MessageV>) -> WorkoutV {
    let s = spec_fold_state(msgs);
    let derived = spec_elevation_changes(s.altitudes);
    let gain = if s.elevation_gain is None {
        derived.0
    } else {
        s.elevation_gain
    };
    let loss = if s.elevation_loss is None {
        derived.1
    } else {
        s.elevation_loss
    };
    WorkoutV {
        file_hash: spec_content_hash(data),
        filename,
        workout_type: s.workout_type,
        start_time: spec_render_opt_timestamp(s.start_time),
        end_time: spec_render_opt_timestamp(s.end_time),
        duration_seconds: s.duration_seconds,
        distance_meters: s.distance_meters,
        total_calories: s.total_calories,
        avg_heart_rate: s.avg_heart_rate,
        max_heart_rate: s.max_heart_rate,
        avg_power_watts: s.avg_power,
        max_power_watts: s.max_power,
        avg_cadence: s.avg_cadence,
        max_cadence: s.max_cadence,
        avg_speed_mps: s.avg_speed,
        max_speed_mps: s.max_speed,
        elevation_gain_meters: gain,
        elevation_loss_meters: loss,
        gps_data: s.gps_data,
        sensor_data: s.sensor_data,
        chart_data: spec_chart_data(s.sensor_data),
    }
}

/// Reduce a decoded message stream to the normalized workout record. `data`
/// is the raw file bytes (hashed for the 64-character content identity),
/// `filename` the display name, and `messages` the ordered stream the
/// external decoder produced from those bytes.
pub fn parse_fit_data(data: &Vec<u8>, filename: &str, messages: &Vec<DecodedMessage>) -> (r:
    ParsedFitData)
    ensures
        r@ == spec_parse(data@, filename@, messages.deep_view()),
        r.file_hash@.len() == 64,
{
    let file_hash = compute_file_hash(data);
    let ghost msgs = messages.deep_view();
    let mut state = ParseState::new();
    proof {
        assert(msgs.take(0) =~= Seq::<MessageV>::empty());
    }
    let mut i: usize = 0;
    while i < messages.len()
        invariant
            i <= messages.len(),
            msgs == messages.deep_view(),
            msgs.len() == messages.len(),
            state@ == spec_fold_state(msgs.take(i as int)),
        decreases messages.len() - i,
    {
        proof {
            assert(msgs.take(i as int + 1).drop_last() =~= msgs.take(i as int));
            assert(msgs.take(i as int + 1).last() == msgs[i as int]);
        }
        process_message(&mut state, &messages[i]);
        i = i + 1;
    }
    proof {
        assert(msgs.take(messages.len() as int) =~= msgs);
    }
    if state.elevation_gain.is_none() || state.elevation_loss.is_none() {
        let derived = calculate_elevation_changes(&state.altitudes);
        if state.elevation_gain.is_none() {
            state.elevation_gain = derived.0;
        }
        if state.elevation_loss.is_none() {
            state.elevation_loss = derived.1;
        }
    }
    let chart_data = build_chart_data(&state.sensor_data);
    let start_time = render_opt_timestamp(state.start_time);
    let end_time = render_opt_timestamp(state.end_time);
    let r = ParsedFitData {
        file_hash,
        filename: filename.to_owned(),
        workout_type: state.workout_type,
        start_time,
        end_time,
        duration_seconds: state.duration_seconds,
        distance_meters: state.distance_meters,
        total_calories: state.total_calories,
        avg_heart_rate: state.avg_heart_rate,
        max_heart_rate: state.max_heart_rate,
        avg_power_watts: state.avg_power,
        max_power_watts: state.max_power,
        avg_cadence: state.avg_cadence,
        max_cadence: state.max_cadence,
        avg_speed_mps: state.avg_speed,
        max_speed_mps: state.max_speed,
        elevation_gain_meters: state.elevation_gain,
        elevation_loss_meters: state.elevation_loss,
        gps_data: state.gps_data,
        sensor_data: state.sensor_data,
        chart_data,
    };
    proof {
        assert(r@ =~= spec_parse(data@, filename@, msgs));
    }
    r
}

/// Route one message to its extractor by kind; unknown kinds are skipped.
fn process_message(state: &mut ParseState, msg: &DecodedMessage)
    ensures
        final(state)@ == spec_step_state(old(state)@, msg@),
{
    if msg.kind == String::from_str("sport") {
        extract_sport(state, msg);
    } else if msg.kind == String::from_str("session") {
        extract_session(state, msg);
    } else if msg.kind == String::from_str("record") {
        extract_record(state, msg);
    } else if msg.kind == String::from_str("activity") {
        extract_activity(state, msg);
    } else if msg.kind == String::from_str("lap") {
        extract_lap(state, msg);
    }
}

// ---------------------------------------------------------------------------
// Laws.
// ---------------------------------------------------------------------------
/// Parsing is deterministic: the contract of [`parse_fit_data`] pins the
/// whole record - content hash included - to a function of the raw bytes,
/// the filename and the message stream, so any two results for the same
/// input are equal.
pub proof fn lemma_parse_deterministic(
    r1: WorkoutV,
    r2: WorkoutV,
    data: Seq<u8>,
    filename: Seq<char>,
    msgs: Seq<MessageV>,
)
    requires
        r1 == spec_parse(data, filename, msgs),
        r2 == spec_parse(data, filename, msgs),
    ensures
        r1 == r2,
{
}

/// Every GPS sample the fold accumulates has latitude within 90 degrees and
/// longitude within 180 degrees in magnitude: samples outside those ranges
/// are dropped, never stored.
pub proof fn lemma_fold_gps_valid(msgs: Seq<MessageV>)
    ensures
        forall|i: int|
            0 <= i < spec_fold_state(msgs).gps_data.len() ==> spec_gps_valid(
                (#[trigger] spec_fold_state(msgs).gps_data[i]).lat,
                spec_fold_state(msgs).gps_data[i].lon,
            ),
    decreases msgs.len(),
{
    if msgs.len() > 0 {
        lemma_fold_gps_valid(msgs.drop_last());
        let prev = spec_fold_state(msgs.drop_last());
        let m = msgs.last();
        let cur = spec_step_state(prev, m);
        if m.kind == "record"@ {
            assert(forall|i: int|
                0 <= i < prev.gps_data.len() ==> cur.gps_data[i] == prev.gps_data[i]);
        }
    }
}

/// Every GPS sample of the parsed record has latitude within 90 degrees and
/// longitude within 180 degrees in magnitude.
pub proof fn lemma_gps_filter(data: Seq<u8>, filename: Seq<char>, msgs: Seq<MessageV>)
    ensures
        forall|i: int|
            0 <= i < spec_parse(data, filename, msgs).gps_data.len() ==> spec_gps_valid(
                (#[trigger] spec_parse(data, filename, msgs).gps_data[i]).lat,
                spec_parse(data, filename, msgs).gps_data[i].lon,
            ),
{
    lemma_fold_gps_valid(msgs);
}

/// Speed precedence in a `session` message: when the plain `avg_speed`
/// field carries a coercible value it wins, whatever the enhanced field
/// holds; the enhanced field is used only when the plain field left nothing
/// and no earlier speed was set. Likewise for the maximum speed.
pub proof fn lemma_speed_precedence(s: StateV, fields: Seq<FieldV>)
    ensures
        spec_coerced_micro(fields, "avg_speed"@) is Some ==> spec_session_step(s, fields).avg_speed
            == spec_coerced_micro(fields, "avg_speed"@),
        (s.avg_speed is None && spec_field_lookup(fields, "avg_speed"@) is None
            && spec_coerced_micro(fields, "enhanced_avg_speed"@) is Some) ==> spec_session_step(
            s,
            fields,
        ).avg_speed == spec_coerced_micro(fields, "enhanced_avg_speed"@),
        spec_coerced_micro(fields, "max_speed"@) is Some ==> spec_session_step(s, fields).max_speed
            == spec_coerced_micro(fields, "max_speed"@),
        (s.max_speed is None && spec_field_lookup(fields, "max_speed"@) is None
            && spec_coerced_micro(fields, "enhanced_max_speed"@) is Some) ==> spec_session_step(
            s,
            fields,
        ).max_speed == spec_coerced_micro(fields, "enhanced_max_speed"@),
{
}

} // verus!
