//! The full pass: dispatching, precedence, fallbacks, GPS validation and
//! assembly of the normalized record.

use fitcore::message::{DecodedMessage, MessageField};
use fitcore::parse::parse_fit_data;
use fitcore::values::TypedValue;

fn msg(kind: &str, fields: Vec<(&str, TypedValue)>) -> DecodedMessage {
    DecodedMessage {
        kind: kind.to_string(),
        fields: fields
            .into_iter()
            .map(|(name, value)| MessageField { name: name.to_string(), value })
            .collect(),
    }
}

/// Whole units expressed in micro-units.
fn micro(x: i64) -> i64 {
    x * 1_000_000
}

#[test]
fn empty_stream_yields_a_bare_record() {
    let data = vec![1u8, 2, 3];
    let parsed = parse_fit_data(&data, "empty.fit", &vec![]);
    assert_eq!(parsed.filename, "empty.fit");
    assert_eq!(parsed.workout_type, None);
    assert_eq!(parsed.start_time, None);
    assert_eq!(parsed.end_time, None);
    assert_eq!(parsed.duration_seconds, None);
    assert_eq!(parsed.distance_meters, None);
    assert_eq!(parsed.total_calories, None);
    assert_eq!(parsed.avg_heart_rate, None);
    assert_eq!(parsed.max_heart_rate, None);
    assert_eq!(parsed.avg_power_watts, None);
    assert_eq!(parsed.max_power_watts, None);
    assert_eq!(parsed.avg_cadence, None);
    assert_eq!(parsed.max_cadence, None);
    assert_eq!(parsed.avg_speed_mps, None);
    assert_eq!(parsed.max_speed_mps, None);
    assert_eq!(parsed.elevation_gain_meters, None);
    assert_eq!(parsed.elevation_loss_meters, None);
    assert!(parsed.gps_data.is_empty());
    assert!(parsed.sensor_data.is_empty());
    assert!(parsed.chart_data.timestamps.is_empty());
    assert!(parsed.chart_data.heart_rate.is_empty());
}

#[test]
fn parsing_is_deterministic() {
    let data = vec![9u8, 8, 7];
    let messages = vec![
        msg("sport", vec![("sport", TypedValue::UInt8(2))]),
        msg(
            "session",
            vec![
                ("start_time", TypedValue::UInt32(1000)),
                ("total_distance", TypedValue::Real(micro(10_000))),
            ],
        ),
        msg(
            "record",
            vec![
                ("timestamp", TypedValue::UInt32(1000)),
                ("heart_rate", TypedValue::UInt8(140)),
                ("altitude", TypedValue::Real(micro(120))),
            ],
        ),
    ];
    let a = parse_fit_data(&data, "w.fit", &messages);
    let b = parse_fit_data(&data, "w.fit", &messages);
    assert_eq!(a, b);
    assert_eq!(a.file_hash, b.file_hash);
}

#[test]
fn sport_message_sets_the_workout_type() {
    let parsed = parse_fit_data(
        &vec![],
        "w.fit",
        &vec![msg("sport", vec![("sport", TypedValue::UInt8(2))])],
    );
    assert_eq!(parsed.workout_type.as_deref(), Some("cycling"));
}

#[test]
fn textual_sport_is_lowercased() {
    let parsed = parse_fit_data(
        &vec![],
        "w.fit",
        &vec![msg("sport", vec![("sport", TypedValue::Text("Running".to_string()))])],
    );
    assert_eq!(parsed.workout_type.as_deref(), Some("running"));
}

#[test]
fn session_sport_is_only_a_fallback() {
    let parsed = parse_fit_data(
        &vec![],
        "w.fit",
        &vec![
            msg("sport", vec![("sport", TypedValue::UInt8(1))]),
            msg("session", vec![("sport", TypedValue::UInt8(2))]),
        ],
    );
    assert_eq!(parsed.workout_type.as_deref(), Some("running"));
    let parsed = parse_fit_data(
        &vec![],
        "w.fit",
        &vec![msg("session", vec![("sport", TypedValue::UInt8(2))])],
    );
    assert_eq!(parsed.workout_type.as_deref(), Some("cycling"));
}

#[test]
fn activity_type_is_the_last_resort() {
    let parsed = parse_fit_data(
        &vec![],
        "w.fit",
        &vec![msg("activity", vec![("type", TypedValue::UInt8(11))])],
    );
    assert_eq!(parsed.workout_type.as_deref(), Some("walking"));
}

#[test]
fn unknown_kinds_are_skipped() {
    let parsed = parse_fit_data(
        &vec![],
        "w.fit",
        &vec![
            msg("device_info", vec![("manufacturer", TypedValue::UInt16(1))]),
            msg("sport", vec![("sport", TypedValue::UInt8(15))]),
        ],
    );
    assert_eq!(parsed.workout_type.as_deref(), Some("rowing"));
    assert!(parsed.sensor_data.is_empty());
}

#[test]
fn plain_speed_beats_enhanced_speed() {
    let parsed = parse_fit_data(
        &vec![],
        "w.fit",
        &vec![msg(
            "session",
            vec![
                ("avg_speed", TypedValue::Real(micro(5))),
                ("enhanced_avg_speed", TypedValue::Real(micro(7))),
            ],
        )],
    );
    assert_eq!(parsed.avg_speed_mps, Some(micro(5)));
}

#[test]
fn enhanced_speed_is_used_when_plain_is_absent() {
    let parsed = parse_fit_data(
        &vec![],
        "w.fit",
        &vec![msg(
            "session",
            vec![("enhanced_avg_speed", TypedValue::Real(micro(7)))],
        )],
    );
    assert_eq!(parsed.avg_speed_mps, Some(micro(7)));
}

#[test]
fn timer_time_is_the_duration_fallback() {
    let parsed = parse_fit_data(
        &vec![],
        "w.fit",
        &vec![msg(
            "session",
            vec![("total_timer_time", TypedValue::Real(3_600_000_000))],
        )],
    );
    assert_eq!(parsed.duration_seconds, Some(3600));
}

#[test]
fn elapsed_time_beats_timer_time() {
    let parsed = parse_fit_data(
        &vec![],
        "w.fit",
        &vec![msg(
            "session",
            vec![
                ("total_elapsed_time", TypedValue::Real(micro(120))),
                ("total_timer_time", TypedValue::Real(micro(90))),
            ],
        )],
    );
    assert_eq!(parsed.duration_seconds, Some(120));
}

#[test]
fn session_summary_fields_carry_over() {
    let parsed = parse_fit_data(
        &vec![],
        "w.fit",
        &vec![msg(
            "session",
            vec![
                ("start_time", TypedValue::UInt32(0)),
                ("timestamp", TypedValue::UInt32(600)),
                ("total_distance", TypedValue::Real(micro(5000))),
                ("total_calories", TypedValue::UInt16(250)),
                ("avg_heart_rate", TypedValue::UInt8(130)),
                ("max_heart_rate", TypedValue::UInt8(170)),
                ("avg_power", TypedValue::UInt16(180)),
                ("max_power", TypedValue::UInt16(350)),
                ("avg_cadence", TypedValue::UInt8(85)),
                ("max_cadence", TypedValue::UInt8(110)),
                ("total_ascent", TypedValue::UInt16(320)),
                ("total_descent", TypedValue::UInt16(310)),
            ],
        )],
    );
    // The device epoch instant 0 is 1989-12-31T00:00:00Z.
    assert_eq!(parsed.start_time.as_deref(), Some("1989-12-31T00:00:00+00:00"));
    assert_eq!(parsed.end_time.as_deref(), Some("1989-12-31T00:10:00+00:00"));
    assert_eq!(parsed.distance_meters, Some(micro(5000)));
    assert_eq!(parsed.total_calories, Some(250));
    assert_eq!(parsed.avg_heart_rate, Some(130));
    assert_eq!(parsed.max_heart_rate, Some(170));
    assert_eq!(parsed.avg_power_watts, Some(180));
    assert_eq!(parsed.max_power_watts, Some(350));
    assert_eq!(parsed.avg_cadence, Some(85));
    assert_eq!(parsed.max_cadence, Some(110));
    assert_eq!(parsed.elevation_gain_meters, Some(micro(320)));
    assert_eq!(parsed.elevation_loss_meters, Some(micro(310)));
}

#[test]
fn lap_start_time_fills_a_missing_session_start() {
    let parsed = parse_fit_data(
        &vec![],
        "w.fit",
        &vec![msg("lap", vec![("start_time", TypedValue::Time(0))])],
    );
    assert_eq!(parsed.start_time.as_deref(), Some("1970-01-01T00:00:00+00:00"));
    let parsed = parse_fit_data(
        &vec![],
        "w.fit",
        &vec![
            msg("session", vec![("start_time", TypedValue::Time(60))]),
            msg("lap", vec![("start_time", TypedValue::Time(0))]),
        ],
    );
    assert_eq!(parsed.start_time.as_deref(), Some("1970-01-01T00:01:00+00:00"));
}

#[test]
fn records_yield_gps_and_sensor_samples() {
    // 45 degrees north, 90 degrees east, in semicircles.
    let lat_sc = 1i64 << 29;
    let lon_sc = 1i64 << 30;
    let parsed = parse_fit_data(
        &vec![],
        "w.fit",
        &vec![msg(
            "record",
            vec![
                ("timestamp", TypedValue::Time(0)),
                ("position_lat", TypedValue::SInt32(lat_sc as i32)),
                ("position_long", TypedValue::SInt32(lon_sc as i32)),
                ("altitude", TypedValue::Real(micro(500))),
                ("heart_rate", TypedValue::UInt8(150)),
                ("speed", TypedValue::Real(micro(4))),
            ],
        )],
    );
    assert_eq!(parsed.gps_data.len(), 1);
    let gps = &parsed.gps_data[0];
    assert_eq!(gps.lat, 45_000_000);
    assert_eq!(gps.lon, 90_000_000);
    assert_eq!(gps.altitude, Some(micro(500)));
    assert_eq!(gps.timestamp.as_deref(), Some("1970-01-01T00:00:00+00:00"));
    assert_eq!(parsed.sensor_data.len(), 1);
    let sensor = &parsed.sensor_data[0];
    assert_eq!(sensor.heart_rate, Some(150));
    assert_eq!(sensor.speed, Some(micro(4)));
    assert_eq!(sensor.power, None);
    assert_eq!(parsed.chart_data.timestamps.len(), 1);
    assert_eq!(parsed.chart_data.heart_rate[0], Some(150));
}

#[test]
fn out_of_range_latitude_is_dropped() {
    // 0x60000000 semicircles is 135 degrees: beyond a valid latitude.
    let parsed = parse_fit_data(
        &vec![],
        "w.fit",
        &vec![msg(
            "record",
            vec![
                ("position_lat", TypedValue::SInt32(0x60000000)),
                ("position_long", TypedValue::SInt32(0)),
                ("heart_rate", TypedValue::UInt8(120)),
            ],
        )],
    );
    assert!(parsed.gps_data.is_empty());
    // The sensor sample is still produced.
    assert_eq!(parsed.sensor_data.len(), 1);
}

#[test]
fn partial_coordinates_are_dropped() {
    let parsed = parse_fit_data(
        &vec![],
        "w.fit",
        &vec![msg(
            "record",
            vec![("position_lat", TypedValue::SInt32(0))],
        )],
    );
    assert!(parsed.gps_data.is_empty());
    assert_eq!(parsed.sensor_data.len(), 1);
}

#[test]
fn record_altitude_prefers_the_plain_field() {
    let parsed = parse_fit_data(
        &vec![],
        "w.fit",
        &vec![msg(
            "record",
            vec![
                ("altitude", TypedValue::Real(micro(100))),
                ("enhanced_altitude", TypedValue::Real(micro(200))),
            ],
        )],
    );
    assert_eq!(parsed.sensor_data[0].altitude, Some(micro(100)));
    let parsed = parse_fit_data(
        &vec![],
        "w.fit",
        &vec![msg(
            "record",
            vec![("enhanced_altitude", TypedValue::Real(micro(200)))],
        )],
    );
    assert_eq!(parsed.sensor_data[0].altitude, Some(micro(200)));
}

#[test]
fn elevation_is_derived_when_the_session_lacks_it() {
    let record = |alt: i64| {
        msg("record", vec![("altitude", TypedValue::Real(alt))])
    };
    let parsed = parse_fit_data(
        &vec![],
        "w.fit",
        &vec![
            record(micro(100)),
            record(micro(103)),
            record(micro(100)),
            record(micro(95)),
            record(95_500_000),
        ],
    );
    assert_eq!(parsed.elevation_gain_meters, Some(micro(3)));
    assert_eq!(parsed.elevation_loss_meters, Some(micro(8)));
}

#[test]
fn session_elevation_beats_the_derived_walk() {
    let parsed = parse_fit_data(
        &vec![],
        "w.fit",
        &vec![
            msg("session", vec![("total_ascent", TypedValue::UInt16(42))]),
            msg("record", vec![("altitude", TypedValue::Real(micro(100)))]),
            msg("record", vec![("altitude", TypedValue::Real(micro(200)))]),
        ],
    );
    // The session set the gain; only the loss is derived.
    assert_eq!(parsed.elevation_gain_meters, Some(micro(42)));
    assert_eq!(parsed.elevation_loss_meters, Some(0));
}

#[test]
fn too_few_altitudes_leave_elevation_absent() {
    let parsed = parse_fit_data(
        &vec![],
        "w.fit",
        &vec![msg("record", vec![("altitude", TypedValue::Real(micro(100)))])],
    );
    assert_eq!(parsed.elevation_gain_meters, None);
    assert_eq!(parsed.elevation_loss_meters, None);
}
