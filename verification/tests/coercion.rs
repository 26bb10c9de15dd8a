//! Coercions of typed field values to canonical integers, fixed-point
//! reals and timestamps.

use fitcore::values::{
    div_trunc, micro_to_seconds, semicircles_to_microdeg, value_to_i64, value_to_micro,
    value_to_timestamp, TypedValue, FIT_EPOCH_OFFSET,
};

#[test]
fn integer_widening() {
    assert_eq!(value_to_i64(&TypedValue::SInt8(-5)), Some(-5));
    assert_eq!(value_to_i64(&TypedValue::UInt8(200)), Some(200));
    assert_eq!(value_to_i64(&TypedValue::SInt16(-30000)), Some(-30000));
    assert_eq!(value_to_i64(&TypedValue::UInt16(60000)), Some(60000));
    assert_eq!(value_to_i64(&TypedValue::SInt32(-2_000_000_000)), Some(-2_000_000_000));
    assert_eq!(value_to_i64(&TypedValue::UInt32(4_000_000_000)), Some(4_000_000_000));
    assert_eq!(value_to_i64(&TypedValue::SInt64(i64::MIN)), Some(i64::MIN));
}

#[test]
fn unsigned_64_reinterprets_two_complement() {
    assert_eq!(value_to_i64(&TypedValue::UInt64(u64::MAX)), Some(-1));
    assert_eq!(value_to_i64(&TypedValue::UInt64(7)), Some(7));
}

#[test]
fn non_numeric_values_have_no_integer() {
    assert_eq!(value_to_i64(&TypedValue::Text("12".to_string())), None);
    assert_eq!(value_to_i64(&TypedValue::Real(12_000_000)), None);
    assert_eq!(value_to_i64(&TypedValue::Time(12)), None);
    assert_eq!(value_to_i64(&TypedValue::Other), None);
}

#[test]
fn micro_scaling_of_integers() {
    assert_eq!(value_to_micro(&TypedValue::UInt8(3)), Some(3_000_000));
    assert_eq!(value_to_micro(&TypedValue::SInt16(-7)), Some(-7_000_000));
    assert_eq!(value_to_micro(&TypedValue::Real(1_500_000)), Some(1_500_000));
    assert_eq!(value_to_micro(&TypedValue::Text("x".to_string())), None);
}

#[test]
fn micro_scaling_overflow_is_absence() {
    assert_eq!(value_to_micro(&TypedValue::SInt64(i64::MAX)), None);
    assert_eq!(value_to_micro(&TypedValue::UInt64(u64::MAX)), None);
    assert_eq!(value_to_micro(&TypedValue::SInt64(9_223_372_036_854)), Some(9_223_372_036_854_000_000));
}

#[test]
fn timestamp_from_device_epoch() {
    assert_eq!(value_to_timestamp(&TypedValue::UInt32(0)), Some(FIT_EPOCH_OFFSET));
    assert_eq!(value_to_timestamp(&TypedValue::UInt32(100)), Some(FIT_EPOCH_OFFSET + 100));
    assert_eq!(value_to_timestamp(&TypedValue::Time(123456789)), Some(123456789));
    assert_eq!(value_to_timestamp(&TypedValue::UInt16(5)), None);
}

#[test]
fn division_truncates_toward_zero() {
    assert_eq!(div_trunc(7, 2), 3);
    assert_eq!(div_trunc(-7, 2), -3);
    assert_eq!(div_trunc(i64::MIN, 1_000_000), -9_223_372_036_854);
    assert_eq!(micro_to_seconds(-1_500_000), -1);
    assert_eq!(micro_to_seconds(3_600_000_000), 3600);
}

#[test]
fn semicircles_to_degrees_is_exact_at_quadrants() {
    assert_eq!(semicircles_to_microdeg(0), 0);
    assert_eq!(semicircles_to_microdeg(1 << 30), 90_000_000);
    assert_eq!(semicircles_to_microdeg(-(1 << 30)), -90_000_000);
    assert_eq!(semicircles_to_microdeg(1 << 29), 45_000_000);
    // One semicircle is below the micro-degree resolution and truncates.
    assert_eq!(semicircles_to_microdeg(1), 0);
}
