//! Typed field values and their coercions to canonical integers, canonical
//! fixed-point reals and absolute timestamps.

use vstd::prelude::*;

verus! {

/// Number of micro-units in one whole unit of a real-valued quantity.
pub const MICRO_SCALE: i64 = 1_000_000;

/// Seconds between the UNIX epoch and the device epoch (1989-12-31T00:00:00Z).
pub const FIT_EPOCH_OFFSET: i64 = 631_065_600;

/// Mathematical model of a [`TypedValue`]: the same variants, with text as a
/// sequence of characters.
#[verifier::ext_equal]
pub enum ValueV {
    SInt8(i8),
    UInt8(u8),
    SInt16(i16),
    UInt16(u16),
    SInt32(i32),
    UInt32(u32),
    SInt64(i64),
    UInt64(u64),
    /// A real number, in micro-units.
    Real(i64),
    Text(Seq<char>),
    /// An absolute timestamp, in seconds since the UNIX epoch.
    Time(i64),
    /// Any value the coercions do not recognize.
    Other,
}

/// One decoded field value: a tagged union over integers of varying width,
/// fixed-point reals, text and absolute timestamps.
///
/// The external decoder's floating-point values are converted to [`TypedValue::Real`]
/// micro-units at the boundary; values of kinds the coercions never accept
/// (arrays, invalid markers, enum-like bytes) arrive as [`TypedValue::Other`].
#[derive(Debug, Clone, PartialEq)]
pub enum TypedValue {
    SInt8(i8),
    UInt8(u8),
    SInt16(i16),
    UInt16(u16),
    SInt32(i32),
    UInt32(u32),
    SInt64(i64),
    UInt64(u64),
    /// A real number, in micro-units.
    Real(i64),
    Text(String),
    /// An absolute timestamp, in seconds since the UNIX epoch.
    Time(i64),
    /// Any value the coercions do not recognize.
    Other,
}

impl View for TypedValue {
    type V = ValueV;

    open spec fn view(&self) -> ValueV {
        match self {
            TypedValue::SInt8(x) => ValueV::SInt8(*x),
            TypedValue::UInt8(x) => ValueV::UInt8(*x),
            TypedValue::SInt16(x) => ValueV::SInt16(*x),
            TypedValue::UInt16(x) => ValueV::UInt16(*x),
            TypedValue::SInt32(x) => ValueV::SInt32(*x),
            TypedValue::UInt32(x) => ValueV::UInt32(*x),
            TypedValue::SInt64(x) => ValueV::SInt64(*x),
            TypedValue::UInt64(x) => ValueV::UInt64(*x),
            TypedValue::Real(x) => ValueV::Real(*x),
            TypedValue::Text(s) => ValueV::Text(s@),
            TypedValue::Time(t) => ValueV::Time(*t),
            TypedValue::Other => ValueV::Other,
        }
    }
}

impl DeepView for TypedValue {
    type V = ValueV;

    open spec fn deep_view(&self) -> ValueV {
        self.view()
    }
}

/// Canonical integer of a value: integer variants widen to 64 bits, the
/// unsigned 64-bit variant is reinterpreted two's-complement, and every other
/// variant has none.
pub open spec fn spec_value_to_i64(v: ValueV) -> Option<i64> {
    match v {
        ValueV::SInt8(x) => Some(x as i64),
        ValueV::UInt8(x) => Some(x as i64),
        ValueV::SInt16(x) => Some(x as i64),
        ValueV::UInt16(x) => Some(x as i64),
        ValueV::SInt32(x) => Some(x as i64),
        ValueV::UInt32(x) => Some(x as i64),
        ValueV::SInt64(x) => Some(x),
        ValueV::UInt64(x) => Some(x as i64),
        _ => None,
    }
}

/// Whether `x` whole units are representable in micro-units.
pub open spec fn spec_micro_in_range(x: int) -> bool {
    i64::MIN <= x * (MICRO_SCALE as int) && x * (MICRO_SCALE as int) <= i64::MAX
}

/// Canonical fixed-point real of a value: integer variants scale to
/// micro-units when the result is representable, the real variant passes
/// through, and every other variant has none.
pub open spec fn spec_value_to_micro(v: ValueV) -> Option<i64> {
    match v {
        ValueV::Real(m) => Some(m),
        ValueV::SInt8(x) => spec_scale_to_micro(x as int),
        ValueV::UInt8(x) => spec_scale_to_micro(x as int),
        ValueV::SInt16(x) => spec_scale_to_micro(x as int),
        ValueV::UInt16(x) => spec_scale_to_micro(x as int),
        ValueV::SInt32(x) => spec_scale_to_micro(x as int),
        ValueV::UInt32(x) => spec_scale_to_micro(x as int),
        ValueV::SInt64(x) => spec_scale_to_micro(x as int),
        ValueV::UInt64(x) => spec_scale_to_micro(x as int),
        _ => None,
    }
}

pub open spec fn spec_scale_to_micro(x: int) -> Option<i64> {
    if spec_micro_in_range(x) {
        Some((x * (MICRO_SCALE as int)) as i64)
    } else {
        None
    }
}

/// Absolute timestamp of a value, in seconds since the UNIX epoch: an
/// already-absolute time passes through; a 32-bit integer is read as seconds
/// since the device epoch and shifted by the fixed epoch offset.
pub open spec fn spec_value_to_timestamp(v: ValueV) -> Option<i64> {
    match v {
        ValueV::Time(t) => Some(t),
        ValueV::UInt32(x) => Some((x as i64 + FIT_EPOCH_OFFSET) as i64),
        ValueV::SInt32(x) => Some(((x as u32) as i64 + FIT_EPOCH_OFFSET) as i64),
        _ => None,
    }
}

/// Coerce a value to a canonical 64-bit integer, if it has one.
pub fn value_to_i64(value: &TypedValue) -> (r: Option<i64>)
    ensures
        r == spec_value_to_i64(value@),
{
    match value {
        TypedValue::SInt8(x) => Some(*x as i64),
        TypedValue::UInt8(x) => Some(*x as i64),
        TypedValue::SInt16(x) => Some(*x as i64),
        TypedValue::UInt16(x) => Some(*x as i64),
        TypedValue::SInt32(x) => Some(*x as i64),
        TypedValue::UInt32(x) => Some(*x as i64),
        TypedValue::SInt64(x) => Some(*x),
        TypedValue::UInt64(x) => Some(#[verifier::truncate] (*x as i64)),
        _ => None,
    }
}

/// Coerce a value to a canonical fixed-point real in micro-units, if it has
/// one.
pub fn value_to_micro(value: &TypedValue) -> (r: Option<i64>)
    ensures
        r == spec_value_to_micro(value@),
{
    match value {
        TypedValue::Real(m) => Some(*m),
        TypedValue::SInt8(x) => Some((*x as i64) * MICRO_SCALE),
        TypedValue::UInt8(x) => Some((*x as i64) * MICRO_SCALE),
        TypedValue::SInt16(x) => Some((*x as i64) * MICRO_SCALE),
        TypedValue::UInt16(x) => Some((*x as i64) * MICRO_SCALE),
        TypedValue::SInt32(x) => Some((*x as i64) * MICRO_SCALE),
        TypedValue::UInt32(x) => Some((*x as i64) * MICRO_SCALE),
        TypedValue::SInt64(x) => x.checked_mul(MICRO_SCALE),
        TypedValue::UInt64(x) => scale_u64_to_micro(*x),
        _ => None,
    }
}

/// Scale an unsigned 64-bit count of whole units to micro-units, absent on
/// overflow.
fn scale_u64_to_micro(x: u64) -> (r: Option<i64>)
    ensures
        r == spec_scale_to_micro(x as int),
{
    if x <= 9_223_372_036_854u64 {
        proof {
            assert(x as int * (MICRO_SCALE as int) <= i64::MAX) by (nonlinear_arith)
                requires
                    x <= 9_223_372_036_854u64,
            ;
        }
        Some((x as i64) * MICRO_SCALE)
    } else {
        proof {
            assert(x as int * (MICRO_SCALE as int) > i64::MAX) by (nonlinear_arith)
                requires
                    x > 9_223_372_036_854u64,
            ;
        }
        None
    }
}

/// Coerce a value to an absolute timestamp in seconds since the UNIX epoch,
/// if it has one.
pub fn value_to_timestamp(value: &TypedValue) -> (r: Option<i64>)
    ensures
        r == spec_value_to_timestamp(value@),
{
    match value {
        TypedValue::Time(t) => Some(*t),
        TypedValue::UInt32(x) => Some(*x as i64 + FIT_EPOCH_OFFSET),
        TypedValue::SInt32(x) => Some((#[verifier::truncate] (*x as u32)) as i64 + FIT_EPOCH_OFFSET),
        _ => None,
    }
}

/// Truncating division (rounding toward zero), as a mathematical function.
pub open spec fn spec_div_trunc(n: int, d: int) -> int
    recommends
        d > 0,
{
    if n >= 0 {
        n / d
    } else {
        -((-n) / d)
    }
}

/// Divide rounding toward zero.
pub fn div_trunc(n: i64, d: i64) -> (r: i64)
    requires
        0 < d,
    ensures
        r == spec_div_trunc(n as int, d as int),
{
    if n >= 0 {
        let q = (n as u64) / (d as u64);
        proof {
            assert(q == n as int / d as int);
            assert(q <= n as int) by (nonlinear_arith)
                requires
                    q == n as int / d as int,
                    n >= 0,
                    d > 0,
            ;
        }
        q as i64
    } else {
        let m = (-(n as i128)) as u64;
        let q = m / (d as u64);
        proof {
            assert(q == m as int / d as int);
            assert(q <= m as int) by (nonlinear_arith)
                requires
                    q == m as int / d as int,
                    d > 0,
            ;
        }
        (-(q as i128)) as i64
    }
}

/// Micro-units of a duration, reduced to whole seconds rounding toward zero.
pub open spec fn spec_micro_to_seconds(m: i64) -> i64 {
    spec_div_trunc(m as int, MICRO_SCALE as int) as i64
}

/// Reduce a duration in micro-units to whole seconds, rounding toward zero.
pub fn micro_to_seconds(m: i64) -> (r: i64)
    ensures
        r == spec_micro_to_seconds(m),
{
    div_trunc(m, MICRO_SCALE)
}

/// Angular semicircles converted to micro-degrees: a full signed 32-bit range
/// spans 360 degrees, and the quotient rounds toward zero.
pub open spec fn spec_semicircles_to_microdeg(sc: i32) -> i64 {
    spec_div_trunc(sc as int * 180_000_000, 0x8000_0000) as i64
}

/// Convert an angle in semicircles to micro-degrees.
pub fn semicircles_to_microdeg(sc: i32) -> (r: i64)
    ensures
        r == spec_semicircles_to_microdeg(sc),
{
    div_trunc((sc as i64) * 180_000_000, 0x8000_0000)
}

} // verus!
