//! Core logic for reducing a decoded fitness-telemetry message stream to a
//! single normalized workout record.
//!
//! The crate does not touch the binary container format itself: an external
//! decoder turns raw bytes into an ordered stream of decoded messages, and the
//! functions here fold that stream into a normalized workout summary with a
//! validated GPS track, a per-sample sensor series and a bounded chart series.
//!
//! Real-valued quantities (meters, meters per second, degrees) are carried as
//! fixed-point integers counting millionths of the unit ("micro-units"), so
//! that every computation is exact integer arithmetic.

pub mod elevation;
pub mod identity;
pub mod message;
pub mod parse;
pub mod reports;
pub mod samples;
pub mod sport;
pub mod text;
pub mod timefmt;
pub mod values;
