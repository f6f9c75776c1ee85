//! Core of a satellite ground-track visualization tool: calendar-to-Julian-day
//! conversion, orbital element records and tracked objects, ground-track
//! trajectory segmentation around the antimeridian, nearest-object spatial
//! queries, and the fetch/cache staleness state machine for element sets.
//!
//! Angles are carried as signed microdegrees (1 degree = 1_000_000 units), so
//! the whole core is exact integer arithmetic; the floating-point frame
//! conversions and the orbital propagator live outside this library and hand
//! their results in as plain scaled values.

pub mod cache;
pub mod geo;
pub mod object;
pub mod satellite;
pub mod spatial;
pub mod time;
pub mod track;

pub use time::julian_day_number;
