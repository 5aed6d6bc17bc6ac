//! A broadcasting temporal-range generation engine.
//!
//! Given paired nullable `start` and `end` date columns, the engine produces,
//! per row, the inclusive list of calendar days between start and end, with two
//! optional per-row exclusion sets removed: specific dates (holidays) and
//! specific weekday indices (weekends). Dates are plain epoch-day integers:
//! the count of days since 1970-01-01.
//!
//! Beside the range engine the crate holds the small elementwise column
//! kernels of the same collection: a letter-rotation transform, a seeded
//! running sum, a content digest, a shift, an integer difference, and the
//! mode validations of the difference and outlier-handling operators.

pub mod builder;
pub mod dates;
pub mod driver;
pub mod errors;
pub mod exclusions;
pub mod hashing;
pub mod kernels;
pub mod laws;
pub mod ranges;
