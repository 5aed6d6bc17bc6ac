//! Epoch-day date values and weekday arithmetic.
//!
//! A date is an `i32` counting days since the reference epoch 1970-01-01
//! (day 0). Weekdays use the ISO convention: 1 = Monday, ..., 7 = Sunday;
//! day 0 falls on a Thursday, weekday 4.

use vstd::prelude::*;

verus! {

/// The ISO weekday index (1 = Monday, ..., 7 = Sunday) of an epoch day.
///
/// Day 0 (1970-01-01) is a Thursday, so the index is anchored at 4 there.
pub open spec fn weekday_index(day: int) -> int {
    ((day + 3) % 7) + 1
}

/// A multiple of 7 large enough to make `day + 3 + WEEK_ANCHOR` non-negative
/// for every `i32` day, so that the truncating machine remainder agrees with
/// the Euclidean remainder of the specification.
const WEEK_ANCHOR: i64 = 2147483653;

/// Computes the ISO weekday index of an epoch day.
pub fn weekday_of_day(day: i32) -> (r: i64)
    ensures
        r == weekday_index(day as int),
        1 <= r <= 7,
{
    let shifted: i64 = day as i64 + 3 + WEEK_ANCHOR;
    let rem: i64 = shifted % 7;
    proof {
        assert(WEEK_ANCHOR as int % 7 == 0);
        assert(shifted >= 0);
        vstd::arithmetic::div_mod::lemma_mod_adds(day as int + 3, WEEK_ANCHOR as int, 7);
        assert((day as int + 3) % 7 + WEEK_ANCHOR as int % 7 < 7);
        assert(rem == (day as int + 3) % 7);
    }
    rem + 1
}

} // verus!
