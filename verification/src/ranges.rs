//! The daily range generator and the two per-row exclusion filters.
//!
//! `daily_range` produces the closed-closed daily sequence between two epoch
//! days as pure integer arithmetic. `holiday_filter` removes dates that are
//! members of a per-row date set; `weekday_filter` removes dates whose ISO
//! weekday index (1 = Monday, ..., 7 = Sunday) is a member of a per-row
//! weekday set. Both filters preserve order.

use vstd::prelude::*;
use std::collections::HashSet;
use crate::dates::{weekday_index, weekday_of_day};

verus! {

broadcast use vstd::std_specs::hash::group_hash_axioms;

/// The closed daily sequence from `start` to `end`: empty when
/// `start > end`, else `start, start + 1, ..., end`.
pub open spec fn daily_range_seq(start: i32, end: i32) -> Seq<i32> {
    if start > end {
        Seq::empty()
    } else {
        Seq::new((end - start + 1) as nat, |i: int| (start + i) as i32)
    }
}

/// Order-preserving removal of every date that is a member of `skip`.
pub open spec fn holiday_filter_seq(dates: Seq<i32>, skip: Set<i32>) -> Seq<i32> {
    dates.filter(|d: i32| !skip.contains(d))
}

/// Order-preserving removal of every date whose ISO weekday index is a
/// member of `weekend`.
pub open spec fn weekday_filter_seq(dates: Seq<i32>, weekend: Set<i64>) -> Seq<i32> {
    dates.filter(|d: i32| !weekend.contains(weekday_index(d as int) as i64))
}

/// Generates the full inclusive daily sequence between two epoch days.
///
/// `start > end` yields an empty sequence, never an error.
pub fn daily_range(start: i32, end: i32) -> (r: Vec<i32>)
    ensures
        r@ == daily_range_seq(start, end),
{
    let mut out: Vec<i32> = Vec::new();
    if start > end {
        proof {
            assert(out@ =~= daily_range_seq(start, end));
        }
        return out;
    }
    let mut cur: i64 = start as i64;
    while cur <= end as i64
        invariant
            start <= end,
            start as i64 <= cur <= end as i64 + 1,
            out@.len() == cur - start,
            forall|j: int| 0 <= j < out@.len() ==> out@[j] == (start + j) as i32,
        decreases end as i64 + 1 - cur,
    {
        out.push(cur as i32);
        cur = cur + 1;
    }
    proof {
        assert(out@ =~= daily_range_seq(start, end));
    }
    out
}

/// Removes from `dates`, keeping order, every date contained in `skip`.
pub fn holiday_filter(dates: &Vec<i32>, skip: &HashSet<i32>) -> (r: Vec<i32>)
    ensures
        r@ == holiday_filter_seq(dates@, skip@),
{
    let ghost pred = |d: i32| !skip@.contains(d);
    let mut out: Vec<i32> = Vec::new();
    let mut i: usize = 0;
    while i < dates.len()
        invariant
            i <= dates.len(),
            out@ == dates@.take(i as int).filter(pred),
            pred == (|d: i32| !skip@.contains(d)),
        decreases dates.len() - i,
    {
        let d = dates[i];
        proof {
            reveal(Seq::filter);
            assert(dates@.take(i + 1).drop_last() =~= dates@.take(i as int));
            assert(dates@.take(i + 1).last() == d);
        }
        if !skip.contains(&d) {
            out.push(d);
        }
        i = i + 1;
    }
    proof {
        assert(dates@.take(dates@.len() as int) =~= dates@);
    }
    out
}

/// Removes from `dates`, keeping order, every date whose ISO weekday index
/// is contained in `weekend`.
pub fn weekday_filter(dates: &Vec<i32>, weekend: &HashSet<i64>) -> (r: Vec<i32>)
    ensures
        r@ == weekday_filter_seq(dates@, weekend@),
{
    let ghost pred = |d: i32| !weekend@.contains(weekday_index(d as int) as i64);
    let mut out: Vec<i32> = Vec::new();
    let mut i: usize = 0;
    while i < dates.len()
        invariant
            i <= dates.len(),
            out@ == dates@.take(i as int).filter(pred),
            pred == (|d: i32| !weekend@.contains(weekday_index(d as int) as i64)),
        decreases dates.len() - i,
    {
        let d = dates[i];
        proof {
            reveal(Seq::filter);
            assert(dates@.take(i + 1).drop_last() =~= dates@.take(i as int));
            assert(dates@.take(i + 1).last() == d);
        }
        let wd = weekday_of_day(d);
        if !weekend.contains(&wd) {
            out.push(d);
        }
        i = i + 1;
    }
    proof {
        assert(dates@.take(dates@.len() as int) =~= dates@);
    }
    out
}

/// Applies the holiday filter, then the weekday filter, to the full daily
/// range between `start` and `end`.
pub fn generate_row(start: i32, end: i32, skip: &HashSet<i32>, weekend: &HashSet<i64>) -> (r: Vec<
    i32,
>)
    ensures
        r@ == weekday_filter_seq(
            holiday_filter_seq(daily_range_seq(start, end), skip@),
            weekend@,
        ),
{
    let range = daily_range(start, end);
    let no_holidays = holiday_filter(&range, skip);
    weekday_filter(&no_holidays, weekend)
}

} // verus!
