//! The engine's general laws, stated over the specification functions that
//! the executable contracts use, and proved once for all inputs.

use vstd::prelude::*;
use crate::dates::weekday_index;
use crate::driver::{
    broadcast_cell, broadcast_len, ranges_output, row_output, shapes_compatible, skip_aligned,
    skip_cell, weekend_aligned, weekend_cell,
};
use crate::exclusions::{date_entries_set, weekday_entries_set};
use crate::ranges::{daily_range_seq, holiday_filter_seq, weekday_filter_seq};

verus! {

/// A filter keeps a sequence unchanged when every element satisfies the
/// predicate.
proof fn lemma_filter_identity<A>(s: Seq<A>, p: spec_fn(A) -> bool)
    requires
        forall|i: int| 0 <= i < s.len() ==> p(s[i]),
    ensures
        s.filter(p) == s,
    decreases s.len(),
{
    reveal(Seq::filter);
    if s.len() == 0 {
        assert(s.filter(p) =~= s);
    } else {
        lemma_filter_identity(s.drop_last(), p);
        assert(s.filter(p) =~= s);
    }
}

/// A row whose exclusion cells hold no entries, with start at or before
/// end, yields the exact closed daily sequence from start to end: one date
/// per day, `end - start + 1` of them.
pub proof fn lemma_full_range_when_no_exclusions(start: i32, end: i32)
    requires
        start <= end,
    ensures
        row_output(Some(start), Some(end), Some(Seq::empty()), Some(Seq::empty())) == Some(
            daily_range_seq(start, end),
        ),
        daily_range_seq(start, end).len() == end - start + 1,
        forall|k: int| 0 <= k <= end - start ==> daily_range_seq(start, end)[k] == start + k,
{
    assert(date_entries_set(Seq::<Option<i32>>::empty()) =~= Set::<i32>::empty());
    assert(weekday_entries_set(Seq::<Option<i64>>::empty()) =~= Set::<i64>::empty());
    let range = daily_range_seq(start, end);
    lemma_filter_identity(range, |d: i32| !Set::<i32>::empty().contains(d));
    lemma_filter_identity(
        range,
        |d: i32| !Set::<i64>::empty().contains(weekday_index(d as int) as i64),
    );
}

/// A row whose start is after its end yields an empty sequence — not a
/// null row and not an error — whatever its exclusion cells hold.
pub proof fn lemma_empty_when_start_after_end(
    start: i32,
    end: i32,
    sk: Seq<Option<i32>>,
    wk: Seq<Option<i64>>,
)
    requires
        start > end,
    ensures
        row_output(Some(start), Some(end), Some(sk), Some(wk)) == Some(Seq::<i32>::empty()),
{
    reveal(Seq::filter);
    assert(row_output(Some(start), Some(end), Some(sk), Some(wk)) =~~= Some(
        Seq::<i32>::empty(),
    ));
}

/// For non-empty compatible columns the broadcast output length is the
/// larger of the two input lengths.
pub proof fn lemma_broadcast_len_is_max(len_start: nat, len_end: nat)
    requires
        shapes_compatible(len_start, len_end),
        len_start > 0,
        len_end > 0,
    ensures
        broadcast_len(len_start, len_end) == if len_start >= len_end {
            len_start
        } else {
            len_end
        },
{
}

/// With a length-1 start column, every output row is computed against that
/// single start cell and its own end cell.
pub proof fn lemma_broadcast_start(
    start: Seq<Option<i32>>,
    end: Seq<Option<i32>>,
    skip: Option<Seq<Option<Seq<Option<i32>>>>>,
    weekend: Option<Seq<Option<Seq<Option<i64>>>>>,
    i: int,
)
    requires
        start.len() == 1,
        0 <= i < broadcast_len(start.len(), end.len()),
    ensures
        ranges_output(start, end, skip, weekend).len() == broadcast_len(
            start.len(),
            end.len(),
        ),
        ranges_output(start, end, skip, weekend)[i] == row_output(
            start[0],
            end[i],
            skip_cell(skip, i),
            weekend_cell(weekend, i),
        ),
{
}

/// With a length-1 end column, every output row is computed against its own
/// start cell and that single end cell.
pub proof fn lemma_broadcast_end(
    start: Seq<Option<i32>>,
    end: Seq<Option<i32>>,
    skip: Option<Seq<Option<Seq<Option<i32>>>>>,
    weekend: Option<Seq<Option<Seq<Option<i64>>>>>,
    i: int,
)
    requires
        end.len() == 1,
        0 <= i < broadcast_len(start.len(), end.len()),
    ensures
        ranges_output(start, end, skip, weekend).len() == broadcast_len(
            start.len(),
            end.len(),
        ),
        ranges_output(start, end, skip, weekend)[i] == row_output(
            start[i],
            end[0],
            skip_cell(skip, i),
            weekend_cell(weekend, i),
        ),
{
}

/// A null cell in any of a row's four inputs makes that row's output null.
pub proof fn lemma_null_input_yields_null_row(
    s: Option<i32>,
    e: Option<i32>,
    sk: Option<Seq<Option<i32>>>,
    wk: Option<Seq<Option<i64>>>,
)
    requires
        s is None || e is None || sk is None || wk is None,
    ensures
        row_output(s, e, sk, wk) is None,
{
}

/// Each output row is a function of its own row's four cells alone, so no
/// row's nulls or exclusion entries can affect any other row.
pub proof fn lemma_row_locality(
    start: Seq<Option<i32>>,
    end: Seq<Option<i32>>,
    skip: Option<Seq<Option<Seq<Option<i32>>>>>,
    weekend: Option<Seq<Option<Seq<Option<i64>>>>>,
    i: int,
)
    requires
        0 <= i < broadcast_len(start.len(), end.len()),
    ensures
        ranges_output(start, end, skip, weekend)[i] == row_output(
            broadcast_cell(start, i),
            broadcast_cell(end, i),
            skip_cell(skip, i),
            weekend_cell(weekend, i),
        ),
{
}

/// No member of the skip set survives the holiday filter.
pub proof fn lemma_skipped_date_absent(dates: Seq<i32>, skip: Set<i32>, d: i32)
    requires
        skip.contains(d),
    ensures
        !holiday_filter_seq(dates, skip).contains(d),
{
    let pred = |x: i32| !skip.contains(x);
    let filtered = dates.filter(pred);
    assert forall|i: int| 0 <= i < filtered.len() implies filtered[i] != d by {
        Seq::lemma_filter_pred(dates, pred, i);
    }
}

/// No date whose weekday index is a member of the weekend set survives the
/// weekday filter.
pub proof fn lemma_weekend_day_absent(dates: Seq<i32>, weekend: Set<i64>, d: i32)
    requires
        weekend.contains(weekday_index(d as int) as i64),
    ensures
        !weekday_filter_seq(dates, weekend).contains(d),
{
    let pred = |x: i32| !weekend.contains(weekday_index(x as int) as i64);
    let filtered = dates.filter(pred);
    assert forall|i: int| 0 <= i < filtered.len() implies filtered[i] != d by {
        Seq::lemma_filter_pred(dates, pred, i);
    }
}

/// Applying the holiday filter twice with the same exclusion set yields the
/// same result as applying it once: set-difference is idempotent.
pub proof fn lemma_holiday_filter_idempotent(dates: Seq<i32>, skip: Set<i32>)
    ensures
        holiday_filter_seq(holiday_filter_seq(dates, skip), skip) == holiday_filter_seq(
            dates,
            skip,
        ),
{
    let pred = |x: i32| !skip.contains(x);
    let filtered = dates.filter(pred);
    assert forall|i: int| 0 <= i < filtered.len() implies pred(filtered[i]) by {
        Seq::lemma_filter_pred(dates, pred, i);
    }
    lemma_filter_identity(filtered, pred);
}

} // verus!
