//! The broadcasting driver.
//!
//! It resolves the length relationship between the start and end columns,
//! checks that the per-row exclusion columns align one-to-one with the
//! broadcast-resolved row stream, then walks the rows: a null start, end,
//! skip cell or weekend cell yields a null output row and nothing else; any
//! other row runs generator, holiday filter and weekday filter, and the
//! result is appended to the builder. The builder is finished exactly once,
//! after every row, so an error never exposes partial output.

use vstd::prelude::*;
use std::collections::HashSet;
use crate::builder::{DateListColumn, ListResultBuilder};
use crate::errors::ComputeError;
use crate::exclusions::{build_skip_set, build_weekend_set, date_entries_set, weekday_entries_set};
use crate::ranges::{daily_range_seq, generate_row, holiday_filter_seq, weekday_filter_seq};

verus! {

/// How the start and end column lengths relate, resolved once before the
/// rows are walked.
#[derive(Clone, Copy, Debug, PartialEq, Eq, Structural)]
pub enum BroadcastShape {
    /// Equal lengths: the columns zip elementwise.
    ElementwiseZip,
    /// The single start cell is broadcast across every end row.
    BroadcastStart,
    /// The single end cell is broadcast across every start row.
    BroadcastEnd,
}

/// Whether the two column lengths are equal or broadcastable.
pub open spec fn shapes_compatible(len_start: nat, len_end: nat) -> bool {
    len_start == len_end || len_start == 1 || len_end == 1
}

/// The broadcast-resolved output length.
pub open spec fn broadcast_len(len_start: nat, len_end: nat) -> nat {
    if len_start == len_end {
        len_start
    } else if len_start == 1 {
        len_end
    } else {
        len_start
    }
}

/// The value a column contributes to row `i` under broadcasting: its single
/// cell when it has length 1, else its cell at `i`.
pub open spec fn broadcast_cell<A>(col: Seq<A>, i: int) -> A {
    if col.len() == 1 {
        col[0]
    } else {
        col[i]
    }
}

/// The skip cell of row `i`: an absent column acts as an empty entry list
/// for every row; a present column contributes its own cell, which may be
/// null.
pub open spec fn skip_cell(col: Option<Seq<Option<Seq<Option<i32>>>>>, i: int) -> Option<
    Seq<Option<i32>>,
> {
    match col {
        None => Some(Seq::empty()),
        Some(c) => c[i],
    }
}

/// The weekend cell of row `i`, as [`skip_cell`].
pub open spec fn weekend_cell(col: Option<Seq<Option<Seq<Option<i64>>>>>, i: int) -> Option<
    Seq<Option<i64>>,
> {
    match col {
        None => Some(Seq::empty()),
        Some(c) => c[i],
    }
}

/// A present skip column must align one-to-one with the broadcast length.
pub open spec fn skip_aligned(col: Option<Seq<Option<Seq<Option<i32>>>>>, n: nat) -> bool {
    match col {
        None => true,
        Some(c) => c.len() == n,
    }
}

/// A present weekend column must align one-to-one with the broadcast length.
pub open spec fn weekend_aligned(col: Option<Seq<Option<Seq<Option<i64>>>>>, n: nat) -> bool {
    match col {
        None => true,
        Some(c) => c.len() == n,
    }
}

/// One row's output: null if any of the four cells is null, else the daily
/// range narrowed by the holiday filter and then the weekday filter, the
/// exclusion sets being the deduplicated non-null entries of the two cells.
pub open spec fn row_output(
    s: Option<i32>,
    e: Option<i32>,
    sk: Option<Seq<Option<i32>>>,
    wk: Option<Seq<Option<i64>>>,
) -> Option<Seq<i32>> {
    match (s, e, sk, wk) {
        (Some(sv), Some(ev), Some(skv), Some(wkv)) => Some(
            weekday_filter_seq(
                holiday_filter_seq(daily_range_seq(sv, ev), date_entries_set(skv)),
                weekday_entries_set(wkv),
            ),
        ),
        _ => None,
    }
}

/// The whole output column: one [`row_output`] per broadcast-resolved row.
pub open spec fn ranges_output(
    start: Seq<Option<i32>>,
    end: Seq<Option<i32>>,
    skip: Option<Seq<Option<Seq<Option<i32>>>>>,
    weekend: Option<Seq<Option<Seq<Option<i64>>>>>,
) -> Seq<Option<Seq<i32>>> {
    Seq::new(
        broadcast_len(start.len(), end.len()),
        |i: int|
            row_output(
                broadcast_cell(start, i),
                broadcast_cell(end, i),
                skip_cell(skip, i),
                weekend_cell(weekend, i),
            ),
    )
}

/// Resolves the three-way broadcasting decision, in order: equal lengths
/// zip; a length-1 start broadcasts; a length-1 end broadcasts; anything
/// else is a compute error naming both lengths.
pub fn resolve_broadcast(len_start: usize, len_end: usize) -> (r: Result<
    BroadcastShape,
    ComputeError,
>)
    ensures
        match r {
            Ok(shape) => {
                &&& shapes_compatible(len_start as nat, len_end as nat)
                &&& shape == (if len_start == len_end {
                    BroadcastShape::ElementwiseZip
                } else if len_start == 1 {
                    BroadcastShape::BroadcastStart
                } else {
                    BroadcastShape::BroadcastEnd
                })
            },
            Err(e) => {
                &&& !shapes_compatible(len_start as nat, len_end as nat)
                &&& e == (ComputeError::StartEndLengthMismatch {
                    start_len: len_start,
                    end_len: len_end,
                })
            },
        },
{
    if len_start == len_end {
        Ok(BroadcastShape::ElementwiseZip)
    } else if len_start == 1 {
        Ok(BroadcastShape::BroadcastStart)
    } else if len_end == 1 {
        Ok(BroadcastShape::BroadcastEnd)
    } else {
        Err(ComputeError::StartEndLengthMismatch { start_len: len_start, end_len: len_end })
    }
}

/// Generates the list-of-dates column for paired nullable start and end
/// columns, with optional per-row exclusion columns.
///
/// Success is owed exactly when the start and end lengths are equal or
/// broadcastable and every present exclusion column aligns with the
/// broadcast length; a shape problem aborts the whole call with the error
/// that names the offending lengths, and no partial output ever escapes.
pub fn generate_ranges(
    start: &Vec<Option<i32>>,
    end: &Vec<Option<i32>>,
    skip: Option<&Vec<Option<Vec<Option<i32>>>>>,
    weekend: Option<&Vec<Option<Vec<Option<i64>>>>>,
) -> (r: Result<DateListColumn, ComputeError>)
    ensures
        match r {
            Ok(out) => {
                &&& shapes_compatible(start@.len(), end@.len())
                &&& skip_aligned(skip.deep_view(), broadcast_len(start@.len(), end@.len()))
                &&& weekend_aligned(weekend.deep_view(), broadcast_len(start@.len(), end@.len()))
                &&& out@ == ranges_output(start@, end@, skip.deep_view(), weekend.deep_view())
            },
            Err(e) => match e {
                ComputeError::StartEndLengthMismatch { start_len, end_len } => {
                    &&& !shapes_compatible(start@.len(), end@.len())
                    &&& start_len == start@.len()
                    &&& end_len == end@.len()
                },
                ComputeError::ExclusionLengthMismatch { expected, got } => {
                    &&& shapes_compatible(start@.len(), end@.len())
                    &&& expected == broadcast_len(start@.len(), end@.len())
                    &&& if !skip_aligned(skip.deep_view(), expected as nat) {
                        got == skip.deep_view().unwrap().len()
                    } else {
                        &&& !weekend_aligned(weekend.deep_view(), expected as nat)
                        &&& got == weekend.deep_view().unwrap().len()
                    }
                },
                _ => false,
            },
        },
{
    let ghost skip_v = skip.deep_view();
    let ghost weekend_v = weekend.deep_view();
    let len_start = start.len();
    let len_end = end.len();
    let out_len: usize = match resolve_broadcast(len_start, len_end) {
        Ok(BroadcastShape::ElementwiseZip) => len_start,
        Ok(BroadcastShape::BroadcastStart) => len_end,
        Ok(BroadcastShape::BroadcastEnd) => len_start,
        Err(e) => {
            return Err(e);
        },
    };
    proof {
        assert(out_len == broadcast_len(start@.len(), end@.len()));
    }
    if let Some(sk) = skip {
        if sk.len() != out_len {
            return Err(ComputeError::ExclusionLengthMismatch {
                expected: out_len,
                got: sk.len(),
            });
        }
    }
    if let Some(wk) = weekend {
        if wk.len() != out_len {
            return Err(ComputeError::ExclusionLengthMismatch {
                expected: out_len,
                got: wk.len(),
            });
        }
    }
    let mut bld = ListResultBuilder::new(out_len);
    let mut i: usize = 0;
    while i < out_len
        invariant
            i <= out_len,
            len_start == start@.len(),
            len_end == end@.len(),
            shapes_compatible(start@.len(), end@.len()),
            out_len == broadcast_len(start@.len(), end@.len()),
            skip_v == skip.deep_view(),
            weekend_v == weekend.deep_view(),
            skip_aligned(skip_v, out_len as nat),
            weekend_aligned(weekend_v, out_len as nat),
            bld@ == ranges_output(start@, end@, skip_v, weekend_v).take(i as int),
        decreases out_len - i,
    {
        let s_cell: Option<i32> = if len_start == 1 {
            start[0]
        } else {
            start[i]
        };
        let e_cell: Option<i32> = if len_end == 1 {
            end[0]
        } else {
            end[i]
        };
        proof {
            assert(s_cell == broadcast_cell(start@, i as int));
            assert(e_cell == broadcast_cell(end@, i as int));
        }
        let skip_cell_null: bool = match skip {
            None => false,
            Some(cols) => cols[i].is_none(),
        };
        let weekend_cell_null: bool = match weekend {
            None => false,
            Some(cols) => cols[i].is_none(),
        };
        if s_cell.is_none() || e_cell.is_none() || skip_cell_null || weekend_cell_null {
            proof {
                assert(row_output(
                    broadcast_cell(start@, i as int),
                    broadcast_cell(end@, i as int),
                    skip_cell(skip_v, i as int),
                    weekend_cell(weekend_v, i as int),
                ) is None);
            }
            bld.append_null();
        } else {
            let skip_set: HashSet<i32> = match skip {
                None => {
                    let empty_set = HashSet::new();
                    proof {
                        assert(empty_set@ =~= date_entries_set(Seq::<Option<i32>>::empty()));
                    }
                    empty_set
                },
                Some(cols) => {
                    let entries: &Vec<Option<i32>> = cols[i].as_ref().unwrap();
                    let s = build_skip_set(entries);
                    proof {
                        assert(entries@ =~~= skip_cell(skip_v, i as int).unwrap());
                    }
                    s
                },
            };
            let weekend_set: HashSet<i64> = match weekend {
                None => {
                    let empty_set = HashSet::new();
                    proof {
                        assert(empty_set@ =~= weekday_entries_set(Seq::<Option<i64>>::empty()));
                    }
                    empty_set
                },
                Some(cols) => {
                    let entries: &Vec<Option<i64>> = cols[i].as_ref().unwrap();
                    let s = build_weekend_set(entries);
                    proof {
                        assert(entries@ =~~= weekend_cell(weekend_v, i as int).unwrap());
                    }
                    s
                },
            };
            let row = generate_row(s_cell.unwrap(), e_cell.unwrap(), &skip_set, &weekend_set);
            proof {
                assert(Some(row@) == row_output(
                    broadcast_cell(start@, i as int),
                    broadcast_cell(end@, i as int),
                    skip_cell(skip_v, i as int),
                    weekend_cell(weekend_v, i as int),
                ));
            }
            bld.append_sequence(row);
        }
        proof {
            assert(bld@ =~= ranges_output(start@, end@, skip_v, weekend_v).take(i + 1));
        }
        i = i + 1;
    }
    proof {
        assert(ranges_output(start@, end@, skip_v, weekend_v).take(out_len as int)
            =~= ranges_output(start@, end@, skip_v, weekend_v));
    }
    Ok(bld.finish())
}

} // verus!
