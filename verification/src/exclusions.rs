//! Per-row exclusion sets.
//!
//! An exclusion set is materialized fresh for one row from that row's nested
//! sequence cell: its non-null entries, deduplicated into a hash set, with
//! nested nulls discarded. It is used for that row's filtering only and then
//! dropped, so one row's set can never leak into another row's work.

use vstd::prelude::*;
use std::collections::HashSet;

verus! {

broadcast use vstd::std_specs::hash::group_hash_axioms;

/// The set of non-null entries of a nullable date list.
pub open spec fn date_entries_set(entries: Seq<Option<i32>>) -> Set<i32> {
    Set::new(|v: i32| exists|j: int| 0 <= j < entries.len() && entries[j] == Some(v))
}

/// The set of non-null entries of a nullable weekday-index list.
pub open spec fn weekday_entries_set(entries: Seq<Option<i64>>) -> Set<i64> {
    Set::new(|v: i64| exists|j: int| 0 <= j < entries.len() && entries[j] == Some(v))
}

/// Builds the deduplicated set of dates to skip from one row's cell,
/// discarding nested nulls.
pub fn build_skip_set(entries: &Vec<Option<i32>>) -> (r: HashSet<i32>)
    ensures
        r@ == date_entries_set(entries@),
{
    let mut out: HashSet<i32> = HashSet::new();
    let mut i: usize = 0;
    while i < entries.len()
        invariant
            i <= entries.len(),
            out@ == date_entries_set(entries@.take(i as int)),
        decreases entries.len() - i,
    {
        let ghost before = out@;
        match entries[i] {
            Some(v) => {
                out.insert(v);
            },
            None => {},
        }
        proof {
            let prefix = entries@.take(i + 1);
            assert(prefix.drop_last() =~= entries@.take(i as int));
            assert forall|w: i32| out@.contains(w) implies date_entries_set(prefix).contains(
                w,
            ) by {
                if before.contains(w) {
                    let j = choose|j: int|
                        0 <= j < i && entries@.take(i as int)[j] == Some(w);
                    assert(prefix[j] == Some(w));
                } else {
                    assert(prefix[i as int] == Some(w));
                }
            }
            assert forall|w: i32| date_entries_set(prefix).contains(w) implies out@.contains(
                w,
            ) by {
                let j = choose|j: int| 0 <= j < prefix.len() && prefix[j] == Some(w);
                if j < i {
                    assert(entries@.take(i as int)[j] == Some(w));
                }
            }
            assert(out@ =~= date_entries_set(prefix));
        }
        i = i + 1;
    }
    proof {
        assert(entries@.take(entries@.len() as int) =~= entries@);
    }
    out
}

/// Builds the deduplicated set of weekday indices to skip from one row's
/// cell, discarding nested nulls.
pub fn build_weekend_set(entries: &Vec<Option<i64>>) -> (r: HashSet<i64>)
    ensures
        r@ == weekday_entries_set(entries@),
{
    let mut out: HashSet<i64> = HashSet::new();
    let mut i: usize = 0;
    while i < entries.len()
        invariant
            i <= entries.len(),
            out@ == weekday_entries_set(entries@.take(i as int)),
        decreases entries.len() - i,
    {
        let ghost before = out@;
        match entries[i] {
            Some(v) => {
                out.insert(v);
            },
            None => {},
        }
        proof {
            let prefix = entries@.take(i + 1);
            assert(prefix.drop_last() =~= entries@.take(i as int));
            assert forall|w: i64| out@.contains(w) implies weekday_entries_set(prefix).contains(
                w,
            ) by {
                if before.contains(w) {
                    let j = choose|j: int|
                        0 <= j < i && entries@.take(i as int)[j] == Some(w);
                    assert(prefix[j] == Some(w));
                } else {
                    assert(prefix[i as int] == Some(w));
                }
            }
            assert forall|w: i64| weekday_entries_set(prefix).contains(w) implies out@.contains(
                w,
            ) by {
                let j = choose|j: int| 0 <= j < prefix.len() && prefix[j] == Some(w);
                if j < i {
                    assert(entries@.take(i as int)[j] == Some(w));
                }
            }
            assert(out@ =~= weekday_entries_set(prefix));
        }
        i = i + 1;
    }
    proof {
        assert(entries@.take(entries@.len() as int) =~= entries@);
    }
    out
}

} // verus!
