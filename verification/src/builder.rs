//! Two-phase accumulation of per-row date sequences into one list column.
//!
//! While under construction the only permitted operations are appending a
//! null row or appending one sequence, in row order. `finish` consumes the
//! builder and yields the immutable output column, so a second finish, or an
//! append after finish, is impossible by construction rather than flagged at
//! run time.

use vstd::prelude::*;

verus! {

/// A list-valued output column: one `Option<Vec<i32>>` cell per row, where
/// `None` is a null row and `Some` holds that row's ordered date sequence.
#[derive(Debug)]
pub struct DateListColumn {
    pub rows: Vec<Option<Vec<i32>>>,
}

impl View for DateListColumn {
    type V = Seq<Option<Seq<i32>>>;

    open spec fn view(&self) -> Seq<Option<Seq<i32>>> {
        self.rows.deep_view()
    }
}

impl DateListColumn {
    /// The number of rows.
    pub fn len(&self) -> (r: usize)
        ensures
            r == self@.len(),
    {
        self.rows.len()
    }
}

/// The mutable accumulation phase of a [`DateListColumn`].
pub struct ListResultBuilder {
    rows: Vec<Option<Vec<i32>>>,
}

impl View for ListResultBuilder {
    type V = Seq<Option<Seq<i32>>>;

    closed spec fn view(&self) -> Seq<Option<Seq<i32>>> {
        self.rows.deep_view()
    }
}

impl ListResultBuilder {
    /// Starts an empty builder. The expected row count is purely a
    /// reallocation-avoidance hint; misestimating it never affects what the
    /// finished column holds.
    pub fn new(expected_rows: usize) -> (r: Self)
        ensures
            r@ == Seq::<Option<Seq<i32>>>::empty(),
    {
        let rows: Vec<Option<Vec<i32>>> = Vec::with_capacity(expected_rows);
        proof {
            assert(rows.deep_view() =~~= Seq::<Option<Seq<i32>>>::empty());
        }
        ListResultBuilder { rows }
    }

    /// Appends one null output row.
    pub fn append_null(&mut self)
        ensures
            final(self)@ == old(self)@.push(None),
    {
        self.rows.push(None);
        proof {
            assert(self.rows.deep_view() =~~= old(self)@.push(None));
        }
    }

    /// Appends `n` null output rows.
    pub fn append_nulls(&mut self, n: usize)
        ensures
            final(self)@ == old(self)@ + Seq::new(n as nat, |i: int| None::<Seq<i32>>),
    {
        let mut k: usize = 0;
        while k < n
            invariant
                k <= n,
                self@ == old(self)@ + Seq::new(k as nat, |i: int| None::<Seq<i32>>),
            decreases n - k,
        {
            self.append_null();
            proof {
                assert(self@ =~= old(self)@ + Seq::new(
                    (k + 1) as nat,
                    |i: int| None::<Seq<i32>>,
                ));
            }
            k = k + 1;
        }
    }

    /// Appends one row holding the given date sequence.
    pub fn append_sequence(&mut self, seq: Vec<i32>)
        ensures
            final(self)@ == old(self)@.push(Some(seq@)),
    {
        let ghost dates = seq@;
        self.rows.push(Some(seq));
        proof {
            assert(self.rows.deep_view() =~~= old(self)@.push(Some(dates)));
        }
    }

    /// Consumes the builder and yields the immutable output column.
    pub fn finish(self) -> (r: DateListColumn)
        ensures
            r@ == self@,
    {
        DateListColumn { rows: self.rows }
    }
}

} // verus!
