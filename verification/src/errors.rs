//! Call-level errors of the engine.
//!
//! A structural or parameter problem always aborts the whole call before any
//! output is produced; it never degrades to a per-row null. Row-local missing
//! data is the opposite: it yields a null output row and is never an error.

use vstd::prelude::*;

verus! {

/// Why a whole call was rejected.
#[derive(Clone, Copy, Debug, PartialEq, Eq, Structural)]
pub enum ComputeError {
    /// The start and end columns have lengths that are neither equal nor
    /// broadcastable (one of them of length 1). Both lengths are carried.
    StartEndLengthMismatch { start_len: usize, end_len: usize },
    /// A per-row exclusion column does not align one-to-one with the
    /// broadcast-resolved row stream.
    ExclusionLengthMismatch { expected: usize, got: usize },
    /// A scalar parameter outside its allowed domain, such as a uniform
    /// bound pair with low at or above high, or a non-positive standard
    /// deviation.
    InvalidParameter,
    /// The difference operator was asked for a mode it does not know.
    UnknownDiffMode,
    /// An outlier-handling variant that is recognized but not supported.
    UnimplementedOutlierMode,
}

} // verus!
