//! The stateless elementwise collaborator kernels of the collection.
//!
//! Each is a one-to-one map over a single column plus scalar parameters,
//! with no shape broadcasting and no cross-row set logic. Cells are
//! nullable; a null cell maps to a null cell unless a kernel says
//! otherwise. Additions and subtractions wrap on overflow, as the hosting
//! engine's release arithmetic does.

use vstd::prelude::*;
use vstd::wrapping::i64_specs;
use crate::errors::ComputeError;

verus! {

/// The letter-rotation transform of one cell: the first character moves to
/// the end and the fixed suffix `ay` is appended; an empty cell passes
/// through unchanged.
pub open spec fn rotate_spec(value: Seq<char>) -> Seq<char> {
    if value.len() == 0 {
        value
    } else {
        value.subrange(1, value.len() as int) + seq![value[0], 'a', 'y']
    }
}

/// Applies the letter rotation to one cell.
pub fn rotate_with_suffix(value: &Vec<char>) -> (r: Vec<char>)
    ensures
        r@ == rotate_spec(value@),
{
    let mut out: Vec<char> = Vec::new();
    if value.len() == 0 {
        proof {
            assert(out@ =~= rotate_spec(value@));
        }
        return out;
    }
    let mut i: usize = 1;
    while i < value.len()
        invariant
            1 <= i <= value.len(),
            out@ =~= value@.subrange(1, i as int),
        decreases value.len() - i,
    {
        out.push(value[i]);
        proof {
            assert(out@ =~= value@.subrange(1, i + 1));
        }
        i = i + 1;
    }
    out.push(value[0]);
    out.push('a');
    out.push('y');
    proof {
        assert(out@ =~= rotate_spec(value@));
    }
    out
}

/// Applies the letter rotation to every non-null cell of a column.
pub fn rotate_column(col: &Vec<Option<Vec<char>>>) -> (r: Vec<Option<Vec<char>>>)
    ensures
        r.deep_view().len() == col.deep_view().len(),
        forall|i: int|
            0 <= i < col.deep_view().len() ==> r.deep_view()[i] == match col.deep_view()[i] {
                Some(v) => Some(rotate_spec(v)),
                None => None::<Seq<char>>,
            },
{
    let mut out: Vec<Option<Vec<char>>> = Vec::new();
    let mut i: usize = 0;
    while i < col.len()
        invariant
            i <= col.len(),
            out.deep_view().len() == i,
            forall|j: int|
                0 <= j < i ==> out.deep_view()[j] == match col.deep_view()[j] {
                    Some(v) => Some(rotate_spec(v)),
                    None => None::<Seq<char>>,
                },
        decreases col.len() - i,
    {
        let ghost prev = out.deep_view();
        match &col[i] {
            Some(cell) => {
                let rotated = rotate_with_suffix(cell);
                proof {
                    assert(cell.deep_view() =~= cell@);
                    assert(rotated.deep_view() =~= rotated@);
                    assert(col.deep_view()[i as int] == Some(cell.deep_view()));
                }
                out.push(Some(rotated));
                proof {
                    assert(out.deep_view() =~= prev.push(Some(rotated.deep_view())));
                }
            },
            None => {
                out.push(None);
                proof {
                    assert(col.deep_view()[i as int] is None);
                    assert(out.deep_view() =~= prev.push(None));
                }
            },
        }
        i = i + 1;
    }
    out
}

/// The running state of the seeded sum after the first `i` cells: each
/// non-null cell adds its value plus the seed, with wrapping arithmetic;
/// null cells leave the state unchanged.
pub open spec fn running_sum_state(values: Seq<Option<i64>>, seed: i64, i: int) -> i64
    decreases i,
{
    if i <= 0 {
        0
    } else {
        match values[i - 1] {
            Some(x) => i64_specs::wrapping_add(
                running_sum_state(values, seed, i - 1),
                i64_specs::wrapping_add(x, seed),
            ),
            None => running_sum_state(values, seed, i - 1),
        }
    }
}

/// The seeded running sum of a column: cell `i` is null where the input is
/// null, else the state after the cells up to and including `i`.
pub fn seeded_running_sum(values: &Vec<Option<i64>>, seed: i64) -> (r: Vec<Option<i64>>)
    ensures
        r@.len() == values@.len(),
        forall|i: int|
            0 <= i < values@.len() ==> r@[i] == match values@[i] {
                Some(_) => Some(running_sum_state(values@, seed, i + 1)),
                None => None::<i64>,
            },
{
    let mut out: Vec<Option<i64>> = Vec::new();
    let mut state: i64 = 0;
    let mut i: usize = 0;
    while i < values.len()
        invariant
            i <= values.len(),
            out@.len() == i,
            state == running_sum_state(values@, seed, i as int),
            forall|j: int|
                0 <= j < i ==> out@[j] == match values@[j] {
                    Some(_) => Some(running_sum_state(values@, seed, j + 1)),
                    None => None::<i64>,
                },
        decreases values.len() - i,
    {
        match values[i] {
            Some(x) => {
                state = state.wrapping_add(x.wrapping_add(seed));
                out.push(Some(state));
            },
            None => {
                out.push(None);
            },
        }
        i = i + 1;
    }
    out
}

/// The shift of a column by `n` rows: cell `i` takes the input cell at
/// `i - n`, and positions that fall outside the column become null.
pub open spec fn shift_cell(values: Seq<Option<i64>>, n: int, i: int) -> Option<i64> {
    if 0 <= i - n < values.len() {
        values[i - n]
    } else {
        None
    }
}

/// Shifts a column by `n` rows (forward for positive `n`, backward for
/// negative), filling vacated positions with null.
pub fn shift_column(values: &Vec<Option<i64>>, n: i64) -> (r: Vec<Option<i64>>)
    ensures
        r@.len() == values@.len(),
        forall|i: int| 0 <= i < values@.len() ==> r@[i] == shift_cell(values@, n as int, i),
{
    let mut out: Vec<Option<i64>> = Vec::new();
    let mut i: usize = 0;
    while i < values.len()
        invariant
            i <= values.len(),
            out@.len() == i,
            forall|j: int| 0 <= j < i ==> out@[j] == shift_cell(values@, n as int, j),
        decreases values.len() - i,
    {
        let src: i128 = i as i128 - n as i128;
        if 0 <= src && src < values.len() as i128 {
            out.push(values[src as usize]);
        } else {
            out.push(None);
        }
        i = i + 1;
    }
    out
}

/// The arithmetic difference of a column with its own shift by `n`: cell
/// `i` is `values[i] - values[i - n]` with wrapping subtraction, and null
/// where either side is null.
pub open spec fn diff_cell(values: Seq<Option<i64>>, n: int, i: int) -> Option<i64> {
    match (values[i], shift_cell(values, n, i)) {
        (Some(a), Some(b)) => Some(i64_specs::wrapping_sub(a, b)),
        _ => None,
    }
}

/// The forward-difference operator in its arithmetic mode.
pub fn diff_arithmetic(values: &Vec<Option<i64>>, n: i64) -> (r: Vec<Option<i64>>)
    ensures
        r@.len() == values@.len(),
        forall|i: int| 0 <= i < values@.len() ==> r@[i] == diff_cell(values@, n as int, i),
{
    let mut out: Vec<Option<i64>> = Vec::new();
    let mut i: usize = 0;
    while i < values.len()
        invariant
            i <= values.len(),
            out@.len() == i,
            forall|j: int| 0 <= j < i ==> out@[j] == diff_cell(values@, n as int, j),
        decreases values.len() - i,
    {
        let src: i128 = i as i128 - n as i128;
        let shifted: Option<i64> = if 0 <= src && src < values.len() as i128 {
            values[src as usize]
        } else {
            None
        };
        match (values[i], shifted) {
            (Some(a), Some(b)) => {
                out.push(Some(a.wrapping_sub(b)));
            },
            _ => {
                out.push(None);
            },
        }
        i = i + 1;
    }
    out
}

/// The recognized modes of the difference operator.
#[derive(Clone, Copy, Debug, PartialEq, Eq, Structural)]
pub enum DiffMode {
    /// Plain difference of each cell with its shifted neighbour.
    Arithmetic,
    /// Percent change against the shifted neighbour.
    Fractional,
    /// Percent change plus one.
    Geometric,
}

/// Parses a difference-mode name. An unknown name is a hard error, never a
/// silent fallback.
pub fn parse_diff_mode(mode: &str) -> (r: Result<DiffMode, ComputeError>)
    ensures
        r == Ok::<DiffMode, ComputeError>(DiffMode::Arithmetic) <==> mode@ == "arithmetic"@,
        r == Ok::<DiffMode, ComputeError>(DiffMode::Fractional) <==> mode@ == "fractional"@,
        r == Ok::<DiffMode, ComputeError>(DiffMode::Geometric) <==> mode@ == "geometric"@,
        r is Err <==> (mode@ != "arithmetic"@ && mode@ != "fractional"@ && mode@
            != "geometric"@),
        r is Err ==> r == Err::<DiffMode, ComputeError>(ComputeError::UnknownDiffMode),
{
    proof {
        reveal_strlit("arithmetic");
        reveal_strlit("fractional");
        reveal_strlit("geometric");
        assert("arithmetic"@[0] == 'a' && "fractional"@[0] == 'f' && "geometric"@[0] == 'g');
        assert("arithmetic"@ != "fractional"@);
        assert("arithmetic"@ != "geometric"@);
        assert("fractional"@ != "geometric"@);
    }
    let owned = mode.to_owned();
    if owned == "arithmetic".to_owned() {
        Ok(DiffMode::Arithmetic)
    } else if owned == "fractional".to_owned() {
        Ok(DiffMode::Fractional)
    } else if owned == "geometric".to_owned() {
        Ok(DiffMode::Geometric)
    } else {
        Err(ComputeError::UnknownDiffMode)
    }
}

/// The outlier-handling variants of the exponential weighted mean. The
/// variants' numeric parameters live with the unverified float kernel; the
/// variant identity alone decides whether the kernel may run.
#[derive(Clone, Copy, Debug, PartialEq, Eq, Structural)]
pub enum OutlierMode {
    /// No outlier handling.
    NoHandling,
    /// Clip each value against a threshold times the running mean.
    Threshold,
    /// Winsorization; recognized but not supported.
    Winsor,
    /// Trimming; recognized but not supported.
    Trim,
}

/// Rejects the outlier-handling variants that are recognized but not
/// supported, so they fail loudly instead of degrading to another
/// variant's behaviour.
pub fn check_outlier_mode(mode: OutlierMode) -> (r: Result<(), ComputeError>)
    ensures
        r is Ok <==> (mode == OutlierMode::NoHandling || mode == OutlierMode::Threshold),
        r is Err ==> r == Err::<(), ComputeError>(ComputeError::UnimplementedOutlierMode),
{
    match mode {
        OutlierMode::NoHandling => Ok(()),
        OutlierMode::Threshold => Ok(()),
        OutlierMode::Winsor => Err(ComputeError::UnimplementedOutlierMode),
        OutlierMode::Trim => Err(ComputeError::UnimplementedOutlierMode),
    }
}

} // verus!
