//! The content-hash kernel: a deterministic digest of each cell's bytes
//! under a fixed internal seed.

use vstd::prelude::*;

verus! {

/// The fixed internal seed of the content-hash kernel.
pub const HASH_SEED: u64 = 42;

/// The digest that `wyhash::wyhash` computes for the given bytes and seed.
/// It depends on the bytes and the seed alone.
pub uninterp spec fn wyhash_of(bytes: Seq<u8>, seed: u64) -> u64;

/// Relies on wyhash::wyhash: a pure digest of the byte slice and the seed,
/// total for every input.
#[verifier::external_body]
fn wyhash_digest(bytes: &[u8], seed: u64) -> (r: u64)
    ensures
        r == wyhash_of(bytes@, seed),
{
    wyhash::wyhash(bytes, seed)
}

/// Hashes every non-null cell of a byte-string column with the fixed seed;
/// null cells stay null.
pub fn hash_column(col: &Vec<Option<Vec<u8>>>) -> (r: Vec<Option<u64>>)
    ensures
        r@.len() == col.deep_view().len(),
        forall|i: int|
            0 <= i < col.deep_view().len() ==> r@[i] == match col.deep_view()[i] {
                Some(bytes) => Some(wyhash_of(bytes, HASH_SEED)),
                None => None::<u64>,
            },
{
    let mut out: Vec<Option<u64>> = Vec::new();
    let mut i: usize = 0;
    while i < col.len()
        invariant
            i <= col.len(),
            out@.len() == i,
            forall|j: int|
                0 <= j < i ==> out@[j] == match col.deep_view()[j] {
                    Some(bytes) => Some(wyhash_of(bytes, HASH_SEED)),
                    None => None::<u64>,
                },
        decreases col.len() - i,
    {
        match &col[i] {
            Some(cell) => {
                let digest = wyhash_digest(cell.as_slice(), HASH_SEED);
                proof {
                    assert(cell.deep_view() =~= cell@);
                    assert(col.deep_view()[i as int] == Some(cell.deep_view()));
                }
                out.push(Some(digest));
            },
            None => {
                proof {
                    assert(col.deep_view()[i as int] is None);
                }
                out.push(None);
            },
        }
        i = i + 1;
    }
    out
}

} // verus!
