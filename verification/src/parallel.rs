//! Data-parallel fan-out over independent units of work.

use rayon::iter::IntoParallelIterator;
use rayon::iter::ParallelIterator;
use vstd::prelude::*;

verus! {

/// Applies `f` to every index below `n` on rayon's thread pool and gathers
/// the results by index.
///
/// Calls `rayon::iter::IntoParallelIterator::into_par_iter` on `0..n`, then
/// `rayon::iter::ParallelIterator::map` with `f` and
/// `rayon::iter::ParallelIterator::collect` into a `Vec`. The contract is
/// believed, not proved. It claims what rayon documents of a range mapped
/// and collected into a vector: one item per index, in index order, each
/// item being what one call of `f` on that index returned. `f` is called on
/// indices below `n` only, which is why it need not accept any other.
#[verifier::external_body]
pub(crate) fn par_map_range<T: Send, F: Fn(usize) -> T + Sync + Send>(n: usize, f: F) -> (out: Vec<T>)
    requires
        forall|i: usize| i < n ==> call_requires(f, (i,)),
    ensures
        out@.len() == n,
        forall|i: int| 0 <= i < n ==> call_ensures(f, (i as usize,), #[trigger] out@[i]),
{
    (0..n).into_par_iter().map(f).collect()
}

} // verus!
