//! Rows of pixels: copying a run out of a frame, and joining rows of equal
//! length into one row-major sequence.

use crate::pixel::Bgr8;
use vstd::arithmetic::div_mod::lemma_fundamental_div_mod_converse;
use vstd::prelude::*;

verus! {

/// Copies `count` pixels of `frame`, beginning at index `start`.
pub(crate) fn copy_run(frame: &[Bgr8], start: usize, count: usize) -> (run: Vec<Bgr8>)
    requires
        start + count <= frame@.len(),
    ensures
        run@ == frame@.subrange(start as int, start + count),
        run@.len() == count,
{
    let len = frame.len();
    let mut run: Vec<Bgr8> = Vec::with_capacity(count);
    let mut taken: usize = 0;
    while taken < count
        invariant
            taken <= count,
            start + count <= frame@.len() == len,
            run@ == frame@.subrange(start as int, start + taken),
        decreases count - taken,
    {
        run.push(frame[start + taken]);
        taken += 1;
        assert(run@ =~= frame@.subrange(start as int, start + taken));
    }
    run
}

/// Joins rows of `width` pixels each into one sequence, row after row.
pub(crate) fn concat_rows(rows: &Vec<Vec<Bgr8>>, width: usize) -> (flat: Vec<Bgr8>)
    requires
        forall|i: int| 0 <= i < rows@.len() ==> (#[trigger] rows@[i])@.len() == width,
    ensures
        flat@.len() == rows@.len() * width,
        forall|k: int|
            0 <= k < flat@.len() ==> #[trigger] flat@[k] == rows@[k / (width as int)]@[k % (
            width as int)],
{
    let mut flat: Vec<Bgr8> = Vec::new();
    let mut i: usize = 0;
    while i < rows.len()
        invariant
            i <= rows@.len(),
            forall|r: int| 0 <= r < rows@.len() ==> (#[trigger] rows@[r])@.len() == width,
            flat@.len() == i * width,
            forall|k: int|
                0 <= k < flat@.len() ==> #[trigger] flat@[k] == rows@[k / (width as int)]@[k % (
                width as int)],
        decreases rows@.len() - i,
    {
        let row = &rows[i];
        let mut j: usize = 0;
        while j < width
            invariant
                i < rows@.len(),
                j <= width,
                *row == rows@[i as int],
                row@.len() == width,
                flat@.len() == i * width + j,
                forall|k: int|
                    0 <= k < flat@.len() ==> #[trigger] flat@[k] == rows@[k / (width as int)]@[k
                        % (width as int)],
            decreases width - j,
        {
            proof {
                lemma_fundamental_div_mod_converse(
                    i * width + j,
                    width as int,
                    i as int,
                    j as int,
                );
            }
            flat.push(row[j]);
            j += 1;
        }
        i += 1;
        assert(i * width == (i - 1) * width + width) by (nonlinear_arith);
    }
    flat
}

} // verus!
