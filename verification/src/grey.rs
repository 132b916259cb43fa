//! From colour to what the panel takes: grey levels, and two 4-bit levels
//! packed into each byte.

use crate::imagery::Imagery;
use crate::parallel::par_map_range;
use crate::pixel::grey;
use crate::pixel::grey_4bpp;
use crate::pixel::Bgr8;
use vstd::prelude::*;

verus! {

/// The 8-bit grey of every pixel, in order.
pub open spec fn greys(pixels: Seq<Bgr8>) -> Seq<u8> {
    Seq::new(pixels.len(), |i: int| grey(pixels[i]) as u8)
}

/// The byte that holds a pair of neighbouring pixels: the 4-bit grey of the
/// second in the high half, that of the first in the low half.
pub open spec fn pack_pair(first: Bgr8, second: Bgr8) -> u8 {
    (grey_4bpp(second) * 16 + grey_4bpp(first)) as u8
}

/// The packed 4-bit greys of a pixel sequence: one byte for each pair of
/// neighbouring pixels, in order.
pub open spec fn pack_4bpp(pixels: Seq<Bgr8>) -> Seq<u8> {
    Seq::new(pixels.len() / 2, |k: int| pack_pair(pixels[2 * k], pixels[2 * k + 1]))
}

/// Packing `4k` pixels gives `2k` bytes.
pub proof fn lemma_pack_4bpp_len(pixels: Seq<Bgr8>, k: nat)
    requires
        pixels.len() == 4 * k,
    ensures
        pack_4bpp(pixels).len() == 2 * k,
{
}

impl Imagery {
    /// The 8-bit grey of every pixel, in order.
    pub fn transform_to_grey(bgr_vec: &Vec<Bgr8>) -> (grey_vector: Vec<u8>)
        ensures
            grey_vector@ == greys(bgr_vec@),
    {
        let mut grey_vector: Vec<u8> = Vec::new();
        let mut i: usize = 0;
        while i < bgr_vec.len()
            invariant
                i <= bgr_vec@.len(),
                grey_vector@.len() == i,
                forall|j: int| 0 <= j < i ==> grey_vector@[j] == grey(bgr_vec@[j]) as u8,
            decreases bgr_vec@.len() - i,
        {
            grey_vector.push(bgr_vec[i].grey());
            i += 1;
        }
        assert(grey_vector@ =~= greys(bgr_vec@));
        grey_vector
    }

    /// The pixels in the panel's packed format, two 4-bit greys to a byte.
    /// Within a byte the pixel that comes second sits in the high half. The
    /// greys are computed in parallel, pixel by pixel.
    pub fn transform_to_grey_4bpp(bgr_vec: &Vec<Bgr8>) -> (grey_vector: Vec<u8>)
        requires
            bgr_vec@.len() % 4 == 0,
        ensures
            grey_vector@ == pack_4bpp(bgr_vec@),
            grey_vector@.len() == bgr_vec@.len() / 2,
    {
        let len = bgr_vec.len();
        let level = |i: usize| -> (nibble: u8)
            requires
                i < len,
            ensures
                nibble == grey_4bpp(bgr_vec@[i as int]),
                nibble <= 15,
            { bgr_vec[i].grey_4bpp() };
        let nibbles = par_map_range(len, level);
        let mut grey_vector: Vec<u8> = Vec::with_capacity(len / 2);
        let mut k: usize = 0;
        while k < len / 2
            invariant
                k <= len / 2,
                len == bgr_vec@.len(),
                nibbles@.len() == len,
                forall|i: int|
                    0 <= i < len ==> #[trigger] nibbles@[i] == grey_4bpp(bgr_vec@[i])
                        && nibbles@[i] <= 15,
                grey_vector@.len() == k,
                forall|j: int|
                    0 <= j < k ==> grey_vector@[j] == pack_pair(
                        bgr_vec@[2 * j],
                        bgr_vec@[2 * j + 1],
                    ),
            decreases len / 2 - k,
        {
            let low = nibbles[2 * k];
            let high = nibbles[2 * k + 1];
            grey_vector.push(high * 16 + low);
            k += 1;
        }
        assert(grey_vector@ =~= pack_4bpp(bgr_vec@));
        grey_vector
    }
}

} // verus!
