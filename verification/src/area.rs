//! From changed bounds to an update region: the alignment that the panel's
//! packed format asks for, and the extraction of the region's pixels.

use crate::imagery::Area;
use crate::imagery::Imagery;
use crate::imagery::Region;
use crate::parallel::par_map_range;
use crate::pixel::Bgr8;
use crate::rows::concat_rows;
use crate::rows::copy_run;
use vstd::prelude::*;

verus! {

/// A geometry `[x, y, width, height]` as integers.
pub open spec fn geometry_view(geometry: [u16; 4]) -> (int, int, int, int) {
    (geometry[0] as int, geometry[1] as int, geometry[2] as int, geometry[3] as int)
}

/// What an optional area stands for.
pub open spec fn area_view(area: Option<Area>) -> Option<Region> {
    match area {
        None => None,
        Some(a) => Some(a@),
    }
}

/// Aligns one axis of a rectangle to blocks of four: the start is rounded
/// down to a multiple of four, the extent grows by what the start lost and is
/// then rounded up to a multiple of four. Where that carries the far edge
/// past `bound`, the start moves back by four; the extent stays.
pub open spec fn align_axis(start: int, extent: int, bound: int) -> (int, int) {
    let low = start - start % 4;
    let grown = extent + start % 4;
    let wide = if grown % 4 > 0 {
        grown + (4 - grown % 4)
    } else {
        grown
    };
    if low + wide > bound {
        (low - 4, wide)
    } else {
        (low, wide)
    }
}

/// Every value met on the way through `align_axis` is a 16-bit coordinate.
pub open spec fn axis_fits(start: int, extent: int, bound: int) -> bool {
    let low = start - start % 4;
    let grown = extent + start % 4;
    let wide = if grown % 4 > 0 {
        grown + (4 - grown % 4)
    } else {
        grown
    };
    &&& grown <= 0xffff
    &&& wide <= 0xffff
    &&& low + wide <= 0xffff
    &&& low + wide > bound ==> low >= 4
}

/// An aligned axis starts at a multiple of four and spans a multiple of four.
pub proof fn lemma_axis_aligned(start: int, extent: int, bound: int)
    requires
        0 <= start,
        0 <= extent,
    ensures
        align_axis(start, extent, bound).0 % 4 == 0,
        align_axis(start, extent, bound).1 % 4 == 0,
        align_axis(start, extent, bound).1 >= extent,
{
}

/// The pixels of the rectangle `x, y, width, height` of a frame cut into
/// rows of `line` pixels, row-major.
pub open spec fn crop(frame: Seq<Bgr8>, line: int, x: int, y: int, width: int, height: int) -> Seq<
    Bgr8,
> {
    Seq::new((width * height) as nat, |k: int| frame[(y + k / width) * line + x + k % width])
}

/// Aligns one axis, or says that a value on the way does not fit 16 bits.
fn align(start: u16, extent: u16, bound: u16) -> (aligned: Option<(u16, u16)>)
    ensures
        aligned is Some <==> axis_fits(start as int, extent as int, bound as int),
        aligned matches Some(a) ==> (a.0 as int, a.1 as int) == align_axis(
            start as int,
            extent as int,
            bound as int,
        ),
{
    let shift = start % 4;
    let low = start - shift;
    if extent > 0xffff - shift {
        return None;
    }
    let grown = extent + shift;
    let rest = grown % 4;
    let mut wide = grown;
    if rest > 0 {
        if grown > 0xffff - (4 - rest) {
            return None;
        }
        wide = grown + (4 - rest);
    }
    if low > 0xffff - wide {
        return None;
    }
    if low + wide > bound {
        if low < 4 {
            return None;
        }
        Some((low - 4, wide))
    } else {
        Some((low, wide))
    }
}

impl Imagery {
    /// The rectangle `(x, y, width, height)` after alignment. Unrotated or
    /// upside down, the horizontal axis is aligned; with a quarter turn
    /// pending, the vertical one, which the turn makes the packed axis. Both
    /// are held against the panel's width.
    pub open spec fn aligned(&self, g: (int, int, int, int)) -> (int, int, int, int) {
        if self.landscape() {
            let (x, width) = align_axis(g.0, g.2, self.eink_width as int);
            (x, g.1, width, g.3)
        } else if self.portrait() {
            let (y, height) = align_axis(g.1, g.3, self.eink_width as int);
            (g.0, y, g.2, height)
        } else {
            g
        }
    }

    /// Aligning `g` stays within 16-bit coordinates.
    pub open spec fn alignable(&self, g: (int, int, int, int)) -> bool {
        if self.landscape() {
            axis_fits(g.0, g.2, self.eink_width as int)
        } else if self.portrait() {
            axis_fits(g.1, g.3, self.eink_width as int)
        } else {
            true
        }
    }

    /// The rectangle `a` lies inside a frame of `len` pixels cut into rows of
    /// `capture_width`: each of its rows is there in full.
    pub open spec fn inside_frame(&self, a: (int, int, int, int), len: int) -> bool {
        &&& a.0 + a.2 <= self.capture_width
        &&& a.1 + a.3 <= 0xffff
        &&& (a.1 + a.3 - 1) * self.capture_width + a.0 + a.2 <= len
    }

    /// An area can be made of the bounds `g` and a frame of `len` pixels:
    /// the alignment stays within 16 bits and the aligned rectangle is empty
    /// or inside the frame.
    pub open spec fn area_defined(&self, g: (int, int, int, int), len: int) -> bool {
        let a = self.aligned(g);
        &&& self.alignable(g)
        &&& a.2 == 0 || a.3 == 0 || self.inside_frame(a, len)
    }

    /// The area made of the bounds `g` and a frame: nothing when the aligned
    /// rectangle is empty, else that rectangle with the frame's pixels in it.
    pub open spec fn area_of(&self, g: (int, int, int, int), frame: Seq<Bgr8>) -> Option<Region> {
        let a = self.aligned(g);
        if a.2 == 0 || a.3 == 0 {
            None
        } else {
            Some(
                Region {
                    x: a.0,
                    y: a.1,
                    width: a.2,
                    height: a.3,
                    pixels: crop(frame, self.capture_width as int, a.0, a.1, a.2, a.3),
                },
            )
        }
    }

    /// With the panel unrotated or upside down, an aligned rectangle starts at
    /// a column that is a multiple of four and is a multiple of four wide;
    /// with a quarter turn pending the same holds of its first row and its
    /// height.
    pub proof fn lemma_aligned_to_four(&self, g: (int, int, int, int))
        requires
            0 <= g.0,
            0 <= g.1,
            0 <= g.2,
            0 <= g.3,
        ensures
            self.landscape() ==> self.aligned(g).0 % 4 == 0 && self.aligned(g).2 % 4 == 0,
            self.portrait() ==> self.aligned(g).1 % 4 == 0 && self.aligned(g).3 % 4 == 0,
    {
        lemma_axis_aligned(g.0, g.2, self.eink_width as int);
        lemma_axis_aligned(g.1, g.3, self.eink_width as int);
    }

    /// Makes the area of `geometry` where one can be made, and says so where
    /// none can.
    pub(crate) fn checked_area(&self, geometry: [u16; 4], gbr_slice: &[Bgr8]) -> (made: Option<
        Option<Area>,
    >)
        ensures
            made is Some <==> self.area_defined(geometry_view(geometry), gbr_slice@.len() as int),
            made matches Some(area) ==> {
                &&& area_view(area) == self.area_of(geometry_view(geometry), gbr_slice@)
                &&& area matches Some(a) ==> a.wf() && a.width > 0 && a.height > 0
            },
    {
        let mut x = geometry[0];
        let mut y = geometry[1];
        let mut width = geometry[2];
        let mut height = geometry[3];
        if self.rotation == 0 || self.rotation == 180 {
            match align(x, width, self.eink_width) {
                None => {
                    return None;
                },
                Some((start, extent)) => {
                    x = start;
                    width = extent;
                },
            }
        } else if self.rotation == 90 || self.rotation == 270 {
            match align(y, height, self.eink_width) {
                None => {
                    return None;
                },
                Some((start, extent)) => {
                    y = start;
                    height = extent;
                },
            }
        }
        assert((x as int, y as int, width as int, height as int) == self.aligned(
            geometry_view(geometry),
        ));
        if width == 0 || height == 0 {
            return Some(None);
        }
        let line = self.capture_width as usize;
        let len = gbr_slice.len();
        if x as u32 + width as u32 > self.capture_width as u32 {
            return None;
        }
        if y as u32 + height as u32 > 0xffff {
            return None;
        }
        assert((y + height - 1) * line <= 0xffff * 0xffff) by (nonlinear_arith)
            requires
                0 <= y + height - 1 <= 0xffff,
                0 <= line <= 0xffff,
        ;
        let last_row: u64 = (y as u64 + height as u64 - 1) * (line as u64);
        let needed: u64 = last_row + x as u64 + width as u64;
        if needed > len as u64 {
            return None;
        }
        let copy = |row: usize| -> (run: Vec<Bgr8>)
            requires
                row < height,
            ensures
                run@.len() == width,
                run@ == gbr_slice@.subrange(
                    (y + row) * line + x,
                    (y + row) * line + x + width,
                ),
            {
                assert((y + row) * line <= (y + height - 1) * line) by (nonlinear_arith)
                    requires
                        row < height,
                ;
                copy_run(gbr_slice, (y as usize + row) * line + x as usize, width as usize)
            };
        let rows = par_map_range(height as usize, copy);
        let bgr_vec = concat_rows(&rows, width as usize);
        proof {
            let wanted = crop(
                gbr_slice@,
                line as int,
                x as int,
                y as int,
                width as int,
                height as int,
            );
            assert(bgr_vec@.len() == width * height) by (nonlinear_arith)
                requires
                    bgr_vec@.len() == height * width,
            ;
            assert forall|k: int| 0 <= k < bgr_vec@.len() implies bgr_vec@[k] == wanted[k] by {
                lemma_cell(k, width as int, height as int);
                let row = k / (width as int);
                let col = k % (width as int);
                assert((y + row) * line <= (y + height - 1) * line) by (nonlinear_arith)
                    requires
                        row < height,
                ;
                assert(rows@[row]@ == gbr_slice@.subrange(
                    (y + row) * line + x,
                    (y + row) * line + x + width,
                ));
            }
            assert(bgr_vec@ =~= wanted);
        }
        Some(Some(Area { x, y, width, height, bgr_vec }))
    }

    /// The update region for the changed bounds `geometry`, given as
    /// `[x, y, width, height]`: the bounds are aligned, and the pixels inside
    /// the aligned rectangle are copied out of the frame, row by row in
    /// parallel. A rectangle that is empty along either axis gives nothing.
    pub fn create_pixel_area(&self, geometry: [u16; 4], gbr_slice: &[Bgr8]) -> (area: Option<Area>)
        requires
            self.area_defined(geometry_view(geometry), gbr_slice@.len() as int),
        ensures
            area_view(area) == self.area_of(geometry_view(geometry), gbr_slice@),
            area matches Some(a) ==> a.wf() && a.width > 0 && a.height > 0,
            area matches Some(a) ==> self.landscape() ==> a.x % 4 == 0 && a.width % 4 == 0,
            area matches Some(a) ==> self.portrait() ==> a.y % 4 == 0 && a.height % 4 == 0,
    {
        proof {
            self.lemma_aligned_to_four(geometry_view(geometry));
        }
        match self.checked_area(geometry, gbr_slice) {
            Some(area) => area,
            None => None,
        }
    }
}

/// Cell `k` of a grid of `width` by `height` cells, counted row-major, lies
/// in row `k / width` at column `k % width`.
pub proof fn lemma_cell(k: int, width: int, height: int)
    requires
        0 < width,
        0 <= k < width * height,
    ensures
        0 <= k / width < height,
        0 <= k % width < width,
        k == (k / width) * width + k % width,
{
    vstd::arithmetic::div_mod::lemma_fundamental_div_mod(k, width);
    vstd::arithmetic::div_mod::lemma_mod_bound(k, width);
    let q = k / width;
    assert(width * q == q * width) by (nonlinear_arith);
    assert(0 <= q < height) by (nonlinear_arith)
        requires
            0 < width,
            0 <= k < width * height,
            k == q * width + k % width,
            0 <= k % width < width,
    ;
}

} // verus!
