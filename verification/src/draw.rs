//! Drawing packed greys into a frame buffer one byte at a time.

use crate::imagery::Area;
use crate::imagery::Imagery;
use crate::imagery::Region;
use vstd::prelude::*;

verus! {

/// One byte written into a frame buffer kept in rows of `width` bytes: the
/// byte of column `x` in row `y` becomes `color`.
#[derive(Clone, Copy, Debug, PartialEq, Eq, Structural)]
pub struct PixelWrite {
    pub x: u16,
    pub y: u16,
    pub width: u16,
    pub color: u8,
}

impl PixelWrite {
    /// Where in the frame buffer the write lands.
    pub open spec fn index(&self) -> int {
        self.y * self.width + self.x
    }
}

/// The lesser of two numbers.
pub open spec fn lesser(a: int, b: int) -> int {
    if a < b {
        a
    } else {
        b
    }
}

/// The writes that draw the first `cols` bytes of each of the first `rows`
/// rows of `grey`, itself kept in rows of `chunk` bytes, into a frame buffer
/// kept in rows of `width` bytes: row by row, and within a row from left to
/// right.
pub open spec fn pixel_writes(grey: Seq<u8>, chunk: int, rows: int, cols: int, width: u16) -> Seq<
    PixelWrite,
> {
    Seq::new(
        (rows * cols) as nat,
        |k: int|
            PixelWrite {
                x: (k % cols) as u16,
                y: (k / cols) as u16,
                width,
                color: grey[(k / cols) * chunk + k % cols],
            },
    )
}

/// The frame buffer after the writes, in order.
pub open spec fn applied(buffer: Seq<u8>, writes: Seq<PixelWrite>) -> Seq<u8>
    decreases writes.len(),
{
    if writes.len() == 0 {
        buffer
    } else {
        applied(buffer, writes.drop_last()).update(writes.last().index(), writes.last().color)
    }
}

/// Every write lands inside a frame buffer of `len` bytes.
pub open spec fn writes_fit(writes: Seq<PixelWrite>, len: int) -> bool {
    forall|k: int| 0 <= k < writes.len() ==> (#[trigger] writes[k]).index() < len
}

/// Lists the writes of `pixel_writes`.
pub(crate) fn list_writes(grey: &Vec<u8>, chunk: usize, rows: u16, cols: u16, width: u16) -> (writes:
    Vec<PixelWrite>)
    requires
        cols <= chunk,
        rows * chunk <= grey@.len(),
    ensures
        writes@ == pixel_writes(grey@, chunk as int, rows as int, cols as int, width),
{
    let len = grey.len();
    let mut writes: Vec<PixelWrite> = Vec::new();
    let ghost wanted = pixel_writes(grey@, chunk as int, rows as int, cols as int, width);
    let mut y: u16 = 0;
    while y < rows
        invariant
            y <= rows,
            cols <= chunk,
            rows * chunk <= grey@.len() == len,
            wanted == pixel_writes(grey@, chunk as int, rows as int, cols as int, width),
            writes@.len() == y * cols,
            forall|k: int| 0 <= k < writes@.len() ==> writes@[k] == wanted[k],
        decreases rows - y,
    {
        let mut x: u16 = 0;
        while x < cols
            invariant
                y < rows,
                x <= cols <= chunk,
                rows * chunk <= grey@.len() == len,
                wanted == pixel_writes(grey@, chunk as int, rows as int, cols as int, width),
                writes@.len() == y * cols + x,
                forall|k: int| 0 <= k < writes@.len() ==> writes@[k] == wanted[k],
            decreases cols - x,
        {
            proof {
                vstd::arithmetic::div_mod::lemma_fundamental_div_mod_converse(
                    y * cols + x,
                    cols as int,
                    y as int,
                    x as int,
                );
                assert(y * cols + cols <= rows * cols) by (nonlinear_arith)
                    requires
                        y < rows,
                        0 <= cols,
                ;
                assert(y * chunk + chunk <= rows * chunk) by (nonlinear_arith)
                    requires
                        y < rows,
                        0 <= chunk,
                ;
            }
            writes.push(
                PixelWrite { x, y, width, color: grey[y as usize * chunk + x as usize] },
            );
            x += 1;
        }
        assert((y + 1) * cols == y * cols + cols) by (nonlinear_arith);
        y += 1;
    }
    assert(writes@ =~= wanted);
    writes
}

impl Imagery {
    /// The writes that draw a region's packed greys, two pixels to a byte,
    /// into a frame buffer: the region's width and height are held to the
    /// panel's, `grey` is taken in rows of half the region's width, and the
    /// frame buffer in rows of half the held width.
    pub open spec fn draw_buffer_4bpp_writes(&self, area: Region, grey: Seq<u8>) -> Seq<PixelWrite> {
        let width = lesser(area.width, self.eink_width as int);
        let height = lesser(area.height, self.eink_height as int);
        let chunk = area.width / 2;
        pixel_writes(
            grey,
            chunk,
            lesser(height, (grey.len() as int) / chunk),
            lesser(width, chunk),
            (width / 2) as u16,
        )
    }

    /// Lists the byte writes that draw a region's packed greys into a frame
    /// buffer, in the order in which they are to be made.
    pub fn draw_buffer_4bpp(&self, area: &Area, grey_vec: &Vec<u8>) -> (writes: Vec<PixelWrite>)
        requires
            area.width >= 2,
        ensures
            writes@ == self.draw_buffer_4bpp_writes(area@, grey_vec@),
    {
        let mut width = area.width;
        if width >= self.eink_width {
            width = self.eink_width;
        }
        let mut height = area.height;
        if height >= self.eink_height {
            height = self.eink_height;
        }
        let chunk = (area.width / 2) as usize;
        let chunks = grey_vec.len() / chunk;
        let rows = if (height as usize) < chunks {
            height
        } else {
            chunks as u16
        };
        let cols = if (width as usize) < chunk {
            width
        } else {
            chunk as u16
        };
        proof {
            let len = grey_vec@.len() as int;
            vstd::arithmetic::div_mod::lemma_fundamental_div_mod(len, chunk as int);
            assert(rows * chunk <= len) by (nonlinear_arith)
                requires
                    0 <= rows <= chunks,
                    0 < chunk,
                    len == chunk * chunks + len % (chunk as int),
                    0 <= len % (chunk as int),
            ;
        }
        list_writes(grey_vec, chunk, rows, cols, width / 2)
    }
}

/// A list of writes that all land inside the buffer, applied one after
/// another, keeps the buffer's length.
pub proof fn lemma_applied_len(buffer: Seq<u8>, writes: Seq<PixelWrite>)
    requires
        writes_fit(writes, buffer.len() as int),
    ensures
        applied(buffer, writes).len() == buffer.len(),
    decreases writes.len(),
{
    if writes.len() > 0 {
        assert(writes_fit(writes.drop_last(), buffer.len() as int)) by {
            assert forall|k: int| 0 <= k < writes.drop_last().len() implies (
            #[trigger] writes.drop_last()[k]).index() < buffer.len() by {
                assert(writes.drop_last()[k] == writes[k]);
            }
        }
        lemma_applied_len(buffer, writes.drop_last());
    }
}

} // verus!
