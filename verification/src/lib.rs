//! Mirroring a captured display onto an e-ink panel: frame differencing,
//! pixel packing and the display controller's bus protocol.

use crate::draw::applied;
use crate::draw::lemma_applied_len;
use crate::draw::lesser;
use crate::draw::list_writes;
use crate::draw::pixel_writes;
use crate::draw::writes_fit;
use crate::draw::PixelWrite;
use crate::imagery::Area;
use crate::imagery::Region;
use crate::it8951::ITView;
use crate::it8951::IT;
use vstd::prelude::*;

pub mod adapt;
pub mod area;
pub mod bcm_interface;
pub mod compare;
pub mod draw;
pub mod grey;
pub mod imagery;
pub mod it8951;
pub mod parallel;
pub mod pixel;
pub mod rotate;
pub mod rows;
pub mod zone;

verus! {

/// The widest region that `draw_buffer` draws in full.
pub const DRAWN_WIDTH: u16 = 1872;

/// The highest region that `draw_buffer` draws in full.
pub const DRAWN_HEIGHT: u16 = 1404;

/// The writes by which `draw_buffer` draws a region's greys, one byte a
/// pixel: the region's width and height are held to `DRAWN_WIDTH` and
/// `DRAWN_HEIGHT`, `grey` is taken in rows of the region's width and the
/// frame buffer in rows of the held width. One row and one column beyond
/// the held extent are drawn too, where `grey` has them.
pub open spec fn draw_buffer_writes(area: Region, grey: Seq<u8>) -> Seq<PixelWrite> {
    let width = lesser(area.width, DRAWN_WIDTH as int);
    let height = lesser(area.height, DRAWN_HEIGHT as int);
    pixel_writes(
        grey,
        area.width,
        lesser(height + 1, (grey.len() as int) / area.width),
        lesser(width + 1, area.width),
        width as u16,
    )
}

/// Draws a region's greys into the session's frame buffer, byte by byte in
/// the order of `draw_buffer_writes`.
pub fn draw_buffer(area: &Area, grey_vec: &Vec<u8>, mut interface: IT) -> (drawn: IT)
    requires
        area.width > 0,
        writes_fit(draw_buffer_writes(area@, grey_vec@), interface@.frame_buffer.len() as int),
    ensures
        drawn@ == (ITView {
            frame_buffer: applied(
                interface@.frame_buffer,
                draw_buffer_writes(area@, grey_vec@),
            ),
            ..interface@
        }),
{
    let mut width = area.width;
    if width > DRAWN_WIDTH {
        width = DRAWN_WIDTH;
    }
    let mut height = area.height;
    if height > DRAWN_HEIGHT {
        height = DRAWN_HEIGHT;
    }
    let chunk = area.width as usize;
    let chunks = grey_vec.len() / chunk;
    let rows = if ((height + 1) as usize) < chunks {
        height + 1
    } else {
        chunks as u16
    };
    let cols = if width + 1 < area.width {
        width + 1
    } else {
        area.width
    };
    proof {
        let len = grey_vec@.len() as int;
        vstd::arithmetic::div_mod::lemma_fundamental_div_mod(len, chunk as int);
        assert(rows * chunk <= len) by (nonlinear_arith)
            requires
                0 <= rows <= chunks,
                0 < chunk,
                len == chunk * chunks + len % (chunk as int),
                0 <= len % (chunk as int),
        ;
    }
    let writes = list_writes(grey_vec, chunk, rows, cols, width);
    let ghost before = interface@;
    let mut k: usize = 0;
    assert(writes@.take(0) =~= Seq::<PixelWrite>::empty());
    while k < writes.len()
        invariant
            k <= writes@.len(),
            writes_fit(writes@, before.frame_buffer.len() as int),
            interface@ == (ITView {
                frame_buffer: applied(before.frame_buffer, writes@.take(k as int)),
                ..before
            }),
        decreases writes@.len() - k,
    {
        let write = writes[k];
        proof {
            assert(writes_fit(writes@.take(k as int), before.frame_buffer.len() as int));
            lemma_applied_len(before.frame_buffer, writes@.take(k as int));
            assert(writes@[k as int].index() < before.frame_buffer.len());
            assert(writes@.take(k + 1).drop_last() =~= writes@.take(k as int));
        }
        interface.draw_buffer_pixel(write.x, write.y, write.width, write.color);
        k += 1;
    }
    assert(writes@.take(k as int) =~= writes@);
    interface
}

/// Hands a region's packed bytes to the session, whose frame buffer they
/// replace.
pub fn send_to_buffer_4bpp(grey_vec: Vec<u8>, mut interface: IT) -> (loaded: IT)
    ensures
        loaded@ == (ITView { frame_buffer: grey_vec@, ..interface@ }),
{
    interface.load_buffer_from_vec(grey_vec);
    interface
}

} // verus!
