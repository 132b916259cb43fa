//! Fitting a captured frame to the panel: what lies beyond the panel is cut
//! off, what the frame lacks is filled with white.

use crate::compare::blank;
use crate::compare::frame_view;
use crate::imagery::Frame;
use crate::imagery::Image;
use crate::imagery::Imagery;
use crate::pixel::Bgr8;
use vstd::arithmetic::div_mod::lemma_fundamental_div_mod_converse;
use vstd::prelude::*;

verus! {

/// Of a frame cut into rows of `line` pixels, the pixels in the first
/// `height` rows and the first `width` columns, in order.
pub open spec fn kept(pixels: Seq<Bgr8>, line: int, width: int, height: int) -> Seq<Bgr8>
    decreases pixels.len(),
{
    if pixels.len() == 0 {
        Seq::empty()
    } else {
        let at = pixels.len() - 1;
        let before = kept(pixels.drop_last(), line, width, height);
        if at < height * line && at % line < width {
            before.push(pixels.last())
        } else {
            before
        }
    }
}

/// Pixels from row `height` on are not kept.
proof fn lemma_kept_ends(pixels: Seq<Bgr8>, line: int, width: int, height: int, from: int)
    requires
        0 <= from,
        height * line <= from <= pixels.len(),
    ensures
        kept(pixels, line, width, height) == kept(pixels.take(from), line, width, height),
    decreases pixels.len(),
{
    if from < pixels.len() {
        lemma_kept_ends(pixels.drop_last(), line, width, height, from);
        assert(pixels.drop_last().take(from) =~= pixels.take(from));
    } else {
        assert(pixels.take(from) =~= pixels);
    }
}

impl Imagery {
    /// The frame fitted to the panel, as a sequence of one pixel per panel
    /// cell: the frame's pixels that lie within the panel's width and height,
    /// in order, followed by as many white pixels as are missing.
    pub open spec fn adapted(&self, frame: Frame) -> Seq<Bgr8> {
        let cut = kept(frame.pixels, frame.width, self.eink_width as int, self.eink_height as int);
        cut + blank(self.eink_height * self.eink_width - cut.len())
    }

    /// Fits a captured frame to the panel. A frame as wide as the panel or
    /// wider, and as high or higher, gives the panel-sized picture in its
    /// top left corner.
    pub fn get_slice_adapted_to_eink_size(&self, image: &Option<Image>) -> (bgr8_vec: Vec<Bgr8>)
        requires
            *image matches Some(i) && i@.pixels.len() > 0,
        ensures
            bgr8_vec@ == self.adapted(frame_view(*image)->0),
            bgr8_vec@.len() == self.eink_height * self.eink_width,
    {
        let frame = image.as_ref().unwrap();
        let bgr_slice = frame.as_slice();
        let screen_width = frame.get_dimensions().0;
        let ghost pixels = bgr_slice@;
        let ghost line = screen_width as int;
        let ghost width = self.eink_width as int;
        let ghost height = self.eink_height as int;
        assert(line > 0) by (nonlinear_arith)
            requires
                pixels.len() == line * frame@.height,
                pixels.len() > 0,
                line >= 0,
        ;
        assert(self.eink_height * self.eink_width <= 0xffff * 0xffff) by (nonlinear_arith);
        let whole_screen_length: usize = self.eink_height as usize * self.eink_width as usize;
        let len = bgr_slice.len();
        let ghost narrow = if width < line {
            width
        } else {
            line
        };

        let mut bgr8_vec: Vec<Bgr8> = Vec::new();
        let mut index: usize = 0;
        let mut row: u16 = 0;
        let mut col: u32 = 0;
        assert(pixels.take(0) =~= Seq::<Bgr8>::empty());
        while index < len && row < self.eink_height
            invariant
                pixels == bgr_slice@,
                len == pixels.len(),
                line == screen_width > 0,
                width == self.eink_width,
                height == self.eink_height,
                narrow == if width < line {
                    width
                } else {
                    line
                },
                index <= len,
                row <= self.eink_height,
                col < line,
                row == self.eink_height ==> col == 0,
                index == row * line + col,
                bgr8_vec@ == kept(pixels.take(index as int), line, width, height),
                bgr8_vec@.len() == row * narrow + if col < width {
                    col as int
                } else {
                    width
                },
            decreases len - index,
        {
            proof {
                lemma_fundamental_div_mod_converse(index as int, line, row as int, col as int);
                assert(pixels.take(index + 1).drop_last() =~= pixels.take(index as int));
                assert(row * line + line <= height * line) by (nonlinear_arith)
                    requires
                        row < height,
                        line > 0,
                ;
            }
            if col < self.eink_width as u32 {
                bgr8_vec.push(bgr_slice[index]);
            }
            index += 1;
            col += 1;
            if col == screen_width {
                proof {
                    assert((row + 1) * line == row * line + line) by (nonlinear_arith);
                    assert((row + 1) * narrow == row * narrow + narrow) by (nonlinear_arith);
                }
                col = 0;
                row += 1;
            }
        }
        proof {
            if index < len {
                lemma_kept_ends(pixels, line, width, height, index as int);
            } else {
                assert(pixels.take(index as int) =~= pixels);
            }
            assert(row * narrow + narrow <= height * width || row == height) by (nonlinear_arith)
                requires
                    0 <= row <= height,
                    0 <= narrow <= width,
            ;
            assert(row == height ==> col == 0);
            assert(height * narrow <= height * width) by (nonlinear_arith)
                requires
                    0 <= height,
                    0 <= narrow <= width,
            ;
        }
        let ghost cut = bgr8_vec@;
        let white = Bgr8::white();
        while bgr8_vec.len() < whole_screen_length
            invariant
                cut.len() <= bgr8_vec@.len() <= whole_screen_length,
                bgr8_vec@ == cut + blank(bgr8_vec@.len() - cut.len()),
                white == Bgr8::white_spec(),
            decreases whole_screen_length - bgr8_vec@.len(),
        {
            bgr8_vec.push(white);
            assert(bgr8_vec@ =~= cut + blank(bgr8_vec@.len() - cut.len()));
        }
        bgr8_vec
    }
}

} // verus!
