//! The frame differencer: from two successive frames to the update region,
//! or to nothing when the panel already shows what it should.

use crate::area::area_view;
use crate::area::crop;
use crate::area::lemma_cell;
use crate::imagery::Area;
use crate::imagery::Frame;
use crate::imagery::Image;
use crate::imagery::Imagery;
use crate::imagery::Region;
use crate::pixel::Bgr8;
use vstd::prelude::*;

verus! {

/// The rectangle `(x, y, width, height)` that the bounds
/// `(top, bottom, left, right)` enclose.
pub open spec fn zone_geometry(z: (int, int, int, int)) -> (int, int, int, int) {
    (z.2, z.0, z.3 - z.2 + 1, z.1 - z.0 + 1)
}

/// What an optional captured frame stands for.
pub open spec fn frame_view(image: Option<Image>) -> Option<Frame> {
    match image {
        None => None,
        Some(i) => Some(i@),
    }
}

/// `count` white pixels.
pub open spec fn blank(count: int) -> Seq<Bgr8> {
    Seq::new(count as nat, |i: int| Bgr8::white_spec())
}

fn white_pixels(count: usize) -> (pixels: Vec<Bgr8>)
    ensures
        pixels@ == blank(count as int),
{
    let mut pixels: Vec<Bgr8> = Vec::with_capacity(count);
    while pixels.len() < count
        invariant
            pixels@.len() <= count,
            forall|i: int| 0 <= i < pixels@.len() ==> pixels@[i] == Bgr8::white_spec(),
        decreases count - pixels@.len(),
    {
        pixels.push(Bgr8::white());
    }
    assert(pixels@ =~= blank(count as int));
    pixels
}

impl Imagery {
    /// The two frames can be compared: rows have a width, the changed bounds
    /// fit 16-bit coordinates, and an area can be made of them.
    pub open spec fn compare_defined(&self, old: Seq<Bgr8>, new: Seq<Bgr8>) -> bool {
        &&& self.capture_width > 0
        &&& match self.zone(old, new) {
            None => true,
            Some(z) => {
                let g = zone_geometry(z);
                &&& g.2 <= 0xffff
                &&& g.3 <= 0xffff
                &&& self.area_defined(g, new.len() as int)
            },
        }
    }

    /// The update region of two frames: nothing when no pixel within reach
    /// differs; else the tight bounding box of the pixels that differ,
    /// aligned, with the new frame's pixels in it.
    pub open spec fn compare_spec(&self, old: Seq<Bgr8>, new: Seq<Bgr8>) -> Option<Region> {
        match self.zone(old, new) {
            None => None,
            Some(z) => self.area_of(zone_geometry(z), new),
        }
    }

    /// The frame that a new frame is held against: the previous one, or a
    /// white frame of the new one's size where there is none yet.
    pub open spec fn previous(&self, old: Option<Frame>, new: Frame) -> Seq<Bgr8> {
        match old {
            Some(frame) => frame.pixels,
            None => blank(new.pixels.len() as int),
        }
    }

    /// Two captures can be compared: where there is a new frame, it can be
    /// compared with the previous one, and it is not empty where it is the
    /// first.
    pub open spec fn compare_frames_defined(&self, old: Option<Frame>, new: Option<Frame>) -> bool {
        match new {
            None => true,
            Some(frame) => {
                &&& old is None ==> frame.pixels.len() > 0
                &&& self.compare_defined(self.previous(old, frame), frame.pixels)
            },
        }
    }

    /// The update region of two captures: nothing without a new frame.
    pub open spec fn compare_frames_spec(&self, old: Option<Frame>, new: Option<Frame>) -> Option<
        Region,
    > {
        match new {
            None => None,
            Some(frame) => self.compare_spec(self.previous(old, frame), frame.pixels),
        }
    }

    /// Compares two frames where they can be compared, and says so where
    /// they cannot.
    pub fn try_compare_image_slices(&self, old_slice: &[Bgr8], new_slice: &[Bgr8]) -> (compared:
        Option<Option<Area>>)
        ensures
            compared is Some <==> self.compare_defined(old_slice@, new_slice@),
            compared matches Some(area) ==> {
                &&& area_view(area) == self.compare_spec(old_slice@, new_slice@)
                &&& area matches Some(a) ==> a.wf() && a.width > 0 && a.height > 0
            },
    {
        if self.capture_width == 0 {
            return None;
        }
        match self.determine_changed_zone(old_slice, new_slice) {
            None => Some(None),
            Some(z) => {
                let top = z[0].unwrap();
                let bottom = z[1].unwrap();
                let left = z[2].unwrap();
                let right = z[3].unwrap();
                if bottom - top == 0xffff {
                    return None;
                }
                let geometry: [u16; 4] = [left, top, right - left + 1, bottom - top + 1];
                self.checked_area(geometry, new_slice)
            },
        }
    }

    /// The update region of two frames given as pixel sequences cut into
    /// rows of `capture_width`: the tight bounding box of the pixels that
    /// differ within the panel's reach, aligned, with the new frame's pixels
    /// in it; nothing when no such pixel differs.
    pub fn compare_image_slices(&self, old_slice: &[Bgr8], new_slice: &[Bgr8]) -> (area: Option<
        Area,
    >)
        requires
            self.compare_defined(old_slice@, new_slice@),
        ensures
            area_view(area) == self.compare_spec(old_slice@, new_slice@),
            old_slice@ == new_slice@ ==> area is None,
            area matches Some(a) ==> a.wf() && a.width > 0 && a.height > 0,
            area matches Some(a) ==> self.landscape() ==> a.x % 4 == 0 && a.width % 4 == 0,
            area matches Some(a) ==> self.portrait() ==> a.y % 4 == 0 && a.height % 4 == 0,
    {
        proof {
            if let Some(z) = self.zone(old_slice@, new_slice@) {
                self.lemma_zone_in_reach(old_slice@, new_slice@);
                self.lemma_aligned_to_four(zone_geometry(z));
            }
        }
        match self.try_compare_image_slices(old_slice, new_slice) {
            Some(area) => area,
            None => None,
        }
    }

    /// Compares two captures where they can be compared, and says so where
    /// they cannot.
    pub fn try_compare(&self, old_image: &Option<Image>, new_image: &Option<Image>) -> (compared:
        Option<Option<Area>>)
        ensures
            compared is Some <==> self.compare_frames_defined(
                frame_view(*old_image),
                frame_view(*new_image),
            ),
            compared matches Some(area) ==> {
                &&& area_view(area) == self.compare_frames_spec(
                    frame_view(*old_image),
                    frame_view(*new_image),
                )
                &&& area matches Some(a) ==> a.wf() && a.width > 0 && a.height > 0
            },
    {
        match new_image {
            None => Some(None),
            Some(new_frame) => {
                let new_slice = new_frame.as_slice();
                match old_image {
                    Some(old_frame) => self.try_compare_image_slices(
                        old_frame.as_slice(),
                        new_slice,
                    ),
                    None => {
                        if new_slice.len() == 0 {
                            return None;
                        }
                        let white = white_pixels(new_slice.len());
                        self.try_compare_image_slices(white.as_slice(), new_slice)
                    },
                }
            },
        }
    }

    /// The update region that turns what the panel shows into the new
    /// capture. Without a new capture there is nothing to update. Without a
    /// previous one the new capture is held against a white frame of its own
    /// size.
    pub fn compare(&self, old_image: &Option<Image>, new_image: &Option<Image>) -> (area: Option<
        Area,
    >)
        requires
            self.compare_frames_defined(frame_view(*old_image), frame_view(*new_image)),
        ensures
            area_view(area) == self.compare_frames_spec(
                frame_view(*old_image),
                frame_view(*new_image),
            ),
            area matches Some(a) ==> a.wf() && a.width > 0 && a.height > 0,
            area matches Some(a) ==> self.landscape() ==> a.x % 4 == 0 && a.width % 4 == 0,
            area matches Some(a) ==> self.portrait() ==> a.y % 4 == 0 && a.height % 4 == 0,
    {
        proof {
            let frame = frame_view(*new_image);
            if frame is Some {
                let old = self.previous(frame_view(*old_image), frame->0);
                if let Some(z) = self.zone(old, frame->0.pixels) {
                    self.lemma_zone_in_reach(old, frame->0.pixels);
                    self.lemma_aligned_to_four(zone_geometry(z));
                }
            }
        }
        match self.try_compare(old_image, new_image) {
            Some(area) => area,
            None => None,
        }
    }

    /// The changed zone of two frames is the tight bounding box of the pixels
    /// that changed, and each of its bounds is a row or a column within
    /// reach.
    pub proof fn lemma_zone_in_reach(&self, old: Seq<Bgr8>, new: Seq<Bgr8>)
        requires
            self.zone(old, new) is Some,
        ensures
            ({
                let z = self.zone(old, new)->0;
                &&& self.is_zone(old, new, z.0, z.1, z.2, z.3)
                &&& 0 <= z.0 <= z.1 < self.row_limit()
                &&& 0 <= z.2 <= z.3 < self.col_limit()
                &&& z.3 < self.capture_width
            }),
    {
        let (row, col) = choose|row: int, col: int| self.changed_at(old, new, row, col);
        self.lemma_zone_exists(old, new, row, col);
    }

    /// Where some pixel within reach differs, the changed pixels have a tight
    /// bounding box.
    pub proof fn lemma_zone_exists(&self, old: Seq<Bgr8>, new: Seq<Bgr8>, row: int, col: int)
        requires
            self.changed_at(old, new, row, col),
        ensures
            exists|z: (int, int, int, int)| self.is_zone(old, new, z.0, z.1, z.2, z.3),
    {
        let top = self.lemma_least_row(old, new, row, col, row);
        let bottom = self.lemma_greatest_row(old, new, row, col, self.row_limit() - 1 - row);
        let left = self.lemma_least_col(old, new, row, col, col);
        let right = self.lemma_greatest_col(old, new, row, col, self.col_limit() - 1 - col);
        assert(self.is_zone(old, new, top, bottom, left, right));
        let z = (top, bottom, left, right);
        assert(self.is_zone(old, new, z.0, z.1, z.2, z.3));
    }

    proof fn lemma_least_row(
        &self,
        old: Seq<Bgr8>,
        new: Seq<Bgr8>,
        row: int,
        col: int,
        fuel: int,
    ) -> (top: int)
        requires
            self.changed_at(old, new, row, col),
            fuel == row,
        ensures
            exists|c: int| self.changed_at(old, new, top, c),
            forall|r: int, c: int| #[trigger] self.changed_at(old, new, r, c) ==> top <= r,
        decreases fuel,
    {
        if exists|r: int, c: int| self.changed_at(old, new, r, c) && r < row {
            let (r, c) = choose|r: int, c: int| self.changed_at(old, new, r, c) && r < row;
            self.lemma_least_row(old, new, r, c, r)
        } else {
            row
        }
    }

    proof fn lemma_greatest_row(
        &self,
        old: Seq<Bgr8>,
        new: Seq<Bgr8>,
        row: int,
        col: int,
        fuel: int,
    ) -> (bottom: int)
        requires
            self.changed_at(old, new, row, col),
            fuel == self.row_limit() - 1 - row,
        ensures
            exists|c: int| self.changed_at(old, new, bottom, c),
            forall|r: int, c: int| #[trigger] self.changed_at(old, new, r, c) ==> r <= bottom,
        decreases fuel,
    {
        if exists|r: int, c: int| self.changed_at(old, new, r, c) && r > row {
            let (r, c) = choose|r: int, c: int| self.changed_at(old, new, r, c) && r > row;
            self.lemma_greatest_row(old, new, r, c, self.row_limit() - 1 - r)
        } else {
            row
        }
    }

    proof fn lemma_least_col(
        &self,
        old: Seq<Bgr8>,
        new: Seq<Bgr8>,
        row: int,
        col: int,
        fuel: int,
    ) -> (left: int)
        requires
            self.changed_at(old, new, row, col),
            fuel == col,
        ensures
            exists|r: int| self.changed_at(old, new, r, left),
            forall|r: int, c: int| #[trigger] self.changed_at(old, new, r, c) ==> left <= c,
        decreases fuel,
    {
        if exists|r: int, c: int| self.changed_at(old, new, r, c) && c < col {
            let (r, c) = choose|r: int, c: int| self.changed_at(old, new, r, c) && c < col;
            self.lemma_least_col(old, new, r, c, c)
        } else {
            col
        }
    }

    proof fn lemma_greatest_col(
        &self,
        old: Seq<Bgr8>,
        new: Seq<Bgr8>,
        row: int,
        col: int,
        fuel: int,
    ) -> (right: int)
        requires
            self.changed_at(old, new, row, col),
            fuel == self.col_limit() - 1 - col,
        ensures
            exists|r: int| self.changed_at(old, new, r, right),
            forall|r: int, c: int| #[trigger] self.changed_at(old, new, r, c) ==> c <= right,
        decreases fuel,
    {
        if exists|r: int, c: int| self.changed_at(old, new, r, c) && c > col {
            let (r, c) = choose|r: int, c: int| self.changed_at(old, new, r, c) && c > col;
            self.lemma_greatest_col(old, new, r, c, self.col_limit() - 1 - c)
        } else {
            col
        }
    }

    /// A frame compared with itself shows no change: there is no changed
    /// zone and no update region.
    pub proof fn lemma_same_frame(&self, frame: Seq<Bgr8>)
        ensures
            self.unchanged(frame, frame),
            self.zone(frame, frame) is None,
            self.compare_spec(frame, frame) is None,
            self.capture_width > 0 ==> self.compare_defined(frame, frame),
    {
    }

    /// Unrotated or upside down, only what lies within the panel's width and
    /// height is looked at: a change is always found at a column below the
    /// panel's width and a row below its height, and two frames that differ
    /// only at or beyond either compare as unchanged.
    pub proof fn lemma_beyond_panel_ignored(&self, old: Seq<Bgr8>, new: Seq<Bgr8>)
        requires
            self.landscape(),
        ensures
            forall|row: int, col: int| #[trigger]
                self.changed_at(old, new, row, col) ==> row < self.eink_height && col
                    < self.eink_width,
            (forall|row: int, col: int| #[trigger]
                self.differs_at(old, new, row, col) ==> row >= self.eink_height || col
                    >= self.eink_width) ==> self.unchanged(old, new) && self.compare_spec(
                old,
                new,
            ) is None,
    {
    }

    /// Where every pixel of a frame that fills the panel changes, the update
    /// region is the whole panel with the new frame's pixels: the capture is
    /// as wide as the panel, a multiple of four, the panel is unrotated or
    /// upside down, and both frames hold one pixel per panel cell.
    pub proof fn lemma_whole_frame(&self, old: Seq<Bgr8>, new: Seq<Bgr8>)
        requires
            self.landscape(),
            self.capture_width == self.eink_width,
            self.eink_width > 0,
            self.eink_height > 0,
            self.eink_width % 4 == 0,
            old.len() == self.eink_width * self.eink_height,
            new.len() == self.eink_width * self.eink_height,
            forall|i: int| 0 <= i < new.len() ==> old[i] != new[i],
        ensures
            self.compare_defined(old, new),
            self.compare_spec(old, new) == Some(
                Region {
                    x: 0,
                    y: 0,
                    width: self.eink_width as int,
                    height: self.eink_height as int,
                    pixels: new,
                },
            ),
    {
        let w = self.eink_width as int;
        let h = self.eink_height as int;
        assert((h - 1) * w + w == w * h) by (nonlinear_arith);
        assert(0 <= (h - 1) * w) by (nonlinear_arith)
            requires
                h >= 1,
                w >= 0,
        ;
        assert(0 * w == 0);
        assert(self.changed_at(old, new, 0, 0));
        assert(self.changed_at(old, new, 0, w - 1));
        assert(self.changed_at(old, new, h - 1, 0));
        assert(self.is_zone(old, new, 0, h - 1, 0, w - 1));
        self.lemma_zone_is(old, new, (0, h - 1, 0, w - 1));
        let cropped = crop(new, w, 0, 0, w, h);
        assert forall|k: int| 0 <= k < w * h implies cropped[k] == new[k] by {
            lemma_cell(k, w, h);
        }
        assert(cropped =~= new);
    }
}

} // verus!
