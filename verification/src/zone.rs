//! Finding the part of a frame that changed: the tight bounding box of the
//! pixels that differ between two successive frames.

use crate::imagery::Imagery;
use crate::parallel::par_map_range;
use crate::pixel::Bgr8;
use vstd::prelude::*;

verus! {

/// The bounds that `determine_changed_zone` reports, as integers: first and
/// last changed row, then first and last changed column.
pub open spec fn zone_bounds(zone: Option<[Option<u16>; 4]>) -> Option<(int, int, int, int)> {
    match zone {
        None => None,
        Some(z) => Some(
            (
                z[0].unwrap() as int,
                z[1].unwrap() as int,
                z[2].unwrap() as int,
                z[3].unwrap() as int,
            ),
        ),
    }
}

/// A sequence of `len` pixels cut into rows of `width` spreads over
/// `len / width` full rows and, where a remainder is left, a short one more.
/// Row `row` begins inside the sequence exactly when it is one of these.
pub proof fn lemma_row_starts(len: int, width: int, row: int)
    requires
        0 <= len,
        0 < width,
        0 <= row,
    ensures
        row * width < len <==> row < len / width + if len % width > 0 { 1int } else { 0int },
{
    let q = len / width;
    let r = len % width;
    assert(len == q * width + r && 0 <= r < width) by {
        vstd::arithmetic::div_mod::lemma_fundamental_div_mod(len, width);
        vstd::arithmetic::div_mod::lemma_mod_bound(len, width);
        assert(width * q == q * width) by (nonlinear_arith);
    }
    if row < q {
        assert(row * width + width <= q * width) by (nonlinear_arith)
            requires
                row + 1 <= q,
                0 < width,
        ;
    } else if row == q {
    } else {
        assert(row * width >= q * width + width) by (nonlinear_arith)
            requires
                row >= q + 1,
                0 < width,
        ;
    }
}

impl Imagery {
    /// Rows at or beyond this index lie outside what the panel can show and
    /// are never looked at: the panel's height, or its width with a quarter
    /// turn pending. With any other rotation the bound is what a 16-bit
    /// coordinate can address.
    pub open spec fn row_limit(&self) -> int {
        if self.landscape() {
            self.eink_height as int
        } else if self.portrait() {
            self.eink_width as int
        } else {
            0x10000
        }
    }

    /// Columns at or beyond this index lie outside what the panel can show
    /// and are never looked at: the panel's width, or its height with a
    /// quarter turn pending. With any other rotation the bound is what a
    /// 16-bit coordinate can address.
    pub open spec fn col_limit(&self) -> int {
        if self.landscape() {
            self.eink_width as int
        } else if self.portrait() {
            self.eink_height as int
        } else {
            0x10000
        }
    }

    /// The two frames, cut into rows of `capture_width` pixels, both hold a
    /// pixel at `row`, `col`, and the two pixels differ.
    pub open spec fn differs_at(&self, old: Seq<Bgr8>, new: Seq<Bgr8>, row: int, col: int) -> bool {
        let at = row * self.capture_width + col;
        &&& 0 <= row
        &&& 0 <= col < self.capture_width
        &&& at < old.len()
        &&& at < new.len()
        &&& old[at] != new[at]
    }

    /// The pixel at `row`, `col` is within the panel's reach and differs
    /// between the two frames.
    pub open spec fn changed_at(&self, old: Seq<Bgr8>, new: Seq<Bgr8>, row: int, col: int) -> bool {
        &&& row < self.row_limit()
        &&& col < self.col_limit()
        &&& self.differs_at(old, new, row, col)
    }

    /// No pixel within reach differs.
    pub open spec fn unchanged(&self, old: Seq<Bgr8>, new: Seq<Bgr8>) -> bool {
        forall|row: int, col: int| !self.changed_at(old, new, row, col)
    }

    /// `first..=last` are the tight column bounds of the changed pixels of
    /// row `row`; `None` says the row has no changed pixel.
    pub open spec fn is_row_span(
        &self,
        old: Seq<Bgr8>,
        new: Seq<Bgr8>,
        row: int,
        span: Option<(u16, u16)>,
    ) -> bool {
        match span {
            None => forall|col: int| !self.changed_at(old, new, row, col),
            Some((first, last)) => {
                &&& self.changed_at(old, new, row, first as int)
                &&& self.changed_at(old, new, row, last as int)
                &&& forall|col: int| #[trigger]
                    self.changed_at(old, new, row, col) ==> first <= col <= last
            },
        }
    }

    /// Rows `top..=bottom` and columns `left..=right` are the tight bounding
    /// box of the changed pixels in rows below `rows`: every such pixel lies
    /// inside, and each of the four edges holds one.
    pub open spec fn is_zone_of_rows(
        &self,
        old: Seq<Bgr8>,
        new: Seq<Bgr8>,
        rows: int,
        top: int,
        bottom: int,
        left: int,
        right: int,
    ) -> bool {
        &&& top < rows
        &&& bottom < rows
        &&& exists|col: int| self.changed_at(old, new, top, col)
        &&& exists|col: int| self.changed_at(old, new, bottom, col)
        &&& exists|row: int| row < rows && self.changed_at(old, new, row, left)
        &&& exists|row: int| row < rows && self.changed_at(old, new, row, right)
        &&& forall|row: int, col: int| #[trigger]
            self.changed_at(old, new, row, col) && row < rows ==> top <= row <= bottom && left
                <= col <= right
    }

    /// Rows `top..=bottom` and columns `left..=right` are the tight bounding
    /// box of all changed pixels.
    pub open spec fn is_zone(
        &self,
        old: Seq<Bgr8>,
        new: Seq<Bgr8>,
        top: int,
        bottom: int,
        left: int,
        right: int,
    ) -> bool {
        &&& exists|col: int| self.changed_at(old, new, top, col)
        &&& exists|col: int| self.changed_at(old, new, bottom, col)
        &&& exists|row: int| self.changed_at(old, new, row, left)
        &&& exists|row: int| self.changed_at(old, new, row, right)
        &&& forall|row: int, col: int| #[trigger]
            self.changed_at(old, new, row, col) ==> top <= row <= bottom && left <= col <= right
    }

    /// The changed zone of two frames: nothing when no pixel within reach
    /// differs, else the tight bounding box `(top, bottom, left, right)`.
    pub open spec fn zone(&self, old: Seq<Bgr8>, new: Seq<Bgr8>) -> Option<(int, int, int, int)> {
        if self.unchanged(old, new) {
            None
        } else {
            Some(choose|z: (int, int, int, int)| self.is_zone(old, new, z.0, z.1, z.2, z.3))
        }
    }

    /// Two tight bounding boxes of the same pair of frames are the same box.
    pub proof fn lemma_zone_unique(
        &self,
        old: Seq<Bgr8>,
        new: Seq<Bgr8>,
        a: (int, int, int, int),
        b: (int, int, int, int),
    )
        requires
            self.is_zone(old, new, a.0, a.1, a.2, a.3),
            self.is_zone(old, new, b.0, b.1, b.2, b.3),
        ensures
            a == b,
    {
    }

    /// A box that is the tight bounding box is the zone of the two frames.
    pub proof fn lemma_zone_is(
        &self,
        old: Seq<Bgr8>,
        new: Seq<Bgr8>,
        z: (int, int, int, int),
    )
        requires
            self.is_zone(old, new, z.0, z.1, z.2, z.3),
        ensures
            self.zone(old, new) == Some(z),
    {
        let c = choose|c: (int, int, int, int)| self.is_zone(old, new, c.0, c.1, c.2, c.3);
        self.lemma_zone_unique(old, new, c, z);
    }

    fn exec_row_limit(&self) -> (limit: u32)
        ensures
            limit == self.row_limit(),
    {
        if self.rotation == 0 || self.rotation == 180 {
            self.eink_height as u32
        } else if self.rotation == 90 || self.rotation == 270 {
            self.eink_width as u32
        } else {
            0x10000
        }
    }

    fn exec_col_limit(&self) -> (limit: u32)
        ensures
            limit == self.col_limit(),
    {
        if self.rotation == 0 || self.rotation == 180 {
            self.eink_width as u32
        } else if self.rotation == 90 || self.rotation == 270 {
            self.eink_height as u32
        } else {
            0x10000
        }
    }

    /// Scans one row of the two frames pixel by pixel and reports the first
    /// and the last column at which they differ.
    fn scan_row(&self, old_slice: &[Bgr8], new_slice: &[Bgr8], row: usize) -> (span: Option<
        (u16, u16),
    >)
        requires
            row * self.capture_width < old_slice@.len(),
            row * self.capture_width < new_slice@.len(),
            row < self.row_limit(),
        ensures
            self.is_row_span(old_slice@, new_slice@, row as int, span),
    {
        let line = self.capture_width as usize;
        let old_len = old_slice.len();
        assert(row * line == row * self.capture_width);
        let start = row * line;
        let mut width = line;
        if old_len - start < width {
            width = old_len - start;
        }
        if new_slice.len() - start < width {
            width = new_slice.len() - start;
        }
        if (self.exec_col_limit() as usize) < width {
            width = self.exec_col_limit() as usize;
        }
        let mut first: Option<u16> = None;
        let mut last: u16 = 0;
        let mut col: usize = 0;
        while col < width
            invariant
                col <= width <= 0xffff,
                old_slice@.len() <= usize::MAX,
                start + width <= old_slice@.len(),
                start + width <= new_slice@.len(),
                first is None ==> forall|i: int|
                    start <= i < start + col ==> old_slice@[i] == new_slice@[i],
                first is Some ==> {
                    &&& first->0 <= last < col
                    &&& old_slice@[start + first->0] != new_slice@[start + first->0]
                    &&& old_slice@[start + last] != new_slice@[start + last]
                    &&& forall|i: int|
                        start <= i < start + col && old_slice@[i] != new_slice@[i] ==> start
                            + first->0 <= i <= start + last
                },
            decreases width - col,
        {
            if old_slice[start + col] != new_slice[start + col] {
                if first.is_none() {
                    first = Some(col as u16);
                }
                last = col as u16;
            }
            col += 1;
        }
        proof {
            assert forall|c: int| #[trigger]
                self.changed_at(old_slice@, new_slice@, row as int, c) implies 0 <= c < width
                && old_slice@[start + c] != new_slice@[start + c] by {}
        }
        match first {
            None => None,
            Some(f) => Some((f, last)),
        }
    }

    /// The tight bounds of what differs between two frames, as first and last
    /// changed row followed by first and last changed column, or nothing
    /// when no pixel within the panel's reach differs.
    ///
    /// Rows are scanned independently of each other, in parallel, and their
    /// bounds merged afterwards in row order.
    pub fn determine_changed_zone(&self, old_slice: &[Bgr8], new_slice: &[Bgr8]) -> (zone: Option<
        [Option<u16>; 4],
    >)
        requires
            self.capture_width > 0,
        ensures
            zone_bounds(zone) == self.zone(old_slice@, new_slice@),
            zone is None <==> self.unchanged(old_slice@, new_slice@),
            zone matches Some(z) ==> {
                &&& z[0] is Some
                &&& z[1] is Some
                &&& z[2] is Some
                &&& z[3] is Some
                &&& self.is_zone(
                    old_slice@,
                    new_slice@,
                    z[0]->0 as int,
                    z[1]->0 as int,
                    z[2]->0 as int,
                    z[3]->0 as int,
                )
            },
    {
        let ghost old = old_slice@;
        let ghost new = new_slice@;
        let width = self.capture_width as usize;
        let shorter = if old_slice.len() < new_slice.len() {
            old_slice.len()
        } else {
            new_slice.len()
        };
        let mut rows = shorter / width;
        if shorter % width > 0 {
            proof {
                vstd::arithmetic::div_mod::lemma_fundamental_div_mod(shorter as int, width as int);
            }
            assert(shorter / width < shorter) by (nonlinear_arith)
                requires
                    0 < width,
                    shorter % width > 0,
                    shorter == width * (shorter / width) + shorter % width,
            ;
            rows += 1;
        }
        if (self.exec_row_limit() as usize) < rows {
            rows = self.exec_row_limit() as usize;
        }
        proof {
            assert forall|row: int, col: int| #[trigger]
                self.changed_at(old, new, row, col) implies row < rows by {
                lemma_row_starts(shorter as int, width as int, row);
                assert(row * width <= row * width + col);
            }
        }
        let scan = |row: usize| -> (span: Option<(u16, u16)>)
            requires
                row < rows,
            ensures
                self.is_row_span(old_slice@, new_slice@, row as int, span),
            {
                proof {
                    lemma_row_starts(shorter as int, width as int, row as int);
                }
                self.scan_row(old_slice, new_slice, row)
            };
        let spans = par_map_range(rows, scan);
        assert forall|row: int| 0 <= row < rows implies self.is_row_span(
            old,
            new,
            row,
            #[trigger] spans@[row],
        ) by {}

        let mut found: Option<(u16, u16, u16, u16)> = None;
        let mut row: usize = 0;
        while row < rows
            invariant
                row <= rows <= 0x10000,
                spans@.len() == rows,
                forall|r: int| 0 <= r < rows ==> self.is_row_span(old, new, r, #[trigger] spans@[r]),
                found is None ==> forall|r: int, c: int| #[trigger]
                    self.changed_at(old, new, r, c) ==> r >= row,
                found matches Some(z) ==> self.is_zone_of_rows(
                    old,
                    new,
                    row as int,
                    z.0 as int,
                    z.1 as int,
                    z.2 as int,
                    z.3 as int,
                ),
            decreases rows - row,
        {
            let span = spans[row];
            assert(self.is_row_span(old, new, row as int, span));
            match span {
                None => {},
                Some((first, last)) => {
                    let line = row as u16;
                    match found {
                        None => {
                            found = Some((line, line, first, last));
                        },
                        Some((top, _, left, right)) => {
                            let new_left = if first < left {
                                first
                            } else {
                                left
                            };
                            let new_right = if last > right {
                                last
                            } else {
                                right
                            };
                            found = Some((top, line, new_left, new_right));
                        },
                    }
                },
            }
            row += 1;
        }
        match found {
            None => None,
            Some((top, bottom, left, right)) => {
                proof {
                    self.lemma_zone_is(
                        old,
                        new,
                        (top as int, bottom as int, left as int, right as int),
                    );
                }
                Some([Some(top), Some(bottom), Some(left), Some(right)])
            },
        }
    }
}

} // verus!
