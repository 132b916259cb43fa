//! Turning an update region by the angle at which the panel is mounted.

use crate::area::lemma_cell;
use crate::imagery::Area;
use crate::imagery::Imagery;
use crate::imagery::Region;
use crate::parallel::par_map_range;
use crate::pixel::Bgr8;
use crate::rows::concat_rows;
use vstd::prelude::*;

verus! {

/// The pixels of a grid of `width` by `height` pixels after a clockwise
/// quarter turn: `width` rows of `height` pixels. Row `r` of the result is
/// column `r` of the grid read from its last row up to its first.
pub open spec fn quarter_turn(pixels: Seq<Bgr8>, width: int, height: int) -> Seq<Bgr8> {
    Seq::new(
        (width * height) as nat,
        |k: int| pixels[(height - 1 - k % height) * width + k / height],
    )
}

/// Column `line` of a grid of `width` by `height` pixels, read from the last
/// row up to the first.
pub open spec fn column_upwards_spec(pixels: Seq<Bgr8>, line: int, width: int, height: int) -> Seq<
    Bgr8,
> {
    Seq::new(height as nat, |j: int| pixels[(height - 1 - j) * width + line])
}

/// Column `line` of a grid of `width` by `height` pixels, read from the last
/// row up to the first.
fn column_upwards(pixels: &Vec<Bgr8>, line: usize, width: usize, height: usize) -> (column: Vec<
    Bgr8,
>)
    requires
        line < width,
        width * height <= pixels@.len(),
    ensures
        column@ == column_upwards_spec(pixels@, line as int, width as int, height as int),
{
    let len = pixels.len();
    let mut column: Vec<Bgr8> = Vec::with_capacity(height);
    let mut j: usize = 0;
    while j < height
        invariant
            j <= height,
            line < width,
            width * height <= pixels@.len() == len,
            column@.len() == j,
            forall|i: int|
                0 <= i < j ==> #[trigger] column@[i] == pixels@[(height - 1 - i) * width + line],
        decreases height - j,
    {
        assert((height - 1 - j) * width + width <= width * height) by (nonlinear_arith)
            requires
                0 <= j < height,
                0 <= width,
        ;
        assert(0 <= (height - 1 - j) * width) by (nonlinear_arith)
            requires
                0 <= j < height,
                0 <= width,
        ;
        column.push(pixels[(height - 1 - j) * width + line]);
        j += 1;
    }
    assert(column@ =~= column_upwards_spec(pixels@, line as int, width as int, height as int));
    column
}

impl Imagery {
    /// The region can be turned by `angle`: for a quarter turn it lies above
    /// the panel's width, which becomes its horizontal bound, and holds a
    /// pixel for each of its cells.
    pub open spec fn rotate_defined(&self, area: Region, angle: u16) -> bool {
        angle == 90 ==> area.y + area.height <= self.eink_width && area.width * area.height
            <= area.pixels.len()
    }

    /// The region turned by `angle`. A quarter turn swaps width and height,
    /// takes the old column as the new row and measures the new column from
    /// the panel's far edge; every other angle leaves the region as it is.
    pub open spec fn rotate_spec(&self, area: Region, angle: u16) -> Region {
        if angle == 90 {
            Region {
                x: self.eink_width - area.y - area.height,
                y: area.x,
                width: area.height,
                height: area.width,
                pixels: quarter_turn(area.pixels, area.width, area.height),
            }
        } else {
            area
        }
    }

    /// Turns a region by `rotation_angle` degrees. Only a quarter turn, 90,
    /// moves anything; the rows of the turned region are gathered in
    /// parallel.
    pub fn rotate(&self, base_area: Area, rotation_angle: u16) -> (rotated: Area)
        requires
            self.rotate_defined(base_area@, rotation_angle),
        ensures
            rotated@ == self.rotate_spec(base_area@, rotation_angle),
            rotation_angle == 90 || base_area.wf() ==> rotated.wf(),
    {
        if rotation_angle != 90 {
            return base_area;
        }
        let x = self.eink_width - base_area.y - base_area.height;
        let y = base_area.x;
        let width = base_area.height;
        let height = base_area.width;
        let old_width = base_area.width as usize;
        let old_height = base_area.height as usize;
        let base = &base_area.bgr_vec;
        let gather = |line: usize| -> (row: Vec<Bgr8>)
            requires
                line < old_width,
            ensures
                row@ == column_upwards_spec(
                    base@,
                    line as int,
                    old_width as int,
                    old_height as int,
                ),
            { column_upwards(base, line, old_width, old_height) };
        let rows = par_map_range(old_width, gather);
        let bgr_vec = concat_rows(&rows, old_height);
        proof {
            let wanted = quarter_turn(base@, old_width as int, old_height as int);
            assert(old_width * old_height == old_height * old_width) by (nonlinear_arith);
            assert forall|k: int| 0 <= k < bgr_vec@.len() implies bgr_vec@[k] == wanted[k] by {
                assert(old_height > 0) by (nonlinear_arith)
                    requires
                        0 <= k < old_height * old_width,
                ;
                lemma_cell(k, old_height as int, old_width as int);
                let line = k / (old_height as int);
                let j = k % (old_height as int);
                assert(rows@[line]@[j] == base@[(old_height - 1 - j) * old_width + line]);
            }
            assert(bgr_vec@ =~= wanted);
        }
        Area { x, y, width, height, bgr_vec }
    }
}

} // verus!
