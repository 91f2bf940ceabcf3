//! Index arithmetic for the two passes of a separable convolution over a flat
//! row-major buffer. Each pass walks, for every pixel, the `2 * radius + 1`
//! taps of a 1D kernel; the tap's coordinate is reflected at the borders and
//! the resulting flat index is proved to lie inside the buffer.

use vstd::prelude::*;

use crate::boundary::reflect_spec;
use crate::boundary::reflect101;

verus! {

/// Flat position of the pixel `(x, y)` in a row-major `width`-wide buffer.
pub open spec fn row_major_spec(x: int, y: int, width: int) -> int {
    y * width + x
}

/// A pixel's flat position lies inside the `width * height` buffer.
pub proof fn lemma_row_major_in_bounds(x: int, y: int, width: int, height: int)
    by (nonlinear_arith)
    requires
        0 <= x < width,
        0 <= y < height,
    ensures
        0 <= row_major_spec(x, y, width),
        row_major_spec(x, y, width) < width * height,
{
}

/// Source index read by tap `t` of the horizontal pass at pixel `(x, y)`:
/// the column `x + t - radius`, reflected into range, within row `y`.
pub open spec fn horizontal_tap_spec(x: int, y: int, t: int, width: int, radius: int) -> int {
    row_major_spec(reflect_spec(x + t - radius, width), y, width)
}

/// Source index read by tap `t` of the vertical pass at pixel `(x, y)`:
/// the row `y + t - radius`, reflected into range, within column `x`.
pub open spec fn vertical_tap_spec(x: int, y: int, t: int, width: int, height: int, radius: int) -> int {
    row_major_spec(x, reflect_spec(y + t - radius, height), width)
}

/// With a radius of zero — a single-weight kernel — every tap of either pass
/// reads exactly the pixel it writes.
pub proof fn lemma_radius_zero_taps_identity(x: int, y: int, width: int, height: int)
    requires
        0 <= x < width,
        0 <= y < height,
    ensures
        horizontal_tap_spec(x, y, 0, width, 0) == row_major_spec(x, y, width),
        vertical_tap_spec(x, y, 0, width, height, 0) == row_major_spec(x, y, width),
{
}

/// Flat source index read by tap `t` of the horizontal pass at pixel
/// `(x, y)`, guaranteed to lie inside the buffer.
pub fn horizontal_tap_index(
    x: usize,
    y: usize,
    t: usize,
    width: usize,
    height: usize,
    radius: usize,
) -> (idx: usize)
    requires
        x < width,
        y < height,
        radius < width,
        t <= 2 * radius,
        width * height <= usize::MAX,
    ensures
        idx as int == horizontal_tap_spec(x as int, y as int, t as int, width as int, radius as int),
        idx < width * height,
{
    let off: i128 = x as i128 + t as i128 - radius as i128;
    let rx: usize = reflect101(off, width);
    proof {
        lemma_row_major_in_bounds(rx as int, y as int, width as int, height as int);
    }
    y * width + rx
}

/// Flat source index read by tap `t` of the vertical pass at pixel `(x, y)`,
/// guaranteed to lie inside the buffer.
pub fn vertical_tap_index(
    x: usize,
    y: usize,
    t: usize,
    width: usize,
    height: usize,
    radius: usize,
) -> (idx: usize)
    requires
        x < width,
        y < height,
        radius < height,
        t <= 2 * radius,
        width * height <= usize::MAX,
    ensures
        idx as int == vertical_tap_spec(x as int, y as int, t as int, width as int, height as int, radius as int),
        idx < width * height,
{
    let off: i128 = y as i128 + t as i128 - radius as i128;
    let ry: usize = reflect101(off, height);
    proof {
        lemma_row_major_in_bounds(x as int, ry as int, width as int, height as int);
    }
    ry * width + x
}

} // verus!
