//! The Sobel gradient stencils: the fixed pair of 3×3 integer weight grids
//! and the index arithmetic that gathers each pixel's 3×3 neighborhood with
//! reflect-101 border handling. The horizontal stencil is the outer product
//! of the smoothing row `[1, 2, 1]` with the difference row `[-1, 0, 1]`; the
//! vertical stencil is its transpose.

use vstd::prelude::*;

use crate::boundary::reflect_spec;
use crate::boundary::reflect101;
use crate::taps::lemma_row_major_in_bounds;
use crate::taps::row_major_spec;

verus! {

/// The smoothing weight of the Sobel stencils along one axis: `[1, 2, 1]`.
pub open spec fn smooth_weight_spec(i: int) -> int {
    if i == 1 {
        2
    } else {
        1
    }
}

/// The central-difference weight of the Sobel stencils along one axis:
/// `[-1, 0, 1]`.
pub open spec fn diff_weight_spec(i: int) -> int {
    if i == 0 {
        -1
    } else if i == 1 {
        0
    } else {
        1
    }
}

/// Weight of the horizontal-gradient stencil at row `r`, column `c` of the
/// 3×3 window: differences across columns, smoothed across rows.
pub open spec fn sobel_x_weight_spec(r: int, c: int) -> int {
    smooth_weight_spec(r) * diff_weight_spec(c)
}

/// Weight of the vertical-gradient stencil at row `r`, column `c` of the
/// 3×3 window: differences across rows, smoothed across columns.
pub open spec fn sobel_y_weight_spec(r: int, c: int) -> int {
    diff_weight_spec(r) * smooth_weight_spec(c)
}

/// Weight of the horizontal-gradient stencil at row `r`, column `c`.
pub fn sobel_x_weight(r: usize, c: usize) -> (w: i32)
    requires
        r < 3,
        c < 3,
    ensures
        w as int == sobel_x_weight_spec(r as int, c as int),
{
    let smooth: i32 = if r == 1 {
        2
    } else {
        1
    };
    if c == 0 {
        -smooth
    } else if c == 1 {
        0
    } else {
        smooth
    }
}

/// Weight of the vertical-gradient stencil at row `r`, column `c`.
pub fn sobel_y_weight(r: usize, c: usize) -> (w: i32)
    requires
        r < 3,
        c < 3,
    ensures
        w as int == sobel_y_weight_spec(r as int, c as int),
{
    let smooth: i32 = if c == 1 {
        2
    } else {
        1
    };
    if r == 0 {
        -smooth
    } else if r == 1 {
        0
    } else {
        smooth
    }
}

/// Flat index of the sample at row `r`, column `c` of the 3×3 window
/// centered on `(x, y)`, each coordinate reflected at the borders.
pub open spec fn sobel_window_spec(x: int, y: int, r: int, c: int, width: int, height: int) -> int {
    row_major_spec(reflect_spec(x + c - 1, width), reflect_spec(y + r - 1, height), width)
}

/// Flat index of the sample at row `r`, column `c` of the 3×3 window
/// centered on `(x, y)`, guaranteed to lie inside the buffer.
pub fn sobel_window_index(x: usize, y: usize, r: usize, c: usize, width: usize, height: usize) -> (idx: usize)
    requires
        x < width,
        y < height,
        2 <= width,
        2 <= height,
        r < 3,
        c < 3,
        width * height <= usize::MAX,
    ensures
        idx as int == sobel_window_spec(x as int, y as int, r as int, c as int, width as int, height as int),
        idx < width * height,
{
    let rx: usize = reflect101(x as i128 + c as i128 - 1, width);
    let ry: usize = reflect101(y as i128 + r as i128 - 1, height);
    proof {
        lemma_row_major_in_bounds(rx as int, ry as int, width as int, height as int);
    }
    ry * width + rx
}

/// Each row of the horizontal stencil and each column of the vertical
/// stencil cancels to zero: the weights that meet a single repeated sample
/// value sum to nothing, which is why a constant buffer has no gradient.
pub proof fn lemma_sobel_stencils_cancel()
    ensures
        forall|r: int|
            0 <= r < 3 ==> #[trigger] sobel_x_weight_spec(r, 0) + sobel_x_weight_spec(r, 1)
                + sobel_x_weight_spec(r, 2) == 0,
        forall|c: int|
            0 <= c < 3 ==> #[trigger] sobel_y_weight_spec(0, c) + sobel_y_weight_spec(1, c)
                + sobel_y_weight_spec(2, c) == 0,
{
}

/// Within each column the vertical stencil weighs rows `0` and `2`
/// oppositely and row `1` not at all: wherever the window's top and bottom
/// rows hold equal samples — away from any horizontal edge — their
/// contributions to the vertical gradient cancel.
pub proof fn lemma_sobel_y_antisymmetric()
    ensures
        forall|c: int| 0 <= c < 3 ==> #[trigger] sobel_y_weight_spec(0, c) == -sobel_y_weight_spec(2, c),
        forall|c: int| 0 <= c < 3 ==> #[trigger] sobel_y_weight_spec(1, c) == 0,
{
}

} // verus!
