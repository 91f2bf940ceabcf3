//! Reflect-101 boundary handling: an out-of-range 1D coordinate is mirrored
//! across the nearer edge without duplicating the edge sample.

use vstd::prelude::*;

verus! {

/// Where a coordinate lands after one reflection at the edges of `[0, limit)`:
/// a negative coordinate mirrors across `0`, one at or beyond `limit` mirrors
/// across `limit - 1`, and an in-range coordinate is left alone.
pub open spec fn reflect_spec(x: int, limit: int) -> int {
    if x < 0 {
        -x
    } else if x >= limit {
        2 * limit - 2 - x
    } else {
        x
    }
}

/// A single reflection lands inside `[0, limit)` exactly when the coordinate
/// is no further than `limit - 1` out of range on either side.
pub proof fn lemma_reflect_within_limit(x: int, limit: int)
    requires
        0 < limit,
        -limit < x,
        x < 2 * limit - 1,
    ensures
        0 <= reflect_spec(x, limit),
        reflect_spec(x, limit) < limit,
{
}

/// At the edges the reflection behaves as a mirror that does not repeat the
/// edge sample: the first samples inside stay put, while the first coordinates
/// outside land one step further in.
pub proof fn lemma_reflect_edges(limit: int)
    requires
        limit > 1,
    ensures
        reflect_spec(0, limit) == 0,
        reflect_spec(limit - 1, limit) == limit - 1,
        reflect_spec(-1, limit) == 1,
        reflect_spec(limit, limit) == limit - 2,
{
}

/// Reflects `x` into the index range `[0, limit)`.
///
/// The formula is exact for coordinates that are out of range by at most
/// `limit - 1`, which the precondition demands; kernel radii are held below
/// the corresponding dimension for the same reason.
pub fn reflect101(x: i128, limit: usize) -> (r: usize)
    requires
        0 < limit,
        -(limit as int) < x as int,
        (x as int) < 2 * (limit as int) - 1,
    ensures
        r as int == reflect_spec(x as int, limit as int),
        r < limit,
{
    if x < 0 {
        (-x) as usize
    } else if x >= limit as i128 {
        (2 * (limit as i128) - 2 - x) as usize
    } else {
        x as usize
    }
}

} // verus!
