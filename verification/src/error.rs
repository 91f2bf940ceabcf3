//! The ways a filtering call can reject its input. Every error is decided
//! before any work is done: a caller receives either a complete result or an
//! error, never a partial buffer.

use vstd::prelude::*;

verus! {

/// Why a filtering call rejected its input.
#[derive(Clone, Copy, Debug, PartialEq, Eq, Structural)]
pub enum FilterError {
    /// The buffer's length is not `width * height`.
    DimensionMismatch,
    /// The kernel's length is even or zero, so it has no center weight.
    InvalidKernel,
    /// The kernel's radius reaches a dimension of the image, where a single
    /// reflection no longer lands inside the buffer.
    RadiusTooLarge,
}

} // verus!
