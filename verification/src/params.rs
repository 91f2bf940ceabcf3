//! Validation of a filtering call's parameters: buffer length against the
//! stated dimensions, kernel shape, and the kernel radius against the
//! dimensions, so that one reflection per sampled neighbor is enough.

use vstd::prelude::*;

use crate::error::FilterError;

verus! {

/// Half-width of a kernel excluding its center: `(length - 1) / 2`.
pub open spec fn radius_spec(kernel_len: int) -> int {
    (kernel_len - 1) / 2
}

/// When a separable convolution accepts its input: the buffer holds exactly
/// `width * height` samples, the kernel has an odd length so it has a center,
/// and its radius stays below both dimensions so that every reflected
/// neighbor coordinate lands inside the buffer.
pub open spec fn conv_input_ok(src_len: int, width: int, height: int, kernel_len: int) -> bool {
    &&& src_len == width * height
    &&& kernel_len % 2 == 1
    &&& radius_spec(kernel_len) < width
    &&& radius_spec(kernel_len) < height
}

/// Which error a rejected input earns, checked in this order: dimensions
/// first, then the kernel's shape, then its radius.
pub open spec fn conv_error_spec(src_len: int, width: int, height: int, kernel_len: int) -> FilterError {
    if src_len != width * height {
        FilterError::DimensionMismatch
    } else if kernel_len % 2 == 0 {
        FilterError::InvalidKernel
    } else {
        FilterError::RadiusTooLarge
    }
}

/// Accepts or rejects the parameters of a filtering call, returning the
/// kernel's radius on success.
pub fn validate(src_len: usize, width: usize, height: usize, kernel_len: usize) -> (r: Result<
    usize,
    FilterError,
>)
    ensures
        conv_input_ok(src_len as int, width as int, height as int, kernel_len as int) ==> (
        r matches Ok(rad) && rad as int == radius_spec(kernel_len as int)),
        !conv_input_ok(src_len as int, width as int, height as int, kernel_len as int) ==> r
            == Err::<usize, FilterError>(
            conv_error_spec(src_len as int, width as int, height as int, kernel_len as int),
        ),
{
    let area_matches: bool = match width.checked_mul(height) {
        Some(area) => area == src_len,
        None => false,
    };
    if !area_matches {
        return Err(FilterError::DimensionMismatch);
    }
    if kernel_len % 2 == 0 {
        return Err(FilterError::InvalidKernel);
    }
    let radius: usize = (kernel_len - 1) / 2;
    if radius >= width || radius >= height {
        return Err(FilterError::RadiusTooLarge);
    }
    Ok(radius)
}

} // verus!
