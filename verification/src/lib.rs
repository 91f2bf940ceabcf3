//! Core of a small image-filtering kernel library: reflect-101 boundary
//! handling, input validation, and the index arithmetic behind separable
//! convolution and the Sobel gradient stencils, over flat row-major buffers.
//!
//! Sample values themselves are floating point and are combined by the host
//! side of the project; everything here works on coordinates, dimensions and
//! stencil weights, and is verified: every index handed out is proved to lie
//! inside the buffer it addresses.

pub mod boundary;
pub mod error;
pub mod params;
pub mod sobel;
pub mod taps;
