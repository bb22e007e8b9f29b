//! Errors reported by GPU image operations.

use vstd::prelude::*;

verus! {

/// The error type of image decoding and construction in `kornia_image`.
#[verifier::external_type_specification]
#[verifier::external_body]
pub struct ExImageError(kornia_image::ImageError);

/// Errors that can occur in GPU operations.
#[derive(Debug)]
pub enum GpuError {
    /// Error from kornia-image operations.
    ImageError(kornia_image::ImageError),
    /// Kernel launch failed.
    KernelLaunchError(String),
    /// Shape mismatch between src and dst images.
    ShapeMismatch(Vec<usize>, Vec<usize>),
    /// Singular homography matrix (determinant is zero).
    SingularHomography,
    /// CUDA runtime error.
    CudaError(String),
    /// All buffers in the pool are currently acquired.
    PoolExhausted,
    /// Buffer dimensions don't match the operation's required output size:
    /// expected height and width, then the height and width found.
    BufferSizeMismatch(usize, usize, usize, usize),
}

} // verus!
