//! Verified core of a GPU image-processing toolkit: image buffer layouts,
//! kernel launch tiling, the reusable buffer pool, backend selection and the
//! error type shared by every operation.

pub mod backend;
pub mod error;
pub mod launch;
pub mod layout;
pub mod pool;

pub use backend::BackendKind;
pub use error::GpuError;
pub use launch::TileConfig;
pub use layout::GpuImageLayout;
pub use pool::GpuImagePool;
