//! Which GPU backend processes the images.

use vstd::prelude::*;

verus! {

/// The GPU backends: wgpu (Vulkan on Linux, Metal on macOS, DX12 on Windows;
/// any GPU, no CUDA installation required) and CUDA (NVIDIA GPUs).
#[derive(Clone, Copy, Debug, PartialEq, Eq, Structural)]
pub enum BackendKind {
    /// wgpu / Vulkan, cross-platform.
    Wgpu,
    /// CUDA, NVIDIA only.
    Cuda,
}

impl BackendKind {
    /// Human-readable backend name.
    pub fn name(&self) -> (r: &'static str)
        ensures
            *self == BackendKind::Wgpu ==> r@ == "wgpu/Vulkan"@,
            *self == BackendKind::Cuda ==> r@ == "CUDA"@,
    {
        match self {
            BackendKind::Wgpu => "wgpu/Vulkan",
            BackendKind::Cuda => "CUDA",
        }
    }

    /// The backend that automatic selection picks: CUDA only when CUDA
    /// support is built in (`cuda_enabled`) and CUDA device 0 initialises
    /// (`cuda_device_ok`); wgpu/Vulkan otherwise. Selection never fails.
    pub fn select_backend(cuda_enabled: bool, cuda_device_ok: bool) -> (r: BackendKind)
        ensures
            r == (if cuda_enabled && cuda_device_ok { BackendKind::Cuda } else { BackendKind::Wgpu }),
    {
        if cuda_enabled && cuda_device_ok {
            BackendKind::Cuda
        } else {
            BackendKind::Wgpu
        }
    }
}

} // verus!
