[package]
name = "kornia_gpu"
version = "0.1.0"
edition = "2021"
publish = false

[dependencies]
bytemuck = "=1.25.2"
cubecl = { version = "=0.9.0", default-features = false, features = ["std", "wgpu"] }
cudarc = { version = "=0.19.10", default-features = false, features = ["std", "driver", "fallback-dynamic-loading", "cuda-12080", "nvrtc"] }
kornia-image = "=0.1.14"
kornia-tensor = "=0.1.14"
thiserror = "=2.0.21"
