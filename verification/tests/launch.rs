use kornia_gpu::launch::{tile_config, TILE};
use kornia_gpu::BackendKind;

#[test]
fn tile_config_1080p() {
    let cfg = tile_config(1920, 1080);
    assert_eq!(cfg.grid_dim, (120, 68, 1));
    assert_eq!(cfg.block_dim, (16, 16, 1));
    assert_eq!(cfg.shared_mem_bytes, 0);
}

#[test]
fn tile_config_small_and_partial_tiles() {
    assert_eq!(tile_config(8, 8).grid_dim, (1, 1, 1));
    assert_eq!(tile_config(16, 16).grid_dim, (1, 1, 1));
    assert_eq!(tile_config(17, 33).grid_dim, (2, 3, 1));
    assert_eq!(tile_config(0, 0).grid_dim, (0, 0, 1));
    assert_eq!(tile_config(6, 4).grid_dim, (1, 1, 1));
}

#[test]
fn tile_config_covers_every_pixel() {
    for w in 0..100usize {
        let gx = tile_config(w, 1).grid_dim.0 as usize;
        assert!(gx * TILE as usize >= w);
        if w > 0 {
            assert!((gx - 1) * (TILE as usize) < w);
        }
    }
}

#[test]
fn tile_config_largest_accepted() {
    let w = (u32::MAX - 15) as usize;
    let cfg = tile_config(w, w);
    assert_eq!(cfg.grid_dim.0, u32::MAX / 16);
    assert_eq!(cfg.grid_dim.1, u32::MAX / 16);
    assert!(cfg.grid_dim.0 as u64 * 16 >= w as u64);
}

#[test]
fn backend_names() {
    assert_eq!(BackendKind::Wgpu.name(), "wgpu/Vulkan");
    assert_eq!(BackendKind::Cuda.name(), "CUDA");
}

#[test]
fn backend_selection_policy() {
    assert_eq!(BackendKind::select_backend(true, true), BackendKind::Cuda);
    assert_eq!(BackendKind::select_backend(true, false), BackendKind::Wgpu);
    assert_eq!(BackendKind::select_backend(false, true), BackendKind::Wgpu);
    assert_eq!(BackendKind::select_backend(false, false), BackendKind::Wgpu);
}
