# kornia_gpu

GPU image processing (perspective warp, gray conversion, scaling) with a
verified core.

- `src/` — the library, with its contracts and proofs:
  - `layout` — `GpuImageLayout`, the height × width × channels geometry of a
    device image buffer: element count, shape, row-major strides, byte size
    (all overflow-checked), the size test for writing into pre-allocated
    buffers, and laws on flat addressing (every element and every bilinear
    neighbour read lies inside the buffer; distinct elements never share an
    offset).
  - `launch` — the 16 × 16 tiling of per-pixel kernel launches, with the law
    that the grid covers every pixel and no block lies wholly outside.
  - `pool` — `GpuImagePool`, the last-in first-out pool of pre-allocated
    buffers (creation, acquire, release, count), with its round-trip laws.
  - `backend` — `BackendKind`, backend names and the automatic selection
    policy (CUDA only when built with CUDA support and a device initialises).
  - `error` — `GpuError`.
- `app/` — device code around the library: the wgpu/CubeCL and CUDA buffers,
  host/device transfers, the floating-point kernels and homography inversion,
  the pipeline and the backend dispatch.
- `tests/` — tests of the library.
