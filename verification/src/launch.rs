//! Launch geometry for the per-pixel image kernels: square tiles of
//! `TILE × TILE` threads, one thread per output pixel.

use vstd::prelude::*;

verus! {

/// Side of the square thread tile (threads per block along x and along y).
pub const TILE: u32 = 16;

/// Number of tiles needed to cover `n` pixels along one axis (ceiling
/// division by the tile side).
pub open spec fn tiles_for(n: int) -> int {
    (n + TILE - 1) / (TILE as int)
}

/// Grid and block dimensions of a kernel launch.
pub struct TileConfig {
    /// Number of blocks along x, y and z.
    pub grid_dim: (u32, u32, u32),
    /// Number of threads per block along x, y and z.
    pub block_dim: (u32, u32, u32),
    /// Dynamic shared memory per block, in bytes.
    pub shared_mem_bytes: u32,
}

/// Launch configuration for a `w` × `h` output: `TILE × TILE` blocks and
/// enough of them to cover every pixel. The dimensions are taken as `u32`
/// (the width of the device's launch parameters).
pub fn tile_config(w: usize, h: usize) -> (r: TileConfig)
    requires
        (w as u32) + (TILE - 1) <= u32::MAX,
        (h as u32) + (TILE - 1) <= u32::MAX,
    ensures
        r.grid_dim == (tiles_for(w as u32 as int) as u32, tiles_for(h as u32 as int) as u32, 1u32),
        r.block_dim == (TILE, TILE, 1u32),
        r.shared_mem_bytes == 0,
{
    let tile = TILE;
    TileConfig {
        grid_dim: ((w as u32 + (tile - 1)) / tile, (h as u32 + (tile - 1)) / tile, 1),
        block_dim: (tile, tile, 1),
        shared_mem_bytes: 0,
    }
}

/// The tiles cover every pixel along an axis of `n` pixels, and none of
/// them lies wholly past the edge: pixel `x` is handled by tile `x / TILE`,
/// which exists, and the last tile starts before `n`.
pub proof fn lemma_tiles_cover(n: int)
    requires
        n >= 0,
    ensures
        tiles_for(n) * TILE >= n,
        n > 0 ==> (tiles_for(n) - 1) * TILE < n,
        n == 0 ==> tiles_for(n) == 0,
        forall|x: int| 0 <= x < n ==> #[trigger] (x / (TILE as int)) < tiles_for(n),
{
    assert forall|x: int| 0 <= x < n implies #[trigger] (x / (TILE as int)) < tiles_for(n) by {
        assert(x / 16 <= (n + 15) / 16 - 1 || x / 16 < (n + 15) / 16) by (nonlinear_arith)
            requires 0 <= x < n;
    }
}

/// A grid built by [`tile_config`] for a `w` × `h` image (dimensions small
/// enough to be taken as `u32` unchanged) has a thread for every pixel and no
/// block row or column entirely outside the image.
pub proof fn lemma_tile_config_covers_image(w: usize, h: usize, grid_dim: (u32, u32, u32))
    requires
        w + (TILE - 1) <= u32::MAX,
        h + (TILE - 1) <= u32::MAX,
        grid_dim == (tiles_for(w as u32 as int) as u32, tiles_for(h as u32 as int) as u32, 1u32),
    ensures
        grid_dim.0 * TILE >= w,
        grid_dim.1 * TILE >= h,
        w > 0 ==> (grid_dim.0 - 1) * TILE < w,
        h > 0 ==> (grid_dim.1 - 1) * TILE < h,
{
    assert(w as u32 as int == w);
    assert(h as u32 as int == h);
    lemma_tiles_cover(w as int);
    lemma_tiles_cover(h as int);
}

} // verus!
