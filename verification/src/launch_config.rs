use vstd::prelude::*;
use vstd::arithmetic::power2::is_pow2;
use crate::error::AnnealingError;

verus! {

/// How a kernel maps the elements of a vector onto threads.
#[derive(Copy, Clone, Debug, PartialEq, Eq, Structural)]
pub enum KernelLayout {
    /// One thread per element.
    Vector2D,
    /// One warp (32 threads) per element.
    Warp,
}

/// Block and grid dimensions of a kernel launch, with its dynamic shared
/// memory, as the driver takes them.
#[derive(Copy, Clone, Debug, PartialEq, Eq)]
pub struct LaunchGeometry {
    /// (width, height, depth) of the grid, in blocks.
    pub grid_dim: (u32, u32, u32),
    /// (x, y, z) threads of each block.
    pub block_dim: (u32, u32, u32),
    /// Dynamic shared memory per block, in bytes.
    pub shared_mem_bytes: u32,
}

/// The element count as the launch sees it: its low 32 bits.
pub open spec fn low_u32(n: usize) -> int {
    n as int % 0x1_0000_0000
}

/// How many elements one block handles.
pub open spec fn elements_per_block(threads_x: u32, layout: KernelLayout) -> int {
    match layout {
        KernelLayout::Vector2D => threads_x as int,
        KernelLayout::Warp => threads_x as int / 32,
    }
}

/// Whether `threads_x` is acceptable for `layout`.
pub open spec fn launch_accepts(threads_x: u32, layout: KernelLayout) -> bool {
    &&& is_pow2(threads_x as int)
    &&& (layout == KernelLayout::Warp ==> threads_x >= 32)
}

/// Whether computing the block count for `n` elements stays within `u32`
/// (the sum of the element count and the elements per block is formed first).
pub open spec fn block_count_fits(n: usize, threads_x: u32, layout: KernelLayout) -> bool {
    low_u32(n) + elements_per_block(threads_x, layout) <= u32::MAX
}

/// Number of blocks: enough blocks to cover every element.
pub open spec fn block_count(n: usize, threads_x: u32, layout: KernelLayout) -> int {
    (low_u32(n) + elements_per_block(threads_x, layout) - 1) / elements_per_block(threads_x, layout)
}

/// The geometry of an accepted launch.
pub open spec fn spec_launch_geometry(n: usize, threads_x: u32, layout: KernelLayout) -> LaunchGeometry {
    LaunchGeometry {
        grid_dim: (block_count(n, threads_x, layout) as u32, 1, 1),
        block_dim: (threads_x, 1, 1),
        shared_mem_bytes: 0,
    }
}

/// Whether `x` is a power of two.
pub fn is_power_of_two(x: u32) -> (r: bool)
    ensures
        r == is_pow2(x as int),
{
    reveal(is_pow2);
    if x == 0 {
        return false;
    }
    let mut v: u32 = x;
    while v % 2 == 0
        invariant
            v > 0,
            is_pow2(v as int) == is_pow2(x as int),
        decreases v,
    {
        assert(is_pow2(v as int) == is_pow2((v / 2) as int)) by {
            reveal(is_pow2);
        }
        v = v / 2;
    }
    assert(is_pow2(v as int) == (v == 1)) by {
        reveal(is_pow2);
    }
    v == 1
}

/// The launch geometry for a kernel over `n` elements with `threads_x`
/// threads per block. Fails when `threads_x` is not a power of two, or when
/// the warp layout gets fewer than 32 threads per block.
pub fn create_launch_config(n: usize, threads_x: u32, layout: KernelLayout) -> (r: Result<
    LaunchGeometry,
    AnnealingError,
>)
    requires
        launch_accepts(threads_x, layout) ==> block_count_fits(n, threads_x, layout),
    ensures
        !is_pow2(threads_x as int) ==> r == Err::<LaunchGeometry, AnnealingError>(
            AnnealingError::InvalidThreadCount(threads_x),
        ),
        is_pow2(threads_x as int) && layout == KernelLayout::Warp && threads_x < 32 ==> r == Err::<
            LaunchGeometry,
            AnnealingError,
        >(AnnealingError::InvalidThreadCountForWarp(threads_x)),
        launch_accepts(threads_x, layout) ==> r == Ok::<LaunchGeometry, AnnealingError>(
            spec_launch_geometry(n, threads_x, layout),
        ),
{
    if !is_power_of_two(threads_x) {
        return Err(AnnealingError::InvalidThreadCount(threads_x));
    }
    if matches!(layout, KernelLayout::Warp) && threads_x < 32 {
        return Err(AnnealingError::InvalidThreadCountForWarp(threads_x));
    }
    assert(threads_x >= 1) by {
        reveal(is_pow2);
    }
    let warps_per_block = threads_x / 32;
    // the low 32 bits of `n`, which is what `n as u32` keeps
    let low: u32 = (n as u64 % 0x1_0000_0000u64) as u32;
    assert(low == low_u32(n));
    assert(launch_accepts(threads_x, layout));
    let block_n: u32 = match layout {
        KernelLayout::Vector2D => (low + threads_x - 1) / threads_x,
        KernelLayout::Warp => (low + warps_per_block - 1) / warps_per_block,
    };
    let (block_dim, grid_dim) = match layout {
        KernelLayout::Vector2D => ((threads_x, 1, 1), (block_n, 1, 1)),
        KernelLayout::Warp => ((threads_x, 1, 1), (block_n, 1, 1)),
    };
    Ok(LaunchGeometry { block_dim, grid_dim, shared_mem_bytes: 0 })
}

/// An accepted launch covers every element and wastes less than one block:
/// the blocks hold at least the `low_u32(n)` elements, and one block fewer
/// would not.
pub proof fn lemma_launch_covers_elements(n: usize, threads_x: u32, layout: KernelLayout)
    requires
        launch_accepts(threads_x, layout),
    ensures
        elements_per_block(threads_x, layout) >= 1,
        block_count(n, threads_x, layout) * elements_per_block(threads_x, layout) >= low_u32(n),
        (block_count(n, threads_x, layout) - 1) * elements_per_block(threads_x, layout) < low_u32(n)
            || block_count(n, threads_x, layout) == 0,
{
    reveal(is_pow2);
    let d = elements_per_block(threads_x, layout);
    let m = low_u32(n);
    assert(d >= 1);
    let q = (m + d - 1) / d;
    assert(m + d - 1 == d * q + (m + d - 1) % d) by (nonlinear_arith)
        requires
            d >= 1,
            q == (m + d - 1) / d,
    ;
    assert(0 <= (m + d - 1) % d < d) by (nonlinear_arith)
        requires
            d >= 1,
    ;
    assert(q * d == d * q) by (nonlinear_arith);
    assert((q - 1) * d == q * d - d) by (nonlinear_arith);
}

/// An accepted launch has `threads_x` threads per block in one dimension and
/// no shared memory; its one-dimensional grid is the least number of blocks
/// that gives every element (its low 32 bits) a thread (`Vector2D`) or a
/// whole warp of 32 threads (`Warp`).
pub proof fn lemma_launch_geometry(n: usize, threads_x: u32, layout: KernelLayout)
    requires
        launch_accepts(threads_x, layout),
        block_count_fits(n, threads_x, layout),
    ensures
        ({
            let g = spec_launch_geometry(n, threads_x, layout);
            let b = g.grid_dim.0 as int;
            let per_block = if layout == KernelLayout::Warp {
                threads_x as int / 32
            } else {
                threads_x as int
            };
            &&& g.block_dim == (threads_x, 1u32, 1u32)
            &&& g.grid_dim == (g.grid_dim.0, 1u32, 1u32)
            &&& g.shared_mem_bytes == 0
            &&& per_block >= 1
            &&& b * per_block >= low_u32(n)
            &&& (b - 1) * per_block < low_u32(n) || b == 0
        }),
{
    lemma_launch_covers_elements(n, threads_x, layout);
    let d = elements_per_block(threads_x, layout);
    let m = low_u32(n);
    assert(0 <= (m + d - 1) / d <= m + d) by (nonlinear_arith)
        requires
            d >= 1,
            m >= 0,
    ;
}

} // verus!
