use vstd::prelude::*;
use crate::launch_config::{LaunchGeometry, low_u32};

verus! {

/// How a kernel maps its data onto threads: a vector, or a square matrix
/// with a square of threads per block.
#[derive(Copy, Clone, Debug, PartialEq, Eq, Structural)]
pub enum KernelLayout {
    Vector2D,
    Matrix2D,
}

/// Blocks needed along one dimension of `n` elements.
pub open spec fn square_block_count(n: usize, threads_x: u32) -> int {
    (low_u32(n) + threads_x - 1) / threads_x as int
}

/// The geometry `create_launch_config` gives.
pub open spec fn spec_square_geometry(n: usize, threads_x: u32, layout: KernelLayout) -> LaunchGeometry {
    let b = square_block_count(n, threads_x) as u32;
    match layout {
        KernelLayout::Vector2D => LaunchGeometry {
            grid_dim: (b, 1, 1),
            block_dim: (threads_x, 1, 1),
            shared_mem_bytes: 0,
        },
        KernelLayout::Matrix2D => LaunchGeometry {
            grid_dim: (b, b, 1),
            block_dim: (threads_x, threads_x, 1),
            shared_mem_bytes: 0,
        },
    }
}

/// The launch geometry for `n` elements per dimension with `threads_x`
/// threads along each dimension of a block.
pub fn create_launch_config(n: usize, threads_x: u32, layout: KernelLayout) -> (r: LaunchGeometry)
    requires
        threads_x > 0,
        low_u32(n) + threads_x <= u32::MAX,
    ensures
        r == spec_square_geometry(n, threads_x, layout),
{
    // the low 32 bits of `n`, which is what `n as u32` keeps
    let low: u32 = (n as u64 % 0x1_0000_0000u64) as u32;
    let block_n = (low + threads_x - 1) / threads_x;
    let (block_dim, grid_dim) = match layout {
        KernelLayout::Vector2D => ((threads_x, 1, 1), (block_n, 1, 1)),
        KernelLayout::Matrix2D => ((threads_x, threads_x, 1), (block_n, block_n, 1)),
    };
    LaunchGeometry { block_dim, grid_dim, shared_mem_bytes: 0 }
}

/// Along every used grid dimension, the block count is the least `b` with
/// `b * threads_x` at least the element count (its low 32 bits); blocks have
/// `threads_x` threads along each used dimension; the matrix grid uses the
/// vector grid's count along both dimensions; no shared memory is asked for.
pub proof fn lemma_square_geometry(n: usize, threads_x: u32)
    requires
        threads_x > 0,
        low_u32(n) + threads_x <= u32::MAX,
    ensures
        ({
            let v = spec_square_geometry(n, threads_x, KernelLayout::Vector2D);
            let m = spec_square_geometry(n, threads_x, KernelLayout::Matrix2D);
            let b = v.grid_dim.0 as int;
            let t = threads_x as int;
            &&& b * t >= low_u32(n)
            &&& (b - 1) * t < low_u32(n) || b == 0
            &&& v.grid_dim == (v.grid_dim.0, 1u32, 1u32)
            &&& v.block_dim == (threads_x, 1u32, 1u32)
            &&& m.grid_dim == (v.grid_dim.0, v.grid_dim.0, 1u32)
            &&& m.block_dim == (threads_x, threads_x, 1u32)
            &&& v.shared_mem_bytes == 0 && m.shared_mem_bytes == 0
        }),
{
    let t = threads_x as int;
    let m = low_u32(n);
    let q = (m + t - 1) / t;
    assert(0 <= q <= m + t) by (nonlinear_arith)
        requires
            t >= 1,
            m >= 0,
            q == (m + t - 1) / t,
    ;
    assert(m + t - 1 == t * q + (m + t - 1) % t) by (nonlinear_arith)
        requires
            t >= 1,
            q == (m + t - 1) / t,
    ;
    assert(0 <= (m + t - 1) % t < t) by (nonlinear_arith)
        requires
            t >= 1,
    ;
    assert(q * t == t * q) by (nonlinear_arith);
    assert((q - 1) * t == q * t - t) by (nonlinear_arith);
}

} // verus!
