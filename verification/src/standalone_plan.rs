use vstd::prelude::*;
use vstd::arithmetic::power2::is_pow2;
use crate::annealer_plan::DOUBLE_BYTES;
use crate::error::AnnealingError;
use crate::launch_config::{self, LaunchGeometry, launch_accepts, low_u32, spec_launch_geometry};
use crate::square_launch::{self, KernelLayout, spec_square_geometry};

verus! {

/// Kernel choice and launch geometries of the stand-alone simulation.
#[derive(Copy, Clone, Debug, PartialEq, Eq)]
pub struct StandaloneLaunches {
    /// Name of the time-development kernel.
    pub develop_time_kernel: &'static str,
    /// Element-wise vector kernels.
    pub cfg_for_vector: LaunchGeometry,
    /// The time-development kernel.
    pub cfg_for_develop_time: LaunchGeometry,
    /// The norm reduction, with one double-precision slot of shared memory
    /// per thread.
    pub cfg_for_norm: LaunchGeometry,
}

/// Whether the stand-alone simulation uses the one-thread-per-element
/// development kernel.
pub open spec fn standalone_per_thread(threads_x: u32) -> bool {
    threads_x < 32
}

/// Name of the development kernel the stand-alone simulation runs.
pub open spec fn spec_standalone_kernel(threads_x: u32) -> Seq<char> {
    if standalone_per_thread(threads_x) {
        "develop_time"@
    } else {
        "develop_time_warp"@
    }
}

/// Vector, development and norm geometries of the stand-alone simulation.
pub open spec fn spec_standalone_geometry(n: usize, threads_x: u32) -> (
    LaunchGeometry,
    LaunchGeometry,
    LaunchGeometry,
) {
    let vector = spec_square_geometry(n, threads_x, KernelLayout::Vector2D);
    (
        vector,
        if standalone_per_thread(threads_x) {
            vector
        } else {
            spec_launch_geometry(n, threads_x, launch_config::KernelLayout::Warp)
        },
        LaunchGeometry { shared_mem_bytes: (threads_x * DOUBLE_BYTES) as u32, ..vector },
    )
}

/// Whether the plan can be computed without a division by zero or an
/// overflow.
pub open spec fn standalone_fits(n: usize, threads_x: u32) -> bool {
    &&& threads_x > 0
    &&& low_u32(n) + threads_x <= u32::MAX
    &&& (standalone_per_thread(threads_x) || launch_accepts(threads_x, launch_config::KernelLayout::Warp))
        ==> threads_x * DOUBLE_BYTES <= u32::MAX
}

/// Plans the stand-alone simulation over `n` amplitudes: below 32 threads
/// per block the development kernel works one thread per amplitude,
/// otherwise one warp per amplitude; vector and norm kernels work one thread
/// per amplitude. Fails as `create_launch_config` does when the warp layout
/// refuses `threads_x`.
pub fn plan_standalone(n: usize, threads_x: u32) -> (r: Result<StandaloneLaunches, AnnealingError>)
    requires
        standalone_fits(n, threads_x),
    ensures
        !standalone_per_thread(threads_x) && !is_pow2(threads_x as int) ==> r == Err::<
            StandaloneLaunches,
            AnnealingError,
        >(AnnealingError::InvalidThreadCount(threads_x)),
        standalone_per_thread(threads_x) || is_pow2(threads_x as int) ==> (r matches Ok(p) && {
            &&& p.develop_time_kernel@ == spec_standalone_kernel(threads_x)
            &&& (p.cfg_for_vector, p.cfg_for_develop_time, p.cfg_for_norm) == spec_standalone_geometry(
                n,
                threads_x,
            )
        }),
{
    let per_thread = threads_x < 32;
    let develop_time_kernel = if per_thread {
        "develop_time"
    } else {
        "develop_time_warp"
    };
    let cfg_for_vector = square_launch::create_launch_config(n, threads_x, KernelLayout::Vector2D);
    let cfg_for_develop_time = if per_thread {
        square_launch::create_launch_config(n, threads_x, KernelLayout::Vector2D)
    } else {
        match launch_config::create_launch_config(n, threads_x, launch_config::KernelLayout::Warp) {
            Ok(g) => g,
            Err(e) => return Err(e),
        }
    };
    let mut cfg_for_norm = square_launch::create_launch_config(n, threads_x, KernelLayout::Vector2D);
    cfg_for_norm.shared_mem_bytes = threads_x * DOUBLE_BYTES;
    Ok(StandaloneLaunches { develop_time_kernel, cfg_for_vector, cfg_for_develop_time, cfg_for_norm })
}

/// The stand-alone plan: the plain `develop_time` kernel exactly below 32
/// threads per block; vector and norm kernels give each amplitude a thread,
/// with the least number of `threads_x`-thread blocks; the development
/// kernel does the same below 32 threads and otherwise gives each amplitude
/// a warp; the norm kernel alone gets shared memory, one double (8 bytes)
/// per thread of its block.
pub proof fn lemma_standalone_shape(n: usize, threads_x: u32)
    requires
        standalone_fits(n, threads_x),
        standalone_per_thread(threads_x) || is_pow2(threads_x as int),
    ensures
        ({
            let (v, d, m) = spec_standalone_geometry(n, threads_x);
            let t = threads_x as int;
            let bv = v.grid_dim.0 as int;
            let bd = d.grid_dim.0 as int;
            &&& spec_standalone_kernel(threads_x) == (if threads_x < 32 {
                "develop_time"@
            } else {
                "develop_time_warp"@
            })
            &&& v.block_dim == (threads_x, 1u32, 1u32) && v.grid_dim == (v.grid_dim.0, 1u32, 1u32)
            &&& v.shared_mem_bytes == 0
            &&& bv * t >= low_u32(n) && ((bv - 1) * t < low_u32(n) || bv == 0)
            &&& m.shared_mem_bytes == m.block_dim.0 * 8
            &&& m.block_dim == v.block_dim && m.grid_dim == v.grid_dim
            &&& d.block_dim == (threads_x, 1u32, 1u32) && d.grid_dim == (d.grid_dim.0, 1u32, 1u32)
            &&& d.shared_mem_bytes == 0
            &&& threads_x < 32 ==> d == v
            &&& threads_x >= 32 ==> bd * (t / 32) >= low_u32(n) && ((bd - 1) * (t / 32) < low_u32(n)
                || bd == 0)
        }),
{
    crate::square_launch::lemma_square_geometry(n, threads_x);
    if threads_x >= 32 {
        assert(launch_accepts(threads_x, launch_config::KernelLayout::Warp));
        launch_config::lemma_launch_geometry(n, threads_x, launch_config::KernelLayout::Warp);
    }
}

} // verus!
