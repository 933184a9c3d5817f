use vstd::prelude::*;
use vstd::arithmetic::power2::{is_pow2, pow2};
use crate::config::{KernelConfig, spec_use_warp, use_warp};
use crate::error::AnnealingError;
use crate::launch_config::{
    KernelLayout,
    LaunchGeometry,
    block_count_fits,
    create_launch_config,
    spec_launch_geometry,
};

verus! {

/// The whole-number base-2 logarithm of `n`, with 0 for 0.
pub open spec fn floor_log2(n: nat) -> nat
    decreases n,
{
    if n <= 1 {
        0
    } else {
        1 + floor_log2(n / 2)
    }
}

/// The number of qubits of a state vector of `n` amplitudes: the largest
/// `k` with `2^k <= n` (0 for an empty vector).
pub fn bit_count(n: u32) -> (r: u32)
    ensures
        r == floor_log2(n as nat),
{
    proof {
        lemma_floor_log2_of_u32(n);
    }
    let mut v: u32 = n;
    let mut r: u32 = 0;
    while v > 1
        invariant
            r + floor_log2(v as nat) == floor_log2(n as nat),
            floor_log2(n as nat) < 32,
        decreases v,
    {
        assert(floor_log2(v as nat) == 1 + floor_log2((v / 2) as nat));
        v = v / 2;
        r = r + 1;
    }
    r
}

/// `floor_log2` is the exponent of the largest power of two that fits.
pub proof fn lemma_floor_log2_brackets(n: nat)
    requires
        n >= 1,
    ensures
        pow2(floor_log2(n)) <= n < pow2(floor_log2(n) + 1),
    decreases n,
{
    vstd::arithmetic::power2::lemma_pow2_unfold(floor_log2(n) + 1);
    if n > 1 {
        lemma_floor_log2_brackets(n / 2);
        vstd::arithmetic::power2::lemma_pow2_unfold(floor_log2(n));
    } else {
        vstd::arithmetic::power2::lemma2_to64();
    }
}

/// A 32-bit value has fewer than 32 binary digits after the leading one.
proof fn lemma_floor_log2_of_u32(n: u32)
    ensures
        floor_log2(n as nat) < 32,
{
    if n >= 1 {
        lemma_floor_log2_brackets(n as nat);
        vstd::arithmetic::power2::lemma2_to64();
        let e = floor_log2(n as nat);
        if e > 32 {
            vstd::arithmetic::power2::lemma_pow2_strictly_increases(32, e);
        }
    }
}

/// The name of the first-order time-development kernel the configuration
/// selects.
pub open spec fn spec_develop_time_kernel(config: KernelConfig) -> Seq<char> {
    if spec_use_warp(config) {
        "develop_time"@
    } else {
        "develop_time_warp"@
    }
}

/// Picks the first-order time-development kernel by name.
pub fn develop_time_kernel(config: &KernelConfig) -> (r: &'static str)
    ensures
        r@ == spec_develop_time_kernel(*config),
{
    if use_warp(config) {
        "develop_time"
    } else {
        "develop_time_warp"
    }
}

/// Launch geometries of the annealer's kernels.
#[derive(Copy, Clone, Debug, PartialEq, Eq)]
pub struct AnnealerLaunches {
    /// Element-wise vector kernels.
    pub cfg_for_vec: LaunchGeometry,
    /// The time-development kernels.
    pub cfg_for_develop_time: LaunchGeometry,
    /// The norm reduction, with one double-precision slot of shared memory
    /// per thread.
    pub cfg_for_norm: LaunchGeometry,
}

/// Bytes of one double-precision value.
pub const DOUBLE_BYTES: u32 = 8;

/// Whether `threads_x` threads per block serve both layouts.
pub open spec fn threads_accepted(threads_x: u32) -> bool {
    is_pow2(threads_x as int) && threads_x >= 32
}

/// Whether planning the launches for `n` amplitudes stays within `u32`:
/// the vector geometry is computed for any power of two, the warp geometry
/// and the shared memory only once both layouts accept `threads_x`.
pub open spec fn launches_fit(n: u32, threads_x: u32) -> bool {
    &&& is_pow2(threads_x as int) ==> block_count_fits(n as usize, threads_x, KernelLayout::Vector2D)
    &&& threads_accepted(threads_x) ==> block_count_fits(n as usize, threads_x, KernelLayout::Warp)
    &&& threads_accepted(threads_x) ==> threads_x * DOUBLE_BYTES <= u32::MAX
}

/// The launches planned for `n` amplitudes.
pub open spec fn spec_launches(n: u32, threads_x: u32) -> AnnealerLaunches {
    let warp = spec_launch_geometry(n as usize, threads_x, KernelLayout::Warp);
    AnnealerLaunches {
        cfg_for_vec: spec_launch_geometry(n as usize, threads_x, KernelLayout::Vector2D),
        cfg_for_develop_time: warp,
        cfg_for_norm: LaunchGeometry { shared_mem_bytes: (threads_x * DOUBLE_BYTES) as u32, ..warp },
    }
}

/// Plans the launches of the annealer's kernels over `n` amplitudes with
/// `threads_x` threads per block: vector kernels one thread per amplitude,
/// time development and norm one warp per amplitude.
pub fn plan_launches(n: u32, threads_x: u32) -> (r: Result<AnnealerLaunches, AnnealingError>)
    requires
        launches_fit(n, threads_x),
    ensures
        !is_pow2(threads_x as int) ==> r == Err::<AnnealerLaunches, AnnealingError>(
            AnnealingError::InvalidThreadCount(threads_x),
        ),
        is_pow2(threads_x as int) && threads_x < 32 ==> r == Err::<AnnealerLaunches, AnnealingError>(
            AnnealingError::InvalidThreadCountForWarp(threads_x),
        ),
        threads_accepted(threads_x) ==> r == Ok::<AnnealerLaunches, AnnealingError>(
            spec_launches(n, threads_x),
        ),
{
    assert(crate::launch_config::low_u32(n as usize) == n);
    let cfg_for_vec = match create_launch_config(n as usize, threads_x, KernelLayout::Vector2D) {
        Ok(c) => c,
        Err(e) => return Err(e),
    };
    let cfg_for_develop_time = match create_launch_config(
        n as usize,
        threads_x,
        KernelLayout::Warp,
    ) {
        Ok(c) => c,
        Err(e) => return Err(e),
    };
    let mut cfg_for_norm = match create_launch_config(n as usize, threads_x, KernelLayout::Warp) {
        Ok(c) => c,
        Err(e) => return Err(e),
    };
    cfg_for_norm.shared_mem_bytes = threads_x * DOUBLE_BYTES;
    Ok(AnnealerLaunches { cfg_for_vec, cfg_for_develop_time, cfg_for_norm })
}

/// The first-order kernel is the plain `develop_time` exactly when the
/// configuration takes the warp branch: always for `DevelopTimeWarp` and
/// `QuadraticDevelopTimeWarp`, never for `DevelopTime`, and below 32 threads
/// per block for `Default`; otherwise it is `develop_time_warp`.
pub proof fn lemma_develop_time_kernel_by_method(config: KernelConfig)
    ensures
        spec_develop_time_kernel(config) == "develop_time"@ || spec_develop_time_kernel(config)
            == "develop_time_warp"@,
        config.develop_time_method == crate::config::DevelopTimeMethod::DevelopTimeWarp
            ==> spec_develop_time_kernel(config) == "develop_time"@,
        config.develop_time_method == crate::config::DevelopTimeMethod::QuadraticDevelopTimeWarp
            ==> spec_develop_time_kernel(config) == "develop_time"@,
        config.develop_time_method == crate::config::DevelopTimeMethod::DevelopTime
            ==> spec_develop_time_kernel(config) == "develop_time_warp"@,
        config.develop_time_method == crate::config::DevelopTimeMethod::Default
            ==> spec_develop_time_kernel(config) == (if config.threads_x < 32 {
            "develop_time"@
        } else {
            "develop_time_warp"@
        }),
{
}

/// A successful plan gives the norm reduction one double (8 bytes) of shared
/// memory per thread of its block, whatever the number of amplitudes; the
/// norm kernel runs on the development kernel's grid and blocks; the other
/// kernels get no shared memory; blocks have `threads_x` threads; the vector
/// grid gives each amplitude a thread and the development grid gives each
/// amplitude a warp, with less than one block to spare.
pub proof fn lemma_plan_shape(n: u32, threads_x: u32)
    requires
        threads_accepted(threads_x),
        launches_fit(n, threads_x),
    ensures
        ({
            let l = spec_launches(n, threads_x);
            let bv = l.cfg_for_vec.grid_dim.0 as int;
            let bd = l.cfg_for_develop_time.grid_dim.0 as int;
            let t = threads_x as int;
            &&& l.cfg_for_norm.shared_mem_bytes == l.cfg_for_norm.block_dim.0 * 8
            &&& l.cfg_for_norm.block_dim == (threads_x, 1u32, 1u32)
            &&& l.cfg_for_norm.grid_dim == l.cfg_for_develop_time.grid_dim
            &&& l.cfg_for_vec.block_dim == (threads_x, 1u32, 1u32)
            &&& l.cfg_for_develop_time.block_dim == (threads_x, 1u32, 1u32)
            &&& l.cfg_for_vec.shared_mem_bytes == 0
            &&& l.cfg_for_develop_time.shared_mem_bytes == 0
            &&& l.cfg_for_vec.grid_dim.1 == 1 && l.cfg_for_vec.grid_dim.2 == 1
            &&& l.cfg_for_develop_time.grid_dim.1 == 1 && l.cfg_for_develop_time.grid_dim.2 == 1
            &&& bv * t >= n && ((bv - 1) * t < n || bv == 0)
            &&& bd * (t / 32) >= n && ((bd - 1) * (t / 32) < n || bd == 0)
        }),
{
    assert(crate::launch_config::low_u32(n as usize) == n);
    assert(is_pow2(threads_x as int));
    crate::launch_config::lemma_launch_geometry(n as usize, threads_x, KernelLayout::Vector2D);
    crate::launch_config::lemma_launch_geometry(n as usize, threads_x, KernelLayout::Warp);
}

} // verus!
