use vstd::prelude::*;
use vstd::arithmetic::power2::pow2;
use crate::launch_config::LaunchGeometry;
use crate::objective::pow2_u64;

verus! {

/// Threads per block of the prisoner's-dilemma diagonal kernel.
pub const DILEMMA_THREADS: u32 = 256;

/// Qubits of the prisoner's-dilemma model: one per player and one per slack
/// bit of each penalty.
pub open spec fn dilemma_bit_count(num_players: u32, num_pen: u32, num_slack: u32) -> int {
    num_players + num_slack * num_pen
}

/// Length of the diagonal for `bit_count` qubits: `2^bit_count` below 32
/// bits. A bit count of `2^31` or more, read as a signed 32-bit exponent, is
/// negative and gives a power of two below 1, so the length is 0.
pub open spec fn dilemma_len(bit_count: int) -> int {
    if bit_count < 32 {
        pow2(bit_count as nat) as int
    } else {
        0
    }
}

/// The launch geometry for a diagonal of `len` entries.
pub open spec fn spec_dilemma_geometry(len: int) -> LaunchGeometry {
    LaunchGeometry {
        block_dim: (DILEMMA_THREADS, 1, 1),
        grid_dim: (((len + DILEMMA_THREADS - 1) / DILEMMA_THREADS as int) as u32, 1, 1),
        shared_mem_bytes: 0,
    }
}

/// Whether the sizes can be formed without overflow: the bit count fits
/// `u32`, and the diagonal length with one block of threads added does too.
pub open spec fn dilemma_fits(num_players: u32, num_pen: u32, num_slack: u32) -> bool {
    let k = dilemma_bit_count(num_players, num_pen, num_slack);
    &&& num_slack * num_pen <= u32::MAX
    &&& k <= u32::MAX
    &&& (k < 32 || k >= 0x8000_0000)
}

/// Bit count, diagonal length and launch geometry of the kernel that fills
/// the prisoner's-dilemma diagonal: one thread per entry, 256 per block.
pub fn dilemma_launch(num_players: u32, num_pen: u32, num_slack: u32) -> (r: (u32, u32, LaunchGeometry))
    requires
        dilemma_fits(num_players, num_pen, num_slack),
    ensures
        r.0 == dilemma_bit_count(num_players, num_pen, num_slack),
        r.1 == dilemma_len(r.0 as int),
        r.2 == spec_dilemma_geometry(r.1 as int),
{
    let bit_count = num_players + num_slack * num_pen;
    proof {
        vstd::arithmetic::power2::lemma2_to64();
        if bit_count < 31 {
            vstd::arithmetic::power2::lemma_pow2_strictly_increases(bit_count as nat, 31);
        }
    }
    let n: u32 = if bit_count < 32 {
        pow2_u64(bit_count) as u32
    } else {
        0
    };
    let threads_x = DILEMMA_THREADS;
    let geometry = LaunchGeometry {
        block_dim: (threads_x, 1, 1),
        grid_dim: ((n + threads_x - 1) / threads_x, 1, 1),
        shared_mem_bytes: 0,
    };
    (bit_count, n, geometry)
}

/// The model has one qubit per player and one per slack bit of each
/// penalty; below 32 qubits the diagonal has `2^qubits` entries, and from
/// `2^31` qubits on it has none; the kernel runs 256-thread blocks, the
/// least number of them that gives every entry a thread.
pub proof fn lemma_dilemma_shape(num_players: u32, num_pen: u32, num_slack: u32)
    requires
        dilemma_fits(num_players, num_pen, num_slack),
    ensures
        ({
            let k = dilemma_bit_count(num_players, num_pen, num_slack);
            let len = dilemma_len(k);
            let g = spec_dilemma_geometry(len);
            let b = g.grid_dim.0 as int;
            &&& k == num_players as int + num_pen as int * num_slack as int
            &&& k < 32 ==> len == pow2(k as nat)
            &&& k >= 0x8000_0000 ==> len == 0
            &&& g.block_dim == (256u32, 1u32, 1u32) && g.grid_dim == (g.grid_dim.0, 1u32, 1u32)
            &&& g.shared_mem_bytes == 0
            &&& b * 256 >= len && ((b - 1) * 256 < len || b == 0)
        }),
{
    let k = dilemma_bit_count(num_players, num_pen, num_slack);
    assert(num_slack * num_pen == num_pen * num_slack) by (nonlinear_arith);
    vstd::arithmetic::power2::lemma2_to64();
    if k < 31 {
        vstd::arithmetic::power2::lemma_pow2_strictly_increases(k as nat, 31);
    }
    let len = dilemma_len(k);
    assert(0 <= len <= 0x8000_0000);
    let q = (len + 255) / 256;
    assert(len + 255 == 256 * q + (len + 255) % 256);
    assert(0 <= q <= len + 256);
}

} // verus!
