use vstd::prelude::*;
use vstd::arithmetic::power2::pow2;

verus! {

/// Whether bit `k` of `x` is set.
pub open spec fn bit_set(x: u32, k: nat) -> bool {
    (x as nat / pow2(k)) % 2 == 1
}

/// The spin (+1 or -1) of variable `i` under assignment `idx`; variable `i`
/// of `len` is bit `len - 1 - i` of `idx`, so the first variable is the most
/// significant bit.
pub open spec fn spin(len: int, idx: u32, i: int) -> int {
    if bit_set(idx, (len - 1 - i) as nat) {
        1
    } else {
        -1
    }
}

/// The coupling of variables `i` and `j`: `s_i s_j n_i n_j`.
pub open spec fn coupling(nums: Seq<i32>, idx: u32, i: int, j: int) -> int {
    spin(nums.len() as int, idx, i) * spin(nums.len() as int, idx, j) * nums[i] * nums[j]
}

/// `coupling(i, j)` summed over `i < j < j_end`.
pub open spec fn row_energy(nums: Seq<i32>, idx: u32, i: int, j_end: int) -> int
    decreases j_end - i,
{
    if j_end <= i + 1 {
        0
    } else {
        row_energy(nums, idx, i, j_end - 1) + coupling(nums, idx, i, j_end - 1)
    }
}

/// The rows `0 .. i_end` of the energy.
pub open spec fn partial_energy(nums: Seq<i32>, idx: u32, i_end: int) -> int
    decreases i_end,
{
    if i_end <= 0 {
        0
    } else {
        partial_energy(nums, idx, i_end - 1) + row_energy(nums, idx, i_end - 1, nums.len() as int)
    }
}

/// The number-partitioning energy of assignment `idx`: the sum of
/// `s_i s_j n_i n_j` over all pairs `i < j`.
pub open spec fn partition_energy(nums: Seq<i32>, idx: u32) -> int {
    partial_energy(nums, idx, nums.len() as int)
}

/// Whether every product `n_i n_j`, and every signed coupling, of assignment
/// `idx` is a 32-bit value, as the computation forms them.
pub open spec fn couplings_fit(nums: Seq<i32>, idx: u32) -> bool {
    forall|i: int, j: int|
        0 <= i < j < nums.len() ==> {
            &&& i32::MIN <= #[trigger] (nums[i] * nums[j]) <= i32::MAX
            &&& i32::MIN <= coupling(nums, idx, i, j) <= i32::MAX
        }
}

/// The side (+1 or -1) that number `i` of `len` is put on by assignment
/// `idx`: +1 when bit `len - 1 - i` of `idx` is set.
pub open spec fn side(len: int, idx: u32, i: int) -> int {
    if (idx as nat / pow2((len - 1 - i) as nat)) % 2 == 1 {
        1
    } else {
        -1
    }
}

/// The signed sum of the first `k` numbers, each with its side.
pub open spec fn signed_sum(nums: Seq<i32>, idx: u32, k: int) -> int
    decreases k,
{
    if k <= 0 {
        0
    } else {
        signed_sum(nums, idx, k - 1) + side(nums.len() as int, idx, k - 1) * nums[k - 1]
    }
}

/// The sum of the squares of the first `k` numbers.
pub open spec fn square_sum(nums: Seq<i32>, k: int) -> int
    decreases k,
{
    if k <= 0 {
        0
    } else {
        square_sum(nums, k - 1) + nums[k - 1] * nums[k - 1]
    }
}

proof fn lemma_row_energy_closed(nums: Seq<i32>, idx: u32, i: int, j_end: int)
    requires
        0 <= i,
        i + 1 <= j_end <= nums.len(),
    ensures
        row_energy(nums, idx, i, j_end) == side(nums.len() as int, idx, i) * nums[i] * (signed_sum(
            nums,
            idx,
            j_end,
        ) - signed_sum(nums, idx, i + 1)),
    decreases j_end - i,
{
    let len = nums.len() as int;
    let ai = side(len, idx, i) * nums[i];
    if j_end > i + 1 {
        lemma_row_energy_closed(nums, idx, i, j_end - 1);
        let j = j_end - 1;
        let aj = side(len, idx, j) * nums[j];
        assert(coupling(nums, idx, i, j) == ai * aj) by (nonlinear_arith)
            requires
                coupling(nums, idx, i, j) == spin(len, idx, i) * spin(len, idx, j) * nums[i] * nums[j],
                spin(len, idx, i) == side(len, idx, i),
                spin(len, idx, j) == side(len, idx, j),
                ai == side(len, idx, i) * nums[i],
                aj == side(len, idx, j) * nums[j],
        ;
        let a = signed_sum(nums, idx, j);
        let c = signed_sum(nums, idx, i + 1);
        assert(ai * (a - c) + ai * aj == ai * (a + aj - c)) by (nonlinear_arith);
        assert(signed_sum(nums, idx, j_end) == a + aj);
        assert(row_energy(nums, idx, i, j_end) == row_energy(nums, idx, i, j) + coupling(nums, idx, i, j));
        assert(side(len, idx, i) * nums[i] * (signed_sum(nums, idx, j_end) - c) == ai * (a + aj - c));
    } else {
        let c = signed_sum(nums, idx, i + 1);
        assert(ai * (c - c) == 0) by (nonlinear_arith);
    }
}

proof fn lemma_partial_energy_closed(nums: Seq<i32>, idx: u32, k: int)
    requires
        0 <= k <= nums.len(),
    ensures
        2 * partial_energy(nums, idx, k) == 2 * signed_sum(nums, idx, k) * signed_sum(
            nums,
            idx,
            nums.len() as int,
        ) - signed_sum(nums, idx, k) * signed_sum(nums, idx, k) - square_sum(nums, k),
    decreases k,
{
    if k > 0 {
        let len = nums.len() as int;
        lemma_partial_energy_closed(nums, idx, k - 1);
        lemma_row_energy_closed(nums, idx, k - 1, len);
        let sd = side(len, idx, k - 1);
        let n = nums[k - 1] as int;
        let a = sd * n;
        let sp = signed_sum(nums, idx, k - 1);
        let sl = signed_sum(nums, idx, len);
        let q = square_sum(nums, k - 1);
        let p = partial_energy(nums, idx, k - 1);
        assert(a * a == n * n) by (nonlinear_arith)
            requires
                a == sd * n,
                sd == 1 || sd == -1,
        ;
        assert(2 * (p + a * (sl - (sp + a))) == 2 * (sp + a) * sl - (sp + a) * (sp + a) - (q + n * n))
            by (nonlinear_arith)
            requires
                2 * p == 2 * sp * sl - sp * sp - q,
                a * a == n * n,
        ;
        assert(signed_sum(nums, idx, k) == sp + a);
        assert(square_sum(nums, k) == q + n * n);
        assert(partial_energy(nums, idx, k) == p + row_energy(nums, idx, k - 1, len));
        assert(row_energy(nums, idx, k - 1, len) == a * (sl - (sp + a)));
    } else {
        let sl = signed_sum(nums, idx, nums.len() as int);
        assert(2 * 0 * sl - 0 * 0 - 0 == 0) by (nonlinear_arith);
    }
}

/// The energy in closed form: twice the energy is the square of the signed
/// sum of the numbers (each with its side) minus the sum of their squares,
/// so it is least when the two sides balance.
pub proof fn lemma_energy_closed_form(nums: Seq<i32>, idx: u32)
    ensures
        2 * partition_energy(nums, idx) == signed_sum(nums, idx, nums.len() as int) * signed_sum(
            nums,
            idx,
            nums.len() as int,
        ) - square_sum(nums, nums.len() as int),
{
    lemma_partial_energy_closed(nums, idx, nums.len() as int);
    let x = signed_sum(nums, idx, nums.len() as int);
    assert(2 * x * x - x * x == x * x) by (nonlinear_arith);
}

/// Complementing every bit complements bit `k`.
proof fn lemma_bit_of_complement(x: u32, k: u32)
    requires
        k < 32,
    ensures
        bit_set(!x, k as nat) == !bit_set(x, k as nat),
{
    vstd::bits::lemma_u32_shr_is_div(x, k);
    vstd::bits::lemma_u32_shr_is_div(!x, k);
    assert(((!x) >> k) % 2 == 1 - (x >> k) % 2) by (bit_vector)
        requires
            k < 32,
    ;
}

/// Flipping every spin leaves each coupling unchanged.
proof fn lemma_coupling_flip(nums: Seq<i32>, idx: u32, i: int, j: int)
    requires
        nums.len() <= 32,
        0 <= i < j < nums.len(),
    ensures
        coupling(nums, !idx, i, j) == coupling(nums, idx, i, j),
{
    let len = nums.len() as int;
    lemma_bit_of_complement(idx, (len - 1 - i) as u32);
    lemma_bit_of_complement(idx, (len - 1 - j) as u32);
    let si = spin(len, idx, i);
    let sj = spin(len, idx, j);
    assert(spin(len, !idx, i) == -si);
    assert(spin(len, !idx, j) == -sj);
    let ni = nums[i] as int;
    let nj = nums[j] as int;
    assert((-si) * (-sj) * ni * nj == si * sj * ni * nj) by (nonlinear_arith);
}

proof fn lemma_row_energy_flip(nums: Seq<i32>, idx: u32, i: int, j_end: int)
    requires
        nums.len() <= 32,
        0 <= i,
        j_end <= nums.len(),
    ensures
        row_energy(nums, !idx, i, j_end) == row_energy(nums, idx, i, j_end),
    decreases j_end - i,
{
    if j_end > i + 1 {
        lemma_row_energy_flip(nums, idx, i, j_end - 1);
        lemma_coupling_flip(nums, idx, i, j_end - 1);
    }
}

proof fn lemma_partial_energy_flip(nums: Seq<i32>, idx: u32, i_end: int)
    requires
        nums.len() <= 32,
        i_end <= nums.len(),
    ensures
        partial_energy(nums, !idx, i_end) == partial_energy(nums, idx, i_end),
    decreases i_end,
{
    if i_end > 0 {
        lemma_partial_energy_flip(nums, idx, i_end - 1);
        lemma_row_energy_flip(nums, idx, i_end - 1, nums.len() as int);
    }
}

/// The energy only depends on which numbers share a side: flipping every
/// spin (complementing the assignment) leaves it unchanged.
pub proof fn lemma_energy_spin_flip(nums: Seq<i32>, idx: u32)
    requires
        nums.len() <= 32,
    ensures
        partition_energy(nums, !idx) == partition_energy(nums, idx),
{
    lemma_partial_energy_flip(nums, idx, nums.len() as int);
}

/// Bit `k` of `x` as a number.
fn bit(x: u32, k: u32) -> (r: i32)
    requires
        k < 32,
    ensures
        r == (if bit_set(x, k as nat) {
            1int
        } else {
            0int
        }),
{
    proof {
        vstd::bits::lemma_u32_shr_is_div(x, k);
    }
    let s = x >> k;
    assert(s & 1 == s % 2) by (bit_vector);
    (s & 1) as i32
}

/// The objective of number partitioning for `nums` at assignment `idx`
/// (its low 32 bits): `sum over i < j of s_i s_j n_i n_j`, with spin
/// `s_i = 2 b_i - 1` from bit `b_i`.
pub fn objective_function(nums: &[i32], idx: usize) -> (r: i64)
    requires
        nums@.len() <= 32,
        couplings_fit(nums@, idx as u32),
    ensures
        r == partition_energy(nums@, idx as u32),
{
    let len = nums.len();
    let d = idx as u32;
    let ghost s = nums@;
    let mut result: i64 = 0;
    let mut i: usize = 0;
    while i < len
        invariant
            len == s.len(),
            s == nums@,
            len <= 32,
            d == idx as u32,
            couplings_fit(s, d),
            0 <= i <= len,
            result == partial_energy(s, d, i as int),
            -(i as int * 32) * 0x8000_0000 <= result <= (i as int * 32) * 0x8000_0000,
        decreases len - i,
    {
        let mut j: usize = i + 1;
        while j < len
            invariant
                len == s.len(),
                s == nums@,
                len <= 32,
                d == idx as u32,
                couplings_fit(s, d),
                0 <= i < len,
                i + 1 <= j <= len,
                result == partial_energy(s, d, i as int) + row_energy(s, d, i as int, j as int),
                -(i as int * 32 + j) * 0x8000_0000 <= result <= (i as int * 32 + j) * 0x8000_0000,
            decreases len - j,
        {
            let bi = bit(d, (len - 1 - i) as u32);
            let bj = bit(d, (len - 1 - j) as u32);
            let a: i32 = 2 * bi - 1;
            let b: i32 = 2 * bj - 1;
            assert(a == spin(len as int, d, i as int));
            assert(b == spin(len as int, d, j as int));
            let p = nums[i] * nums[j];
            assert(a * b * p == coupling(s, d, i as int, j as int)) by (nonlinear_arith)
                requires
                    p == s[i as int] * s[j as int],
                    a == spin(len as int, d, i as int),
                    b == spin(len as int, d, j as int),
                    len == s.len(),
            ;
            let term: i32 = a * b * p;
            result = result + term as i64;
            j = j + 1;
        }
        i = i + 1;
    }
    result
}

/// `2^k` for `k` up to 63.
pub(crate) fn pow2_u64(k: u32) -> (r: u64)
    requires
        k < 64,
    ensures
        r == pow2(k as nat),
{
    proof {
        vstd::arithmetic::power2::lemma2_to64();
    }
    let mut r: u64 = 1;
    let mut e: u32 = 0;
    while e < k
        invariant
            e <= k < 64,
            r == pow2(e as nat),
        decreases k - e,
    {
        proof {
            vstd::arithmetic::power2::lemma2_to64_rest();
            vstd::arithmetic::power2::lemma_pow2_unfold((e + 1) as nat);
            if e + 1 < 63 {
                vstd::arithmetic::power2::lemma_pow2_strictly_increases((e + 1) as nat, 63);
            }
        }
        r = r * 2;
        e = e + 1;
    }
    r
}

/// The diagonal of the problem Hamiltonian of number partitioning: entry
/// `idx` is the objective of assignment `idx`, for all `2^len` assignments.
pub fn build_diagonal(nums: &[i32]) -> (r: Vec<i64>)
    requires
        nums@.len() <= 32,
        pow2(nums@.len()) <= usize::MAX,
        forall|idx: u32| (idx as nat) < pow2(nums@.len()) ==> #[trigger] couplings_fit(nums@, idx),
    ensures
        r@.len() == pow2(nums@.len()),
        forall|k: int| 0 <= k < r@.len() ==> r@[k] == partition_energy(nums@, k as u32),
{
    let n = pow2_u64(nums.len() as u32) as usize;
    let mut diag: Vec<i64> = Vec::new();
    let mut idx: usize = 0;
    proof {
        vstd::arithmetic::power2::lemma2_to64();
        if nums@.len() < 32 {
            vstd::arithmetic::power2::lemma_pow2_strictly_increases(nums@.len(), 32);
        }
    }
    while idx < n
        invariant
            n == pow2(nums@.len()),
            n <= 0x1_0000_0000,
            nums@.len() <= 32,
            forall|x: u32| (x as nat) < pow2(nums@.len()) ==> #[trigger] couplings_fit(nums@, x),
            idx <= n,
            diag@.len() == idx,
            forall|k: int| 0 <= k < idx ==> diag@[k] == partition_energy(nums@, k as u32),
        decreases n - idx,
    {
        assert(couplings_fit(nums@, idx as u32));
        let e = objective_function(nums, idx);
        diag.push(e);
        idx = idx + 1;
    }
    diag
}

} // verus!
