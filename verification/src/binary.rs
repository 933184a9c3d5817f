use vstd::prelude::*;
use vstd::arithmetic::power2::pow2;
use vstd::bytes::{spec_u64_from_le_bytes, spec_u64_to_le_bytes, spec_u64_to_le_bytes_open};

verus! {

/// The number whose little-endian base-256 digits are `s`.
pub open spec fn le_value(s: Seq<u8>) -> nat
    decreases s.len(),
{
    if s.len() == 0 {
        0
    } else {
        s[0] as nat + 256 * le_value(s.drop_first())
    }
}

/// The `k`-th 8-byte little-endian word of `bytes`.
pub open spec fn word_at(bytes: Seq<u8>, k: int) -> nat {
    le_value(bytes.subrange(8 * k, 8 * k + 8))
}

/// A number of `m` base-256 digits is below `2^(8m)`.
pub proof fn lemma_le_value_bound(s: Seq<u8>)
    ensures
        le_value(s) < pow2(8 * s.len()),
    decreases s.len(),
{
    if s.len() == 0 {
        vstd::arithmetic::power2::lemma2_to64();
    } else {
        lemma_le_value_bound(s.drop_first());
        let m = s.drop_first().len();
        vstd::arithmetic::power2::lemma_pow2_adds(8, 8 * m);
        vstd::arithmetic::power2::lemma2_to64();
        assert(8 * s.len() == 8 + 8 * m);
        assert(le_value(s) < pow2(8 * s.len())) by (nonlinear_arith)
            requires
                le_value(s) == s[0] as nat + 256 * le_value(s.drop_first()),
                le_value(s.drop_first()) < pow2(8 * m),
                s[0] < 256,
                pow2(8 * s.len()) == 256 * pow2(8 * m),
        ;
    }
}

/// The 8-byte little-endian word of `bytes` that starts at `start`.
fn read_le_word(bytes: &[u8], start: usize) -> (w: u64)
    requires
        start + 8 <= bytes@.len(),
    ensures
        w == le_value(bytes@.subrange(start as int, start + 8)),
{
    let mut w: u64 = 0;
    let mut b: usize = 8;
    while b > 0
        invariant
            start + 8 <= bytes.len(),
            b <= 8,
            w == le_value(bytes@.subrange(start + b, start + 8)),
        decreases b,
    {
        let ghost tail = bytes@.subrange(start + b, start + 8);
        let ghost longer = bytes@.subrange(start + b - 1, start + 8);
        assert(longer.drop_first() =~= tail);
        proof {
            lemma_le_value_bound(tail);
            lemma_le_value_bound(longer);
            vstd::arithmetic::power2::lemma2_to64();
            vstd::arithmetic::power2::lemma2_to64_rest();
            if longer.len() < 8 {
                vstd::arithmetic::power2::lemma_pow2_strictly_increases(8 * longer.len(), 64);
            }
            vstd::arithmetic::power2::lemma_pow2_adds(8, 8 * tail.len());
            assert(8 * longer.len() == 8 + 8 * tail.len());
            assert(w * 256 < pow2(8 * longer.len())) by (nonlinear_arith)
                requires
                    w < pow2(8 * tail.len()),
                    pow2(8 * longer.len()) == pow2(8) * pow2(8 * tail.len()),
                    pow2(8) == 256,
            ;
        }
        w = bytes[start + b - 1] as u64 + 256 * w;
        b = b - 1;
    }
    w
}

/// Splits `bytes` into 8-byte little-endian words. Fails when the length is
/// not a multiple of 8.
pub fn decode_le_words(bytes: &[u8]) -> (r: Option<Vec<u64>>)
    ensures
        bytes@.len() % 8 != 0 <==> r is None,
        r matches Some(v) ==> {
            &&& v@.len() == bytes@.len() / 8
            &&& forall|k: int| 0 <= k < v@.len() ==> v@[k] == word_at(bytes@, k)
        },
{
    if bytes.len() % 8 != 0 {
        return None;
    }
    let count = bytes.len() / 8;
    let mut words: Vec<u64> = Vec::new();
    let mut k: usize = 0;
    while k < count
        invariant
            count == bytes.len() / 8,
            bytes@.len() % 8 == 0,
            k <= count,
            words@.len() == k,
            forall|j: int| 0 <= j < k ==> words@[j] == word_at(bytes@, j),
        decreases count - k,
    {
        assert(8 * k + 8 <= bytes.len()) by (nonlinear_arith)
            requires
                k < count,
                count == bytes.len() / 8,
        ;
        let w = read_le_word(bytes, 8 * k);
        words.push(w);
        k = k + 1;
    }
    Some(words)
}

/// The value of the little-endian bytes of `x` is `x`.
proof fn lemma_le_value_of_le_bytes(x: u64)
    ensures
        le_value(spec_u64_to_le_bytes_open(x)) == x,
{
    let s = spec_u64_to_le_bytes_open(x);
    assert(s.drop_first() =~= s.subrange(1, 8));
    assert(s.subrange(1, 8).drop_first() =~= s.subrange(2, 8));
    assert(s.subrange(2, 8).drop_first() =~= s.subrange(3, 8));
    assert(s.subrange(3, 8).drop_first() =~= s.subrange(4, 8));
    assert(s.subrange(4, 8).drop_first() =~= s.subrange(5, 8));
    assert(s.subrange(5, 8).drop_first() =~= s.subrange(6, 8));
    assert(s.subrange(6, 8).drop_first() =~= s.subrange(7, 8));
    assert(s.subrange(7, 8).drop_first() =~= s.subrange(8, 8));
    assert(le_value(s.subrange(8, 8)) == 0);
    let b0 = x & 0xff;
    let b1 = (x >> 8) & 0xff;
    let b2 = (x >> 16) & 0xff;
    let b3 = (x >> 24) & 0xff;
    let b4 = (x >> 32) & 0xff;
    let b5 = (x >> 40) & 0xff;
    let b6 = (x >> 48) & 0xff;
    let b7 = (x >> 56) & 0xff;
    assert(x == b0 + 256 * (b1 + 256 * (b2 + 256 * (b3 + 256 * (b4 + 256 * (b5 + 256 * (b6 + 256
        * b7))))))) by (bit_vector)
        requires
            b0 == x & 0xff,
            b1 == (x >> 8) & 0xff,
            b2 == (x >> 16) & 0xff,
            b3 == (x >> 24) & 0xff,
            b4 == (x >> 32) & 0xff,
            b5 == (x >> 40) & 0xff,
            b6 == (x >> 48) & 0xff,
            b7 == (x >> 56) & 0xff,
    ;
    assert(b0 < 256 && b1 < 256 && b2 < 256 && b3 < 256 && b4 < 256 && b5 < 256 && b6 < 256 && b7
        < 256) by (bit_vector)
        requires
            b0 == x & 0xff,
            b1 == (x >> 8) & 0xff,
            b2 == (x >> 16) & 0xff,
            b3 == (x >> 24) & 0xff,
            b4 == (x >> 32) & 0xff,
            b5 == (x >> 40) & 0xff,
            b6 == (x >> 48) & 0xff,
            b7 == (x >> 56) & 0xff,
    ;
    assert(le_value(s.subrange(7, 8)) == b7);
    assert(le_value(s.subrange(6, 8)) == b6 + 256 * b7);
    assert(le_value(s.subrange(5, 8)) == b5 + 256 * (b6 + 256 * b7));
    assert(le_value(s.subrange(4, 8)) == b4 + 256 * (b5 + 256 * (b6 + 256 * b7)));
    assert(le_value(s.subrange(3, 8)) == b3 + 256 * (b4 + 256 * (b5 + 256 * (b6 + 256 * b7))));
    assert(le_value(s.subrange(2, 8)) == b2 + 256 * (b3 + 256 * (b4 + 256 * (b5 + 256 * (b6 + 256
        * b7)))));
    assert(le_value(s.subrange(1, 8)) == b1 + 256 * (b2 + 256 * (b3 + 256 * (b4 + 256 * (b5 + 256
        * (b6 + 256 * b7))))));
}

/// Each decoded word is the `u64` whose little-endian bytes are the eight
/// bytes it was read from, as `u64::from_le_bytes` reads them.
pub proof fn lemma_word_is_from_le_bytes(s: Seq<u8>)
    requires
        s.len() == 8,
    ensures
        le_value(s) == spec_u64_from_le_bytes(s),
{
    vstd::bytes::lemma_auto_spec_u64_to_from_le_bytes();
    let x = spec_u64_from_le_bytes(s);
    assert(spec_u64_to_le_bytes(x) == s);
    vstd::bytes::spec_u64_to_le_bytes_to_open(x);
    lemma_le_value_of_le_bytes(x);
}

/// Decoding splits the input into consecutive 8-byte groups and reads each
/// as `u64::from_le_bytes` would.
pub proof fn lemma_decoded_words(bytes: Seq<u8>, k: int)
    requires
        0 <= k,
        8 * k + 8 <= bytes.len(),
    ensures
        word_at(bytes, k) == spec_u64_from_le_bytes(bytes.subrange(8 * k, 8 * k + 8)),
{
    lemma_word_is_from_le_bytes(bytes.subrange(8 * k, 8 * k + 8));
}

} // verus!
