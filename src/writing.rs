//! Big-endian writes onto a growing byte vector, and the grouping of bytes
//! into 16-bit words that the checksums read.
use vstd::prelude::*;
use crate::parsing::{be16, be32, pow256};
use vstd::arithmetic::div_mod::lemma_div_denominator;

verus! {

/// The two big-endian bytes of a 16-bit value.
pub open spec fn u16_bytes(v: int) -> Seq<u8> {
    seq![(v / 256) as u8, (v % 256) as u8]
}

/// The four big-endian bytes of a 32-bit value.
pub open spec fn u32_bytes(v: int) -> Seq<u8> {
    u16_bytes(v / 65536) + u16_bytes(v % 65536)
}

/// The `n` big-endian bytes of the low `8 * n` bits of `v`.
pub open spec fn be_bytes(v: int, n: nat) -> Seq<u8> {
    Seq::new(n, |j: int| ((v / pow256((n - 1 - j) as nat)) % 256) as u8)
}

/// The 16-bit big-endian words of `b`; an odd last byte is the high byte
/// of a word whose low byte is zero.
pub open spec fn words_of(b: Seq<u8>) -> Seq<u16>
    decreases b.len(),
{
    if b.len() == 0 {
        Seq::empty()
    } else if b.len() == 1 {
        seq![(b[0] * 256) as u16]
    } else {
        seq![(b[0] * 256 + b[1]) as u16] + words_of(b.subrange(2, b.len() as int))
    }
}

/// Appends the two big-endian bytes of `v`.
pub fn push_u16(bytes: &mut Vec<u8>, v: u16)
    ensures
        final(bytes)@ == old(bytes)@ + u16_bytes(v as int),
{
    bytes.push((v / 256) as u8);
    bytes.push((v % 256) as u8);
    assert(final(bytes)@ == old(bytes)@ + u16_bytes(v as int));
}

/// Appends the four big-endian bytes of `v`.
pub fn push_u32(bytes: &mut Vec<u8>, v: u32)
    ensures
        final(bytes)@ == old(bytes)@ + u32_bytes(v as int),
{
    push_u16(bytes, (v / 65536) as u16);
    push_u16(bytes, (v % 65536) as u16);
    assert(final(bytes)@ == old(bytes)@ + u32_bytes(v as int));
}

/// Appends all of `src`.
pub fn push_all(bytes: &mut Vec<u8>, src: &[u8])
    ensures
        final(bytes)@ == old(bytes)@ + src@,
{
    let mut i: usize = 0;
    while i < src.len()
        invariant
            0 <= i <= src@.len(),
            bytes@ == old(bytes)@ + src@.subrange(0, i as int),
        decreases src@.len() - i,
    {
        bytes.push(src[i]);
        i = i + 1;
    }
    assert(src@.subrange(0, src@.len() as int) == src@);
}

/// Groups `b` into 16-bit big-endian words, padding an odd last byte.
pub fn words_from_bytes(b: &[u8]) -> (r: Vec<u16>)
    ensures
        r@ == words_of(b@),
{
    let mut r: Vec<u16> = Vec::new();
    let mut i: usize = 0;
    assert(b@.subrange(0, b@.len() as int) == b@);
    assert(r@ + words_of(b@) == words_of(b@));
    while i < b.len()
        invariant
            0 <= i <= b@.len(),
            i % 2 == 0,
            r@ + words_of(b@.subrange(i as int, b@.len() as int)) == words_of(b@),
        decreases b@.len() - i,
    {
        let rest = Ghost(b@.subrange(i as int, b@.len() as int));
        if i + 1 < b.len() {
            r.push(b[i] as u16 * 256 + b[i + 1] as u16);
            proof {
                assert(rest@.subrange(2, rest@.len() as int) == b@.subrange(
                    i + 2,
                    b@.len() as int,
                ));
            }
            i = i + 2;
        } else {
            r.push(b[i] as u16 * 256);
            proof {
                assert(b@.subrange(i + 1, b@.len() as int).len() == 0);
            }
            i = i + 1;
            assert(r@ == words_of(b@));
            return r;
        }
    }
    assert(b@.subrange(i as int, b@.len() as int).len() == 0);
    assert(r@ + Seq::<u16>::empty() == r@);
    r
}

/// The two bytes of a 16-bit value read back as the value.
pub proof fn lemma_u16_bytes(v: int)
    requires
        0 <= v < 65536,
    ensures
        u16_bytes(v).len() == 2,
        be16(u16_bytes(v), 0) == v,
{
}

/// The four bytes of a 32-bit value read back as the value.
pub proof fn lemma_u32_bytes(v: int)
    requires
        0 <= v < 0x1_0000_0000,
    ensures
        u32_bytes(v).len() == 4,
        be32(u32_bytes(v), 0) == v,
{
    lemma_u16_bytes(v / 65536);
    lemma_u16_bytes(v % 65536);
    let b = u32_bytes(v);
    assert(be16(b, 0) == v / 65536);
    assert(be16(b, 2) == v % 65536);
}

/// Bytes `[i, i + 2)` of a sequence whose part there is `u16_bytes(v)`.
pub proof fn lemma_be16_at(b: Seq<u8>, i: int, v: int)
    requires
        0 <= v < 65536,
        0 <= i,
        i + 2 <= b.len(),
        b.subrange(i, i + 2) == u16_bytes(v),
    ensures
        be16(b, i) == v,
{
    assert(b[i] == b.subrange(i, i + 2)[0]);
    assert(b[i + 1] == b.subrange(i, i + 2)[1]);
}

/// Bytes `[i, i + 4)` of a sequence whose part there is `u32_bytes(v)`.
pub proof fn lemma_be32_at(b: Seq<u8>, i: int, v: int)
    requires
        0 <= v < 0x1_0000_0000,
        0 <= i,
        i + 4 <= b.len(),
        b.subrange(i, i + 4) == u32_bytes(v),
    ensures
        be32(b, i) == v,
{
    lemma_u32_bytes(v);
    let s = b.subrange(i, i + 4);
    assert(b[i] == s[0]);
    assert(b[i + 1] == s[1]);
    assert(b[i + 2] == s[2]);
    assert(b[i + 3] == s[3]);
}

/// The sixteen big-endian bytes of a 128-bit value.
pub fn u128_to_bytes(v: u128) -> (r: [u8; 16])
    ensures
        r@ == be_bytes(v as int, 16),
{
    let mut arr = [0u8; 16];
    let mut x: u128 = v;
    let mut k: usize = 0;
    while k < 16
        invariant
            0 <= k <= 16,
            arr@.len() == 16,
            x == v as int / pow256(k as nat),
            forall|j: int|
                16 - k <= j < 16 ==> arr@[j] == ((v as int / pow256((15 - j) as nat)) % 256) as u8,
        decreases 16 - k,
    {
        proof {
            lemma_pow256_positive(k as nat);
            lemma_div_denominator(v as int, pow256(k as nat), 256);
            assert(pow256(k as nat) * 256 == pow256((k + 1) as nat));
        }
        arr[15 - k] = (x % 256) as u8;
        x = x / 256;
        k = k + 1;
    }
    assert(arr@ == be_bytes(v as int, 16));
    arr
}

proof fn lemma_pow256_positive(n: nat)
    ensures
        pow256(n) > 0,
    decreases n,
{
    if n > 0 {
        lemma_pow256_positive((n - 1) as nat);
    }
}

} // verus!
