//! Big-endian reads from a byte cursor. Each read advances the cursor past
//! the bytes it consumed; a read that fails leaves the cursor where it was.
use vstd::prelude::*;

verus! {

/// The big-endian value of `b[i]`, `b[i + 1]`.
pub open spec fn be16(b: Seq<u8>, i: int) -> int {
    b[i] * 256 + b[i + 1]
}

/// The big-endian value of the three bytes starting at `i`.
pub open spec fn be24(b: Seq<u8>, i: int) -> int {
    b[i] * 65536 + be16(b, i + 1)
}

/// The big-endian value of the four bytes starting at `i`.
pub open spec fn be32(b: Seq<u8>, i: int) -> int {
    be16(b, i) * 65536 + be16(b, i + 2)
}

/// The big-endian value of the `n` bytes starting at `i`.
pub open spec fn be_n(b: Seq<u8>, i: int, n: nat) -> int
    decreases n,
{
    if n == 0 {
        0
    } else {
        be_n(b, i, (n - 1) as nat) * 256 + b[i + n - 1]
    }
}

/// Reading `n` bytes at `i` is reading them at the start of what follows
/// `i`.
pub proof fn lemma_be_n_shift(b: Seq<u8>, i: int, n: nat)
    requires
        0 <= i,
        i + n <= b.len(),
    ensures
        be_n(b.subrange(i, b.len() as int), 0, n) == be_n(b, i, n),
    decreases n,
{
    if n > 0 {
        lemma_be_n_shift(b, i, (n - 1) as nat);
    }
}

/// Reads one byte.
pub fn read_u8(buffer: &mut &[u8]) -> (r: Option<u8>)
    ensures
        old(buffer)@.len() >= 1 ==> r == Some(old(buffer)@[0]) && final(buffer)@
            == old(buffer)@.subrange(1, old(buffer)@.len() as int),
        old(buffer)@.len() < 1 ==> r.is_none() && final(buffer)@ == old(buffer)@,
{
    if buffer.len() < 1 {
        return None;
    }
    let b = buffer[0];
    let (_, rest) = buffer.split_at(1);
    *buffer = rest;
    Some(b)
}

/// Reads two bytes as a big-endian `u16`.
pub fn read_u16(buffer: &mut &[u8]) -> (r: Option<u16>)
    ensures
        old(buffer)@.len() >= 2 ==> r == Some(be16(old(buffer)@, 0) as u16) && final(buffer)@
            == old(buffer)@.subrange(2, old(buffer)@.len() as int),
        old(buffer)@.len() < 2 ==> r.is_none() && final(buffer)@ == old(buffer)@,
{
    let arr: [u8; 2] = read_array(buffer)?;
    Some(arr[0] as u16 * 256 + arr[1] as u16)
}

/// Reads three bytes as a big-endian value, zero-extended to `u32`.
pub fn read_u24(buffer: &mut &[u8]) -> (r: Option<u32>)
    ensures
        old(buffer)@.len() >= 3 ==> r == Some(be24(old(buffer)@, 0) as u32) && final(buffer)@
            == old(buffer)@.subrange(3, old(buffer)@.len() as int),
        old(buffer)@.len() < 3 ==> r.is_none() && final(buffer)@ == old(buffer)@,
{
    let arr: [u8; 3] = read_array(buffer)?;
    Some(arr[0] as u32 * 65536 + arr[1] as u32 * 256 + arr[2] as u32)
}

/// Reads four bytes as a big-endian `u32`.
pub fn read_u32(buffer: &mut &[u8]) -> (r: Option<u32>)
    ensures
        old(buffer)@.len() >= 4 ==> r == Some(be32(old(buffer)@, 0) as u32) && final(buffer)@
            == old(buffer)@.subrange(4, old(buffer)@.len() as int),
        old(buffer)@.len() < 4 ==> r.is_none() && final(buffer)@ == old(buffer)@,
{
    let arr: [u8; 4] = read_array(buffer)?;
    let hi = arr[0] as u32 * 256 + arr[1] as u32;
    let lo = arr[2] as u32 * 256 + arr[3] as u32;
    Some(hi * 65536 + lo)
}

/// Reads sixteen bytes as a big-endian `u128`.
pub fn read_u128(buffer: &mut &[u8]) -> (r: Option<u128>)
    ensures
        old(buffer)@.len() >= 16 ==> r == Some(be_n(old(buffer)@, 0, 16) as u128)
            && final(buffer)@ == old(buffer)@.subrange(16, old(buffer)@.len() as int),
        old(buffer)@.len() < 16 ==> r.is_none() && final(buffer)@ == old(buffer)@,
{
    let arr: [u8; 16] = read_array(buffer)?;
    let mut v: u128 = 0;
    let mut i: usize = 0;
    while i < 16
        invariant
            0 <= i <= 16,
            old(buffer)@.len() >= 16,
            arr@ == old(buffer)@.subrange(0, 16),
            v == be_n(arr@, 0, i as nat),
            v < pow256(i as nat),
        decreases 16 - i,
    {
        proof {
            lemma_pow256_step(i as nat);
            lemma_pow256_bound(i as nat);
        }
        v = v * 256 + arr[i] as u128;
        i = i + 1;
    }
    proof {
        assert(arr@.subrange(0, 16) == arr@);
        lemma_be_n_prefix(arr@, old(buffer)@, 16);
    }
    Some(v)
}

/// `256` raised to `n`.
pub open spec fn pow256(n: nat) -> int
    decreases n,
{
    if n == 0 {
        1
    } else {
        256 * pow256((n - 1) as nat)
    }
}

proof fn lemma_pow256_step(n: nat)
    ensures
        pow256(n + 1) == 256 * pow256(n),
{
}

proof fn lemma_pow256_bound(n: nat)
    requires
        n <= 15,
    ensures
        256 * pow256(n) <= pow256(16),
        pow256(16) == 0x1_0000_0000_0000_0000_0000_0000_0000_0000,
    decreases n,
{
    reveal_with_fuel(pow256, 17);
    if n > 0 {
        lemma_pow256_bound((n - 1) as nat);
    }
}

proof fn lemma_be_n_prefix(a: Seq<u8>, b: Seq<u8>, n: nat)
    requires
        n <= a.len(),
        n <= b.len(),
        a.subrange(0, n as int) == b.subrange(0, n as int),
    ensures
        be_n(a, 0, n) == be_n(b, 0, n),
    decreases n,
{
    if n > 0 {
        assert(a[n - 1] == a.subrange(0, n as int)[n - 1]);
        assert(b[n - 1] == b.subrange(0, n as int)[n - 1]);
        assert(a.subrange(0, n - 1) == a.subrange(0, n as int).subrange(0, n - 1));
        assert(b.subrange(0, n - 1) == b.subrange(0, n as int).subrange(0, n - 1));
        lemma_be_n_prefix(a, b, (n - 1) as nat);
    }
}

/// Reads exactly `LEN` bytes into an array.
pub fn read_array<const LEN: usize>(buffer: &mut &[u8]) -> (r: Option<[u8; LEN]>)
    ensures
        old(buffer)@.len() >= LEN ==> r.is_some() && r.unwrap()@ == old(buffer)@.subrange(
            0,
            LEN as int,
        ) && final(buffer)@ == old(buffer)@.subrange(LEN as int, old(buffer)@.len() as int),
        old(buffer)@.len() < LEN ==> r.is_none() && final(buffer)@ == old(buffer)@,
{
    if buffer.len() < LEN {
        return None;
    }
    let mut arr = [0u8; LEN];
    let mut i: usize = 0;
    while i < LEN
        invariant
            0 <= i <= LEN,
            LEN <= buffer@.len(),
            arr@.len() == LEN,
            forall|k: int| 0 <= k < i ==> arr@[k] == buffer@[k],
        decreases LEN - i,
    {
        arr[i] = buffer[i];
        i = i + 1;
    }
    assert(arr@ == buffer@.subrange(0, LEN as int));
    let (_, rest) = buffer.split_at(LEN);
    *buffer = rest;
    Some(arr)
}

/// Reads up to `len` bytes: fewer when fewer remain, without failing.
pub fn read_vec(buffer: &mut &[u8], len: usize) -> (r: Option<Vec<u8>>)
    ensures
        r.is_some(),
        r.unwrap()@ == old(buffer)@.subrange(0, min_len(old(buffer)@.len() as int, len as int)),
        final(buffer)@ == old(buffer)@.subrange(
            min_len(old(buffer)@.len() as int, len as int),
            old(buffer)@.len() as int,
        ),
{
    let mut to_read = len;
    let readable_length = buffer.len();
    if len > readable_length {
        to_read = readable_length;
    }
    let (head, rest) = buffer.split_at(to_read);
    let v = slice_to_vec(head);
    *buffer = rest;
    Some(v)
}

/// The smaller of a remaining length and a requested one.
pub open spec fn min_len(remaining: int, wanted: int) -> int {
    if wanted < remaining {
        wanted
    } else {
        remaining
    }
}

/// Copies a byte slice into a new vector.
pub fn slice_to_vec(s: &[u8]) -> (v: Vec<u8>)
    ensures
        v@ == s@,
{
    let mut v: Vec<u8> = Vec::new();
    let mut i: usize = 0;
    while i < s.len()
        invariant
            0 <= i <= s@.len(),
            v@ == s@.subrange(0, i as int),
        decreases s@.len() - i,
    {
        v.push(s[i]);
        i = i + 1;
    }
    assert(v@ == s@);
    v
}

} // verus!
