//! Big-endian byte encoding helpers shared by the OpenFlow codecs.
use vstd::prelude::*;

verus! {

/// The two bytes of `v`, most significant first.
pub open spec fn be16(v: u16) -> Seq<u8> {
    seq![(v / 256) as u8, (v % 256) as u8]
}

/// The four bytes of `v`, most significant first.
pub open spec fn be32(v: u32) -> Seq<u8> {
    be16((v / 0x1_0000) as u16) + be16((v % 0x1_0000) as u16)
}

/// The eight bytes of `v`, most significant first.
pub open spec fn be64(v: u64) -> Seq<u8> {
    be32((v / 0x1_0000_0000) as u32) + be32((v % 0x1_0000_0000) as u32)
}

/// `n` zero bytes.
pub open spec fn zeros(n: nat) -> Seq<u8> {
    Seq::new(n, |i: int| 0u8)
}

/// The big-endian 16-bit value stored at `s[i..i+2]`.
pub open spec fn get16(s: Seq<u8>, i: int) -> u16 {
    (s[i] * 256 + s[i + 1]) as u16
}

/// The big-endian 32-bit value stored at `s[i..i+4]`.
pub open spec fn get32(s: Seq<u8>, i: int) -> u32 {
    (get16(s, i) * 0x1_0000 + get16(s, i + 2)) as u32
}

/// The big-endian 64-bit value stored at `s[i..i+8]`.
pub open spec fn get64(s: Seq<u8>, i: int) -> u64 {
    (get32(s, i) * 0x1_0000_0000 + get32(s, i + 4)) as u64
}

/// Reading back the bytes written by `be16` gives the value again.
pub proof fn lemma_get16_be16(s: Seq<u8>, i: int, v: u16)
    requires
        0 <= i,
        i + 2 <= s.len(),
        s.subrange(i, i + 2) == be16(v),
    ensures
        get16(s, i) == v,
{
    assert(s[i] == be16(v)[0]);
    assert(s[i + 1] == be16(v)[1]);
}

/// Reading back the bytes written by `be32` gives the value again.
pub proof fn lemma_get32_be32(s: Seq<u8>, i: int, v: u32)
    requires
        0 <= i,
        i + 4 <= s.len(),
        s.subrange(i, i + 4) == be32(v),
    ensures
        get32(s, i) == v,
{
    let hi = (v / 0x1_0000) as u16;
    let lo = (v % 0x1_0000) as u16;
    assert(s.subrange(i, i + 2) == be32(v).subrange(0, 2));
    assert(be32(v).subrange(0, 2) == be16(hi));
    assert(s.subrange(i + 2, i + 4) == be32(v).subrange(2, 4));
    assert(be32(v).subrange(2, 4) == be16(lo));
    lemma_get16_be16(s, i, hi);
    lemma_get16_be16(s, i + 2, lo);
}

/// Reading back the bytes written by `be64` gives the value again.
pub proof fn lemma_get64_be64(s: Seq<u8>, i: int, v: u64)
    requires
        0 <= i,
        i + 8 <= s.len(),
        s.subrange(i, i + 8) == be64(v),
    ensures
        get64(s, i) == v,
{
    let hi = (v / 0x1_0000_0000) as u32;
    let lo = (v % 0x1_0000_0000) as u32;
    assert(s.subrange(i, i + 4) == be64(v).subrange(0, 4));
    assert(be64(v).subrange(0, 4) == be32(hi));
    assert(s.subrange(i + 4, i + 8) == be64(v).subrange(4, 8));
    assert(be64(v).subrange(4, 8) == be32(lo));
    lemma_get32_be32(s, i, hi);
    lemma_get32_be32(s, i + 4, lo);
}

/// Appends the big-endian bytes of a 16-bit value.
pub fn push_be16(buf: &mut Vec<u8>, v: u16)
    ensures
        final(buf)@ == old(buf)@ + be16(v),
{
    buf.push((v / 256) as u8);
    buf.push((v % 256) as u8);
    assert(final(buf)@ =~= old(buf)@ + be16(v));
}

/// Appends the big-endian bytes of a 32-bit value.
pub fn push_be32(buf: &mut Vec<u8>, v: u32)
    ensures
        final(buf)@ == old(buf)@ + be32(v),
{
    push_be16(buf, (v / 0x1_0000) as u16);
    push_be16(buf, (v % 0x1_0000) as u16);
    assert(final(buf)@ =~= old(buf)@ + be32(v));
}

/// Appends the big-endian bytes of a 64-bit value.
pub fn push_be64(buf: &mut Vec<u8>, v: u64)
    ensures
        final(buf)@ == old(buf)@ + be64(v),
{
    push_be32(buf, (v / 0x1_0000_0000) as u32);
    push_be32(buf, (v % 0x1_0000_0000) as u32);
    assert(final(buf)@ =~= old(buf)@ + be64(v));
}

/// Appends `n` zero bytes.
pub fn push_zeros(buf: &mut Vec<u8>, n: usize)
    ensures
        final(buf)@ == old(buf)@ + zeros(n as nat),
{
    let ghost start = buf@;
    let mut i: usize = 0;
    while i < n
        invariant
            i <= n,
            buf@ == start + zeros(i as nat),
        decreases n - i,
    {
        buf.push(0u8);
        i = i + 1;
        assert(buf@ =~= start + zeros(i as nat));
    }
}

/// Reads the big-endian 16-bit value at `data[i..i+2]`.
pub fn read_be16(data: &[u8], i: usize) -> (r: u16)
    requires
        i + 2 <= data@.len(),
    ensures
        r == get16(data@, i as int),
{
    (data[i] as u16) * 256 + (data[i + 1] as u16)
}

/// Reads the big-endian 32-bit value at `data[i..i+4]`.
pub fn read_be32(data: &[u8], i: usize) -> (r: u32)
    requires
        i + 4 <= data@.len(),
    ensures
        r == get32(data@, i as int),
{
    let n = data.len();
    let hi = read_be16(data, i);
    let lo = read_be16(data, i + 2);
    (hi as u32) * 0x1_0000 + (lo as u32)
}

/// Reads the big-endian 64-bit value at `data[i..i+8]`.
pub fn read_be64(data: &[u8], i: usize) -> (r: u64)
    requires
        i + 8 <= data@.len(),
    ensures
        r == get64(data@, i as int),
{
    let n = data.len();
    let hi = read_be32(data, i);
    let lo = read_be32(data, i + 4);
    (hi as u64) * 0x1_0000_0000 + (lo as u64)
}

} // verus!
