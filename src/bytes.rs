//! Little-endian integer fields inside a byte buffer.
use vstd::prelude::*;

verus! {

/// `n` zero bytes.
pub open spec fn zeros(n: nat) -> Seq<u8> {
    Seq::new(n, |i: int| 0u8)
}

/// The two bytes of `v`, least significant first.
pub open spec fn le16(v: u16) -> Seq<u8> {
    seq![v as u8, (v >> 8u16) as u8]
}

/// The four bytes of `v`, least significant first.
pub open spec fn le32(v: u32) -> Seq<u8> {
    seq![v as u8, (v >> 8u32) as u8, (v >> 16u32) as u8, (v >> 24u32) as u8]
}

/// The eight bytes of `v`, least significant first.
pub open spec fn le64(v: u64) -> Seq<u8> {
    seq![
        v as u8, (v >> 8u64) as u8, (v >> 16u64) as u8, (v >> 24u64) as u8,
        (v >> 32u64) as u8, (v >> 40u64) as u8, (v >> 48u64) as u8, (v >> 56u64) as u8,
    ]
}

/// The `u16` stored little-endian at `off`.
pub open spec fn u16_at(s: Seq<u8>, off: int) -> u16 {
    (s[off] as u16) | ((s[off + 1] as u16) << 8u16)
}

/// The `u32` stored little-endian at `off`.
pub open spec fn u32_at(s: Seq<u8>, off: int) -> u32 {
    (s[off] as u32) | ((s[off + 1] as u32) << 8u32) | ((s[off + 2] as u32) << 16u32) | ((
    s[off + 3] as u32) << 24u32)
}

/// The `u64` stored little-endian at `off`.
pub open spec fn u64_at(s: Seq<u8>, off: int) -> u64 {
    (s[off] as u64) | ((s[off + 1] as u64) << 8u64) | ((s[off + 2] as u64) << 16u64) | ((
    s[off + 3] as u64) << 24u64) | ((s[off + 4] as u64) << 32u64) | ((s[off + 5] as u64)
        << 40u64) | ((s[off + 6] as u64) << 48u64) | ((s[off + 7] as u64) << 56u64)
}

pub proof fn lemma_u16_round_trip(v: u16, s: Seq<u8>, off: int)
    requires
        0 <= off,
        off + 2 <= s.len(),
        s.subrange(off, off + 2) == le16(v),
    ensures
        u16_at(s, off) == v,
{
    assert(s[off] == le16(v)[0]);
    assert(s[off + 1] == le16(v)[1]);
    let b0 = v as u8;
    let b1 = (v >> 8u16) as u8;
    assert(((b0 as u16) | ((b1 as u16) << 8u16)) == v) by (bit_vector)
        requires
            b0 == v as u8,
            b1 == (v >> 8u16) as u8,
    ;
}

pub proof fn lemma_u32_round_trip(v: u32, s: Seq<u8>, off: int)
    requires
        0 <= off,
        off + 4 <= s.len(),
        s.subrange(off, off + 4) == le32(v),
    ensures
        u32_at(s, off) == v,
{
    assert(s[off] == le32(v)[0]);
    assert(s[off + 1] == le32(v)[1]);
    assert(s[off + 2] == le32(v)[2]);
    assert(s[off + 3] == le32(v)[3]);
    let b0 = v as u8;
    let b1 = (v >> 8u32) as u8;
    let b2 = (v >> 16u32) as u8;
    let b3 = (v >> 24u32) as u8;
    assert(((b0 as u32) | ((b1 as u32) << 8u32) | ((b2 as u32) << 16u32) | ((b3 as u32)
        << 24u32)) == v) by (bit_vector)
        requires
            b0 == v as u8,
            b1 == (v >> 8u32) as u8,
            b2 == (v >> 16u32) as u8,
            b3 == (v >> 24u32) as u8,
    ;
}

pub proof fn lemma_u64_round_trip(v: u64, s: Seq<u8>, off: int)
    requires
        0 <= off,
        off + 8 <= s.len(),
        s.subrange(off, off + 8) == le64(v),
    ensures
        u64_at(s, off) == v,
{
    assert(s[off] == le64(v)[0]);
    assert(s[off + 1] == le64(v)[1]);
    assert(s[off + 2] == le64(v)[2]);
    assert(s[off + 3] == le64(v)[3]);
    assert(s[off + 4] == le64(v)[4]);
    assert(s[off + 5] == le64(v)[5]);
    assert(s[off + 6] == le64(v)[6]);
    assert(s[off + 7] == le64(v)[7]);
    let b0 = v as u8;
    let b1 = (v >> 8u64) as u8;
    let b2 = (v >> 16u64) as u8;
    let b3 = (v >> 24u64) as u8;
    let b4 = (v >> 32u64) as u8;
    let b5 = (v >> 40u64) as u8;
    let b6 = (v >> 48u64) as u8;
    let b7 = (v >> 56u64) as u8;
    assert(((b0 as u64) | ((b1 as u64) << 8u64) | ((b2 as u64) << 16u64) | ((b3 as u64)
        << 24u64) | ((b4 as u64) << 32u64) | ((b5 as u64) << 40u64) | ((b6 as u64) << 48u64)
        | ((b7 as u64) << 56u64)) == v) by (bit_vector)
        requires
            b0 == v as u8,
            b1 == (v >> 8u64) as u8,
            b2 == (v >> 16u64) as u8,
            b3 == (v >> 24u64) as u8,
            b4 == (v >> 32u64) as u8,
            b5 == (v >> 40u64) as u8,
            b6 == (v >> 48u64) as u8,
            b7 == (v >> 56u64) as u8,
    ;
}

/// Appends `n` zero bytes.
pub fn push_zeros(buf: &mut Vec<u8>, n: usize)
    ensures
        final(buf)@ == old(buf)@ + zeros(n as nat),
{
    let ghost start = buf@;
    let mut i: usize = 0;
    while i < n
        invariant
            i <= n,
            buf@ == start + zeros(i as nat),
        decreases n - i,
    {
        buf.push(0u8);
        i = i + 1;
        assert(buf@ =~= start + zeros(i as nat));
    }
}

/// Appends `v` as two little-endian bytes.
pub fn push_u16(buf: &mut Vec<u8>, v: u16)
    ensures
        final(buf)@ == old(buf)@ + le16(v),
{
    buf.push(v as u8);
    buf.push((v >> 8u16) as u8);
    assert(buf@ =~= old(buf)@ + le16(v));
}

/// Appends `v` as four little-endian bytes.
pub fn push_u32(buf: &mut Vec<u8>, v: u32)
    ensures
        final(buf)@ == old(buf)@ + le32(v),
{
    buf.push(v as u8);
    buf.push((v >> 8u32) as u8);
    buf.push((v >> 16u32) as u8);
    buf.push((v >> 24u32) as u8);
    assert(buf@ =~= old(buf)@ + le32(v));
}

/// Appends `v` as eight little-endian bytes.
pub fn push_u64(buf: &mut Vec<u8>, v: u64)
    ensures
        final(buf)@ == old(buf)@ + le64(v),
{
    buf.push(v as u8);
    buf.push((v >> 8u64) as u8);
    buf.push((v >> 16u64) as u8);
    buf.push((v >> 24u64) as u8);
    buf.push((v >> 32u64) as u8);
    buf.push((v >> 40u64) as u8);
    buf.push((v >> 48u64) as u8);
    buf.push((v >> 56u64) as u8);
    assert(buf@ =~= old(buf)@ + le64(v));
}

/// Reads the little-endian `u16` at `off`.
pub fn read_u16(buf: &Vec<u8>, off: usize) -> (r: u16)
    requires
        off + 2 <= buf@.len(),
    ensures
        r == u16_at(buf@, off as int),
{
    // The length is a usize, so every offset below it is one too.
    let _len = buf.len();
    (buf[off] as u16) | ((buf[off + 1] as u16) << 8u16)
}

/// Reads the little-endian `u32` at `off`.
pub fn read_u32(buf: &Vec<u8>, off: usize) -> (r: u32)
    requires
        off + 4 <= buf@.len(),
    ensures
        r == u32_at(buf@, off as int),
{
    // The length is a usize, so every offset below it is one too.
    let _len = buf.len();
    (buf[off] as u32) | ((buf[off + 1] as u32) << 8u32) | ((buf[off + 2] as u32) << 16u32) | ((
    buf[off + 3] as u32) << 24u32)
}

/// Reads the little-endian `u64` at `off`.
pub fn read_u64(buf: &Vec<u8>, off: usize) -> (r: u64)
    requires
        off + 8 <= buf@.len(),
    ensures
        r == u64_at(buf@, off as int),
{
    // The length is a usize, so every offset below it is one too.
    let _len = buf.len();
    (buf[off] as u64) | ((buf[off + 1] as u64) << 8u64) | ((buf[off + 2] as u64) << 16u64) | ((
    buf[off + 3] as u64) << 24u64) | ((buf[off + 4] as u64) << 32u64) | ((buf[off + 5] as u64)
        << 40u64) | ((buf[off + 6] as u64) << 48u64) | ((buf[off + 7] as u64) << 56u64)
}

} // verus!
