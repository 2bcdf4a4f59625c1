//! Little-endian integer encoding, as used by every binary format here.

use vstd::prelude::*;

verus! {

/// The four bytes of `x`, least significant first.
pub open spec fn le32(x: u32) -> Seq<u8> {
    seq![
        (x % 256) as u8,
        ((x / 256) % 256) as u8,
        ((x / 65536) % 256) as u8,
        (x / 16777216) as u8,
    ]
}

/// The eight bytes of `x`, least significant first.
pub open spec fn le64(x: u64) -> Seq<u8> {
    le32((x % 4294967296) as u32) + le32((x / 4294967296) as u32)
}

/// The number whose little-endian bytes are `s[at..at + 4]`.
pub open spec fn le32_at(s: Seq<u8>, at: int) -> u32 {
    (s[at] + 256 * s[at + 1] + 65536 * s[at + 2] + 16777216 * s[at + 3]) as u32
}

/// Decoding the encoding of a number gives the number back.
pub proof fn lemma_le32_decode_encode(x: u32)
    ensures
        le32(x).len() == 4,
        le32_at(le32(x), 0) == x,
{
    let s = le32(x);
    assert(s[0] + 256 * s[1] + 65536 * s[2] + 16777216 * s[3] == x) by (nonlinear_arith)
        requires
            s[0] == x % 256,
            s[1] == (x / 256) % 256,
            s[2] == (x / 65536) % 256,
            s[3] == x / 16777216,
    {
    }
}

/// Encoding the number read from four bytes gives those bytes back.
pub proof fn lemma_le32_encode_decode(s: Seq<u8>, at: int)
    requires
        0 <= at,
        at + 4 <= s.len(),
    ensures
        le32(le32_at(s, at)) == s.subrange(at, at + 4),
{
    let b0 = s[at];
    let b1 = s[at + 1];
    let b2 = s[at + 2];
    let b3 = s[at + 3];
    let v: int = b0 + 256 * b1 + 65536 * b2 + 16777216 * b3;
    assert(v % 256 == b0 && (v / 256) % 256 == b1 && (v / 65536) % 256 == b2 && v / 16777216 == b3)
        by (nonlinear_arith)
        requires
            v == b0 + 256 * b1 + 65536 * b2 + 16777216 * b3,
            0 <= b0 < 256,
            0 <= b1 < 256,
            0 <= b2 < 256,
            0 <= b3 < 256,
    {
    }
    assert(le32(le32_at(s, at)) =~= s.subrange(at, at + 4));
}

/// Appends the little-endian bytes of `x` to `out`.
pub fn push_le32(out: &mut Vec<u8>, x: u32)
    ensures
        final(out)@ == old(out)@ + le32(x),
{
    out.push((x % 256) as u8);
    out.push(((x / 256) % 256) as u8);
    out.push(((x / 65536) % 256) as u8);
    out.push((x / 16777216) as u8);
    assert(final(out)@ =~= old(out)@ + le32(x));
}

/// Appends the little-endian bytes of `x` to `out`.
pub fn push_le64(out: &mut Vec<u8>, x: u64)
    ensures
        final(out)@ == old(out)@ + le64(x),
{
    push_le32(out, (x % 4294967296) as u32);
    push_le32(out, (x / 4294967296) as u32);
    assert(final(out)@ =~= old(out)@ + le64(x));
}

/// The number stored little-endian in `buf[at..at + 4]`.
pub fn read_le32(buf: &[u8], at: usize) -> (r: u32)
    requires
        at + 4 <= buf@.len(),
    ensures
        r == le32_at(buf@, at as int),
{
    buf[at] as u32 + (buf[at + 1] as u32) * 256 + (buf[at + 2] as u32) * 65536 + (buf[at + 3]
        as u32) * 16777216
}

} // verus!
