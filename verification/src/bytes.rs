//! Little-endian byte-level encoding of 32-bit integers.
//!
//! Every record of the wire format is a run of `u32` fields laid out
//! little-endian with no padding, so these four-byte helpers are the whole
//! of the byte-level layer.
use vstd::prelude::*;

verus! {

/// The four little-endian bytes of `x`.
pub open spec fn u32_le_bytes(x: u32) -> Seq<u8> {
    seq![
        (x & 0xff) as u8,
        ((x >> 8) & 0xff) as u8,
        ((x >> 16) & 0xff) as u8,
        ((x >> 24) & 0xff) as u8,
    ]
}

/// The `u32` stored little-endian in `s` at offset `i`.
pub open spec fn read_u32_le(s: Seq<u8>, i: int) -> u32 {
    (s[i] as u32) | (s[i + 1] as u32) << 8 | (s[i + 2] as u32) << 16 | (s[i + 3] as u32) << 24
}

/// Reading back the four little-endian bytes of `x` yields `x`.
pub proof fn lemma_u32_le_roundtrip(x: u32)
    ensures
        read_u32_le(u32_le_bytes(x), 0) == x,
{
    assert(((x & 0xff) as u8 as u32) | (((x >> 8) & 0xff) as u8 as u32) << 8 | (((x >> 16)
        & 0xff) as u8 as u32) << 16 | (((x >> 24) & 0xff) as u8 as u32) << 24 == x)
        by (bit_vector);
}

/// `read_u32_le` looks only at the four bytes at `i`, so a sequence that
/// carries `u32_le_bytes(x)` there reads back `x`.
pub proof fn lemma_read_u32_le_at(s: Seq<u8>, i: int, x: u32)
    requires
        0 <= i,
        i + 4 <= s.len(),
        s.subrange(i, i + 4) == u32_le_bytes(x),
    ensures
        read_u32_le(s, i) == x,
{
    let sub = s.subrange(i, i + 4);
    assert(s[i] == sub[0]);
    assert(s[i + 1] == sub[1]);
    assert(s[i + 2] == sub[2]);
    assert(s[i + 3] == sub[3]);
    lemma_u32_le_roundtrip(x);
}

/// Appends the four little-endian bytes of `x` to `out`.
pub fn push_u32_le(out: &mut Vec<u8>, x: u32)
    ensures
        final(out)@ == old(out)@ + u32_le_bytes(x),
{
    out.push((x & 0xff) as u8);
    out.push(((x >> 8) & 0xff) as u8);
    out.push(((x >> 16) & 0xff) as u8);
    out.push(((x >> 24) & 0xff) as u8);
    assert(out@ =~= old(out)@ + u32_le_bytes(x));
}

/// Reads the `u32` stored little-endian in `b` at offset `i`.
pub fn get_u32_le(b: &Vec<u8>, i: usize) -> (r: u32)
    requires
        i + 4 <= b@.len(),
    ensures
        r == read_u32_le(b@, i as int),
{
    let _n: usize = b.len();
    (b[i] as u32) | (b[i + 1] as u32) << 8 | (b[i + 2] as u32) << 16 | (b[i + 3] as u32) << 24
}

/// Copies the bytes of `src` into a fresh vector.
pub(crate) fn copy_bytes(src: &Vec<u8>) -> (r: Vec<u8>)
    ensures
        r@ == src@,
{
    let n: usize = src.len();
    copy_range(src, 0, n)
}

/// Copies `src[from..to]` into a fresh vector.
pub(crate) fn copy_range(src: &Vec<u8>, from: usize, to: usize) -> (r: Vec<u8>)
    requires
        from <= to <= src@.len(),
    ensures
        r@ == src@.subrange(from as int, to as int),
{
    let mut r: Vec<u8> = Vec::new();
    let mut i: usize = from;
    while i < to
        invariant
            from <= i <= to <= src@.len(),
            r@ == src@.subrange(from as int, i as int),
        decreases to - i,
    {
        r.push(src[i]);
        i = i + 1;
        assert(r@ =~= src@.subrange(from as int, i as int));
    }
    r
}

} // verus!
