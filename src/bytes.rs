//! Big-endian integer encoding and small byte-sequence helpers.

use vstd::prelude::*;

verus! {

/// The eight big-endian bytes of `v`.
pub open spec fn u64_be(v: u64) -> Seq<u8> {
    seq![
        (v >> 56u64) as u8,
        (v >> 48u64) as u8,
        (v >> 40u64) as u8,
        (v >> 32u64) as u8,
        (v >> 24u64) as u8,
        (v >> 16u64) as u8,
        (v >> 8u64) as u8,
        v as u8,
    ]
}

/// The four big-endian bytes of `v`.
pub open spec fn u32_be(v: u32) -> Seq<u8> {
    seq![(v >> 24u32) as u8, (v >> 16u32) as u8, (v >> 8u32) as u8, v as u8]
}

/// The value of eight big-endian bytes starting at `off`.
pub open spec fn u64_at(b: Seq<u8>, off: int) -> u64 {
    ((b[off] as u64) << 56u64) | ((b[off + 1] as u64) << 48u64) | ((b[off + 2] as u64) << 40u64)
        | ((b[off + 3] as u64) << 32u64) | ((b[off + 4] as u64) << 24u64) | ((b[off + 5] as u64)
        << 16u64) | ((b[off + 6] as u64) << 8u64) | (b[off + 7] as u64)
}

/// The value of four big-endian bytes starting at `off`.
pub open spec fn u32_at(b: Seq<u8>, off: int) -> u32 {
    ((b[off] as u32) << 24u32) | ((b[off + 1] as u32) << 16u32) | ((b[off + 2] as u32) << 8u32)
        | (b[off + 3] as u32)
}

pub proof fn lemma_u64_be_round_trip(v: u64, b: Seq<u8>, off: int)
    requires
        0 <= off,
        off + 8 <= b.len(),
        b.subrange(off, off + 8) == u64_be(v),
    ensures
        u64_at(b, off) == v,
{
    assert(b[off] == u64_be(v)[0]);
    assert(b[off + 1] == u64_be(v)[1]);
    assert(b[off + 2] == u64_be(v)[2]);
    assert(b[off + 3] == u64_be(v)[3]);
    assert(b[off + 4] == u64_be(v)[4]);
    assert(b[off + 5] == u64_be(v)[5]);
    assert(b[off + 6] == u64_be(v)[6]);
    assert(b[off + 7] == u64_be(v)[7]);
    let b0 = (v >> 56u64) as u8;
    let b1 = (v >> 48u64) as u8;
    let b2 = (v >> 40u64) as u8;
    let b3 = (v >> 32u64) as u8;
    let b4 = (v >> 24u64) as u8;
    let b5 = (v >> 16u64) as u8;
    let b6 = (v >> 8u64) as u8;
    let b7 = v as u8;
    assert(((b0 as u64) << 56u64) | ((b1 as u64) << 48u64) | ((b2 as u64) << 40u64) | ((b3 as u64)
        << 32u64) | ((b4 as u64) << 24u64) | ((b5 as u64) << 16u64) | ((b6 as u64) << 8u64) | (b7
        as u64) == v) by (bit_vector)
        requires
            b0 == (v >> 56u64) as u8,
            b1 == (v >> 48u64) as u8,
            b2 == (v >> 40u64) as u8,
            b3 == (v >> 32u64) as u8,
            b4 == (v >> 24u64) as u8,
            b5 == (v >> 16u64) as u8,
            b6 == (v >> 8u64) as u8,
            b7 == v as u8,
    ;
}

pub proof fn lemma_u32_be_round_trip(v: u32, b: Seq<u8>, off: int)
    requires
        0 <= off,
        off + 4 <= b.len(),
        b.subrange(off, off + 4) == u32_be(v),
    ensures
        u32_at(b, off) == v,
{
    assert(b[off] == u32_be(v)[0]);
    assert(b[off + 1] == u32_be(v)[1]);
    assert(b[off + 2] == u32_be(v)[2]);
    assert(b[off + 3] == u32_be(v)[3]);
    let b0 = (v >> 24u32) as u8;
    let b1 = (v >> 16u32) as u8;
    let b2 = (v >> 8u32) as u8;
    let b3 = v as u8;
    assert(((b0 as u32) << 24u32) | ((b1 as u32) << 16u32) | ((b2 as u32) << 8u32) | (b3 as u32)
        == v) by (bit_vector)
        requires
            b0 == (v >> 24u32) as u8,
            b1 == (v >> 16u32) as u8,
            b2 == (v >> 8u32) as u8,
            b3 == v as u8,
    ;
}

/// Appends the big-endian bytes of `v`.
pub fn push_u64_be(buf: &mut Vec<u8>, v: u64)
    ensures
        final(buf)@ == old(buf)@ + u64_be(v),
{
    buf.push((v >> 56u64) as u8);
    buf.push((v >> 48u64) as u8);
    buf.push((v >> 40u64) as u8);
    buf.push((v >> 32u64) as u8);
    buf.push((v >> 24u64) as u8);
    buf.push((v >> 16u64) as u8);
    buf.push((v >> 8u64) as u8);
    buf.push(v as u8);
    assert(buf@ =~= old(buf)@ + u64_be(v));
}

/// Appends the big-endian bytes of `v`.
pub fn push_u32_be(buf: &mut Vec<u8>, v: u32)
    ensures
        final(buf)@ == old(buf)@ + u32_be(v),
{
    buf.push((v >> 24u32) as u8);
    buf.push((v >> 16u32) as u8);
    buf.push((v >> 8u32) as u8);
    buf.push(v as u8);
    assert(buf@ =~= old(buf)@ + u32_be(v));
}

/// Reads eight big-endian bytes starting at `off`.
pub fn read_u64_be(b: &[u8], off: usize) -> (r: u64)
    requires
        off + 8 <= b@.len(),
    ensures
        r == u64_at(b@, off as int),
{
    ((b[off] as u64) << 56u64) | ((b[off + 1] as u64) << 48u64) | ((b[off + 2] as u64) << 40u64)
        | ((b[off + 3] as u64) << 32u64) | ((b[off + 4] as u64) << 24u64) | ((b[off + 5] as u64)
        << 16u64) | ((b[off + 6] as u64) << 8u64) | (b[off + 7] as u64)
}

/// Reads four big-endian bytes starting at `off`.
pub fn read_u32_be(b: &[u8], off: usize) -> (r: u32)
    requires
        off + 4 <= b@.len(),
    ensures
        r == u32_at(b@, off as int),
{
    ((b[off] as u32) << 24u32) | ((b[off + 1] as u32) << 16u32) | ((b[off + 2] as u32) << 8u32)
        | (b[off + 3] as u32)
}

/// Appends every byte of `src` to `dst`.
pub fn append_bytes(dst: &mut Vec<u8>, src: &[u8])
    ensures
        final(dst)@ == old(dst)@ + src@,
{
    let mut i: usize = 0;
    while i < src.len()
        invariant
            i <= src@.len(),
            dst@ == old(dst)@ + src@.subrange(0, i as int),
        decreases src@.len() - i,
    {
        dst.push(src[i]);
        i = i + 1;
        assert(src@.subrange(0, i as int) =~= src@.subrange(0, i - 1) + seq![src@[i - 1]]);
    }
    assert(src@.subrange(0, src@.len() as int) =~= src@);
}

/// A fresh vector holding `b[start..end]`.
pub fn copy_range(b: &[u8], start: usize, end: usize) -> (r: Vec<u8>)
    requires
        start <= end <= b@.len(),
    ensures
        r@ == b@.subrange(start as int, end as int),
{
    let mut out: Vec<u8> = Vec::new();
    let mut i: usize = start;
    while i < end
        invariant
            start <= i <= end,
            end <= b@.len(),
            out@ == b@.subrange(start as int, i as int),
        decreases end - i,
    {
        out.push(b[i]);
        i = i + 1;
        assert(b@.subrange(start as int, i as int) =~= b@.subrange(start as int, i - 1) + seq![
            b@[i - 1],
        ]);
    }
    out
}

/// The contents of an optional byte vector.
pub open spec fn opt_bytes(o: Option<Vec<u8>>) -> Option<Seq<u8>> {
    match o {
        Some(v) => Some(v@),
        None => None,
    }
}

/// True when `b` ends with `suffix`.
pub open spec fn ends_with(b: Seq<u8>, suffix: Seq<u8>) -> bool {
    suffix.len() <= b.len() && b.subrange(b.len() - suffix.len(), b.len() as int) == suffix
}

} // verus!
