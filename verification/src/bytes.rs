//! Little-endian primitive layer of the wire format.
//!
//! Every integer on the wire is fixed-width little-endian.  The spec
//! functions here define the exact byte image of each width, and the
//! exec functions append to / read from byte buffers against them.

use vstd::prelude::*;

verus! {

/// Byte image of a `u16`, least significant byte first.
pub open spec fn u16_le(v: u16) -> Seq<u8> {
    seq![(v & 0xff) as u8, ((v >> 8) & 0xff) as u8]
}

/// Byte image of a `u32`, least significant byte first.
pub open spec fn u32_le(v: u32) -> Seq<u8> {
    seq![
        (v & 0xff) as u8,
        ((v >> 8) & 0xff) as u8,
        ((v >> 16) & 0xff) as u8,
        ((v >> 24) & 0xff) as u8,
    ]
}

/// Byte image of a `u64`, least significant byte first.
pub open spec fn u64_le(v: u64) -> Seq<u8> {
    seq![
        (v & 0xff) as u8,
        ((v >> 8) & 0xff) as u8,
        ((v >> 16) & 0xff) as u8,
        ((v >> 24) & 0xff) as u8,
        ((v >> 32) & 0xff) as u8,
        ((v >> 40) & 0xff) as u8,
        ((v >> 48) & 0xff) as u8,
        ((v >> 56) & 0xff) as u8,
    ]
}

/// An `i64` is written as its two's-complement `u64` image.
pub open spec fn i64_le(v: i64) -> Seq<u8> {
    u64_le(v as u64)
}

/// `n` zero bytes, used for padding absent options and short union variants.
pub open spec fn zeros(n: int) -> Seq<u8> {
    Seq::new(n as nat, |i: int| 0u8)
}

/// The `u16` denoted by two little-endian bytes at `off`.
pub open spec fn le_u16(s: Seq<u8>, off: int) -> u16 {
    (s[off] as u16) | ((s[off + 1] as u16) << 8)
}

/// The `u32` denoted by four little-endian bytes at `off`.
pub open spec fn le_u32(s: Seq<u8>, off: int) -> u32 {
    (s[off] as u32) | ((s[off + 1] as u32) << 8) | ((s[off + 2] as u32) << 16) | ((s[off + 3]
        as u32) << 24)
}

/// The `u64` denoted by eight little-endian bytes at `off`.
pub open spec fn le_u64(s: Seq<u8>, off: int) -> u64 {
    (s[off] as u64) | ((s[off + 1] as u64) << 8) | ((s[off + 2] as u64) << 16) | ((s[off + 3]
        as u64) << 24) | ((s[off + 4] as u64) << 32) | ((s[off + 5] as u64) << 40) | ((s[off + 6]
        as u64) << 48) | ((s[off + 7] as u64) << 56)
}

/// The `i64` denoted by eight little-endian bytes at `off`.
pub open spec fn le_i64(s: Seq<u8>, off: int) -> i64 {
    le_u64(s, off) as i64
}

/// Reading back the two bytes of `u16_le` yields the value again.
pub proof fn lemma_u16_round_trip(v: u16)
    ensures
        le_u16(u16_le(v), 0) == v,
{
    let b0 = (v & 0xff) as u8;
    let b1 = ((v >> 8) & 0xff) as u8;
    assert((b0 as u16) | ((b1 as u16) << 8) == v) by (bit_vector)
        requires
            b0 == (v & 0xff) as u8,
            b1 == ((v >> 8) & 0xff) as u8,
    ;
}

/// Reading back the four bytes of `u32_le` yields the value again.
pub proof fn lemma_u32_round_trip(v: u32)
    ensures
        le_u32(u32_le(v), 0) == v,
{
    let b0 = (v & 0xff) as u8;
    let b1 = ((v >> 8) & 0xff) as u8;
    let b2 = ((v >> 16) & 0xff) as u8;
    let b3 = ((v >> 24) & 0xff) as u8;
    assert((b0 as u32) | ((b1 as u32) << 8) | ((b2 as u32) << 16) | ((b3 as u32) << 24) == v)
        by (bit_vector)
        requires
            b0 == (v & 0xff) as u8,
            b1 == ((v >> 8) & 0xff) as u8,
            b2 == ((v >> 16) & 0xff) as u8,
            b3 == ((v >> 24) & 0xff) as u8,
    ;
}

/// Reading back the eight bytes of `u64_le` yields the value again.
pub proof fn lemma_u64_round_trip(v: u64)
    ensures
        le_u64(u64_le(v), 0) == v,
{
    let b0 = (v & 0xff) as u8;
    let b1 = ((v >> 8) & 0xff) as u8;
    let b2 = ((v >> 16) & 0xff) as u8;
    let b3 = ((v >> 24) & 0xff) as u8;
    let b4 = ((v >> 32) & 0xff) as u8;
    let b5 = ((v >> 40) & 0xff) as u8;
    let b6 = ((v >> 48) & 0xff) as u8;
    let b7 = ((v >> 56) & 0xff) as u8;
    assert((b0 as u64) | ((b1 as u64) << 8) | ((b2 as u64) << 16) | ((b3 as u64) << 24) | ((b4
        as u64) << 32) | ((b5 as u64) << 40) | ((b6 as u64) << 48) | ((b7 as u64) << 56) == v)
        by (bit_vector)
        requires
            b0 == (v & 0xff) as u8,
            b1 == ((v >> 8) & 0xff) as u8,
            b2 == ((v >> 16) & 0xff) as u8,
            b3 == ((v >> 24) & 0xff) as u8,
            b4 == ((v >> 32) & 0xff) as u8,
            b5 == ((v >> 40) & 0xff) as u8,
            b6 == ((v >> 48) & 0xff) as u8,
            b7 == ((v >> 56) & 0xff) as u8,
    ;
}

/// Reading back the eight bytes of `i64_le` yields the value again.
pub proof fn lemma_i64_round_trip(v: i64)
    ensures
        le_i64(i64_le(v), 0) == v,
{
    lemma_u64_round_trip(v as u64);
    assert((v as u64) as i64 == v) by (bit_vector);
}

/// `le_u16` reads only the two bytes at `off`, so it is stable under
/// agreement of those bytes between two buffers.
pub proof fn lemma_le_u16_local(s1: Seq<u8>, off1: int, s2: Seq<u8>, off2: int)
    requires
        s1[off1] == s2[off2],
        s1[off1 + 1] == s2[off2 + 1],
    ensures
        le_u16(s1, off1) == le_u16(s2, off2),
{
}

/// `le_u32` reads only the four bytes at `off`.
pub proof fn lemma_le_u32_local(s1: Seq<u8>, off1: int, s2: Seq<u8>, off2: int)
    requires
        forall|i: int| 0 <= i < 4 ==> #[trigger] s1[off1 + i] == s2[off2 + i],
    ensures
        le_u32(s1, off1) == le_u32(s2, off2),
{
    assert(s1[off1 + 0] == s2[off2 + 0]);
    assert(s1[off1 + 1] == s2[off2 + 1]);
    assert(s1[off1 + 2] == s2[off2 + 2]);
    assert(s1[off1 + 3] == s2[off2 + 3]);
}

/// `le_u64` reads only the eight bytes at `off`.
pub proof fn lemma_le_u64_local(s1: Seq<u8>, off1: int, s2: Seq<u8>, off2: int)
    requires
        forall|i: int| 0 <= i < 8 ==> #[trigger] s1[off1 + i] == s2[off2 + i],
    ensures
        le_u64(s1, off1) == le_u64(s2, off2),
{
    assert(s1[off1 + 0] == s2[off2 + 0]);
    assert(s1[off1 + 1] == s2[off2 + 1]);
    assert(s1[off1 + 2] == s2[off2 + 2]);
    assert(s1[off1 + 3] == s2[off2 + 3]);
    assert(s1[off1 + 4] == s2[off2 + 4]);
    assert(s1[off1 + 5] == s2[off2 + 5]);
    assert(s1[off1 + 6] == s2[off2 + 6]);
    assert(s1[off1 + 7] == s2[off2 + 7]);
}

/// Append the two-byte image of `v`.
pub fn push_u16(out: &mut Vec<u8>, v: u16)
    ensures
        final(out)@ == old(out)@ + u16_le(v),
{
    out.push((v & 0xff) as u8);
    out.push(((v >> 8) & 0xff) as u8);
    assert(out@ =~= old(out)@ + u16_le(v));
}

/// Append the four-byte image of `v`.
pub fn push_u32(out: &mut Vec<u8>, v: u32)
    ensures
        final(out)@ == old(out)@ + u32_le(v),
{
    out.push((v & 0xff) as u8);
    out.push(((v >> 8) & 0xff) as u8);
    out.push(((v >> 16) & 0xff) as u8);
    out.push(((v >> 24) & 0xff) as u8);
    assert(out@ =~= old(out)@ + u32_le(v));
}

/// Append the eight-byte image of `v`.
pub fn push_u64(out: &mut Vec<u8>, v: u64)
    ensures
        final(out)@ == old(out)@ + u64_le(v),
{
    out.push((v & 0xff) as u8);
    out.push(((v >> 8) & 0xff) as u8);
    out.push(((v >> 16) & 0xff) as u8);
    out.push(((v >> 24) & 0xff) as u8);
    out.push(((v >> 32) & 0xff) as u8);
    out.push(((v >> 40) & 0xff) as u8);
    out.push(((v >> 48) & 0xff) as u8);
    out.push(((v >> 56) & 0xff) as u8);
    assert(out@ =~= old(out)@ + u64_le(v));
}

/// Append the eight-byte two's-complement image of `v`.
pub fn push_i64(out: &mut Vec<u8>, v: i64)
    ensures
        final(out)@ == old(out)@ + i64_le(v),
{
    push_u64(out, v as u64);
}

/// Append `n` zero bytes.
pub fn push_zeros(out: &mut Vec<u8>, n: usize)
    ensures
        final(out)@ == old(out)@ + zeros(n as int),
{
    let mut i: usize = 0;
    while i < n
        invariant
            i <= n,
            out@ == old(out)@ + zeros(i as int),
        decreases n - i,
    {
        out.push(0u8);
        assert(out@ =~= old(out)@ + zeros(i + 1));
        i = i + 1;
    }
}

/// Append every byte of `data`.
pub fn push_bytes(out: &mut Vec<u8>, data: &Vec<u8>)
    ensures
        final(out)@ == old(out)@ + data@,
{
    let mut i: usize = 0;
    while i < data.len()
        invariant
            i <= data@.len(),
            out@ == old(out)@ + data@.subrange(0, i as int),
        decreases data@.len() - i,
    {
        out.push(data[i]);
        assert(out@ =~= old(out)@ + data@.subrange(0, i + 1));
        i = i + 1;
    }
    assert(data@.subrange(0, data@.len() as int) =~= data@);
}

/// Read the `u16` at `off`.
pub fn read_u16(buf: &[u8], off: usize) -> (r: u16)
    requires
        off + 2 <= buf@.len(),
    ensures
        r == le_u16(buf@, off as int),
{
    (buf[off] as u16) | ((buf[off + 1] as u16) << 8)
}

/// Read the `u32` at `off`.
pub fn read_u32(buf: &[u8], off: usize) -> (r: u32)
    requires
        off + 4 <= buf@.len(),
    ensures
        r == le_u32(buf@, off as int),
{
    (buf[off] as u32) | ((buf[off + 1] as u32) << 8) | ((buf[off + 2] as u32) << 16) | ((buf[off
        + 3] as u32) << 24)
}

/// Read the `u64` at `off`.
pub fn read_u64(buf: &[u8], off: usize) -> (r: u64)
    requires
        off + 8 <= buf@.len(),
    ensures
        r == le_u64(buf@, off as int),
{
    (buf[off] as u64) | ((buf[off + 1] as u64) << 8) | ((buf[off + 2] as u64) << 16) | ((buf[off
        + 3] as u64) << 24) | ((buf[off + 4] as u64) << 32) | ((buf[off + 5] as u64) << 40) | ((
    buf[off + 6] as u64) << 48) | ((buf[off + 7] as u64) << 56)
}

/// Read the `i64` at `off`.
pub fn read_i64(buf: &[u8], off: usize) -> (r: i64)
    requires
        off + 8 <= buf@.len(),
    ensures
        r == le_i64(buf@, off as int),
{
    read_u64(buf, off) as i64
}


/// Reading where the two bytes of `u16_le(v)` lie yields `v`.
pub proof fn lemma_le_u16_sub(s: Seq<u8>, off: int, v: u16)
    requires
        0 <= off,
        off + 2 <= s.len(),
        s.subrange(off, off + 2) == u16_le(v),
    ensures
        le_u16(s, off) == v,
{
    assert(s.subrange(off, off + 2)[0] == s[off]);
    assert(s.subrange(off, off + 2)[1] == s[off + 1]);
    lemma_le_u16_local(s, off, u16_le(v), 0);
    lemma_u16_round_trip(v);
}

/// Reading where the four bytes of `u32_le(v)` lie yields `v`.
pub proof fn lemma_le_u32_sub(s: Seq<u8>, off: int, v: u32)
    requires
        0 <= off,
        off + 4 <= s.len(),
        s.subrange(off, off + 4) == u32_le(v),
    ensures
        le_u32(s, off) == v,
{
    assert forall|i: int| 0 <= i < 4 implies #[trigger] s[off + i] == u32_le(v)[0 + i] by {
        assert(s.subrange(off, off + 4)[i] == s[off + i]);
    }
    lemma_le_u32_local(s, off, u32_le(v), 0);
    lemma_u32_round_trip(v);
}

/// Reading where the eight bytes of `u64_le(v)` lie yields `v`.
pub proof fn lemma_le_u64_sub(s: Seq<u8>, off: int, v: u64)
    requires
        0 <= off,
        off + 8 <= s.len(),
        s.subrange(off, off + 8) == u64_le(v),
    ensures
        le_u64(s, off) == v,
{
    assert forall|i: int| 0 <= i < 8 implies #[trigger] s[off + i] == u64_le(v)[0 + i] by {
        assert(s.subrange(off, off + 8)[i] == s[off + i]);
    }
    lemma_le_u64_local(s, off, u64_le(v), 0);
    lemma_u64_round_trip(v);
}

/// Reading where the eight bytes of `i64_le(v)` lie yields `v`.
pub proof fn lemma_le_i64_sub(s: Seq<u8>, off: int, v: i64)
    requires
        0 <= off,
        off + 8 <= s.len(),
        s.subrange(off, off + 8) == i64_le(v),
    ensures
        le_i64(s, off) == v,
{
    lemma_le_u64_sub(s, off, v as u64);
    assert((v as u64) as i64 == v) by (bit_vector);
}

} // verus!
