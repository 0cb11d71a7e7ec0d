//! Little-endian (and big-endian 16-bit) field codecs: spec-level byte
//! layouts, executable readers over slices, executable append-style writers,
//! and the round-trip lemmas the attribute codec builds on.

use vstd::prelude::*;

verus! {

/// The little-endian value of a 2-byte sequence.
pub open spec fn spec_u16_le(s: Seq<u8>) -> u16
    recommends
        s.len() == 2,
{
    (s[0] + 256 * (s[1] as int)) as u16
}

/// The little-endian value of a 4-byte sequence.
pub open spec fn spec_u32_le(s: Seq<u8>) -> u32
    recommends
        s.len() == 4,
{
    (s[0] + 256 * (s[1] + 256 * (s[2] + 256 * (s[3] as int)))) as u32
}

/// The little-endian value of an 8-byte sequence.
pub open spec fn spec_u64_le(s: Seq<u8>) -> u64
    recommends
        s.len() == 8,
{
    (s[0] + 256 * (s[1] + 256 * (s[2] + 256 * (s[3] + 256 * (s[4] + 256 * (s[5] + 256 * (s[6]
        + 256 * (s[7] as int)))))))) as u64
}

/// The big-endian value of a 2-byte sequence.
pub open spec fn spec_u16_be(s: Seq<u8>) -> u16
    recommends
        s.len() == 2,
{
    (s[1] + 256 * (s[0] as int)) as u16
}

/// The 2-byte little-endian encoding of a value.
pub open spec fn spec_u16_le_bytes(v: u16) -> Seq<u8> {
    seq![(v % 256) as u8, (v / 256) as u8]
}

/// The 4-byte little-endian encoding of a value.
pub open spec fn spec_u32_le_bytes(v: u32) -> Seq<u8> {
    seq![
        (v % 256) as u8,
        ((v / 256) % 256) as u8,
        ((v / 65536) % 256) as u8,
        (v / 16777216) as u8,
    ]
}

/// The 8-byte little-endian encoding of a value.
pub open spec fn spec_u64_le_bytes(v: u64) -> Seq<u8> {
    seq![
        (v % 256) as u8,
        ((v / 256) % 256) as u8,
        ((v / 65536) % 256) as u8,
        ((v / 16777216) % 256) as u8,
        ((v / 4294967296) % 256) as u8,
        ((v / 1099511627776) % 256) as u8,
        ((v / 281474976710656) % 256) as u8,
        (v / 72057594037927936) as u8,
    ]
}

/// The 2-byte big-endian encoding of a value.
pub open spec fn spec_u16_be_bytes(v: u16) -> Seq<u8> {
    seq![(v / 256) as u8, (v % 256) as u8]
}

/// A run of zero bytes, as emitted for alignment padding.
pub open spec fn spec_zeros(n: int) -> Seq<u8> {
    Seq::new(n as nat, |i: int| 0u8)
}

/// Splitting an integer at a byte boundary: quotient and remainder of the
/// base-256 digit decomposition.
pub proof fn lemma_byte_split(x0: int, t: int)
    requires
        0 <= x0 < 256,
        0 <= t,
    ensures
        (x0 + 256 * t) % 256 == x0,
        (x0 + 256 * t) / 256 == t,
{
    assert((x0 + 256 * t) % 256 == x0 && (x0 + 256 * t) / 256 == t) by (nonlinear_arith)
        requires
            0 <= x0 < 256,
            0 <= t,
    ;
}

/// Encoding then decoding a 16-bit value is the identity.
pub proof fn lemma_u16_le_roundtrip(v: u16)
    ensures
        spec_u16_le(spec_u16_le_bytes(v)) == v,
        spec_u16_le_bytes(v).len() == 2,
{
}

/// Decoding then re-encoding 2 bytes is the identity.
pub proof fn lemma_u16_le_bytes_roundtrip(s: Seq<u8>)
    requires
        s.len() == 2,
    ensures
        spec_u16_le_bytes(spec_u16_le(s)) =~= s,
{
    lemma_byte_split(s[0] as int, s[1] as int);
}

/// Encoding then decoding a 32-bit value is the identity.
pub proof fn lemma_u32_le_roundtrip(v: u32)
    ensures
        spec_u32_le(spec_u32_le_bytes(v)) == v,
        spec_u32_le_bytes(v).len() == 4,
{
    assert(v / 256 / 256 == v / 65536) by (nonlinear_arith);
    assert(v / 256 / 256 / 256 == v / 16777216) by (nonlinear_arith);
}

/// Decoding then re-encoding 4 bytes is the identity.
pub proof fn lemma_u32_le_bytes_roundtrip(s: Seq<u8>)
    requires
        s.len() == 4,
    ensures
        spec_u32_le_bytes(spec_u32_le(s)) =~= s,
{
    let t1 = s[1] + 256 * (s[2] + 256 * (s[3] as int));
    let t2 = s[2] + 256 * (s[3] as int);
    let t3 = s[3] as int;
    let v = s[0] + 256 * t1;
    lemma_byte_split(s[0] as int, t1);
    lemma_byte_split(s[1] as int, t2);
    lemma_byte_split(s[2] as int, t3);
    assert(v / 256 / 256 == v / 65536) by (nonlinear_arith);
    assert(v / 256 / 256 / 256 == v / 16777216) by (nonlinear_arith);
}

/// Encoding then decoding a 64-bit value is the identity.
pub proof fn lemma_u64_le_roundtrip(v: u64)
    ensures
        spec_u64_le(spec_u64_le_bytes(v)) == v,
        spec_u64_le_bytes(v).len() == 8,
{
    assert(v / 256 / 256 == v / 65536) by (nonlinear_arith);
    assert(v / 256 / 256 / 256 == v / 16777216) by (nonlinear_arith);
    assert(v / 16777216 / 256 == v / 4294967296) by (nonlinear_arith);
    assert(v / 4294967296 / 256 == v / 1099511627776) by (nonlinear_arith);
    assert(v / 1099511627776 / 256 == v / 281474976710656) by (nonlinear_arith);
    assert(v / 281474976710656 / 256 == v / 72057594037927936) by (nonlinear_arith);
}

/// Decoding then re-encoding 8 bytes is the identity.
pub proof fn lemma_u64_le_bytes_roundtrip(s: Seq<u8>)
    requires
        s.len() == 8,
    ensures
        spec_u64_le_bytes(spec_u64_le(s)) =~= s,
{
    let t7 = s[7] as int;
    let t6 = s[6] + 256 * t7;
    let t5 = s[5] + 256 * t6;
    let t4 = s[4] + 256 * t5;
    let t3 = s[3] + 256 * t4;
    let t2 = s[2] + 256 * t3;
    let t1 = s[1] + 256 * t2;
    let v = s[0] + 256 * t1;
    lemma_byte_split(s[0] as int, t1);
    lemma_byte_split(s[1] as int, t2);
    lemma_byte_split(s[2] as int, t3);
    lemma_byte_split(s[3] as int, t4);
    lemma_byte_split(s[4] as int, t5);
    lemma_byte_split(s[5] as int, t6);
    lemma_byte_split(s[6] as int, t7);
    assert(v / 256 / 256 == v / 65536) by (nonlinear_arith);
    assert(v / 256 / 256 / 256 == v / 16777216) by (nonlinear_arith);
    assert(v / 16777216 / 256 == v / 4294967296) by (nonlinear_arith);
    assert(v / 4294967296 / 256 == v / 1099511627776) by (nonlinear_arith);
    assert(v / 1099511627776 / 256 == v / 281474976710656) by (nonlinear_arith);
    assert(v / 281474976710656 / 256 == v / 72057594037927936) by (nonlinear_arith);
}

/// Encoding then decoding a big-endian 16-bit value is the identity.
pub proof fn lemma_u16_be_roundtrip(v: u16)
    ensures
        spec_u16_be(spec_u16_be_bytes(v)) == v,
        spec_u16_be_bytes(v).len() == 2,
{
}

/// Decoding then re-encoding 2 big-endian bytes is the identity.
pub proof fn lemma_u16_be_bytes_roundtrip(s: Seq<u8>)
    requires
        s.len() == 2,
    ensures
        spec_u16_be_bytes(spec_u16_be(s)) =~= s,
{
    lemma_byte_split(s[1] as int, s[0] as int);
}

/// Reads the little-endian 16-bit field at `off`.
pub fn read_u16_le_at(b: &[u8], off: usize) -> (r: u16)
    requires
        off + 2 <= b@.len(),
    ensures
        r == spec_u16_le(b@.subrange(off as int, off + 2)),
{
    let n = b.len();
    let b0 = *vstd::slice::slice_index_get(b, off);
    let b1 = *vstd::slice::slice_index_get(b, off + 1);
    (b0 as u16) + 256 * (b1 as u16)
}

/// Reads the little-endian 32-bit field at `off`.
pub fn read_u32_le_at(b: &[u8], off: usize) -> (r: u32)
    requires
        off + 4 <= b@.len(),
    ensures
        r == spec_u32_le(b@.subrange(off as int, off + 4)),
{
    let n = b.len();
    let b0 = *vstd::slice::slice_index_get(b, off);
    let b1 = *vstd::slice::slice_index_get(b, off + 1);
    let b2 = *vstd::slice::slice_index_get(b, off + 2);
    let b3 = *vstd::slice::slice_index_get(b, off + 3);
    (b0 as u32) + 256 * ((b1 as u32) + 256 * ((b2 as u32) + 256 * (b3 as u32)))
}

/// Reads the little-endian 64-bit field at `off`.
pub fn read_u64_le_at(b: &[u8], off: usize) -> (r: u64)
    requires
        off + 8 <= b@.len(),
    ensures
        r == spec_u64_le(b@.subrange(off as int, off + 8)),
{
    let n = b.len();
    let b0 = *vstd::slice::slice_index_get(b, off);
    let b1 = *vstd::slice::slice_index_get(b, off + 1);
    let b2 = *vstd::slice::slice_index_get(b, off + 2);
    let b3 = *vstd::slice::slice_index_get(b, off + 3);
    let b4 = *vstd::slice::slice_index_get(b, off + 4);
    let b5 = *vstd::slice::slice_index_get(b, off + 5);
    let b6 = *vstd::slice::slice_index_get(b, off + 6);
    let b7 = *vstd::slice::slice_index_get(b, off + 7);
    (b0 as u64) + 256 * ((b1 as u64) + 256 * ((b2 as u64) + 256 * ((b3 as u64) + 256 * ((b4
        as u64) + 256 * ((b5 as u64) + 256 * ((b6 as u64) + 256 * (b7 as u64)))))))
}

/// Reads the big-endian 16-bit field at `off`.
pub fn read_u16_be_at(b: &[u8], off: usize) -> (r: u16)
    requires
        off + 2 <= b@.len(),
    ensures
        r == spec_u16_be(b@.subrange(off as int, off + 2)),
{
    let n = b.len();
    let b0 = *vstd::slice::slice_index_get(b, off);
    let b1 = *vstd::slice::slice_index_get(b, off + 1);
    (b1 as u16) + 256 * (b0 as u16)
}

/// Appends the 2-byte little-endian encoding of `v`.
pub fn push_u16_le(out: &mut Vec<u8>, v: u16)
    ensures
        final(out)@ =~= old(out)@ + spec_u16_le_bytes(v),
{
    out.push((v % 256) as u8);
    out.push((v / 256) as u8);
}

/// Appends the 4-byte little-endian encoding of `v`.
pub fn push_u32_le(out: &mut Vec<u8>, v: u32)
    ensures
        final(out)@ =~= old(out)@ + spec_u32_le_bytes(v),
{
    out.push((v % 256) as u8);
    out.push(((v / 256) % 256) as u8);
    out.push(((v / 65536) % 256) as u8);
    out.push((v / 16777216) as u8);
}

/// Appends the 8-byte little-endian encoding of `v`.
pub fn push_u64_le(out: &mut Vec<u8>, v: u64)
    ensures
        final(out)@ =~= old(out)@ + spec_u64_le_bytes(v),
{
    out.push((v % 256) as u8);
    out.push(((v / 256) % 256) as u8);
    out.push(((v / 65536) % 256) as u8);
    out.push(((v / 16777216) % 256) as u8);
    out.push(((v / 4294967296) % 256) as u8);
    out.push(((v / 1099511627776) % 256) as u8);
    out.push(((v / 281474976710656) % 256) as u8);
    out.push((v / 72057594037927936) as u8);
}

/// Appends the 2-byte big-endian encoding of `v`.
pub fn push_u16_be(out: &mut Vec<u8>, v: u16)
    ensures
        final(out)@ =~= old(out)@ + spec_u16_be_bytes(v),
{
    out.push((v / 256) as u8);
    out.push((v % 256) as u8);
}

/// Appends `n` zero bytes.
pub fn push_zeros(out: &mut Vec<u8>, n: usize)
    requires
        old(out)@.len() + n <= usize::MAX,
    ensures
        final(out)@ =~= old(out)@ + spec_zeros(n as int),
{
    let mut i: usize = 0;
    while i < n
        invariant
            i <= n,
            out@.len() == old(out)@.len() + i,
            out@ =~= old(out)@ + spec_zeros(i as int),
        decreases n - i,
    {
        out.push(0u8);
        i = i + 1;
    }
}

/// Writes `src` over the front of `buffer`, leaving the bytes beyond it
/// unchanged: the fill step of the compute-length-then-fill protocol.
pub fn overwrite_prefix(buffer: &mut Vec<u8>, src: &Vec<u8>)
    requires
        src@.len() <= old(buffer)@.len(),
    ensures
        final(buffer)@ =~= src@ + old(buffer)@.skip(src@.len() as int),
{
    let n = src.len();
    let mut i: usize = 0;
    while i < n
        invariant
            i <= n,
            n == src@.len(),
            n <= buffer@.len(),
            buffer@.len() == old(buffer)@.len(),
            buffer@ =~= src@.subrange(0, i as int) + old(buffer)@.skip(i as int),
        decreases n - i,
    {
        buffer[i] = src[i];
        assert(buffer@ =~= src@.subrange(0, i + 1) + old(buffer)@.skip(i + 1));
        i = i + 1;
    }
}

/// Appends a copy of the slice.
pub fn push_slice(out: &mut Vec<u8>, s: &[u8])
    requires
        old(out)@.len() + s@.len() <= usize::MAX,
    ensures
        final(out)@ =~= old(out)@ + s@,
{
    let n = s.len();
    let mut i: usize = 0;
    while i < n
        invariant
            i <= n,
            n == s@.len(),
            out@.len() == old(out)@.len() + i,
            out@ =~= old(out)@ + s@.subrange(0, i as int),
        decreases n - i,
    {
        out.push(*vstd::slice::slice_index_get(s, i));
        i = i + 1;
    }
}

} // verus!
