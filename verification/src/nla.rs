//! The attribute record codec: one kind/length/value record, its canonical
//! byte form, the checked record header reader every sequence walker uses,
//! and the opaque record that preserves an unrecognized attribute verbatim.

use vstd::prelude::*;

use crate::bytes::{
    push_slice, push_u16_le, push_zeros, read_u16_le_at, spec_u16_le, spec_u16_le_bytes,
    spec_zeros,
};
use crate::error::{DecodeError, ErrorCause};
use crate::spec_align4;

verus! {

/// Bytes of the record header: two for the length, two for the kind.
pub const NLA_HEADER_LEN: usize = 4;

/// The length field of the record starting at the head of `b`: the byte
/// count of header plus value, excluding trailing padding.
pub open spec fn spec_nla_len(b: Seq<u8>) -> u16
    recommends
        b.len() >= 4,
{
    spec_u16_le(b.subrange(0, 2))
}

/// The kind field of the record starting at the head of `b`.
pub open spec fn spec_nla_kind(b: Seq<u8>) -> u16
    recommends
        b.len() >= 4,
{
    spec_u16_le(b.subrange(2, 4))
}

/// Whether the length field of the record at the head of `b` is acceptable:
/// at least the header size, and within the bytes that remain.
pub open spec fn spec_nla_head_valid(b: Seq<u8>) -> bool
    recommends
        b.len() >= 4,
{
    4 <= spec_nla_len(b) <= b.len()
}

/// The value bytes of the record at the head of `b`.
pub open spec fn spec_nla_value(b: Seq<u8>) -> Seq<u8>
    recommends
        b.len() >= 4,
        spec_nla_head_valid(b),
{
    b.subrange(4, spec_nla_len(b) as int)
}

/// How many bytes the record at the head of `b` occupies including trailing
/// alignment padding; padding may legitimately be cut short at the very end
/// of the buffer.
pub open spec fn spec_nla_consumed(b: Seq<u8>) -> int
    recommends
        b.len() >= 4,
        spec_nla_head_valid(b),
{
    if spec_align4(spec_nla_len(b) as int) <= b.len() {
        spec_align4(spec_nla_len(b) as int)
    } else {
        b.len() as int
    }
}

/// The canonical wire form of one record: length and kind header, the value
/// bytes, and zero padding up to the next 4-byte boundary.
pub open spec fn spec_nla_bytes(kind: u16, value: Seq<u8>) -> Seq<u8>
    recommends
        4 + value.len() <= 0xffff,
{
    let len = 4 + value.len() as int;
    spec_u16_le_bytes(len as u16) + spec_u16_le_bytes(kind) + value + spec_zeros(
        spec_align4(len) - len,
    )
}

/// The length of the canonical wire form: the record length rounded up to
/// the 4-byte boundary.
pub proof fn lemma_nla_bytes_len(kind: u16, value: Seq<u8>)
    requires
        4 + value.len() <= 0xffff,
    ensures
        spec_nla_bytes(kind, value).len() == spec_align4(4 + value.len() as int),
        spec_align4(4 + value.len() as int) <= 4 + value.len() + 3,
{
}

/// Reading back the canonical wire form recovers the kind, the value, and a
/// fully consumed record.
pub proof fn lemma_nla_bytes_parse(kind: u16, value: Seq<u8>, rest: Seq<u8>)
    requires
        4 + value.len() <= 0xffff,
    ensures
        ({
            let b = spec_nla_bytes(kind, value) + rest;
            &&& b.len() >= 4
            &&& spec_nla_len(b) == 4 + value.len()
            &&& spec_nla_kind(b) == kind
            &&& spec_nla_head_valid(b)
            &&& spec_nla_value(b) =~= value
            &&& spec_nla_consumed(b) == if rest.len() == 0 {
                b.len() as int
            } else {
                spec_align4(4 + value.len() as int)
            }
            &&& b.skip(spec_nla_consumed(b)) =~= rest
        }),
{
    let len = 4 + value.len() as int;
    let b = spec_nla_bytes(kind, value) + rest;
    crate::bytes::lemma_u16_le_roundtrip((4 + value.len()) as u16);
    crate::bytes::lemma_u16_le_roundtrip(kind);
    assert(b.subrange(0, 2) =~= spec_u16_le_bytes(len as u16));
    assert(b.subrange(2, 4) =~= spec_u16_le_bytes(kind));
    assert(b.subrange(4, len) =~= value);
}

/// An attribute record held as raw bytes: the fallback representation for a
/// kind outside the known catalog, preserved verbatim for re-encoding.
#[derive(Debug, PartialEq, Eq, Clone)]
pub struct DefaultNla {
    pub kind: u16,
    pub value: Vec<u8>,
}

/// The mathematical form of a raw attribute record.
pub ghost struct DefaultNlaV {
    pub kind: u16,
    pub value: Seq<u8>,
}

impl View for DefaultNla {
    type V = DefaultNlaV;

    open spec fn view(&self) -> DefaultNlaV {
        DefaultNlaV { kind: self.kind, value: self.value@ }
    }
}

impl DefaultNla {
    /// A raw record from its kind code and value bytes.
    pub fn new(kind: u16, value: Vec<u8>) -> (r: DefaultNla)
        ensures
            r@ == (DefaultNlaV { kind, value: value@ }),
    {
        DefaultNla { kind, value }
    }

    /// The byte length of the value, excluding header and padding.
    pub fn value_len(&self) -> (r: usize)
        ensures
            r == self.value@.len(),
    {
        self.value.len()
    }

    /// Appends the value bytes, without header or padding.
    pub fn emit_value(&self, out: &mut Vec<u8>)
        requires
            old(out)@.len() + self.value@.len() <= usize::MAX,
        ensures
            final(out)@ =~= old(out)@ + self.value@,
    {
        push_slice(out, self.value.as_slice());
    }
}

/// A view over bytes positioned at a candidate attribute record.
pub struct NlaBuffer<'a> {
    data: &'a [u8],
}

impl<'a> View for NlaBuffer<'a> {
    type V = Seq<u8>;

    closed spec fn view(&self) -> Seq<u8> {
        self.data@
    }
}

impl<'a> NlaBuffer<'a> {
    /// Wraps bytes without validating them; accessors demand a valid record.
    pub fn new(data: &'a [u8]) -> (r: NlaBuffer<'a>)
        ensures
            r@ == data@,
    {
        NlaBuffer { data }
    }

    /// Wraps bytes after checking that a whole record is present: at least a
    /// header, and a length field covering the header and lying within the
    /// buffer.
    pub fn new_checked(data: &'a [u8]) -> (r: Result<NlaBuffer<'a>, DecodeError>)
        ensures
            match r {
                Ok(buf) => buf@ == data@ && data@.len() >= 4 && spec_nla_head_valid(data@),
                Err(_) => data@.len() < 4 || !spec_nla_head_valid(data@),
            },
    {
        let n = data.len();
        if n < NLA_HEADER_LEN {
            return Err(
                DecodeError::new(ErrorCause::BufferTooShort { required: NLA_HEADER_LEN, actual: n }),
            );
        }
        let len = read_u16_le_at(data, 0);
        if len < 4 || (len as usize) > n {
            return Err(
                DecodeError::new(ErrorCause::InvalidAttributeLength { offset: 0, length: len }),
            );
        }
        Ok(NlaBuffer { data })
    }

    /// The number of bytes in the wrapped buffer.
    pub fn len(&self) -> (r: usize)
        ensures
            r == self@.len(),
    {
        self.data.len()
    }

    /// The record's length field.
    pub fn length(&self) -> (r: u16)
        requires
            self@.len() >= 4,
        ensures
            r == spec_nla_len(self@),
    {
        read_u16_le_at(self.data, 0)
    }

    /// The record's kind field.
    pub fn kind(&self) -> (r: u16)
        requires
            self@.len() >= 4,
        ensures
            r == spec_nla_kind(self@),
    {
        read_u16_le_at(self.data, 2)
    }

    /// The record's value bytes.
    pub fn value(&self) -> (r: &'a [u8])
        requires
            self@.len() >= 4,
            spec_nla_head_valid(self@),
        ensures
            r@ == spec_nla_value(self@),
    {
        let len = read_u16_le_at(self.data, 0);
        vstd::slice::slice_subrange(self.data, 4, len as usize)
    }
}

/// Reads and validates the header of the record starting at `off`, returning
/// its kind, its value slice, and the total bytes it occupies with padding.
pub fn split_nla_at<'a>(b: &'a [u8], off: usize) -> (r: Result<(u16, &'a [u8], usize), DecodeError>)
    requires
        off + 4 <= b@.len(),
    ensures
        match r {
            Ok((kind, value, consumed)) => {
                let s = b@.skip(off as int);
                &&& spec_nla_head_valid(s)
                &&& kind == spec_nla_kind(s)
                &&& value@ == spec_nla_value(s)
                &&& consumed == spec_nla_consumed(s)
                &&& 4 <= consumed
                &&& off + consumed <= b@.len()
                &&& value@.len() + 4 <= 0xffff
                &&& value@.len() + 4 <= s.len()
            },
            Err(_) => !spec_nla_head_valid(b@.skip(off as int)),
        },
{
    let n = b.len();
    let ghost s = b@.skip(off as int);
    let len = read_u16_le_at(b, off);
    assert(b@.subrange(off as int, off + 2) =~= s.subrange(0, 2));
    if len < 4 || (len as usize) > n - off {
        return Err(DecodeError::new(ErrorCause::InvalidAttributeLength { offset: off, length: len }));
    }
    let kind = read_u16_le_at(b, off + 2);
    assert(b@.subrange(off + 2, off + 4) =~= s.subrange(2, 4));
    let value = vstd::slice::slice_subrange(b, off + 4, off + len as usize);
    assert(value@ =~= s.subrange(4, spec_nla_len(s) as int));
    let padded = crate::align4(len as usize);
    let consumed = if padded <= n - off {
        padded
    } else {
        n - off
    };
    Ok((kind, value, consumed))
}

/// Appends the canonical wire form of one record: header, value, padding.
pub fn push_nla(out: &mut Vec<u8>, kind: u16, value: &[u8])
    requires
        4 + value@.len() <= 0xffff,
        old(out)@.len() + spec_align4(4 + value@.len() as int) <= usize::MAX,
    ensures
        final(out)@ =~= old(out)@ + spec_nla_bytes(kind, value@),
{
    let vl = value.len();
    let len = (4 + vl) as u16;
    push_u16_le(out, len);
    push_u16_le(out, kind);
    push_slice(out, value);
    let padded = crate::align4(4 + vl);
    push_zeros(out, padded - (4 + vl));
}

} // verus!
