//! String-valued attribute payloads: a name is sent as its UTF-8 bytes
//! followed by one NUL terminator; on decode a single trailing NUL is
//! tolerated and stripped before UTF-8 validation.

use vstd::prelude::*;

use crate::bytes::push_slice;
use vstd::utf8::{decode_utf8, encode_utf8, valid_utf8};

verus! {

/// The value bytes a name encodes to: its UTF-8 encoding plus one NUL.
pub open spec fn spec_name_value_bytes(name: Seq<char>) -> Seq<u8> {
    encode_utf8(name) + seq![0u8]
}

/// The payload with one trailing NUL byte stripped, if one is present.
pub open spec fn spec_strip_nul(v: Seq<u8>) -> Seq<u8> {
    if v.len() > 0 && v[v.len() - 1] == 0 {
        v.drop_last()
    } else {
        v
    }
}

/// The name a payload decodes to: strip one trailing NUL, then decode UTF-8;
/// invalid UTF-8 yields nothing.
pub open spec fn spec_parse_name(v: Seq<u8>) -> Option<Seq<char>> {
    if valid_utf8(spec_strip_nul(v)) {
        Some(decode_utf8(spec_strip_nul(v)))
    } else {
        None
    }
}

/// Encoding a name and decoding the result recovers the name, for every
/// name.
pub proof fn lemma_name_roundtrip(name: Seq<char>)
    ensures
        spec_parse_name(spec_name_value_bytes(name)) == Some(name),
{
    broadcast use vstd::utf8::encode_utf8_valid_utf8;
    broadcast use vstd::utf8::encode_utf8_decode_utf8;

    let v = spec_name_value_bytes(name);
    assert(spec_strip_nul(v) =~= encode_utf8(name));
}

/// Relies on `String::from_utf8`: returns the string decoded from the bytes
/// exactly when they are valid UTF-8, as `vstd`'s UTF-8 model specifies it.
#[verifier::external_body]
fn string_from_utf8(v: Vec<u8>) -> (r: Option<String>)
    ensures
        match r {
            Some(s) => valid_utf8(v@) && s@ == decode_utf8(v@),
            None => !valid_utf8(v@),
        },
{
    String::from_utf8(v).ok()
}

/// Decodes a name payload, per [`spec_parse_name`].
pub fn parse_name(value: &[u8]) -> (r: Option<String>)
    ensures
        match r {
            Some(s) => spec_parse_name(value@) == Some(s@),
            None => spec_parse_name(value@) is None,
        },
{
    let n = value.len();
    let end = if n > 0 && *vstd::slice::slice_index_get(value, n - 1) == 0 {
        n - 1
    } else {
        n
    };
    let stripped = vstd::slice::slice_subrange(value, 0, end);
    assert(stripped@ =~= spec_strip_nul(value@));
    let owned = vstd::slice::slice_to_vec(stripped);
    string_from_utf8(owned)
}

/// The byte length of a name's encoded payload.
pub fn name_value_len(s: &str) -> (r: usize)
    requires
        spec_name_value_bytes(s@).len() <= usize::MAX,
    ensures
        r == spec_name_value_bytes(s@).len(),
{
    s.len() + 1
}

/// Appends a name's payload: UTF-8 bytes then one NUL.
pub fn push_name(out: &mut Vec<u8>, s: &str)
    requires
        old(out)@.len() + spec_name_value_bytes(s@).len() <= usize::MAX,
    ensures
        final(out)@ =~= old(out)@ + spec_name_value_bytes(s@),
{
    push_slice(out, s.as_bytes());
    out.push(0u8);
}

} // verus!
