//! The link message: a fixed 16-byte header followed by an attribute
//! sequence, decoded under the address family the header supplies and
//! re-encoded by the two-phase compute-length-then-fill protocol.

use vstd::prelude::*;

use crate::address_family::AddressFamily;
use crate::error::{DecodeError, ErrorCause, ErrorFrame};
use crate::link::attribute::{
    spec_link_attr_canonical, spec_link_attr_kind, spec_link_attr_value, spec_link_attr_wf,
    spec_view_link_attr, LinkAttribute, LinkAttributeV,
};
use crate::link::header::{
    spec_link_header_bytes, spec_link_header_canonical, spec_parse_link_header, LinkHeader,
    LINK_HEADER_LEN,
};
use crate::nla::{
    spec_nla_bytes, spec_nla_consumed, spec_nla_head_valid, spec_nla_kind, spec_nla_value,
    split_nla_at,
};

verus! {

broadcast use
    vstd::seq::axiom_seq_index_decreases,
    vstd::seq::axiom_seq_subrange_decreases,
    vstd::std_specs::vec::axiom_vec_index_decreases,
;

/// The mathematical forms of the attributes held in a vector, in order.
pub open spec fn spec_view_link_attrs_from(v: Vec<LinkAttribute>, i: int) -> Seq<LinkAttributeV>
    decreases v, v@.len() - i,
{
    if i < 0 || i >= v@.len() {
        Seq::empty()
    } else {
        seq![spec_view_link_attr(v@[i])] + spec_view_link_attrs_from(v, i + 1)
    }
}

/// The mathematical form of an attribute vector.
pub open spec fn spec_view_link_attrs(v: Vec<LinkAttribute>) -> Seq<LinkAttributeV> {
    spec_view_link_attrs_from(v, 0)
}

/// The viewed sequence has the vector's length and views its elements in
/// place.
pub proof fn lemma_view_link_attrs_from(v: Vec<LinkAttribute>, i: int)
    requires
        0 <= i <= v@.len(),
    ensures
        spec_view_link_attrs_from(v, i).len() == v@.len() - i,
        forall|j: int|
            i <= j < v@.len() ==> spec_view_link_attrs_from(v, i)[j - i] == spec_view_link_attr(
                v@[j],
            ),
    decreases v@.len() - i,
{
    if i < v@.len() {
        lemma_view_link_attrs_from(v, i + 1);
    }
}

/// Elementwise characterization of [`spec_view_link_attrs`].
pub broadcast proof fn lemma_view_link_attrs(v: Vec<LinkAttribute>)
    ensures
        (#[trigger] spec_view_link_attrs(v)).len() == v@.len(),
        forall|j: int|
            0 <= j < v@.len() ==> spec_view_link_attrs(v)[j] == spec_view_link_attr(v@[j]),
{
    lemma_view_link_attrs_from(v, 0);
}

/// The wire bytes of an attribute sequence: each attribute's record, with
/// its padding, in order.
pub open spec fn spec_link_attrs_bytes(s: Seq<LinkAttributeV>) -> Seq<u8>
    decreases s,
{
    if s.len() == 0 {
        Seq::empty()
    } else {
        spec_nla_bytes(spec_link_attr_kind(s[0]), spec_link_attr_value(s[0]))
            + spec_link_attrs_bytes(s.drop_first())
    }
}

/// Every attribute of the sequence, recursively, fits its 16-bit record
/// length.
pub open spec fn spec_link_attrs_wf(s: Seq<LinkAttributeV>) -> bool
    decreases s,
{
    if s.len() == 0 {
        true
    } else {
        spec_link_attr_wf(s[0]) && spec_link_attrs_wf(s.drop_first())
    }
}

/// Each attribute of a well-formed sequence is well formed.
pub proof fn lemma_link_attrs_wf_index(s: Seq<LinkAttributeV>, i: int)
    requires
        spec_link_attrs_wf(s),
        0 <= i < s.len(),
    ensures
        spec_link_attr_wf(s[i]),
    decreases s.len(),
{
    if i > 0 {
        lemma_link_attrs_wf_index(s.drop_first(), i - 1);
    }
}

/// Every attribute of the sequence is one the decoder can produce.
pub open spec fn spec_link_attrs_canonical(s: Seq<LinkAttributeV>) -> bool
    decreases s,
{
    if s.len() == 0 {
        true
    } else {
        spec_link_attr_canonical(s[0]) && spec_link_attrs_canonical(s.drop_first())
    }
}

/// The mathematical form of a link message.
pub ghost struct LinkMessageV {
    pub header: LinkHeader,
    pub nlas: Seq<LinkAttributeV>,
}

/// The wire bytes of a whole link message: header bytes, then the attribute
/// records.
pub open spec fn spec_link_message_bytes(m: LinkMessageV) -> Seq<u8>
    decreases m,
{
    spec_link_header_bytes(m.header) + spec_link_attrs_bytes(m.nlas)
}

/// A message whose attributes all fit their record length fields.
pub open spec fn spec_link_message_wf(m: LinkMessageV) -> bool
    decreases m,
{
    spec_link_attrs_wf(m.nlas)
}

/// A message the decoder can produce.
pub open spec fn spec_link_message_canonical(m: LinkMessageV) -> bool
    decreases m,
{
    &&& spec_link_header_canonical(m.header)
    &&& spec_link_attrs_canonical(m.nlas)
}

/// The attribute sequence a buffer decodes to under the given family:
/// fewer than 4 remaining bytes end the sequence cleanly; a record whose
/// length field is invalid, or a malformed known-kind payload, fails the
/// whole sequence.
pub open spec fn spec_parse_link_attrs(b: Seq<u8>, family: AddressFamily) -> Option<
    Seq<LinkAttributeV>,
>
    decreases b.len(), 7int,
{
    if b.len() < 4 {
        Some(Seq::empty())
    } else if !spec_nla_head_valid(b) {
        None
    } else {
        let kind = spec_nla_kind(b);
        let value = spec_nla_value(b);
        let rest = b.skip(spec_nla_consumed(b));
        match crate::link::attribute::spec_parse_link_attr(kind, value, family) {
            None => None,
            Some(a) => match spec_parse_link_attrs(rest, family) {
                None => None,
                Some(s) => Some(seq![a] + s),
            },
        }
    }
}

/// The message a buffer decodes to: the fixed header, then the attribute
/// sequence under the header's address family.
pub open spec fn spec_parse_link_message(b: Seq<u8>) -> Option<LinkMessageV>
    decreases b.len(), 0int,
{
    if b.len() < 16 {
        None
    } else {
        let header = spec_parse_link_header(b);
        match spec_parse_link_attrs(b.skip(16), header.interface_family) {
            None => None,
            Some(s) => Some(LinkMessageV { header, nlas: s }),
        }
    }
}

/// A view over bytes positioned at a candidate link message.
pub struct LinkMessageBuffer<'a> {
    data: &'a [u8],
}

impl<'a> View for LinkMessageBuffer<'a> {
    type V = Seq<u8>;

    closed spec fn view(&self) -> Seq<u8> {
        self.data@
    }
}

impl<'a> LinkMessageBuffer<'a> {
    /// Wraps bytes without validating them.
    pub fn new(data: &'a [u8]) -> (r: LinkMessageBuffer<'a>)
        ensures
            r@ == data@,
    {
        LinkMessageBuffer { data }
    }

    /// Wraps bytes after checking that the fixed header is present.
    pub fn new_checked(data: &'a [u8]) -> (r: Result<LinkMessageBuffer<'a>, DecodeError>)
        ensures
            match r {
                Ok(buf) => buf@ == data@ && data@.len() >= 16,
                Err(_) => data@.len() < 16,
            },
    {
        let n = data.len();
        if n < LINK_HEADER_LEN {
            Err(
                DecodeError::new(
                    ErrorCause::BufferTooShort { required: LINK_HEADER_LEN, actual: n },
                ),
            )
        } else {
            Ok(LinkMessageBuffer { data })
        }
    }
}

/// Walks a buffer as a sequence of attribute records, dispatching each to
/// its typed attribute, per [`spec_parse_link_attrs`].
pub fn parse_link_attrs_bytes(b: &[u8], family: AddressFamily) -> (r: Result<
    Vec<LinkAttribute>,
    DecodeError,
>)
    ensures
        match r {
            Ok(v) => spec_parse_link_attrs(b@, family) == Some(spec_view_link_attrs(v)),
            Err(_) => spec_parse_link_attrs(b@, family) is None,
        },
    decreases b@.len(), 0int,
{
    let n = b.len();
    let mut nlas: Vec<LinkAttribute> = Vec::new();
    let ghost mut prefix: Seq<LinkAttributeV> = Seq::empty();
    let mut off: usize = 0;
    proof {
        assert(b@.skip(0) =~= b@);
        match spec_parse_link_attrs(b@, family) {
            Some(s) => {
                assert(Seq::<LinkAttributeV>::empty() + s =~= s);
            },
            None => {},
        }
    }
    while n - off >= 4
        invariant
            off <= n,
            n == b@.len(),
            nlas@.len() == prefix.len(),
            forall|j: int| 0 <= j < prefix.len() ==> spec_view_link_attr(#[trigger] nlas@[j]) == prefix[j],
            spec_parse_link_attrs(b@, family) == (match spec_parse_link_attrs(
                b@.skip(off as int),
                family,
            ) {
                None => None::<Seq<LinkAttributeV>>,
                Some(s) => Some(prefix + s),
            }),
        decreases n - off,
    {
        let ghost suffix = b@.skip(off as int);
        match split_nla_at(b, off) {
            Err(e) => {
                return Err(e.context(ErrorFrame::LinkAttributes));
            },
            Ok((kind, value, consumed)) => {
                match LinkAttribute::parse_raw(kind, value, family) {
                    Err(e) => {
                        return Err(e.context(ErrorFrame::LinkAttributes));
                    },
                    Ok(a) => {
                        proof {
                            let new_suffix = b@.skip(off + consumed);
                            assert(new_suffix =~= suffix.skip(consumed as int));
                            assert(spec_parse_link_attrs(suffix, family) == (
                            match spec_parse_link_attrs(new_suffix, family) {
                                None => None::<Seq<LinkAttributeV>>,
                                Some(s) => Some(seq![a@] + s),
                            }));
                            match spec_parse_link_attrs(new_suffix, family) {
                                Some(s2) => {
                                    assert((prefix + (seq![a@] + s2)) =~= (prefix.push(a@) + s2));
                                },
                                None => {},
                            }
                        }
                        nlas.push(a);
                        proof {
                            prefix = prefix.push(a@);
                        }
                        off = off + consumed;
                    },
                }
            },
        }
    }
    proof {
        assert(b@.skip(off as int).len() < 4);
        assert(spec_parse_link_attrs(b@.skip(off as int), family) == Some(
            Seq::<LinkAttributeV>::empty(),
        ));
        assert(prefix + Seq::<LinkAttributeV>::empty() =~= prefix);
        lemma_view_link_attrs(nlas);
        assert(spec_view_link_attrs(nlas) =~= prefix);
    }
    Ok(nlas)
}

/// Decodes the attribute sequence of a link message under an explicit
/// address family: the parameterized counterpart of [`LinkMessage::parse`],
/// for callers that supply the context themselves.
pub fn parse_link_attributes<'a>(buf: &LinkMessageBuffer<'a>, family: AddressFamily) -> (r: Result<
    Vec<LinkAttribute>,
    DecodeError,
>)
    requires
        buf@.len() >= 16,
    ensures
        match r {
            Ok(v) => spec_parse_link_attrs(buf@.skip(16), family) == Some(spec_view_link_attrs(v)),
            Err(_) => spec_parse_link_attrs(buf@.skip(16), family) is None,
        },
{
    let n = buf.data.len();
    let rest = vstd::slice::slice_subrange(buf.data, LINK_HEADER_LEN, n);
    assert(rest@ =~= buf@.skip(16));
    parse_link_attrs_bytes(rest, family)
}

/// A link message: the fixed header and its attribute sequence.
#[derive(Debug, PartialEq, Eq)]
pub struct LinkMessage {
    pub header: LinkHeader,
    pub nlas: Vec<LinkAttribute>,
}

/// The mathematical form of a link message value.
pub open spec fn spec_view_link_message(m: LinkMessage) -> LinkMessageV
    decreases m,
{
    LinkMessageV { header: m.header, nlas: spec_view_link_attrs_from(m.nlas, 0) }
}

impl View for LinkMessage {
    type V = LinkMessageV;

    open spec fn view(&self) -> LinkMessageV {
        spec_view_link_message(*self)
    }
}

impl Default for LinkMessage {
    /// A message with a zeroed header and no attributes.
    fn default() -> (r: Self)
        ensures
            r.header == (LinkHeader {
                interface_family: crate::address_family::AddressFamily::Unspec,
                index: 0,
                link_layer_type: crate::link::header::LinkLayerType::Netrom,
                flags: 0,
                change_mask: 0,
            }),
            r.nlas@.len() == 0,
    {
        LinkMessage { header: LinkHeader::default(), nlas: Vec::new() }
    }
}

impl LinkMessage {
    /// Decodes a link message, per [`spec_parse_link_message`]: the fixed
    /// header first, whose address family is then the context under which
    /// the attribute sequence is dispatched.
    pub fn parse<'a>(buf: &LinkMessageBuffer<'a>) -> (r: Result<LinkMessage, DecodeError>)
        ensures
            match r {
                Ok(m) => spec_parse_link_message(buf@) == Some(m@),
                Err(_) => spec_parse_link_message(buf@) is None,
            },
        decreases buf@.len(), 1int,
    {
        Self::parse_bytes(buf.data)
    }

    /// Decodes a link message from raw bytes, per
    /// [`spec_parse_link_message`].
    pub fn parse_bytes(b: &[u8]) -> (r: Result<LinkMessage, DecodeError>)
        ensures
            match r {
                Ok(m) => spec_parse_link_message(b@) == Some(m@),
                Err(_) => spec_parse_link_message(b@) is None,
            },
        decreases b@.len(), 0int,
    {
        let n = b.len();
        if n < LINK_HEADER_LEN {
            return Err(
                DecodeError::new(ErrorCause::BufferTooShort { required: LINK_HEADER_LEN, actual: n })
                    .context(ErrorFrame::LinkHeader),
            );
        }
        let header = LinkHeader::parse_bytes(b);
        let rest = vstd::slice::slice_subrange(b, LINK_HEADER_LEN, n);
        assert(rest@ =~= b@.skip(16));
        match parse_link_attrs_bytes(rest, header.interface_family) {
            Ok(nlas) => Ok(LinkMessage { header, nlas }),
            Err(e) => Err(e),
        }
    }

    /// The byte length of the encoded message: the pre-declared size a
    /// caller must allocate before [`LinkMessage::emit`].
    pub fn buffer_len(&self) -> (r: usize)
        requires
            spec_link_message_wf(self@),
            spec_link_message_bytes(self@).len() <= usize::MAX,
        ensures
            r == spec_link_message_bytes(self@).len(),
        decreases self, 2int,
    {
        proof {
            lemma_view_link_attrs(self.nlas);
        }
        let ghost view = spec_view_link_attrs(self.nlas);
        let ghost total = spec_link_message_bytes(self@).len() as int;
        let count = self.nlas.len();
        proof {
            assert(view.skip(0) =~= view);
            assert(spec_link_header_bytes(self.header).len() == 16);
        }
        let mut sum: usize = LINK_HEADER_LEN;
        let mut i: usize = 0;
        while i < count
            invariant
                i <= count,
                count == self.nlas@.len(),
                view == spec_view_link_attrs(self.nlas),
                view.len() == count,
                forall|j: int| 0 <= j < count ==> view[j] == spec_view_link_attr(#[trigger] self.nlas@[j]),
                spec_link_message_wf(self@),
                total == spec_link_message_bytes(self@).len(),
                total <= usize::MAX,
                sum + spec_link_attrs_bytes(view.skip(i as int)).len() == total,
            decreases count - i,
        {
            let ghost rest = view.skip(i as int);
            proof {
                assert(rest[0] == view[i as int]);
                assert(rest.drop_first() =~= view.skip(i + 1));
                lemma_link_attrs_wf_index(view, i as int);
                assert(spec_link_attrs_bytes(rest) == spec_nla_bytes(
                    spec_link_attr_kind(rest[0]),
                    spec_link_attr_value(rest[0]),
                ) + spec_link_attrs_bytes(view.skip(i + 1)));
            }
            let a = &self.nlas[i];
            sum = sum + a.buffer_len();
            i = i + 1;
        }
        proof {
            assert(view.skip(count as int) =~= Seq::<LinkAttributeV>::empty());
        }
        sum
    }

    /// Appends the encoded message: header bytes, then each attribute's
    /// record.
    pub fn emit_into(&self, out: &mut Vec<u8>)
        requires
            spec_link_message_wf(self@),
            old(out)@.len() + spec_link_message_bytes(self@).len() <= usize::MAX,
        ensures
            final(out)@ =~= old(out)@ + spec_link_message_bytes(self@),
        decreases self, 2int,
    {
        proof {
            lemma_view_link_attrs(self.nlas);
        }
        let ghost view = spec_view_link_attrs(self.nlas);
        let ghost out0 = out@;
        let count = self.nlas.len();
        proof {
            assert(view.skip(0) =~= view);
        }
        self.header.emit_into(out);
        let mut i: usize = 0;
        while i < count
            invariant
                i <= count,
                count == self.nlas@.len(),
                view == spec_view_link_attrs(self.nlas),
                view.len() == count,
                forall|j: int| 0 <= j < count ==> view[j] == spec_view_link_attr(#[trigger] self.nlas@[j]),
                spec_link_message_wf(self@),
                out0 == old(out)@,
                out0.len() + spec_link_message_bytes(self@).len() <= usize::MAX,
                out@ + spec_link_attrs_bytes(view.skip(i as int)) =~= out0
                    + spec_link_message_bytes(self@),
            decreases count - i,
        {
            let ghost rest = view.skip(i as int);
            proof {
                assert(rest[0] == view[i as int]);
                assert(rest.drop_first() =~= view.skip(i + 1));
                lemma_link_attrs_wf_index(view, i as int);
                assert(spec_link_attrs_bytes(rest) == spec_nla_bytes(
                    spec_link_attr_kind(rest[0]),
                    spec_link_attr_value(rest[0]),
                ) + spec_link_attrs_bytes(view.skip(i + 1)));
                assert(out@ + spec_link_attrs_bytes(rest) == out0
                    + spec_link_message_bytes(self@));
                assert((out@ + spec_link_attrs_bytes(rest)).len() == (out0
                    + spec_link_message_bytes(self@)).len());
                assert(out@.len() + spec_link_attrs_bytes(rest).len() == out0.len()
                    + spec_link_message_bytes(self@).len());
                assert(spec_nla_bytes(
                    spec_link_attr_kind(rest[0]),
                    spec_link_attr_value(rest[0]),
                ).len() <= spec_link_attrs_bytes(rest).len());
            }
            let a = &self.nlas[i];
            a.emit_into(out);
            i = i + 1;
        }
        proof {
            assert(view.skip(count as int) =~= Seq::<LinkAttributeV>::empty());
        }
    }

    /// Writes the encoded message into the front of a buffer the caller has
    /// sized with [`LinkMessage::buffer_len`], leaving bytes beyond it
    /// unchanged.
    pub fn emit(&self, buffer: &mut Vec<u8>)
        requires
            spec_link_message_wf(self@),
            spec_link_message_bytes(self@).len() <= old(buffer)@.len(),
        ensures
            final(buffer)@ =~= spec_link_message_bytes(self@) + old(buffer)@.skip(
                spec_link_message_bytes(self@).len() as int,
            ),
        decreases self, 3int,
    {
        let cap = buffer.len();
        let mut tmp: Vec<u8> = Vec::new();
        self.emit_into(&mut tmp);
        crate::bytes::overwrite_prefix(buffer, &tmp);
    }
}

} // verus!
