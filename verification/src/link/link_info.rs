//! The nested link-info attribute sequence: a "kind" record naming the
//! driver kind, and a "data" record whose payload shape is determined by the
//! most recently seen kind name, not by its own kind code. Decoding walks
//! the records in wire order with a running last-seen-kind context.

use vstd::prelude::*;

use crate::error::{DecodeError, ErrorFrame};
use crate::link::name::{
    name_value_len, parse_name, push_name, spec_name_value_bytes, spec_parse_name,
};
use crate::link::vxcan::{
    parse_vxcan_data, spec_parse_vxcan_data, spec_vxcan_canonical, spec_vxcan_kind,
    spec_vxcan_value, spec_vxcan_wf, InfoVxcan, InfoVxcanV,
};
use crate::nla::{
    spec_nla_bytes, spec_nla_consumed, spec_nla_head_valid, spec_nla_kind, spec_nla_value,
    split_nla_at, DefaultNla, DefaultNlaV,
};

verus! {

broadcast use
    vstd::seq::axiom_seq_index_decreases,
    vstd::seq::axiom_seq_subrange_decreases,
    vstd::std_specs::vec::axiom_vec_index_decreases,
;

/// Record kind inside link info: the driver kind name.
pub const IFLA_INFO_KIND: u16 = 1;

/// Record kind inside link info: kind-specific data.
pub const IFLA_INFO_DATA: u16 = 2;

/// A driver kind named by a link-info "kind" record. A name outside the
/// known catalog is preserved as the string itself.
#[derive(Debug, PartialEq, Eq)]
pub enum InfoKind {
    Vxcan,
    Other(String),
}

/// The mathematical form of a driver kind.
pub ghost enum InfoKindV {
    Vxcan,
    Other(Seq<char>),
}

/// The mathematical form of a driver kind value.
pub open spec fn spec_view_info_kind(k: InfoKind) -> InfoKindV {
    match k {
        InfoKind::Vxcan => InfoKindV::Vxcan,
        InfoKind::Other(s) => InfoKindV::Other(s@),
    }
}

impl View for InfoKind {
    type V = InfoKindV;

    open spec fn view(&self) -> InfoKindV {
        spec_view_info_kind(*self)
    }
}

/// The name a driver kind emits, NUL excluded.
pub open spec fn spec_info_kind_name(k: InfoKindV) -> Seq<char> {
    match k {
        InfoKindV::Vxcan => "vxcan"@,
        InfoKindV::Other(s) => s,
    }
}

/// The driver kind a name decodes to.
pub open spec fn spec_info_kind_of_name(s: Seq<char>) -> InfoKindV {
    if s == "vxcan"@ {
        InfoKindV::Vxcan
    } else {
        InfoKindV::Other(s)
    }
}

/// A driver kind the decoder can produce: an `Other` never holds a name in
/// the known catalog.
pub open spec fn spec_info_kind_canonical(k: InfoKindV) -> bool {
    spec_info_kind_of_name(spec_info_kind_name(k)) == k
}

/// Every driver kind decoded from a name is canonical: re-encoding its
/// name and re-dispatching it yields the same kind.
pub proof fn lemma_info_kind_of_name_canonical(s: Seq<char>)
    ensures
        spec_info_kind_canonical(spec_info_kind_of_name(s)),
{
}

impl InfoKind {
    /// Decodes a kind-name payload: strip the NUL terminator, decode UTF-8,
    /// and map a known name to its case.
    pub fn parse_value(value: &[u8]) -> (r: Result<InfoKind, DecodeError>)
        ensures
            match r {
                Ok(k) => spec_parse_name(value@) matches Some(s) && k@ == spec_info_kind_of_name(s),
                Err(_) => spec_parse_name(value@) is None,
            },
    {
        let s = match parse_name(value) {
            Some(s) => s,
            None => {
                return Err(
                    DecodeError::new(
                        crate::error::ErrorCause::InvalidString { kind: IFLA_INFO_KIND },
                    ).context(ErrorFrame::LinkInfoValue),
                );
            },
        };
        let vxcan = String::from_str("vxcan");
        if s == vxcan {
            Ok(InfoKind::Vxcan)
        } else {
            Ok(InfoKind::Other(s))
        }
    }

    /// Whether this is the vxcan kind: the context test that selects the
    /// shape of a following data record.
    pub fn is_vxcan(&self) -> (r: bool)
        ensures
            r == (self@ == InfoKindV::Vxcan),
    {
        match self {
            InfoKind::Vxcan => true,
            InfoKind::Other(_) => false,
        }
    }
}

/// Kind-specific data, tagged by the driver kind that selected its shape.
#[derive(Debug, PartialEq, Eq)]
pub enum InfoData {
    Vxcan(InfoVxcan),
}

/// The mathematical form of kind-specific data.
pub ghost enum InfoDataV {
    Vxcan(InfoVxcanV),
}

/// The mathematical form of a kind-specific data value.
pub open spec fn spec_view_info_data(d: InfoData) -> InfoDataV
    decreases d,
{
    match d {
        InfoData::Vxcan(iv) => InfoDataV::Vxcan(crate::link::vxcan::spec_view_info_vxcan(iv)),
    }
}

impl View for InfoData {
    type V = InfoDataV;

    open spec fn view(&self) -> InfoDataV {
        spec_view_info_data(*self)
    }
}

/// The value bytes a data record emits: the kind-specific records it holds.
pub open spec fn spec_info_data_bytes(d: InfoDataV) -> Seq<u8>
    decreases d,
{
    match d {
        InfoDataV::Vxcan(iv) => spec_nla_bytes(spec_vxcan_kind(iv), spec_vxcan_value(iv)),
    }
}

/// Kind-specific data whose records, recursively, fit their length fields.
pub open spec fn spec_info_data_wf(d: InfoDataV) -> bool
    decreases d,
{
    match d {
        InfoDataV::Vxcan(iv) => spec_vxcan_wf(iv),
    }
}

/// Kind-specific data the decoder can produce.
pub open spec fn spec_info_data_canonical(d: InfoDataV) -> bool
    decreases d,
{
    match d {
        InfoDataV::Vxcan(iv) => spec_vxcan_canonical(iv),
    }
}

/// One record of a link-info sequence.
#[derive(Debug, PartialEq, Eq)]
pub enum LinkInfo {
    /// The driver kind name.
    Kind(InfoKind),
    /// Kind-specific data, interpreted under the preceding kind name.
    Data(InfoData),
    /// Any other record, or data whose shape no preceding kind name
    /// determined, preserved verbatim.
    Other(DefaultNla),
}

/// The mathematical form of a link-info record.
pub ghost enum LinkInfoV {
    Kind(InfoKindV),
    Data(InfoDataV),
    Other(DefaultNlaV),
}

/// The mathematical form of a link-info value.
pub open spec fn spec_view_link_info(i: LinkInfo) -> LinkInfoV
    decreases i,
{
    match i {
        LinkInfo::Kind(k) => LinkInfoV::Kind(spec_view_info_kind(k)),
        LinkInfo::Data(d) => LinkInfoV::Data(spec_view_info_data(d)),
        LinkInfo::Other(n) => LinkInfoV::Other(n@),
    }
}

impl View for LinkInfo {
    type V = LinkInfoV;

    open spec fn view(&self) -> LinkInfoV {
        spec_view_link_info(*self)
    }
}

/// The mathematical forms of the link-info records held in a vector.
pub open spec fn spec_view_link_infos_from(v: Vec<LinkInfo>, i: int) -> Seq<LinkInfoV>
    decreases v, v@.len() - i,
{
    if i < 0 || i >= v@.len() {
        Seq::empty()
    } else {
        seq![spec_view_link_info(v@[i])] + spec_view_link_infos_from(v, i + 1)
    }
}

/// The mathematical form of a link-info vector.
pub open spec fn spec_view_link_infos(v: Vec<LinkInfo>) -> Seq<LinkInfoV> {
    spec_view_link_infos_from(v, 0)
}

/// Elementwise characterization of [`spec_view_link_infos_from`].
pub proof fn lemma_view_link_infos_from(v: Vec<LinkInfo>, i: int)
    requires
        0 <= i <= v@.len(),
    ensures
        spec_view_link_infos_from(v, i).len() == v@.len() - i,
        forall|j: int|
            i <= j < v@.len() ==> spec_view_link_infos_from(v, i)[j - i] == spec_view_link_info(
                v@[j],
            ),
    decreases v@.len() - i,
{
    if i < v@.len() {
        lemma_view_link_infos_from(v, i + 1);
    }
}

/// Elementwise characterization of [`spec_view_link_infos`].
pub proof fn lemma_view_link_infos(v: Vec<LinkInfo>)
    ensures
        spec_view_link_infos(v).len() == v@.len(),
        forall|j: int|
            0 <= j < v@.len() ==> spec_view_link_infos(v)[j] == spec_view_link_info(v@[j]),
{
    lemma_view_link_infos_from(v, 0);
}

/// The kind code a link-info record emits.
pub open spec fn spec_link_info_kind(i: LinkInfoV) -> u16 {
    match i {
        LinkInfoV::Kind(_) => IFLA_INFO_KIND,
        LinkInfoV::Data(_) => IFLA_INFO_DATA,
        LinkInfoV::Other(n) => n.kind,
    }
}

/// The value bytes a link-info record emits.
pub open spec fn spec_link_info_value(i: LinkInfoV) -> Seq<u8>
    decreases i,
{
    match i {
        LinkInfoV::Kind(k) => spec_name_value_bytes(spec_info_kind_name(k)),
        LinkInfoV::Data(d) => spec_info_data_bytes(d),
        LinkInfoV::Other(n) => n.value,
    }
}

/// A link-info record whose own record, and everything nested in it, fits
/// the 16-bit length fields.
pub open spec fn spec_link_info_wf(i: LinkInfoV) -> bool
    decreases i,
{
    &&& 4 + spec_link_info_value(i).len() <= 0xffff
    &&& match i {
        LinkInfoV::Kind(_) => true,
        LinkInfoV::Data(d) => spec_info_data_wf(d),
        LinkInfoV::Other(_) => true,
    }
}

/// Every record of the sequence, recursively, is well formed.
pub open spec fn spec_link_infos_wf(s: Seq<LinkInfoV>) -> bool
    decreases s,
{
    if s.len() == 0 {
        true
    } else {
        spec_link_info_wf(s[0]) && spec_link_infos_wf(s.drop_first())
    }
}

/// Each record of a well-formed sequence is well formed.
pub proof fn lemma_link_infos_wf_index(s: Seq<LinkInfoV>, i: int)
    requires
        spec_link_infos_wf(s),
        0 <= i < s.len(),
    ensures
        spec_link_info_wf(s[i]),
    decreases s.len(),
{
    if i > 0 {
        lemma_link_infos_wf_index(s.drop_first(), i - 1);
    }
}

/// The context a record leaves for the records after it: a kind record
/// becomes the last seen kind; everything else keeps it.
pub open spec fn spec_info_context_after(i: LinkInfoV, last: Option<InfoKindV>) -> Option<
    InfoKindV,
> {
    match i {
        LinkInfoV::Kind(k) => Some(k),
        _ => last,
    }
}

/// A link-info record the decoder can produce under the given last-seen
/// kind: data records appear only under the vxcan context, and an opaque
/// record never shadows a record the decoder would have recognized there.
pub open spec fn spec_link_info_canonical(i: LinkInfoV, last: Option<InfoKindV>) -> bool
    decreases i,
{
    match i {
        LinkInfoV::Kind(k) => spec_info_kind_canonical(k),
        LinkInfoV::Data(d) => last == Some(InfoKindV::Vxcan) && spec_info_data_canonical(d),
        LinkInfoV::Other(n) => {
            &&& 4 + n.value.len() <= 0xffff
            &&& n.kind != IFLA_INFO_KIND
            &&& !(n.kind == IFLA_INFO_DATA && last == Some(InfoKindV::Vxcan))
        },
    }
}

/// A link-info sequence the decoder can produce under the given last-seen
/// kind.
pub open spec fn spec_link_infos_canonical(s: Seq<LinkInfoV>, last: Option<InfoKindV>) -> bool
    decreases s,
{
    if s.len() == 0 {
        true
    } else {
        spec_link_info_canonical(s[0], last) && spec_link_infos_canonical(
            s.drop_first(),
            spec_info_context_after(s[0], last),
        )
    }
}

/// The wire bytes of a link-info sequence.
pub open spec fn spec_link_infos_bytes(s: Seq<LinkInfoV>) -> Seq<u8>
    decreases s,
{
    if s.len() == 0 {
        Seq::empty()
    } else {
        spec_nla_bytes(spec_link_info_kind(s[0]), spec_link_info_value(s[0]))
            + spec_link_infos_bytes(s.drop_first())
    }
}

/// The link-info record one record with the given kind and value decodes
/// to under the given last-seen kind.
pub open spec fn spec_parse_link_info_record(kind: u16, value: Seq<u8>, last: Option<InfoKindV>)
    -> Option<LinkInfoV>
    decreases value.len(), 1int,
{
    if kind == IFLA_INFO_KIND {
        match spec_parse_name(value) {
            None => None,
            Some(s) => Some(LinkInfoV::Kind(spec_info_kind_of_name(s))),
        }
    } else if kind == IFLA_INFO_DATA && last == Some(InfoKindV::Vxcan) {
        match spec_parse_vxcan_data(value) {
            None => None,
            Some(iv) => Some(LinkInfoV::Data(InfoDataV::Vxcan(iv))),
        }
    } else {
        Some(LinkInfoV::Other(DefaultNlaV { kind, value }))
    }
}

/// The link-info sequence a buffer decodes to under the given last-seen
/// kind, walking records in wire order and updating the context as kind
/// names are seen.
pub open spec fn spec_parse_link_infos(b: Seq<u8>, last: Option<InfoKindV>) -> Option<
    Seq<LinkInfoV>,
>
    decreases b.len(), 2int,
{
    if b.len() < 4 {
        Some(Seq::empty())
    } else if !spec_nla_head_valid(b) {
        None
    } else {
        let kind = spec_nla_kind(b);
        let value = spec_nla_value(b);
        let rest = b.skip(spec_nla_consumed(b));
        match spec_parse_link_info_record(kind, value, last) {
            None => None,
            Some(i) => match spec_parse_link_infos(rest, spec_info_context_after(i, last)) {
                None => None,
                Some(s) => Some(seq![i] + s),
            },
        }
    }
}

/// Decodes one link-info record under the given context, per
/// [`spec_parse_link_info_record`].
pub fn parse_link_info_record(
    kind: u16,
    value: &[u8],
    last_is_vxcan: bool,
    Ghost(last): Ghost<Option<InfoKindV>>,
) -> (r: Result<LinkInfo, DecodeError>)
    requires
        last_is_vxcan == (last == Some(InfoKindV::Vxcan)),
    ensures
        match r {
            Ok(i) => spec_parse_link_info_record(kind, value@, last) == Some(i@),
            Err(_) => spec_parse_link_info_record(kind, value@, last) is None,
        },
    decreases value@.len(), 3int,
{
    if kind == IFLA_INFO_KIND {
        match InfoKind::parse_value(value) {
            Ok(k) => Ok(LinkInfo::Kind(k)),
            Err(e) => Err(e),
        }
    } else if kind == IFLA_INFO_DATA && last_is_vxcan {
        match parse_vxcan_data(value) {
            Ok(iv) => Ok(LinkInfo::Data(InfoData::Vxcan(iv))),
            Err(e) => Err(e.context(ErrorFrame::LinkInfoValue)),
        }
    } else {
        Ok(LinkInfo::Other(DefaultNla::new(kind, vstd::slice::slice_to_vec(value))))
    }
}

/// Walks a buffer as a link-info sequence in wire order, per
/// [`spec_parse_link_infos`] starting with no kind name seen.
pub fn parse_link_infos_bytes(b: &[u8]) -> (r: Result<Vec<LinkInfo>, DecodeError>)
    ensures
        match r {
            Ok(v) => spec_parse_link_infos(b@, None) == Some(spec_view_link_infos(v)),
            Err(_) => spec_parse_link_infos(b@, None) is None,
        },
    decreases b@.len(), 4int,
{
    let n = b.len();
    let mut infos: Vec<LinkInfo> = Vec::new();
    let ghost mut prefix: Seq<LinkInfoV> = Seq::empty();
    let ghost mut last: Option<InfoKindV> = None;
    let mut last_is_vxcan: bool = false;
    let mut off: usize = 0;
    proof {
        assert(b@.skip(0) =~= b@);
        match spec_parse_link_infos(b@, None) {
            Some(s) => {
                assert(Seq::<LinkInfoV>::empty() + s =~= s);
            },
            None => {},
        }
    }
    while n - off >= 4
        invariant
            off <= n,
            n == b@.len(),
            infos@.len() == prefix.len(),
            last_is_vxcan == (last == Some(InfoKindV::Vxcan)),
            forall|j: int|
                0 <= j < prefix.len() ==> spec_view_link_info(#[trigger] infos@[j]) == prefix[j],
            spec_parse_link_infos(b@, None) == (match spec_parse_link_infos(
                b@.skip(off as int),
                last,
            ) {
                None => None::<Seq<LinkInfoV>>,
                Some(s) => Some(prefix + s),
            }),
        decreases n - off,
    {
        let ghost suffix = b@.skip(off as int);
        match split_nla_at(b, off) {
            Err(e) => {
                return Err(e.context(ErrorFrame::LinkInfoValue));
            },
            Ok((kind, value, consumed)) => {
                match parse_link_info_record(kind, value, last_is_vxcan, Ghost(last)) {
                    Err(e) => {
                        return Err(e.context(ErrorFrame::LinkInfoValue));
                    },
                    Ok(i) => {
                        proof {
                            let new_suffix = b@.skip(off + consumed);
                            assert(new_suffix =~= suffix.skip(consumed as int));
                            let new_last = spec_info_context_after(i@, last);
                            assert(spec_parse_link_infos(suffix, last) == (
                            match spec_parse_link_infos(new_suffix, new_last) {
                                None => None::<Seq<LinkInfoV>>,
                                Some(s) => Some(seq![i@] + s),
                            }));
                            match spec_parse_link_infos(new_suffix, new_last) {
                                Some(s2) => {
                                    assert((prefix + (seq![i@] + s2)) =~= (prefix.push(i@) + s2));
                                },
                                None => {},
                            }
                        }
                        let is_kind_vxcan: bool = match &i {
                            LinkInfo::Kind(k) => k.is_vxcan(),
                            _ => last_is_vxcan,
                        };
                        proof {
                            last = spec_info_context_after(i@, last);
                            prefix = prefix.push(i@);
                        }
                        last_is_vxcan = is_kind_vxcan;
                        infos.push(i);
                        off = off + consumed;
                    },
                }
            },
        }
    }
    proof {
        assert(b@.skip(off as int).len() < 4);
        assert(spec_parse_link_infos(b@.skip(off as int), last) == Some(Seq::<LinkInfoV>::empty()));
        assert(prefix + Seq::<LinkInfoV>::empty() =~= prefix);
        lemma_view_link_infos(infos);
        assert(spec_view_link_infos(infos) =~= prefix);
    }
    Ok(infos)
}

impl LinkInfo {
    /// The kind code this record emits, per [`spec_link_info_kind`].
    pub fn kind(&self) -> (r: u16)
        ensures
            r == spec_link_info_kind(self@),
    {
        match self {
            LinkInfo::Kind(_) => IFLA_INFO_KIND,
            LinkInfo::Data(_) => IFLA_INFO_DATA,
            LinkInfo::Other(n) => n.kind,
        }
    }

    /// The byte length of this record's value, per [`spec_link_info_value`].
    pub fn value_len(&self) -> (r: usize)
        requires
            spec_link_info_wf(self@),
        ensures
            r == spec_link_info_value(self@).len(),
        decreases self, 0int,
    {
        match self {
            LinkInfo::Kind(k) => match k {
                InfoKind::Vxcan => {
                    let vx = String::from_str("vxcan");
                    name_value_len(vx.as_str())
                },
                InfoKind::Other(s) => name_value_len(s.as_str()),
            },
            LinkInfo::Data(d) => match d {
                InfoData::Vxcan(iv) => {
                    proof {
                        crate::nla::lemma_nla_bytes_len(
                            spec_vxcan_kind(iv@),
                            spec_vxcan_value(iv@),
                        );
                    }
                    crate::align4(4 + iv.value_len())
                },
            },
            LinkInfo::Other(n) => n.value_len(),
        }
    }

    /// Appends this record's value bytes, per [`spec_link_info_value`].
    pub fn emit_value(&self, out: &mut Vec<u8>)
        requires
            spec_link_info_wf(self@),
            old(out)@.len() + spec_link_info_value(self@).len() <= usize::MAX,
        ensures
            final(out)@ =~= old(out)@ + spec_link_info_value(self@),
        decreases self, 0int,
    {
        match self {
            LinkInfo::Kind(k) => match k {
                InfoKind::Vxcan => {
                    let vx = String::from_str("vxcan");
                    push_name(out, vx.as_str());
                },
                InfoKind::Other(s) => push_name(out, s.as_str()),
            },
            LinkInfo::Data(d) => match d {
                InfoData::Vxcan(iv) => {
                    proof {
                        crate::nla::lemma_nla_bytes_len(
                            spec_vxcan_kind(iv@),
                            spec_vxcan_value(iv@),
                        );
                    }
                    let vl = iv.value_len();
                    crate::bytes::push_u16_le(out, (4 + vl) as u16);
                    crate::bytes::push_u16_le(out, iv.kind());
                    iv.emit_value(out);
                    let padded = crate::align4(4 + vl);
                    crate::bytes::push_zeros(out, padded - (4 + vl));
                },
            },
            LinkInfo::Other(n) => n.emit_value(out),
        }
    }

    /// The total bytes this record occupies on the wire, padding included.
    pub fn buffer_len(&self) -> (r: usize)
        requires
            spec_link_info_wf(self@),
        ensures
            r == spec_nla_bytes(spec_link_info_kind(self@), spec_link_info_value(self@)).len(),
        decreases self, 1int,
    {
        proof {
            crate::nla::lemma_nla_bytes_len(
                spec_link_info_kind(self@),
                spec_link_info_value(self@),
            );
        }
        crate::align4(4 + self.value_len())
    }

    /// Appends this record: header, value, zero padding.
    pub fn emit_into(&self, out: &mut Vec<u8>)
        requires
            spec_link_info_wf(self@),
            old(out)@.len() + spec_nla_bytes(
                spec_link_info_kind(self@),
                spec_link_info_value(self@),
            ).len() <= usize::MAX,
        ensures
            final(out)@ =~= old(out)@ + spec_nla_bytes(
                spec_link_info_kind(self@),
                spec_link_info_value(self@),
            ),
        decreases self, 1int,
    {
        proof {
            crate::nla::lemma_nla_bytes_len(
                spec_link_info_kind(self@),
                spec_link_info_value(self@),
            );
        }
        let vl = self.value_len();
        crate::bytes::push_u16_le(out, (4 + vl) as u16);
        crate::bytes::push_u16_le(out, self.kind());
        self.emit_value(out);
        let padded = crate::align4(4 + vl);
        crate::bytes::push_zeros(out, padded - (4 + vl));
    }
}

/// The byte length of a link-info vector's encoded sequence.
pub fn link_infos_value_len(v: &Vec<LinkInfo>) -> (r: usize)
    requires
        spec_link_infos_wf(spec_view_link_infos(*v)),
        spec_link_infos_bytes(spec_view_link_infos(*v)).len() <= usize::MAX,
    ensures
        r == spec_link_infos_bytes(spec_view_link_infos(*v)).len(),
    decreases *v, 2int,
{
    proof {
        lemma_view_link_infos(*v);
    }
    let ghost view = spec_view_link_infos(*v);
    let ghost total = spec_link_infos_bytes(view).len() as int;
    let count = v.len();
    proof {
        assert(view.skip(0) =~= view);
    }
    let mut sum: usize = 0;
    let mut i: usize = 0;
    while i < count
        invariant
            i <= count,
            count == v@.len(),
            view == spec_view_link_infos(*v),
            view.len() == count,
            forall|j: int| 0 <= j < count ==> view[j] == spec_view_link_info(#[trigger] v@[j]),
            spec_link_infos_wf(view),
            total == spec_link_infos_bytes(view).len(),
            total <= usize::MAX,
            sum + spec_link_infos_bytes(view.skip(i as int)).len() == total,
        decreases count - i,
    {
        let ghost rest = view.skip(i as int);
        proof {
            assert(rest[0] == view[i as int]);
            assert(rest.drop_first() =~= view.skip(i + 1));
            lemma_link_infos_wf_index(view, i as int);
            assert(spec_link_infos_bytes(rest) == spec_nla_bytes(
                spec_link_info_kind(rest[0]),
                spec_link_info_value(rest[0]),
            ) + spec_link_infos_bytes(view.skip(i + 1)));
        }
        let a = &v[i];
        sum = sum + a.buffer_len();
        i = i + 1;
    }
    proof {
        assert(view.skip(count as int) =~= Seq::<LinkInfoV>::empty());
    }
    sum
}

/// Appends the encoded records of a link-info vector, in order.
pub fn emit_link_infos(v: &Vec<LinkInfo>, out: &mut Vec<u8>)
    requires
        spec_link_infos_wf(spec_view_link_infos(*v)),
        old(out)@.len() + spec_link_infos_bytes(spec_view_link_infos(*v)).len() <= usize::MAX,
    ensures
        final(out)@ =~= old(out)@ + spec_link_infos_bytes(spec_view_link_infos(*v)),
    decreases *v, 2int,
{
    proof {
        lemma_view_link_infos(*v);
    }
    let ghost view = spec_view_link_infos(*v);
    let ghost out0 = out@;
    let count = v.len();
    proof {
        assert(view.skip(0) =~= view);
    }
    let mut i: usize = 0;
    while i < count
        invariant
            i <= count,
            count == v@.len(),
            view == spec_view_link_infos(*v),
            view.len() == count,
            forall|j: int| 0 <= j < count ==> view[j] == spec_view_link_info(#[trigger] v@[j]),
            spec_link_infos_wf(view),
            out0 == old(out)@,
            out0.len() + spec_link_infos_bytes(view).len() <= usize::MAX,
            out@ + spec_link_infos_bytes(view.skip(i as int)) =~= out0 + spec_link_infos_bytes(
                view,
            ),
        decreases count - i,
    {
        let ghost rest = view.skip(i as int);
        proof {
            assert(rest[0] == view[i as int]);
            assert(rest.drop_first() =~= view.skip(i + 1));
            lemma_link_infos_wf_index(view, i as int);
            assert(spec_link_infos_bytes(rest) == spec_nla_bytes(
                spec_link_info_kind(rest[0]),
                spec_link_info_value(rest[0]),
            ) + spec_link_infos_bytes(view.skip(i + 1)));
            assert(out@ + spec_link_infos_bytes(rest) == out0 + spec_link_infos_bytes(view));
            assert((out@ + spec_link_infos_bytes(rest)).len() == (out0 + spec_link_infos_bytes(
                view,
            )).len());
            assert(out@.len() + spec_link_infos_bytes(rest).len() == out0.len()
                + spec_link_infos_bytes(view).len());
        }
        let a = &v[i];
        a.emit_into(out);
        i = i + 1;
    }
    proof {
        assert(view.skip(count as int) =~= Seq::<LinkInfoV>::empty());
    }
}

} // verus!
