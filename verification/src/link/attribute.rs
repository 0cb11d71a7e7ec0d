//! Typed link attributes: one case per known attribute kind, plus the
//! opaque fallback that preserves an unrecognized attribute's raw bytes.
//! Dispatch from a kind code to a payload shape is an explicit match on the
//! code, threaded with the context the enclosing header supplies.

use vstd::prelude::*;

use crate::address_family::AddressFamily;
use crate::bytes::{push_u32_le, read_u32_le_at, spec_u32_le, spec_u32_le_bytes};
use crate::error::{DecodeError, ErrorCause, ErrorFrame};
use crate::link::name::{
    name_value_len, parse_name, push_name, spec_name_value_bytes, spec_parse_name,
};
use crate::link::link_info::{
    emit_link_infos, link_infos_value_len, parse_link_infos_bytes, spec_link_infos_bytes,
    spec_link_infos_canonical, spec_link_infos_wf, spec_parse_link_infos, LinkInfo, LinkInfoV,
};
use crate::link::sriov::{
    emit_vf_list, parse_vf_list_bytes, spec_parse_vf_list, spec_vf_list_bytes,
    spec_vf_list_canonical, spec_vf_list_wf, spec_view_vf_list_from, vf_list_value_len,
    LinkVfInfo, LinkVfInfoV,
};
use crate::nla::{spec_nla_bytes, DefaultNla, DefaultNlaV};

verus! {

broadcast use
    vstd::seq::axiom_seq_index_decreases,
    vstd::seq::axiom_seq_subrange_decreases,
    vstd::std_specs::vec::axiom_vec_index_decreases,
;

/// Attribute kind: interface name.
pub const IFLA_IFNAME: u16 = 3;

/// Attribute kind: maximum transmission unit.
pub const IFLA_MTU: u16 = 4;

/// Attribute kind: interface index of the controlling (master) device.
pub const IFLA_MASTER: u16 = 10;

/// Attribute kind: transmit queue length.
pub const IFLA_TXQLEN: u16 = 13;

/// Attribute kind: operational state.
pub const IFLA_OPERSTATE: u16 = 16;

/// Attribute kind: link mode.
pub const IFLA_LINKMODE: u16 = 17;

/// Attribute kind: nested link-info sequence.
pub const IFLA_LINKINFO: u16 = 18;

/// Attribute kind: SR-IOV virtual-function information list.
pub const IFLA_VFINFO_LIST: u16 = 22;

/// The operational state carried by an operstate attribute.
#[derive(Debug, PartialEq, Eq, Clone, Copy)]
pub enum State {
    Unknown,
    NotPresent,
    Down,
    LowerLayerDown,
    Testing,
    Dormant,
    Up,
    Other(u8),
}

/// The state a payload byte decodes to.
pub open spec fn spec_state_from_u8(d: u8) -> State {
    if d == 0 {
        State::Unknown
    } else if d == 1 {
        State::NotPresent
    } else if d == 2 {
        State::Down
    } else if d == 3 {
        State::LowerLayerDown
    } else if d == 4 {
        State::Testing
    } else if d == 5 {
        State::Dormant
    } else if d == 6 {
        State::Up
    } else {
        State::Other(d)
    }
}

/// The payload byte a state encodes to.
pub open spec fn spec_state_to_u8(v: State) -> u8 {
    match v {
        State::Unknown => 0,
        State::NotPresent => 1,
        State::Down => 2,
        State::LowerLayerDown => 3,
        State::Testing => 4,
        State::Dormant => 5,
        State::Up => 6,
        State::Other(d) => d,
    }
}

/// A state the decoder can produce.
pub open spec fn spec_state_canonical(v: State) -> bool {
    spec_state_from_u8(spec_state_to_u8(v)) == v
}

impl State {
    /// Decodes a state byte, per [`spec_state_from_u8`].
    pub fn from_u8(d: u8) -> (r: Self)
        ensures
            r == spec_state_from_u8(d),
    {
        if d == 0 {
            State::Unknown
        } else if d == 1 {
            State::NotPresent
        } else if d == 2 {
            State::Down
        } else if d == 3 {
            State::LowerLayerDown
        } else if d == 4 {
            State::Testing
        } else if d == 5 {
            State::Dormant
        } else if d == 6 {
            State::Up
        } else {
            State::Other(d)
        }
    }

    /// Encodes the state as its payload byte, per [`spec_state_to_u8`].
    pub fn as_u8(&self) -> (r: u8)
        ensures
            r == spec_state_to_u8(*self),
    {
        match *self {
            State::Unknown => 0,
            State::NotPresent => 1,
            State::Down => 2,
            State::LowerLayerDown => 3,
            State::Testing => 4,
            State::Dormant => 5,
            State::Up => 6,
            State::Other(d) => d,
        }
    }
}

/// The link mode carried by a linkmode attribute.
#[derive(Debug, PartialEq, Eq, Clone, Copy)]
pub enum LinkMode {
    Default,
    Dormant,
    Other(u8),
}

/// The mode a payload byte decodes to.
pub open spec fn spec_mode_from_u8(d: u8) -> LinkMode {
    if d == 0 {
        LinkMode::Default
    } else if d == 1 {
        LinkMode::Dormant
    } else {
        LinkMode::Other(d)
    }
}

/// The payload byte a mode encodes to.
pub open spec fn spec_mode_to_u8(v: LinkMode) -> u8 {
    match v {
        LinkMode::Default => 0,
        LinkMode::Dormant => 1,
        LinkMode::Other(d) => d,
    }
}

/// A mode the decoder can produce.
pub open spec fn spec_mode_canonical(v: LinkMode) -> bool {
    spec_mode_from_u8(spec_mode_to_u8(v)) == v
}

impl LinkMode {
    /// Decodes a mode byte, per [`spec_mode_from_u8`].
    pub fn from_u8(d: u8) -> (r: Self)
        ensures
            r == spec_mode_from_u8(d),
    {
        if d == 0 {
            LinkMode::Default
        } else if d == 1 {
            LinkMode::Dormant
        } else {
            LinkMode::Other(d)
        }
    }

    /// Encodes the mode as its payload byte, per [`spec_mode_to_u8`].
    pub fn as_u8(&self) -> (r: u8)
        ensures
            r == spec_mode_to_u8(*self),
    {
        match *self {
            LinkMode::Default => 0,
            LinkMode::Dormant => 1,
            LinkMode::Other(d) => d,
        }
    }
}

/// One typed link attribute: a case per known kind, and the opaque fallback
/// holding an unrecognized record's kind and raw bytes.
#[derive(Debug, PartialEq, Eq)]
pub enum LinkAttribute {
    IfName(String),
    Mtu(u32),
    Master(u32),
    TxQueueLen(u32),
    OperState(State),
    Mode(LinkMode),
    LinkInfo(Vec<LinkInfo>),
    VfInfoList(Vec<LinkVfInfo>),
    Other(DefaultNla),
}

/// The mathematical form of a typed link attribute.
pub ghost enum LinkAttributeV {
    IfName(Seq<char>),
    Mtu(u32),
    Master(u32),
    TxQueueLen(u32),
    OperState(State),
    Mode(LinkMode),
    LinkInfo(Seq<LinkInfoV>),
    VfInfoList(Seq<LinkVfInfoV>),
    Other(DefaultNlaV),
}

/// The mathematical form of an attribute value.
pub open spec fn spec_view_link_attr(a: LinkAttribute) -> LinkAttributeV
    decreases a,
{
    match a {
        LinkAttribute::IfName(s) => LinkAttributeV::IfName(s@),
        LinkAttribute::Mtu(v) => LinkAttributeV::Mtu(v),
        LinkAttribute::Master(v) => LinkAttributeV::Master(v),
        LinkAttribute::TxQueueLen(v) => LinkAttributeV::TxQueueLen(v),
        LinkAttribute::OperState(s) => LinkAttributeV::OperState(s),
        LinkAttribute::Mode(m) => LinkAttributeV::Mode(m),
        LinkAttribute::LinkInfo(v) => LinkAttributeV::LinkInfo(
            crate::link::link_info::spec_view_link_infos_from(v, 0),
        ),
        LinkAttribute::VfInfoList(v) => LinkAttributeV::VfInfoList(spec_view_vf_list_from(v, 0)),
        LinkAttribute::Other(n) => LinkAttributeV::Other(n@),
    }
}

impl View for LinkAttribute {
    type V = LinkAttributeV;

    open spec fn view(&self) -> LinkAttributeV {
        spec_view_link_attr(*self)
    }
}

/// The kind code an attribute emits in its record header.
pub open spec fn spec_link_attr_kind(a: LinkAttributeV) -> u16 {
    match a {
        LinkAttributeV::IfName(_) => IFLA_IFNAME,
        LinkAttributeV::Mtu(_) => IFLA_MTU,
        LinkAttributeV::Master(_) => IFLA_MASTER,
        LinkAttributeV::TxQueueLen(_) => IFLA_TXQLEN,
        LinkAttributeV::OperState(_) => IFLA_OPERSTATE,
        LinkAttributeV::Mode(_) => IFLA_LINKMODE,
        LinkAttributeV::LinkInfo(_) => IFLA_LINKINFO,
        LinkAttributeV::VfInfoList(_) => IFLA_VFINFO_LIST,
        LinkAttributeV::Other(n) => n.kind,
    }
}

/// The value bytes an attribute emits, excluding record header and padding.
pub open spec fn spec_link_attr_value(a: LinkAttributeV) -> Seq<u8>
    decreases a,
{
    match a {
        LinkAttributeV::IfName(s) => spec_name_value_bytes(s),
        LinkAttributeV::Mtu(v) => spec_u32_le_bytes(v),
        LinkAttributeV::Master(v) => spec_u32_le_bytes(v),
        LinkAttributeV::TxQueueLen(v) => spec_u32_le_bytes(v),
        LinkAttributeV::OperState(s) => seq![spec_state_to_u8(s)],
        LinkAttributeV::Mode(m) => seq![spec_mode_to_u8(m)],
        LinkAttributeV::LinkInfo(s) => spec_link_infos_bytes(s),
        LinkAttributeV::VfInfoList(s) => spec_vf_list_bytes(s),
        LinkAttributeV::Other(n) => n.value,
    }
}

/// An attribute whose record, and everything nested in it, fits the 16-bit
/// length fields.
pub open spec fn spec_link_attr_wf(a: LinkAttributeV) -> bool
    decreases a,
{
    &&& 4 + spec_link_attr_value(a).len() <= 0xffff
    &&& match a {
        LinkAttributeV::LinkInfo(s) => spec_link_infos_wf(s),
        LinkAttributeV::VfInfoList(s) => spec_vf_list_wf(s),
        _ => true,
    }
}

/// Whether the kind code is in the known link-attribute catalog.
pub open spec fn spec_link_attr_known_kind(kind: u16) -> bool {
    ||| kind == IFLA_IFNAME
    ||| kind == IFLA_MTU
    ||| kind == IFLA_MASTER
    ||| kind == IFLA_TXQLEN
    ||| kind == IFLA_OPERSTATE
    ||| kind == IFLA_LINKMODE
    ||| kind == IFLA_LINKINFO
    ||| kind == IFLA_VFINFO_LIST
}

/// An attribute the decoder can produce: re-dispatching its own kind and
/// value recovers it. The opaque fallback never shadows a known kind, and
/// enumerated fields hold the first-listed name for their code.
pub open spec fn spec_link_attr_canonical(a: LinkAttributeV) -> bool
    decreases a,
{
    match a {
        LinkAttributeV::IfName(_) => true,
        LinkAttributeV::Mtu(_) => true,
        LinkAttributeV::Master(_) => true,
        LinkAttributeV::TxQueueLen(_) => true,
        LinkAttributeV::OperState(s) => spec_state_canonical(s),
        LinkAttributeV::Mode(m) => spec_mode_canonical(m),
        LinkAttributeV::LinkInfo(s) => spec_link_infos_canonical(s, None),
        LinkAttributeV::VfInfoList(s) => spec_vf_list_canonical(s),
        LinkAttributeV::Other(n) => !spec_link_attr_known_kind(n.kind) && 4 + n.value.len()
            <= 0xffff,
    }
}

/// The attribute a record with the given kind and value decodes to under
/// the given context, or nothing for a malformed known-kind payload. An
/// unrecognized kind always decodes to the opaque fallback.
pub open spec fn spec_parse_link_attr(kind: u16, value: Seq<u8>, family: AddressFamily) -> Option<
    LinkAttributeV,
>
    decreases value.len(), 5int,
{
    if kind == IFLA_IFNAME {
        match spec_parse_name(value) {
            Some(s) => Some(LinkAttributeV::IfName(s)),
            None => None,
        }
    } else if kind == IFLA_MTU {
        if value.len() == 4 {
            Some(LinkAttributeV::Mtu(spec_u32_le(value)))
        } else {
            None
        }
    } else if kind == IFLA_MASTER {
        if value.len() == 4 {
            Some(LinkAttributeV::Master(spec_u32_le(value)))
        } else {
            None
        }
    } else if kind == IFLA_TXQLEN {
        if value.len() == 4 {
            Some(LinkAttributeV::TxQueueLen(spec_u32_le(value)))
        } else {
            None
        }
    } else if kind == IFLA_OPERSTATE {
        if value.len() == 1 {
            Some(LinkAttributeV::OperState(spec_state_from_u8(value[0])))
        } else {
            None
        }
    } else if kind == IFLA_LINKMODE {
        if value.len() == 1 {
            Some(LinkAttributeV::Mode(spec_mode_from_u8(value[0])))
        } else {
            None
        }
    } else if kind == IFLA_LINKINFO {
        match spec_parse_link_infos(value, None) {
            None => None,
            Some(s) => Some(LinkAttributeV::LinkInfo(s)),
        }
    } else if kind == IFLA_VFINFO_LIST {
        match spec_parse_vf_list(value) {
            None => None,
            Some(s) => Some(LinkAttributeV::VfInfoList(s)),
        }
    } else {
        Some(LinkAttributeV::Other(DefaultNlaV { kind, value }))
    }
}

impl LinkAttribute {
    /// The kind code this attribute emits, per [`spec_link_attr_kind`].
    pub fn kind(&self) -> (r: u16)
        ensures
            r == spec_link_attr_kind(self@),
    {
        match self {
            LinkAttribute::IfName(_) => IFLA_IFNAME,
            LinkAttribute::Mtu(_) => IFLA_MTU,
            LinkAttribute::Master(_) => IFLA_MASTER,
            LinkAttribute::TxQueueLen(_) => IFLA_TXQLEN,
            LinkAttribute::OperState(_) => IFLA_OPERSTATE,
            LinkAttribute::Mode(_) => IFLA_LINKMODE,
            LinkAttribute::LinkInfo(_) => IFLA_LINKINFO,
            LinkAttribute::VfInfoList(_) => IFLA_VFINFO_LIST,
            LinkAttribute::Other(n) => n.kind,
        }
    }

    /// The byte length of this attribute's value, per
    /// [`spec_link_attr_value`].
    pub fn value_len(&self) -> (r: usize)
        requires
            spec_link_attr_wf(self@),
        ensures
            r == spec_link_attr_value(self@).len(),
        decreases self, 0int,
    {
        match self {
            LinkAttribute::IfName(s) => name_value_len(s.as_str()),
            LinkAttribute::Mtu(_) => 4,
            LinkAttribute::Master(_) => 4,
            LinkAttribute::TxQueueLen(_) => 4,
            LinkAttribute::OperState(_) => 1,
            LinkAttribute::Mode(_) => 1,
            LinkAttribute::LinkInfo(v) => link_infos_value_len(v),
            LinkAttribute::VfInfoList(v) => vf_list_value_len(v),
            LinkAttribute::Other(n) => n.value_len(),
        }
    }

    /// Appends this attribute's value bytes, per [`spec_link_attr_value`].
    pub fn emit_value(&self, out: &mut Vec<u8>)
        requires
            spec_link_attr_wf(self@),
            old(out)@.len() + spec_link_attr_value(self@).len() <= usize::MAX,
        ensures
            final(out)@ =~= old(out)@ + spec_link_attr_value(self@),
        decreases self, 0int,
    {
        match self {
            LinkAttribute::IfName(s) => push_name(out, s.as_str()),
            LinkAttribute::Mtu(v) => push_u32_le(out, *v),
            LinkAttribute::Master(v) => push_u32_le(out, *v),
            LinkAttribute::TxQueueLen(v) => push_u32_le(out, *v),
            LinkAttribute::OperState(s) => out.push(s.as_u8()),
            LinkAttribute::Mode(m) => out.push(m.as_u8()),
            LinkAttribute::LinkInfo(v) => emit_link_infos(v, out),
            LinkAttribute::VfInfoList(v) => emit_vf_list(v, out),
            LinkAttribute::Other(n) => n.emit_value(out),
        }
    }

    /// The total bytes this attribute occupies on the wire: header, value,
    /// and padding to the 4-byte boundary.
    pub fn buffer_len(&self) -> (r: usize)
        requires
            spec_link_attr_wf(self@),
        ensures
            r == spec_nla_bytes(spec_link_attr_kind(self@), spec_link_attr_value(self@)).len(),
        decreases self, 1int,
    {
        proof {
            crate::nla::lemma_nla_bytes_len(
                spec_link_attr_kind(self@),
                spec_link_attr_value(self@),
            );
        }
        crate::align4(4 + self.value_len())
    }

    /// Appends this attribute's whole record: header, value, zero padding.
    pub fn emit_into(&self, out: &mut Vec<u8>)
        requires
            spec_link_attr_wf(self@),
            old(out)@.len() + spec_nla_bytes(
                spec_link_attr_kind(self@),
                spec_link_attr_value(self@),
            ).len() <= usize::MAX,
        ensures
            final(out)@ =~= old(out)@ + spec_nla_bytes(
                spec_link_attr_kind(self@),
                spec_link_attr_value(self@),
            ),
        decreases self, 1int,
    {
        proof {
            crate::nla::lemma_nla_bytes_len(
                spec_link_attr_kind(self@),
                spec_link_attr_value(self@),
            );
        }
        let vl = self.value_len();
        crate::bytes::push_u16_le(out, (4 + vl) as u16);
        crate::bytes::push_u16_le(out, self.kind());
        self.emit_value(out);
        let padded = crate::align4(4 + vl);
        crate::bytes::push_zeros(out, padded - (4 + vl));
    }

    /// Writes this attribute's record into the front of a pre-sized buffer,
    /// leaving the bytes beyond it unchanged.
    pub fn emit(&self, buffer: &mut Vec<u8>)
        requires
            spec_link_attr_wf(self@),
            spec_nla_bytes(spec_link_attr_kind(self@), spec_link_attr_value(self@)).len() <= old(
                buffer,
            )@.len(),
        ensures
            final(buffer)@ =~= spec_nla_bytes(
                spec_link_attr_kind(self@),
                spec_link_attr_value(self@),
            ) + old(buffer)@.skip(
                spec_nla_bytes(spec_link_attr_kind(self@), spec_link_attr_value(self@)).len()
                    as int,
            ),
        decreases self, 2int,
    {
        let mut tmp: Vec<u8> = Vec::new();
        self.emit_into(&mut tmp);
        crate::bytes::overwrite_prefix(buffer, &tmp);
    }

    /// Decodes the record a buffer is positioned at, under the given
    /// address family: the record header is validated, then its kind and
    /// value are dispatched per [`spec_parse_link_attr`].
    pub fn parse_with_param<'a>(buf: &crate::nla::NlaBuffer<'a>, family: AddressFamily) -> (r:
        Result<LinkAttribute, DecodeError>)
        ensures
            match r {
                Ok(a) => buf@.len() >= 4 && crate::nla::spec_nla_head_valid(buf@)
                    && spec_parse_link_attr(
                    crate::nla::spec_nla_kind(buf@),
                    crate::nla::spec_nla_value(buf@),
                    family,
                ) == Some(a@),
                Err(_) => buf@.len() < 4 || !crate::nla::spec_nla_head_valid(buf@)
                    || spec_parse_link_attr(
                    crate::nla::spec_nla_kind(buf@),
                    crate::nla::spec_nla_value(buf@),
                    family,
                ) is None,
            },
    {
        let n = buf.len();
        if n < crate::nla::NLA_HEADER_LEN {
            return Err(
                DecodeError::new(
                    ErrorCause::BufferTooShort { required: crate::nla::NLA_HEADER_LEN, actual: n },
                ),
            );
        }
        let len = buf.length();
        if len < 4 || (len as usize) > n {
            return Err(
                DecodeError::new(ErrorCause::InvalidAttributeLength { offset: 0, length: len }),
            );
        }
        Self::parse_raw(buf.kind(), buf.value(), family)
    }

    /// Dispatches one record to its typed attribute under the given address
    /// family, per [`spec_parse_link_attr`]: a malformed known-kind payload
    /// is an error naming the kind; an unrecognized kind becomes the opaque
    /// fallback.
    pub fn parse_raw(kind: u16, value: &[u8], family: AddressFamily) -> (r: Result<
        LinkAttribute,
        DecodeError,
    >)
        ensures
            match r {
                Ok(a) => spec_parse_link_attr(kind, value@, family) == Some(a@),
                Err(_) => spec_parse_link_attr(kind, value@, family) is None,
            },
        decreases value@.len(), 6int,
    {
        let n = value.len();
        proof {
            if n == 4 {
                assert(value@.subrange(0, 4) =~= value@);
            }
        }
        if kind == IFLA_IFNAME {
            match parse_name(value) {
                Some(s) => Ok(LinkAttribute::IfName(s)),
                None => Err(DecodeError::new(ErrorCause::InvalidString { kind }).context(
                    ErrorFrame::Attribute { kind },
                )),
            }
        } else if kind == IFLA_MTU {
            if n == 4 {
                Ok(LinkAttribute::Mtu(read_u32_le_at(value, 0)))
            } else {
                Err(Self::bad_len(kind, 4, n))
            }
        } else if kind == IFLA_MASTER {
            if n == 4 {
                Ok(LinkAttribute::Master(read_u32_le_at(value, 0)))
            } else {
                Err(Self::bad_len(kind, 4, n))
            }
        } else if kind == IFLA_TXQLEN {
            if n == 4 {
                Ok(LinkAttribute::TxQueueLen(read_u32_le_at(value, 0)))
            } else {
                Err(Self::bad_len(kind, 4, n))
            }
        } else if kind == IFLA_OPERSTATE {
            if n == 1 {
                Ok(LinkAttribute::OperState(State::from_u8(*vstd::slice::slice_index_get(value, 0))))
            } else {
                Err(Self::bad_len(kind, 1, n))
            }
        } else if kind == IFLA_LINKMODE {
            if n == 1 {
                Ok(LinkAttribute::Mode(LinkMode::from_u8(*vstd::slice::slice_index_get(value, 0))))
            } else {
                Err(Self::bad_len(kind, 1, n))
            }
        } else if kind == IFLA_LINKINFO {
            match parse_link_infos_bytes(value) {
                Ok(v) => Ok(LinkAttribute::LinkInfo(v)),
                Err(e) => Err(e.context(ErrorFrame::Attribute { kind })),
            }
        } else if kind == IFLA_VFINFO_LIST {
            match parse_vf_list_bytes(value) {
                Ok(v) => Ok(LinkAttribute::VfInfoList(v)),
                Err(e) => Err(e.context(ErrorFrame::Attribute { kind })),
            }
        } else {
            Ok(LinkAttribute::Other(DefaultNla::new(kind, vstd::slice::slice_to_vec(value))))
        }
    }

    /// The error for a known kind whose payload has the wrong byte length.
    fn bad_len(kind: u16, expected: usize, actual: usize) -> (r: DecodeError)
        ensures
            r.cause == (ErrorCause::InvalidValueLength { kind, expected, actual }),
    {
        DecodeError::new(ErrorCause::InvalidValueLength { kind, expected, actual }).context(
            ErrorFrame::Attribute { kind },
        )
    }
}

} // verus!
