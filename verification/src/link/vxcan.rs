//! Kind-specific data of a vxcan link: the peer attribute embeds a complete
//! link message describing the peer interface to be created atomically,
//! making link messages self-referential.

use vstd::prelude::*;

use crate::error::{DecodeError, ErrorFrame};
use crate::link::message::{
    spec_link_message_bytes, spec_link_message_canonical, spec_link_message_wf,
    spec_parse_link_message, spec_view_link_message, LinkMessage, LinkMessageV,
};
use crate::nla::{
    spec_nla_head_valid, spec_nla_kind, spec_nla_value, DefaultNla, DefaultNlaV, NlaBuffer,
};

verus! {

/// Attribute kind inside vxcan info data: the embedded peer link message.
pub const VXCAN_INFO_PEER: u16 = 1;

/// One attribute of a vxcan link's kind-specific data.
#[derive(Debug, PartialEq, Eq)]
pub enum InfoVxcan {
    /// A complete embedded link message describing the peer interface.
    Peer(LinkMessage),
    /// An unrecognized record, preserved verbatim.
    Other(DefaultNla),
}

/// The mathematical form of a vxcan info attribute.
pub ghost enum InfoVxcanV {
    Peer(LinkMessageV),
    Other(DefaultNlaV),
}

/// The mathematical form of a vxcan info value.
pub open spec fn spec_view_info_vxcan(iv: InfoVxcan) -> InfoVxcanV
    decreases iv,
{
    match iv {
        InfoVxcan::Peer(m) => InfoVxcanV::Peer(spec_view_link_message(m)),
        InfoVxcan::Other(n) => InfoVxcanV::Other(n@),
    }
}

impl View for InfoVxcan {
    type V = InfoVxcanV;

    open spec fn view(&self) -> InfoVxcanV {
        spec_view_info_vxcan(*self)
    }
}

/// The kind code a vxcan info attribute emits.
pub open spec fn spec_vxcan_kind(iv: InfoVxcanV) -> u16 {
    match iv {
        InfoVxcanV::Peer(_) => VXCAN_INFO_PEER,
        InfoVxcanV::Other(n) => n.kind,
    }
}

/// The value bytes a vxcan info attribute emits: for a peer, the whole
/// embedded link message.
pub open spec fn spec_vxcan_value(iv: InfoVxcanV) -> Seq<u8>
    decreases iv,
{
    match iv {
        InfoVxcanV::Peer(m) => spec_link_message_bytes(m),
        InfoVxcanV::Other(n) => n.value,
    }
}

/// A vxcan info attribute whose records, recursively, fit their 16-bit
/// length fields.
pub open spec fn spec_vxcan_wf(iv: InfoVxcanV) -> bool
    decreases iv,
{
    &&& 4 + spec_vxcan_value(iv).len() <= 0xffff
    &&& match iv {
        InfoVxcanV::Peer(m) => spec_link_message_wf(m),
        InfoVxcanV::Other(_) => true,
    }
}

/// A vxcan info attribute the decoder can produce.
pub open spec fn spec_vxcan_canonical(iv: InfoVxcanV) -> bool
    decreases iv,
{
    match iv {
        InfoVxcanV::Peer(m) => spec_link_message_canonical(m),
        InfoVxcanV::Other(n) => n.kind != VXCAN_INFO_PEER && 4 + n.value.len() <= 0xffff,
    }
}

/// The vxcan info attribute one record with the given kind and value
/// decodes to: a peer record's value is decoded as a full link message; an
/// unrecognized kind is preserved verbatim.
pub open spec fn spec_parse_vxcan_record(kind: u16, value: Seq<u8>) -> Option<InfoVxcanV>
    decreases value.len(), 1int,
{
    if kind == VXCAN_INFO_PEER {
        match spec_parse_link_message(value) {
            None => None,
            Some(m) => Some(InfoVxcanV::Peer(m)),
        }
    } else {
        Some(InfoVxcanV::Other(DefaultNlaV { kind, value }))
    }
}

/// The vxcan info attribute a whole kind-specific data payload decodes to:
/// exactly one record, covering the payload.
pub open spec fn spec_parse_vxcan_data(b: Seq<u8>) -> Option<InfoVxcanV>
    decreases b.len(), 0int,
{
    if b.len() < 4 {
        None
    } else if !spec_nla_head_valid(b) {
        None
    } else if crate::nla::spec_nla_consumed(b) != b.len() {
        None
    } else {
        spec_parse_vxcan_record(spec_nla_kind(b), spec_nla_value(b))
    }
}

impl InfoVxcan {
    /// The kind code this attribute emits, per [`spec_vxcan_kind`].
    pub fn kind(&self) -> (r: u16)
        ensures
            r == spec_vxcan_kind(self@),
    {
        match self {
            InfoVxcan::Peer(_) => VXCAN_INFO_PEER,
            InfoVxcan::Other(n) => n.kind,
        }
    }

    /// The byte length of this attribute's value, per [`spec_vxcan_value`].
    pub fn value_len(&self) -> (r: usize)
        requires
            spec_vxcan_wf(self@),
        ensures
            r == spec_vxcan_value(self@).len(),
        decreases self, 3int,
    {
        match self {
            InfoVxcan::Peer(m) => m.buffer_len(),
            InfoVxcan::Other(n) => n.value_len(),
        }
    }

    /// Appends this attribute's value bytes, per [`spec_vxcan_value`].
    pub fn emit_value(&self, out: &mut Vec<u8>)
        requires
            spec_vxcan_wf(self@),
            old(out)@.len() + spec_vxcan_value(self@).len() <= usize::MAX,
        ensures
            final(out)@ =~= old(out)@ + spec_vxcan_value(self@),
        decreases self, 3int,
    {
        match self {
            InfoVxcan::Peer(m) => m.emit_into(out),
            InfoVxcan::Other(n) => n.emit_value(out),
        }
    }

    /// Decodes one record of vxcan kind-specific data, per
    /// [`spec_parse_vxcan_record`]: the peer kind's value is itself a full
    /// link message, decoded recursively.
    pub fn parse<'a>(buf: &NlaBuffer<'a>) -> (r: Result<InfoVxcan, DecodeError>)
        requires
            buf@.len() >= 4,
            spec_nla_head_valid(buf@),
        ensures
            match r {
                Ok(iv) => spec_parse_vxcan_record(spec_nla_kind(buf@), spec_nla_value(buf@))
                    == Some(iv@),
                Err(_) => spec_parse_vxcan_record(spec_nla_kind(buf@), spec_nla_value(buf@))
                    is None,
            },
        decreases buf@.len(), 1int,
    {
        let kind = buf.kind();
        let payload = buf.value();
        if kind == VXCAN_INFO_PEER {
            match LinkMessage::parse_bytes(payload) {
                Ok(m) => Ok(InfoVxcan::Peer(m)),
                Err(e) => Err(e.context(ErrorFrame::PeerLinkMessage).context(
                    ErrorFrame::VxcanInfoValue,
                )),
            }
        } else {
            Ok(InfoVxcan::Other(DefaultNla::new(kind, vstd::slice::slice_to_vec(payload))))
        }
    }
}

/// Decodes a whole vxcan kind-specific data payload, per
/// [`spec_parse_vxcan_data`]: one record that must cover the payload
/// exactly.
pub fn parse_vxcan_data(b: &[u8]) -> (r: Result<InfoVxcan, DecodeError>)
    ensures
        match r {
            Ok(iv) => spec_parse_vxcan_data(b@) == Some(iv@),
            Err(_) => spec_parse_vxcan_data(b@) is None,
        },
    decreases b@.len(), 2int,
{
    let buf = match NlaBuffer::new_checked(b) {
        Ok(buf) => buf,
        Err(e) => {
            return Err(e.context(ErrorFrame::VxcanInfoValue));
        },
    };
    match crate::nla::split_nla_at(b, 0) {
        Err(e) => Err(e.context(ErrorFrame::VxcanInfoValue)),
        Ok((kind, value, consumed)) => {
            assert(b@.skip(0) =~= b@);
            if consumed != b.len() {
                return Err(
                    DecodeError::new(
                        crate::error::ErrorCause::InvalidAttributeLength { offset: 0, length: (4
                            + value.len()) as u16 },
                    ).context(ErrorFrame::VxcanInfoValue),
                );
            }
            InfoVxcan::parse(&buf)
        },
    }
}

} // verus!
