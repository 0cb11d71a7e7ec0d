//! The fixed 16-byte header of a link message: address family, a reserved
//! byte, link-layer type, interface index, device flags, and change mask.

use vstd::prelude::*;

use crate::address_family::{spec_af_from_u8, spec_af_to_u8, AddressFamily};
use crate::bytes::{
    push_u16_le, push_u32_le, read_u16_le_at, read_u32_le_at, spec_u16_le, spec_u16_le_bytes,
    spec_u32_le, spec_u32_le_bytes,
};

verus! {

/// Byte length of the fixed link-message header.
pub const LINK_HEADER_LEN: usize = 16;

pub const ARPHRD_NETROM: u16 = 0;

pub const ARPHRD_ETHER: u16 = 1;

pub const ARPHRD_CAN: u16 = 280;

pub const ARPHRD_LOOPBACK: u16 = 772;

/// Device flag: interface is administratively up.
pub const LINK_FLAG_UP: u32 = 0x1;

/// Device flag: interface is a broadcast device.
pub const LINK_FLAG_BROADCAST: u32 = 0x2;

/// Device flag: interface is a loopback device.
pub const LINK_FLAG_LOOPBACK: u32 = 0x8;

/// Device flag: interface is operationally running.
pub const LINK_FLAG_RUNNING: u32 = 0x40;

/// Device flag: interface performs no address resolution.
pub const LINK_FLAG_NOARP: u32 = 0x80;

/// Device flag: the lower layer reports carrier.
pub const LINK_FLAG_LOWER_UP: u32 = 0x10000;

/// The link-layer type field of a link header. An unrecognized code
/// round-trips through the `Other` case.
#[derive(Debug, PartialEq, Eq, Clone, Copy)]
pub enum LinkLayerType {
    Netrom,
    Ether,
    Can,
    Loopback,
    Other(u16),
}

impl Default for LinkLayerType {
    fn default() -> (r: Self)
        ensures
            r == LinkLayerType::Netrom,
    {
        LinkLayerType::Netrom
    }
}

/// The link-layer type a 16-bit code decodes to.
pub open spec fn spec_llt_from_u16(d: u16) -> LinkLayerType {
    if d == ARPHRD_NETROM {
        LinkLayerType::Netrom
    } else if d == ARPHRD_ETHER {
        LinkLayerType::Ether
    } else if d == ARPHRD_CAN {
        LinkLayerType::Can
    } else if d == ARPHRD_LOOPBACK {
        LinkLayerType::Loopback
    } else {
        LinkLayerType::Other(d)
    }
}

/// The 16-bit code a link-layer type encodes to.
pub open spec fn spec_llt_to_u16(v: LinkLayerType) -> u16 {
    match v {
        LinkLayerType::Netrom => ARPHRD_NETROM,
        LinkLayerType::Ether => ARPHRD_ETHER,
        LinkLayerType::Can => ARPHRD_CAN,
        LinkLayerType::Loopback => ARPHRD_LOOPBACK,
        LinkLayerType::Other(d) => d,
    }
}

/// A link-layer type the decoder can produce.
pub open spec fn spec_llt_canonical(v: LinkLayerType) -> bool {
    spec_llt_from_u16(spec_llt_to_u16(v)) == v
}

impl LinkLayerType {
    /// Decodes a 16-bit link-layer type code, per [`spec_llt_from_u16`].
    pub fn from_u16(d: u16) -> (r: Self)
        ensures
            r == spec_llt_from_u16(d),
    {
        if d == ARPHRD_NETROM {
            LinkLayerType::Netrom
        } else if d == ARPHRD_ETHER {
            LinkLayerType::Ether
        } else if d == ARPHRD_CAN {
            LinkLayerType::Can
        } else if d == ARPHRD_LOOPBACK {
            LinkLayerType::Loopback
        } else {
            LinkLayerType::Other(d)
        }
    }

    /// Encodes the link-layer type as its 16-bit code, per
    /// [`spec_llt_to_u16`].
    pub fn as_u16(&self) -> (r: u16)
        ensures
            r == spec_llt_to_u16(*self),
    {
        match *self {
            LinkLayerType::Netrom => ARPHRD_NETROM,
            LinkLayerType::Ether => ARPHRD_ETHER,
            LinkLayerType::Can => ARPHRD_CAN,
            LinkLayerType::Loopback => ARPHRD_LOOPBACK,
            LinkLayerType::Other(d) => d,
        }
    }
}

/// Decoding a link-layer code and encoding it back is the identity.
pub proof fn lemma_llt_u16_roundtrip(d: u16)
    ensures
        spec_llt_to_u16(spec_llt_from_u16(d)) == d,
        spec_llt_canonical(spec_llt_from_u16(d)),
{
}

/// The fixed header of a link message. The header supplies the context
/// parameters (notably the address family) under which the attribute
/// sequence that follows it is interpreted.
#[derive(Debug, PartialEq, Eq, Clone, Copy)]
pub struct LinkHeader {
    pub interface_family: AddressFamily,
    pub index: u32,
    pub link_layer_type: LinkLayerType,
    pub flags: u32,
    pub change_mask: u32,
}

impl Default for LinkHeader {
    fn default() -> (r: Self)
        ensures
            r == (LinkHeader {
                interface_family: AddressFamily::Unspec,
                index: 0,
                link_layer_type: LinkLayerType::Netrom,
                flags: 0,
                change_mask: 0,
            }),
    {
        LinkHeader {
            interface_family: AddressFamily::Unspec,
            index: 0,
            link_layer_type: LinkLayerType::Netrom,
            flags: 0,
            change_mask: 0,
        }
    }
}

/// The 16 header bytes a link header encodes to; the reserved byte is
/// emitted as zero.
pub open spec fn spec_link_header_bytes(h: LinkHeader) -> Seq<u8> {
    seq![spec_af_to_u8(h.interface_family), 0u8] + spec_u16_le_bytes(
        spec_llt_to_u16(h.link_layer_type),
    ) + spec_u32_le_bytes(h.index) + spec_u32_le_bytes(h.flags) + spec_u32_le_bytes(h.change_mask)
}

/// The header decoded from the first 16 bytes of `b`; the reserved byte is
/// ignored.
pub open spec fn spec_parse_link_header(b: Seq<u8>) -> LinkHeader
    recommends
        b.len() >= 16,
{
    LinkHeader {
        interface_family: spec_af_from_u8(b[0]),
        link_layer_type: spec_llt_from_u16(spec_u16_le(b.subrange(2, 4))),
        index: spec_u32_le(b.subrange(4, 8)),
        flags: spec_u32_le(b.subrange(8, 12)),
        change_mask: spec_u32_le(b.subrange(12, 16)),
    }
}

/// A header the decoder can produce: family and link-layer type survive
/// re-encoding.
pub open spec fn spec_link_header_canonical(h: LinkHeader) -> bool {
    &&& crate::address_family::spec_af_canonical(h.interface_family)
    &&& spec_llt_canonical(h.link_layer_type)
}

/// Decoding the encoded form of a canonical header recovers it.
pub proof fn lemma_link_header_roundtrip(h: LinkHeader)
    requires
        spec_link_header_canonical(h),
    ensures
        spec_link_header_bytes(h).len() == 16,
        spec_parse_link_header(spec_link_header_bytes(h)) == h,
{
    let b = spec_link_header_bytes(h);
    crate::bytes::lemma_u16_le_roundtrip(spec_llt_to_u16(h.link_layer_type));
    crate::bytes::lemma_u32_le_roundtrip(h.index);
    crate::bytes::lemma_u32_le_roundtrip(h.flags);
    crate::bytes::lemma_u32_le_roundtrip(h.change_mask);
    assert(b.subrange(2, 4) =~= spec_u16_le_bytes(spec_llt_to_u16(h.link_layer_type)));
    assert(b.subrange(4, 8) =~= spec_u32_le_bytes(h.index));
    assert(b.subrange(8, 12) =~= spec_u32_le_bytes(h.flags));
    assert(b.subrange(12, 16) =~= spec_u32_le_bytes(h.change_mask));
}

/// Decoding a header from the wire never depends on bytes past the first 16.
pub proof fn lemma_parse_link_header_prefix(b1: Seq<u8>, b2: Seq<u8>)
    requires
        b1.len() >= 16,
        b2.len() >= 16,
        b1.subrange(0, 16) =~= b2.subrange(0, 16),
    ensures
        spec_parse_link_header(b1) == spec_parse_link_header(b2),
{
    assert(b1[0] == b1.subrange(0, 16)[0]);
    assert(b2[0] == b2.subrange(0, 16)[0]);
    assert(b1.subrange(2, 4) =~= b1.subrange(0, 16).subrange(2, 4));
    assert(b2.subrange(2, 4) =~= b2.subrange(0, 16).subrange(2, 4));
    assert(b1.subrange(4, 8) =~= b1.subrange(0, 16).subrange(4, 8));
    assert(b2.subrange(4, 8) =~= b2.subrange(0, 16).subrange(4, 8));
    assert(b1.subrange(8, 12) =~= b1.subrange(0, 16).subrange(8, 12));
    assert(b2.subrange(8, 12) =~= b2.subrange(0, 16).subrange(8, 12));
    assert(b1.subrange(12, 16) =~= b1.subrange(0, 16).subrange(12, 16));
    assert(b2.subrange(12, 16) =~= b2.subrange(0, 16).subrange(12, 16));
}

impl LinkHeader {
    /// The byte length of the encoded header.
    pub fn buffer_len(&self) -> (r: usize)
        ensures
            r == spec_link_header_bytes(*self).len(),
    {
        LINK_HEADER_LEN
    }

    /// Decodes the header fields from the front of `b`.
    pub fn parse_bytes(b: &[u8]) -> (r: LinkHeader)
        requires
            b@.len() >= 16,
        ensures
            r == spec_parse_link_header(b@),
    {
        let family_byte = *vstd::slice::slice_index_get(b, 0);
        LinkHeader {
            interface_family: AddressFamily::from(family_byte),
            link_layer_type: LinkLayerType::from_u16(read_u16_le_at(b, 2)),
            index: read_u32_le_at(b, 4),
            flags: read_u32_le_at(b, 8),
            change_mask: read_u32_le_at(b, 12),
        }
    }

    /// Appends the 16 encoded header bytes.
    pub fn emit_into(&self, out: &mut Vec<u8>)
        requires
            old(out)@.len() + 16 <= usize::MAX,
        ensures
            final(out)@ =~= old(out)@ + spec_link_header_bytes(*self),
    {
        out.push(u8::from(self.interface_family));
        out.push(0u8);
        push_u16_le(out, self.link_layer_type.as_u16());
        push_u32_le(out, self.index);
        push_u32_le(out, self.flags);
        push_u32_le(out, self.change_mask);
    }
}

} // verus!
