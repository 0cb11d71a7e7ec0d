//! The address-family byte of a message header, with the platform's numeric
//! values. An unrecognized byte round-trips through the `Other` case rather
//! than being rejected or coerced.

use vstd::prelude::*;

verus! {

pub const AF_UNSPEC: u8 = 0;

pub const AF_LOCAL: u8 = 1;

pub const AF_UNIX: u8 = 1;

pub const AF_INET: u8 = 2;

pub const AF_IMPLINK: u8 = 3;

pub const AF_PUP: u8 = 4;

pub const AF_CHAOS: u8 = 5;

pub const AF_NETBIOS: u8 = 6;

pub const AF_ISO: u8 = 7;

pub const AF_OSI: u8 = 7;

pub const AF_ECMA: u8 = 8;

pub const AF_DATAKIT: u8 = 9;

pub const AF_CCITT: u8 = 10;

pub const AF_SNA: u8 = 11;

pub const AF_DECNET: u8 = 12;

pub const AF_DLI: u8 = 13;

pub const AF_LAT: u8 = 14;

pub const AF_HYLINK: u8 = 15;

pub const AF_APPLETALK: u8 = 16;

pub const AF_ROUTE: u8 = 17;

pub const AF_LINK: u8 = 18;

pub const AF_COIP: u8 = 20;

pub const AF_CNT: u8 = 21;

pub const AF_IPX: u8 = 23;

pub const AF_SIP: u8 = 24;

pub const AF_ISDN: u8 = 26;

pub const AF_E164: u8 = 26;

pub const AF_INET6: u8 = 28;

pub const AF_NATM: u8 = 29;

pub const AF_ATM: u8 = 30;

pub const AF_NETGRAPH: u8 = 32;

/// The address family named by the first byte of a message header.
#[derive(Debug, PartialEq, Eq, Clone, Copy)]
pub enum AddressFamily {
    Unspec,
    Local,
    Unix,
    Inet,
    Implink,
    Pup,
    Chaos,
    Netbios,
    Iso,
    Osi,
    Ecma,
    Datakit,
    Ccitt,
    Sna,
    Decnet,
    Dli,
    Lat,
    Hylink,
    Appletalk,
    Route,
    Link,
    Coip,
    Cnt,
    Ipx,
    Sip,
    Isdn,
    E164,
    Inet6,
    Natm,
    Atm,
    Netgraph,
    Other(u8),
}

impl Default for AddressFamily {
    fn default() -> (r: Self)
        ensures
            r == AddressFamily::Unspec,
    {
        AddressFamily::Unspec
    }
}

/// The family a header byte decodes to. Aliased values (`AF_UNIX` equals
/// `AF_LOCAL`, `AF_OSI` equals `AF_ISO`, `AF_E164` equals `AF_ISDN`) decode
/// to the first-listed name.
pub open spec fn spec_af_from_u8(d: u8) -> AddressFamily {
    if d == AF_UNSPEC {
        AddressFamily::Unspec
    } else if d == AF_LOCAL {
        AddressFamily::Local
    } else if d == AF_INET {
        AddressFamily::Inet
    } else if d == AF_IMPLINK {
        AddressFamily::Implink
    } else if d == AF_PUP {
        AddressFamily::Pup
    } else if d == AF_CHAOS {
        AddressFamily::Chaos
    } else if d == AF_NETBIOS {
        AddressFamily::Netbios
    } else if d == AF_ISO {
        AddressFamily::Iso
    } else if d == AF_ECMA {
        AddressFamily::Ecma
    } else if d == AF_DATAKIT {
        AddressFamily::Datakit
    } else if d == AF_CCITT {
        AddressFamily::Ccitt
    } else if d == AF_SNA {
        AddressFamily::Sna
    } else if d == AF_DECNET {
        AddressFamily::Decnet
    } else if d == AF_DLI {
        AddressFamily::Dli
    } else if d == AF_LAT {
        AddressFamily::Lat
    } else if d == AF_HYLINK {
        AddressFamily::Hylink
    } else if d == AF_APPLETALK {
        AddressFamily::Appletalk
    } else if d == AF_ROUTE {
        AddressFamily::Route
    } else if d == AF_LINK {
        AddressFamily::Link
    } else if d == AF_COIP {
        AddressFamily::Coip
    } else if d == AF_CNT {
        AddressFamily::Cnt
    } else if d == AF_IPX {
        AddressFamily::Ipx
    } else if d == AF_SIP {
        AddressFamily::Sip
    } else if d == AF_ISDN {
        AddressFamily::Isdn
    } else if d == AF_INET6 {
        AddressFamily::Inet6
    } else if d == AF_NATM {
        AddressFamily::Natm
    } else if d == AF_ATM {
        AddressFamily::Atm
    } else if d == AF_NETGRAPH {
        AddressFamily::Netgraph
    } else {
        AddressFamily::Other(d)
    }
}

/// The header byte a family encodes to.
pub open spec fn spec_af_to_u8(v: AddressFamily) -> u8 {
    match v {
        AddressFamily::Unspec => AF_UNSPEC,
        AddressFamily::Local => AF_LOCAL,
        AddressFamily::Unix => AF_UNIX,
        AddressFamily::Inet => AF_INET,
        AddressFamily::Implink => AF_IMPLINK,
        AddressFamily::Pup => AF_PUP,
        AddressFamily::Chaos => AF_CHAOS,
        AddressFamily::Netbios => AF_NETBIOS,
        AddressFamily::Iso => AF_ISO,
        AddressFamily::Osi => AF_OSI,
        AddressFamily::Ecma => AF_ECMA,
        AddressFamily::Datakit => AF_DATAKIT,
        AddressFamily::Ccitt => AF_CCITT,
        AddressFamily::Sna => AF_SNA,
        AddressFamily::Decnet => AF_DECNET,
        AddressFamily::Dli => AF_DLI,
        AddressFamily::Lat => AF_LAT,
        AddressFamily::Hylink => AF_HYLINK,
        AddressFamily::Appletalk => AF_APPLETALK,
        AddressFamily::Route => AF_ROUTE,
        AddressFamily::Link => AF_LINK,
        AddressFamily::Coip => AF_COIP,
        AddressFamily::Cnt => AF_CNT,
        AddressFamily::Ipx => AF_IPX,
        AddressFamily::Sip => AF_SIP,
        AddressFamily::Isdn => AF_ISDN,
        AddressFamily::E164 => AF_E164,
        AddressFamily::Inet6 => AF_INET6,
        AddressFamily::Natm => AF_NATM,
        AddressFamily::Atm => AF_ATM,
        AddressFamily::Netgraph => AF_NETGRAPH,
        AddressFamily::Other(d) => d,
    }
}

/// A family value the decoder can produce: decoding its byte yields the value
/// itself. This excludes the second name of an aliased value and an `Other`
/// holding a recognized byte.
pub open spec fn spec_af_canonical(v: AddressFamily) -> bool {
    spec_af_from_u8(spec_af_to_u8(v)) == v
}

impl From<u8> for AddressFamily {
    /// Decodes a header byte, per [`spec_af_from_u8`].
    fn from(d: u8) -> (r: Self) {
        if d == AF_UNSPEC {
            Self::Unspec
        } else if d == AF_LOCAL {
            Self::Local
        } else if d == AF_INET {
            Self::Inet
        } else if d == AF_IMPLINK {
            Self::Implink
        } else if d == AF_PUP {
            Self::Pup
        } else if d == AF_CHAOS {
            Self::Chaos
        } else if d == AF_NETBIOS {
            Self::Netbios
        } else if d == AF_ISO {
            Self::Iso
        } else if d == AF_ECMA {
            Self::Ecma
        } else if d == AF_DATAKIT {
            Self::Datakit
        } else if d == AF_CCITT {
            Self::Ccitt
        } else if d == AF_SNA {
            Self::Sna
        } else if d == AF_DECNET {
            Self::Decnet
        } else if d == AF_DLI {
            Self::Dli
        } else if d == AF_LAT {
            Self::Lat
        } else if d == AF_HYLINK {
            Self::Hylink
        } else if d == AF_APPLETALK {
            Self::Appletalk
        } else if d == AF_ROUTE {
            Self::Route
        } else if d == AF_LINK {
            Self::Link
        } else if d == AF_COIP {
            Self::Coip
        } else if d == AF_CNT {
            Self::Cnt
        } else if d == AF_IPX {
            Self::Ipx
        } else if d == AF_SIP {
            Self::Sip
        } else if d == AF_ISDN {
            Self::Isdn
        } else if d == AF_INET6 {
            Self::Inet6
        } else if d == AF_NATM {
            Self::Natm
        } else if d == AF_ATM {
            Self::Atm
        } else if d == AF_NETGRAPH {
            Self::Netgraph
        } else {
            Self::Other(d)
        }
    }
}

impl vstd::std_specs::convert::FromSpecImpl<u8> for AddressFamily {
    open spec fn obeys_from_spec() -> bool {
        true
    }

    open spec fn from_spec(d: u8) -> Self {
        spec_af_from_u8(d)
    }
}

impl From<AddressFamily> for u8 {
    /// Encodes a family as its header byte, per [`spec_af_to_u8`].
    fn from(v: AddressFamily) -> (r: u8) {
        match v {
            AddressFamily::Unspec => AF_UNSPEC,
            AddressFamily::Local => AF_LOCAL,
            AddressFamily::Unix => AF_UNIX,
            AddressFamily::Inet => AF_INET,
            AddressFamily::Implink => AF_IMPLINK,
            AddressFamily::Pup => AF_PUP,
            AddressFamily::Chaos => AF_CHAOS,
            AddressFamily::Netbios => AF_NETBIOS,
            AddressFamily::Iso => AF_ISO,
            AddressFamily::Osi => AF_OSI,
            AddressFamily::Ecma => AF_ECMA,
            AddressFamily::Datakit => AF_DATAKIT,
            AddressFamily::Ccitt => AF_CCITT,
            AddressFamily::Sna => AF_SNA,
            AddressFamily::Decnet => AF_DECNET,
            AddressFamily::Dli => AF_DLI,
            AddressFamily::Lat => AF_LAT,
            AddressFamily::Hylink => AF_HYLINK,
            AddressFamily::Appletalk => AF_APPLETALK,
            AddressFamily::Route => AF_ROUTE,
            AddressFamily::Link => AF_LINK,
            AddressFamily::Coip => AF_COIP,
            AddressFamily::Cnt => AF_CNT,
            AddressFamily::Ipx => AF_IPX,
            AddressFamily::Sip => AF_SIP,
            AddressFamily::Isdn => AF_ISDN,
            AddressFamily::E164 => AF_E164,
            AddressFamily::Inet6 => AF_INET6,
            AddressFamily::Natm => AF_NATM,
            AddressFamily::Atm => AF_ATM,
            AddressFamily::Netgraph => AF_NETGRAPH,
            AddressFamily::Other(d) => d,
        }
    }
}

impl vstd::std_specs::convert::FromSpecImpl<AddressFamily> for u8 {
    open spec fn obeys_from_spec() -> bool {
        true
    }

    open spec fn from_spec(v: AddressFamily) -> Self {
        spec_af_to_u8(v)
    }
}

/// Decoding a byte and encoding it back is the identity: every header byte,
/// recognized or not, survives a decode/encode round trip unchanged.
pub proof fn lemma_af_u8_roundtrip(d: u8)
    ensures
        spec_af_to_u8(spec_af_from_u8(d)) == d,
        spec_af_canonical(spec_af_from_u8(d)),
{
}

} // verus!
