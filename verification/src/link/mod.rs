//! The link (network interface) sub-protocol: the fixed link header, the
//! typed link attributes with their nested and context-dependent payloads,
//! and the link message that combines them.

pub mod attribute;
pub mod header;
pub mod link_info;
pub mod message;
pub mod name;
pub mod sriov;
pub mod vxcan;

pub use self::attribute::{
    LinkAttribute, LinkAttributeV, LinkMode, State, IFLA_IFNAME, IFLA_LINKINFO, IFLA_LINKMODE,
    IFLA_MASTER, IFLA_MTU, IFLA_OPERSTATE, IFLA_TXQLEN, IFLA_VFINFO_LIST,
};
pub use self::header::{
    lemma_link_header_roundtrip, spec_link_header_bytes, spec_link_header_canonical,
    spec_parse_link_header, LinkHeader, LinkLayerType, ARPHRD_CAN, ARPHRD_ETHER, ARPHRD_LOOPBACK,
    ARPHRD_NETROM, LINK_FLAG_BROADCAST, LINK_FLAG_LOOPBACK, LINK_FLAG_LOWER_UP, LINK_FLAG_NOARP,
    LINK_FLAG_RUNNING, LINK_FLAG_UP, LINK_HEADER_LEN,
};
pub use self::link_info::{InfoData, InfoKind, LinkInfo, LinkInfoV, IFLA_INFO_DATA, IFLA_INFO_KIND};
pub use self::message::{
    parse_link_attributes, spec_link_attrs_bytes, spec_link_message_bytes,
    spec_link_message_canonical, spec_link_message_wf, spec_parse_link_attrs,
    spec_parse_link_message, spec_view_link_attrs, spec_view_link_message, LinkMessage,
    LinkMessageBuffer, LinkMessageV,
};
pub use self::sriov::{
    LinkVfInfo, VfInfo, VfInfoBroadcast, VfInfoLinkState, VfInfoMac, VfInfoRate, VfInfoRssQueryEn,
    VfInfoSpoofCheck, VfInfoTrust, VfInfoTxRate, VfInfoVlan, VfLinkState, VfStats, VfVlan,
    VfVlanInfo, VlanProtocol,
};
pub use self::vxcan::{InfoVxcan, InfoVxcanV, VXCAN_INFO_PEER};
