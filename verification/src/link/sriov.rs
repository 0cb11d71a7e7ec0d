//! SR-IOV virtual-function information: the VF-info list attribute holds
//! one nested block per virtual function, each block itself a sequence of
//! fixed-shape records, VLAN lists, and statistics counters.

use vstd::prelude::*;

use crate::bytes::{
    push_u16_be, push_u32_le, push_u64_le, push_zeros, read_u16_be_at, read_u32_le_at,
    read_u64_le_at, spec_u16_be, spec_u16_be_bytes, spec_u32_le, spec_u32_le_bytes, spec_u64_le,
    spec_u64_le_bytes, spec_zeros,
};
use crate::error::{DecodeError, ErrorCause, ErrorFrame};
use crate::nla::{
    spec_nla_bytes, spec_nla_consumed, spec_nla_head_valid, spec_nla_kind, spec_nla_value,
    split_nla_at, DefaultNla, DefaultNlaV,
};

verus! {

broadcast use
    vstd::seq::axiom_seq_index_decreases,
    vstd::seq::axiom_seq_subrange_decreases,
    vstd::std_specs::vec::axiom_vec_index_decreases,
;

/// Record kind inside a VF-info list: one virtual function's block.
pub const IFLA_VF_INFO: u16 = 1;

pub const IFLA_VF_MAC: u16 = 1;

pub const IFLA_VF_VLAN: u16 = 2;

pub const IFLA_VF_TX_RATE: u16 = 3;

pub const IFLA_VF_SPOOFCHK: u16 = 4;

pub const IFLA_VF_LINK_STATE: u16 = 5;

pub const IFLA_VF_RATE: u16 = 6;

pub const IFLA_VF_RSS_QUERY_EN: u16 = 7;

pub const IFLA_VF_STATS: u16 = 8;

pub const IFLA_VF_TRUST: u16 = 9;

pub const IFLA_VF_VLAN_LIST: u16 = 12;

pub const IFLA_VF_BROADCAST: u16 = 13;

pub const IFLA_VF_VLAN_INFO: u16 = 1;

pub const IFLA_VF_STATS_RX_PACKETS: u16 = 0;

pub const IFLA_VF_STATS_TX_PACKETS: u16 = 1;

pub const IFLA_VF_STATS_RX_BYTES: u16 = 2;

pub const IFLA_VF_STATS_TX_BYTES: u16 = 3;

pub const IFLA_VF_STATS_BROADCAST: u16 = 4;

pub const IFLA_VF_STATS_MULTICAST: u16 = 5;

pub const IFLA_VF_STATS_RX_DROPPED: u16 = 7;

pub const IFLA_VF_STATS_TX_DROPPED: u16 = 8;

/// A VF link state setting.
#[derive(Debug, PartialEq, Eq, Clone, Copy)]
pub enum VfLinkState {
    Auto,
    Enable,
    Disable,
    Other(u32),
}

/// The VF link state a payload word decodes to.
pub open spec fn spec_vf_link_state_from_u32(d: u32) -> VfLinkState {
    if d == 0 {
        VfLinkState::Auto
    } else if d == 1 {
        VfLinkState::Enable
    } else if d == 2 {
        VfLinkState::Disable
    } else {
        VfLinkState::Other(d)
    }
}

/// The payload word a VF link state encodes to.
pub open spec fn spec_vf_link_state_to_u32(v: VfLinkState) -> u32 {
    match v {
        VfLinkState::Auto => 0,
        VfLinkState::Enable => 1,
        VfLinkState::Disable => 2,
        VfLinkState::Other(d) => d,
    }
}

impl VfLinkState {
    /// Decodes a link-state word, per [`spec_vf_link_state_from_u32`].
    pub fn from_u32(d: u32) -> (r: Self)
        ensures
            r == spec_vf_link_state_from_u32(d),
    {
        if d == 0 {
            VfLinkState::Auto
        } else if d == 1 {
            VfLinkState::Enable
        } else if d == 2 {
            VfLinkState::Disable
        } else {
            VfLinkState::Other(d)
        }
    }

    /// Encodes the link state, per [`spec_vf_link_state_to_u32`].
    pub fn as_u32(&self) -> (r: u32)
        ensures
            r == spec_vf_link_state_to_u32(*self),
    {
        match *self {
            VfLinkState::Auto => 0,
            VfLinkState::Enable => 1,
            VfLinkState::Disable => 2,
            VfLinkState::Other(d) => d,
        }
    }
}

/// An 802.1 VLAN tag protocol, sent in network byte order.
#[derive(Debug, PartialEq, Eq, Clone, Copy)]
pub enum VlanProtocol {
    Ieee8021Q,
    Ieee8021Ad,
    Other(u16),
}

/// The protocol a network-order code decodes to.
pub open spec fn spec_vlan_proto_from_u16(d: u16) -> VlanProtocol {
    if d == 0x8100 {
        VlanProtocol::Ieee8021Q
    } else if d == 0x88a8 {
        VlanProtocol::Ieee8021Ad
    } else {
        VlanProtocol::Other(d)
    }
}

/// The code a protocol encodes to.
pub open spec fn spec_vlan_proto_to_u16(v: VlanProtocol) -> u16 {
    match v {
        VlanProtocol::Ieee8021Q => 0x8100,
        VlanProtocol::Ieee8021Ad => 0x88a8,
        VlanProtocol::Other(d) => d,
    }
}

impl VlanProtocol {
    /// Decodes a protocol code, per [`spec_vlan_proto_from_u16`].
    pub fn from_u16(d: u16) -> (r: Self)
        ensures
            r == spec_vlan_proto_from_u16(d),
    {
        if d == 0x8100 {
            VlanProtocol::Ieee8021Q
        } else if d == 0x88a8 {
            VlanProtocol::Ieee8021Ad
        } else {
            VlanProtocol::Other(d)
        }
    }

    /// Encodes the protocol, per [`spec_vlan_proto_to_u16`].
    pub fn as_u16(&self) -> (r: u16)
        ensures
            r == spec_vlan_proto_to_u16(*self),
    {
        match *self {
            VlanProtocol::Ieee8021Q => 0x8100,
            VlanProtocol::Ieee8021Ad => 0x88a8,
            VlanProtocol::Other(d) => d,
        }
    }
}

/// A VF MAC address record: the VF index and the hardware address, padded
/// on the wire to the kernel's 32-byte address field.
#[derive(Debug, PartialEq, Eq, Clone)]
pub struct VfInfoMac {
    pub vf_id: u32,
    pub mac: Vec<u8>,
}

impl VfInfoMac {
    /// A MAC record from the VF index and address bytes.
    pub fn new(vf_id: u32, mac: &[u8]) -> (r: VfInfoMac)
        ensures
            r.vf_id == vf_id,
            r.mac@ == mac@,
    {
        VfInfoMac { vf_id, mac: vstd::slice::slice_to_vec(mac) }
    }
}

/// A VF broadcast address record.
#[derive(Debug, PartialEq, Eq, Clone)]
pub struct VfInfoBroadcast {
    pub addr: Vec<u8>,
}

impl VfInfoBroadcast {
    /// A broadcast record from the address bytes.
    pub fn new(addr: &[u8]) -> (r: VfInfoBroadcast)
        ensures
            r.addr@ == addr@,
    {
        VfInfoBroadcast { addr: vstd::slice::slice_to_vec(addr) }
    }
}

/// A VF VLAN assignment record.
#[derive(Debug, PartialEq, Eq, Clone, Copy)]
pub struct VfInfoVlan {
    pub vf_id: u32,
    pub vlan_id: u32,
    pub qos: u32,
}

/// A VF rate-limit record with minimum and maximum transmit rates.
#[derive(Debug, PartialEq, Eq, Clone, Copy)]
pub struct VfInfoRate {
    pub vf_id: u32,
    pub min_tx_rate: u32,
    pub max_tx_rate: u32,
}

/// A VF legacy transmit-rate record.
#[derive(Debug, PartialEq, Eq, Clone, Copy)]
pub struct VfInfoTxRate {
    pub vf_id: u32,
    pub rate: u32,
}

/// A VF spoof-check setting.
#[derive(Debug, PartialEq, Eq, Clone, Copy)]
pub struct VfInfoSpoofCheck {
    pub vf_id: u32,
    pub enabled: bool,
}

/// A VF link-state setting.
#[derive(Debug, PartialEq, Eq, Clone, Copy)]
pub struct VfInfoLinkState {
    pub vf_id: u32,
    pub state: VfLinkState,
}

/// A VF RSS-query setting.
#[derive(Debug, PartialEq, Eq, Clone, Copy)]
pub struct VfInfoRssQueryEn {
    pub vf_id: u32,
    pub enabled: bool,
}

/// A VF trust setting.
#[derive(Debug, PartialEq, Eq, Clone, Copy)]
pub struct VfInfoTrust {
    pub vf_id: u32,
    pub enabled: bool,
}

/// A VLAN record with an explicit tag protocol.
#[derive(Debug, PartialEq, Eq, Clone, Copy)]
pub struct VfVlanInfo {
    pub vf_id: u32,
    pub vlan_id: u32,
    pub qos: u32,
    pub protocol: VlanProtocol,
}

/// One record of a VF VLAN list.
#[derive(Debug, PartialEq, Eq)]
pub enum VfVlan {
    Info(VfVlanInfo),
    Other(DefaultNla),
}

/// The mathematical form of a VF VLAN record.
pub ghost enum VfVlanV {
    Info(VfVlanInfo),
    Other(DefaultNlaV),
}

/// The mathematical form of a VF VLAN value.
pub open spec fn spec_view_vf_vlan(v: VfVlan) -> VfVlanV {
    match v {
        VfVlan::Info(i) => VfVlanV::Info(i),
        VfVlan::Other(n) => VfVlanV::Other(n@),
    }
}

/// One statistics counter of a VF.
#[derive(Debug, PartialEq, Eq)]
pub enum VfStats {
    RxPackets(u64),
    TxPackets(u64),
    RxBytes(u64),
    TxBytes(u64),
    Broadcast(u64),
    Multicast(u64),
    RxDropped(u64),
    TxDropped(u64),
    Other(DefaultNla),
}

/// The mathematical form of a VF statistics counter.
pub ghost enum VfStatsV {
    RxPackets(u64),
    TxPackets(u64),
    RxBytes(u64),
    TxBytes(u64),
    Broadcast(u64),
    Multicast(u64),
    RxDropped(u64),
    TxDropped(u64),
    Other(DefaultNlaV),
}

/// The mathematical form of a VF statistics value.
pub open spec fn spec_view_vf_stats(v: VfStats) -> VfStatsV {
    match v {
        VfStats::RxPackets(x) => VfStatsV::RxPackets(x),
        VfStats::TxPackets(x) => VfStatsV::TxPackets(x),
        VfStats::RxBytes(x) => VfStatsV::RxBytes(x),
        VfStats::TxBytes(x) => VfStatsV::TxBytes(x),
        VfStats::Broadcast(x) => VfStatsV::Broadcast(x),
        VfStats::Multicast(x) => VfStatsV::Multicast(x),
        VfStats::RxDropped(x) => VfStatsV::RxDropped(x),
        VfStats::TxDropped(x) => VfStatsV::TxDropped(x),
        VfStats::Other(n) => VfStatsV::Other(n@),
    }
}

/// One record of a VF-info block.
#[derive(Debug, PartialEq, Eq)]
pub enum VfInfo {
    Mac(VfInfoMac),
    Vlan(VfInfoVlan),
    TxRate(VfInfoTxRate),
    SpoofCheck(VfInfoSpoofCheck),
    LinkState(VfInfoLinkState),
    Rate(VfInfoRate),
    RssQueryEn(VfInfoRssQueryEn),
    Stats(Vec<VfStats>),
    Trust(VfInfoTrust),
    VlanList(Vec<VfVlan>),
    Broadcast(VfInfoBroadcast),
    Other(DefaultNla),
}

/// The mathematical form of a VF-info record.
pub ghost enum VfInfoV {
    Mac { vf_id: u32, mac: Seq<u8> },
    Vlan(VfInfoVlan),
    TxRate(VfInfoTxRate),
    SpoofCheck(VfInfoSpoofCheck),
    LinkState(VfInfoLinkState),
    Rate(VfInfoRate),
    RssQueryEn(VfInfoRssQueryEn),
    Stats(Seq<VfStatsV>),
    Trust(VfInfoTrust),
    VlanList(Seq<VfVlanV>),
    Broadcast { addr: Seq<u8> },
    Other(DefaultNlaV),
}

/// One virtual function's block: the sequence of records describing it.
#[derive(Debug, PartialEq, Eq)]
pub struct LinkVfInfo(pub Vec<VfInfo>);

/// The mathematical form of a VF block.
pub ghost struct LinkVfInfoV(pub Seq<VfInfoV>);

/// The mathematical forms of VF VLAN records held in a vector.
pub open spec fn spec_view_vf_vlans_from(v: Vec<VfVlan>, i: int) -> Seq<VfVlanV>
    decreases v@.len() - i,
{
    if i < 0 || i >= v@.len() {
        Seq::empty()
    } else {
        seq![spec_view_vf_vlan(v@[i])] + spec_view_vf_vlans_from(v, i + 1)
    }
}

/// Elementwise characterization of [`spec_view_vf_vlans_from`].
pub proof fn lemma_view_vf_vlans(v: Vec<VfVlan>)
    ensures
        spec_view_vf_vlans_from(v, 0).len() == v@.len(),
        forall|j: int|
            0 <= j < v@.len() ==> spec_view_vf_vlans_from(v, 0)[j] == spec_view_vf_vlan(v@[j]),
{
    assert forall|i: int| 0 <= i <= v@.len() implies spec_view_vf_vlans_from(v, i).len() == v@.len()
        - i && (forall|j: int|
        i <= j < v@.len() ==> spec_view_vf_vlans_from(v, i)[j - i] == spec_view_vf_vlan(
            v@[j],
        )) by {
        lemma_view_vf_vlans_from_aux(v, i);
    }
}

proof fn lemma_view_vf_vlans_from_aux(v: Vec<VfVlan>, i: int)
    requires
        0 <= i <= v@.len(),
    ensures
        spec_view_vf_vlans_from(v, i).len() == v@.len() - i,
        forall|j: int|
            i <= j < v@.len() ==> spec_view_vf_vlans_from(v, i)[j - i] == spec_view_vf_vlan(v@[j]),
    decreases v@.len() - i,
{
    if i < v@.len() {
        lemma_view_vf_vlans_from_aux(v, i + 1);
    }
}

/// The mathematical forms of VF statistics counters held in a vector.
pub open spec fn spec_view_vf_stats_from(v: Vec<VfStats>, i: int) -> Seq<VfStatsV>
    decreases v@.len() - i,
{
    if i < 0 || i >= v@.len() {
        Seq::empty()
    } else {
        seq![spec_view_vf_stats(v@[i])] + spec_view_vf_stats_from(v, i + 1)
    }
}

/// Elementwise characterization of [`spec_view_vf_stats_from`].
pub proof fn lemma_view_vf_stats(v: Vec<VfStats>)
    ensures
        spec_view_vf_stats_from(v, 0).len() == v@.len(),
        forall|j: int|
            0 <= j < v@.len() ==> spec_view_vf_stats_from(v, 0)[j] == spec_view_vf_stats(v@[j]),
{
    assert forall|i: int| 0 <= i <= v@.len() implies spec_view_vf_stats_from(v, i).len() == v@.len()
        - i && (forall|j: int|
        i <= j < v@.len() ==> spec_view_vf_stats_from(v, i)[j - i] == spec_view_vf_stats(
            v@[j],
        )) by {
        lemma_view_vf_stats_from_aux(v, i);
    }
}

proof fn lemma_view_vf_stats_from_aux(v: Vec<VfStats>, i: int)
    requires
        0 <= i <= v@.len(),
    ensures
        spec_view_vf_stats_from(v, i).len() == v@.len() - i,
        forall|j: int|
            i <= j < v@.len() ==> spec_view_vf_stats_from(v, i)[j - i] == spec_view_vf_stats(v@[j]),
    decreases v@.len() - i,
{
    if i < v@.len() {
        lemma_view_vf_stats_from_aux(v, i + 1);
    }
}

/// The mathematical form of a VF-info value.
pub open spec fn spec_view_vf_info(v: VfInfo) -> VfInfoV
    decreases v,
{
    match v {
        VfInfo::Mac(m) => VfInfoV::Mac { vf_id: m.vf_id, mac: m.mac@ },
        VfInfo::Vlan(x) => VfInfoV::Vlan(x),
        VfInfo::TxRate(x) => VfInfoV::TxRate(x),
        VfInfo::SpoofCheck(x) => VfInfoV::SpoofCheck(x),
        VfInfo::LinkState(x) => VfInfoV::LinkState(x),
        VfInfo::Rate(x) => VfInfoV::Rate(x),
        VfInfo::RssQueryEn(x) => VfInfoV::RssQueryEn(x),
        VfInfo::Stats(s) => VfInfoV::Stats(spec_view_vf_stats_from(s, 0)),
        VfInfo::Trust(x) => VfInfoV::Trust(x),
        VfInfo::VlanList(s) => VfInfoV::VlanList(spec_view_vf_vlans_from(s, 0)),
        VfInfo::Broadcast(b) => VfInfoV::Broadcast { addr: b.addr@ },
        VfInfo::Other(n) => VfInfoV::Other(n@),
    }
}

impl View for VfInfo {
    type V = VfInfoV;

    open spec fn view(&self) -> VfInfoV {
        spec_view_vf_info(*self)
    }
}

/// The mathematical forms of VF-info records held in a vector.
pub open spec fn spec_view_vf_infos_from(v: Vec<VfInfo>, i: int) -> Seq<VfInfoV>
    decreases v, v@.len() - i,
{
    if i < 0 || i >= v@.len() {
        Seq::empty()
    } else {
        seq![spec_view_vf_info(v@[i])] + spec_view_vf_infos_from(v, i + 1)
    }
}

/// Elementwise characterization of [`spec_view_vf_infos_from`].
pub proof fn lemma_view_vf_infos(v: Vec<VfInfo>)
    ensures
        spec_view_vf_infos_from(v, 0).len() == v@.len(),
        forall|j: int|
            0 <= j < v@.len() ==> spec_view_vf_infos_from(v, 0)[j] == spec_view_vf_info(v@[j]),
{
    assert forall|i: int| 0 <= i <= v@.len() implies spec_view_vf_infos_from(v, i).len() == v@.len()
        - i && (forall|j: int|
        i <= j < v@.len() ==> spec_view_vf_infos_from(v, i)[j - i] == spec_view_vf_info(
            v@[j],
        )) by {
        lemma_view_vf_infos_from_aux(v, i);
    }
}

proof fn lemma_view_vf_infos_from_aux(v: Vec<VfInfo>, i: int)
    requires
        0 <= i <= v@.len(),
    ensures
        spec_view_vf_infos_from(v, i).len() == v@.len() - i,
        forall|j: int|
            i <= j < v@.len() ==> spec_view_vf_infos_from(v, i)[j - i] == spec_view_vf_info(v@[j]),
    decreases v@.len() - i,
{
    if i < v@.len() {
        lemma_view_vf_infos_from_aux(v, i + 1);
    }
}

impl View for LinkVfInfo {
    type V = LinkVfInfoV;

    open spec fn view(&self) -> LinkVfInfoV {
        LinkVfInfoV(spec_view_vf_infos_from(self.0, 0))
    }
}

/// The mathematical forms of VF blocks held in a vector.
pub open spec fn spec_view_vf_list_from(v: Vec<LinkVfInfo>, i: int) -> Seq<LinkVfInfoV>
    decreases v, v@.len() - i,
{
    if i < 0 || i >= v@.len() {
        Seq::empty()
    } else {
        seq![LinkVfInfoV(spec_view_vf_infos_from(v@[i].0, 0))] + spec_view_vf_list_from(v, i + 1)
    }
}

/// Elementwise characterization of [`spec_view_vf_list_from`].
pub proof fn lemma_view_vf_list(v: Vec<LinkVfInfo>)
    ensures
        spec_view_vf_list_from(v, 0).len() == v@.len(),
        forall|j: int|
            0 <= j < v@.len() ==> spec_view_vf_list_from(v, 0)[j] == LinkVfInfoV(
                spec_view_vf_infos_from(v@[j].0, 0),
            ),
{
    assert forall|i: int| 0 <= i <= v@.len() implies spec_view_vf_list_from(v, i).len() == v@.len()
        - i && (forall|j: int|
        i <= j < v@.len() ==> spec_view_vf_list_from(v, i)[j - i] == LinkVfInfoV(
            spec_view_vf_infos_from(v@[j].0, 0),
        )) by {
        lemma_view_vf_list_from_aux(v, i);
    }
}

proof fn lemma_view_vf_list_from_aux(v: Vec<LinkVfInfo>, i: int)
    requires
        0 <= i <= v@.len(),
    ensures
        spec_view_vf_list_from(v, i).len() == v@.len() - i,
        forall|j: int|
            i <= j < v@.len() ==> spec_view_vf_list_from(v, i)[j - i] == LinkVfInfoV(
                spec_view_vf_infos_from(v@[j].0, 0),
            ),
    decreases v@.len() - i,
{
    if i < v@.len() {
        lemma_view_vf_list_from_aux(v, i + 1);
    }
}

/// The kind code a VF VLAN record emits.
pub open spec fn spec_vf_vlan_kind(v: VfVlanV) -> u16 {
    match v {
        VfVlanV::Info(_) => IFLA_VF_VLAN_INFO,
        VfVlanV::Other(n) => n.kind,
    }
}

/// The value bytes a VF VLAN record emits: three words, the tag protocol in
/// network order, and two bytes of structure padding.
pub open spec fn spec_vf_vlan_value(v: VfVlanV) -> Seq<u8> {
    match v {
        VfVlanV::Info(i) => spec_u32_le_bytes(i.vf_id) + spec_u32_le_bytes(i.vlan_id)
            + spec_u32_le_bytes(i.qos) + spec_u16_be_bytes(spec_vlan_proto_to_u16(i.protocol))
            + spec_zeros(2),
        VfVlanV::Other(n) => n.value,
    }
}

/// A VF VLAN record that fits its length field.
pub open spec fn spec_vf_vlan_wf(v: VfVlanV) -> bool {
    4 + spec_vf_vlan_value(v).len() <= 0xffff
}

/// A VF VLAN record the decoder can produce.
pub open spec fn spec_vf_vlan_canonical(v: VfVlanV) -> bool {
    match v {
        VfVlanV::Info(i) => spec_vlan_proto_from_u16(spec_vlan_proto_to_u16(i.protocol))
            == i.protocol,
        VfVlanV::Other(n) => n.kind != IFLA_VF_VLAN_INFO && 4 + n.value.len() <= 0xffff,
    }
}

/// The wire bytes of a VF VLAN list.
pub open spec fn spec_vf_vlans_bytes(s: Seq<VfVlanV>) -> Seq<u8>
    decreases s,
{
    if s.len() == 0 {
        Seq::empty()
    } else {
        spec_nla_bytes(spec_vf_vlan_kind(s[0]), spec_vf_vlan_value(s[0])) + spec_vf_vlans_bytes(
            s.drop_first(),
        )
    }
}

/// Every record of the VLAN list is well formed.
pub open spec fn spec_vf_vlans_wf(s: Seq<VfVlanV>) -> bool
    decreases s,
{
    if s.len() == 0 {
        true
    } else {
        spec_vf_vlan_wf(s[0]) && spec_vf_vlans_wf(s.drop_first())
    }
}

/// Every record of the VLAN list is one the decoder can produce.
pub open spec fn spec_vf_vlans_canonical(s: Seq<VfVlanV>) -> bool
    decreases s,
{
    if s.len() == 0 {
        true
    } else {
        spec_vf_vlan_canonical(s[0]) && spec_vf_vlans_canonical(s.drop_first())
    }
}

/// The VF VLAN record one record decodes to.
pub open spec fn spec_parse_vf_vlan(kind: u16, value: Seq<u8>) -> Option<VfVlanV> {
    if kind == IFLA_VF_VLAN_INFO {
        if value.len() == 16 {
            Some(
                VfVlanV::Info(
                    VfVlanInfo {
                        vf_id: spec_u32_le(value.subrange(0, 4)),
                        vlan_id: spec_u32_le(value.subrange(4, 8)),
                        qos: spec_u32_le(value.subrange(8, 12)),
                        protocol: spec_vlan_proto_from_u16(spec_u16_be(value.subrange(12, 14))),
                    },
                ),
            )
        } else {
            None
        }
    } else {
        Some(VfVlanV::Other(DefaultNlaV { kind, value }))
    }
}

/// The VLAN list a buffer decodes to.
pub open spec fn spec_parse_vf_vlans(b: Seq<u8>) -> Option<Seq<VfVlanV>>
    decreases b.len(), 2int,
{
    if b.len() < 4 {
        Some(Seq::empty())
    } else if !spec_nla_head_valid(b) {
        None
    } else {
        match spec_parse_vf_vlan(spec_nla_kind(b), spec_nla_value(b)) {
            None => None,
            Some(x) => match spec_parse_vf_vlans(b.skip(spec_nla_consumed(b))) {
                None => None,
                Some(s) => Some(seq![x] + s),
            },
        }
    }
}

/// The kind code a VF statistics counter emits.
pub open spec fn spec_vf_stat_kind(v: VfStatsV) -> u16 {
    match v {
        VfStatsV::RxPackets(_) => IFLA_VF_STATS_RX_PACKETS,
        VfStatsV::TxPackets(_) => IFLA_VF_STATS_TX_PACKETS,
        VfStatsV::RxBytes(_) => IFLA_VF_STATS_RX_BYTES,
        VfStatsV::TxBytes(_) => IFLA_VF_STATS_TX_BYTES,
        VfStatsV::Broadcast(_) => IFLA_VF_STATS_BROADCAST,
        VfStatsV::Multicast(_) => IFLA_VF_STATS_MULTICAST,
        VfStatsV::RxDropped(_) => IFLA_VF_STATS_RX_DROPPED,
        VfStatsV::TxDropped(_) => IFLA_VF_STATS_TX_DROPPED,
        VfStatsV::Other(n) => n.kind,
    }
}

/// The value bytes a VF statistics counter emits.
pub open spec fn spec_vf_stat_value(v: VfStatsV) -> Seq<u8> {
    match v {
        VfStatsV::RxPackets(x) => spec_u64_le_bytes(x),
        VfStatsV::TxPackets(x) => spec_u64_le_bytes(x),
        VfStatsV::RxBytes(x) => spec_u64_le_bytes(x),
        VfStatsV::TxBytes(x) => spec_u64_le_bytes(x),
        VfStatsV::Broadcast(x) => spec_u64_le_bytes(x),
        VfStatsV::Multicast(x) => spec_u64_le_bytes(x),
        VfStatsV::RxDropped(x) => spec_u64_le_bytes(x),
        VfStatsV::TxDropped(x) => spec_u64_le_bytes(x),
        VfStatsV::Other(n) => n.value,
    }
}

/// Whether a kind code is a known VF statistics counter.
pub open spec fn spec_vf_stat_known_kind(kind: u16) -> bool {
    ||| kind == IFLA_VF_STATS_RX_PACKETS
    ||| kind == IFLA_VF_STATS_TX_PACKETS
    ||| kind == IFLA_VF_STATS_RX_BYTES
    ||| kind == IFLA_VF_STATS_TX_BYTES
    ||| kind == IFLA_VF_STATS_BROADCAST
    ||| kind == IFLA_VF_STATS_MULTICAST
    ||| kind == IFLA_VF_STATS_RX_DROPPED
    ||| kind == IFLA_VF_STATS_TX_DROPPED
}

/// A VF statistics counter that fits its length field.
pub open spec fn spec_vf_stat_wf(v: VfStatsV) -> bool {
    4 + spec_vf_stat_value(v).len() <= 0xffff
}

/// A VF statistics counter the decoder can produce.
pub open spec fn spec_vf_stat_canonical(v: VfStatsV) -> bool {
    match v {
        VfStatsV::Other(n) => !spec_vf_stat_known_kind(n.kind) && 4 + n.value.len() <= 0xffff,
        _ => true,
    }
}

/// The wire bytes of a VF statistics block.
pub open spec fn spec_vf_stats_bytes(s: Seq<VfStatsV>) -> Seq<u8>
    decreases s,
{
    if s.len() == 0 {
        Seq::empty()
    } else {
        spec_nla_bytes(spec_vf_stat_kind(s[0]), spec_vf_stat_value(s[0])) + spec_vf_stats_bytes(
            s.drop_first(),
        )
    }
}

/// Every counter of the statistics block is well formed.
pub open spec fn spec_vf_stats_wf(s: Seq<VfStatsV>) -> bool
    decreases s,
{
    if s.len() == 0 {
        true
    } else {
        spec_vf_stat_wf(s[0]) && spec_vf_stats_wf(s.drop_first())
    }
}

/// Every counter of the statistics block is one the decoder can produce.
pub open spec fn spec_vf_stats_canonical(s: Seq<VfStatsV>) -> bool
    decreases s,
{
    if s.len() == 0 {
        true
    } else {
        spec_vf_stat_canonical(s[0]) && spec_vf_stats_canonical(s.drop_first())
    }
}

/// The VF statistics counter one record decodes to.
pub open spec fn spec_parse_vf_stat(kind: u16, value: Seq<u8>) -> Option<VfStatsV> {
    if spec_vf_stat_known_kind(kind) {
        if value.len() == 8 {
            let x = spec_u64_le(value);
            if kind == IFLA_VF_STATS_RX_PACKETS {
                Some(VfStatsV::RxPackets(x))
            } else if kind == IFLA_VF_STATS_TX_PACKETS {
                Some(VfStatsV::TxPackets(x))
            } else if kind == IFLA_VF_STATS_RX_BYTES {
                Some(VfStatsV::RxBytes(x))
            } else if kind == IFLA_VF_STATS_TX_BYTES {
                Some(VfStatsV::TxBytes(x))
            } else if kind == IFLA_VF_STATS_BROADCAST {
                Some(VfStatsV::Broadcast(x))
            } else if kind == IFLA_VF_STATS_MULTICAST {
                Some(VfStatsV::Multicast(x))
            } else if kind == IFLA_VF_STATS_RX_DROPPED {
                Some(VfStatsV::RxDropped(x))
            } else {
                Some(VfStatsV::TxDropped(x))
            }
        } else {
            None
        }
    } else {
        Some(VfStatsV::Other(DefaultNlaV { kind, value }))
    }
}

/// The statistics block a buffer decodes to.
pub open spec fn spec_parse_vf_stats(b: Seq<u8>) -> Option<Seq<VfStatsV>>
    decreases b.len(), 2int,
{
    if b.len() < 4 {
        Some(Seq::empty())
    } else if !spec_nla_head_valid(b) {
        None
    } else {
        match spec_parse_vf_stat(spec_nla_kind(b), spec_nla_value(b)) {
            None => None,
            Some(x) => match spec_parse_vf_stats(b.skip(spec_nla_consumed(b))) {
                None => None,
                Some(s) => Some(seq![x] + s),
            },
        }
    }
}

/// The kind code a VF-info record emits.
pub open spec fn spec_vf_info_kind(v: VfInfoV) -> u16 {
    match v {
        VfInfoV::Mac { .. } => IFLA_VF_MAC,
        VfInfoV::Vlan(_) => IFLA_VF_VLAN,
        VfInfoV::TxRate(_) => IFLA_VF_TX_RATE,
        VfInfoV::SpoofCheck(_) => IFLA_VF_SPOOFCHK,
        VfInfoV::LinkState(_) => IFLA_VF_LINK_STATE,
        VfInfoV::Rate(_) => IFLA_VF_RATE,
        VfInfoV::RssQueryEn(_) => IFLA_VF_RSS_QUERY_EN,
        VfInfoV::Stats(_) => IFLA_VF_STATS,
        VfInfoV::Trust(_) => IFLA_VF_TRUST,
        VfInfoV::VlanList(_) => IFLA_VF_VLAN_LIST,
        VfInfoV::Broadcast { .. } => IFLA_VF_BROADCAST,
        VfInfoV::Other(n) => n.kind,
    }
}

/// Whether a kind code is in the known VF-info catalog.
pub open spec fn spec_vf_info_known_kind(kind: u16) -> bool {
    ||| kind == IFLA_VF_MAC
    ||| kind == IFLA_VF_VLAN
    ||| kind == IFLA_VF_TX_RATE
    ||| kind == IFLA_VF_SPOOFCHK
    ||| kind == IFLA_VF_LINK_STATE
    ||| kind == IFLA_VF_RATE
    ||| kind == IFLA_VF_RSS_QUERY_EN
    ||| kind == IFLA_VF_STATS
    ||| kind == IFLA_VF_TRUST
    ||| kind == IFLA_VF_VLAN_LIST
    ||| kind == IFLA_VF_BROADCAST
}

/// The word a boolean setting encodes to.
pub open spec fn spec_bool_u32(b: bool) -> u32 {
    if b {
        1
    } else {
        0
    }
}

/// The value bytes a VF-info record emits. Address fields are padded to the
/// kernel's fixed 32-byte form.
pub open spec fn spec_vf_info_value(v: VfInfoV) -> Seq<u8>
    decreases v,
{
    match v {
        VfInfoV::Mac { vf_id, mac } => spec_u32_le_bytes(vf_id) + mac + spec_zeros(32 - mac.len()),
        VfInfoV::Vlan(x) => spec_u32_le_bytes(x.vf_id) + spec_u32_le_bytes(x.vlan_id)
            + spec_u32_le_bytes(x.qos),
        VfInfoV::TxRate(x) => spec_u32_le_bytes(x.vf_id) + spec_u32_le_bytes(x.rate),
        VfInfoV::SpoofCheck(x) => spec_u32_le_bytes(x.vf_id) + spec_u32_le_bytes(
            spec_bool_u32(x.enabled),
        ),
        VfInfoV::LinkState(x) => spec_u32_le_bytes(x.vf_id) + spec_u32_le_bytes(
            spec_vf_link_state_to_u32(x.state),
        ),
        VfInfoV::Rate(x) => spec_u32_le_bytes(x.vf_id) + spec_u32_le_bytes(x.min_tx_rate)
            + spec_u32_le_bytes(x.max_tx_rate),
        VfInfoV::RssQueryEn(x) => spec_u32_le_bytes(x.vf_id) + spec_u32_le_bytes(
            spec_bool_u32(x.enabled),
        ),
        VfInfoV::Stats(s) => spec_vf_stats_bytes(s),
        VfInfoV::Trust(x) => spec_u32_le_bytes(x.vf_id) + spec_u32_le_bytes(
            spec_bool_u32(x.enabled),
        ),
        VfInfoV::VlanList(s) => spec_vf_vlans_bytes(s),
        VfInfoV::Broadcast { addr } => addr + spec_zeros(32 - addr.len()),
        VfInfoV::Other(n) => n.value,
    }
}

/// A VF-info record whose record, and everything nested in it, fits the
/// length fields, with address fields no longer than their wire form.
pub open spec fn spec_vf_info_wf(v: VfInfoV) -> bool
    decreases v,
{
    &&& 4 + spec_vf_info_value(v).len() <= 0xffff
    &&& match v {
        VfInfoV::Mac { mac, .. } => mac.len() <= 32,
        VfInfoV::Broadcast { addr } => addr.len() <= 32,
        VfInfoV::Stats(s) => spec_vf_stats_wf(s),
        VfInfoV::VlanList(s) => spec_vf_vlans_wf(s),
        _ => true,
    }
}

/// A VF-info record the decoder can produce: hardware addresses carry the
/// six bytes the decoder reads, and fallbacks never shadow a known kind.
pub open spec fn spec_vf_info_canonical(v: VfInfoV) -> bool
    decreases v,
{
    match v {
        VfInfoV::Mac { mac, .. } => mac.len() == 6,
        VfInfoV::Broadcast { addr } => addr.len() == 6,
        VfInfoV::LinkState(x) => spec_vf_link_state_from_u32(spec_vf_link_state_to_u32(x.state))
            == x.state,
        VfInfoV::Stats(s) => spec_vf_stats_canonical(s),
        VfInfoV::VlanList(s) => spec_vf_vlans_canonical(s),
        VfInfoV::Other(n) => !spec_vf_info_known_kind(n.kind) && 4 + n.value.len() <= 0xffff,
        _ => true,
    }
}

/// The wire bytes of one VF's record sequence.
pub open spec fn spec_vf_infos_bytes(s: Seq<VfInfoV>) -> Seq<u8>
    decreases s,
{
    if s.len() == 0 {
        Seq::empty()
    } else {
        spec_nla_bytes(spec_vf_info_kind(s[0]), spec_vf_info_value(s[0])) + spec_vf_infos_bytes(
            s.drop_first(),
        )
    }
}

/// Every record of the VF block is well formed.
pub open spec fn spec_vf_infos_wf(s: Seq<VfInfoV>) -> bool
    decreases s,
{
    if s.len() == 0 {
        true
    } else {
        spec_vf_info_wf(s[0]) && spec_vf_infos_wf(s.drop_first())
    }
}

/// Every record of the VF block is one the decoder can produce.
pub open spec fn spec_vf_infos_canonical(s: Seq<VfInfoV>) -> bool
    decreases s,
{
    if s.len() == 0 {
        true
    } else {
        spec_vf_info_canonical(s[0]) && spec_vf_infos_canonical(s.drop_first())
    }
}

/// The VF-info record one record with the given kind and value decodes to:
/// fixed shapes are checked against the kernel struct sizes; address
/// records keep the six address bytes.
pub open spec fn spec_parse_vf_info(kind: u16, value: Seq<u8>) -> Option<VfInfoV>
    decreases value.len(), 3int,
{
    if kind == IFLA_VF_MAC {
        if value.len() == 36 {
            Some(
                VfInfoV::Mac {
                    vf_id: spec_u32_le(value.subrange(0, 4)),
                    mac: value.subrange(4, 10),
                },
            )
        } else {
            None
        }
    } else if kind == IFLA_VF_VLAN {
        if value.len() == 12 {
            Some(
                VfInfoV::Vlan(
                    VfInfoVlan {
                        vf_id: spec_u32_le(value.subrange(0, 4)),
                        vlan_id: spec_u32_le(value.subrange(4, 8)),
                        qos: spec_u32_le(value.subrange(8, 12)),
                    },
                ),
            )
        } else {
            None
        }
    } else if kind == IFLA_VF_TX_RATE {
        if value.len() == 8 {
            Some(
                VfInfoV::TxRate(
                    VfInfoTxRate {
                        vf_id: spec_u32_le(value.subrange(0, 4)),
                        rate: spec_u32_le(value.subrange(4, 8)),
                    },
                ),
            )
        } else {
            None
        }
    } else if kind == IFLA_VF_SPOOFCHK {
        if value.len() == 8 {
            Some(
                VfInfoV::SpoofCheck(
                    VfInfoSpoofCheck {
                        vf_id: spec_u32_le(value.subrange(0, 4)),
                        enabled: spec_u32_le(value.subrange(4, 8)) != 0,
                    },
                ),
            )
        } else {
            None
        }
    } else if kind == IFLA_VF_LINK_STATE {
        if value.len() == 8 {
            Some(
                VfInfoV::LinkState(
                    VfInfoLinkState {
                        vf_id: spec_u32_le(value.subrange(0, 4)),
                        state: spec_vf_link_state_from_u32(spec_u32_le(value.subrange(4, 8))),
                    },
                ),
            )
        } else {
            None
        }
    } else if kind == IFLA_VF_RATE {
        if value.len() == 12 {
            Some(
                VfInfoV::Rate(
                    VfInfoRate {
                        vf_id: spec_u32_le(value.subrange(0, 4)),
                        min_tx_rate: spec_u32_le(value.subrange(4, 8)),
                        max_tx_rate: spec_u32_le(value.subrange(8, 12)),
                    },
                ),
            )
        } else {
            None
        }
    } else if kind == IFLA_VF_RSS_QUERY_EN {
        if value.len() == 8 {
            Some(
                VfInfoV::RssQueryEn(
                    VfInfoRssQueryEn {
                        vf_id: spec_u32_le(value.subrange(0, 4)),
                        enabled: spec_u32_le(value.subrange(4, 8)) != 0,
                    },
                ),
            )
        } else {
            None
        }
    } else if kind == IFLA_VF_STATS {
        match spec_parse_vf_stats(value) {
            None => None,
            Some(s) => Some(VfInfoV::Stats(s)),
        }
    } else if kind == IFLA_VF_TRUST {
        if value.len() == 8 {
            Some(
                VfInfoV::Trust(
                    VfInfoTrust {
                        vf_id: spec_u32_le(value.subrange(0, 4)),
                        enabled: spec_u32_le(value.subrange(4, 8)) != 0,
                    },
                ),
            )
        } else {
            None
        }
    } else if kind == IFLA_VF_VLAN_LIST {
        match spec_parse_vf_vlans(value) {
            None => None,
            Some(s) => Some(VfInfoV::VlanList(s)),
        }
    } else if kind == IFLA_VF_BROADCAST {
        if value.len() == 32 {
            Some(VfInfoV::Broadcast { addr: value.subrange(0, 6) })
        } else {
            None
        }
    } else {
        Some(VfInfoV::Other(DefaultNlaV { kind, value }))
    }
}

/// The VF block a buffer decodes to.
pub open spec fn spec_parse_vf_infos(b: Seq<u8>) -> Option<Seq<VfInfoV>>
    decreases b.len(), 4int,
{
    if b.len() < 4 {
        Some(Seq::empty())
    } else if !spec_nla_head_valid(b) {
        None
    } else {
        match spec_parse_vf_info(spec_nla_kind(b), spec_nla_value(b)) {
            None => None,
            Some(x) => match spec_parse_vf_infos(b.skip(spec_nla_consumed(b))) {
                None => None,
                Some(s) => Some(seq![x] + s),
            },
        }
    }
}

/// The wire bytes of a VF-info list: one record per VF block, each carrying
/// the block's records as its value.
pub open spec fn spec_vf_list_bytes(s: Seq<LinkVfInfoV>) -> Seq<u8>
    decreases s,
{
    if s.len() == 0 {
        Seq::empty()
    } else {
        spec_nla_bytes(IFLA_VF_INFO, spec_vf_infos_bytes(s[0].0)) + spec_vf_list_bytes(
            s.drop_first(),
        )
    }
}

/// Every block of the list, and its own record, is well formed.
pub open spec fn spec_vf_list_wf(s: Seq<LinkVfInfoV>) -> bool
    decreases s,
{
    if s.len() == 0 {
        true
    } else {
        &&& 4 + spec_vf_infos_bytes(s[0].0).len() <= 0xffff
        &&& spec_vf_infos_wf(s[0].0)
        &&& spec_vf_list_wf(s.drop_first())
    }
}

/// Every block of the list is one the decoder can produce.
pub open spec fn spec_vf_list_canonical(s: Seq<LinkVfInfoV>) -> bool
    decreases s,
{
    if s.len() == 0 {
        true
    } else {
        spec_vf_infos_canonical(s[0].0) && spec_vf_list_canonical(s.drop_first())
    }
}

/// The VF-info list a buffer decodes to: each record's value is one VF's
/// block; the record's own kind code carries no information and is ignored,
/// as the kernel emits it constant.
pub open spec fn spec_parse_vf_list(b: Seq<u8>) -> Option<Seq<LinkVfInfoV>>
    decreases b.len(), 5int,
{
    if b.len() < 4 {
        Some(Seq::empty())
    } else if !spec_nla_head_valid(b) {
        None
    } else {
        match spec_parse_vf_infos(spec_nla_value(b)) {
            None => None,
            Some(x) => match spec_parse_vf_list(b.skip(spec_nla_consumed(b))) {
                None => None,
                Some(s) => Some(seq![LinkVfInfoV(x)] + s),
            },
        }
    }
}


impl VfVlan {
    /// The kind code this record emits, per [`spec_vf_vlan_kind`].
    pub fn kind(&self) -> (r: u16)
        ensures
            r == spec_vf_vlan_kind(spec_view_vf_vlan(*self)),
    {
        match self {
            VfVlan::Info(_) => IFLA_VF_VLAN_INFO,
            VfVlan::Other(n) => n.kind,
        }
    }

    /// The byte length of this record's value.
    pub fn value_len(&self) -> (r: usize)
        requires
            spec_vf_vlan_wf(spec_view_vf_vlan(*self)),
        ensures
            r == spec_vf_vlan_value(spec_view_vf_vlan(*self)).len(),
    {
        match self {
            VfVlan::Info(_) => 16,
            VfVlan::Other(n) => n.value_len(),
        }
    }

    /// Appends this record's value bytes, per [`spec_vf_vlan_value`].
    pub fn emit_value(&self, out: &mut Vec<u8>)
        requires
            spec_vf_vlan_wf(spec_view_vf_vlan(*self)),
            old(out)@.len() + spec_vf_vlan_value(spec_view_vf_vlan(*self)).len() <= usize::MAX,
        ensures
            final(out)@ =~= old(out)@ + spec_vf_vlan_value(spec_view_vf_vlan(*self)),
    {
        match self {
            VfVlan::Info(i) => {
                push_u32_le(out, i.vf_id);
                push_u32_le(out, i.vlan_id);
                push_u32_le(out, i.qos);
                push_u16_be(out, i.protocol.as_u16());
                push_zeros(out, 2);
            },
            VfVlan::Other(n) => n.emit_value(out),
        }
    }

    /// The total bytes this record occupies on the wire, padding included.
    pub fn buffer_len(&self) -> (r: usize)
        requires
            spec_vf_vlan_wf(spec_view_vf_vlan(*self)),
        ensures
            r == spec_nla_bytes(
                spec_vf_vlan_kind(spec_view_vf_vlan(*self)),
                spec_vf_vlan_value(spec_view_vf_vlan(*self)),
            ).len(),
    {
        proof {
            crate::nla::lemma_nla_bytes_len(
                spec_vf_vlan_kind(spec_view_vf_vlan(*self)),
                spec_vf_vlan_value(spec_view_vf_vlan(*self)),
            );
        }
        crate::align4(4 + self.value_len())
    }

    /// Appends this record: header, value, zero padding.
    pub fn emit_into(&self, out: &mut Vec<u8>)
        requires
            spec_vf_vlan_wf(spec_view_vf_vlan(*self)),
            old(out)@.len() + spec_nla_bytes(
                spec_vf_vlan_kind(spec_view_vf_vlan(*self)),
                spec_vf_vlan_value(spec_view_vf_vlan(*self)),
            ).len() <= usize::MAX,
        ensures
            final(out)@ =~= old(out)@ + spec_nla_bytes(
                spec_vf_vlan_kind(spec_view_vf_vlan(*self)),
                spec_vf_vlan_value(spec_view_vf_vlan(*self)),
            ),
    {
        proof {
            crate::nla::lemma_nla_bytes_len(
                spec_vf_vlan_kind(spec_view_vf_vlan(*self)),
                spec_vf_vlan_value(spec_view_vf_vlan(*self)),
            );
        }
        let vl = self.value_len();
        crate::bytes::push_u16_le(out, (4 + vl) as u16);
        crate::bytes::push_u16_le(out, self.kind());
        self.emit_value(out);
        let padded = crate::align4(4 + vl);
        push_zeros(out, padded - (4 + vl));
    }

    /// Decodes one VLAN-list record, per [`spec_parse_vf_vlan`].
    pub fn parse_raw(kind: u16, value: &[u8]) -> (r: Result<VfVlan, DecodeError>)
        ensures
            match r {
                Ok(x) => spec_parse_vf_vlan(kind, value@) == Some(spec_view_vf_vlan(x)),
                Err(_) => spec_parse_vf_vlan(kind, value@) is None,
            },
    {
        let n = value.len();
        if kind == IFLA_VF_VLAN_INFO {
            if n == 16 {
                Ok(
                    VfVlan::Info(
                        VfVlanInfo {
                            vf_id: read_u32_le_at(value, 0),
                            vlan_id: read_u32_le_at(value, 4),
                            qos: read_u32_le_at(value, 8),
                            protocol: VlanProtocol::from_u16(read_u16_be_at(value, 12)),
                        },
                    ),
                )
            } else {
                Err(
                    DecodeError::new(
                        ErrorCause::InvalidValueLength { kind, expected: 16, actual: n },
                    ).context(ErrorFrame::VfVlanListValue),
                )
            }
        } else {
            Ok(VfVlan::Other(DefaultNla::new(kind, vstd::slice::slice_to_vec(value))))
        }
    }
}

impl VfStats {
    /// The kind code this counter emits, per [`spec_vf_stat_kind`].
    pub fn kind(&self) -> (r: u16)
        ensures
            r == spec_vf_stat_kind(spec_view_vf_stats(*self)),
    {
        match self {
            VfStats::RxPackets(_) => IFLA_VF_STATS_RX_PACKETS,
            VfStats::TxPackets(_) => IFLA_VF_STATS_TX_PACKETS,
            VfStats::RxBytes(_) => IFLA_VF_STATS_RX_BYTES,
            VfStats::TxBytes(_) => IFLA_VF_STATS_TX_BYTES,
            VfStats::Broadcast(_) => IFLA_VF_STATS_BROADCAST,
            VfStats::Multicast(_) => IFLA_VF_STATS_MULTICAST,
            VfStats::RxDropped(_) => IFLA_VF_STATS_RX_DROPPED,
            VfStats::TxDropped(_) => IFLA_VF_STATS_TX_DROPPED,
            VfStats::Other(n) => n.kind,
        }
    }

    /// The byte length of this counter's value.
    pub fn value_len(&self) -> (r: usize)
        requires
            spec_vf_stat_wf(spec_view_vf_stats(*self)),
        ensures
            r == spec_vf_stat_value(spec_view_vf_stats(*self)).len(),
    {
        match self {
            VfStats::Other(n) => n.value_len(),
            _ => 8,
        }
    }

    /// Appends this counter's value bytes, per [`spec_vf_stat_value`].
    pub fn emit_value(&self, out: &mut Vec<u8>)
        requires
            spec_vf_stat_wf(spec_view_vf_stats(*self)),
            old(out)@.len() + spec_vf_stat_value(spec_view_vf_stats(*self)).len() <= usize::MAX,
        ensures
            final(out)@ =~= old(out)@ + spec_vf_stat_value(spec_view_vf_stats(*self)),
    {
        match self {
            VfStats::RxPackets(x) => push_u64_le(out, *x),
            VfStats::TxPackets(x) => push_u64_le(out, *x),
            VfStats::RxBytes(x) => push_u64_le(out, *x),
            VfStats::TxBytes(x) => push_u64_le(out, *x),
            VfStats::Broadcast(x) => push_u64_le(out, *x),
            VfStats::Multicast(x) => push_u64_le(out, *x),
            VfStats::RxDropped(x) => push_u64_le(out, *x),
            VfStats::TxDropped(x) => push_u64_le(out, *x),
            VfStats::Other(n) => n.emit_value(out),
        }
    }

    /// The total bytes this counter occupies on the wire, padding included.
    pub fn buffer_len(&self) -> (r: usize)
        requires
            spec_vf_stat_wf(spec_view_vf_stats(*self)),
        ensures
            r == spec_nla_bytes(
                spec_vf_stat_kind(spec_view_vf_stats(*self)),
                spec_vf_stat_value(spec_view_vf_stats(*self)),
            ).len(),
    {
        proof {
            crate::nla::lemma_nla_bytes_len(
                spec_vf_stat_kind(spec_view_vf_stats(*self)),
                spec_vf_stat_value(spec_view_vf_stats(*self)),
            );
        }
        crate::align4(4 + self.value_len())
    }

    /// Appends this counter: header, value, zero padding.
    pub fn emit_into(&self, out: &mut Vec<u8>)
        requires
            spec_vf_stat_wf(spec_view_vf_stats(*self)),
            old(out)@.len() + spec_nla_bytes(
                spec_vf_stat_kind(spec_view_vf_stats(*self)),
                spec_vf_stat_value(spec_view_vf_stats(*self)),
            ).len() <= usize::MAX,
        ensures
            final(out)@ =~= old(out)@ + spec_nla_bytes(
                spec_vf_stat_kind(spec_view_vf_stats(*self)),
                spec_vf_stat_value(spec_view_vf_stats(*self)),
            ),
    {
        proof {
            crate::nla::lemma_nla_bytes_len(
                spec_vf_stat_kind(spec_view_vf_stats(*self)),
                spec_vf_stat_value(spec_view_vf_stats(*self)),
            );
        }
        let vl = self.value_len();
        crate::bytes::push_u16_le(out, (4 + vl) as u16);
        crate::bytes::push_u16_le(out, self.kind());
        self.emit_value(out);
        let padded = crate::align4(4 + vl);
        push_zeros(out, padded - (4 + vl));
    }

    /// Decodes one statistics counter, per [`spec_parse_vf_stat`].
    pub fn parse_raw(kind: u16, value: &[u8]) -> (r: Result<VfStats, DecodeError>)
        ensures
            match r {
                Ok(x) => spec_parse_vf_stat(kind, value@) == Some(spec_view_vf_stats(x)),
                Err(_) => spec_parse_vf_stat(kind, value@) is None,
            },
    {
        let n = value.len();
        let known = kind == IFLA_VF_STATS_RX_PACKETS || kind == IFLA_VF_STATS_TX_PACKETS || kind
            == IFLA_VF_STATS_RX_BYTES || kind == IFLA_VF_STATS_TX_BYTES || kind
            == IFLA_VF_STATS_BROADCAST || kind == IFLA_VF_STATS_MULTICAST || kind
            == IFLA_VF_STATS_RX_DROPPED || kind == IFLA_VF_STATS_TX_DROPPED;
        if known {
            if n != 8 {
                return Err(
                    DecodeError::new(
                        ErrorCause::InvalidValueLength { kind, expected: 8, actual: n },
                    ).context(ErrorFrame::VfStatsValue),
                );
            }
            proof {
                assert(value@.subrange(0, 8) =~= value@);
            }
            let x = read_u64_le_at(value, 0);
            if kind == IFLA_VF_STATS_RX_PACKETS {
                Ok(VfStats::RxPackets(x))
            } else if kind == IFLA_VF_STATS_TX_PACKETS {
                Ok(VfStats::TxPackets(x))
            } else if kind == IFLA_VF_STATS_RX_BYTES {
                Ok(VfStats::RxBytes(x))
            } else if kind == IFLA_VF_STATS_TX_BYTES {
                Ok(VfStats::TxBytes(x))
            } else if kind == IFLA_VF_STATS_BROADCAST {
                Ok(VfStats::Broadcast(x))
            } else if kind == IFLA_VF_STATS_MULTICAST {
                Ok(VfStats::Multicast(x))
            } else if kind == IFLA_VF_STATS_RX_DROPPED {
                Ok(VfStats::RxDropped(x))
            } else {
                Ok(VfStats::TxDropped(x))
            }
        } else {
            Ok(VfStats::Other(DefaultNla::new(kind, vstd::slice::slice_to_vec(value))))
        }
    }
}

/// Walks a buffer as a VF statistics block, per [`spec_parse_vf_stats`].
pub fn parse_vf_stats_bytes(b: &[u8]) -> (r: Result<Vec<VfStats>, DecodeError>)
    ensures
        match r {
            Ok(v) => spec_parse_vf_stats(b@) == Some(spec_view_vf_stats_from(v, 0)),
            Err(_) => spec_parse_vf_stats(b@) is None,
        },
{
    let n = b.len();
    let mut items: Vec<VfStats> = Vec::new();
    let ghost mut prefix: Seq<VfStatsV> = Seq::empty();
    let mut off: usize = 0;
    proof {
        assert(b@.skip(0) =~= b@);
        match spec_parse_vf_stats(b@) {
            Some(s) => {
                assert(Seq::<VfStatsV>::empty() + s =~= s);
            },
            None => {},
        }
    }
    while n - off >= 4
        invariant
            off <= n,
            n == b@.len(),
            items@.len() == prefix.len(),
            forall|j: int|
                0 <= j < prefix.len() ==> spec_view_vf_stats(#[trigger] items@[j]) == prefix[j],
            spec_parse_vf_stats(b@) == (match spec_parse_vf_stats(b@.skip(off as int)) {
                None => None::<Seq<VfStatsV>>,
                Some(s) => Some(prefix + s),
            }),
        decreases n - off,
    {
        let ghost suffix = b@.skip(off as int);
        match split_nla_at(b, off) {
            Err(e) => {
                return Err(e.context(ErrorFrame::VfStatsValue));
            },
            Ok((kind, value, consumed)) => {
                match VfStats::parse_raw(kind, value) {
                    Err(e) => {
                        return Err(e);
                    },
                    Ok(x) => {
                        proof {
                            let new_suffix = b@.skip(off + consumed);
                            assert(new_suffix =~= suffix.skip(consumed as int));
                            assert(spec_parse_vf_stats(suffix) == (match spec_parse_vf_stats(
                                new_suffix,
                            ) {
                                None => None::<Seq<VfStatsV>>,
                                Some(s) => Some(seq![spec_view_vf_stats(x)] + s),
                            }));
                            match spec_parse_vf_stats(new_suffix) {
                                Some(s2) => {
                                    assert((prefix + (seq![spec_view_vf_stats(x)] + s2)) =~= (
                                    prefix.push(spec_view_vf_stats(x)) + s2));
                                },
                                None => {},
                            }
                            prefix = prefix.push(spec_view_vf_stats(x));
                        }
                        items.push(x);
                        off = off + consumed;
                    },
                }
            },
        }
    }
    proof {
        assert(b@.skip(off as int).len() < 4);
        assert(spec_parse_vf_stats(b@.skip(off as int)) == Some(Seq::<VfStatsV>::empty()));
        assert(prefix + Seq::<VfStatsV>::empty() =~= prefix);
        lemma_view_vf_stats(items);
        assert(spec_view_vf_stats_from(items, 0) =~= prefix);
    }
    Ok(items)
}

/// Walks a buffer as a VF VLAN list, per [`spec_parse_vf_vlans`].
pub fn parse_vf_vlans_bytes(b: &[u8]) -> (r: Result<Vec<VfVlan>, DecodeError>)
    ensures
        match r {
            Ok(v) => spec_parse_vf_vlans(b@) == Some(spec_view_vf_vlans_from(v, 0)),
            Err(_) => spec_parse_vf_vlans(b@) is None,
        },
{
    let n = b.len();
    let mut items: Vec<VfVlan> = Vec::new();
    let ghost mut prefix: Seq<VfVlanV> = Seq::empty();
    let mut off: usize = 0;
    proof {
        assert(b@.skip(0) =~= b@);
        match spec_parse_vf_vlans(b@) {
            Some(s) => {
                assert(Seq::<VfVlanV>::empty() + s =~= s);
            },
            None => {},
        }
    }
    while n - off >= 4
        invariant
            off <= n,
            n == b@.len(),
            items@.len() == prefix.len(),
            forall|j: int|
                0 <= j < prefix.len() ==> spec_view_vf_vlan(#[trigger] items@[j]) == prefix[j],
            spec_parse_vf_vlans(b@) == (match spec_parse_vf_vlans(b@.skip(off as int)) {
                None => None::<Seq<VfVlanV>>,
                Some(s) => Some(prefix + s),
            }),
        decreases n - off,
    {
        let ghost suffix = b@.skip(off as int);
        match split_nla_at(b, off) {
            Err(e) => {
                return Err(e.context(ErrorFrame::VfVlanListValue));
            },
            Ok((kind, value, consumed)) => {
                match VfVlan::parse_raw(kind, value) {
                    Err(e) => {
                        return Err(e);
                    },
                    Ok(x) => {
                        proof {
                            let new_suffix = b@.skip(off + consumed);
                            assert(new_suffix =~= suffix.skip(consumed as int));
                            assert(spec_parse_vf_vlans(suffix) == (match spec_parse_vf_vlans(
                                new_suffix,
                            ) {
                                None => None::<Seq<VfVlanV>>,
                                Some(s) => Some(seq![spec_view_vf_vlan(x)] + s),
                            }));
                            match spec_parse_vf_vlans(new_suffix) {
                                Some(s2) => {
                                    assert((prefix + (seq![spec_view_vf_vlan(x)] + s2)) =~= (
                                    prefix.push(spec_view_vf_vlan(x)) + s2));
                                },
                                None => {},
                            }
                            prefix = prefix.push(spec_view_vf_vlan(x));
                        }
                        items.push(x);
                        off = off + consumed;
                    },
                }
            },
        }
    }
    proof {
        assert(b@.skip(off as int).len() < 4);
        assert(spec_parse_vf_vlans(b@.skip(off as int)) == Some(Seq::<VfVlanV>::empty()));
        assert(prefix + Seq::<VfVlanV>::empty() =~= prefix);
        lemma_view_vf_vlans(items);
        assert(spec_view_vf_vlans_from(items, 0) =~= prefix);
    }
    Ok(items)
}


/// Index access into a well-formed VF statistics block.
proof fn lemma_vf_stats_wf_index(s: Seq<VfStatsV>, i: int)
    requires
        spec_vf_stats_wf(s),
        0 <= i < s.len(),
    ensures
        spec_vf_stat_wf(s[i]),
    decreases s.len(),
{
    if i > 0 {
        lemma_vf_stats_wf_index(s.drop_first(), i - 1);
    }
}

/// Index access into a well-formed VF VLAN list.
proof fn lemma_vf_vlans_wf_index(s: Seq<VfVlanV>, i: int)
    requires
        spec_vf_vlans_wf(s),
        0 <= i < s.len(),
    ensures
        spec_vf_vlan_wf(s[i]),
    decreases s.len(),
{
    if i > 0 {
        lemma_vf_vlans_wf_index(s.drop_first(), i - 1);
    }
}

/// Index access into a well-formed VF block.
proof fn lemma_vf_infos_wf_index(s: Seq<VfInfoV>, i: int)
    requires
        spec_vf_infos_wf(s),
        0 <= i < s.len(),
    ensures
        spec_vf_info_wf(s[i]),
    decreases s.len(),
{
    if i > 0 {
        lemma_vf_infos_wf_index(s.drop_first(), i - 1);
    }
}

/// The byte length of an encoded VF statistics block.
pub fn vf_stats_value_len(v: &Vec<VfStats>) -> (r: usize)
    requires
        spec_vf_stats_wf(spec_view_vf_stats_from(*v, 0)),
        spec_vf_stats_bytes(spec_view_vf_stats_from(*v, 0)).len() <= usize::MAX,
    ensures
        r == spec_vf_stats_bytes(spec_view_vf_stats_from(*v, 0)).len(),
{
    proof {
        lemma_view_vf_stats(*v);
    }
    let ghost view = spec_view_vf_stats_from(*v, 0);
    let ghost total = spec_vf_stats_bytes(view).len() as int;
    let count = v.len();
    proof {
        assert(view.skip(0) =~= view);
    }
    let mut sum: usize = 0;
    let mut i: usize = 0;
    while i < count
        invariant
            i <= count,
            count == v@.len(),
            view == spec_view_vf_stats_from(*v, 0),
            view.len() == count,
            forall|j: int| 0 <= j < count ==> view[j] == spec_view_vf_stats(#[trigger] v@[j]),
            spec_vf_stats_wf(view),
            total == spec_vf_stats_bytes(view).len(),
            total <= usize::MAX,
            sum + spec_vf_stats_bytes(view.skip(i as int)).len() == total,
        decreases count - i,
    {
        let ghost rest = view.skip(i as int);
        proof {
            assert(rest[0] == view[i as int]);
            assert(rest.drop_first() =~= view.skip(i + 1));
            lemma_vf_stats_wf_index(view, i as int);
            assert(spec_vf_stats_bytes(rest) == spec_nla_bytes(
                spec_vf_stat_kind(rest[0]),
                spec_vf_stat_value(rest[0]),
            ) + spec_vf_stats_bytes(view.skip(i + 1)));
        }
        let a = &v[i];
        sum = sum + a.buffer_len();
        i = i + 1;
    }
    proof {
        assert(view.skip(count as int) =~= Seq::<VfStatsV>::empty());
    }
    sum
}

/// Appends the encoded counters of a VF statistics block, in order.
pub fn emit_vf_stats(v: &Vec<VfStats>, out: &mut Vec<u8>)
    requires
        spec_vf_stats_wf(spec_view_vf_stats_from(*v, 0)),
        old(out)@.len() + spec_vf_stats_bytes(spec_view_vf_stats_from(*v, 0)).len() <= usize::MAX,
    ensures
        final(out)@ =~= old(out)@ + spec_vf_stats_bytes(spec_view_vf_stats_from(*v, 0)),
{
    proof {
        lemma_view_vf_stats(*v);
    }
    let ghost view = spec_view_vf_stats_from(*v, 0);
    let ghost out0 = out@;
    let count = v.len();
    proof {
        assert(view.skip(0) =~= view);
    }
    let mut i: usize = 0;
    while i < count
        invariant
            i <= count,
            count == v@.len(),
            view == spec_view_vf_stats_from(*v, 0),
            view.len() == count,
            forall|j: int| 0 <= j < count ==> view[j] == spec_view_vf_stats(#[trigger] v@[j]),
            spec_vf_stats_wf(view),
            out0 == old(out)@,
            out0.len() + spec_vf_stats_bytes(view).len() <= usize::MAX,
            out@ + spec_vf_stats_bytes(view.skip(i as int)) =~= out0 + spec_vf_stats_bytes(view),
        decreases count - i,
    {
        let ghost rest = view.skip(i as int);
        proof {
            assert(rest[0] == view[i as int]);
            assert(rest.drop_first() =~= view.skip(i + 1));
            lemma_vf_stats_wf_index(view, i as int);
            assert(spec_vf_stats_bytes(rest) == spec_nla_bytes(
                spec_vf_stat_kind(rest[0]),
                spec_vf_stat_value(rest[0]),
            ) + spec_vf_stats_bytes(view.skip(i + 1)));
            assert(out@ + spec_vf_stats_bytes(rest) == out0 + spec_vf_stats_bytes(view));
            assert((out@ + spec_vf_stats_bytes(rest)).len() == (out0 + spec_vf_stats_bytes(
                view,
            )).len());
            assert(out@.len() + spec_vf_stats_bytes(rest).len() == out0.len()
                + spec_vf_stats_bytes(view).len());
        }
        let a = &v[i];
        a.emit_into(out);
        i = i + 1;
    }
    proof {
        assert(view.skip(count as int) =~= Seq::<VfStatsV>::empty());
    }
}

/// The byte length of an encoded VF VLAN list.
pub fn vf_vlans_value_len(v: &Vec<VfVlan>) -> (r: usize)
    requires
        spec_vf_vlans_wf(spec_view_vf_vlans_from(*v, 0)),
        spec_vf_vlans_bytes(spec_view_vf_vlans_from(*v, 0)).len() <= usize::MAX,
    ensures
        r == spec_vf_vlans_bytes(spec_view_vf_vlans_from(*v, 0)).len(),
{
    proof {
        lemma_view_vf_vlans(*v);
    }
    let ghost view = spec_view_vf_vlans_from(*v, 0);
    let ghost total = spec_vf_vlans_bytes(view).len() as int;
    let count = v.len();
    proof {
        assert(view.skip(0) =~= view);
    }
    let mut sum: usize = 0;
    let mut i: usize = 0;
    while i < count
        invariant
            i <= count,
            count == v@.len(),
            view == spec_view_vf_vlans_from(*v, 0),
            view.len() == count,
            forall|j: int| 0 <= j < count ==> view[j] == spec_view_vf_vlan(#[trigger] v@[j]),
            spec_vf_vlans_wf(view),
            total == spec_vf_vlans_bytes(view).len(),
            total <= usize::MAX,
            sum + spec_vf_vlans_bytes(view.skip(i as int)).len() == total,
        decreases count - i,
    {
        let ghost rest = view.skip(i as int);
        proof {
            assert(rest[0] == view[i as int]);
            assert(rest.drop_first() =~= view.skip(i + 1));
            lemma_vf_vlans_wf_index(view, i as int);
            assert(spec_vf_vlans_bytes(rest) == spec_nla_bytes(
                spec_vf_vlan_kind(rest[0]),
                spec_vf_vlan_value(rest[0]),
            ) + spec_vf_vlans_bytes(view.skip(i + 1)));
        }
        let a = &v[i];
        sum = sum + a.buffer_len();
        i = i + 1;
    }
    proof {
        assert(view.skip(count as int) =~= Seq::<VfVlanV>::empty());
    }
    sum
}

/// Appends the encoded records of a VF VLAN list, in order.
pub fn emit_vf_vlans(v: &Vec<VfVlan>, out: &mut Vec<u8>)
    requires
        spec_vf_vlans_wf(spec_view_vf_vlans_from(*v, 0)),
        old(out)@.len() + spec_vf_vlans_bytes(spec_view_vf_vlans_from(*v, 0)).len() <= usize::MAX,
    ensures
        final(out)@ =~= old(out)@ + spec_vf_vlans_bytes(spec_view_vf_vlans_from(*v, 0)),
{
    proof {
        lemma_view_vf_vlans(*v);
    }
    let ghost view = spec_view_vf_vlans_from(*v, 0);
    let ghost out0 = out@;
    let count = v.len();
    proof {
        assert(view.skip(0) =~= view);
    }
    let mut i: usize = 0;
    while i < count
        invariant
            i <= count,
            count == v@.len(),
            view == spec_view_vf_vlans_from(*v, 0),
            view.len() == count,
            forall|j: int| 0 <= j < count ==> view[j] == spec_view_vf_vlan(#[trigger] v@[j]),
            spec_vf_vlans_wf(view),
            out0 == old(out)@,
            out0.len() + spec_vf_vlans_bytes(view).len() <= usize::MAX,
            out@ + spec_vf_vlans_bytes(view.skip(i as int)) =~= out0 + spec_vf_vlans_bytes(view),
        decreases count - i,
    {
        let ghost rest = view.skip(i as int);
        proof {
            assert(rest[0] == view[i as int]);
            assert(rest.drop_first() =~= view.skip(i + 1));
            lemma_vf_vlans_wf_index(view, i as int);
            assert(spec_vf_vlans_bytes(rest) == spec_nla_bytes(
                spec_vf_vlan_kind(rest[0]),
                spec_vf_vlan_value(rest[0]),
            ) + spec_vf_vlans_bytes(view.skip(i + 1)));
            assert(out@ + spec_vf_vlans_bytes(rest) == out0 + spec_vf_vlans_bytes(view));
            assert((out@ + spec_vf_vlans_bytes(rest)).len() == (out0 + spec_vf_vlans_bytes(
                view,
            )).len());
            assert(out@.len() + spec_vf_vlans_bytes(rest).len() == out0.len()
                + spec_vf_vlans_bytes(view).len());
        }
        let a = &v[i];
        a.emit_into(out);
        i = i + 1;
    }
    proof {
        assert(view.skip(count as int) =~= Seq::<VfVlanV>::empty());
    }
}


impl VfInfo {
    /// The kind code this record emits, per [`spec_vf_info_kind`].
    pub fn kind(&self) -> (r: u16)
        ensures
            r == spec_vf_info_kind(self@),
    {
        match self {
            VfInfo::Mac(_) => IFLA_VF_MAC,
            VfInfo::Vlan(_) => IFLA_VF_VLAN,
            VfInfo::TxRate(_) => IFLA_VF_TX_RATE,
            VfInfo::SpoofCheck(_) => IFLA_VF_SPOOFCHK,
            VfInfo::LinkState(_) => IFLA_VF_LINK_STATE,
            VfInfo::Rate(_) => IFLA_VF_RATE,
            VfInfo::RssQueryEn(_) => IFLA_VF_RSS_QUERY_EN,
            VfInfo::Stats(_) => IFLA_VF_STATS,
            VfInfo::Trust(_) => IFLA_VF_TRUST,
            VfInfo::VlanList(_) => IFLA_VF_VLAN_LIST,
            VfInfo::Broadcast(_) => IFLA_VF_BROADCAST,
            VfInfo::Other(n) => n.kind,
        }
    }

    /// The byte length of this record's value, per [`spec_vf_info_value`].
    pub fn value_len(&self) -> (r: usize)
        requires
            spec_vf_info_wf(self@),
        ensures
            r == spec_vf_info_value(self@).len(),
        decreases self, 0int,
    {
        match self {
            VfInfo::Mac(_) => 36,
            VfInfo::Vlan(_) => 12,
            VfInfo::TxRate(_) => 8,
            VfInfo::SpoofCheck(_) => 8,
            VfInfo::LinkState(_) => 8,
            VfInfo::Rate(_) => 12,
            VfInfo::RssQueryEn(_) => 8,
            VfInfo::Stats(v) => vf_stats_value_len(v),
            VfInfo::Trust(_) => 8,
            VfInfo::VlanList(v) => vf_vlans_value_len(v),
            VfInfo::Broadcast(_) => 32,
            VfInfo::Other(n) => n.value_len(),
        }
    }

    /// Appends this record's value bytes, per [`spec_vf_info_value`].
    pub fn emit_value(&self, out: &mut Vec<u8>)
        requires
            spec_vf_info_wf(self@),
            old(out)@.len() + spec_vf_info_value(self@).len() <= usize::MAX,
        ensures
            final(out)@ =~= old(out)@ + spec_vf_info_value(self@),
        decreases self, 0int,
    {
        match self {
            VfInfo::Mac(m) => {
                push_u32_le(out, m.vf_id);
                crate::bytes::push_slice(out, m.mac.as_slice());
                push_zeros(out, 32 - m.mac.len());
            },
            VfInfo::Vlan(x) => {
                push_u32_le(out, x.vf_id);
                push_u32_le(out, x.vlan_id);
                push_u32_le(out, x.qos);
            },
            VfInfo::TxRate(x) => {
                push_u32_le(out, x.vf_id);
                push_u32_le(out, x.rate);
            },
            VfInfo::SpoofCheck(x) => {
                push_u32_le(out, x.vf_id);
                push_u32_le(out, if x.enabled { 1 } else { 0 });
            },
            VfInfo::LinkState(x) => {
                push_u32_le(out, x.vf_id);
                push_u32_le(out, x.state.as_u32());
            },
            VfInfo::Rate(x) => {
                push_u32_le(out, x.vf_id);
                push_u32_le(out, x.min_tx_rate);
                push_u32_le(out, x.max_tx_rate);
            },
            VfInfo::RssQueryEn(x) => {
                push_u32_le(out, x.vf_id);
                push_u32_le(out, if x.enabled { 1 } else { 0 });
            },
            VfInfo::Stats(v) => emit_vf_stats(v, out),
            VfInfo::Trust(x) => {
                push_u32_le(out, x.vf_id);
                push_u32_le(out, if x.enabled { 1 } else { 0 });
            },
            VfInfo::VlanList(v) => emit_vf_vlans(v, out),
            VfInfo::Broadcast(b) => {
                crate::bytes::push_slice(out, b.addr.as_slice());
                push_zeros(out, 32 - b.addr.len());
            },
            VfInfo::Other(n) => n.emit_value(out),
        }
    }

    /// The total bytes this record occupies on the wire, padding included.
    pub fn buffer_len(&self) -> (r: usize)
        requires
            spec_vf_info_wf(self@),
        ensures
            r == spec_nla_bytes(spec_vf_info_kind(self@), spec_vf_info_value(self@)).len(),
        decreases self, 1int,
    {
        proof {
            crate::nla::lemma_nla_bytes_len(spec_vf_info_kind(self@), spec_vf_info_value(self@));
        }
        crate::align4(4 + self.value_len())
    }

    /// Appends this record: header, value, zero padding.
    pub fn emit_into(&self, out: &mut Vec<u8>)
        requires
            spec_vf_info_wf(self@),
            old(out)@.len() + spec_nla_bytes(
                spec_vf_info_kind(self@),
                spec_vf_info_value(self@),
            ).len() <= usize::MAX,
        ensures
            final(out)@ =~= old(out)@ + spec_nla_bytes(
                spec_vf_info_kind(self@),
                spec_vf_info_value(self@),
            ),
        decreases self, 1int,
    {
        proof {
            crate::nla::lemma_nla_bytes_len(spec_vf_info_kind(self@), spec_vf_info_value(self@));
        }
        let vl = self.value_len();
        crate::bytes::push_u16_le(out, (4 + vl) as u16);
        crate::bytes::push_u16_le(out, self.kind());
        self.emit_value(out);
        let padded = crate::align4(4 + vl);
        push_zeros(out, padded - (4 + vl));
    }

    /// Decodes one VF-info record, per [`spec_parse_vf_info`].
    pub fn parse_raw(kind: u16, value: &[u8]) -> (r: Result<VfInfo, DecodeError>)
        ensures
            match r {
                Ok(x) => spec_parse_vf_info(kind, value@) == Some(x@),
                Err(_) => spec_parse_vf_info(kind, value@) is None,
            },
        decreases value@.len(), 3int,
    {
        let n = value.len();
        if kind == IFLA_VF_MAC {
            if n == 36 {
                let mac = vstd::slice::slice_subrange(value, 4, 10);
                Ok(VfInfo::Mac(VfInfoMac::new(read_u32_le_at(value, 0), mac)))
            } else {
                Err(Self::bad_len(kind, 36, n))
            }
        } else if kind == IFLA_VF_VLAN {
            if n == 12 {
                Ok(
                    VfInfo::Vlan(
                        VfInfoVlan {
                            vf_id: read_u32_le_at(value, 0),
                            vlan_id: read_u32_le_at(value, 4),
                            qos: read_u32_le_at(value, 8),
                        },
                    ),
                )
            } else {
                Err(Self::bad_len(kind, 12, n))
            }
        } else if kind == IFLA_VF_TX_RATE {
            if n == 8 {
                Ok(
                    VfInfo::TxRate(
                        VfInfoTxRate {
                            vf_id: read_u32_le_at(value, 0),
                            rate: read_u32_le_at(value, 4),
                        },
                    ),
                )
            } else {
                Err(Self::bad_len(kind, 8, n))
            }
        } else if kind == IFLA_VF_SPOOFCHK {
            if n == 8 {
                Ok(
                    VfInfo::SpoofCheck(
                        VfInfoSpoofCheck {
                            vf_id: read_u32_le_at(value, 0),
                            enabled: read_u32_le_at(value, 4) != 0,
                        },
                    ),
                )
            } else {
                Err(Self::bad_len(kind, 8, n))
            }
        } else if kind == IFLA_VF_LINK_STATE {
            if n == 8 {
                Ok(
                    VfInfo::LinkState(
                        VfInfoLinkState {
                            vf_id: read_u32_le_at(value, 0),
                            state: VfLinkState::from_u32(read_u32_le_at(value, 4)),
                        },
                    ),
                )
            } else {
                Err(Self::bad_len(kind, 8, n))
            }
        } else if kind == IFLA_VF_RATE {
            if n == 12 {
                Ok(
                    VfInfo::Rate(
                        VfInfoRate {
                            vf_id: read_u32_le_at(value, 0),
                            min_tx_rate: read_u32_le_at(value, 4),
                            max_tx_rate: read_u32_le_at(value, 8),
                        },
                    ),
                )
            } else {
                Err(Self::bad_len(kind, 12, n))
            }
        } else if kind == IFLA_VF_RSS_QUERY_EN {
            if n == 8 {
                Ok(
                    VfInfo::RssQueryEn(
                        VfInfoRssQueryEn {
                            vf_id: read_u32_le_at(value, 0),
                            enabled: read_u32_le_at(value, 4) != 0,
                        },
                    ),
                )
            } else {
                Err(Self::bad_len(kind, 8, n))
            }
        } else if kind == IFLA_VF_STATS {
            match parse_vf_stats_bytes(value) {
                Ok(v) => Ok(VfInfo::Stats(v)),
                Err(e) => Err(e.context(ErrorFrame::VfInfoValue)),
            }
        } else if kind == IFLA_VF_TRUST {
            if n == 8 {
                Ok(
                    VfInfo::Trust(
                        VfInfoTrust {
                            vf_id: read_u32_le_at(value, 0),
                            enabled: read_u32_le_at(value, 4) != 0,
                        },
                    ),
                )
            } else {
                Err(Self::bad_len(kind, 8, n))
            }
        } else if kind == IFLA_VF_VLAN_LIST {
            match parse_vf_vlans_bytes(value) {
                Ok(v) => Ok(VfInfo::VlanList(v)),
                Err(e) => Err(e.context(ErrorFrame::VfInfoValue)),
            }
        } else if kind == IFLA_VF_BROADCAST {
            if n == 32 {
                let addr = vstd::slice::slice_subrange(value, 0, 6);
                Ok(VfInfo::Broadcast(VfInfoBroadcast::new(addr)))
            } else {
                Err(Self::bad_len(kind, 32, n))
            }
        } else {
            Ok(VfInfo::Other(DefaultNla::new(kind, vstd::slice::slice_to_vec(value))))
        }
    }

    /// The error for a known VF-info kind with the wrong payload length.
    fn bad_len(kind: u16, expected: usize, actual: usize) -> (r: DecodeError)
        ensures
            r.cause == (ErrorCause::InvalidValueLength { kind, expected, actual }),
    {
        DecodeError::new(ErrorCause::InvalidValueLength { kind, expected, actual }).context(
            ErrorFrame::VfInfoValue,
        )
    }
}

/// Walks a buffer as one VF's record sequence, per [`spec_parse_vf_infos`].
pub fn parse_vf_infos_bytes(b: &[u8]) -> (r: Result<Vec<VfInfo>, DecodeError>)
    ensures
        match r {
            Ok(v) => spec_parse_vf_infos(b@) == Some(spec_view_vf_infos_from(v, 0)),
            Err(_) => spec_parse_vf_infos(b@) is None,
        },
    decreases b@.len(), 4int,
{
    let n = b.len();
    let mut items: Vec<VfInfo> = Vec::new();
    let ghost mut prefix: Seq<VfInfoV> = Seq::empty();
    let mut off: usize = 0;
    proof {
        assert(b@.skip(0) =~= b@);
        match spec_parse_vf_infos(b@) {
            Some(s) => {
                assert(Seq::<VfInfoV>::empty() + s =~= s);
            },
            None => {},
        }
    }
    while n - off >= 4
        invariant
            off <= n,
            n == b@.len(),
            items@.len() == prefix.len(),
            forall|j: int| 0 <= j < prefix.len() ==> spec_view_vf_info(#[trigger] items@[j]) == prefix[j],
            spec_parse_vf_infos(b@) == (match spec_parse_vf_infos(b@.skip(off as int)) {
                None => None::<Seq<VfInfoV>>,
                Some(s) => Some(prefix + s),
            }),
        decreases n - off,
    {
        let ghost suffix = b@.skip(off as int);
        match split_nla_at(b, off) {
            Err(e) => {
                return Err(e.context(ErrorFrame::VfInfoValue));
            },
            Ok((kind, value, consumed)) => {
                match VfInfo::parse_raw(kind, value) {
                    Err(e) => {
                        return Err(e);
                    },
                    Ok(x) => {
                        proof {
                            let new_suffix = b@.skip(off + consumed);
                            assert(new_suffix =~= suffix.skip(consumed as int));
                            assert(spec_parse_vf_infos(suffix) == (match spec_parse_vf_infos(
                                new_suffix,
                            ) {
                                None => None::<Seq<VfInfoV>>,
                                Some(s) => Some(seq![x@] + s),
                            }));
                            match spec_parse_vf_infos(new_suffix) {
                                Some(s2) => {
                                    assert((prefix + (seq![x@] + s2)) =~= (prefix.push(x@) + s2));
                                },
                                None => {},
                            }
                            prefix = prefix.push(x@);
                        }
                        items.push(x);
                        off = off + consumed;
                    },
                }
            },
        }
    }
    proof {
        assert(b@.skip(off as int).len() < 4);
        assert(spec_parse_vf_infos(b@.skip(off as int)) == Some(Seq::<VfInfoV>::empty()));
        assert(prefix + Seq::<VfInfoV>::empty() =~= prefix);
        lemma_view_vf_infos(items);
        assert(spec_view_vf_infos_from(items, 0) =~= prefix);
    }
    Ok(items)
}

/// Walks a buffer as a VF-info list, per [`spec_parse_vf_list`]: each
/// record's value is decoded as one VF's block.
pub fn parse_vf_list_bytes(b: &[u8]) -> (r: Result<Vec<LinkVfInfo>, DecodeError>)
    ensures
        match r {
            Ok(v) => spec_parse_vf_list(b@) == Some(spec_view_vf_list_from(v, 0)),
            Err(_) => spec_parse_vf_list(b@) is None,
        },
    decreases b@.len(), 5int,
{
    let n = b.len();
    let mut items: Vec<LinkVfInfo> = Vec::new();
    let ghost mut prefix: Seq<LinkVfInfoV> = Seq::empty();
    let mut off: usize = 0;
    proof {
        assert(b@.skip(0) =~= b@);
        match spec_parse_vf_list(b@) {
            Some(s) => {
                assert(Seq::<LinkVfInfoV>::empty() + s =~= s);
            },
            None => {},
        }
    }
    while n - off >= 4
        invariant
            off <= n,
            n == b@.len(),
            items@.len() == prefix.len(),
            forall|j: int|
                0 <= j < prefix.len() ==> LinkVfInfoV(
                    spec_view_vf_infos_from((#[trigger] items@[j]).0, 0),
                ) == prefix[j],
            spec_parse_vf_list(b@) == (match spec_parse_vf_list(b@.skip(off as int)) {
                None => None::<Seq<LinkVfInfoV>>,
                Some(s) => Some(prefix + s),
            }),
        decreases n - off,
    {
        let ghost suffix = b@.skip(off as int);
        match split_nla_at(b, off) {
            Err(e) => {
                return Err(e.context(ErrorFrame::VfInfoListValue));
            },
            Ok((_kind, value, consumed)) => {
                match parse_vf_infos_bytes(value) {
                    Err(e) => {
                        return Err(e.context(ErrorFrame::VfInfoListValue));
                    },
                    Ok(x) => {
                        let x = LinkVfInfo(x);
                        proof {
                            let new_suffix = b@.skip(off + consumed);
                            assert(new_suffix =~= suffix.skip(consumed as int));
                            assert(spec_parse_vf_list(suffix) == (match spec_parse_vf_list(
                                new_suffix,
                            ) {
                                None => None::<Seq<LinkVfInfoV>>,
                                Some(s) => Some(seq![x@] + s),
                            }));
                            match spec_parse_vf_list(new_suffix) {
                                Some(s2) => {
                                    assert((prefix + (seq![x@] + s2)) =~= (prefix.push(x@) + s2));
                                },
                                None => {},
                            }
                            prefix = prefix.push(x@);
                        }
                        items.push(x);
                        off = off + consumed;
                    },
                }
            },
        }
    }
    proof {
        assert(b@.skip(off as int).len() < 4);
        assert(spec_parse_vf_list(b@.skip(off as int)) == Some(Seq::<LinkVfInfoV>::empty()));
        assert(prefix + Seq::<LinkVfInfoV>::empty() =~= prefix);
        lemma_view_vf_list(items);
        assert(spec_view_vf_list_from(items, 0) =~= prefix);
    }
    Ok(items)
}

/// Index access into a well-formed VF-info list.
proof fn lemma_vf_list_wf_index(s: Seq<LinkVfInfoV>, i: int)
    requires
        spec_vf_list_wf(s),
        0 <= i < s.len(),
    ensures
        4 + spec_vf_infos_bytes(s[i].0).len() <= 0xffff,
        spec_vf_infos_wf(s[i].0),
    decreases s.len(),
{
    if i > 0 {
        lemma_vf_list_wf_index(s.drop_first(), i - 1);
    }
}

/// The byte length of an encoded VF-info list.
pub fn vf_list_value_len(v: &Vec<LinkVfInfo>) -> (r: usize)
    requires
        spec_vf_list_wf(spec_view_vf_list_from(*v, 0)),
        spec_vf_list_bytes(spec_view_vf_list_from(*v, 0)).len() <= usize::MAX,
    ensures
        r == spec_vf_list_bytes(spec_view_vf_list_from(*v, 0)).len(),
    decreases *v, 6int,
{
    proof {
        lemma_view_vf_list(*v);
    }
    let ghost view = spec_view_vf_list_from(*v, 0);
    let ghost total = spec_vf_list_bytes(view).len() as int;
    let count = v.len();
    proof {
        assert(view.skip(0) =~= view);
    }
    let mut sum: usize = 0;
    let mut i: usize = 0;
    while i < count
        invariant
            i <= count,
            count == v@.len(),
            view == spec_view_vf_list_from(*v, 0),
            view.len() == count,
            forall|j: int|
                0 <= j < count ==> view[j] == LinkVfInfoV(
                    spec_view_vf_infos_from((#[trigger] v@[j]).0, 0),
                ),
            spec_vf_list_wf(view),
            total == spec_vf_list_bytes(view).len(),
            total <= usize::MAX,
            sum + spec_vf_list_bytes(view.skip(i as int)).len() == total,
        decreases count - i,
    {
        let ghost rest = view.skip(i as int);
        proof {
            assert(rest[0] == view[i as int]);
            assert(rest.drop_first() =~= view.skip(i + 1));
            lemma_vf_list_wf_index(view, i as int);
            assert(spec_vf_list_bytes(rest) == spec_nla_bytes(
                IFLA_VF_INFO,
                spec_vf_infos_bytes(rest[0].0),
            ) + spec_vf_list_bytes(view.skip(i + 1)));
            crate::nla::lemma_nla_bytes_len(IFLA_VF_INFO, spec_vf_infos_bytes(rest[0].0));
        }
        let block = &v[i];
        let vl = vf_infos_value_len(&block.0);
        sum = sum + crate::align4(4 + vl);
        i = i + 1;
    }
    proof {
        assert(view.skip(count as int) =~= Seq::<LinkVfInfoV>::empty());
    }
    sum
}

/// The byte length of one VF block's encoded records.
pub fn vf_infos_value_len(v: &Vec<VfInfo>) -> (r: usize)
    requires
        spec_vf_infos_wf(spec_view_vf_infos_from(*v, 0)),
        spec_vf_infos_bytes(spec_view_vf_infos_from(*v, 0)).len() <= usize::MAX,
    ensures
        r == spec_vf_infos_bytes(spec_view_vf_infos_from(*v, 0)).len(),
    decreases *v, 2int,
{
    proof {
        lemma_view_vf_infos(*v);
    }
    let ghost view = spec_view_vf_infos_from(*v, 0);
    let ghost total = spec_vf_infos_bytes(view).len() as int;
    let count = v.len();
    proof {
        assert(view.skip(0) =~= view);
    }
    let mut sum: usize = 0;
    let mut i: usize = 0;
    while i < count
        invariant
            i <= count,
            count == v@.len(),
            view == spec_view_vf_infos_from(*v, 0),
            view.len() == count,
            forall|j: int| 0 <= j < count ==> view[j] == spec_view_vf_info(#[trigger] v@[j]),
            spec_vf_infos_wf(view),
            total == spec_vf_infos_bytes(view).len(),
            total <= usize::MAX,
            sum + spec_vf_infos_bytes(view.skip(i as int)).len() == total,
        decreases count - i,
    {
        let ghost rest = view.skip(i as int);
        proof {
            assert(rest[0] == view[i as int]);
            assert(rest.drop_first() =~= view.skip(i + 1));
            lemma_vf_infos_wf_index(view, i as int);
            assert(spec_vf_infos_bytes(rest) == spec_nla_bytes(
                spec_vf_info_kind(rest[0]),
                spec_vf_info_value(rest[0]),
            ) + spec_vf_infos_bytes(view.skip(i + 1)));
        }
        let a = &v[i];
        sum = sum + a.buffer_len();
        i = i + 1;
    }
    proof {
        assert(view.skip(count as int) =~= Seq::<VfInfoV>::empty());
    }
    sum
}

/// Appends one VF block's encoded records, in order.
pub fn emit_vf_infos(v: &Vec<VfInfo>, out: &mut Vec<u8>)
    requires
        spec_vf_infos_wf(spec_view_vf_infos_from(*v, 0)),
        old(out)@.len() + spec_vf_infos_bytes(spec_view_vf_infos_from(*v, 0)).len() <= usize::MAX,
    ensures
        final(out)@ =~= old(out)@ + spec_vf_infos_bytes(spec_view_vf_infos_from(*v, 0)),
    decreases *v, 2int,
{
    proof {
        lemma_view_vf_infos(*v);
    }
    let ghost view = spec_view_vf_infos_from(*v, 0);
    let ghost out0 = out@;
    let count = v.len();
    proof {
        assert(view.skip(0) =~= view);
    }
    let mut i: usize = 0;
    while i < count
        invariant
            i <= count,
            count == v@.len(),
            view == spec_view_vf_infos_from(*v, 0),
            view.len() == count,
            forall|j: int| 0 <= j < count ==> view[j] == spec_view_vf_info(#[trigger] v@[j]),
            spec_vf_infos_wf(view),
            out0 == old(out)@,
            out0.len() + spec_vf_infos_bytes(view).len() <= usize::MAX,
            out@ + spec_vf_infos_bytes(view.skip(i as int)) =~= out0 + spec_vf_infos_bytes(view),
        decreases count - i,
    {
        let ghost rest = view.skip(i as int);
        proof {
            assert(rest[0] == view[i as int]);
            assert(rest.drop_first() =~= view.skip(i + 1));
            lemma_vf_infos_wf_index(view, i as int);
            assert(spec_vf_infos_bytes(rest) == spec_nla_bytes(
                spec_vf_info_kind(rest[0]),
                spec_vf_info_value(rest[0]),
            ) + spec_vf_infos_bytes(view.skip(i + 1)));
            assert(out@ + spec_vf_infos_bytes(rest) == out0 + spec_vf_infos_bytes(view));
            assert((out@ + spec_vf_infos_bytes(rest)).len() == (out0 + spec_vf_infos_bytes(
                view,
            )).len());
            assert(out@.len() + spec_vf_infos_bytes(rest).len() == out0.len()
                + spec_vf_infos_bytes(view).len());
        }
        let a = &v[i];
        a.emit_into(out);
        i = i + 1;
    }
    proof {
        assert(view.skip(count as int) =~= Seq::<VfInfoV>::empty());
    }
}

/// Appends an encoded VF-info list: one record per block, in order.
pub fn emit_vf_list(v: &Vec<LinkVfInfo>, out: &mut Vec<u8>)
    requires
        spec_vf_list_wf(spec_view_vf_list_from(*v, 0)),
        old(out)@.len() + spec_vf_list_bytes(spec_view_vf_list_from(*v, 0)).len() <= usize::MAX,
    ensures
        final(out)@ =~= old(out)@ + spec_vf_list_bytes(spec_view_vf_list_from(*v, 0)),
    decreases *v, 6int,
{
    proof {
        lemma_view_vf_list(*v);
    }
    let ghost view = spec_view_vf_list_from(*v, 0);
    let ghost out0 = out@;
    let count = v.len();
    proof {
        assert(view.skip(0) =~= view);
    }
    let mut i: usize = 0;
    while i < count
        invariant
            i <= count,
            count == v@.len(),
            view == spec_view_vf_list_from(*v, 0),
            view.len() == count,
            forall|j: int|
                0 <= j < count ==> view[j] == LinkVfInfoV(
                    spec_view_vf_infos_from((#[trigger] v@[j]).0, 0),
                ),
            spec_vf_list_wf(view),
            out0 == old(out)@,
            out0.len() + spec_vf_list_bytes(view).len() <= usize::MAX,
            out@ + spec_vf_list_bytes(view.skip(i as int)) =~= out0 + spec_vf_list_bytes(view),
        decreases count - i,
    {
        let ghost rest = view.skip(i as int);
        proof {
            assert(rest[0] == view[i as int]);
            assert(rest.drop_first() =~= view.skip(i + 1));
            lemma_vf_list_wf_index(view, i as int);
            assert(spec_vf_list_bytes(rest) == spec_nla_bytes(
                IFLA_VF_INFO,
                spec_vf_infos_bytes(rest[0].0),
            ) + spec_vf_list_bytes(view.skip(i + 1)));
            crate::nla::lemma_nla_bytes_len(IFLA_VF_INFO, spec_vf_infos_bytes(rest[0].0));
            assert(out@ + spec_vf_list_bytes(rest) == out0 + spec_vf_list_bytes(view));
            assert((out@ + spec_vf_list_bytes(rest)).len() == (out0 + spec_vf_list_bytes(
                view,
            )).len());
            assert(out@.len() + spec_vf_list_bytes(rest).len() == out0.len() + spec_vf_list_bytes(
                view,
            ).len());
        }
        let block = &v[i];
        let vl = vf_infos_value_len(&block.0);
        crate::bytes::push_u16_le(out, (4 + vl) as u16);
        crate::bytes::push_u16_le(out, IFLA_VF_INFO);
        emit_vf_infos(&block.0, out);
        let padded = crate::align4(4 + vl);
        push_zeros(out, padded - (4 + vl));
        i = i + 1;
    }
    proof {
        assert(view.skip(count as int) =~= Seq::<LinkVfInfoV>::empty());
    }
}

} // verus!
