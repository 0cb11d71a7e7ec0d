//! The laws the codec guarantees, stated over the spec-level parsers and
//! encoders: decode of encode is the identity on every decodable value,
//! trailing alignment bytes are tolerated, over-length records are
//! rejected, unknown kinds are preserved verbatim, and kind-specific data
//! is interpreted only under a preceding kind name.

use vstd::prelude::*;

use crate::address_family::AddressFamily;
use crate::link::attribute::{
    spec_link_attr_canonical, spec_link_attr_kind, spec_link_attr_known_kind,
    spec_link_attr_value, spec_link_attr_wf, spec_parse_link_attr, LinkAttributeV,
};
use crate::link::header::spec_link_header_bytes;
use crate::link::link_info::{
    spec_info_context_after, spec_info_kind_name, spec_link_info_canonical, spec_link_info_kind,
    spec_link_info_value, spec_link_info_wf, spec_link_infos_bytes, spec_link_infos_canonical,
    spec_link_infos_wf, spec_parse_link_info_record, spec_parse_link_infos, InfoDataV, InfoKindV,
    LinkInfoV, IFLA_INFO_DATA, IFLA_INFO_KIND,
};
use crate::link::message::{
    spec_link_attrs_bytes, spec_link_attrs_canonical, spec_link_attrs_wf, spec_link_message_bytes,
    spec_link_message_canonical, spec_link_message_wf, spec_parse_link_attrs,
    spec_parse_link_message, LinkMessageV,
};
use crate::link::sriov::{
    spec_parse_vf_info, spec_vf_stat_canonical, spec_vf_stat_wf, spec_vf_vlan_canonical,
    spec_vf_vlan_wf, spec_parse_vf_infos, spec_parse_vf_list, spec_parse_vf_stat,
    spec_parse_vf_stats, spec_parse_vf_vlan, spec_parse_vf_vlans, spec_vf_info_canonical,
    spec_vf_info_kind, spec_vf_info_value, spec_vf_info_wf, spec_vf_infos_bytes,
    spec_vf_infos_canonical, spec_vf_infos_wf, spec_vf_list_bytes, spec_vf_list_canonical,
    spec_vf_list_wf, spec_vf_stat_kind, spec_vf_stat_value, spec_vf_stats_bytes,
    spec_vf_stats_canonical, spec_vf_stats_wf, spec_vf_vlan_kind, spec_vf_vlan_value,
    spec_vf_vlans_bytes, spec_vf_vlans_canonical, spec_vf_vlans_wf, LinkVfInfoV, VfInfoV,
    VfStatsV, VfVlanV, IFLA_VF_INFO,
};
use crate::link::vxcan::{
    spec_parse_vxcan_data, spec_vxcan_canonical, spec_vxcan_kind, spec_vxcan_value, spec_vxcan_wf,
    InfoVxcanV,
};
use crate::message::{
    spec_parse_route_message, spec_route_message_bytes, spec_route_message_canonical,
    spec_route_message_type, spec_route_message_wf, RouteNetlinkMessageV,
};
use crate::nla::{lemma_nla_bytes_parse, spec_nla_bytes, spec_nla_len};
use crate::spec_align4;

verus! {

/// Round trip of one VF statistics counter.
proof fn lemma_vf_stat_roundtrip(x: VfStatsV)
    requires
        spec_vf_stat_canonical(x),
        spec_vf_stat_wf(x),
    ensures
        spec_parse_vf_stat(spec_vf_stat_kind(x), spec_vf_stat_value(x)) == Some(x),
{
    match x {
        VfStatsV::RxPackets(v) => crate::bytes::lemma_u64_le_roundtrip(v),
        VfStatsV::TxPackets(v) => crate::bytes::lemma_u64_le_roundtrip(v),
        VfStatsV::RxBytes(v) => crate::bytes::lemma_u64_le_roundtrip(v),
        VfStatsV::TxBytes(v) => crate::bytes::lemma_u64_le_roundtrip(v),
        VfStatsV::Broadcast(v) => crate::bytes::lemma_u64_le_roundtrip(v),
        VfStatsV::Multicast(v) => crate::bytes::lemma_u64_le_roundtrip(v),
        VfStatsV::RxDropped(v) => crate::bytes::lemma_u64_le_roundtrip(v),
        VfStatsV::TxDropped(v) => crate::bytes::lemma_u64_le_roundtrip(v),
        VfStatsV::Other(_) => {},
    }
}

/// Round trip of a VF statistics block.
proof fn lemma_vf_stats_roundtrip(s: Seq<VfStatsV>)
    requires
        spec_vf_stats_canonical(s),
        spec_vf_stats_wf(s),
    ensures
        spec_parse_vf_stats(spec_vf_stats_bytes(s)) == Some(s),
    decreases s.len(),
{
    if s.len() == 0 {
        assert(spec_vf_stats_bytes(s).len() == 0);
    } else {
        let k0 = spec_vf_stat_kind(s[0]);
        let v0 = spec_vf_stat_value(s[0]);
        let rest = spec_vf_stats_bytes(s.drop_first());
        let b = spec_vf_stats_bytes(s);
        assert(spec_vf_stats_wf(s) == (spec_vf_stat_wf(s[0]) && spec_vf_stats_wf(
            s.drop_first(),
        )));
        assert(spec_vf_stats_canonical(s) == (spec_vf_stat_canonical(s[0])
            && spec_vf_stats_canonical(s.drop_first())));
        assert(b == spec_nla_bytes(k0, v0) + rest);
        lemma_nla_bytes_parse(k0, v0, rest);
        lemma_vf_stat_roundtrip(s[0]);
        lemma_vf_stats_roundtrip(s.drop_first());
        assert(seq![s[0]] + s.drop_first() =~= s);
    }
}

/// Round trip of one VF VLAN record.
proof fn lemma_vf_vlan_roundtrip(x: VfVlanV)
    requires
        spec_vf_vlan_canonical(x),
        spec_vf_vlan_wf(x),
    ensures
        spec_parse_vf_vlan(spec_vf_vlan_kind(x), spec_vf_vlan_value(x)) == Some(x),
{
    match x {
        VfVlanV::Info(i) => {
            let v = spec_vf_vlan_value(x);
            crate::bytes::lemma_u32_le_roundtrip(i.vf_id);
            crate::bytes::lemma_u32_le_roundtrip(i.vlan_id);
            crate::bytes::lemma_u32_le_roundtrip(i.qos);
            crate::bytes::lemma_u16_be_roundtrip(
                crate::link::sriov::spec_vlan_proto_to_u16(i.protocol),
            );
            assert(v.subrange(0, 4) =~= crate::bytes::spec_u32_le_bytes(i.vf_id));
            assert(v.subrange(4, 8) =~= crate::bytes::spec_u32_le_bytes(i.vlan_id));
            assert(v.subrange(8, 12) =~= crate::bytes::spec_u32_le_bytes(i.qos));
            assert(v.subrange(12, 14) =~= crate::bytes::spec_u16_be_bytes(
                crate::link::sriov::spec_vlan_proto_to_u16(i.protocol),
            ));
        },
        VfVlanV::Other(_) => {},
    }
}

/// Round trip of a VF VLAN list.
proof fn lemma_vf_vlans_roundtrip(s: Seq<VfVlanV>)
    requires
        spec_vf_vlans_canonical(s),
        spec_vf_vlans_wf(s),
    ensures
        spec_parse_vf_vlans(spec_vf_vlans_bytes(s)) == Some(s),
    decreases s.len(),
{
    if s.len() == 0 {
        assert(spec_vf_vlans_bytes(s).len() == 0);
    } else {
        let k0 = spec_vf_vlan_kind(s[0]);
        let v0 = spec_vf_vlan_value(s[0]);
        let rest = spec_vf_vlans_bytes(s.drop_first());
        let b = spec_vf_vlans_bytes(s);
        assert(spec_vf_vlans_wf(s) == (spec_vf_vlan_wf(s[0]) && spec_vf_vlans_wf(
            s.drop_first(),
        )));
        assert(spec_vf_vlans_canonical(s) == (spec_vf_vlan_canonical(s[0])
            && spec_vf_vlans_canonical(s.drop_first())));
        assert(b == spec_nla_bytes(k0, v0) + rest);
        lemma_nla_bytes_parse(k0, v0, rest);
        lemma_vf_vlan_roundtrip(s[0]);
        lemma_vf_vlans_roundtrip(s.drop_first());
        assert(seq![s[0]] + s.drop_first() =~= s);
    }
}

/// Round trip of one VF-info record.
proof fn lemma_vf_info_roundtrip(x: VfInfoV)
    requires
        spec_vf_info_canonical(x),
        spec_vf_info_wf(x),
    ensures
        spec_parse_vf_info(spec_vf_info_kind(x), spec_vf_info_value(x)) == Some(x),
    decreases x,
{
    let v = spec_vf_info_value(x);
    match x {
        VfInfoV::Mac { vf_id, mac } => {
            crate::bytes::lemma_u32_le_roundtrip(vf_id);
            assert(v.subrange(0, 4) =~= crate::bytes::spec_u32_le_bytes(vf_id));
            assert(v.subrange(4, 10) =~= mac);
        },
        VfInfoV::Vlan(i) => {
            crate::bytes::lemma_u32_le_roundtrip(i.vf_id);
            crate::bytes::lemma_u32_le_roundtrip(i.vlan_id);
            crate::bytes::lemma_u32_le_roundtrip(i.qos);
            assert(v.subrange(0, 4) =~= crate::bytes::spec_u32_le_bytes(i.vf_id));
            assert(v.subrange(4, 8) =~= crate::bytes::spec_u32_le_bytes(i.vlan_id));
            assert(v.subrange(8, 12) =~= crate::bytes::spec_u32_le_bytes(i.qos));
        },
        VfInfoV::TxRate(i) => {
            crate::bytes::lemma_u32_le_roundtrip(i.vf_id);
            crate::bytes::lemma_u32_le_roundtrip(i.rate);
            assert(v.subrange(0, 4) =~= crate::bytes::spec_u32_le_bytes(i.vf_id));
            assert(v.subrange(4, 8) =~= crate::bytes::spec_u32_le_bytes(i.rate));
        },
        VfInfoV::SpoofCheck(i) => {
            crate::bytes::lemma_u32_le_roundtrip(i.vf_id);
            crate::bytes::lemma_u32_le_roundtrip(crate::link::sriov::spec_bool_u32(i.enabled));
            assert(v.subrange(0, 4) =~= crate::bytes::spec_u32_le_bytes(i.vf_id));
            assert(v.subrange(4, 8) =~= crate::bytes::spec_u32_le_bytes(
                crate::link::sriov::spec_bool_u32(i.enabled),
            ));
        },
        VfInfoV::LinkState(i) => {
            crate::bytes::lemma_u32_le_roundtrip(i.vf_id);
            crate::bytes::lemma_u32_le_roundtrip(
                crate::link::sriov::spec_vf_link_state_to_u32(i.state),
            );
            assert(v.subrange(0, 4) =~= crate::bytes::spec_u32_le_bytes(i.vf_id));
            assert(v.subrange(4, 8) =~= crate::bytes::spec_u32_le_bytes(
                crate::link::sriov::spec_vf_link_state_to_u32(i.state),
            ));
        },
        VfInfoV::Rate(i) => {
            crate::bytes::lemma_u32_le_roundtrip(i.vf_id);
            crate::bytes::lemma_u32_le_roundtrip(i.min_tx_rate);
            crate::bytes::lemma_u32_le_roundtrip(i.max_tx_rate);
            assert(v.subrange(0, 4) =~= crate::bytes::spec_u32_le_bytes(i.vf_id));
            assert(v.subrange(4, 8) =~= crate::bytes::spec_u32_le_bytes(i.min_tx_rate));
            assert(v.subrange(8, 12) =~= crate::bytes::spec_u32_le_bytes(i.max_tx_rate));
        },
        VfInfoV::RssQueryEn(i) => {
            crate::bytes::lemma_u32_le_roundtrip(i.vf_id);
            crate::bytes::lemma_u32_le_roundtrip(crate::link::sriov::spec_bool_u32(i.enabled));
            assert(v.subrange(0, 4) =~= crate::bytes::spec_u32_le_bytes(i.vf_id));
            assert(v.subrange(4, 8) =~= crate::bytes::spec_u32_le_bytes(
                crate::link::sriov::spec_bool_u32(i.enabled),
            ));
        },
        VfInfoV::Stats(s) => {
            lemma_vf_stats_roundtrip(s);
        },
        VfInfoV::Trust(i) => {
            crate::bytes::lemma_u32_le_roundtrip(i.vf_id);
            crate::bytes::lemma_u32_le_roundtrip(crate::link::sriov::spec_bool_u32(i.enabled));
            assert(v.subrange(0, 4) =~= crate::bytes::spec_u32_le_bytes(i.vf_id));
            assert(v.subrange(4, 8) =~= crate::bytes::spec_u32_le_bytes(
                crate::link::sriov::spec_bool_u32(i.enabled),
            ));
        },
        VfInfoV::VlanList(s) => {
            lemma_vf_vlans_roundtrip(s);
        },
        VfInfoV::Broadcast { addr } => {
            assert(v.subrange(0, 6) =~= addr);
        },
        VfInfoV::Other(_) => {},
    }
}

/// Round trip of one VF's record sequence.
proof fn lemma_vf_infos_roundtrip(s: Seq<VfInfoV>)
    requires
        spec_vf_infos_canonical(s),
        spec_vf_infos_wf(s),
    ensures
        spec_parse_vf_infos(spec_vf_infos_bytes(s)) == Some(s),
    decreases s,
{
    if s.len() == 0 {
        assert(spec_vf_infos_bytes(s).len() == 0);
    } else {
        let k0 = spec_vf_info_kind(s[0]);
        let v0 = spec_vf_info_value(s[0]);
        let rest = spec_vf_infos_bytes(s.drop_first());
        let b = spec_vf_infos_bytes(s);
        assert(spec_vf_infos_wf(s) == (spec_vf_info_wf(s[0]) && spec_vf_infos_wf(
            s.drop_first(),
        )));
        assert(spec_vf_infos_canonical(s) == (spec_vf_info_canonical(s[0])
            && spec_vf_infos_canonical(s.drop_first())));
        assert(b == spec_nla_bytes(k0, v0) + rest);
        lemma_nla_bytes_parse(k0, v0, rest);
        lemma_vf_info_roundtrip(s[0]);
        lemma_vf_infos_roundtrip(s.drop_first());
        assert(seq![s[0]] + s.drop_first() =~= s);
    }
}

/// Round trip of a VF-info list.
proof fn lemma_vf_list_roundtrip(s: Seq<LinkVfInfoV>)
    requires
        spec_vf_list_canonical(s),
        spec_vf_list_wf(s),
    ensures
        spec_parse_vf_list(spec_vf_list_bytes(s)) == Some(s),
    decreases s,
{
    if s.len() == 0 {
        assert(spec_vf_list_bytes(s).len() == 0);
    } else {
        let v0 = spec_vf_infos_bytes(s[0].0);
        let rest = spec_vf_list_bytes(s.drop_first());
        let b = spec_vf_list_bytes(s);
        assert(spec_vf_list_wf(s) == (4 + spec_vf_infos_bytes(s[0].0).len() <= 0xffff
            && spec_vf_infos_wf(s[0].0) && spec_vf_list_wf(s.drop_first())));
        assert(spec_vf_list_canonical(s) == (spec_vf_infos_canonical(s[0].0)
            && spec_vf_list_canonical(s.drop_first())));
        assert(b == spec_nla_bytes(IFLA_VF_INFO, v0) + rest);
        lemma_nla_bytes_parse(IFLA_VF_INFO, v0, rest);
        lemma_vf_infos_roundtrip(s[0].0);
        lemma_vf_list_roundtrip(s.drop_first());
        assert(seq![s[0]] + s.drop_first() =~= s);
    }
}

/// Round trip of one vxcan kind-specific data attribute.
proof fn lemma_vxcan_roundtrip(iv: InfoVxcanV)
    requires
        spec_vxcan_canonical(iv),
        spec_vxcan_wf(iv),
    ensures
        spec_parse_vxcan_data(spec_nla_bytes(spec_vxcan_kind(iv), spec_vxcan_value(iv))) == Some(
            iv,
        ),
    decreases iv,
{
    let k = spec_vxcan_kind(iv);
    let v = spec_vxcan_value(iv);
    let b = spec_nla_bytes(k, v);
    assert(b =~= spec_nla_bytes(k, v) + Seq::<u8>::empty());
    lemma_nla_bytes_parse(k, v, Seq::<u8>::empty());
    assert(b.skip(crate::nla::spec_nla_consumed(b)).len() == 0);
    match iv {
        InfoVxcanV::Peer(m) => {
            lemma_link_message_roundtrip(m);
        },
        InfoVxcanV::Other(_) => {},
    }
}

/// Round trip of one link-info record under the context it is canonical
/// for.
proof fn lemma_link_info_roundtrip(i: LinkInfoV, last: Option<InfoKindV>)
    requires
        spec_link_info_canonical(i, last),
        spec_link_info_wf(i),
    ensures
        spec_parse_link_info_record(spec_link_info_kind(i), spec_link_info_value(i), last) == Some(
            i,
        ),
    decreases i,
{
    match i {
        LinkInfoV::Kind(k) => {
            crate::link::name::lemma_name_roundtrip(spec_info_kind_name(k));
        },
        LinkInfoV::Data(d) => {
            match d {
                InfoDataV::Vxcan(iv) => {
                    lemma_vxcan_roundtrip(iv);
                },
            }
        },
        LinkInfoV::Other(_) => {},
    }
}

/// Round trip of a link-info sequence under the context it is canonical
/// for.
proof fn lemma_link_infos_roundtrip(s: Seq<LinkInfoV>, last: Option<InfoKindV>)
    requires
        spec_link_infos_canonical(s, last),
        spec_link_infos_wf(s),
    ensures
        spec_parse_link_infos(spec_link_infos_bytes(s), last) == Some(s),
    decreases s,
{
    if s.len() == 0 {
        assert(spec_link_infos_bytes(s).len() == 0);
    } else {
        let k0 = spec_link_info_kind(s[0]);
        let v0 = spec_link_info_value(s[0]);
        let rest = spec_link_infos_bytes(s.drop_first());
        let b = spec_link_infos_bytes(s);
        assert(spec_link_infos_wf(s) == (spec_link_info_wf(s[0]) && spec_link_infos_wf(
            s.drop_first(),
        )));
        assert(spec_link_infos_canonical(s, last) == (spec_link_info_canonical(s[0], last)
            && spec_link_infos_canonical(s.drop_first(), spec_info_context_after(s[0], last))));
        assert(b == spec_nla_bytes(k0, v0) + rest);
        lemma_nla_bytes_parse(k0, v0, rest);
        lemma_link_info_roundtrip(s[0], last);
        lemma_link_infos_roundtrip(s.drop_first(), spec_info_context_after(s[0], last));
        assert(seq![s[0]] + s.drop_first() =~= s);
    }
}

/// Round trip of one link attribute.
proof fn lemma_link_attr_roundtrip(a: LinkAttributeV, family: AddressFamily)
    requires
        spec_link_attr_canonical(a),
        spec_link_attr_wf(a),
    ensures
        spec_parse_link_attr(spec_link_attr_kind(a), spec_link_attr_value(a), family) == Some(a),
    decreases a,
{
    match a {
        LinkAttributeV::IfName(s) => {
            crate::link::name::lemma_name_roundtrip(s);
        },
        LinkAttributeV::Mtu(v) => crate::bytes::lemma_u32_le_roundtrip(v),
        LinkAttributeV::Master(v) => crate::bytes::lemma_u32_le_roundtrip(v),
        LinkAttributeV::TxQueueLen(v) => crate::bytes::lemma_u32_le_roundtrip(v),
        LinkAttributeV::OperState(_) => {},
        LinkAttributeV::Mode(_) => {},
        LinkAttributeV::LinkInfo(s) => {
            lemma_link_infos_roundtrip(s, None);
        },
        LinkAttributeV::VfInfoList(s) => {
            lemma_vf_list_roundtrip(s);
        },
        LinkAttributeV::Other(_) => {},
    }
}

/// Round trip of a link message's attribute sequence.
proof fn lemma_link_attrs_roundtrip(s: Seq<LinkAttributeV>, family: AddressFamily)
    requires
        spec_link_attrs_canonical(s),
        spec_link_attrs_wf(s),
    ensures
        spec_parse_link_attrs(spec_link_attrs_bytes(s), family) == Some(s),
    decreases s,
{
    if s.len() == 0 {
        assert(spec_link_attrs_bytes(s).len() == 0);
    } else {
        let k0 = spec_link_attr_kind(s[0]);
        let v0 = spec_link_attr_value(s[0]);
        let rest = spec_link_attrs_bytes(s.drop_first());
        let b = spec_link_attrs_bytes(s);
        assert(spec_link_attrs_wf(s) == (spec_link_attr_wf(s[0]) && spec_link_attrs_wf(
            s.drop_first(),
        )));
        assert(spec_link_attrs_canonical(s) == (spec_link_attr_canonical(s[0])
            && spec_link_attrs_canonical(s.drop_first())));
        assert(b == spec_nla_bytes(k0, v0) + rest);
        lemma_nla_bytes_parse(k0, v0, rest);
        lemma_link_attr_roundtrip(s[0], family);
        lemma_link_attrs_roundtrip(s.drop_first(), family);
        assert(seq![s[0]] + s.drop_first() =~= s);
    }
}

/// Round-trip law for link messages: decoding the encoded form of any
/// decodable, well-formed message recovers the message exactly, nested peer
/// messages, unknown attributes and all.
pub proof fn lemma_link_message_roundtrip(m: LinkMessageV)
    requires
        spec_link_message_canonical(m),
        spec_link_message_wf(m),
    ensures
        spec_parse_link_message(spec_link_message_bytes(m)) == Some(m),
    decreases m,
{
    let hb = spec_link_header_bytes(m.header);
    let ab = spec_link_attrs_bytes(m.nlas);
    let b = spec_link_message_bytes(m);
    crate::link::header::lemma_link_header_roundtrip(m.header);
    assert(b.subrange(0, 16) =~= hb.subrange(0, 16));
    crate::link::header::lemma_parse_link_header_prefix(b, hb);
    assert(b.skip(16) =~= ab);
    lemma_link_attrs_roundtrip(m.nlas, m.header.interface_family);
}

/// Every VF statistics counter the decoder produces is canonical.
proof fn lemma_parse_vf_stat_canonical(kind: u16, value: Seq<u8>, x: VfStatsV)
    requires
        spec_parse_vf_stat(kind, value) == Some(x),
        4 + value.len() <= 0xffff,
    ensures
        spec_vf_stat_canonical(x),
{
}

/// Every VF statistics block the decoder produces is canonical.
proof fn lemma_parse_vf_stats_canonical(b: Seq<u8>, s: Seq<VfStatsV>)
    requires
        spec_parse_vf_stats(b) == Some(s),
    ensures
        spec_vf_stats_canonical(s),
    decreases b.len(), 2int,
{
    if b.len() >= 4 {
        let rest = b.skip(crate::nla::spec_nla_consumed(b));
        match spec_parse_vf_stat(crate::nla::spec_nla_kind(b), crate::nla::spec_nla_value(b)) {
            Some(x) => match spec_parse_vf_stats(rest) {
                Some(s2) => {
                    lemma_parse_vf_stat_canonical(
                        crate::nla::spec_nla_kind(b),
                        crate::nla::spec_nla_value(b),
                        x,
                    );
                    lemma_parse_vf_stats_canonical(rest, s2);
                    assert((seq![x] + s2).drop_first() =~= s2);
                },
                None => {},
            },
            None => {},
        }
    }
}

/// Every VF VLAN record the decoder produces is canonical.
proof fn lemma_parse_vf_vlans_canonical(b: Seq<u8>, s: Seq<VfVlanV>)
    requires
        spec_parse_vf_vlans(b) == Some(s),
    ensures
        spec_vf_vlans_canonical(s),
    decreases b.len(), 2int,
{
    if b.len() >= 4 {
        let rest = b.skip(crate::nla::spec_nla_consumed(b));
        match spec_parse_vf_vlan(crate::nla::spec_nla_kind(b), crate::nla::spec_nla_value(b)) {
            Some(x) => match spec_parse_vf_vlans(rest) {
                Some(s2) => {
                    lemma_parse_vf_vlans_canonical(rest, s2);
                    assert((seq![x] + s2).drop_first() =~= s2);
                },
                None => {},
            },
            None => {},
        }
    }
}

/// Every VF-info record the decoder produces is canonical.
proof fn lemma_parse_vf_info_canonical(kind: u16, value: Seq<u8>, x: VfInfoV)
    requires
        spec_parse_vf_info(kind, value) == Some(x),
        4 + value.len() <= 0xffff,
    ensures
        spec_vf_info_canonical(x),
    decreases value.len(), 3int,
{
    match x {
        VfInfoV::Stats(s) => {
            lemma_parse_vf_stats_canonical(value, s);
        },
        VfInfoV::VlanList(s) => {
            lemma_parse_vf_vlans_canonical(value, s);
        },
        _ => {},
    }
}

/// Every VF block the decoder produces is canonical.
proof fn lemma_parse_vf_infos_canonical(b: Seq<u8>, s: Seq<VfInfoV>)
    requires
        spec_parse_vf_infos(b) == Some(s),
    ensures
        spec_vf_infos_canonical(s),
    decreases b.len(), 4int,
{
    if b.len() >= 4 {
        let rest = b.skip(crate::nla::spec_nla_consumed(b));
        match spec_parse_vf_info(crate::nla::spec_nla_kind(b), crate::nla::spec_nla_value(b)) {
            Some(x) => match spec_parse_vf_infos(rest) {
                Some(s2) => {
                    lemma_parse_vf_info_canonical(
                        crate::nla::spec_nla_kind(b),
                        crate::nla::spec_nla_value(b),
                        x,
                    );
                    lemma_parse_vf_infos_canonical(rest, s2);
                    assert((seq![x] + s2).drop_first() =~= s2);
                },
                None => {},
            },
            None => {},
        }
    }
}

/// Every VF-info list the decoder produces is canonical.
proof fn lemma_parse_vf_list_canonical(b: Seq<u8>, s: Seq<LinkVfInfoV>)
    requires
        spec_parse_vf_list(b) == Some(s),
    ensures
        spec_vf_list_canonical(s),
    decreases b.len(), 5int,
{
    if b.len() >= 4 {
        let rest = b.skip(crate::nla::spec_nla_consumed(b));
        match spec_parse_vf_infos(crate::nla::spec_nla_value(b)) {
            Some(x) => match spec_parse_vf_list(rest) {
                Some(s2) => {
                    lemma_parse_vf_infos_canonical(crate::nla::spec_nla_value(b), x);
                    lemma_parse_vf_list_canonical(rest, s2);
                    assert((seq![LinkVfInfoV(x)] + s2).drop_first() =~= s2);
                },
                None => {},
            },
            None => {},
        }
    }
}

/// Every vxcan data attribute the decoder produces is canonical.
proof fn lemma_parse_vxcan_data_canonical(b: Seq<u8>, iv: InfoVxcanV)
    requires
        spec_parse_vxcan_data(b) == Some(iv),
    ensures
        spec_vxcan_canonical(iv),
    decreases b.len(), 0int,
{
    match iv {
        InfoVxcanV::Peer(m) => {
            lemma_parse_link_message_canonical(crate::nla::spec_nla_value(b), m);
        },
        InfoVxcanV::Other(_) => {},
    }
}

/// Every link-info sequence the decoder produces is canonical under the
/// context it was decoded in.
proof fn lemma_parse_link_infos_canonical(b: Seq<u8>, last: Option<InfoKindV>, s: Seq<LinkInfoV>)
    requires
        spec_parse_link_infos(b, last) == Some(s),
    ensures
        spec_link_infos_canonical(s, last),
    decreases b.len(), 2int,
{
    if b.len() >= 4 {
        let kind = crate::nla::spec_nla_kind(b);
        let value = crate::nla::spec_nla_value(b);
        let rest = b.skip(crate::nla::spec_nla_consumed(b));
        match spec_parse_link_info_record(kind, value, last) {
            Some(i) => match spec_parse_link_infos(rest, spec_info_context_after(i, last)) {
                Some(s2) => {
                    assert(spec_link_info_canonical(i, last)) by {
                        match i {
                            LinkInfoV::Kind(k) => {
                                crate::link::link_info::lemma_info_kind_of_name_canonical(
                                    spec_info_kind_name(k),
                                );
                            },
                            LinkInfoV::Data(d) => {
                                match d {
                                    InfoDataV::Vxcan(iv) => {
                                        lemma_parse_vxcan_data_canonical(value, iv);
                                    },
                                }
                            },
                            LinkInfoV::Other(_) => {},
                        }
                    }
                    lemma_parse_link_infos_canonical(
                        rest,
                        spec_info_context_after(i, last),
                        s2,
                    );
                    assert((seq![i] + s2).drop_first() =~= s2);
                    assert((seq![i] + s2)[0] == i);
                },
                None => {},
            },
            None => {},
        }
    }
}

/// Every link attribute the dispatch produces is canonical.
proof fn lemma_parse_link_attr_canonical(
    kind: u16,
    value: Seq<u8>,
    family: AddressFamily,
    a: LinkAttributeV,
)
    requires
        spec_parse_link_attr(kind, value, family) == Some(a),
        4 + value.len() <= 0xffff,
    ensures
        spec_link_attr_canonical(a),
    decreases value.len(), 5int,
{
    match a {
        LinkAttributeV::LinkInfo(s) => {
            lemma_parse_link_infos_canonical(value, None, s);
        },
        LinkAttributeV::VfInfoList(s) => {
            lemma_parse_vf_list_canonical(value, s);
        },
        _ => {},
    }
}

/// Every attribute sequence the decoder produces is canonical.
proof fn lemma_parse_link_attrs_canonical(b: Seq<u8>, family: AddressFamily, s: Seq<LinkAttributeV>)
    requires
        spec_parse_link_attrs(b, family) == Some(s),
    ensures
        spec_link_attrs_canonical(s),
    decreases b.len(), 6int,
{
    if b.len() >= 4 {
        let kind = crate::nla::spec_nla_kind(b);
        let value = crate::nla::spec_nla_value(b);
        let rest = b.skip(crate::nla::spec_nla_consumed(b));
        match spec_parse_link_attr(kind, value, family) {
            Some(a) => match spec_parse_link_attrs(rest, family) {
                Some(s2) => {
                    lemma_parse_link_attr_canonical(kind, value, family, a);
                    lemma_parse_link_attrs_canonical(rest, family, s2);
                    assert((seq![a] + s2).drop_first() =~= s2);
                    assert((seq![a] + s2)[0] == a);
                },
                None => {},
            },
            None => {},
        }
    }
}

/// Every message the decoder produces is canonical: together with the
/// round-trip law, a successfully decoded, well-formed message re-encodes
/// and decodes to itself.
pub proof fn lemma_parse_link_message_canonical(b: Seq<u8>, m: LinkMessageV)
    requires
        spec_parse_link_message(b) == Some(m),
    ensures
        spec_link_message_canonical(m),
    decreases b.len(), 0int,
{
    crate::address_family::lemma_af_u8_roundtrip(b[0]);
    crate::link::header::lemma_llt_u16_roundtrip(
        crate::bytes::spec_u16_le(b.subrange(2, 4)),
    );
    lemma_parse_link_attrs_canonical(b.skip(16), m.header.interface_family, m.nlas);
}

/// Decode then encode then decode: a message decoded from any buffer, if it
/// is well formed, decodes from its own re-encoded bytes to itself.
pub proof fn lemma_decode_encode_identity(b: Seq<u8>, m: LinkMessageV)
    requires
        spec_parse_link_message(b) == Some(m),
        spec_link_message_wf(m),
    ensures
        spec_parse_link_message(spec_link_message_bytes(m)) == Some(m),
{
    lemma_parse_link_message_canonical(b, m);
    lemma_link_message_roundtrip(m);
}

/// Round-trip law for the message envelope: decoding an encoded envelope
/// under its own message-type code recovers it exactly.
pub proof fn lemma_route_message_roundtrip(m: RouteNetlinkMessageV)
    requires
        spec_route_message_canonical(m),
        spec_route_message_wf(m),
    ensures
        spec_parse_route_message(spec_route_message_type(m), spec_route_message_bytes(m)) == Some(
            m,
        ),
{
    lemma_link_message_roundtrip(crate::message::spec_route_message_body(m));
}

/// Truncation rejection: a record whose length field is below the header
/// size, or claims more bytes than remain in the buffer, fails the whole
/// attribute sequence.
pub proof fn lemma_truncation_rejection(b: Seq<u8>, family: AddressFamily)
    requires
        b.len() >= 4,
        spec_nla_len(b) < 4 || spec_nla_len(b) > b.len(),
    ensures
        spec_parse_link_attrs(b, family) is None,
{
}

/// Unknown-kind preservation: a record whose kind is outside the catalog
/// decodes to the opaque fallback carrying kind and value verbatim, and
/// that fallback re-encodes to exactly the record's canonical bytes.
pub proof fn lemma_unknown_kind_preservation(kind: u16, value: Seq<u8>, family: AddressFamily)
    requires
        !spec_link_attr_known_kind(kind),
        4 + value.len() <= 0xffff,
    ensures
        ({
            let a = LinkAttributeV::Other(crate::nla::DefaultNlaV { kind, value });
            &&& spec_parse_link_attr(kind, value, family) == Some(a)
            &&& spec_link_attr_kind(a) == kind
            &&& spec_link_attr_value(a) == value
            &&& spec_link_attr_canonical(a)
            &&& spec_link_attr_wf(a)
        }),
{
}

/// The alignment step never reads past an aligned buffer: within a buffer
/// whose remaining length is a multiple of four, a valid record's padded
/// size lies inside it.
proof fn lemma_align4_within(l: int, n: int)
    requires
        4 <= l <= n,
        n % 4 == 0,
    ensures
        spec_align4(l) <= n,
        spec_align4(l) % 4 == 0,
{
    assert(spec_align4(l) <= n && spec_align4(l) % 4 == 0) by (nonlinear_arith)
        requires
            4 <= l <= n,
            n % 4 == 0,
    ;
}

/// Padding tolerance: appending up to three trailing bytes, too few to form
/// another record header, to an aligned buffer that decodes successfully
/// leaves the decoded attribute sequence unchanged.
pub proof fn lemma_padding_tolerance(b: Seq<u8>, t: Seq<u8>, family: AddressFamily)
    requires
        t.len() < 4,
        b.len() % 4 == 0,
        spec_parse_link_attrs(b, family) is Some,
    ensures
        spec_parse_link_attrs(b + t, family) == spec_parse_link_attrs(b, family),
    decreases b.len(),
{
    let bt = b + t;
    if b.len() < 4 {
        assert(b.len() == 0);
        assert(bt =~= t);
    } else {
        assert(bt.subrange(0, 2) =~= b.subrange(0, 2));
        assert(bt.subrange(2, 4) =~= b.subrange(2, 4));
        let l = spec_nla_len(b) as int;
        assert(4 <= l <= b.len());
        lemma_align4_within(l, b.len() as int);
        assert(crate::nla::spec_nla_consumed(b) == spec_align4(l));
        assert(crate::nla::spec_nla_consumed(bt) == spec_align4(l));
        assert(crate::nla::spec_nla_value(bt) =~= crate::nla::spec_nla_value(b));
        let c = spec_align4(l);
        assert(bt.skip(c) =~= b.skip(c) + t);
        assert(b.skip(c).len() % 4 == 0);
        assert(spec_parse_link_attrs(b.skip(c), family) is Some);
        lemma_padding_tolerance(b.skip(c), t, family);
    }
}


/// The encoded vxcan kind-name payload is six bytes: the five ASCII
/// characters and the NUL terminator.
proof fn lemma_vxcan_name_len()
    ensures
        crate::link::name::spec_name_value_bytes("vxcan"@).len() == 6,
{
    reveal_strlit("vxcan");
    assert(vstd::utf8::is_ascii_chars("vxcan"@));
    vstd::utf8::is_ascii_chars_encode_utf8("vxcan"@);
}



/// One unfolding step of the link-info walker: a buffer beginning with a
/// whole record decodes to that record followed by the rest, under the
/// context the record leaves behind.
proof fn lemma_parse_infos_step(kind: u16, value: Seq<u8>, rest: Seq<u8>, last: Option<InfoKindV>)
    requires
        4 + value.len() <= 0xffff,
    ensures
        spec_parse_link_infos(spec_nla_bytes(kind, value) + rest, last) == (
        match spec_parse_link_info_record(kind, value, last) {
            None => None::<Seq<LinkInfoV>>,
            Some(i) => match spec_parse_link_infos(rest, spec_info_context_after(i, last)) {
                None => None,
                Some(s) => Some(seq![i] + s),
            },
        }),
{
    let b = spec_nla_bytes(kind, value) + rest;
    lemma_nla_bytes_parse(kind, value, rest);
    assert(b.skip(crate::nla::spec_nla_consumed(b)) =~= rest);
}

/// The empty buffer decodes to the empty link-info sequence.
proof fn lemma_parse_infos_empty(b: Seq<u8>, last: Option<InfoKindV>)
    requires
        b.len() == 0,
    ensures
        spec_parse_link_infos(b, last) == Some(Seq::<LinkInfoV>::empty()),
{
}

/// A kind record naming vxcan decodes to the vxcan kind under any context.
proof fn lemma_parse_vxcan_kind_record(last: Option<InfoKindV>)
    ensures
        spec_parse_link_info_record(
            IFLA_INFO_KIND,
            crate::link::name::spec_name_value_bytes("vxcan"@),
            last,
        ) == Some(LinkInfoV::Kind(InfoKindV::Vxcan)),
{
    crate::link::name::lemma_name_roundtrip("vxcan"@);
}

/// Context ordering, forward direction: in a nested link-info sequence
/// where the vxcan kind name precedes a kind-specific data record, the data
/// is decoded per the vxcan shape; the whole sequence decodes exactly when
/// the data payload does.
pub proof fn lemma_context_ordering_forward(d: Seq<u8>)
    requires
        4 + d.len() <= 0xffff,
    ensures
        ({
            let kind_rec = spec_nla_bytes(
                IFLA_INFO_KIND,
                crate::link::name::spec_name_value_bytes("vxcan"@),
            );
            let data_rec = spec_nla_bytes(IFLA_INFO_DATA, d);
            match spec_parse_vxcan_data(d) {
                Some(iv) => spec_parse_link_infos(kind_rec + data_rec, None) == Some(
                    seq![
                        LinkInfoV::Kind(InfoKindV::Vxcan),
                        LinkInfoV::Data(InfoDataV::Vxcan(iv)),
                    ],
                ),
                None => spec_parse_link_infos(kind_rec + data_rec, None) is None,
            }
        }),
{
    let name = crate::link::name::spec_name_value_bytes("vxcan"@);
    lemma_vxcan_name_len();
    lemma_parse_vxcan_kind_record(None);
    let kind_rec = spec_nla_bytes(IFLA_INFO_KIND, name);
    let data_rec = spec_nla_bytes(IFLA_INFO_DATA, d);
    let vxcan = Some(InfoKindV::Vxcan);
    lemma_parse_infos_step(IFLA_INFO_KIND, name, data_rec, None);
    assert(data_rec =~= spec_nla_bytes(IFLA_INFO_DATA, d) + Seq::<u8>::empty());
    lemma_parse_infos_step(IFLA_INFO_DATA, d, Seq::<u8>::empty(), vxcan);
    match spec_parse_vxcan_data(d) {
        Some(iv) => {
            let data_item = LinkInfoV::Data(InfoDataV::Vxcan(iv));
            assert(spec_parse_link_info_record(IFLA_INFO_DATA, d, vxcan) == Some(data_item));
            lemma_parse_infos_empty(Seq::<u8>::empty(), spec_info_context_after(data_item, vxcan));
            assert(seq![data_item] + Seq::<LinkInfoV>::empty() =~= seq![data_item]);
            assert(spec_parse_link_infos(data_rec, vxcan) == Some(seq![data_item]));
            assert(seq![LinkInfoV::Kind(InfoKindV::Vxcan)] + seq![data_item] =~= seq![
                LinkInfoV::Kind(InfoKindV::Vxcan),
                data_item,
            ]);
        },
        None => {
            assert(spec_parse_link_info_record(IFLA_INFO_DATA, d, vxcan) is None);
        },
    }
}

/// Context ordering, reversed direction: a kind-specific data record that
/// precedes the kind name degrades to the opaque fallback rather than
/// failing, and the kind name still decodes after it.
pub proof fn lemma_context_ordering_reversed(d: Seq<u8>)
    requires
        4 + d.len() <= 0xffff,
    ensures
        ({
            let kind_rec = spec_nla_bytes(
                IFLA_INFO_KIND,
                crate::link::name::spec_name_value_bytes("vxcan"@),
            );
            let data_rec = spec_nla_bytes(IFLA_INFO_DATA, d);
            spec_parse_link_infos(data_rec + kind_rec, None) == Some(
                seq![
                    LinkInfoV::Other(crate::nla::DefaultNlaV { kind: IFLA_INFO_DATA, value: d }),
                    LinkInfoV::Kind(InfoKindV::Vxcan),
                ],
            )
        }),
{
    let name = crate::link::name::spec_name_value_bytes("vxcan"@);
    lemma_vxcan_name_len();
    lemma_parse_vxcan_kind_record(None);
    let kind_rec = spec_nla_bytes(IFLA_INFO_KIND, name);
    let data_rec = spec_nla_bytes(IFLA_INFO_DATA, d);
    let opaque = LinkInfoV::Other(crate::nla::DefaultNlaV { kind: IFLA_INFO_DATA, value: d });
    lemma_parse_infos_step(IFLA_INFO_DATA, d, kind_rec, None);
    assert(spec_parse_link_info_record(IFLA_INFO_DATA, d, None) == Some(opaque));
    assert(kind_rec =~= spec_nla_bytes(IFLA_INFO_KIND, name) + Seq::<u8>::empty());
    lemma_parse_infos_step(IFLA_INFO_KIND, name, Seq::<u8>::empty(), None);
    lemma_parse_infos_empty(
        Seq::<u8>::empty(),
        spec_info_context_after(LinkInfoV::Kind(InfoKindV::Vxcan), None),
    );
    assert(seq![LinkInfoV::Kind(InfoKindV::Vxcan)] + Seq::<LinkInfoV>::empty() =~= seq![
        LinkInfoV::Kind(InfoKindV::Vxcan),
    ]);
    assert(spec_parse_link_infos(kind_rec, None) == Some(seq![LinkInfoV::Kind(InfoKindV::Vxcan)]));
    assert(seq![opaque] + seq![LinkInfoV::Kind(InfoKindV::Vxcan)] =~= seq![
        opaque,
        LinkInfoV::Kind(InfoKindV::Vxcan),
    ]);
}

} // verus!
