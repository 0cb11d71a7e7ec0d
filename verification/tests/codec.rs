use netlink_packet_route::link::{
    InfoKind, LinkAttribute, LinkInfo, LinkLayerType, LinkMessage, LinkMessageBuffer, LinkMode,
    State, VfLinkState, VfStats, VlanProtocol,
};
use netlink_packet_route::{
    AddressFamily, DefaultNla, ErrorCause, ErrorFrame, NlaBuffer, RouteNetlinkMessage,
    RouteNetlinkMessageBuffer, RTM_DELLINK, RTM_GETLINK, RTM_NEWLINK, RTM_SETLINK,
};

fn empty_header_bytes() -> Vec<u8> {
    vec![0u8; 16]
}

#[test]
fn padding_tolerance_keeps_the_sequence() {
    // A message with one attribute, then the same buffer with two trailing
    // bytes too few to form another record header.
    let mut raw = empty_header_bytes();
    raw.extend_from_slice(&[0x08, 0x00, 0x0a, 0x00, 0x05, 0x00, 0x00, 0x00]);
    let parsed = LinkMessage::parse(&LinkMessageBuffer::new(&raw)).unwrap();

    let mut with_trailing = raw.clone();
    with_trailing.extend_from_slice(&[0x00, 0x00]);
    let parsed_trailing = LinkMessage::parse(&LinkMessageBuffer::new(&with_trailing)).unwrap();

    assert_eq!(parsed, parsed_trailing);
    assert_eq!(parsed.nlas, vec![LinkAttribute::Master(5)]);
}

#[test]
fn truncated_record_is_rejected() {
    // The record claims 12 bytes but only 8 remain after the header.
    let mut raw = empty_header_bytes();
    raw.extend_from_slice(&[0x0c, 0x00, 0x0a, 0x00, 0x05, 0x00, 0x00, 0x00]);
    let err = LinkMessage::parse(&LinkMessageBuffer::new(&raw)).unwrap_err();
    assert_eq!(err.cause, ErrorCause::InvalidAttributeLength { offset: 0, length: 12 });
}

#[test]
fn record_length_below_header_is_rejected() {
    let mut raw = empty_header_bytes();
    raw.extend_from_slice(&[0x03, 0x00, 0x0a, 0x00, 0x00, 0x00, 0x00, 0x00]);
    let err = LinkMessage::parse(&LinkMessageBuffer::new(&raw)).unwrap_err();
    assert_eq!(err.cause, ErrorCause::InvalidAttributeLength { offset: 0, length: 3 });
}

#[test]
fn unknown_kind_is_preserved_byte_identical() {
    let mut raw = empty_header_bytes();
    raw.extend_from_slice(&[0x07, 0x00, 0x99, 0x00, 0xde, 0xad, 0xbe, 0x00]);
    let parsed = LinkMessage::parse(&LinkMessageBuffer::new(&raw)).unwrap();
    assert_eq!(
        parsed.nlas,
        vec![LinkAttribute::Other(DefaultNla::new(0x99, vec![0xde, 0xad, 0xbe]))]
    );

    let mut buf = vec![0u8; parsed.buffer_len()];
    parsed.emit(&mut buf);
    assert_eq!(buf, raw);
}

#[test]
fn data_before_kind_degrades_to_opaque() {
    // IFLA_LINKINFO whose value holds the data record before the kind
    // record: the data must fall back to the opaque case, not fail.
    let mut raw = empty_header_bytes();
    raw.extend_from_slice(&[
        0x18, 0x00, 0x12, 0x00, // IFLA_LINKINFO, 24 bytes
        0x08, 0x00, 0x02, 0x00, // IFLA_INFO_DATA first
        0x01, 0x02, 0x03, 0x04, // opaque payload
        0x0a, 0x00, 0x01, 0x00, // IFLA_INFO_KIND
        0x76, 0x78, 0x63, 0x61, 0x6e, 0x00, // "vxcan\0"
        0x00, 0x00, // padding
    ]);
    let parsed = LinkMessage::parse(&LinkMessageBuffer::new(&raw)).unwrap();
    assert_eq!(
        parsed.nlas,
        vec![LinkAttribute::LinkInfo(vec![
            LinkInfo::Other(DefaultNla::new(2, vec![0x01, 0x02, 0x03, 0x04])),
            LinkInfo::Kind(InfoKind::Vxcan),
        ])]
    );

    let mut buf = vec![0u8; parsed.buffer_len()];
    parsed.emit(&mut buf);
    assert_eq!(buf, raw);
}

#[test]
fn known_kind_with_wrong_length_is_an_error() {
    let raw = vec![0x07, 0x00, 0x04, 0x00, 0x48, 0x00, 0x00, 0x00];
    let err =
        LinkAttribute::parse_with_param(&NlaBuffer::new(&raw), AddressFamily::Unspec).unwrap_err();
    assert_eq!(err.cause, ErrorCause::InvalidValueLength { kind: 4, expected: 4, actual: 3 });
    assert!(err.frames.contains(&ErrorFrame::Attribute { kind: 4 }));
}

#[test]
fn invalid_utf8_name_is_an_error() {
    let raw = vec![0x07, 0x00, 0x03, 0x00, 0xff, 0xfe, 0x00, 0x00];
    let err =
        LinkAttribute::parse_with_param(&NlaBuffer::new(&raw), AddressFamily::Unspec).unwrap_err();
    assert_eq!(err.cause, ErrorCause::InvalidString { kind: 3 });
}

#[test]
fn non_ascii_name_round_trips() {
    // "café" encodes as five UTF-8 bytes; decoding must yield the same
    // string, not the raw bytes.
    let attr = LinkAttribute::IfName("caf\u{e9}".to_string());
    let mut buf = vec![0u8; attr.buffer_len()];
    attr.emit(&mut buf);
    assert_eq!(buf, vec![0x0a, 0x00, 0x03, 0x00, 0x63, 0x61, 0x66, 0xc3, 0xa9, 0x00, 0x00, 0x00]);
    let parsed =
        LinkAttribute::parse_with_param(&NlaBuffer::new(&buf), AddressFamily::Unspec).unwrap();
    assert_eq!(parsed, attr);
}

#[test]
fn short_buffer_is_an_error_naming_the_header() {
    let raw = vec![0u8; 8];
    let err = LinkMessage::parse(&LinkMessageBuffer::new(&raw)).unwrap_err();
    assert_eq!(err.cause, ErrorCause::BufferTooShort { required: 16, actual: 8 });
    assert!(err.frames.contains(&ErrorFrame::LinkHeader));
}

#[test]
fn unknown_message_type_is_an_error() {
    let raw = empty_header_bytes();
    let err = RouteNetlinkMessage::parse_with_param(&RouteNetlinkMessageBuffer::new(&raw), 1000)
        .unwrap_err();
    assert_eq!(err.cause, ErrorCause::UnknownMessageType { message_type: 1000 });
}

#[test]
fn address_family_byte_round_trips() {
    let mut d: u16 = 0;
    while d <= 255 {
        let family = AddressFamily::from(d as u8);
        assert_eq!(u8::from(family), d as u8);
        d += 1;
    }
}

#[test]
fn address_family_known_values() {
    assert_eq!(AddressFamily::from(0), AddressFamily::Unspec);
    assert_eq!(AddressFamily::from(1), AddressFamily::Local);
    assert_eq!(AddressFamily::from(2), AddressFamily::Inet);
    assert_eq!(AddressFamily::from(18), AddressFamily::Link);
    assert_eq!(AddressFamily::from(28), AddressFamily::Inet6);
    assert_eq!(AddressFamily::from(200), AddressFamily::Other(200));
    // The second name of an aliased value encodes to the shared byte, which
    // decodes to the first-listed name.
    assert_eq!(u8::from(AddressFamily::Unix), 1);
    assert_eq!(AddressFamily::from(u8::from(AddressFamily::Unix)), AddressFamily::Local);
}

#[test]
fn enumeration_codes_round_trip() {
    assert_eq!(State::from_u8(6), State::Up);
    assert_eq!(State::from_u8(9).as_u8(), 9);
    assert_eq!(LinkMode::from_u8(1), LinkMode::Dormant);
    assert_eq!(LinkLayerType::from_u16(280), LinkLayerType::Can);
    assert_eq!(LinkLayerType::from_u16(777).as_u16(), 777);
    assert_eq!(VlanProtocol::from_u16(0x8100), VlanProtocol::Ieee8021Q);
    assert_eq!(VlanProtocol::from_u16(0x88a8), VlanProtocol::Ieee8021Ad);
    assert_eq!(VfLinkState::from_u32(2), VfLinkState::Disable);
}

#[test]
fn envelope_round_trips_every_type_code() {
    fn body() -> LinkMessage {
        LinkMessage {
            nlas: vec![LinkAttribute::Mtu(1500)],
            ..Default::default()
        }
    }
    let messages = vec![
        RouteNetlinkMessage::NewLink(body()),
        RouteNetlinkMessage::DelLink(body()),
        RouteNetlinkMessage::GetLink(body()),
        RouteNetlinkMessage::SetLink(body()),
    ];
    let expected_types = vec![RTM_NEWLINK, RTM_DELLINK, RTM_GETLINK, RTM_SETLINK];
    let mut i: usize = 0;
    while i < messages.len() {
        let m = &messages[i];
        assert_eq!(m.message_type(), expected_types[i]);
        let mut buf = vec![0u8; m.buffer_len()];
        m.emit(&mut buf);
        let parsed = RouteNetlinkMessage::parse_with_param(
            &RouteNetlinkMessageBuffer::new(&buf),
            m.message_type(),
        )
        .unwrap();
        assert_eq!(&parsed, m);
        i += 1;
    }
}

#[test]
fn default_message_is_the_empty_header() {
    let m = LinkMessage::default();
    assert_eq!(m.buffer_len(), 16);
    let mut buf = vec![0xffu8; 16];
    m.emit(&mut buf);
    assert_eq!(buf, vec![0u8; 16]);
    let parsed = LinkMessage::parse(&LinkMessageBuffer::new(&buf)).unwrap();
    assert_eq!(parsed, m);
}

#[test]
fn mtu_attribute_has_the_exact_wire_form() {
    let attr = LinkAttribute::Mtu(72);
    assert_eq!(attr.kind(), 4);
    assert_eq!(attr.value_len(), 4);
    assert_eq!(attr.buffer_len(), 8);
    let mut buf = vec![0u8; attr.buffer_len()];
    attr.emit(&mut buf);
    assert_eq!(buf, vec![0x08, 0x00, 0x04, 0x00, 0x48, 0x00, 0x00, 0x00]);
}

#[test]
fn error_description_names_the_decoding_path() {
    let raw = vec![0x07, 0x00, 0x04, 0x00, 0x48, 0x00, 0x00, 0x00];
    let err =
        LinkAttribute::parse_with_param(&NlaBuffer::new(&raw), AddressFamily::Unspec).unwrap_err();
    let expected = "attribute kind 4 expects a 4-byte value, got 3 bytes, while decoding the attribute with kind 4";
    assert_eq!(err.describe(), expected);
}

#[test]
fn stats_counter_is_little_endian() {
    let stat = VfStats::RxPackets(0x0123_4567_89ab_cdef);
    let mut out: Vec<u8> = Vec::new();
    stat.emit_value(&mut out);
    assert_eq!(out, vec![0xef, 0xcd, 0xab, 0x89, 0x67, 0x45, 0x23, 0x01]);
}
