use netlink_packet_route::link::LinkAttribute;
use netlink_packet_route::{AddressFamily, DefaultNla};
use netlink_packet_utils::nla::Nla;
use netlink_packet_utils::Emitable;

#[test]
fn opaque_record_emission_matches_the_reference_codec() {
    let kind: u16 = 0x99;
    let value = vec![0xde, 0xad, 0xbe];

    let reference = netlink_packet_utils::nla::DefaultNla::new(kind, value.clone());
    let mut reference_buf = vec![0u8; reference.buffer_len()];
    reference.emit(&mut reference_buf);

    let ours = LinkAttribute::Other(DefaultNla::new(kind, value));
    let mut our_buf = vec![0u8; ours.buffer_len()];
    ours.emit(&mut our_buf);

    assert_eq!(our_buf, reference_buf);
}

#[test]
fn record_header_fields_match_the_reference_codec() {
    let raw = vec![0x0b, 0x00, 0x03, 0x00, 0x76, 0x78, 0x63, 0x61, 0x6e, 0x30, 0x00, 0x00];

    let reference = netlink_packet_utils::nla::NlaBuffer::new(&raw);
    let ours = netlink_packet_route::NlaBuffer::new(&raw);

    assert_eq!(ours.length(), reference.length());
    assert_eq!(ours.kind(), reference.kind());
    assert_eq!(ours.value(), reference.value());
}

#[test]
fn mac_attribute_parse_matches_reference_name_parser() {
    // A name payload the reference parser accepts must decode to the same
    // string here.
    let payload = vec![0x76, 0x78, 0x63, 0x61, 0x6e, 0x30, 0x00];
    let reference = netlink_packet_utils::parsers::parse_string(&payload).unwrap();

    let mut raw = vec![0x0b, 0x00, 0x03, 0x00];
    raw.extend_from_slice(&payload);
    raw.push(0x00);
    let parsed = LinkAttribute::parse_with_param(
        &netlink_packet_route::NlaBuffer::new(&raw),
        AddressFamily::Unspec,
    )
    .unwrap();

    assert_eq!(parsed, LinkAttribute::IfName(reference));
}

#[test]
fn shared_address_family_values_match_libc() {
    assert_eq!(netlink_packet_route::address_family::AF_UNSPEC, libc::AF_UNSPEC as u8);
    assert_eq!(netlink_packet_route::address_family::AF_LOCAL, libc::AF_LOCAL as u8);
    assert_eq!(netlink_packet_route::address_family::AF_UNIX, libc::AF_UNIX as u8);
    assert_eq!(netlink_packet_route::address_family::AF_INET, libc::AF_INET as u8);
}
