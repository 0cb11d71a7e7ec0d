[package]
name = "netlink_packet_route"
version = "0.1.0"
edition = "2021"
publish = false

[dev-dependencies]
netlink-packet-core = "*"
netlink-packet-utils = "*"
libc = "*"
