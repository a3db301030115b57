//! A small user-space TCP/IP stack over a TUN device: packet codecs for
//! IPv4, IPv6, TCP, UDP and ICMPv6, the one's-complement checksum, and a
//! per-connection TCP state machine.
pub mod checksum;
pub mod connections;
pub mod control_bits;
pub mod error;
pub mod icmpv6;
pub mod icmpv6_type;
pub mod ip_address;
pub mod ip_flags;
pub mod ip_layer;
pub mod ip_protocol;
pub mod ipv4;
pub mod ipv6;
pub mod parsing;
pub mod states;
pub mod tcb;
pub mod tcp;
pub mod transport_layer;
pub mod tun_layer;
pub mod type_of_service;
pub mod udp;
pub mod writing;
