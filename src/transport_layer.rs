//! The transport-layer payload of an IP packet, chosen by the IP protocol.
use vstd::prelude::*;
use crate::error::{ParseError, ResponseError};
use crate::icmpv6::{parse_icmpv6, ICMPv6};
use crate::ip_address::IPAddress;
use crate::ip_protocol::Protocol;
use crate::parsing::{min_len, slice_to_vec};
use crate::tcp::{parse_tcp, tcp_bytes, tcp_checksum, tcp_length, TcpView, TCP};
use crate::udp::{parse_udp, udp_bytes, udp_checksum, udp_length, UdpView, UDP};

verus! {

/// What an IP packet carries.
#[derive(Clone, Debug)]
pub enum TransportLayer {
    TCP(TCP),
    UDP(UDP),
    ICMPv6(ICMPv6),
    /// The bytes of a protocol that this stack does not decode.
    Other(Vec<u8>),
}

/// The value of a transport-layer payload.
pub enum TransportView {
    TCP(TcpView),
    UDP(UdpView),
    ICMPv6(ICMPv6),
    Other(Seq<u8>),
}

impl View for TransportLayer {
    type V = TransportView;

    open spec fn view(&self) -> TransportView {
        match self {
            TransportLayer::TCP(t) => TransportView::TCP(t@),
            TransportLayer::UDP(u) => TransportView::UDP(u@),
            TransportLayer::ICMPv6(m) => TransportView::ICMPv6(*m),
            TransportLayer::Other(d) => TransportView::Other(d@),
        }
    }
}

/// The payload of protocol `protocol` held in the first `len` bytes of `b`
/// (or all of `b`, when it is shorter).
pub open spec fn parse_transport(protocol: Protocol, len: int, b: Seq<u8>) -> Result<
    TransportView,
    ParseError,
> {
    let payload = b.subrange(0, min_len(b.len() as int, len));
    match protocol {
        Protocol::TCP => match parse_tcp(payload) {
            Ok(t) => Ok(TransportView::TCP(t)),
            Err(e) => Err(e),
        },
        Protocol::UDP => match parse_udp(payload) {
            Ok(u) => Ok(TransportView::UDP(u)),
            Err(e) => Err(e),
        },
        Protocol::IPv6ICMP => match parse_icmpv6(payload) {
            Ok(m) => Ok(TransportView::ICMPv6(m)),
            Err(e) => Err(e),
        },
        _ => Ok(TransportView::Other(payload)),
    }
}

/// The encoded length of a payload, where it has one.
pub open spec fn transport_length(t: TransportView) -> Option<int> {
    match t {
        TransportView::TCP(s) => Some(tcp_length(s)),
        TransportView::UDP(u) => Some(udp_length(u)),
        TransportView::ICMPv6(_) => None,
        TransportView::Other(d) => Some(d.len() as int),
    }
}

/// The bytes of a payload sent from `src` to `dst`, where it has an
/// encoding.
pub open spec fn transport_bytes(t: TransportView, src: IPAddress, dst: IPAddress) -> Option<
    Seq<u8>,
> {
    match t {
        TransportView::TCP(s) => Some(tcp_bytes(s, tcp_checksum(s, src, dst))),
        TransportView::UDP(u) => Some(udp_bytes(u, udp_checksum(u, src, dst))),
        TransportView::ICMPv6(_) => None,
        TransportView::Other(d) => Some(d),
    }
}

/// The protocol that names a payload's kind, where it has one.
pub open spec fn transport_protocol(t: TransportView) -> Option<Protocol> {
    match t {
        TransportView::TCP(_) => Some(Protocol::TCP),
        TransportView::UDP(_) => Some(Protocol::UDP),
        TransportView::ICMPv6(_) => Some(Protocol::IPv6ICMP),
        TransportView::Other(_) => None,
    }
}

impl TransportLayer {
    /// Encodes the payload as sent from `src_adr` to `dst_adr`. ICMPv6 has no
    /// encoding here.
    pub fn serialize(&self, src_adr: &IPAddress, dst_adr: &IPAddress) -> (r: Result<
        Vec<u8>,
        ResponseError,
    >)
        ensures
            match r {
                Ok(v) => transport_length(self@) matches Some(n) && n <= 0xFFFF
                    && transport_bytes(self@, *src_adr, *dst_adr) == Some(v@),
                Err(e) => match transport_length(self@) {
                    Some(n) => n > 0xFFFF && e == ResponseError::SizeOverflow,
                    None => e == ResponseError::Unsupported,
                },
            },
    {
        match self {
            TransportLayer::TCP(tcp) => tcp.serialize(src_adr, dst_adr),
            TransportLayer::UDP(udp) => udp.serialize(src_adr, dst_adr),
            TransportLayer::ICMPv6(_) => Err(ResponseError::Unsupported),
            TransportLayer::Other(data) => {
                if data.len() > 0xFFFF {
                    return Err(ResponseError::SizeOverflow);
                }
                Ok(slice_to_vec(data.as_slice()))
            },
        }
    }

    /// The encoded length of the payload, when it has one that fits in 16
    /// bits.
    pub fn len(&self) -> (r: Result<u16, ResponseError>)
        ensures
            match r {
                Ok(n) => transport_length(self@) == Some(n as int),
                Err(e) => match transport_length(self@) {
                    Some(n) => n > 0xFFFF && e == ResponseError::SizeOverflow,
                    None => e == ResponseError::Unsupported,
                },
            },
    {
        match self {
            TransportLayer::TCP(tcp) => tcp.len(),
            TransportLayer::UDP(udp) => udp.len(),
            TransportLayer::ICMPv6(_) => Err(ResponseError::Unsupported),
            TransportLayer::Other(data) => {
                if data.len() > 0xFFFF {
                    return Err(ResponseError::SizeOverflow);
                }
                Ok(data.len() as u16)
            },
        }
    }

    /// Decodes the payload of protocol `protocol` from the next `len` bytes
    /// of `buf` (all of them, when fewer remain), and consumes those bytes.
    pub fn parse(protocol: &Protocol, len: usize, buf: &mut &[u8]) -> (r: Result<
        Self,
        ParseError,
    >)
        ensures
            match r {
                Ok(t) => parse_transport(*protocol, len as int, old(buf)@) == Ok::<
                    TransportView,
                    ParseError,
                >(t@),
                Err(e) => parse_transport(*protocol, len as int, old(buf)@) == Err::<
                    TransportView,
                    ParseError,
                >(e),
            },
            final(buf)@ == old(buf)@.subrange(
                min_len(old(buf)@.len() as int, len as int),
                old(buf)@.len() as int,
            ),
    {
        let take = if len < buf.len() {
            len
        } else {
            buf.len()
        };
        let (head, rest) = buf.split_at(take);
        *buf = rest;
        let mut payload: &[u8] = head;
        match protocol {
            Protocol::TCP => match TCP::parse(&mut payload) {
                Ok(t) => Ok(TransportLayer::TCP(t)),
                Err(e) => Err(e),
            },
            Protocol::UDP => match UDP::parse(&mut payload) {
                Ok(u) => Ok(TransportLayer::UDP(u)),
                Err(e) => Err(e),
            },
            Protocol::IPv6ICMP => match ICMPv6::parse(&mut payload) {
                Ok(m) => Ok(TransportLayer::ICMPv6(m)),
                Err(e) => Err(e),
            },
            _ => Ok(TransportLayer::Other(slice_to_vec(payload))),
        }
    }
}

} // verus!
