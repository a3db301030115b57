//! IPv6 headers (RFC 8200), decoded only.
use vstd::prelude::*;
use crate::error::{ParseError, ResponseError};
use crate::ip_address::IPAddressV6;
use crate::ip_protocol::Protocol;
use crate::parsing::{be16, be_n, lemma_be_n_shift, read_u128, read_u16, read_u8};
use crate::transport_layer::{parse_transport, TransportLayer, TransportView};

verus! {

/// An IPv6 packet: the fixed header and the decoded payload.
#[derive(Clone, Debug)]
pub struct IPv6 {
    pub version: u8,
    pub traffic_class: u8,
    /// Twenty bits on the wire.
    pub flow_label: u32,
    pub payload_length: u16,
    pub next_header: Protocol,
    pub hop_limit: u8,
    pub source_address: IPAddressV6,
    pub destination_address: IPAddressV6,
    pub data: TransportLayer,
}

/// The value of an IPv6 packet.
pub struct IPv6View {
    pub version: u8,
    pub traffic_class: u8,
    pub flow_label: u32,
    pub payload_length: u16,
    pub next_header: Protocol,
    pub hop_limit: u8,
    pub source_address: IPAddressV6,
    pub destination_address: IPAddressV6,
    pub data: TransportView,
}

impl View for IPv6 {
    type V = IPv6View;

    open spec fn view(&self) -> IPv6View {
        IPv6View {
            version: self.version,
            traffic_class: self.traffic_class,
            flow_label: self.flow_label,
            payload_length: self.payload_length,
            next_header: self.next_header,
            hop_limit: self.hop_limit,
            source_address: self.source_address,
            destination_address: self.destination_address,
            data: self.data@,
        }
    }
}

/// The packet that the bytes `b` encode: a 40-byte header, then a payload
/// of `payload_length` bytes (or what is left of `b`). The traffic class
/// straddles the first two bytes; the flow label is the low nibble of the
/// second byte and the next two bytes.
pub open spec fn parse_ipv6(b: Seq<u8>) -> Result<IPv6View, ParseError> {
    if b.len() < 40 {
        Err(ParseError::ShortRead)
    } else {
        let next_header = Protocol::from_number(b[6]);
        match parse_transport(next_header, be16(b, 4), b.subrange(40, b.len() as int)) {
            Err(e) => Err(e),
            Ok(data) => Ok(
                IPv6View {
                    version: b[0] / 16,
                    traffic_class: ((b[0] % 16) * 16 + b[1] / 16) as u8,
                    flow_label: ((b[1] % 16) * 65536 + be16(b, 2)) as u32,
                    payload_length: be16(b, 4) as u16,
                    next_header,
                    hop_limit: b[7],
                    source_address: IPAddressV6(be_n(b, 8, 16) as u128),
                    destination_address: IPAddressV6(be_n(b, 24, 16) as u128),
                    data,
                },
            ),
        }
    }
}

impl IPv6 {
    /// Decodes a packet from `buf`, consuming the header and the payload.
    pub fn parse(buf: &mut &[u8]) -> (r: Result<IPv6, ParseError>)
        ensures
            match r {
                Ok(h) => parse_ipv6(old(buf)@) == Ok::<IPv6View, ParseError>(h@),
                Err(e) => parse_ipv6(old(buf)@) == Err::<IPv6View, ParseError>(e),
            },
    {
        if buf.len() < 40 {
            return Err(ParseError::ShortRead);
        }
        let ghost b = buf@;
        let byte = read_u8(buf).unwrap();
        let version = byte / 16;
        let next_byte = read_u8(buf).unwrap();
        let traffic_class = (byte % 16) * 16 + next_byte / 16;
        let low_flow = read_u16(buf).unwrap();
        let flow_label = (next_byte % 16) as u32 * 65536 + low_flow as u32;
        let payload_length = read_u16(buf).unwrap();
        let next_header = Protocol::parse(read_u8(buf).unwrap());
        let hop_limit = read_u8(buf).unwrap();
        assert(low_flow == be16(b, 2));
        assert(payload_length == be16(b, 4));
        assert(buf@ == b.subrange(8, b.len() as int));
        let source = read_u128(buf).unwrap();
        proof {
            lemma_be_n_shift(b, 8, 16);
            assert(b.subrange(8, b.len() as int).subrange(16, b.len() - 8) == b.subrange(
                24,
                b.len() as int,
            ));
            lemma_be_n_shift(b, 24, 16);
        }
        let destination = read_u128(buf).unwrap();
        assert(buf@ == b.subrange(40, b.len() as int));
        let data = TransportLayer::parse(&next_header, payload_length as usize, buf)?;
        let h = IPv6 {
            version,
            traffic_class,
            flow_label,
            payload_length,
            next_header,
            hop_limit,
            source_address: IPAddressV6(source),
            destination_address: IPAddressV6(destination),
            data,
        };
        assert(h@ == parse_ipv6(b).unwrap());
        Ok(h)
    }

    /// Responses over IPv6 are not built by this stack: always
    /// `Unsupported`.
    pub fn generate_response(&self, data: TransportLayer) -> (r: Result<Self, ResponseError>)
        ensures
            r matches Err(e) && e == ResponseError::Unsupported,
    {
        Err(ResponseError::Unsupported)
    }
}

} // verus!
