//! IPv4 headers (RFC 791): decoding, encoding, the header checksum and the
//! header of a response.
use vstd::prelude::*;
use crate::checksum::{
    calculate_ones_complement_sum,
    checksum_of,
    lemma_checksum_complements_sum,
    ones_add,
    ones_sum,
};
use crate::error::{ParseError, ResponseError};
use crate::ip_address::{IPAddress, IPAddressV4};
use crate::ip_flags::{lemma_flags_round_trip, Flags};
use crate::ip_protocol::Protocol;
use crate::parsing::{be16, be32, min_len, read_u16, read_u32, read_u8, read_vec};
use crate::transport_layer::{
    parse_transport,
    transport_bytes,
    transport_length,
    transport_protocol,
    TransportLayer,
    TransportView,
};
use crate::type_of_service::{lemma_type_of_service_round_trip, TypeOfService};
use crate::tcp::{lemma_tcp_round_trip, tcp_checksum, tcp_length, tcp_wf};
use crate::udp::{lemma_udp_round_trip, udp_checksum, udp_length};
use crate::writing::{lemma_be16_at, lemma_be32_at, push_all, push_u16, push_u32, u16_bytes, u32_bytes};

verus! {

/// The smallest header length, in 32-bit words.
pub const IPV4_MIN_HEADER_LENGTH: u8 = 5;

/// The time to live of a response.
pub const RESPONSE_TIME_TO_LIVE: u8 = 60;

/// An IPv4 packet: the header fields and the decoded payload.
#[derive(Clone, Debug)]
pub struct IPv4 {
    /// Four bits on the wire.
    pub version: u8,
    /// The header length in 32-bit words; four bits on the wire.
    pub internet_header_length: u8,
    pub type_of_service: TypeOfService,
    /// The packet's length, header and payload, in bytes.
    pub total_length: u16,
    pub identification: u16,
    pub flags: Flags,
    /// In units of eight bytes; thirteen bits on the wire.
    pub fragment_offset: u16,
    pub time_to_live: u8,
    pub protocol: Protocol,
    pub header_checksum: u16,
    pub source_address: IPAddressV4,
    pub destination_address: IPAddressV4,
    pub options_and_padding: Vec<u8>,
    pub data: TransportLayer,
}

/// The value of an IPv4 packet.
pub struct IPv4View {
    pub version: u8,
    pub internet_header_length: u8,
    pub type_of_service: TypeOfService,
    pub total_length: u16,
    pub identification: u16,
    pub flags: Flags,
    pub fragment_offset: u16,
    pub time_to_live: u8,
    pub protocol: Protocol,
    pub header_checksum: u16,
    pub source_address: IPAddressV4,
    pub destination_address: IPAddressV4,
    pub options_and_padding: Seq<u8>,
    pub data: TransportView,
}

impl View for IPv4 {
    type V = IPv4View;

    open spec fn view(&self) -> IPv4View {
        IPv4View {
            version: self.version,
            internet_header_length: self.internet_header_length,
            type_of_service: self.type_of_service,
            total_length: self.total_length,
            identification: self.identification,
            flags: self.flags,
            fragment_offset: self.fragment_offset,
            time_to_live: self.time_to_live,
            protocol: self.protocol,
            header_checksum: self.header_checksum,
            source_address: self.source_address,
            destination_address: self.destination_address,
            options_and_padding: self.options_and_padding@,
            data: self.data@,
        }
    }
}

/// The packet that the bytes `b` encode. The total length counts bytes
/// (RFC 791): the payload is the `total_length - 4 * IHL` bytes after the
/// header, or what is left of `b` when it is shorter.
pub open spec fn parse_ipv4(b: Seq<u8>) -> Result<IPv4View, ParseError> {
    if b.len() < 1 {
        Err(ParseError::ShortRead)
    } else if b[0] % 16 < 5 {
        Err(ParseError::InvalidField)
    } else if b.len() < 4 {
        Err(ParseError::ShortRead)
    } else if be16(b, 2) < (b[0] % 16) * 4 {
        Err(ParseError::InvalidField)
    } else if b.len() < 20 {
        Err(ParseError::ShortRead)
    } else {
        let ihl = b[0] % 16;
        let options_end = 20 + min_len(b.len() - 20, (ihl - 5) * 4);
        let protocol = Protocol::from_number(b[9]);
        match parse_transport(
            protocol,
            be16(b, 2) - ihl * 4,
            b.subrange(options_end, b.len() as int),
        ) {
            Err(e) => Err(e),
            Ok(data) => Ok(
                IPv4View {
                    version: b[0] / 16,
                    internet_header_length: ihl,
                    type_of_service: TypeOfService::from_byte(b[1] as int),
                    total_length: be16(b, 2) as u16,
                    identification: be16(b, 4) as u16,
                    flags: Flags::from_bits(be16(b, 6) / 8192),
                    fragment_offset: (be16(b, 6) % 8192) as u16,
                    time_to_live: b[8],
                    protocol,
                    header_checksum: be16(b, 10) as u16,
                    source_address: IPAddressV4(be32(b, 12) as u32),
                    destination_address: IPAddressV4(be32(b, 16) as u32),
                    options_and_padding: b.subrange(20, options_end),
                    data,
                },
            ),
        }
    }
}

/// The word that holds the flags and the fragment offset.
pub open spec fn flags_word(h: IPv4View) -> int {
    h.flags.bits() * 8192 + h.fragment_offset % 8192
}

/// The ten 16-bit words of the header with the checksum field as zero.
pub open spec fn ipv4_header_words(h: IPv4View) -> Seq<u16> {
    seq![
        ((h.version % 16) * 4096 + (h.internet_header_length % 16) * 256
            + h.type_of_service.byte()) as u16,
        h.total_length,
        h.identification,
        flags_word(h) as u16,
        (h.time_to_live * 256 + h.protocol.number()) as u16,
        0u16,
        (h.source_address.0 / 65536) as u16,
        (h.source_address.0 % 65536) as u16,
        (h.destination_address.0 / 65536) as u16,
        (h.destination_address.0 % 65536) as u16,
    ]
}

/// The header checksum of a packet.
pub open spec fn ipv4_checksum(h: IPv4View) -> int {
    checksum_of(ipv4_header_words(h))
}

/// The twenty bytes of a header without options, whose checksum field is
/// `checksum`.
pub open spec fn ipv4_header_bytes(h: IPv4View, checksum: int) -> Seq<u8> {
    seq![((h.version % 16) * 16 + 5) as u8, h.type_of_service.byte() as u8] + u16_bytes(
        h.total_length as int,
    ) + u16_bytes(h.identification as int) + u16_bytes(flags_word(h)) + seq![
        h.time_to_live,
        h.protocol.number(),
    ] + u16_bytes(checksum) + u32_bytes(h.source_address.0 as int) + u32_bytes(
        h.destination_address.0 as int,
    )
}

/// The bytes of a packet, where its payload has an encoding: a header
/// without options (IHL 5) and a computed checksum, then the payload.
pub open spec fn ipv4_bytes(h: IPv4View) -> Option<Seq<u8>> {
    match transport_bytes(
        h.data,
        IPAddress::V4(h.source_address),
        IPAddress::V4(h.destination_address),
    ) {
        Some(d) => Some(ipv4_header_bytes(h, ipv4_checksum(h)) + d),
        None => None,
    }
}

/// The encoding of a packet, or why it has none: an ICMPv6 payload has no
/// encoding, and a payload longer than 16 bits can count is too large.
pub open spec fn ipv4_encoding(h: IPv4View) -> Result<Seq<u8>, ResponseError> {
    match transport_length(h.data) {
        None => Err(ResponseError::Unsupported),
        Some(n) => if n > 0xFFFF {
            Err(ResponseError::SizeOverflow)
        } else {
            Ok(ipv4_bytes(h).unwrap())
        },
    }
}

/// The header of the response to `request` that carries `data`: addresses
/// swapped, version 4, IHL 5, default type of service and flags, TTL 60,
/// the protocol of `data` (the request's for an undecoded payload), and a
/// total length of 20 plus the payload's length.
pub open spec fn ipv4_response(request: IPv4View, data: TransportView, total_length: int) -> IPv4View {
    IPv4View {
        version: 4,
        internet_header_length: 5,
        type_of_service: TypeOfService::from_byte(0),
        total_length: total_length as u16,
        identification: 0,
        flags: Flags::from_bits(2),
        fragment_offset: 0,
        time_to_live: 60,
        protocol: match transport_protocol(data) {
            Some(p) => p,
            None => request.protocol,
        },
        header_checksum: 0,
        source_address: request.destination_address,
        destination_address: request.source_address,
        options_and_padding: Seq::empty(),
        data,
    }
}

impl IPv4 {
    /// Decodes a packet from `buf`, consuming the header and the payload.
    #[verifier::rlimit(40)]
    pub fn parse(buf: &mut &[u8]) -> (r: Result<IPv4, ParseError>)
        ensures
            match r {
                Ok(h) => parse_ipv4(old(buf)@) == Ok::<IPv4View, ParseError>(h@),
                Err(e) => parse_ipv4(old(buf)@) == Err::<IPv4View, ParseError>(e),
            },
    {
        let ghost b = buf@;
        let byte = match read_u8(buf) {
            Some(v) => v,
            None => return Err(ParseError::ShortRead),
        };
        let version = byte / 16;
        let internet_header_length = byte % 16;
        if internet_header_length < IPV4_MIN_HEADER_LENGTH {
            return Err(ParseError::InvalidField);
        }
        let header_length = internet_header_length as u16 * 4;
        if buf.len() < 3 {
            return Err(ParseError::ShortRead);
        }
        let tos_byte = read_u8(buf).unwrap();
        let total_length = read_u16(buf).unwrap();
        assert(total_length == be16(b, 2));
        if total_length < header_length {
            return Err(ParseError::InvalidField);
        }
        let data_length = total_length - header_length;
        if buf.len() < 16 {
            return Err(ParseError::ShortRead);
        }
        let identification = read_u16(buf).unwrap();
        let flags_and_offset = read_u16(buf).unwrap();
        let time_to_live = read_u8(buf).unwrap();
        let protocol_number = read_u8(buf).unwrap();
        let header_checksum = read_u16(buf).unwrap();
        let source = read_u32(buf).unwrap();
        let destination = read_u32(buf).unwrap();
        assert(identification == be16(b, 4));
        assert(flags_and_offset == be16(b, 6));
        assert(header_checksum == be16(b, 10));
        assert(source == be32(b, 12));
        assert(destination == be32(b, 16));
        assert(buf@ == b.subrange(20, b.len() as int));
        let options_and_padding = read_vec(
            buf,
            ((internet_header_length - IPV4_MIN_HEADER_LENGTH) as usize) * 4,
        ).unwrap();
        let protocol = Protocol::parse(protocol_number);
        let ghost options_end = 20 + min_len(
            b.len() - 20,
            (internet_header_length - 5) * 4,
        );
        assert(buf@ == b.subrange(options_end, b.len() as int));
        let data = TransportLayer::parse(&protocol, data_length as usize, buf)?;
        let h = IPv4 {
            version,
            internet_header_length,
            type_of_service: TypeOfService::parse(tos_byte),
            total_length,
            identification,
            flags: Flags::parse((flags_and_offset / 8192) as u8),
            fragment_offset: flags_and_offset % 8192,
            time_to_live,
            protocol,
            header_checksum,
            source_address: IPAddressV4(source),
            destination_address: IPAddressV4(destination),
            options_and_padding,
            data,
        };
        let ghost p = parse_ipv4(b).unwrap();
        assert(h.version == p.version);
        assert(h.internet_header_length == p.internet_header_length);
        assert(h.type_of_service == p.type_of_service);
        assert(h.total_length == p.total_length);
        assert(h.flags == p.flags);
        assert(h.fragment_offset == p.fragment_offset);
        assert(h.time_to_live == p.time_to_live);
        assert(h.protocol == p.protocol);
        assert(h.source_address == p.source_address);
        assert(h.options_and_padding@ == p.options_and_padding);
        assert(h.data@ == p.data);
        assert(h@ == parse_ipv4(b).unwrap());
        Ok(h)
    }

    /// The header of the response that carries `data` back to this packet's
    /// sender.
    pub fn generate_response(&self, data: TransportLayer) -> (r: Result<Self, ResponseError>)
        ensures
            match r {
                Ok(h) => transport_length(data@) matches Some(n) && 20 + n <= 0xFFFF && h@
                    == ipv4_response(self@, data@, 20 + n),
                Err(e) => match transport_length(data@) {
                    Some(n) => 20 + n > 0xFFFF && e == ResponseError::SizeOverflow,
                    None => e == ResponseError::Unsupported,
                },
            },
    {
        let data_length = data.len()?;
        if data_length > 0xFFFF - 20 {
            return Err(ResponseError::SizeOverflow);
        }
        let total_length: u16 = IPV4_MIN_HEADER_LENGTH as u16 * 4 + data_length;
        let protocol = match &data {
            TransportLayer::TCP(_) => Protocol::TCP,
            TransportLayer::UDP(_) => Protocol::UDP,
            TransportLayer::ICMPv6(_) => Protocol::IPv6ICMP,
            TransportLayer::Other(_) => self.protocol,
        };
        let type_of_service = TypeOfService::default();
        let flags = Flags::default();
        proof {
            assert(type_of_service == TypeOfService::from_byte(0));
            assert(flags == Flags::from_bits(2));
        }
        Ok(
            IPv4 {
                version: 4,
                internet_header_length: IPV4_MIN_HEADER_LENGTH,
                type_of_service,
                total_length,
                identification: 0,
                flags,
                fragment_offset: 0,
                time_to_live: RESPONSE_TIME_TO_LIVE,
                protocol,
                header_checksum: 0,
                source_address: self.destination_address,
                destination_address: self.source_address,
                options_and_padding: Vec::new(),
                data,
            },
        )
    }

    /// Encodes the packet: a header without options and with a computed
    /// checksum, then the encoded payload.
    pub fn serialize(&self) -> (r: Result<Vec<u8>, ResponseError>)
        ensures
            match r {
                Ok(v) => ipv4_encoding(self@) == Ok::<Seq<u8>, ResponseError>(v@),
                Err(e) => ipv4_encoding(self@) == Err::<Seq<u8>, ResponseError>(e),
            },
    {
        let src = IPAddress::V4(self.source_address);
        let dst = IPAddress::V4(self.destination_address);
        let payload = self.data.serialize(&src, &dst)?;
        let mut bytes: Vec<u8> = Vec::new();
        bytes.push((self.version % 16) * 16 + IPV4_MIN_HEADER_LENGTH);
        bytes.push(self.type_of_service.serialize());
        push_u16(&mut bytes, self.total_length);
        push_u16(&mut bytes, self.identification);
        push_u16(&mut bytes, self.flags.serialize() as u16 * 8192 + self.fragment_offset % 8192);
        bytes.push(self.time_to_live);
        bytes.push(self.protocol.serialize());
        push_u16(&mut bytes, self.calculate_checksum());
        push_u32(&mut bytes, self.source_address.0);
        push_u32(&mut bytes, self.destination_address.0);
        assert(bytes@ =~= ipv4_header_bytes(self@, ipv4_checksum(self@)));
        push_all(&mut bytes, payload.as_slice());
        Ok(bytes)
    }

    /// The header checksum: the one's complement of the one's-complement
    /// sum of the ten header words, with the checksum field as zero.
    pub fn calculate_checksum(&self) -> (r: u16)
        ensures
            r == ipv4_checksum(self@),
    {
        let mut numbers: Vec<u16> = Vec::new();
        numbers.push(
            (self.version % 16) as u16 * 4096 + (self.internet_header_length % 16) as u16 * 256
                + self.type_of_service.serialize() as u16,
        );
        numbers.push(self.total_length);
        numbers.push(self.identification);
        numbers.push(self.flags.serialize() as u16 * 8192 + self.fragment_offset % 8192);
        numbers.push(self.time_to_live as u16 * 256 + self.protocol.serialize() as u16);
        numbers.push(0);
        numbers.push((self.source_address.0 / 65536) as u16);
        numbers.push((self.source_address.0 % 65536) as u16);
        numbers.push((self.destination_address.0 / 65536) as u16);
        numbers.push((self.destination_address.0 % 65536) as u16);
        assert(numbers@ =~= ipv4_header_words(self@));
        calculate_ones_complement_sum(numbers)
    }
}

/// The one's-complement sum of an IPv4 header with IHL 5, taken with its
/// checksum field as zero, plus the header checksum, is `0xFFFF`. The
/// header is taken as the ten words that are written on the wire, where the
/// fragment offset fills its thirteen bits.
pub proof fn lemma_ipv4_header_checksum(h: IPv4View)
    requires
        h.internet_header_length == 5,
    ensures
        ones_add(ones_sum(ipv4_header_words(h)), ipv4_checksum(h)) == 0xFFFF,
{
    lemma_checksum_complements_sum(ipv4_header_words(h));
}

/// A packet that encodes without loss and whose checksums are the computed
/// ones: version and IHL 5 fit their nibbles, no options, zero reserved bits
/// in the type of service and the flags, a thirteen-bit fragment offset, a protocol that
/// names the payload's kind, a total length that counts header and
/// payload, and a TCP or UDP payload that is itself well formed (or an
/// undecoded one).
pub open spec fn ipv4_wf(h: IPv4View) -> bool {
    let src = IPAddress::V4(h.source_address);
    let dst = IPAddress::V4(h.destination_address);
    &&& h.version < 16
    &&& h.internet_header_length == 5
    &&& h.type_of_service.wf()
    &&& h.flags.wf()
    &&& h.fragment_offset < 8192
    &&& h.options_and_padding.len() == 0
    &&& h.protocol.is_canonical()
    &&& h.header_checksum == ipv4_checksum(h)
    &&& match h.data {
        TransportView::TCP(t) => {
            &&& h.protocol == Protocol::TCP
            &&& tcp_wf(t)
            &&& t.checksum == tcp_checksum(t, src, dst)
            &&& h.total_length == 20 + tcp_length(t)
        },
        TransportView::UDP(u) => {
            &&& h.protocol == Protocol::UDP
            &&& u.length == udp_length(u)
            &&& u.checksum == udp_checksum(u, src, dst)
            &&& h.total_length == 20 + udp_length(u)
        },
        TransportView::ICMPv6(_) => false,
        TransportView::Other(d) => {
            &&& h.protocol != Protocol::TCP
            &&& h.protocol != Protocol::UDP
            &&& h.protocol != Protocol::IPv6ICMP
            &&& h.total_length == 20 + d.len()
        },
    }
}

proof fn lemma_flags_word(bits: u16, offset: u16)
    requires
        bits < 8,
        offset < 8192,
    ensures
        (bits * 8192 + offset) / 8192 == bits,
        (bits * 8192 + offset) % 8192 == offset,
        bits * 8192 + offset < 65536,
{
    assert({
        let w = bits * 8192 + offset;
        &&& w / 8192 == bits
        &&& w % 8192 == offset
        &&& w < 65536
    }) by (bit_vector)
        requires
            bits < 8,
            offset < 8192,
    ;
}

proof fn lemma_first_byte(version: u8)
    requires
        version < 16,
    ensures
        (version * 16 + 5) / 16 == version,
        (version * 16 + 5) % 16 == 5,
        version * 16 + 5 < 256,
{
    assert({
        let b = version * 16 + 5;
        &&& b / 16 == version
        &&& b % 16 == 5
        &&& b < 256
    }) by (bit_vector)
        requires
            version < 16,
    ;
}

proof fn lemma_payload_round_trip(h: IPv4View)
    requires
        ipv4_wf(h),
    ensures
        transport_bytes(
            h.data,
            IPAddress::V4(h.source_address),
            IPAddress::V4(h.destination_address),
        ) matches Some(d) && h.total_length >= 20 + d.len() && parse_transport(
            h.protocol,
            h.total_length - 20,
            d,
        ) == Ok::<TransportView, ParseError>(h.data),
{
    let src = IPAddress::V4(h.source_address);
    let dst = IPAddress::V4(h.destination_address);
    let d = transport_bytes(h.data, src, dst).unwrap();
    assert(d.subrange(0, d.len() as int) =~= d);
    match h.data {
        TransportView::TCP(t) => {
            lemma_tcp_round_trip(t, tcp_checksum(t, src, dst));
        },
        TransportView::UDP(u) => {
            lemma_udp_round_trip(u, udp_checksum(u, src, dst));
        },
        _ => {},
    }
}

proof fn lemma_header_round_trip(h: IPv4View, d: Seq<u8>, b: Seq<u8>)
    requires
        ipv4_wf(h),
        b == ipv4_header_bytes(h, ipv4_checksum(h)) + d,
    ensures
        b[0] / 16 == h.version,
        b[0] % 16 == 5,
        TypeOfService::from_byte(b[1] as int) == h.type_of_service,
        be16(b, 2) == h.total_length,
        be16(b, 4) == h.identification,
        Flags::from_bits(be16(b, 6) / 8192) == h.flags,
        be16(b, 6) % 8192 == h.fragment_offset,
        b[8] == h.time_to_live,
        Protocol::from_number(b[9]) == h.protocol,
        be16(b, 10) == h.header_checksum,
        be32(b, 12) == h.source_address.0,
        be32(b, 16) == h.destination_address.0,
{
    let c = ipv4_checksum(h);
    let hb = ipv4_header_bytes(h, c);
    lemma_flags_round_trip(h.flags);
    lemma_type_of_service_round_trip(h.type_of_service);
    lemma_flags_word(h.flags.bits() as u16, h.fragment_offset);
    lemma_first_byte(h.version);
    let fw = flags_word(h);
    assert(b.subrange(2, 4) =~= u16_bytes(h.total_length as int));
    assert(b.subrange(4, 6) =~= u16_bytes(h.identification as int));
    assert(b.subrange(6, 8) =~= u16_bytes(fw));
    assert(b.subrange(10, 12) =~= u16_bytes(c));
    assert(b.subrange(12, 16) =~= u32_bytes(h.source_address.0 as int));
    assert(b.subrange(16, 20) =~= u32_bytes(h.destination_address.0 as int));
    lemma_be16_at(b, 2, h.total_length as int);
    lemma_be16_at(b, 4, h.identification as int);
    lemma_be16_at(b, 6, fw);
    lemma_be16_at(b, 10, c);
    lemma_be32_at(b, 12, h.source_address.0 as int);
    lemma_be32_at(b, 16, h.destination_address.0 as int);
}

/// A well-formed packet has an encoding, and decoding it gives the packet
/// back.
#[verifier::rlimit(60)]
pub proof fn lemma_ipv4_round_trip(h: IPv4View)
    requires
        ipv4_wf(h),
    ensures
        ipv4_encoding(h) matches Ok(b) && parse_ipv4(b) == Ok::<IPv4View, ParseError>(h),
{
    let src = IPAddress::V4(h.source_address);
    let dst = IPAddress::V4(h.destination_address);
    let d = transport_bytes(h.data, src, dst).unwrap();
    let c = ipv4_checksum(h);
    let b = ipv4_header_bytes(h, c) + d;
    lemma_payload_round_trip(h);
    lemma_header_round_trip(h, d, b);
    assert(b.subrange(20, b.len() as int) =~= d);
    assert(transport_length(h.data) matches Some(n) && n <= 0xFFFF) by {
        match h.data {
            TransportView::TCP(t) => {},
            TransportView::UDP(u) => {},
            _ => {},
        }
    }
    assert(ipv4_bytes(h) == Some(b));
    assert(ipv4_encoding(h) == Ok::<Seq<u8>, ResponseError>(b));
    assert(b.len() >= 20);
    assert(b[0] % 16 == 5);
    assert(be16(b, 2) >= 20);
    assert(min_len(b.len() - 20, 0) == 0);
    let p = parse_ipv4(b).unwrap();
    assert(p.options_and_padding =~= h.options_and_padding);
    assert(p == h);
}

} // verus!
