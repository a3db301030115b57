use rtcp::checksum::calculate_ones_complement_sum;
use rtcp::control_bits::ControlBits;
use rtcp::error::{ParseError, ResponseError};
use rtcp::icmpv6::ICMPv6;
use rtcp::icmpv6_type::ICMPv6Type;
use rtcp::ip_address::{IPAddress, IPAddressV4, IPAddressV6};
use rtcp::ip_flags::{Flags, DF, MF};
use rtcp::ip_layer::IPLayerProtocol;
use rtcp::ip_protocol::Protocol;
use rtcp::ipv4::IPv4;
use rtcp::ipv6::IPv6;
use rtcp::parsing::{read_array, read_u128, read_u16, read_u24, read_u32, read_u8, read_vec};
use rtcp::tcb::initial_sequence_number;
use rtcp::tcp::TCP;
use rtcp::transport_layer::TransportLayer;
use rtcp::type_of_service::{Delay, Precedence, Reliability, Throughput, TypeOfService};
use rtcp::udp::UDP;

fn ones_sum(words: &[u16]) -> u16 {
    let mut v: u32 = 0;
    for w in words {
        v += *w as u32;
        if v > 0xFFFF {
            v -= 0xFFFF;
        }
    }
    v as u16
}

fn v4(a: u32) -> IPAddress {
    IPAddress::V4(IPAddressV4(a))
}

fn sample_ipv4(data: TransportLayer, protocol: Protocol, total_length: u16) -> IPv4 {
    IPv4 {
        version: 4,
        internet_header_length: 5,
        type_of_service: TypeOfService::default(),
        total_length,
        identification: 0,
        flags: Flags::default(),
        fragment_offset: 0,
        time_to_live: 60,
        protocol,
        header_checksum: 0,
        source_address: IPAddressV4(0xC0A8_0002),
        destination_address: IPAddressV4(0xC0A8_0001),
        options_and_padding: vec![],
        data,
    }
}

fn sample_tcp(options: Vec<u8>, data: Vec<u8>) -> TCP {
    TCP {
        src_port: 1234,
        dst_port: 80,
        sequence_number: 0x0102_0304,
        acknowledgement_number: 0xA0B0_C0D0,
        data_offset: 5 + (options.len() / 4) as u8,
        reserved: 0,
        control_bits: ControlBits { urg: true, ack: true, psh: false, rst: true, syn: false, fin: true },
        window: 512,
        checksum: 0,
        urgent_pointer: 9,
        options,
        data,
    }
}

fn same_tcp(a: &TCP, b: &TCP) -> bool {
    a.src_port == b.src_port
        && a.dst_port == b.dst_port
        && a.sequence_number == b.sequence_number
        && a.acknowledgement_number == b.acknowledgement_number
        && a.data_offset == b.data_offset
        && a.reserved == b.reserved
        && a.control_bits == b.control_bits
        && a.window == b.window
        && a.urgent_pointer == b.urgent_pointer
        && a.options == b.options
        && a.data == b.data
}

#[test]
fn ipv4_header_checksum_value() {
    let h = sample_ipv4(TransportLayer::Other(vec![0; 20]), Protocol::TCP, 40);
    let words = [0x4500, 40, 0, 0x4000, 0x3C06, 0, 0xC0A8, 0x0002, 0xC0A8, 0x0001];
    assert_eq!(h.calculate_checksum(), 0xBD7C);
    assert_eq!(h.calculate_checksum(), !ones_sum(&words));
}

#[test]
fn ipv4_header_sum_plus_checksum_is_all_ones() {
    let h = sample_ipv4(TransportLayer::Other(vec![1, 2, 3]), Protocol::Other(99), 23);
    let words = [0x4500, 23, 0, 0x4000, (60 << 8) | 99, 0, 0xC0A8, 0x0002, 0xC0A8, 0x0001];
    let s = ones_sum(&words) as u32 + h.calculate_checksum() as u32;
    let s = if s > 0xFFFF { s - 0xFFFF } else { s };
    assert_eq!(s, 0xFFFF);
}

#[test]
fn udp_pseudo_header_checksum_value() {
    let u = UDP { src_port: 53, dst_port: 40000, length: 12, checksum: 0, data: vec![0, 1, 2, 3] };
    let c = u.calculate_checksum(&v4(0xC0A8_0001), &v4(0xC0A8_0002));
    let words = [0xC0A8, 0x0001, 0xC0A8, 0x0002, 17, 12, 53, 40000, 12, 0, 0x0001, 0x0203];
    assert_eq!(c, 0xE008);
    assert_eq!(c, !ones_sum(&words));
}

#[test]
fn udp_odd_payload_is_padded() {
    let u = UDP { src_port: 1, dst_port: 2, length: 9, checksum: 0, data: vec![0xAB] };
    let c = u.calculate_checksum(&v4(0), &v4(0));
    assert_eq!(c, !ones_sum(&[17, 9, 1, 2, 9, 0, 0xAB00]));
}

#[test]
fn checksum_ignores_word_order() {
    let a = vec![0x1234, 0xFFFF, 0x0001, 0x8000, 0x7FFF];
    let b = vec![0x7FFF, 0x0001, 0x1234, 0x8000, 0xFFFF];
    assert_eq!(calculate_ones_complement_sum(a.clone()), calculate_ones_complement_sum(b));
    assert_eq!(calculate_ones_complement_sum(a.clone()), !ones_sum(&a));
}

#[test]
fn checksum_edge_cases() {
    assert_eq!(calculate_ones_complement_sum(vec![]), 0xFFFF);
    assert_eq!(calculate_ones_complement_sum(vec![0]), 0xFFFF);
    assert_eq!(calculate_ones_complement_sum(vec![0xFFFF]), 0);
    assert_eq!(calculate_ones_complement_sum(vec![1, 0xFFFE]), 0);
    assert_eq!(calculate_ones_complement_sum(vec![0x8000, 0x8000]), 0xFFFE);
}

#[test]
fn tcp_checksum_of_all_ones_sum_is_zero() {
    let t = TCP {
        src_port: 0,
        dst_port: 0,
        sequence_number: 0,
        acknowledgement_number: 0,
        data_offset: 5,
        reserved: 0,
        control_bits: ControlBits::parse(0),
        window: 0xAFE5,
        checksum: 0,
        urgent_pointer: 0,
        options: vec![],
        data: vec![],
    };
    // 6 + 20 + 0x5000 + 0xAFE5 == 0xFFFF
    assert_eq!(t.calculate_checksum(&v4(0), &v4(0)), Ok(0));
}

#[test]
fn tcp_round_trip() {
    let t = sample_tcp(vec![2, 4, 5, 180], b"payload".to_vec());
    let src = v4(0x0A00_0001);
    let dst = v4(0x0A00_0002);
    let bytes = t.serialize(&src, &dst).unwrap();
    assert_eq!(bytes.len(), 20 + 4 + 7);
    let mut buf = bytes.as_slice();
    let back = TCP::parse(&mut buf).unwrap();
    assert!(buf.is_empty());
    assert!(same_tcp(&t, &back));
    assert_eq!(back.checksum, t.calculate_checksum(&src, &dst).unwrap());
}

#[test]
fn tcp_serialize_writes_checksum_not_field() {
    let mut t = sample_tcp(vec![], vec![1, 2, 3]);
    t.checksum = 0x1111;
    let src = v4(1);
    let dst = v4(2);
    let bytes = t.serialize(&src, &dst).unwrap();
    let c = t.calculate_checksum(&src, &dst).unwrap();
    assert_eq!(u16::from_be_bytes([bytes[16], bytes[17]]), c);
    assert_ne!(c, 0x1111);
}

#[test]
fn tcp_length_counts_header_options_and_data() {
    let t = sample_tcp(vec![1, 1, 1, 1], vec![9; 10]);
    assert_eq!(t.len(), Ok(6 * 4 + 4 + 10));
    let big = sample_tcp(vec![], vec![0; 65536]);
    assert_eq!(big.len(), Err(ResponseError::SizeOverflow));
    assert_eq!(big.serialize(&v4(1), &v4(2)).err(), Some(ResponseError::SizeOverflow));
}

#[test]
fn tcp_data_offset_below_five_is_invalid() {
    let mut bytes = sample_tcp(vec![], vec![]).serialize(&v4(1), &v4(2)).unwrap();
    bytes[12] = 0x40;
    let mut buf = bytes.as_slice();
    assert_eq!(TCP::parse(&mut buf).err(), Some(ParseError::InvalidField));
    let mut short: &[u8] = &[0; 13];
    assert_eq!(TCP::parse(&mut short).err(), Some(ParseError::ShortRead));
}

#[test]
fn control_bits_decode_every_flag() {
    let c = ControlBits::parse(0b111111);
    assert!(c.urg && c.ack && c.psh && c.rst && c.syn && c.fin);
    assert_eq!(ControlBits::parse(0b010000), ControlBits::get_ack());
    assert_eq!(ControlBits::parse(0b000010), ControlBits::get_syn());
    assert_eq!(ControlBits::get_syn_ack().serialize(), 0b010010);
    assert_eq!(ControlBits::get_syn_ack().to_short_string(), "ACK, SYN");
    assert_eq!(ControlBits::parse(0).to_short_string(), "");
    assert_eq!(ControlBits::parse(0b100001).to_short_string(), "URG, FIN");
}

#[test]
fn udp_round_trip() {
    let u = UDP { src_port: 53, dst_port: 40000, length: 12, checksum: 0, data: vec![0, 1, 2, 3] };
    let src = v4(0xC0A8_0001);
    let dst = v4(0xC0A8_0002);
    let bytes = u.serialize(&src, &dst).unwrap();
    let mut buf = bytes.as_slice();
    let back = UDP::parse(&mut buf).unwrap();
    assert_eq!(back.src_port, 53);
    assert_eq!(back.dst_port, 40000);
    assert_eq!(back.length, 12);
    assert_eq!(back.checksum, 0xE008);
    assert_eq!(back.data, vec![0, 1, 2, 3]);
    let mut short: &[u8] = &[1, 2, 3];
    assert_eq!(UDP::parse(&mut short).err(), Some(ParseError::ShortRead));
}

#[test]
fn ipv4_round_trip_with_tcp() {
    let t = sample_tcp(vec![], b"hi".to_vec());
    let len = t.len().unwrap();
    let h = sample_ipv4(TransportLayer::TCP(t.clone()), Protocol::TCP, 20 + len);
    let bytes = h.serialize().unwrap();
    assert_eq!(bytes.len(), 20 + len as usize);
    let mut buf = bytes.as_slice();
    let back = IPv4::parse(&mut buf).unwrap();
    assert_eq!(back.version, 4);
    assert_eq!(back.internet_header_length, 5);
    assert_eq!(back.type_of_service, h.type_of_service);
    assert_eq!(back.total_length, h.total_length);
    assert_eq!(back.flags, h.flags);
    assert_eq!(back.fragment_offset, 0);
    assert_eq!(back.time_to_live, 60);
    assert_eq!(back.protocol, Protocol::TCP);
    assert_eq!(back.header_checksum, h.calculate_checksum());
    assert_eq!(back.source_address, h.source_address);
    assert_eq!(back.destination_address, h.destination_address);
    match back.data {
        TransportLayer::TCP(b) => assert!(same_tcp(&b, &t)),
        _ => panic!("payload is not TCP"),
    }
}

#[test]
fn ipv4_fields_decode() {
    // TOS 0b101_1_0_1_10, flags MF with fragment offset 0x0123.
    let mut bytes = vec![0x46, 0b1011_0110, 0, 26, 0xAB, 0xCD, 0x21, 0x23, 7, 200, 0x12, 0x34];
    bytes.extend_from_slice(&[1, 2, 3, 4, 5, 6, 7, 8]);
    bytes.extend_from_slice(&[0xEE, 0xEE, 0xEE, 0xEE]);
    bytes.extend_from_slice(&[9, 8]);
    let mut buf = bytes.as_slice();
    let h = IPv4::parse(&mut buf).unwrap();
    assert_eq!(h.internet_header_length, 6);
    assert_eq!(h.type_of_service.precedence, Precedence::CriticECP);
    assert_eq!(h.type_of_service.delay, Delay::Low);
    assert_eq!(h.type_of_service.throughput, Throughput::Normal);
    assert_eq!(h.type_of_service.reliability, Reliability::High);
    assert_eq!(h.type_of_service.reserved, 2);
    assert_eq!(h.identification, 0xABCD);
    assert_eq!(h.flags, Flags { reserved: 0, df: DF::MayFragment, mf: MF::MoreFragments });
    assert_eq!(h.fragment_offset, 0x0123);
    assert_eq!(h.protocol, Protocol::Other(200));
    assert_eq!(h.header_checksum, 0x1234);
    assert_eq!(h.source_address, IPAddressV4(0x0102_0304));
    assert_eq!(h.options_and_padding, vec![0xEE; 4]);
    match h.data {
        TransportLayer::Other(d) => assert_eq!(d, vec![9, 8]),
        _ => panic!("payload is not opaque"),
    }
}

#[test]
fn ipv4_invalid_lengths() {
    let mut small_ihl: &[u8] = &[0x44, 0, 0, 20];
    assert_eq!(IPv4::parse(&mut small_ihl).err(), Some(ParseError::InvalidField));
    let mut small_total: &[u8] = &[0x45, 0, 0, 19, 0, 0, 0, 0, 64, 6, 0, 0, 1, 1, 1, 1, 2, 2, 2, 2];
    assert_eq!(IPv4::parse(&mut small_total).err(), Some(ParseError::InvalidField));
    let mut short: &[u8] = &[0x45, 0, 0, 20, 0];
    assert_eq!(IPv4::parse(&mut short).err(), Some(ParseError::ShortRead));
}

#[test]
fn ipv4_response_swaps_addresses() {
    let req = sample_ipv4(TransportLayer::Other(vec![]), Protocol::UDP, 20);
    let u = UDP { src_port: 1, dst_port: 2, length: 10, checksum: 0, data: vec![5, 6] };
    let resp = req.generate_response(TransportLayer::UDP(u)).unwrap();
    assert_eq!(resp.source_address, req.destination_address);
    assert_eq!(resp.destination_address, req.source_address);
    assert_eq!(resp.total_length, 30);
    assert_eq!(resp.time_to_live, 60);
    assert_eq!(resp.protocol, Protocol::UDP);
    assert_eq!(resp.flags, Flags::default());
    let icmp = ICMPv6 { message_type: ICMPv6Type::EchoRequest, checksum: 0 };
    assert_eq!(req.generate_response(TransportLayer::ICMPv6(icmp)).err(), Some(ResponseError::Unsupported));
}

#[test]
fn ipv6_header_decodes() {
    let mut bytes = vec![0x6A, 0xBC, 0xDE, 0xF0, 0, 8, 17, 64];
    bytes.extend_from_slice(&[0x20, 0x01, 0x0d, 0xb8, 0, 0, 0, 0, 0, 0, 0, 0, 0, 0, 0, 1]);
    bytes.extend_from_slice(&[0xfe, 0x80, 0, 0, 0, 0, 0, 0, 0, 0, 0, 0, 0, 0, 0, 2]);
    bytes.extend_from_slice(&[0, 53, 0, 54, 0, 8, 0xAA, 0xBB]);
    let mut buf = bytes.as_slice();
    let h = IPv6::parse(&mut buf).unwrap();
    assert_eq!(h.version, 6);
    assert_eq!(h.traffic_class, 0xAB);
    assert_eq!(h.flow_label, 0xCDEF0);
    assert_eq!(h.payload_length, 8);
    assert_eq!(h.next_header, Protocol::UDP);
    assert_eq!(h.hop_limit, 64);
    assert_eq!(h.source_address, IPAddressV6(0x2001_0db8_0000_0000_0000_0000_0000_0001));
    assert_eq!(h.destination_address.get_bytes()[0], 0xfe);
    match &h.data {
        TransportLayer::UDP(u) => {
            assert_eq!(u.src_port, 53);
            assert_eq!(u.checksum, 0xAABB);
        },
        _ => panic!("payload is not UDP"),
    }
    assert_eq!(h.generate_response(TransportLayer::Other(vec![])).err(), Some(ResponseError::Unsupported));
}

#[test]
fn ip_layer_routes_by_version() {
    let mut other: &[u8] = &[0x20, 1, 2];
    match IPLayerProtocol::parse(&mut other).unwrap() {
        IPLayerProtocol::Other(d) => assert_eq!(d, vec![0x20, 1, 2]),
        _ => panic!("not opaque"),
    }
    let mut empty: &[u8] = &[];
    assert_eq!(IPLayerProtocol::parse(&mut empty).err(), Some(ParseError::ShortRead));
}

#[test]
fn icmpv6_reserved_types_are_invalid() {
    for t in [0u8, 127, 255] {
        let bytes = [t, 0, 0x12, 0x34, 1, 2];
        let mut buf = &bytes[..];
        assert_eq!(ICMPv6::parse(&mut buf).err(), Some(ParseError::InvalidField));
    }
    let mut unknown: &[u8] = &[99, 0, 0, 0];
    assert_eq!(ICMPv6::parse(&mut unknown).err(), Some(ParseError::InvalidField));
}

#[test]
fn icmpv6_types_decode() {
    let mut echo: &[u8] = &[128, 0, 0xBE, 0xEF, 1, 2, 3];
    let m = ICMPv6::parse(&mut echo).unwrap();
    assert_eq!(m.message_type, ICMPv6Type::EchoRequest);
    assert_eq!(m.checksum, 0xBEEF);
    for t in [100u8, 101, 200, 201] {
        let mut rest: &[u8] = &[];
        assert_eq!(ICMPv6Type::parse(t, 0, &mut rest), Some(ICMPv6Type::PrivateExperimentation));
    }
    assert_eq!(ICMPv6Type::ExtendedEchoReply.to_short_string(), "Extended echo reply");
}

#[test]
fn protocol_numbers_round_trip() {
    for n in 0..=255u8 {
        assert_eq!(Protocol::parse(n).serialize(), n);
    }
    assert_eq!(Protocol::parse(58), Protocol::IPv6ICMP);
    assert_eq!(Protocol::parse(17), Protocol::UDP);
    assert_eq!(Protocol::parse(2), Protocol::Other(2));
}

#[test]
fn type_of_service_bytes_round_trip() {
    for n in 0..=255u8 {
        let t = TypeOfService::parse(n);
        assert_eq!(t.reserved, n & 0x03);
        assert_eq!(t.serialize(), n & 0xFC);
    }
    assert_eq!(TypeOfService::default().serialize(), 0);
}

#[test]
fn flags_bits_round_trip() {
    for n in 0..8u8 {
        let f = Flags::parse(n);
        assert_eq!(f.reserved, n >> 2);
        assert_eq!(f.serialize(), n & 0b011);
    }
    assert_eq!(Flags::default().serialize(), 0b010);
}

#[test]
fn readers_advance_and_fail_short() {
    let data = [1u8, 2, 3, 4, 5, 6, 7];
    let mut buf = &data[..];
    assert_eq!(read_u8(&mut buf), Some(1));
    assert_eq!(read_u16(&mut buf), Some(0x0203));
    assert_eq!(read_u24(&mut buf), Some(0x040506));
    assert_eq!(read_u32(&mut buf), None);
    assert_eq!(buf, &[7]);
    let mut buf = &data[..];
    assert_eq!(read_u32(&mut buf), Some(0x01020304));
    assert_eq!(read_array::<2>(&mut buf), Some([5, 6]));
    assert_eq!(read_vec(&mut buf, 5), Some(vec![7]));
    assert!(buf.is_empty());
    let wide: Vec<u8> = (1..=16).collect();
    let mut buf = wide.as_slice();
    assert_eq!(read_u128(&mut buf), Some(0x0102030405060708090a0b0c0d0e0f10));
}

#[test]
fn addresses_to_bytes() {
    assert_eq!(IPAddressV4(0xC0A8_0001).get_bytes(), [192, 168, 0, 1]);
    assert_eq!(v4(0x0A00_0002).get_bytes(), vec![10, 0, 0, 2]);
    let a = IPAddress::V6(IPAddressV6(0x0102_0304_0506_0708_090a_0b0c_0d0e_0f10));
    assert_eq!(a.get_bytes(), (1..=16).collect::<Vec<u8>>());
    assert_eq!(a.words(), vec![0x0102, 0x0304, 0x0506, 0x0708, 0x090a, 0x0b0c, 0x0d0e, 0x0f10]);
}

#[test]
fn initial_sequence_number_ticks_every_four_microseconds() {
    assert_eq!(initial_sequence_number(0), 0);
    assert_eq!(initial_sequence_number(7), 1);
    assert_eq!(initial_sequence_number((1u128 << 34) + 8), 2);
}
