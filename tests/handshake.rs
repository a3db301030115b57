use rtcp::connections::{handle_tun_layer, ConnectionTable, TCPQuad};
use rtcp::control_bits::ControlBits;
use rtcp::error::{ParseError, ResponseError};
use rtcp::ip_address::{IPAddress, IPAddressV4};
use rtcp::ip_layer::IPLayerProtocol;
use rtcp::tcb::{TCPStateChange, TcpError, TcpState, TCB};
use rtcp::tcp::TCP;
use rtcp::transport_layer::TransportLayer;
use rtcp::tun_layer::TunLayer;

const CLIENT: u32 = 0x0A00_0002; // 10.0.0.2
const SERVER: u32 = 0x0A00_0001; // 10.0.0.1
const ISS: u32 = 0x1234_5678;

/// A TUN frame holding an IPv4 packet from the client to the server that
/// carries a TCP segment from port 49152 to port 80.
fn frame(seq: u32, ack: u32, control: u8, window: u16, data: &[u8]) -> Vec<u8> {
    let total = 40 + data.len() as u16;
    let mut b = vec![0x00, 0x00, 0x08, 0x00];
    b.extend_from_slice(&[0x45, 0x00]);
    b.extend_from_slice(&total.to_be_bytes());
    b.extend_from_slice(&[0x00, 0x00, 0x40, 0x00, 64, 6, 0x00, 0x00]);
    b.extend_from_slice(&CLIENT.to_be_bytes());
    b.extend_from_slice(&SERVER.to_be_bytes());
    b.extend_from_slice(&49152u16.to_be_bytes());
    b.extend_from_slice(&80u16.to_be_bytes());
    b.extend_from_slice(&seq.to_be_bytes());
    b.extend_from_slice(&ack.to_be_bytes());
    b.extend_from_slice(&(0x5000u16 | control as u16).to_be_bytes());
    b.extend_from_slice(&window.to_be_bytes());
    b.extend_from_slice(&[0, 0, 0, 0]);
    b.extend_from_slice(data);
    b
}

fn receive(table: &mut ConnectionTable, bytes: &[u8], iss: u32) -> Result<Option<TunLayer>, ResponseError> {
    let mut buf = bytes;
    let parsed = TunLayer::parse(&mut buf).expect("frame parses");
    handle_tun_layer(parsed, table, iss)
}

fn response_segment(resp: &TunLayer) -> (TCP, u32, u32) {
    match &resp.data {
        IPLayerProtocol::IPv4(h) => match &h.data {
            TransportLayer::TCP(t) => (t.clone(), h.source_address.0, h.destination_address.0),
            _ => panic!("response is not TCP"),
        },
        _ => panic!("response is not IPv4"),
    }
}

fn quad() -> TCPQuad {
    TCPQuad {
        src_ip: IPAddress::V4(IPAddressV4(CLIENT)),
        dst_ip: IPAddress::V4(IPAddressV4(SERVER)),
        src_port: 49152,
        dst_port: 80,
    }
}

/// Encodes the response frame, decodes it again, and checks that the TCP
/// checksum written on the wire is the one computed over the pseudo-header.
fn assert_checksum_valid(resp: &TunLayer) {
    let bytes = resp.serialize().expect("response encodes");
    let mut buf = bytes.as_slice();
    let back = TunLayer::parse(&mut buf).expect("response decodes");
    let (seg, src, dst) = response_segment(&back);
    let expected = seg
        .calculate_checksum(&IPAddress::V4(IPAddressV4(src)), &IPAddress::V4(IPAddressV4(dst)))
        .unwrap();
    assert_eq!(seg.checksum, expected);
    // The one's-complement sum of the pseudo-header and the segment as
    // written, checksum included, is all ones.
    let segment_bytes = &bytes[24..];
    let mut words = vec![
        (src >> 16) as u16,
        src as u16,
        (dst >> 16) as u16,
        dst as u16,
        6,
        segment_bytes.len() as u16,
    ];
    for pair in segment_bytes.chunks(2) {
        let lo = if pair.len() == 2 { pair[1] } else { 0 };
        words.push(((pair[0] as u16) << 8) | lo as u16);
    }
    let mut sum: u32 = 0;
    for w in words {
        sum += w as u32;
        if sum > 0xFFFF {
            sum -= 0xFFFF;
        }
    }
    assert_eq!(sum, 0xFFFF);
}

#[test]
fn listen_syn_gets_syn_ack() {
    let mut table = ConnectionTable::new();
    let resp = receive(&mut table, &frame(0xDEADBEEF, 0, 0x02, 0xFFFF, &[]), ISS)
        .unwrap()
        .expect("a SYN-ACK");
    assert_eq!(resp.flags, 0);
    let (seg, src, dst) = response_segment(&resp);
    assert_eq!(src, SERVER);
    assert_eq!(dst, CLIENT);
    assert_eq!(seg.src_port, 80);
    assert_eq!(seg.dst_port, 49152);
    assert_eq!(seg.sequence_number, ISS);
    assert_eq!(seg.acknowledgement_number, 0xDEADBEF0);
    assert_eq!(seg.data_offset, 5);
    assert_eq!(seg.control_bits, ControlBits::get_syn_ack());
    assert_eq!(seg.window, 1024);
    assert!(seg.options.is_empty() && seg.data.is_empty());
    assert_checksum_valid(&resp);
    let tcb = table.get(&quad()).expect("connection stored");
    assert_eq!(tcb.state, TcpState::SynReceived);
    assert_eq!(tcb.send_sequence.next, ISS + 1);
    assert_eq!(tcb.receive_sequence.next, 0xDEADBEF0);
    assert_eq!(tcb.receive_sequence.initial_receive_sequence, 0xDEADBEEF);
}

#[test]
fn syn_received_ack_establishes() {
    let mut table = ConnectionTable::new();
    receive(&mut table, &frame(0xDEADBEEF, 0, 0x02, 0xFFFF, &[]), ISS).unwrap();
    let resp = receive(&mut table, &frame(0xDEADBEF0, ISS + 1, 0x10, 0xFFFF, &[]), ISS).unwrap();
    assert!(resp.is_none());
    let tcb = table.get(&quad()).unwrap();
    assert_eq!(tcb.state, TcpState::Established);
    assert_eq!(tcb.receive_sequence.next, 0xDEADBEF0);
}

#[test]
fn established_in_order_data_is_acked() {
    let mut table = ConnectionTable::new();
    receive(&mut table, &frame(0xDEADBEEF, 0, 0x02, 0xFFFF, &[]), ISS).unwrap();
    receive(&mut table, &frame(0xDEADBEF0, ISS + 1, 0x10, 0x2000, &[]), ISS).unwrap();
    let resp = receive(&mut table, &frame(0xDEADBEF0, ISS + 1, 0x10, 0x3000, b"hello"), ISS)
        .unwrap()
        .expect("an ACK");
    let (seg, _, _) = response_segment(&resp);
    assert_eq!(seg.sequence_number, ISS + 1);
    assert_eq!(seg.acknowledgement_number, 0xDEADBEF0 + 5);
    assert_eq!(seg.control_bits, ControlBits::get_ack());
    assert_eq!(seg.window, 0x3000);
    assert_checksum_valid(&resp);
    let tcb = table.get(&quad()).unwrap();
    assert_eq!(tcb.receive_buffer, b"hello".to_vec());
    assert_eq!(tcb.receive_sequence.next, 0xDEADBEF5);
}

#[test]
fn adjacent_segments_append_in_order() {
    let mut table = ConnectionTable::new();
    receive(&mut table, &frame(100, 0, 0x02, 0xFFFF, &[]), ISS).unwrap();
    receive(&mut table, &frame(101, ISS + 1, 0x10, 0xFFFF, &[]), ISS).unwrap();
    receive(&mut table, &frame(101, ISS + 1, 0x10, 0xFFFF, b"abc"), ISS).unwrap();
    receive(&mut table, &frame(104, ISS + 1, 0x10, 0xFFFF, b"defg"), ISS).unwrap();
    let tcb = table.get(&quad()).unwrap();
    assert_eq!(tcb.receive_buffer, b"abcdefg".to_vec());
    assert_eq!(tcb.receive_sequence.next, 101 + 7);
}

#[test]
fn overlapping_segment_delivers_only_new_bytes() {
    let mut table = ConnectionTable::new();
    receive(&mut table, &frame(100, 0, 0x02, 0xFFFF, &[]), ISS).unwrap();
    receive(&mut table, &frame(101, ISS + 1, 0x10, 0xFFFF, &[]), ISS).unwrap();
    receive(&mut table, &frame(101, ISS + 1, 0x10, 0xFFFF, b"abc"), ISS).unwrap();
    let resp = receive(&mut table, &frame(102, ISS + 1, 0x10, 0xFFFF, b"bcde"), ISS)
        .unwrap()
        .unwrap();
    let (seg, _, _) = response_segment(&resp);
    assert_eq!(seg.acknowledgement_number, 106);
    let tcb = table.get(&quad()).unwrap();
    assert_eq!(tcb.receive_buffer, b"abcde".to_vec());
    assert_eq!(tcb.receive_sequence.next, 106);
}

#[test]
fn old_segment_delivers_nothing() {
    let mut table = ConnectionTable::new();
    receive(&mut table, &frame(100, 0, 0x02, 0xFFFF, &[]), ISS).unwrap();
    receive(&mut table, &frame(101, ISS + 1, 0x10, 0xFFFF, &[]), ISS).unwrap();
    receive(&mut table, &frame(101, ISS + 1, 0x10, 0xFFFF, b"abc"), ISS).unwrap();
    let resp = receive(&mut table, &frame(101, ISS + 1, 0x10, 0xFFFF, b"ab"), ISS)
        .unwrap()
        .unwrap();
    let (seg, _, _) = response_segment(&resp);
    assert_eq!(seg.acknowledgement_number, 104);
    assert_eq!(table.get(&quad()).unwrap().receive_buffer, b"abc".to_vec());
}

#[test]
fn listen_without_syn_is_dropped() {
    let mut table = ConnectionTable::new();
    let resp = receive(&mut table, &frame(5, 0, 0x10, 0xFFFF, &[]), ISS).unwrap();
    assert!(resp.is_none());
    let tcb = table.get(&quad()).expect("the quadruple is recorded");
    assert_eq!(tcb.state, TcpState::Listen);
    assert_eq!(tcb.receive_sequence.next, 0);
    assert!(tcb.receive_buffer.is_empty());
}

#[test]
fn syn_received_without_ack_keeps_state() {
    let mut table = ConnectionTable::new();
    receive(&mut table, &frame(7, 0, 0x02, 0xFFFF, &[]), ISS).unwrap();
    let resp = receive(&mut table, &frame(8, 0, 0x02, 0xFFFF, &[]), ISS).unwrap();
    assert!(resp.is_none());
    assert_eq!(table.get(&quad()).unwrap().state, TcpState::SynReceived);
}

#[test]
fn mismatched_ethertype_is_invalid() {
    let mut bytes = frame(1, 0, 0x02, 0xFFFF, &[]);
    bytes[2] = 0x86;
    bytes[3] = 0xDD;
    let mut buf = bytes.as_slice();
    assert_eq!(TunLayer::parse(&mut buf).err(), Some(ParseError::InvalidField));
}

#[test]
fn short_frame_is_short_read() {
    let mut buf: &[u8] = &[0, 0, 8];
    assert_eq!(TunLayer::parse(&mut buf).err(), Some(ParseError::ShortRead));
}

fn segment(control: ControlBits, seq: u32) -> TCP {
    TCP {
        src_port: 1,
        dst_port: 2,
        sequence_number: seq,
        acknowledgement_number: 0,
        data_offset: 5,
        reserved: 0,
        control_bits: control,
        window: 100,
        checksum: 0,
        urgent_pointer: 0,
        options: vec![],
        data: vec![],
    }
}

#[test]
fn state_machine_errors() {
    let listening = TCB::default();
    assert_eq!(
        listening.on_packet_received(&segment(ControlBits::get_ack(), 1), ISS).err(),
        Some(TcpError::UnexpectedConnection)
    );
    let mut tcb = TCB::default();
    tcb.state = TcpState::SynReceived;
    assert_eq!(
        tcb.on_packet_received(&segment(ControlBits::get_syn(), 1), ISS).err(),
        Some(TcpError::MissingAck)
    );
    tcb.state = TcpState::Established;
    assert_eq!(
        tcb.on_packet_received(&segment(ControlBits::get_syn(), 1), ISS).err(),
        Some(TcpError::MissingAck)
    );
    tcb.state = TcpState::FinWait2;
    assert_eq!(
        tcb.on_packet_received(&segment(ControlBits::get_ack(), 1), ISS).err(),
        Some(TcpError::NotSupported(TcpState::FinWait2))
    );
}

#[test]
fn syn_at_top_of_sequence_space_wraps() {
    match TCB::default().on_packet_received(&segment(ControlBits::get_syn(), u32::MAX), u32::MAX) {
        Ok(TCPStateChange::WithResponse(tcb, resp)) => {
            assert_eq!(resp.acknowledgement_number, 0);
            assert_eq!(resp.sequence_number, u32::MAX);
            assert_eq!(tcb.send_sequence.next, 0);
            assert_eq!(tcb.send_sequence.initial_send_sequence, u32::MAX);
            assert_eq!(tcb.send_sequence.window, 1024);
        }
        _ => panic!("SYN refused"),
    }
}

#[test]
fn ipv6_syn_advances_but_cannot_be_answered() {
    let mut b = vec![0x00, 0x00, 0x86, 0xDD, 0x60, 0, 0, 0, 0, 20, 6, 64];
    b.extend_from_slice(&1u128.to_be_bytes());
    b.extend_from_slice(&2u128.to_be_bytes());
    b.extend_from_slice(&[0, 7, 0, 8, 0, 0, 0, 9, 0, 0, 0, 0, 0x50, 0x02, 0xFF, 0xFF, 0, 0, 0, 0]);
    let mut table = ConnectionTable::new();
    assert_eq!(receive(&mut table, &b, ISS).err(), Some(ResponseError::Unsupported));
    let q = TCPQuad {
        src_ip: IPAddress::V6(rtcp::ip_address::IPAddressV6(1)),
        dst_ip: IPAddress::V6(rtcp::ip_address::IPAddressV6(2)),
        src_port: 7,
        dst_port: 8,
    };
    assert_eq!(table.get(&q).unwrap().state, TcpState::SynReceived);
}
