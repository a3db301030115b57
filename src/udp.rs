//! UDP datagrams (RFC 768): decoding, encoding and the checksum over the
//! IPv4 pseudo-header.
use vstd::prelude::*;
use crate::checksum::{calculate_ones_complement_sum, checksum_of};
use crate::error::{ParseError, ResponseError};
use crate::ip_address::IPAddress;
use crate::parsing::{be16, read_u16, slice_to_vec};
use crate::writing::{lemma_be16_at, push_all, push_u16, u16_bytes, words_from_bytes, words_of};

verus! {

/// The length of the UDP header in bytes.
pub const UDP_HEADER_LEN: u16 = 8;

/// The IP protocol number of UDP, as the pseudo-header holds it.
pub const UDP_PROTOCOL_NUMBER: u16 = 17;

/// A UDP datagram.
#[derive(Clone, Debug)]
pub struct UDP {
    pub src_port: u16,
    pub dst_port: u16,
    /// The length field: header and data, in bytes.
    pub length: u16,
    pub checksum: u16,
    pub data: Vec<u8>,
}

/// The value of a datagram, with its data as a sequence.
pub struct UdpView {
    pub src_port: u16,
    pub dst_port: u16,
    pub length: u16,
    pub checksum: u16,
    pub data: Seq<u8>,
}

impl View for UDP {
    type V = UdpView;

    open spec fn view(&self) -> UdpView {
        UdpView {
            src_port: self.src_port,
            dst_port: self.dst_port,
            length: self.length,
            checksum: self.checksum,
            data: self.data@,
        }
    }
}

/// The datagram that the bytes `b` encode: four 16-bit fields, then data to
/// the end.
pub open spec fn parse_udp(b: Seq<u8>) -> Result<UdpView, ParseError> {
    if b.len() < 8 {
        Err(ParseError::ShortRead)
    } else {
        Ok(
            UdpView {
                src_port: be16(b, 0) as u16,
                dst_port: be16(b, 2) as u16,
                length: be16(b, 4) as u16,
                checksum: be16(b, 6) as u16,
                data: b.subrange(8, b.len() as int),
            },
        )
    }
}

/// The length of a datagram: the header and the data.
pub open spec fn udp_length(u: UdpView) -> int {
    8 + u.data.len() as int
}

/// The words that the checksum covers: the pseudo-header (addresses, the
/// protocol number, the length field), the header with a zero checksum,
/// and the data padded to whole words.
pub open spec fn udp_checksum_words(u: UdpView, src: IPAddress, dst: IPAddress) -> Seq<u16> {
    words_of(src.bytes()) + words_of(dst.bytes()) + seq![17u16, u.length] + seq![
        u.src_port,
        u.dst_port,
        u.length,
        0u16,
    ] + words_of(u.data)
}

/// The checksum of a datagram sent from `src` to `dst`.
pub open spec fn udp_checksum(u: UdpView, src: IPAddress, dst: IPAddress) -> int {
    checksum_of(udp_checksum_words(u, src, dst))
}

/// The bytes of a datagram whose checksum field is `checksum`; the length
/// field is the computed length.
pub open spec fn udp_bytes(u: UdpView, checksum: int) -> Seq<u8> {
    u16_bytes(u.src_port as int) + u16_bytes(u.dst_port as int) + u16_bytes(udp_length(u))
        + u16_bytes(checksum) + u.data
}

impl UDP {
    /// Decodes a datagram that fills the whole of `buf`, and consumes it.
    pub fn parse(buf: &mut &[u8]) -> (r: Result<UDP, ParseError>)
        ensures
            match r {
                Ok(u) => parse_udp(old(buf)@) == Ok::<UdpView, ParseError>(u@)
                    && final(buf)@.len() == 0,
                Err(e) => parse_udp(old(buf)@) == Err::<UdpView, ParseError>(e),
            },
    {
        if buf.len() < 8 {
            return Err(ParseError::ShortRead);
        }
        let ghost b = buf@;
        let src_port = read_u16(buf).unwrap();
        let dst_port = read_u16(buf).unwrap();
        assert(src_port == be16(b, 0) && dst_port == be16(b, 2));
        let length = read_u16(buf).unwrap();
        let checksum = read_u16(buf).unwrap();
        assert(length == be16(b, 4) && checksum == be16(b, 6));
        assert(buf@ == b.subrange(8, b.len() as int));
        let data = slice_to_vec(*buf);
        let (_, rest) = buf.split_at(buf.len());
        *buf = rest;
        let u = UDP { src_port, dst_port, length, checksum, data };
        assert(u@ == parse_udp(b).unwrap());
        Ok(u)
    }

    /// The datagram's length, header and data, when it fits in 16 bits.
    pub fn len(&self) -> (r: Result<u16, ResponseError>)
        ensures
            match r {
                Ok(n) => n == udp_length(self@),
                Err(e) => udp_length(self@) > 0xFFFF && e == ResponseError::SizeOverflow,
            },
    {
        if self.data.len() > (0xFFFF - UDP_HEADER_LEN) as usize {
            return Err(ResponseError::SizeOverflow);
        }
        Ok(UDP_HEADER_LEN + self.data.len() as u16)
    }

    /// The checksum of this datagram sent from `src_adr` to `dst_adr`, with
    /// the checksum field taken as zero.
    pub fn calculate_checksum(&self, src_adr: &IPAddress, dst_adr: &IPAddress) -> (r: u16)
        ensures
            r == udp_checksum(self@, *src_adr, *dst_adr),
    {
        let mut num = src_adr.words();
        let mut dst_words = dst_adr.words();
        num.append(&mut dst_words);
        num.push(UDP_PROTOCOL_NUMBER);
        num.push(self.length);
        num.push(self.src_port);
        num.push(self.dst_port);
        num.push(self.length);
        num.push(0);
        let mut data_words = words_from_bytes(self.data.as_slice());
        num.append(&mut data_words);
        assert(num@ =~= udp_checksum_words(self@, *src_adr, *dst_adr));
        calculate_ones_complement_sum(num)
    }

    /// Encodes the datagram with its computed length and a freshly computed
    /// checksum.
    pub fn serialize(&self, src_adr: &IPAddress, dst_adr: &IPAddress) -> (r: Result<
        Vec<u8>,
        ResponseError,
    >)
        ensures
            match r {
                Ok(v) => udp_length(self@) <= 0xFFFF && v@ == udp_bytes(
                    self@,
                    udp_checksum(self@, *src_adr, *dst_adr),
                ),
                Err(e) => udp_length(self@) > 0xFFFF && e == ResponseError::SizeOverflow,
            },
    {
        let len = self.len()?;
        let checksum = self.calculate_checksum(src_adr, dst_adr);
        let mut bytes: Vec<u8> = Vec::new();
        push_u16(&mut bytes, self.src_port);
        push_u16(&mut bytes, self.dst_port);
        push_u16(&mut bytes, len);
        push_u16(&mut bytes, checksum);
        push_all(&mut bytes, self.data.as_slice());
        assert(bytes@ =~= udp_bytes(self@, udp_checksum(self@, *src_adr, *dst_adr)));
        Ok(bytes)
    }
}

/// Decoding the encoding of a datagram gives the datagram back, with the
/// length and checksum fields that were written.
pub proof fn lemma_udp_round_trip(u: UdpView, checksum: int)
    requires
        udp_length(u) <= 0xFFFF,
        0 <= checksum < 65536,
    ensures
        parse_udp(udp_bytes(u, checksum)) == Ok::<UdpView, ParseError>(
            UdpView { length: udp_length(u) as u16, checksum: checksum as u16, ..u },
        ),
{
    let b = udp_bytes(u, checksum);
    assert(b.subrange(0, 2) =~= u16_bytes(u.src_port as int));
    assert(b.subrange(2, 4) =~= u16_bytes(u.dst_port as int));
    assert(b.subrange(4, 6) =~= u16_bytes(udp_length(u)));
    assert(b.subrange(6, 8) =~= u16_bytes(checksum));
    lemma_be16_at(b, 0, u.src_port as int);
    lemma_be16_at(b, 2, u.dst_port as int);
    lemma_be16_at(b, 4, udp_length(u));
    lemma_be16_at(b, 6, checksum);
    assert(b.subrange(8, b.len() as int) =~= u.data);
}

} // verus!
