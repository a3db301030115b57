//! TCP segments (RFC 793): decoding, encoding and the checksum over the
//! IPv4 pseudo-header.
use vstd::prelude::*;
use crate::checksum::{calculate_ones_complement_sum, checksum_of, lemma_checksum_in_place, ones_sum};
use crate::control_bits::{lemma_control_bits_round_trip, ControlBits};
use crate::error::{ParseError, ResponseError};
use crate::ip_address::IPAddress;
use crate::parsing::{be16, be32, min_len, read_u16, read_u32, read_vec, slice_to_vec};
use crate::writing::{
    lemma_be16_at,
    lemma_be32_at,
    push_all,
    push_u16,
    push_u32,
    u16_bytes,
    u32_bytes,
    words_from_bytes,
    words_of,
};

verus! {

/// The smallest data offset: a header of five 32-bit words, no options.
pub const TCP_MIN_HEADER_LENGTH: u8 = 5;

/// The IP protocol number of TCP, as the pseudo-header holds it.
pub const TCP_PROTOCOL_NUMBER: u16 = 6;

/// A TCP segment: header fields, options and data.
#[derive(Clone, Debug)]
pub struct TCP {
    pub src_port: u16,
    pub dst_port: u16,
    pub sequence_number: u32,
    pub acknowledgement_number: u32,
    /// The header length in 32-bit words (four bits on the wire).
    pub data_offset: u8,
    /// The six reserved bits.
    pub reserved: u8,
    pub control_bits: ControlBits,
    pub window: u16,
    pub checksum: u16,
    pub urgent_pointer: u16,
    pub options: Vec<u8>,
    pub data: Vec<u8>,
}

/// The value of a segment, with its byte vectors as sequences.
pub struct TcpView {
    pub src_port: u16,
    pub dst_port: u16,
    pub sequence_number: u32,
    pub acknowledgement_number: u32,
    pub data_offset: u8,
    pub reserved: u8,
    pub control_bits: ControlBits,
    pub window: u16,
    pub checksum: u16,
    pub urgent_pointer: u16,
    pub options: Seq<u8>,
    pub data: Seq<u8>,
}

impl View for TCP {
    type V = TcpView;

    open spec fn view(&self) -> TcpView {
        TcpView {
            src_port: self.src_port,
            dst_port: self.dst_port,
            sequence_number: self.sequence_number,
            acknowledgement_number: self.acknowledgement_number,
            data_offset: self.data_offset,
            reserved: self.reserved,
            control_bits: self.control_bits,
            window: self.window,
            checksum: self.checksum,
            urgent_pointer: self.urgent_pointer,
            options: self.options@,
            data: self.data@,
        }
    }
}

/// The segment that the bytes `b` encode, or why they do not encode one.
/// The options take `(data_offset - 5) * 4` bytes, or what is left; the
/// data is everything after them.
pub open spec fn parse_tcp(b: Seq<u8>) -> Result<TcpView, ParseError> {
    if b.len() < 14 {
        Err(ParseError::ShortRead)
    } else if be16(b, 12) / 4096 < 5 {
        Err(ParseError::InvalidField)
    } else if b.len() < 20 {
        Err(ParseError::ShortRead)
    } else {
        let word = be16(b, 12);
        let options_end = 20 + min_len(b.len() - 20, (word / 4096 - 5) * 4);
        Ok(
            TcpView {
                src_port: be16(b, 0) as u16,
                dst_port: be16(b, 2) as u16,
                sequence_number: be32(b, 4) as u32,
                acknowledgement_number: be32(b, 8) as u32,
                data_offset: (word / 4096) as u8,
                reserved: ((word / 64) % 64) as u8,
                control_bits: ControlBits::from_bits(word % 64),
                window: be16(b, 14) as u16,
                checksum: be16(b, 16) as u16,
                urgent_pointer: be16(b, 18) as u16,
                options: b.subrange(20, options_end),
                data: b.subrange(options_end, b.len() as int),
            },
        )
    }
}

/// The length of a segment: `data_offset * 4 + |options| + |data|`.
pub open spec fn tcp_length(t: TcpView) -> int {
    t.data_offset * 4 + t.options.len() + t.data.len()
}

/// The 16-bit word that holds the data offset, the reserved bits (written
/// as zero) and the control bits.
pub open spec fn offset_word(t: TcpView) -> int {
    (t.data_offset % 16) * 4096 + t.control_bits.bits()
}

/// The ten words of the fixed header, with the checksum field as zero.
pub open spec fn tcp_header_words(t: TcpView) -> Seq<u16> {
    seq![
        t.src_port,
        t.dst_port,
        (t.sequence_number / 65536) as u16,
        (t.sequence_number % 65536) as u16,
        (t.acknowledgement_number / 65536) as u16,
        (t.acknowledgement_number % 65536) as u16,
        offset_word(t) as u16,
        t.window,
        0u16,
        t.urgent_pointer,
    ]
}

/// The words that the checksum covers: the pseudo-header (source and
/// destination address, the protocol number, the segment length), the
/// fixed header, then options and data padded to whole words.
pub open spec fn tcp_checksum_words(t: TcpView, src: IPAddress, dst: IPAddress) -> Seq<u16> {
    words_of(src.bytes()) + words_of(dst.bytes()) + seq![6u16, tcp_length(t) as u16]
        + tcp_header_words(t) + words_of(t.options + t.data)
}

/// The checksum of a segment sent from `src` to `dst`.
pub open spec fn tcp_checksum(t: TcpView, src: IPAddress, dst: IPAddress) -> int {
    checksum_of(tcp_checksum_words(t, src, dst))
}

/// The bytes of a segment whose checksum field is `checksum`.
pub open spec fn tcp_bytes(t: TcpView, checksum: int) -> Seq<u8> {
    u16_bytes(t.src_port as int) + u16_bytes(t.dst_port as int) + u32_bytes(
        t.sequence_number as int,
    ) + u32_bytes(t.acknowledgement_number as int) + u16_bytes(offset_word(t)) + u16_bytes(
        t.window as int,
    ) + u16_bytes(checksum) + u16_bytes(t.urgent_pointer as int) + t.options + t.data
}

fn short<T>(v: Option<T>) -> (r: Result<T, ParseError>)
    ensures
        match v {
            Some(x) => r == Ok::<T, ParseError>(x),
            None => r == Err::<T, ParseError>(ParseError::ShortRead),
        },
{
    match v {
        Some(x) => Ok(x),
        None => Err(ParseError::ShortRead),
    }
}

impl TCP {
    /// Decodes a segment that fills the whole of `buf`, and consumes it.
    pub fn parse(buf: &mut &[u8]) -> (r: Result<TCP, ParseError>)
        ensures
            match r {
                Ok(t) => parse_tcp(old(buf)@) == Ok::<TcpView, ParseError>(t@)
                    && final(buf)@.len() == 0,
                Err(e) => parse_tcp(old(buf)@) == Err::<TcpView, ParseError>(e),
            },
    {
        let ghost b = buf@;
        let src_port = short(read_u16(buf))?;
        let dst_port = short(read_u16(buf))?;
        let sequence_number = short(read_u32(buf))?;
        let acknowledgement_number = short(read_u32(buf))?;
        let word = short(read_u16(buf))?;
        assert(buf@ == b.subrange(14, b.len() as int));
        let data_offset = (word / 4096) as u8;
        if data_offset < TCP_MIN_HEADER_LENGTH {
            return Err(ParseError::InvalidField);
        }
        let window = short(read_u16(buf))?;
        let checksum = short(read_u16(buf))?;
        let urgent_pointer = short(read_u16(buf))?;
        assert(buf@ == b.subrange(20, b.len() as int));
        let options = short(read_vec(buf, ((data_offset - TCP_MIN_HEADER_LENGTH) as usize) * 4))?;
        let data = slice_to_vec(*buf);
        let (_, rest) = buf.split_at(buf.len());
        *buf = rest;
        let t = TCP {
            src_port,
            dst_port,
            sequence_number,
            acknowledgement_number,
            data_offset,
            reserved: ((word / 64) % 64) as u8,
            control_bits: ControlBits::parse((word % 64) as u8),
            window,
            checksum,
            urgent_pointer,
            options,
            data,
        };
        let ghost p = parse_tcp(b).unwrap();
        assert(t.src_port == p.src_port);
        assert(t.dst_port == p.dst_port);
        assert(t.sequence_number == p.sequence_number);
        assert(t.acknowledgement_number == p.acknowledgement_number);
        assert(t.data_offset == p.data_offset);
        assert(t.reserved == p.reserved);
        assert(t.control_bits == p.control_bits);
        assert(t.window == p.window);
        assert(t.checksum == p.checksum);
        assert(t.urgent_pointer == p.urgent_pointer);
        assert(t.options@ == p.options);
        assert(t.data@ == p.data);
        assert(t@ == parse_tcp(b).unwrap());
        Ok(t)
    }

    /// The segment's length, `data_offset * 4 + |options| + |data|`, when it
    /// fits in 16 bits.
    pub fn len(&self) -> (r: Result<u16, ResponseError>)
        ensures
            match r {
                Ok(n) => n == tcp_length(self@),
                Err(e) => tcp_length(self@) > 0xFFFF && e == ResponseError::SizeOverflow,
            },
    {
        let header_len = self.data_offset as u64 * 4;
        let options_len = self.options.len() as u64;
        let data_len = self.data.len() as u64;
        if options_len > 0xFFFF || data_len > 0xFFFF {
            return Err(ResponseError::SizeOverflow);
        }
        let total = header_len + options_len + data_len;
        if total > 0xFFFF {
            return Err(ResponseError::SizeOverflow);
        }
        Ok(total as u16)
    }

    /// The checksum of this segment sent from `src_adr` to `dst_adr`, with the
    /// checksum field taken as zero.
    pub fn calculate_checksum(&self, src_adr: &IPAddress, dst_adr: &IPAddress) -> (r: Result<
        u16,
        ResponseError,
    >)
        ensures
            match r {
                Ok(c) => tcp_length(self@) <= 0xFFFF && c == tcp_checksum(self@, *src_adr, *dst_adr),
                Err(e) => tcp_length(self@) > 0xFFFF && e == ResponseError::SizeOverflow,
            },
    {
        let len = self.len()?;
        let mut num = src_adr.words();
        let mut dst_words = dst_adr.words();
        num.append(&mut dst_words);
        num.push(TCP_PROTOCOL_NUMBER);
        num.push(len);
        let ghost pseudo = num@;
        let mut header = self.header_words();
        num.append(&mut header);
        let mut body: Vec<u8> = Vec::new();
        push_all(&mut body, self.options.as_slice());
        push_all(&mut body, self.data.as_slice());
        let mut body_words = words_from_bytes(body.as_slice());
        num.append(&mut body_words);
        assert(pseudo =~= words_of(src_adr.bytes()) + words_of(dst_adr.bytes()) + seq![
            6u16,
            tcp_length(self@) as u16,
        ]);
        Ok(calculate_ones_complement_sum(num))
    }

    /// The ten words of the fixed header, with the checksum field as zero.
    fn header_words(&self) -> (r: Vec<u16>)
        ensures
            r@ == tcp_header_words(self@),
    {
        let mut num: Vec<u16> = Vec::new();
        num.push(self.src_port);
        num.push(self.dst_port);
        num.push((self.sequence_number / 65536) as u16);
        num.push((self.sequence_number % 65536) as u16);
        num.push((self.acknowledgement_number / 65536) as u16);
        num.push((self.acknowledgement_number % 65536) as u16);
        num.push((self.data_offset % 16) as u16 * 4096 + self.control_bits.serialize() as u16);
        num.push(self.window);
        num.push(0);
        num.push(self.urgent_pointer);
        assert(num@ =~= tcp_header_words(self@));
        num
    }

    /// Encodes the segment with a freshly computed checksum. The reserved
    /// bits are written as zero and the options as they are held.
    pub fn serialize(&self, src_adr: &IPAddress, dst_adr: &IPAddress) -> (r: Result<
        Vec<u8>,
        ResponseError,
    >)
        ensures
            match r {
                Ok(v) => tcp_length(self@) <= 0xFFFF && v@ == tcp_bytes(
                    self@,
                    tcp_checksum(self@, *src_adr, *dst_adr),
                ),
                Err(e) => tcp_length(self@) > 0xFFFF && e == ResponseError::SizeOverflow,
            },
    {
        let checksum = self.calculate_checksum(src_adr, dst_adr)?;
        let mut bytes: Vec<u8> = Vec::new();
        push_u16(&mut bytes, self.src_port);
        push_u16(&mut bytes, self.dst_port);
        push_u32(&mut bytes, self.sequence_number);
        push_u32(&mut bytes, self.acknowledgement_number);
        push_u16(
            &mut bytes,
            (self.data_offset % 16) as u16 * 4096 + self.control_bits.serialize() as u16,
        );
        push_u16(&mut bytes, self.window);
        push_u16(&mut bytes, checksum);
        push_u16(&mut bytes, self.urgent_pointer);
        push_all(&mut bytes, self.options.as_slice());
        push_all(&mut bytes, self.data.as_slice());
        assert(bytes@ =~= tcp_bytes(self@, tcp_checksum(self@, *src_adr, *dst_adr)));
        Ok(bytes)
    }
}

/// A segment that encodes without loss: a data offset of five to fifteen
/// words, options that fill exactly the header beyond the fixed twenty
/// bytes, and zero reserved bits (which are written as zero).
pub open spec fn tcp_wf(t: TcpView) -> bool {
    &&& 5 <= t.data_offset <= 15
    &&& t.options.len() == (t.data_offset - 5) * 4
    &&& t.reserved == 0
}

proof fn lemma_offset_word(off: u16, bits: u16)
    requires
        5 <= off <= 15,
        bits < 64,
    ensures
        (off * 4096 + bits) / 4096 == off,
        ((off * 4096 + bits) / 64) % 64 == 0,
        (off * 4096 + bits) % 64 == bits,
        off * 4096 + bits < 65536,
{
    assert({
        let w = off * 4096 + bits;
        &&& w / 4096 == off
        &&& (w / 64) % 64 == 0
        &&& w % 64 == bits
        &&& w < 65536
    }) by (bit_vector)
        requires
            5 <= off <= 15,
            bits < 64,
    ;
}

/// Decoding the encoding of a well-formed segment gives the segment back,
/// with the checksum field that was written.
pub proof fn lemma_tcp_round_trip(t: TcpView, checksum: int)
    requires
        tcp_wf(t),
        0 <= checksum < 65536,
    ensures
        parse_tcp(tcp_bytes(t, checksum)) == Ok::<TcpView, ParseError>(
            TcpView { checksum: checksum as u16, ..t },
        ),
{
    let b = tcp_bytes(t, checksum);
    lemma_control_bits_round_trip(t.control_bits);
    lemma_offset_word(t.data_offset as u16, t.control_bits.bits() as u16);
    let w = offset_word(t);
    assert(b.subrange(0, 2) =~= u16_bytes(t.src_port as int));
    assert(b.subrange(2, 4) =~= u16_bytes(t.dst_port as int));
    assert(b.subrange(4, 8) =~= u32_bytes(t.sequence_number as int));
    assert(b.subrange(8, 12) =~= u32_bytes(t.acknowledgement_number as int));
    assert(b.subrange(12, 14) =~= u16_bytes(w));
    assert(b.subrange(14, 16) =~= u16_bytes(t.window as int));
    assert(b.subrange(16, 18) =~= u16_bytes(checksum));
    assert(b.subrange(18, 20) =~= u16_bytes(t.urgent_pointer as int));
    lemma_be16_at(b, 0, t.src_port as int);
    lemma_be16_at(b, 2, t.dst_port as int);
    lemma_be32_at(b, 4, t.sequence_number as int);
    lemma_be32_at(b, 8, t.acknowledgement_number as int);
    lemma_be16_at(b, 12, w);
    lemma_be16_at(b, 14, t.window as int);
    lemma_be16_at(b, 16, checksum);
    lemma_be16_at(b, 18, t.urgent_pointer as int);
    let end = 20 + t.options.len() as int;
    assert(b.subrange(20, end) =~= t.options);
    assert(b.subrange(end, b.len() as int) =~= t.data);
}

/// The position of the checksum field among a segment's checksum words.
pub open spec fn tcp_checksum_slot(src: IPAddress, dst: IPAddress) -> nat {
    words_of(src.bytes()).len() + words_of(dst.bytes()).len() + 10
}

/// A segment's checksum is valid: with the computed checksum in its field,
/// the one's-complement sum of the pseudo-header, header, options and data
/// is `0xFFFF`.
pub proof fn lemma_tcp_checksum_valid(t: TcpView, src: IPAddress, dst: IPAddress)
    ensures
        ones_sum(
            tcp_checksum_words(t, src, dst).update(
                tcp_checksum_slot(src, dst) as int,
                tcp_checksum(t, src, dst) as u16,
            ),
        ) == 0xFFFF,
{
    let w = tcp_checksum_words(t, src, dst);
    let k = tcp_checksum_slot(src, dst) as int;
    let pre = words_of(src.bytes()) + words_of(dst.bytes()) + seq![6u16, tcp_length(t) as u16];
    assert(w == pre + tcp_header_words(t) + words_of(t.options + t.data));
    assert(w[k] == tcp_header_words(t)[8]);
    lemma_checksum_in_place(w, k);
}

} // verus!
