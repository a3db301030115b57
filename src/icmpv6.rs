//! ICMPv6 messages, decoded as far as their type.
use vstd::prelude::*;
use crate::error::ParseError;
use crate::icmpv6_type::ICMPv6Type;
use crate::parsing::{be16, read_u16, read_u8};

verus! {

/// An ICMPv6 message: its type and checksum. The body is not kept.
#[derive(Clone, Copy, Debug, PartialEq, Eq, Structural)]
pub struct ICMPv6 {
    pub message_type: ICMPv6Type,
    pub checksum: u16,
}

/// The message that the bytes `b` encode: a type byte, a code byte and a
/// checksum, then a body that is skipped. A reserved or unassigned type is
/// an invalid field.
pub open spec fn parse_icmpv6(b: Seq<u8>) -> Result<ICMPv6, ParseError> {
    if b.len() < 4 {
        Err(ParseError::ShortRead)
    } else {
        match ICMPv6Type::from_number(b[0]) {
            Some(t) => Ok(ICMPv6 { message_type: t, checksum: be16(b, 2) as u16 }),
            None => Err(ParseError::InvalidField),
        }
    }
}

impl ICMPv6 {
    /// Decodes a message that fills the whole of `buf`, and consumes it.
    pub fn parse(buf: &mut &[u8]) -> (r: Result<ICMPv6, ParseError>)
        ensures
            match r {
                Ok(m) => parse_icmpv6(old(buf)@) == Ok::<ICMPv6, ParseError>(m) && final(buf)@.len()
                    == 0,
                Err(e) => parse_icmpv6(old(buf)@) == Err::<ICMPv6, ParseError>(e),
            },
    {
        if buf.len() < 4 {
            return Err(ParseError::ShortRead);
        }
        let ghost b = buf@;
        let m_type = read_u8(buf).unwrap();
        let code = read_u8(buf).unwrap();
        let checksum = read_u16(buf).unwrap();
        assert(checksum == be16(b, 2));
        let message_type = match ICMPv6Type::parse(m_type, code, buf) {
            Some(t) => t,
            None => return Err(ParseError::InvalidField),
        };
        let (_, rest) = buf.split_at(buf.len());
        *buf = rest;
        Ok(ICMPv6 { message_type, checksum })
    }
}

} // verus!
