//! The IP packet inside a TUN frame, routed by the version nibble.
use vstd::prelude::*;
use crate::error::{ParseError, ResponseError};
use crate::ipv4::{ipv4_encoding, parse_ipv4, IPv4View, IPv4};
use crate::ipv6::{parse_ipv6, IPv6View, IPv6};
use crate::parsing::slice_to_vec;

verus! {

/// An IP packet of either version, or the bytes of anything else.
#[derive(Clone, Debug)]
pub enum IPLayerProtocol {
    IPv4(IPv4),
    IPv6(IPv6),
    Other(Vec<u8>),
}

/// The value of an IP-layer packet.
pub enum IpView {
    IPv4(IPv4View),
    IPv6(IPv6View),
    Other(Seq<u8>),
}

impl View for IPLayerProtocol {
    type V = IpView;

    open spec fn view(&self) -> IpView {
        match self {
            IPLayerProtocol::IPv4(h) => IpView::IPv4(h@),
            IPLayerProtocol::IPv6(h) => IpView::IPv6(h@),
            IPLayerProtocol::Other(d) => IpView::Other(d@),
        }
    }
}

/// The packet that `b` encodes: IPv4 when the version nibble is 4, IPv6
/// when it is 6, and otherwise the bytes as they are.
pub open spec fn parse_ip(b: Seq<u8>) -> Result<IpView, ParseError> {
    if b.len() < 1 {
        Err(ParseError::ShortRead)
    } else if b[0] / 16 == 4 {
        match parse_ipv4(b) {
            Ok(h) => Ok(IpView::IPv4(h)),
            Err(e) => Err(e),
        }
    } else if b[0] / 16 == 6 {
        match parse_ipv6(b) {
            Ok(h) => Ok(IpView::IPv6(h)),
            Err(e) => Err(e),
        }
    } else {
        Ok(IpView::Other(b))
    }
}

/// The encoding of a packet, or why it has none: IPv6 is not encoded.
pub open spec fn ip_encoding(p: IpView) -> Result<Seq<u8>, ResponseError> {
    match p {
        IpView::IPv4(h) => ipv4_encoding(h),
        IpView::IPv6(_) => Err(ResponseError::Unsupported),
        IpView::Other(d) => Ok(d),
    }
}

impl IPLayerProtocol {
    /// Decodes the packet at the start of `bytes`, by its version nibble.
    pub fn parse(bytes: &mut &[u8]) -> (r: Result<IPLayerProtocol, ParseError>)
        ensures
            match r {
                Ok(p) => parse_ip(old(bytes)@) == Ok::<IpView, ParseError>(p@),
                Err(e) => parse_ip(old(bytes)@) == Err::<IpView, ParseError>(e),
            },
    {
        if bytes.len() < 1 {
            return Err(ParseError::ShortRead);
        }
        let version = bytes[0] / 16;
        if version == 4 {
            Ok(IPLayerProtocol::IPv4(IPv4::parse(bytes)?))
        } else if version == 6 {
            Ok(IPLayerProtocol::IPv6(IPv6::parse(bytes)?))
        } else {
            let other = slice_to_vec(*bytes);
            let (_, rest) = bytes.split_at(bytes.len());
            *bytes = rest;
            Ok(IPLayerProtocol::Other(other))
        }
    }

    /// Encodes the packet.
    pub fn serialize(&self) -> (r: Result<Vec<u8>, ResponseError>)
        ensures
            match r {
                Ok(v) => ip_encoding(self@) == Ok::<Seq<u8>, ResponseError>(v@),
                Err(e) => ip_encoding(self@) == Err::<Seq<u8>, ResponseError>(e),
            },
    {
        match self {
            IPLayerProtocol::IPv4(ipv4) => ipv4.serialize(),
            IPLayerProtocol::IPv6(_) => Err(ResponseError::Unsupported),
            IPLayerProtocol::Other(data) => Ok(slice_to_vec(data.as_slice())),
        }
    }
}

} // verus!
