//! The four-byte frame header that the TUN device puts before each IP
//! packet: 16-bit flags and a 16-bit ethertype.
use vstd::prelude::*;
use crate::error::{ParseError, ResponseError};
use crate::ip_layer::{ip_encoding, parse_ip, IPLayerProtocol, IpView};
use crate::parsing::{be16, read_u16};
use crate::writing::{push_all, push_u16, u16_bytes};

verus! {

pub const PROTO_IPV4: u16 = 0x0800;

pub const PROTO_ARP: u16 = 0x0806;

pub const PROTO_WAKE_ON_LAN: u16 = 0x0842;

pub const PROTO_APPLE_TALK: u16 = 0x809B;

pub const PROTO_AARP: u16 = 0x80F3;

pub const PROTO_SLPP: u16 = 0x8102;

pub const PROTO_IPV6: u16 = 0x86DD;

pub const PROTO_ETHERNET_FLOW_CONTROL: u16 = 0x8808;

/// The ethertype of a frame.
#[derive(Clone, Copy, Debug, PartialEq, Eq, Structural)]
pub enum Protocol {
    IPv4,
    ARP,
    WakeOnLAN,
    AppleTalk,
    AARP,
    SLPP,
    IPv6,
    EthernetFlowControl,
    Unknown(u16),
}

impl Protocol {
    /// The ethertype that the number `num` names.
    pub open spec fn from_number(num: u16) -> Protocol {
        if num == PROTO_IPV4 {
            Protocol::IPv4
        } else if num == PROTO_ARP {
            Protocol::ARP
        } else if num == PROTO_WAKE_ON_LAN {
            Protocol::WakeOnLAN
        } else if num == PROTO_APPLE_TALK {
            Protocol::AppleTalk
        } else if num == PROTO_AARP {
            Protocol::AARP
        } else if num == PROTO_SLPP {
            Protocol::SLPP
        } else if num == PROTO_IPV6 {
            Protocol::IPv6
        } else if num == PROTO_ETHERNET_FLOW_CONTROL {
            Protocol::EthernetFlowControl
        } else {
            Protocol::Unknown(num)
        }
    }

    /// The ethertype's number.
    pub open spec fn number(self) -> u16 {
        match self {
            Protocol::IPv4 => PROTO_IPV4,
            Protocol::ARP => PROTO_ARP,
            Protocol::WakeOnLAN => PROTO_WAKE_ON_LAN,
            Protocol::AppleTalk => PROTO_APPLE_TALK,
            Protocol::AARP => PROTO_AARP,
            Protocol::SLPP => PROTO_SLPP,
            Protocol::IPv6 => PROTO_IPV6,
            Protocol::EthernetFlowControl => PROTO_ETHERNET_FLOW_CONTROL,
            Protocol::Unknown(v) => v,
        }
    }

    /// The ethertype that `num` names; every number reads back as itself.
    pub fn parse(num: u16) -> (r: Protocol)
        ensures
            r == Protocol::from_number(num),
            r.number() == num,
    {
        match num {
            PROTO_IPV4 => Protocol::IPv4,
            PROTO_ARP => Protocol::ARP,
            PROTO_WAKE_ON_LAN => Protocol::WakeOnLAN,
            PROTO_APPLE_TALK => Protocol::AppleTalk,
            PROTO_AARP => Protocol::AARP,
            PROTO_SLPP => Protocol::SLPP,
            PROTO_IPV6 => Protocol::IPv6,
            PROTO_ETHERNET_FLOW_CONTROL => Protocol::EthernetFlowControl,
            val => Protocol::Unknown(val),
        }
    }

    /// The ethertype's number.
    pub fn serialize(&self) -> (r: u16)
        ensures
            r == self.number(),
    {
        match self {
            Protocol::IPv4 => PROTO_IPV4,
            Protocol::ARP => PROTO_ARP,
            Protocol::WakeOnLAN => PROTO_WAKE_ON_LAN,
            Protocol::AppleTalk => PROTO_APPLE_TALK,
            Protocol::AARP => PROTO_AARP,
            Protocol::SLPP => PROTO_SLPP,
            Protocol::IPv6 => PROTO_IPV6,
            Protocol::EthernetFlowControl => PROTO_ETHERNET_FLOW_CONTROL,
            Protocol::Unknown(v) => *v,
        }
    }
}

/// A TUN frame: flags, ethertype and the IP packet.
#[derive(Clone, Debug)]
pub struct TunLayer {
    pub flags: u16,
    pub proto: Protocol,
    pub data: IPLayerProtocol,
}

/// The value of a frame.
pub struct TunView {
    pub flags: u16,
    pub proto: Protocol,
    pub data: IpView,
}

impl View for TunLayer {
    type V = TunView;

    open spec fn view(&self) -> TunView {
        TunView { flags: self.flags, proto: self.proto, data: self.data@ }
    }
}

/// Whether the ethertype announces the packet that follows: IPv4 for an
/// IPv4 packet, IPv6 for an IPv6 packet. Nothing else is accepted.
pub open spec fn ethertype_matches(proto: Protocol, data: IpView) -> bool {
    ||| proto == Protocol::IPv4 && data is IPv4
    ||| proto == Protocol::IPv6 && data is IPv6
}

/// The frame that `b` encodes. An ethertype that does not announce the
/// packet's version is an invalid field.
pub open spec fn parse_tun(b: Seq<u8>) -> Result<TunView, ParseError> {
    if b.len() < 4 {
        Err(ParseError::ShortRead)
    } else {
        let proto = Protocol::from_number(be16(b, 2) as u16);
        match parse_ip(b.subrange(4, b.len() as int)) {
            Err(e) => Err(e),
            Ok(data) => if ethertype_matches(proto, data) {
                Ok(TunView { flags: be16(b, 0) as u16, proto, data })
            } else {
                Err(ParseError::InvalidField)
            },
        }
    }
}

/// The encoding of a frame, or why it has none.
pub open spec fn tun_encoding(t: TunView) -> Result<Seq<u8>, ResponseError> {
    match ip_encoding(t.data) {
        Ok(d) => Ok(u16_bytes(t.flags as int) + u16_bytes(t.proto.number() as int) + d),
        Err(e) => Err(e),
    }
}

impl TunLayer {
    /// Decodes a frame from `buf`.
    pub fn parse(buf: &mut &[u8]) -> (r: Result<TunLayer, ParseError>)
        ensures
            match r {
                Ok(t) => parse_tun(old(buf)@) == Ok::<TunView, ParseError>(t@),
                Err(e) => parse_tun(old(buf)@) == Err::<TunView, ParseError>(e),
            },
    {
        if buf.len() < 4 {
            return Err(ParseError::ShortRead);
        }
        let ghost b = buf@;
        let flags = read_u16(buf).unwrap();
        let proto = Protocol::parse(read_u16(buf).unwrap());
        assert(buf@ == b.subrange(4, b.len() as int));
        let data = IPLayerProtocol::parse(buf)?;
        let matches = match (&proto, &data) {
            (Protocol::IPv4, IPLayerProtocol::IPv4(_)) => true,
            (Protocol::IPv6, IPLayerProtocol::IPv6(_)) => true,
            _ => false,
        };
        if !matches {
            return Err(ParseError::InvalidField);
        }
        Ok(TunLayer { flags, proto, data })
    }

    /// The frame that carries a response: flags zero, ethertype IPv4.
    pub fn generate_response(ip_layer: IPLayerProtocol) -> (r: TunLayer)
        ensures
            r@ == (TunView { flags: 0, proto: Protocol::IPv4, data: ip_layer@ }),
    {
        TunLayer { flags: 0, proto: Protocol::IPv4, data: ip_layer }
    }

    /// Encodes the frame.
    pub fn serialize(&self) -> (r: Result<Vec<u8>, ResponseError>)
        ensures
            match r {
                Ok(v) => tun_encoding(self@) == Ok::<Seq<u8>, ResponseError>(v@),
                Err(e) => tun_encoding(self@) == Err::<Seq<u8>, ResponseError>(e),
            },
    {
        let data = self.data.serialize()?;
        let mut bytes: Vec<u8> = Vec::new();
        push_u16(&mut bytes, self.flags);
        push_u16(&mut bytes, self.proto.serialize());
        push_all(&mut bytes, data.as_slice());
        assert(bytes@ =~= u16_bytes(self.flags as int) + u16_bytes(self.proto.number() as int)
            + data@);
        Ok(bytes)
    }
}

} // verus!
