//! The IP protocol numbers of the IANA registry that this stack knows by
//! name; every other number is kept as it is.
use vstd::prelude::*;

verus! {

/// The protocol carried in an IP packet (IPv4's protocol field, IPv6's
/// next header).
#[derive(Clone, Copy, Debug, PartialEq, Eq, Structural)]
pub enum Protocol {
    HOPOPT,
    ICMP,
    IPv4,
    TCP,
    UDP,
    IPv6,
    IPv6ICMP,
    Other(u8),
}

impl Protocol {
    /// The protocol that the number `num` names.
    pub open spec fn from_number(num: u8) -> Protocol {
        if num == 0 {
            Protocol::HOPOPT
        } else if num == 1 {
            Protocol::ICMP
        } else if num == 4 {
            Protocol::IPv4
        } else if num == 6 {
            Protocol::TCP
        } else if num == 17 {
            Protocol::UDP
        } else if num == 41 {
            Protocol::IPv6
        } else if num == 58 {
            Protocol::IPv6ICMP
        } else {
            Protocol::Other(num)
        }
    }

    /// The number of this protocol.
    pub open spec fn number(self) -> u8 {
        match self {
            Protocol::HOPOPT => 0,
            Protocol::ICMP => 1,
            Protocol::IPv4 => 4,
            Protocol::TCP => 6,
            Protocol::UDP => 17,
            Protocol::IPv6 => 41,
            Protocol::IPv6ICMP => 58,
            Protocol::Other(v) => v,
        }
    }

    /// A protocol is canonical when reading its number back gives it again:
    /// `Other` holds only numbers that have no name.
    pub open spec fn is_canonical(self) -> bool {
        Protocol::from_number(self.number()) == self
    }

    /// The protocol that the number `num` names; every number reads back as
    /// itself.
    pub fn parse(num: u8) -> (r: Protocol)
        ensures
            r == Protocol::from_number(num),
            r.number() == num,
            r.is_canonical(),
    {
        match num {
            0 => Protocol::HOPOPT,
            1 => Protocol::ICMP,
            4 => Protocol::IPv4,
            6 => Protocol::TCP,
            17 => Protocol::UDP,
            41 => Protocol::IPv6,
            58 => Protocol::IPv6ICMP,
            v => Protocol::Other(v),
        }
    }

    /// The protocol's number.
    pub fn serialize(&self) -> (r: u8)
        ensures
            r == self.number(),
    {
        match self {
            Protocol::HOPOPT => 0,
            Protocol::ICMP => 1,
            Protocol::IPv4 => 4,
            Protocol::TCP => 6,
            Protocol::UDP => 17,
            Protocol::IPv6 => 41,
            Protocol::IPv6ICMP => 58,
            Protocol::Other(v) => *v,
        }
    }
}

} // verus!
