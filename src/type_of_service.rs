//! The IPv4 type-of-service byte: precedence in the top three bits, then
//! the delay, throughput and reliability bits, then two reserved bits,
//! which are read but written as zero.
use vstd::prelude::*;

verus! {

/// The decoded type-of-service byte.
#[derive(Clone, Copy, Debug, PartialEq, Eq, Structural)]
pub struct TypeOfService {
    pub precedence: Precedence,
    pub delay: Delay,
    pub throughput: Throughput,
    pub reliability: Reliability,
    /// The two low bits.
    pub reserved: u8,
}

/// The eight precedence levels of RFC 791.
#[derive(Clone, Copy, Debug, PartialEq, Eq, Structural)]
pub enum Precedence {
    NetworkControl,
    InternetworkControl,
    CriticECP,
    FlashOverride,
    Flash,
    Immediate,
    Priority,
    Routine,
}

#[derive(Clone, Copy, Debug, PartialEq, Eq, Structural)]
pub enum Delay {
    Normal,
    Low,
}

#[derive(Clone, Copy, Debug, PartialEq, Eq, Structural)]
pub enum Throughput {
    Normal,
    High,
}

#[derive(Clone, Copy, Debug, PartialEq, Eq, Structural)]
pub enum Reliability {
    Normal,
    High,
}

impl Precedence {
    /// The level whose three-bit code is `v`.
    pub open spec fn from_code(v: int) -> Precedence {
        if v == 7 {
            Precedence::NetworkControl
        } else if v == 6 {
            Precedence::InternetworkControl
        } else if v == 5 {
            Precedence::CriticECP
        } else if v == 4 {
            Precedence::FlashOverride
        } else if v == 3 {
            Precedence::Flash
        } else if v == 2 {
            Precedence::Immediate
        } else if v == 1 {
            Precedence::Priority
        } else {
            Precedence::Routine
        }
    }

    /// The level's three-bit code.
    pub open spec fn code(self) -> int {
        match self {
            Precedence::NetworkControl => 7,
            Precedence::InternetworkControl => 6,
            Precedence::CriticECP => 5,
            Precedence::FlashOverride => 4,
            Precedence::Flash => 3,
            Precedence::Immediate => 2,
            Precedence::Priority => 1,
            Precedence::Routine => 0,
        }
    }

    /// The level held in the top three bits of `num`.
    pub fn parse(num: u8) -> (r: Precedence)
        ensures
            r == Precedence::from_code(num as int / 32),
            r.code() == num / 32,
    {
        match num / 32 {
            7 => Precedence::NetworkControl,
            6 => Precedence::InternetworkControl,
            5 => Precedence::CriticECP,
            4 => Precedence::FlashOverride,
            3 => Precedence::Flash,
            2 => Precedence::Immediate,
            1 => Precedence::Priority,
            _ => Precedence::Routine,
        }
    }

    pub fn serialize(&self) -> (r: u8)
        ensures
            r == self.code(),
    {
        match self {
            Precedence::NetworkControl => 7,
            Precedence::InternetworkControl => 6,
            Precedence::CriticECP => 5,
            Precedence::FlashOverride => 4,
            Precedence::Flash => 3,
            Precedence::Immediate => 2,
            Precedence::Priority => 1,
            Precedence::Routine => 0,
        }
    }
}

impl Delay {
    pub open spec fn bit(self) -> int {
        match self {
            Delay::Normal => 0,
            Delay::Low => 1,
        }
    }

    /// The delay bit (bit 4) of `num`.
    pub fn parse(num: u8) -> (r: Delay)
        ensures
            r.bit() == (num / 16) % 2,
    {
        if (num / 16) % 2 == 0 {
            Delay::Normal
        } else {
            Delay::Low
        }
    }

    pub fn serialize(&self) -> (r: u8)
        ensures
            r == self.bit(),
    {
        match self {
            Delay::Normal => 0,
            Delay::Low => 1,
        }
    }
}

impl Throughput {
    pub open spec fn bit(self) -> int {
        match self {
            Throughput::Normal => 0,
            Throughput::High => 1,
        }
    }

    /// The throughput bit (bit 3) of `num`.
    pub fn parse(num: u8) -> (r: Throughput)
        ensures
            r.bit() == (num / 8) % 2,
    {
        if (num / 8) % 2 == 0 {
            Throughput::Normal
        } else {
            Throughput::High
        }
    }

    pub fn serialize(&self) -> (r: u8)
        ensures
            r == self.bit(),
    {
        match self {
            Throughput::Normal => 0,
            Throughput::High => 1,
        }
    }
}

impl Reliability {
    pub open spec fn bit(self) -> int {
        match self {
            Reliability::Normal => 0,
            Reliability::High => 1,
        }
    }

    /// The reliability bit (bit 2) of `num`.
    pub fn parse(num: u8) -> (r: Reliability)
        ensures
            r.bit() == (num / 4) % 2,
    {
        if (num / 4) % 2 == 0 {
            Reliability::Normal
        } else {
            Reliability::High
        }
    }

    pub fn serialize(&self) -> (r: u8)
        ensures
            r == self.bit(),
    {
        match self {
            Reliability::Normal => 0,
            Reliability::High => 1,
        }
    }
}

impl TypeOfService {
    /// The byte that encodes this value; the reserved bits are written as
    /// zero.
    pub open spec fn byte(self) -> int {
        self.precedence.code() * 32 + self.delay.bit() * 16 + self.throughput.bit() * 8
            + self.reliability.bit() * 4
    }

    /// The value that the byte `num` encodes.
    pub open spec fn from_byte(num: int) -> TypeOfService {
        TypeOfService {
            precedence: Precedence::from_code(num / 32),
            delay: if (num / 16) % 2 == 0 {
                Delay::Normal
            } else {
                Delay::Low
            },
            throughput: if (num / 8) % 2 == 0 {
                Throughput::Normal
            } else {
                Throughput::High
            },
            reliability: if (num / 4) % 2 == 0 {
                Reliability::Normal
            } else {
                Reliability::High
            },
            reserved: (num % 4) as u8,
        }
    }

    /// The value encodes without loss: its reserved bits are zero.
    pub open spec fn wf(self) -> bool {
        self.reserved == 0
    }

    /// Decodes a type-of-service byte; encoding the result gives `num` back
    /// with its two reserved bits cleared.
    pub fn parse(num: u8) -> (r: TypeOfService)
        ensures
            r == TypeOfService::from_byte(num as int),
            r.reserved == num % 4,
            r.byte() == num - num % 4,
    {
        proof {
            lemma_byte_fields(num);
        }
        TypeOfService {
            precedence: Precedence::parse(num),
            delay: Delay::parse(num),
            throughput: Throughput::parse(num),
            reliability: Reliability::parse(num),
            reserved: num % 4,
        }
    }

    /// Encodes the value as a byte, with the reserved bits as zero.
    pub fn serialize(&self) -> (r: u8)
        ensures
            r == self.byte(),
    {
        let num = self.precedence.serialize() * 32 + self.delay.serialize() * 16
            + self.throughput.serialize() * 8 + self.reliability.serialize() * 4;
        num
    }
}

proof fn lemma_byte_fields(num: u8)
    ensures
        num == (num / 32) * 32 + ((num / 16) % 2) * 16 + ((num / 8) % 2) * 8 + ((num / 4) % 2) * 4
            + num % 4,
{
    assert(num == (num / 32) * 32 + ((num / 16) % 2) * 16 + ((num / 8) % 2) * 8 + ((num / 4) % 2)
        * 4 + num % 4) by (bit_vector);
}

proof fn lemma_fields_byte(p: u8, d: u8, t: u8, r: u8, res: u8)
    requires
        p < 8,
        d < 2,
        t < 2,
        r < 2,
        res < 4,
    ensures
        (p * 32 + d * 16 + t * 8 + r * 4 + res) / 32 == p,
        ((p * 32 + d * 16 + t * 8 + r * 4 + res) / 16) % 2 == d,
        ((p * 32 + d * 16 + t * 8 + r * 4 + res) / 8) % 2 == t,
        ((p * 32 + d * 16 + t * 8 + r * 4 + res) / 4) % 2 == r,
        (p * 32 + d * 16 + t * 8 + r * 4 + res) % 4 == res,
{
    assert({
        let n = p * 32 + d * 16 + t * 8 + r * 4 + res;
        &&& n / 32 == p
        &&& (n / 16) % 2 == d
        &&& (n / 8) % 2 == t
        &&& (n / 4) % 2 == r
        &&& n % 4 == res
    }) by (bit_vector)
        requires
            p < 8,
            d < 2,
            t < 2,
            r < 2,
            res < 4,
    ;
}

impl Default for TypeOfService {
    /// Routine precedence, normal delay, throughput and reliability.
    fn default() -> (r: TypeOfService)
        ensures
            r == TypeOfService::from_byte(0),
            r.byte() == 0,
    {
        TypeOfService {
            precedence: Precedence::Routine,
            delay: Delay::Normal,
            throughput: Throughput::Normal,
            reliability: Reliability::Normal,
            reserved: 0,
        }
    }
}

/// Decoding the byte of a well-formed value reads back each of its fields.
pub proof fn lemma_type_of_service_round_trip(t: TypeOfService)
    requires
        t.wf(),
    ensures
        0 <= t.byte() < 256,
        t.precedence.code() == t.byte() / 32,
        t.delay.bit() == (t.byte() / 16) % 2,
        t.throughput.bit() == (t.byte() / 8) % 2,
        t.reliability.bit() == (t.byte() / 4) % 2,
        t.reserved == t.byte() % 4,
{
    lemma_fields_byte(
        t.precedence.code() as u8,
        t.delay.bit() as u8,
        t.throughput.bit() as u8,
        t.reliability.bit() as u8,
        t.reserved,
    );
}

} // verus!
