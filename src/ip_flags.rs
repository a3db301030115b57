//! The three IPv4 flag bits: reserved (read, but written as zero),
//! don't-fragment and more-fragments.
use vstd::prelude::*;

verus! {

/// The decoded flag bits of an IPv4 header.
#[derive(Clone, Copy, Debug, PartialEq, Eq, Structural)]
pub struct Flags {
    /// The top (reserved) bit.
    pub reserved: u8,
    pub df: DF,
    pub mf: MF,
}

#[derive(Clone, Copy, Debug, PartialEq, Eq, Structural)]
pub enum DF {
    MayFragment,
    DontFragment,
}

#[derive(Clone, Copy, Debug, PartialEq, Eq, Structural)]
pub enum MF {
    LastFragment,
    MoreFragments,
}

impl DF {
    pub open spec fn bit(self) -> int {
        match self {
            DF::MayFragment => 0,
            DF::DontFragment => 1,
        }
    }

    /// The middle bit of the three.
    pub fn parse(num: u8) -> (r: DF)
        ensures
            r.bit() == (num / 2) % 2,
    {
        if (num / 2) % 2 == 0 {
            DF::MayFragment
        } else {
            DF::DontFragment
        }
    }

    pub fn serialize(&self) -> (r: u8)
        ensures
            r == self.bit(),
    {
        match self {
            DF::MayFragment => 0,
            DF::DontFragment => 1,
        }
    }
}

impl MF {
    pub open spec fn bit(self) -> int {
        match self {
            MF::LastFragment => 0,
            MF::MoreFragments => 1,
        }
    }

    /// The low bit of the three.
    pub fn parse(num: u8) -> (r: MF)
        ensures
            r.bit() == num % 2,
    {
        if num % 2 == 0 {
            MF::LastFragment
        } else {
            MF::MoreFragments
        }
    }

    pub fn serialize(&self) -> (r: u8)
        ensures
            r == self.bit(),
    {
        match self {
            MF::LastFragment => 0,
            MF::MoreFragments => 1,
        }
    }
}

impl Flags {
    /// The three-bit value that encodes these flags; the reserved bit is
    /// written as zero.
    pub open spec fn bits(self) -> int {
        self.df.bit() * 2 + self.mf.bit()
    }

    /// The flags that the low three bits of `v` encode.
    pub open spec fn from_bits(v: int) -> Flags {
        Flags {
            reserved: ((v / 4) % 2) as u8,
            df: if (v / 2) % 2 == 0 {
                DF::MayFragment
            } else {
                DF::DontFragment
            },
            mf: if v % 2 == 0 {
                MF::LastFragment
            } else {
                MF::MoreFragments
            },
        }
    }

    /// The flags encode without loss: the reserved bit is zero.
    pub open spec fn wf(self) -> bool {
        self.reserved == 0
    }

    /// Decodes the low three bits of `num`.
    pub fn parse(num: u8) -> (r: Flags)
        ensures
            r == Flags::from_bits(num as int),
            r.reserved == (num / 4) % 2,
            r.bits() == num % 4,
    {
        proof {
            assert((num / 2) % 2 * 2 + num % 2 == num % 4) by (bit_vector);
        }
        Flags { reserved: (num / 4) % 2, df: DF::parse(num), mf: MF::parse(num) }
    }

    /// Encodes the flags as three bits, the reserved one as zero.
    pub fn serialize(&self) -> (r: u8)
        ensures
            r == self.bits(),
            r < 8,
    {
        self.df.serialize() * 2 + self.mf.serialize()
    }
}

impl Default for Flags {
    /// Don't fragment; last fragment.
    fn default() -> (r: Flags)
        ensures
            r == (Flags { reserved: 0, df: DF::DontFragment, mf: MF::LastFragment }),
            r == Flags::from_bits(2),
    {
        Flags { reserved: 0, df: DF::DontFragment, mf: MF::LastFragment }
    }
}

/// Decoding the bits of well-formed flags reads back each flag.
pub proof fn lemma_flags_round_trip(f: Flags)
    requires
        f.wf(),
    ensures
        0 <= f.bits() < 8,
        f.reserved == (f.bits() / 4) % 2,
        f.df.bit() == (f.bits() / 2) % 2,
        f.mf.bit() == f.bits() % 2,
{
}

} // verus!
