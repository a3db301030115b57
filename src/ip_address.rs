//! IPv4 and IPv6 addresses, compared by their numeric value.
use vstd::prelude::*;
use crate::writing::{be_bytes, push_all, u128_to_bytes, u32_bytes, words_from_bytes, words_of};

verus! {

/// A 32-bit IPv4 address.
#[derive(Clone, Copy, Debug, PartialEq, Eq, Hash, Structural)]
pub struct IPAddressV4(pub u32);

/// A 128-bit IPv6 address.
#[derive(Clone, Copy, Debug, PartialEq, Eq, Hash, Structural)]
pub struct IPAddressV6(pub u128);

/// An address of either IP version.
#[derive(Clone, Copy, Debug, PartialEq, Eq, Hash, Structural)]
pub enum IPAddress {
    V4(IPAddressV4),
    V6(IPAddressV6),
}

impl IPAddressV4 {
    /// The four octets, most significant first.
    pub fn get_bytes(&self) -> (r: [u8; 4])
        ensures
            r@ == u32_bytes(self.0 as int),
    {
        let v = self.0;
        let hi = v / 65536;
        let lo = v % 65536;
        let r = [(hi / 256) as u8, (hi % 256) as u8, (lo / 256) as u8, (lo % 256) as u8];
        assert(r@ == u32_bytes(self.0 as int));
        r
    }
}

impl IPAddressV6 {
    /// The sixteen octets, most significant first.
    pub fn get_bytes(&self) -> (r: [u8; 16])
        ensures
            r@ == be_bytes(self.0 as int, 16),
    {
        u128_to_bytes(self.0)
    }
}

impl IPAddress {
    /// The address's octets in network order: four for IPv4, sixteen for
    /// IPv6.
    pub open spec fn bytes(self) -> Seq<u8> {
        match self {
            IPAddress::V4(a) => u32_bytes(a.0 as int),
            IPAddress::V6(a) => be_bytes(a.0 as int, 16),
        }
    }

    /// The address's octets in network order.
    pub fn get_bytes(&self) -> (r: Vec<u8>)
        ensures
            r@ == self.bytes(),
    {
        let mut r: Vec<u8> = Vec::new();
        match self {
            IPAddress::V4(a) => {
                let b = a.get_bytes();
                push_all(&mut r, &b);
            },
            IPAddress::V6(a) => {
                let b = a.get_bytes();
                push_all(&mut r, &b);
            },
        }
        assert(r@ == self.bytes());
        r
    }

    /// The address as the 16-bit words that a checksum pseudo-header holds.
    pub fn words(&self) -> (r: Vec<u16>)
        ensures
            r@ == words_of(self.bytes()),
    {
        let b = self.get_bytes();
        words_from_bytes(b.as_slice())
    }
}

} // verus!
