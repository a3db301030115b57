//! The ways in which decoding a packet or building a response can fail.
use vstd::prelude::*;

verus! {

/// Why a packet could not be decoded.
#[derive(Clone, Copy, Debug, PartialEq, Eq, Structural)]
pub enum ParseError {
    /// The buffer ended before a fixed-size field.
    ShortRead,
    /// A field holds a value that the format does not allow.
    InvalidField,
}

/// Why a response could not be built or encoded.
#[derive(Clone, Copy, Debug, PartialEq, Eq, Structural)]
pub enum ResponseError {
    /// The encoded length does not fit in its 16-bit field.
    SizeOverflow,
    /// The packet kind has no encoding or response in this stack.
    Unsupported,
}

} // verus!
