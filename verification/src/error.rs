//! The failures of this library.

use vstd::prelude::*;

verus! {

/// A payment of the wrong kind was met. Each is fatal to the request at hand.
#[derive(Debug, Clone, Copy, PartialEq, Eq, Structural)]
pub enum PaymentError {
    /// The token of a native-currency value was asked for.
    UnwrapOnNative,
    /// A payment in one token was expected and something else was received.
    PaymentKindMismatch,
}

/// Why a byte sequence could not be decoded.
#[derive(Debug, Clone, Copy, PartialEq, Eq, Structural)]
pub enum DecodeError {
    /// The input ended before a field was read in full.
    InputTooShort,
    /// Bytes were left over after the last field of a top-level value.
    InputTooLong,
    /// A byte that chooses a variant held none of the known values.
    InvalidValue,
}

/// Why a value could not be encoded.
#[derive(Debug, Clone, Copy, PartialEq, Eq, Structural)]
pub enum EncodeError {
    /// A length or a count does not fit the four bytes that the nested
    /// encoding has for it.
    LengthOverflow,
}

} // verus!
