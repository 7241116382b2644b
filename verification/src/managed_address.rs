//! Addresses of accounts and contracts.

use crate::codec::{NestedDecode, NestedEncode, TopDecode, TopEncode};
use crate::error::{DecodeError, EncodeError};
use crate::managed_buffer::bytes_eq;
use vstd::prelude::*;
use vstd::slice::{slice_subrange, slice_to_vec};

verus! {

/// The number of bytes of an address.
pub const ADDRESS_LENGTH: usize = 32;

/// An address: thirty-two bytes. Its view is the sequence of these bytes.
#[derive(Debug, Clone, Copy)]
pub struct ManagedAddress {
    bytes: [u8; 32],
}

impl View for ManagedAddress {
    type V = Seq<u8>;

    closed spec fn view(&self) -> Seq<u8> {
        self.bytes@
    }
}

impl DeepView for ManagedAddress {
    type V = Seq<u8>;

    open spec fn deep_view(&self) -> Seq<u8> {
        self@
    }
}

impl ManagedAddress {
    /// The address made of zero bytes only.
    pub fn zero() -> (r: Self)
        ensures
            r@ == Seq::new(32, |i: int| 0u8),
    {
        ManagedAddress { bytes: [0u8; 32] }
    }

    /// The address with the bytes `bytes`.
    pub fn new_from_bytes(bytes: &[u8; 32]) -> (r: Self)
        ensures
            r@ == bytes@,
    {
        ManagedAddress { bytes: *bytes }
    }

    /// The address with the bytes of `bytes`, where these are thirty-two.
    pub fn try_from_slice(bytes: &[u8]) -> (r: Option<Self>)
        ensures
            match r {
                Some(address) => bytes@.len() == 32 && address@ == bytes@,
                None => bytes@.len() != 32,
            },
    {
        if bytes.len() != ADDRESS_LENGTH {
            return None;
        }
        let mut out = [0u8; 32];
        let mut i: usize = 0;
        while i < ADDRESS_LENGTH
            invariant
                i <= 32,
                bytes@.len() == 32,
                forall|j: int| 0 <= j < i ==> out@[j] == bytes@[j],
            decreases 32 - i,
        {
            out[i] = bytes[i];
            i += 1;
        }
        Some(ManagedAddress { bytes: out })
    }

    /// The thirty-two bytes.
    pub fn to_byte_array(&self) -> (r: [u8; 32])
        ensures
            r@ == self@,
    {
        self.bytes
    }

    /// The thirty-two bytes.
    pub fn as_bytes(&self) -> (r: &[u8])
        ensures
            r@ == self@,
    {
        self.bytes.as_slice()
    }

    /// Every address has thirty-two bytes, so decoding its encoding gives it
    /// back, at top level and nested, whatever follows it there.
    pub proof fn lemma_round_trip(&self, rest: Seq<u8>)
        ensures
            self@.len() == 32,
            address_top_decoding(self@) == Ok::<Seq<u8>, DecodeError>(self@),
            address_dep_decoding(self@ + rest) == Ok::<(Seq<u8>, nat), DecodeError>((self@, 32)),
    {
        assert((self@ + rest).subrange(0, 32) =~= self@);
    }
}

impl PartialEq for ManagedAddress {
    fn eq(&self, other: &Self) -> (r: bool) {
        bytes_eq(self.bytes.as_slice(), other.bytes.as_slice())
    }
}

impl Eq for ManagedAddress {}

impl vstd::std_specs::cmp::PartialEqSpecImpl for ManagedAddress {
    open spec fn obeys_eq_spec() -> bool {
        true
    }

    open spec fn eq_spec(&self, other: &Self) -> bool {
        self@ == other@
    }
}

/// The thirty-two bytes at the front of `input`.
pub open spec fn address_dep_decoding(input: Seq<u8>) -> Result<(Seq<u8>, nat), DecodeError> {
    if input.len() < 32 {
        Err(DecodeError::InputTooShort)
    } else {
        Ok((input.subrange(0, 32), 32))
    }
}

/// The address that a whole buffer holds: it has thirty-two bytes, no more
/// and no fewer.
pub open spec fn address_top_decoding(input: Seq<u8>) -> Result<Seq<u8>, DecodeError> {
    if input.len() < 32 {
        Err(DecodeError::InputTooShort)
    } else if input.len() > 32 {
        Err(DecodeError::InputTooLong)
    } else {
        Ok(input)
    }
}

/// An address is written as its thirty-two bytes, at top level as well as
/// nested.
impl TopEncode for ManagedAddress {
    open spec fn top_encodable(&self) -> bool {
        true
    }

    open spec fn top_encoding(&self) -> Seq<u8> {
        self@
    }

    fn top_encode(&self) -> (r: Result<Vec<u8>, EncodeError>) {
        Ok(slice_to_vec(self.bytes.as_slice()))
    }
}

impl NestedEncode for ManagedAddress {
    open spec fn dep_encodable(&self) -> bool {
        true
    }

    open spec fn dep_encoding(&self) -> Seq<u8> {
        self@
    }

    fn dep_encode(&self, dest: &mut Vec<u8>) -> (r: Result<(), EncodeError>) {
        dest.extend_from_slice(self.bytes.as_slice());
        Ok(())
    }
}

impl NestedDecode for ManagedAddress {
    open spec fn dep_decoding(input: Seq<u8>) -> Result<(Seq<u8>, nat), DecodeError> {
        address_dep_decoding(input)
    }

    fn dep_decode(input: &[u8]) -> (r: Result<(Self, usize), DecodeError>) {
        if input.len() < ADDRESS_LENGTH {
            return Err(DecodeError::InputTooShort);
        }
        match Self::try_from_slice(slice_subrange(input, 0, ADDRESS_LENGTH)) {
            Some(address) => Ok((address, ADDRESS_LENGTH)),
            None => Err(DecodeError::InputTooShort),
        }
    }
}

impl TopDecode for ManagedAddress {
    open spec fn top_decoding(input: Seq<u8>) -> Result<Seq<u8>, DecodeError> {
        address_top_decoding(input)
    }

    fn top_decode(input: &[u8]) -> (r: Result<Self, DecodeError>) {
        if input.len() > ADDRESS_LENGTH {
            return Err(DecodeError::InputTooLong);
        }
        match Self::try_from_slice(input) {
            Some(address) => Ok(address),
            None => Err(DecodeError::InputTooShort),
        }
    }
}

} // verus!
