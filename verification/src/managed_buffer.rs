//! An owned byte buffer.

use crate::codec::{
    bytes_dep_decoding, bytes_dep_encodable, bytes_dep_encoding, dep_decode_bytes,
    dep_encode_bytes, NestedDecode, NestedEncode, TopDecode, TopEncode,
};
use crate::error::{DecodeError, EncodeError};
use crate::formatter::{append_lower_hex, lower_hex, SCDisplay, SCLowerHex};
use vstd::prelude::*;
use vstd::slice::slice_to_vec;
use vstd::string::StringSliceAdditionalSpecFns;

verus! {

/// Compares two byte slices element by element.
pub fn bytes_eq(a: &[u8], b: &[u8]) -> (r: bool)
    ensures
        r == (a@ == b@),
{
    if a.len() != b.len() {
        return false;
    }
    let mut i: usize = 0;
    while i < a.len()
        invariant
            i <= a.len(),
            a.len() == b.len(),
            forall|j: int| 0 <= j < i ==> a@[j] == b@[j],
        decreases a.len() - i,
    {
        if a[i] != b[i] {
            return false;
        }
        i += 1;
    }
    assert(a@ =~= b@);
    true
}

/// A byte buffer of any length. Its view is the sequence of its bytes.
#[derive(Debug)]
pub struct ManagedBuffer {
    data: Vec<u8>,
}

impl View for ManagedBuffer {
    type V = Seq<u8>;

    closed spec fn view(&self) -> Seq<u8> {
        self.data@
    }
}

impl ManagedBuffer {
    /// The empty buffer.
    pub fn new() -> (r: Self)
        ensures
            r@ == Seq::<u8>::empty(),
    {
        ManagedBuffer { data: Vec::new() }
    }

    /// A buffer holding a copy of `bytes`.
    pub fn new_from_bytes(bytes: &[u8]) -> (r: Self)
        ensures
            r@ == bytes@,
    {
        ManagedBuffer { data: slice_to_vec(bytes) }
    }

    pub fn len(&self) -> (r: usize)
        ensures
            r == self@.len(),
    {
        self.data.len()
    }

    pub fn is_empty(&self) -> (r: bool)
        ensures
            r == (self@.len() == 0),
    {
        self.data.len() == 0
    }

    /// The bytes of the buffer.
    pub fn as_bytes(&self) -> (r: &[u8])
        ensures
            r@ == self@,
    {
        self.data.as_slice()
    }

    /// The bytes of the buffer, owned.
    pub fn into_vec(self) -> (r: Vec<u8>)
        ensures
            r@ == self@,
    {
        self.data
    }
}

impl Clone for ManagedBuffer {
    fn clone(&self) -> (r: Self)
        ensures
            r@ == self@,
    {
        ManagedBuffer { data: self.data.clone() }
    }
}

impl PartialEq for ManagedBuffer {
    fn eq(&self, other: &Self) -> (r: bool) {
        bytes_eq(self.data.as_slice(), other.data.as_slice())
    }
}

impl Eq for ManagedBuffer {}

impl vstd::std_specs::cmp::PartialEqSpecImpl for ManagedBuffer {
    open spec fn obeys_eq_spec() -> bool {
        true
    }

    open spec fn eq_spec(&self, other: &Self) -> bool {
        self@ == other@
    }
}

impl From<&[u8]> for ManagedBuffer {
    fn from(bytes: &[u8]) -> (r: Self)
        ensures
            r@ == bytes@,
    {
        ManagedBuffer::new_from_bytes(bytes)
    }
}

/// What `from` returns is stated at `from` itself, over the views.
impl vstd::std_specs::convert::FromSpecImpl<&[u8]> for ManagedBuffer {
    open spec fn obeys_from_spec() -> bool {
        false
    }

    open spec fn from_spec(bytes: &[u8]) -> Self {
        choose|b: ManagedBuffer| b@ == bytes@
    }
}

impl From<&str> for ManagedBuffer {
    fn from(s: &str) -> (r: Self)
        ensures
            r@ == s.spec_bytes(),
    {
        ManagedBuffer::new_from_bytes(s.as_bytes())
    }
}

/// What `from` returns is stated at `from` itself, over the views.
impl vstd::std_specs::convert::FromSpecImpl<&str> for ManagedBuffer {
    open spec fn obeys_from_spec() -> bool {
        false
    }

    open spec fn from_spec(s: &str) -> Self {
        choose|b: ManagedBuffer| b@ == s.spec_bytes()
    }
}

impl From<Vec<u8>> for ManagedBuffer {
    fn from(data: Vec<u8>) -> (r: Self)
        ensures
            r@ == data@,
    {
        ManagedBuffer { data }
    }
}

/// What `from` returns is stated at `from` itself, over the views.
impl vstd::std_specs::convert::FromSpecImpl<Vec<u8>> for ManagedBuffer {
    open spec fn obeys_from_spec() -> bool {
        false
    }

    open spec fn from_spec(data: Vec<u8>) -> Self {
        choose|b: ManagedBuffer| b@ == data@
    }
}

impl DeepView for ManagedBuffer {
    type V = Seq<u8>;

    open spec fn deep_view(&self) -> Seq<u8> {
        self@
    }
}

/// At top level a buffer is written as its bytes, and any bytes are a buffer.
impl TopEncode for ManagedBuffer {
    open spec fn top_encodable(&self) -> bool {
        true
    }

    open spec fn top_encoding(&self) -> Seq<u8> {
        self@
    }

    fn top_encode(&self) -> (r: Result<Vec<u8>, EncodeError>) {
        Ok(self.data.clone())
    }
}

impl TopDecode for ManagedBuffer {
    open spec fn top_decoding(input: Seq<u8>) -> Result<Seq<u8>, DecodeError> {
        Ok(input)
    }

    fn top_decode(input: &[u8]) -> (r: Result<Self, DecodeError>) {
        Ok(ManagedBuffer::new_from_bytes(input))
    }
}

/// Nested, a buffer is written as its length in four bytes and its bytes.
impl NestedEncode for ManagedBuffer {
    open spec fn dep_encodable(&self) -> bool {
        bytes_dep_encodable(self@)
    }

    open spec fn dep_encoding(&self) -> Seq<u8> {
        bytes_dep_encoding(self@)
    }

    fn dep_encode(&self, dest: &mut Vec<u8>) -> (r: Result<(), EncodeError>) {
        dep_encode_bytes(self.data.as_slice(), dest)
    }
}

impl NestedDecode for ManagedBuffer {
    open spec fn dep_decoding(input: Seq<u8>) -> Result<(Seq<u8>, nat), DecodeError> {
        bytes_dep_decoding(input)
    }

    fn dep_decode(input: &[u8]) -> (r: Result<(Self, usize), DecodeError>) {
        match dep_decode_bytes(input) {
            Ok((bytes, used)) => Ok((ManagedBuffer::new_from_bytes(bytes), used)),
            Err(e) => Err(e),
        }
    }
}

impl SCDisplay for ManagedBuffer {
    open spec fn display_bytes(&self) -> Seq<u8> {
        self@
    }

    fn fmt(&self, f: &mut Vec<u8>) {
        f.extend_from_slice(self.data.as_slice());
    }
}

impl SCLowerHex for ManagedBuffer {
    open spec fn lower_hex_bytes(&self) -> Seq<u8> {
        lower_hex(self@)
    }

    fn fmt(&self, f: &mut Vec<u8>) {
        append_lower_hex(self.data.as_slice(), f);
    }
}

} // verus!
