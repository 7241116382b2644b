//! Unsigned integers of any size.

use crate::big_endian::{
    be_bytes, be_value, is_minimal, lemma_be_bytes_of_minimal, lemma_be_bytes_value,
    lemma_first_difference_decides, lemma_minimal_injective, lemma_minimal_positive,
    lemma_shorter_is_less, lemma_strip_leading_zeros, strip_leading_zeros,
};
use crate::codec::{
    bytes_dep_decoding, bytes_dep_encodable, bytes_dep_encoding, dep_decode_bytes,
    dep_encode_bytes, NestedDecode, NestedEncode, TopDecode, TopEncode,
};
use crate::error::{DecodeError, EncodeError};
use crate::managed_buffer::bytes_eq;
use vstd::prelude::*;

verus! {

/// An unsigned integer of any size. Its view is the number itself.
///
/// The number is kept as its shortest big-endian byte sequence, so that equal
/// numbers are kept alike.
#[derive(Debug)]
pub struct BigUint {
    bytes: Vec<u8>,
}

impl View for BigUint {
    type V = nat;

    closed spec fn view(&self) -> nat {
        be_value(self.bytes@)
    }
}

/// Appends the shortest big-endian form of `x` to `out`.
fn push_be_bytes(x: u64, out: &mut Vec<u8>)
    ensures
        final(out)@ == old(out)@ + be_bytes(x as nat),
    decreases x,
{
    if x != 0 {
        push_be_bytes(x / 256, out);
        out.push((x % 256) as u8);
    }
}

impl BigUint {
    #[verifier::type_invariant]
    spec fn well_formed(self) -> bool {
        is_minimal(self.bytes@)
    }

    /// The number zero.
    pub fn zero() -> (r: Self)
        ensures
            r@ == 0,
    {
        BigUint { bytes: Vec::new() }
    }

    /// The number `x`.
    pub fn from_u64(x: u64) -> (r: Self)
        ensures
            r@ == x,
    {
        let mut bytes: Vec<u8> = Vec::new();
        push_be_bytes(x, &mut bytes);
        proof {
            lemma_be_bytes_value(x as nat);
        }
        BigUint { bytes }
    }

    /// The number that `bytes` writes, most significant byte first. Leading
    /// zero bytes are accepted; the empty sequence writes zero.
    pub fn from_bytes_be(bytes: &[u8]) -> (r: Self)
        ensures
            r@ == be_value(bytes@),
    {
        let mut start: usize = 0;
        assert(bytes@.skip(0) =~= bytes@);
        while start < bytes.len() && bytes[start] == 0
            invariant
                start <= bytes.len(),
                strip_leading_zeros(bytes@.skip(start as int)) == strip_leading_zeros(bytes@),
            decreases bytes.len() - start,
        {
            assert(bytes@.skip(start as int).skip(1) =~= bytes@.skip(start as int + 1));
            start += 1;
        }
        let mut out: Vec<u8> = Vec::new();
        let mut i: usize = start;
        while i < bytes.len()
            invariant
                start <= i <= bytes.len(),
                out@ == bytes@.subrange(start as int, i as int),
            decreases bytes.len() - i,
        {
            out.push(bytes[i]);
            i += 1;
        }
        proof {
            lemma_strip_leading_zeros(bytes@);
        }
        BigUint { bytes: out }
    }

    /// The shortest big-endian byte sequence of the number; empty for zero.
    pub fn to_bytes_be(&self) -> (r: Vec<u8>)
        ensures
            r@ == be_bytes(self@),
    {
        proof {
            use_type_invariant(self);
            lemma_be_bytes_of_minimal(self.bytes@);
        }
        self.bytes.clone()
    }

    /// The number of bytes of the shortest big-endian form.
    pub fn byte_len(&self) -> (r: usize)
        ensures
            r == be_bytes(self@).len(),
    {
        proof {
            use_type_invariant(self);
            lemma_be_bytes_of_minimal(self.bytes@);
        }
        self.bytes.len()
    }

    pub fn is_zero(&self) -> (r: bool)
        ensures
            r == (self@ == 0),
    {
        proof {
            use_type_invariant(self);
            if self.bytes@.len() > 0 {
                lemma_minimal_positive(self.bytes@);
            }
        }
        self.bytes.len() == 0
    }

    /// Whether `self` is smaller than `other`.
    pub fn less_than(&self, other: &Self) -> (r: bool)
        ensures
            r == (self@ < other@),
    {
        proof {
            use_type_invariant(self);
            use_type_invariant(other);
        }
        let n = self.bytes.len();
        let m = other.bytes.len();
        if n < m {
            proof {
                lemma_shorter_is_less(self.bytes@, other.bytes@);
            }
            return true;
        }
        if m < n {
            proof {
                lemma_shorter_is_less(other.bytes@, self.bytes@);
            }
            return false;
        }
        let mut i: usize = 0;
        while i < n
            invariant
                i <= n,
                n == self.bytes@.len(),
                n == other.bytes@.len(),
                forall|j: int| 0 <= j < i ==> self.bytes@[j] == other.bytes@[j],
            decreases n - i,
        {
            let a = self.bytes[i];
            let b = other.bytes[i];
            if a < b {
                proof {
                    lemma_first_difference_decides(self.bytes@, other.bytes@, i as int);
                }
                return true;
            }
            if b < a {
                proof {
                    lemma_first_difference_decides(other.bytes@, self.bytes@, i as int);
                }
                return false;
            }
            i += 1;
        }
        assert(self.bytes@ =~= other.bytes@);
        false
    }

    /// Whether `self` is at most `other`.
    pub fn at_most(&self, other: &Self) -> (r: bool)
        ensures
            r == (self@ <= other@),
    {
        !other.less_than(self)
    }
}

impl Clone for BigUint {
    fn clone(&self) -> (r: Self)
        ensures
            r@ == self@,
    {
        proof {
            use_type_invariant(self);
        }
        BigUint { bytes: self.bytes.clone() }
    }
}

impl PartialEq for BigUint {
    fn eq(&self, other: &Self) -> (r: bool) {
        proof {
            use_type_invariant(self);
            use_type_invariant(other);
            if self@ == other@ {
                lemma_minimal_injective(self.bytes@, other.bytes@);
            }
        }
        bytes_eq(self.bytes.as_slice(), other.bytes.as_slice())
    }
}

impl Eq for BigUint {}

impl vstd::std_specs::cmp::PartialEqSpecImpl for BigUint {
    open spec fn obeys_eq_spec() -> bool {
        true
    }

    open spec fn eq_spec(&self, other: &Self) -> bool {
        self@ == other@
    }
}

impl From<u64> for BigUint {
    fn from(x: u64) -> (r: Self)
        ensures
            r@ == x,
    {
        BigUint::from_u64(x)
    }
}

/// What `from` returns is stated at `from` itself, over the views.
impl vstd::std_specs::convert::FromSpecImpl<u64> for BigUint {
    open spec fn obeys_from_spec() -> bool {
        false
    }

    open spec fn from_spec(x: u64) -> Self {
        choose|r: BigUint| r@ == x
    }
}

impl From<u32> for BigUint {
    fn from(x: u32) -> (r: Self)
        ensures
            r@ == x,
    {
        BigUint::from_u64(x as u64)
    }
}

/// What `from` returns is stated at `from` itself, over the views.
impl vstd::std_specs::convert::FromSpecImpl<u32> for BigUint {
    open spec fn obeys_from_spec() -> bool {
        false
    }

    open spec fn from_spec(x: u32) -> Self {
        choose|r: BigUint| r@ == x
    }
}

impl DeepView for BigUint {
    type V = nat;

    open spec fn deep_view(&self) -> nat {
        self@
    }
}

/// At top level a number is written as its shortest big-endian bytes. Reading
/// accepts leading zero bytes.
impl TopEncode for BigUint {
    open spec fn top_encodable(&self) -> bool {
        true
    }

    open spec fn top_encoding(&self) -> Seq<u8> {
        be_bytes(self@)
    }

    fn top_encode(&self) -> (r: Result<Vec<u8>, EncodeError>) {
        Ok(self.to_bytes_be())
    }
}

impl TopDecode for BigUint {
    open spec fn top_decoding(input: Seq<u8>) -> Result<nat, DecodeError> {
        Ok(be_value(input))
    }

    fn top_decode(input: &[u8]) -> (r: Result<Self, DecodeError>) {
        Ok(BigUint::from_bytes_be(input))
    }
}

/// Nested, a number is written as the length of its shortest big-endian
/// bytes, in four bytes, and those bytes.
impl NestedEncode for BigUint {
    open spec fn dep_encodable(&self) -> bool {
        bytes_dep_encodable(be_bytes(self@))
    }

    open spec fn dep_encoding(&self) -> Seq<u8> {
        bytes_dep_encoding(be_bytes(self@))
    }

    fn dep_encode(&self, dest: &mut Vec<u8>) -> (r: Result<(), EncodeError>) {
        proof {
            use_type_invariant(self);
            lemma_be_bytes_of_minimal(self.bytes@);
        }
        dep_encode_bytes(self.bytes.as_slice(), dest)
    }
}

impl NestedDecode for BigUint {
    open spec fn dep_decoding(input: Seq<u8>) -> Result<(nat, nat), DecodeError> {
        match bytes_dep_decoding(input) {
            Ok((bytes, used)) => Ok((be_value(bytes), used)),
            Err(e) => Err(e),
        }
    }

    fn dep_decode(input: &[u8]) -> (r: Result<(Self, usize), DecodeError>) {
        match dep_decode_bytes(input) {
            Ok((bytes, used)) => Ok((BigUint::from_bytes_be(bytes), used)),
            Err(e) => Err(e),
        }
    }
}

} // verus!
