//! Identifiers of issued tokens: a ticker, a dash and six random characters.

use crate::codec::{
    bytes_dep_decoding, bytes_dep_encodable, bytes_dep_encoding, NestedDecode, NestedEncode,
    TopDecode, TopEncode,
};
use crate::error::{DecodeError, EncodeError};
use crate::formatter::{append_lower_hex, lower_hex, SCDisplay, SCLowerHex};
use crate::managed_buffer::{bytes_eq, ManagedBuffer};
use vstd::prelude::*;
use vstd::slice::slice_subrange;
use vstd::string::StringSliceAdditionalSpecFns;

verus! {

/// The shortest ticker of a valid identifier.
pub const TICKER_MIN_LENGTH: usize = 3;

/// The longest ticker of a valid identifier.
pub const TICKER_MAX_LENGTH: usize = 10;

/// The number of random characters that end a valid identifier.
pub const ADDITIONAL_RANDOM_CHARS_LENGTH: usize = 6;

/// The shortest valid identifier: ticker, dash and random characters.
pub const IDENTIFIER_MIN_LENGTH: usize = 10;

/// The longest valid identifier: ticker, dash and random characters.
pub const IDENTIFIER_MAX_LENGTH: usize = 17;

/// The character `-` between the ticker and the random characters.
pub const DASH_CHARACTER: u8 = 0x2d;

/// An upper-case ASCII letter or a digit.
pub open spec fn is_ticker_byte(b: u8) -> bool {
    (0x41 <= b <= 0x5a) || (0x30 <= b <= 0x39)
}

/// A lower-case hexadecimal digit: `0` to `9` or `a` to `f`.
pub open spec fn is_random_byte(b: u8) -> bool {
    (0x30 <= b <= 0x39) || (0x61 <= b <= 0x66)
}

/// The length of the ticker of an identifier of `len` bytes: what stands
/// before the last seven bytes, whatever those are.
pub open spec fn ticker_len(len: nat) -> nat {
    if len >= 7 {
        (len - 7) as nat
    } else {
        0
    }
}

/// The ticker of `id`: its bytes before the last seven, by position alone.
pub open spec fn ticker_of(id: Seq<u8>) -> Seq<u8> {
    id.subrange(0, ticker_len(id.len()) as int)
}

/// The random characters of `id`: its last six bytes.
pub open spec fn random_chars_of(id: Seq<u8>) -> Seq<u8> {
    id.subrange(id.len() - ADDITIONAL_RANDOM_CHARS_LENGTH, id.len() as int)
}

/// The grammar of a token identifier. An identifier is valid where all of
/// these hold, and invalid where one does not:
/// - it has ten bytes or more, and a dash stands before its last six bytes;
/// - its ticker has three to ten bytes, each an upper-case letter or a digit;
/// - its last six bytes are lower-case hexadecimal digits.
pub open spec fn is_valid_identifier(id: Seq<u8>) -> bool {
    &&& id.len() >= IDENTIFIER_MIN_LENGTH
    &&& id[id.len() - 7] == DASH_CHARACTER
    &&& TICKER_MIN_LENGTH <= ticker_of(id).len() <= TICKER_MAX_LENGTH
    &&& forall|i: int| 0 <= i < ticker_of(id).len() ==> is_ticker_byte(#[trigger] ticker_of(id)[i])
    &&& forall|i: int|
        0 <= i < ADDITIONAL_RANDOM_CHARS_LENGTH ==> is_random_byte(#[trigger] random_chars_of(id)[i])
}

/// Whether `bytes` follow the grammar of a token identifier.
pub fn validate_token_identifier(bytes: &[u8]) -> (r: bool)
    ensures
        r == is_valid_identifier(bytes@),
{
    let length = bytes.len();
    if length < IDENTIFIER_MIN_LENGTH || length > IDENTIFIER_MAX_LENGTH {
        return false;
    }
    let dash_position = length - ADDITIONAL_RANDOM_CHARS_LENGTH - 1;
    let mut i: usize = 0;
    while i < dash_position
        invariant
            i <= dash_position,
            dash_position == bytes@.len() - 7,
            forall|j: int| 0 <= j < i ==> is_ticker_byte(#[trigger] ticker_of(bytes@)[j]),
        decreases dash_position - i,
    {
        let c = bytes[i];
        let is_uppercase_letter = 0x41 <= c && c <= 0x5a;
        let is_number = 0x30 <= c && c <= 0x39;
        if !is_uppercase_letter && !is_number {
            assert(!is_ticker_byte(ticker_of(bytes@)[i as int]));
            return false;
        }
        i += 1;
    }
    if bytes[dash_position] != DASH_CHARACTER {
        return false;
    }
    let mut k: usize = dash_position + 1;
    while k < length
        invariant
            dash_position + 1 <= k <= length,
            length == bytes@.len(),
            dash_position == length - 7,
            forall|j: int|
                0 <= j < k - (length - 6) ==> is_random_byte(#[trigger] random_chars_of(bytes@)[j]),
        decreases length - k,
    {
        let c = bytes[k];
        let is_hex_letter = 0x61 <= c && c <= 0x66;
        let is_number = 0x30 <= c && c <= 0x39;
        if !is_hex_letter && !is_number {
            assert(!is_random_byte(random_chars_of(bytes@)[k - (length - 6)]));
            return false;
        }
        k += 1;
    }
    true
}

/// The identifier of an issued token. Any byte sequence can be held: whether
/// it follows the grammar is asked with `is_valid_dct_identifier`. Its view is
/// the sequence of its bytes.
#[derive(Debug)]
pub struct TokenIdentifier {
    buffer: ManagedBuffer,
}

impl View for TokenIdentifier {
    type V = Seq<u8>;

    closed spec fn view(&self) -> Seq<u8> {
        self.buffer@
    }
}

impl TokenIdentifier {
    /// The identifier with the bytes `bytes`, unchecked.
    pub fn from_dct_bytes(bytes: &[u8]) -> (r: Self)
        ensures
            r@ == bytes@,
    {
        TokenIdentifier { buffer: ManagedBuffer::new_from_bytes(bytes) }
    }

    pub fn as_managed_buffer(&self) -> (r: &ManagedBuffer)
        ensures
            r@ == self@,
    {
        &self.buffer
    }

    pub fn into_managed_buffer(self) -> (r: ManagedBuffer)
        ensures
            r@ == self@,
    {
        self.buffer
    }

    /// The bytes of the identifier.
    pub fn as_bytes(&self) -> (r: &[u8])
        ensures
            r@ == self@,
    {
        self.buffer.as_bytes()
    }

    /// Whether the identifier follows the grammar of token identifiers.
    pub fn is_valid_dct_identifier(&self) -> (r: bool)
        ensures
            r == is_valid_identifier(self@),
    {
        validate_token_identifier(self.buffer.as_bytes())
    }

    /// The ticker: the bytes before the last seven. Nothing is validated, so an
    /// identifier that breaks the grammar still has one; an identifier of fewer
    /// than seven bytes has the empty ticker.
    pub fn ticker(&self) -> (r: ManagedBuffer)
        ensures
            r@ == ticker_of(self@),
    {
        let bytes = self.buffer.as_bytes();
        let token_id_len = bytes.len();
        let ticker_len: usize = if token_id_len >= ADDITIONAL_RANDOM_CHARS_LENGTH + 1 {
            token_id_len - ADDITIONAL_RANDOM_CHARS_LENGTH - 1
        } else {
            0
        };
        ManagedBuffer::new_from_bytes(slice_subrange(bytes, 0, ticker_len))
    }
}

impl Clone for TokenIdentifier {
    fn clone(&self) -> (r: Self)
        ensures
            r@ == self@,
    {
        TokenIdentifier { buffer: self.buffer.clone() }
    }
}

impl PartialEq for TokenIdentifier {
    fn eq(&self, other: &Self) -> (r: bool) {
        bytes_eq(self.buffer.as_bytes(), other.buffer.as_bytes())
    }
}

impl Eq for TokenIdentifier {}

impl vstd::std_specs::cmp::PartialEqSpecImpl for TokenIdentifier {
    open spec fn obeys_eq_spec() -> bool {
        true
    }

    open spec fn eq_spec(&self, other: &Self) -> bool {
        self@ == other@
    }
}

impl From<ManagedBuffer> for TokenIdentifier {
    fn from(buffer: ManagedBuffer) -> (r: Self)
        ensures
            r@ == buffer@,
    {
        TokenIdentifier { buffer }
    }
}

/// What `from` returns is stated at `from` itself, over the views.
impl vstd::std_specs::convert::FromSpecImpl<ManagedBuffer> for TokenIdentifier {
    open spec fn obeys_from_spec() -> bool {
        false
    }

    open spec fn from_spec(buffer: ManagedBuffer) -> Self {
        choose|t: TokenIdentifier| t@ == buffer@
    }
}

impl From<&[u8]> for TokenIdentifier {
    fn from(bytes: &[u8]) -> (r: Self)
        ensures
            r@ == bytes@,
    {
        TokenIdentifier { buffer: ManagedBuffer::new_from_bytes(bytes) }
    }
}

/// What `from` returns is stated at `from` itself, over the views.
impl vstd::std_specs::convert::FromSpecImpl<&[u8]> for TokenIdentifier {
    open spec fn obeys_from_spec() -> bool {
        false
    }

    open spec fn from_spec(bytes: &[u8]) -> Self {
        choose|t: TokenIdentifier| t@ == bytes@
    }
}

impl From<&str> for TokenIdentifier {
    fn from(s: &str) -> (r: Self)
        ensures
            r@ == s.spec_bytes(),
    {
        TokenIdentifier { buffer: ManagedBuffer::new_from_bytes(s.as_bytes()) }
    }
}

/// What `from` returns is stated at `from` itself, over the views.
impl vstd::std_specs::convert::FromSpecImpl<&str> for TokenIdentifier {
    open spec fn obeys_from_spec() -> bool {
        false
    }

    open spec fn from_spec(s: &str) -> Self {
        choose|t: TokenIdentifier| t@ == s.spec_bytes()
    }
}

impl DeepView for TokenIdentifier {
    type V = Seq<u8>;

    open spec fn deep_view(&self) -> Seq<u8> {
        self@
    }
}

/// At top level an identifier is written as its bytes. Reading checks no
/// grammar: any bytes are an identifier.
impl TopEncode for TokenIdentifier {
    open spec fn top_encodable(&self) -> bool {
        true
    }

    open spec fn top_encoding(&self) -> Seq<u8> {
        self@
    }

    fn top_encode(&self) -> (r: Result<Vec<u8>, EncodeError>) {
        self.buffer.top_encode()
    }
}

impl TopDecode for TokenIdentifier {
    open spec fn top_decoding(input: Seq<u8>) -> Result<Seq<u8>, DecodeError> {
        Ok(input)
    }

    fn top_decode(input: &[u8]) -> (r: Result<Self, DecodeError>) {
        Ok(TokenIdentifier::from_dct_bytes(input))
    }
}

/// Nested, an identifier is written as its length in four bytes and its bytes.
impl NestedEncode for TokenIdentifier {
    open spec fn dep_encodable(&self) -> bool {
        bytes_dep_encodable(self@)
    }

    open spec fn dep_encoding(&self) -> Seq<u8> {
        bytes_dep_encoding(self@)
    }

    fn dep_encode(&self, dest: &mut Vec<u8>) -> (r: Result<(), EncodeError>) {
        self.buffer.dep_encode(dest)
    }
}

impl NestedDecode for TokenIdentifier {
    open spec fn dep_decoding(input: Seq<u8>) -> Result<(Seq<u8>, nat), DecodeError> {
        bytes_dep_decoding(input)
    }

    fn dep_decode(input: &[u8]) -> (r: Result<(Self, usize), DecodeError>) {
        match ManagedBuffer::dep_decode(input) {
            Ok((buffer, used)) => Ok((TokenIdentifier::from(buffer), used)),
            Err(e) => Err(e),
        }
    }
}

impl SCDisplay for TokenIdentifier {
    open spec fn display_bytes(&self) -> Seq<u8> {
        self@
    }

    fn fmt(&self, f: &mut Vec<u8>) {
        f.extend_from_slice(self.buffer.as_bytes());
    }
}

impl SCLowerHex for TokenIdentifier {
    open spec fn lower_hex_bytes(&self) -> Seq<u8> {
        lower_hex(self@)
    }

    fn fmt(&self, f: &mut Vec<u8>) {
        append_lower_hex(self.buffer.as_bytes(), f);
    }
}

} // verus!
