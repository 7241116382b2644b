//! Identifiers that name either the native currency or an issued token.

use crate::codec::{
    bytes_dep_decoding, bytes_dep_encodable, bytes_dep_encoding, dep_encode_bytes,
    lemma_bytes_dep_round_trip, NestedDecode, NestedEncode, TopDecode, TopEncode,
};
use crate::error::{DecodeError, EncodeError, PaymentError};
use crate::formatter::{lower_hex, SCDisplay, SCLowerHex};
use crate::managed_buffer::{bytes_eq, ManagedBuffer};
use crate::token_identifier::{is_valid_identifier, TokenIdentifier};
use vstd::prelude::*;
use vstd::slice::slice_to_vec;
use vstd::std_specs::cmp::PartialEqSpec;

verus! {

/// The four bytes `EGLD`, as a sequence.
pub open spec fn egld_representation() -> Seq<u8> {
    seq![0x45u8, 0x47u8, 0x4cu8, 0x44u8]
}

/// What a byte sequence names: the native currency (`None`) for the bytes
/// `EGLD` exactly, else the token with those bytes.
pub open spec fn parse_identifier(bytes: Seq<u8>) -> Option<Seq<u8>> {
    if bytes == egld_representation() {
        None
    } else {
        Some(bytes)
    }
}

/// The bytes by which an identifier is written: `EGLD` for the native
/// currency, its own bytes for a token.
pub open spec fn identifier_name(id: Option<Seq<u8>>) -> Seq<u8> {
    match id {
        None => egld_representation(),
        Some(bytes) => bytes,
    }
}

/// Either the native currency, EGLD, or the identifier of an issued token.
///
/// Its view is `None` for EGLD and `Some` of the token's bytes otherwise, so
/// a value is always exactly one of the two.
#[derive(Debug)]
pub struct EgldOrDctTokenIdentifier {
    data: Option<TokenIdentifier>,
}

impl View for EgldOrDctTokenIdentifier {
    type V = Option<Seq<u8>>;

    closed spec fn view(&self) -> Option<Seq<u8>> {
        match self.data {
            None => None,
            Some(token_identifier) => Some(token_identifier@),
        }
    }
}

impl EgldOrDctTokenIdentifier {
    /// The bytes that stand for EGLD wherever an identifier is written out.
    pub const EGLD_REPRESENTATION: [u8; 4] = [0x45, 0x47, 0x4c, 0x44];

    /// The native currency.
    pub fn egld() -> (r: Self)
        ensures
            r@ is None,
    {
        EgldOrDctTokenIdentifier { data: None }
    }

    /// The token `token_identifier`, whatever its bytes: also a token whose
    /// bytes are `EGLD` is a token here.
    pub fn dct(token_identifier: TokenIdentifier) -> (r: Self)
        ensures
            r@ == Some(token_identifier@),
    {
        EgldOrDctTokenIdentifier { data: Some(token_identifier) }
    }

    /// The token held in `opt_handle`, or EGLD where there is none.
    pub fn from_opt_raw_handle(opt_handle: Option<ManagedBuffer>) -> (r: Self)
        ensures
            match opt_handle {
                Some(handle) => r@ == Some(handle@),
                None => r@ is None,
            },
    {
        match opt_handle {
            Some(handle) => Self::dct(TokenIdentifier::from(handle)),
            None => Self::egld(),
        }
    }

    /// Reads an identifier from its written form: EGLD for exactly the bytes
    /// `EGLD`, else the token with the bytes of `data`, unchecked.
    pub fn parse(data: ManagedBuffer) -> (r: Self)
        ensures
            r@ == parse_identifier(data@),
    {
        let egld = Self::EGLD_REPRESENTATION;
        if bytes_eq(data.as_bytes(), egld.as_slice()) {
            Self::egld()
        } else {
            Self::dct(TokenIdentifier::from(data))
        }
    }

    pub fn is_egld(&self) -> (r: bool)
        ensures
            r == (self@ is None),
    {
        self.data.is_none()
    }

    pub fn is_dct(&self) -> (r: bool)
        ensures
            r == (self@ is Some),
    {
        self.data.is_some()
    }

    /// The written form: `EGLD`, or the token's bytes.
    pub fn into_name(self) -> (r: ManagedBuffer)
        ensures
            r@ == identifier_name(self@),
    {
        match self.data {
            None => {
                let egld = Self::EGLD_REPRESENTATION;
                ManagedBuffer::new_from_bytes(egld.as_slice())
            },
            Some(token_identifier) => token_identifier.into_managed_buffer(),
        }
    }

    /// EGLD is always valid; a token is valid where its identifier follows
    /// the grammar.
    pub fn is_valid(&self) -> (r: bool)
        ensures
            r == match self@ {
                None => true,
                Some(bytes) => is_valid_identifier(bytes),
            },
    {
        match &self.data {
            None => true,
            Some(token_identifier) => token_identifier.is_valid_dct_identifier(),
        }
    }

    /// Calls `for_egld` for EGLD, `for_dct` on the token otherwise.
    pub fn map_or_else<U, D, F>(self, for_egld: D, for_dct: F) -> (r: U) where
        D: FnOnce() -> U,
        F: FnOnce(TokenIdentifier) -> U,

        requires
            self@ is None ==> for_egld.requires(()),
            forall|t: TokenIdentifier| self@ == Some(t@) ==> for_dct.requires((t,)),
        ensures
            self@ is None ==> for_egld.ensures((), r),
            self@ is Some ==> exists|t: TokenIdentifier|
                self@ == Some(t@) && for_dct.ensures((t,), r),
    {
        match self.data {
            None => for_egld(),
            Some(token_identifier) => for_dct(token_identifier),
        }
    }

    /// Calls `for_egld` for EGLD, `for_dct` on the token otherwise.
    pub fn map_ref_or_else<U, D, F>(&self, for_egld: D, for_dct: F) -> (r: U) where
        D: FnOnce() -> U,
        F: FnOnce(&TokenIdentifier) -> U,

        requires
            self@ is None ==> for_egld.requires(()),
            forall|t: &TokenIdentifier| self@ == Some(t@) ==> for_dct.requires((t,)),
        ensures
            self@ is None ==> for_egld.ensures((), r),
            self@ is Some ==> exists|t: &TokenIdentifier|
                self@ == Some(t@) && for_dct.ensures((t,), r),
    {
        match &self.data {
            None => for_egld(),
            Some(token_identifier) => for_dct(token_identifier),
        }
    }

    /// The token, or the error `UnwrapOnNative` for EGLD.
    pub fn unwrap_dct(self) -> (r: Result<TokenIdentifier, PaymentError>)
        ensures
            match self@ {
                Some(bytes) => r is Ok && r->Ok_0@ == bytes,
                None => r == Err::<TokenIdentifier, PaymentError>(PaymentError::UnwrapOnNative),
            },
    {
        match self.data {
            Some(token_identifier) => Ok(token_identifier),
            None => Err(PaymentError::UnwrapOnNative),
        }
    }

    /// The token, if it is one.
    pub fn as_dct_option(&self) -> (r: Option<&TokenIdentifier>)
        ensures
            match r {
                Some(token_identifier) => self@ == Some(token_identifier@),
                None => self@ is None,
            },
    {
        self.data.as_ref()
    }

    /// The token, if it is one.
    pub fn into_dct_option(self) -> (r: Option<TokenIdentifier>)
        ensures
            match r {
                Some(token_identifier) => self@ == Some(token_identifier@),
                None => self@ is None,
            },
    {
        self.data
    }
}

impl Clone for EgldOrDctTokenIdentifier {
    fn clone(&self) -> (r: Self)
        ensures
            r@ == self@,
    {
        match &self.data {
            None => EgldOrDctTokenIdentifier { data: None },
            Some(token_identifier) => EgldOrDctTokenIdentifier {
                data: Some(token_identifier.clone()),
            },
        }
    }
}

impl PartialEq for EgldOrDctTokenIdentifier {
    fn eq(&self, other: &Self) -> (r: bool) {
        match (&self.data, &other.data) {
            (None, None) => true,
            (Some(a), Some(b)) => a == b,
            _ => false,
        }
    }
}

impl Eq for EgldOrDctTokenIdentifier {}

impl vstd::std_specs::cmp::PartialEqSpecImpl for EgldOrDctTokenIdentifier {
    open spec fn obeys_eq_spec() -> bool {
        true
    }

    open spec fn eq_spec(&self, other: &Self) -> bool {
        self@ == other@
    }
}

impl PartialEq<TokenIdentifier> for EgldOrDctTokenIdentifier {
    fn eq(&self, other: &TokenIdentifier) -> (r: bool) {
        match &self.data {
            None => false,
            Some(token_identifier) => token_identifier == other,
        }
    }
}

impl vstd::std_specs::cmp::PartialEqSpecImpl<TokenIdentifier> for EgldOrDctTokenIdentifier {
    open spec fn obeys_eq_spec() -> bool {
        true
    }

    open spec fn eq_spec(&self, other: &TokenIdentifier) -> bool {
        self@ == Some(other@)
    }
}

impl DeepView for EgldOrDctTokenIdentifier {
    type V = Option<Seq<u8>>;

    open spec fn deep_view(&self) -> Option<Seq<u8>> {
        self@
    }
}

/// At top level an identifier is written as the bytes `EGLD` or as the
/// token's bytes, with no byte in front to tell the two apart. Reading takes
/// exactly the bytes `EGLD` for the native currency and checks no grammar.
impl TopEncode for EgldOrDctTokenIdentifier {
    open spec fn top_encodable(&self) -> bool {
        true
    }

    open spec fn top_encoding(&self) -> Seq<u8> {
        identifier_name(self@)
    }

    fn top_encode(&self) -> (r: Result<Vec<u8>, EncodeError>)
        ensures
            r is Ok,
            r->Ok_0@ == identifier_name(self@),
    {
        match &self.data {
            Some(token_identifier) => token_identifier.top_encode(),
            None => {
                let egld = Self::EGLD_REPRESENTATION;
                Ok(slice_to_vec(egld.as_slice()))
            },
        }
    }
}

impl TopDecode for EgldOrDctTokenIdentifier {
    open spec fn top_decoding(input: Seq<u8>) -> Result<Option<Seq<u8>>, DecodeError> {
        Ok(parse_identifier(input))
    }

    fn top_decode(input: &[u8]) -> (r: Result<Self, DecodeError>)
        ensures
            r is Ok,
            r->Ok_0@ == parse_identifier(input@),
    {
        match ManagedBuffer::top_decode(input) {
            Ok(buffer) => Ok(Self::parse(buffer)),
            Err(e) => Err(e),
        }
    }
}

/// Nested, an identifier is written as the length of its top-level form, in
/// four bytes, and that form.
impl NestedEncode for EgldOrDctTokenIdentifier {
    open spec fn dep_encodable(&self) -> bool {
        bytes_dep_encodable(identifier_name(self@))
    }

    open spec fn dep_encoding(&self) -> Seq<u8> {
        bytes_dep_encoding(identifier_name(self@))
    }

    fn dep_encode(&self, dest: &mut Vec<u8>) -> (r: Result<(), EncodeError>)
        ensures
            r is Ok <==> identifier_name(self@).len() <= u32::MAX,
            r is Ok ==> final(dest)@ == old(dest)@ + bytes_dep_encoding(identifier_name(self@)),
            r is Err ==> final(dest)@ == old(dest)@,
    {
        match &self.data {
            Some(token_identifier) => token_identifier.dep_encode(dest),
            None => {
                let egld = Self::EGLD_REPRESENTATION;
                dep_encode_bytes(egld.as_slice(), dest)
            },
        }
    }
}

impl NestedDecode for EgldOrDctTokenIdentifier {
    open spec fn dep_decoding(input: Seq<u8>) -> Result<(Option<Seq<u8>>, nat), DecodeError> {
        match bytes_dep_decoding(input) {
            Ok((bytes, used)) => Ok((parse_identifier(bytes), used)),
            Err(e) => Err(e),
        }
    }

    fn dep_decode(input: &[u8]) -> (r: Result<(Self, usize), DecodeError>)
        ensures
            match r {
                Ok((id, used)) => bytes_dep_decoding(input@) matches Ok((name, n)) && id@
                    == parse_identifier(name) && used == n,
                Err(e) => bytes_dep_decoding(input@) == Err::<(Seq<u8>, nat), DecodeError>(e),
            },
    {
        match ManagedBuffer::dep_decode(input) {
            Ok((buffer, used)) => Ok((Self::parse(buffer), used)),
            Err(e) => Err(e),
        }
    }
}

/// The characters `45474C44`: the bytes `EGLD` in hexadecimal, as they are
/// written for the native currency.
pub const EGLD_REPRESENTATION_HEX: [u8; 8] = [0x34, 0x35, 0x34, 0x37, 0x34, 0x43, 0x34, 0x34];

/// An identifier in hexadecimal: the fixed characters `45474C44` for EGLD,
/// the token's bytes in lower-case hexadecimal otherwise.
pub open spec fn identifier_lower_hex(id: Option<Seq<u8>>) -> Seq<u8> {
    match id {
        None => EGLD_REPRESENTATION_HEX@,
        Some(bytes) => lower_hex(bytes),
    }
}

/// An identifier is written out as `EGLD` or as the token's bytes.
impl SCDisplay for EgldOrDctTokenIdentifier {
    open spec fn display_bytes(&self) -> Seq<u8> {
        identifier_name(self@)
    }

    fn fmt(&self, f: &mut Vec<u8>)
        ensures
            final(f)@ == old(f)@ + identifier_name(self@),
    {
        match &self.data {
            Some(token_identifier) => SCDisplay::fmt(token_identifier, f),
            None => {
                let egld = Self::EGLD_REPRESENTATION;
                f.extend_from_slice(egld.as_slice());
            },
        }
    }
}

impl SCLowerHex for EgldOrDctTokenIdentifier {
    open spec fn lower_hex_bytes(&self) -> Seq<u8> {
        identifier_lower_hex(self@)
    }

    fn fmt(&self, f: &mut Vec<u8>)
        ensures
            final(f)@ == old(f)@ + identifier_lower_hex(self@),
    {
        match &self.data {
            Some(token_identifier) => SCLowerHex::fmt(token_identifier, f),
            None => {
                let egld_hex = EGLD_REPRESENTATION_HEX;
                f.extend_from_slice(egld_hex.as_slice());
            },
        }
    }
}

/// A token identifier that follows the grammar is never the bytes `EGLD`.
pub proof fn lemma_valid_identifier_is_not_egld(id: Seq<u8>)
    requires
        is_valid_identifier(id),
    ensures
        id != egld_representation(),
{
}

/// Decoding an encoded identifier gives the identifier back, at top level
/// and nested, whatever follows it there: for EGLD, and for every token whose
/// bytes are not `EGLD`. A token whose bytes are `EGLD` comes back as EGLD.
pub proof fn lemma_identifier_round_trip(id: EgldOrDctTokenIdentifier, rest: Seq<u8>)
    requires
        id@ matches Some(bytes) ==> bytes != egld_representation(),
        id.dep_encodable(),
    ensures
        EgldOrDctTokenIdentifier::top_decoding(id.top_encoding()) == Ok::<
            Option<Seq<u8>>,
            DecodeError,
        >(id@),
        EgldOrDctTokenIdentifier::dep_decoding(id.dep_encoding() + rest) == Ok::<
            (Option<Seq<u8>>, nat),
            DecodeError,
        >((id@, id.dep_encoding().len())),
{
    lemma_bytes_dep_round_trip(identifier_name(id@), rest);
}

/// Decoding the top-level encoding of an identifier gives the identifier
/// back: for EGLD, and for every token whose identifier follows the grammar.
pub proof fn lemma_valid_identifier_round_trip(id: EgldOrDctTokenIdentifier)
    requires
        id@ matches Some(bytes) ==> is_valid_identifier(bytes),
    ensures
        EgldOrDctTokenIdentifier::top_decoding(id.top_encoding()) == Ok::<
            Option<Seq<u8>>,
            DecodeError,
        >(id@),
{
    if let Some(bytes) = id@ {
        lemma_valid_identifier_is_not_egld(bytes);
    }
}

/// An identifier made of the token `x` equals `x`, and EGLD equals no token,
/// not even a token whose bytes are `EGLD`.
pub proof fn lemma_cross_equality(id: EgldOrDctTokenIdentifier, x: TokenIdentifier)
    ensures
        id@ == Some(x@) ==> id.eq_spec(&x),
        id@ is None ==> !id.eq_spec(&x),
{
}

} // verus!
