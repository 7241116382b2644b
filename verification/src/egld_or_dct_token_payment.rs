//! A payment in EGLD or in one issued token.

use crate::big_endian::{be_bytes, be_value, lemma_be_bytes_value, u64_be_bytes};
use crate::big_uint::BigUint;
use crate::codec::{
    bytes_dep_decoding, bytes_dep_encodable, bytes_dep_encoding, lemma_bytes_dep_round_trip,
    lemma_u64_dep_round_trip, top_from_dep, u64_dep_decoding, NestedDecode, NestedEncode,
    TopDecode, TopEncode,
};
use crate::dct_token_payment::DctTokenPayment;
use crate::egld_or_dct_token_identifier::{
    egld_representation, identifier_name, parse_identifier, EgldOrDctTokenIdentifier,
};
use crate::error::{DecodeError, EncodeError, PaymentError};
use vstd::prelude::*;
use vstd::slice::slice_subrange;

verus! {

/// The mathematical content of an `EgldOrDctTokenPayment`: `None` as the
/// identifier stands for EGLD.
pub ghost struct EgldOrDctTokenPaymentView {
    pub token_identifier: Option<Seq<u8>>,
    pub token_nonce: u64,
    pub amount: nat,
}

/// The payment that pays nothing: EGLD, nonce zero, amount zero.
pub open spec fn no_payment_view() -> EgldOrDctTokenPaymentView {
    EgldOrDctTokenPaymentView { token_identifier: None, token_nonce: 0, amount: 0 }
}

/// An amount of EGLD or of one issued token.
#[derive(Debug)]
pub struct EgldOrDctTokenPayment {
    pub token_identifier: EgldOrDctTokenIdentifier,
    pub token_nonce: u64,
    pub amount: BigUint,
}

impl View for EgldOrDctTokenPayment {
    type V = EgldOrDctTokenPaymentView;

    open spec fn view(&self) -> EgldOrDctTokenPaymentView {
        EgldOrDctTokenPaymentView {
            token_identifier: self.token_identifier@,
            token_nonce: self.token_nonce,
            amount: self.amount@,
        }
    }
}

impl EgldOrDctTokenPayment {
    /// The payment that pays nothing: zero EGLD.
    pub fn no_payment() -> (r: Self)
        ensures
            r@ == no_payment_view(),
    {
        EgldOrDctTokenPayment {
            token_identifier: EgldOrDctTokenIdentifier::egld(),
            token_nonce: 0,
            amount: BigUint::zero(),
        }
    }

    pub fn new(
        token_identifier: EgldOrDctTokenIdentifier,
        token_nonce: u64,
        amount: BigUint,
    ) -> (r: Self)
        ensures
            r.token_identifier == token_identifier,
            r.token_nonce == token_nonce,
            r.amount == amount,
    {
        EgldOrDctTokenPayment { token_identifier, token_nonce, amount }
    }

    /// The same payment as a payment in a token, or the error
    /// `UnwrapOnNative` where it is in EGLD.
    pub fn unwrap_dct(self) -> (r: Result<DctTokenPayment, PaymentError>)
        ensures
            match self@.token_identifier {
                Some(bytes) => r is Ok && r->Ok_0@.token_identifier == bytes
                    && r->Ok_0.token_nonce == self.token_nonce && r->Ok_0.amount == self.amount,
                None => r == Err::<DctTokenPayment, PaymentError>(PaymentError::UnwrapOnNative),
            },
    {
        match self.token_identifier.unwrap_dct() {
            Ok(token_identifier) => Ok(
                DctTokenPayment::new(token_identifier, self.token_nonce, self.amount),
            ),
            Err(e) => Err(e),
        }
    }

    pub fn into_tuple(self) -> (r: (EgldOrDctTokenIdentifier, u64, BigUint))
        ensures
            r == (self.token_identifier, self.token_nonce, self.amount),
    {
        (self.token_identifier, self.token_nonce, self.amount)
    }
}

impl Clone for EgldOrDctTokenPayment {
    fn clone(&self) -> (r: Self)
        ensures
            r@ == self@,
    {
        EgldOrDctTokenPayment {
            token_identifier: self.token_identifier.clone(),
            token_nonce: self.token_nonce,
            amount: self.amount.clone(),
        }
    }
}

impl PartialEq for EgldOrDctTokenPayment {
    fn eq(&self, other: &Self) -> (r: bool) {
        self.token_identifier == other.token_identifier && self.token_nonce == other.token_nonce
            && self.amount == other.amount
    }
}

impl Eq for EgldOrDctTokenPayment {}

impl vstd::std_specs::cmp::PartialEqSpecImpl for EgldOrDctTokenPayment {
    open spec fn obeys_eq_spec() -> bool {
        true
    }

    open spec fn eq_spec(&self, other: &Self) -> bool {
        self@ == other@
    }
}

impl From<(EgldOrDctTokenIdentifier, u64, BigUint)> for EgldOrDctTokenPayment {
    fn from(value: (EgldOrDctTokenIdentifier, u64, BigUint)) -> (r: Self)
        ensures
            r.token_identifier == value.0,
            r.token_nonce == value.1,
            r.amount == value.2,
    {
        let (token_identifier, token_nonce, amount) = value;
        Self::new(token_identifier, token_nonce, amount)
    }
}

impl vstd::std_specs::convert::FromSpecImpl<(EgldOrDctTokenIdentifier, u64, BigUint)> for EgldOrDctTokenPayment {
    open spec fn obeys_from_spec() -> bool {
        true
    }

    open spec fn from_spec(value: (EgldOrDctTokenIdentifier, u64, BigUint)) -> Self {
        EgldOrDctTokenPayment { token_identifier: value.0, token_nonce: value.1, amount: value.2 }
    }
}

impl From<DctTokenPayment> for EgldOrDctTokenPayment {
    fn from(dct_payment: DctTokenPayment) -> (r: Self)
        ensures
            r@.token_identifier == Some(dct_payment@.token_identifier),
            r.token_nonce == dct_payment.token_nonce,
            r.amount == dct_payment.amount,
    {
        EgldOrDctTokenPayment {
            token_identifier: EgldOrDctTokenIdentifier::dct(dct_payment.token_identifier),
            token_nonce: dct_payment.token_nonce,
            amount: dct_payment.amount,
        }
    }
}

/// What `from` returns is stated at `from` itself, over the views.
impl vstd::std_specs::convert::FromSpecImpl<DctTokenPayment> for EgldOrDctTokenPayment {
    open spec fn obeys_from_spec() -> bool {
        false
    }

    open spec fn from_spec(dct_payment: DctTokenPayment) -> Self {
        choose|r: EgldOrDctTokenPayment|
            r@.token_identifier == Some(dct_payment@.token_identifier) && r.token_nonce
                == dct_payment.token_nonce && r.amount == dct_payment.amount
    }
}

/// Whether a payment can be encoded: the written identifier and the amount
/// are each short enough for a four-byte length.
pub open spec fn payment_encodable(p: EgldOrDctTokenPaymentView) -> bool {
    bytes_dep_encodable(identifier_name(p.token_identifier)) && bytes_dep_encodable(
        be_bytes(p.amount),
    )
}

/// The encoding of a payment, top-level or nested: the nested encodings of
/// the identifier, the nonce and the amount, in this order, and nothing in
/// front that tells EGLD from a token.
pub open spec fn payment_encoding(p: EgldOrDctTokenPaymentView) -> Seq<u8> {
    bytes_dep_encoding(identifier_name(p.token_identifier)) + u64_be_bytes(p.token_nonce)
        + bytes_dep_encoding(be_bytes(p.amount))
}

/// The payment at the front of `input`, with the number of bytes it takes.
pub open spec fn payment_dep_decoding(input: Seq<u8>) -> Result<
    (EgldOrDctTokenPaymentView, nat),
    DecodeError,
> {
    match bytes_dep_decoding(input) {
        Err(e) => Err(e),
        Ok((name, n1)) => match u64_dep_decoding(input.skip(n1 as int)) {
            Err(e) => Err(e),
            Ok((token_nonce, n2)) => match bytes_dep_decoding(input.skip((n1 + n2) as int)) {
                Err(e) => Err(e),
                Ok((amount, n3)) => Ok(
                    (
                        EgldOrDctTokenPaymentView {
                            token_identifier: parse_identifier(name),
                            token_nonce,
                            amount: be_value(amount),
                        },
                        n1 + n2 + n3,
                    ),
                ),
            },
        },
    }
}

/// Decoding an encoded payment gives the payment back, whatever follows,
/// unless it is in a token whose identifier is the bytes `EGLD`: that one
/// comes back as EGLD.
pub proof fn lemma_payment_round_trip(p: EgldOrDctTokenPaymentView, rest: Seq<u8>)
    requires
        payment_encodable(p),
        p.token_identifier matches Some(bytes) ==> bytes != egld_representation(),
    ensures
        payment_dep_decoding(payment_encoding(p) + rest) == Ok::<
            (EgldOrDctTokenPaymentView, nat),
            DecodeError,
        >((p, payment_encoding(p).len())),
        top_from_dep(payment_dep_decoding(payment_encoding(p)), payment_encoding(p).len()) == Ok::<
            EgldOrDctTokenPaymentView,
            DecodeError,
        >(p),
{
    lemma_payment_decoding(p, rest);
    lemma_payment_decoding(p, Seq::empty());
}

/// What decoding gives for an encoded payment, whatever follows.
proof fn lemma_payment_decoding(p: EgldOrDctTokenPaymentView, rest: Seq<u8>)
    requires
        payment_encodable(p),
    ensures
        payment_dep_decoding(payment_encoding(p) + rest) == Ok::<
            (EgldOrDctTokenPaymentView, nat),
            DecodeError,
        >(
            (
                EgldOrDctTokenPaymentView {
                    token_identifier: parse_identifier(identifier_name(p.token_identifier)),
                    token_nonce: p.token_nonce,
                    amount: p.amount,
                },
                payment_encoding(p).len(),
            ),
        ),
{
    let name = identifier_name(p.token_identifier);
    let e1 = bytes_dep_encoding(name);
    let e2 = u64_be_bytes(p.token_nonce);
    let e3 = bytes_dep_encoding(be_bytes(p.amount));
    let input = payment_encoding(p) + rest;
    lemma_bytes_dep_round_trip(name, e2 + e3 + rest);
    assert(input =~= e1 + (e2 + e3 + rest));
    lemma_u64_dep_round_trip(p.token_nonce, e3 + rest);
    assert(input.skip(e1.len() as int) =~= e2 + (e3 + rest));
    lemma_bytes_dep_round_trip(be_bytes(p.amount), rest);
    assert(input.skip((e1.len() + 8) as int) =~= e3 + rest);
    lemma_be_bytes_value(p.amount);
}

impl DeepView for EgldOrDctTokenPayment {
    type V = EgldOrDctTokenPaymentView;

    open spec fn deep_view(&self) -> EgldOrDctTokenPaymentView {
        self@
    }
}

/// A payment is written as its three fields, each in nested encoding, at top
/// level as well as nested.
impl TopEncode for EgldOrDctTokenPayment {
    open spec fn top_encodable(&self) -> bool {
        payment_encodable(self@)
    }

    open spec fn top_encoding(&self) -> Seq<u8> {
        payment_encoding(self@)
    }

    fn top_encode(&self) -> (r: Result<Vec<u8>, EncodeError>) {
        let mut out: Vec<u8> = Vec::new();
        if let Err(e) = self.token_identifier.dep_encode(&mut out) {
            return Err(e);
        }
        let _ = self.token_nonce.dep_encode(&mut out);
        if let Err(e) = self.amount.dep_encode(&mut out) {
            return Err(e);
        }
        Ok(out)
    }
}

impl NestedEncode for EgldOrDctTokenPayment {
    open spec fn dep_encodable(&self) -> bool {
        payment_encodable(self@)
    }

    open spec fn dep_encoding(&self) -> Seq<u8> {
        payment_encoding(self@)
    }

    fn dep_encode(&self, dest: &mut Vec<u8>) -> (r: Result<(), EncodeError>) {
        match self.top_encode() {
            Ok(bytes) => {
                dest.extend_from_slice(bytes.as_slice());
                Ok(())
            },
            Err(e) => Err(e),
        }
    }
}

impl NestedDecode for EgldOrDctTokenPayment {
    open spec fn dep_decoding(input: Seq<u8>) -> Result<
        (EgldOrDctTokenPaymentView, nat),
        DecodeError,
    > {
        payment_dep_decoding(input)
    }

    fn dep_decode(input: &[u8]) -> (r: Result<(Self, usize), DecodeError>) {
        let (token_identifier, n1) = match EgldOrDctTokenIdentifier::dep_decode(input) {
            Ok(found) => found,
            Err(e) => { return Err(e); },
        };
        let after_identifier = slice_subrange(input, n1, input.len());
        let (token_nonce, n2) = match u64::dep_decode(after_identifier) {
            Ok(found) => found,
            Err(e) => { return Err(e); },
        };
        let after_nonce = slice_subrange(after_identifier, n2, after_identifier.len());
        assert(after_nonce@ =~= input@.skip((n1 + n2) as int));
        let (amount, n3) = match BigUint::dep_decode(after_nonce) {
            Ok(found) => found,
            Err(e) => { return Err(e); },
        };
        Ok((EgldOrDctTokenPayment { token_identifier, token_nonce, amount }, n1 + n2 + n3))
    }
}

impl TopDecode for EgldOrDctTokenPayment {
    open spec fn top_decoding(input: Seq<u8>) -> Result<EgldOrDctTokenPaymentView, DecodeError> {
        top_from_dep(payment_dep_decoding(input), input.len())
    }

    fn top_decode(input: &[u8]) -> (r: Result<Self, DecodeError>) {
        match Self::dep_decode(input) {
            Ok((payment, used)) => if used < input.len() {
                Err(DecodeError::InputTooLong)
            } else {
                Ok(payment)
            },
            Err(e) => Err(e),
        }
    }
}

} // verus!
