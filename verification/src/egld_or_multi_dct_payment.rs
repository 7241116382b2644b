//! Any payment: an amount of EGLD, or a list of payments in issued tokens.

use crate::big_uint::BigUint;
use crate::big_endian::{
    be_bytes, be_value, lemma_be_bytes_value, lemma_u32_be_bytes_value, u32_be_bytes,
};
use crate::codec::{
    bytes_dep_decoding, bytes_dep_encodable, bytes_dep_encoding, lemma_bytes_dep_round_trip,
    top_from_dep, NestedDecode, NestedEncode, TopDecode, TopEncode,
};
use crate::dct_token_payment::{
    clone_payments, lemma_payments_decoding_of_view, lemma_payments_encoding_of_view,
    lemma_payments_round_trip, payments_counted_decoding, payments_encodable, payments_encoding,
    payments_eq, payments_view, DctTokenPayment, DctTokenPaymentView,
};
use crate::error::{DecodeError, EncodeError, PaymentError};
use crate::token_identifier::TokenIdentifier;
use vstd::prelude::*;
use vstd::slice::slice_subrange;

verus! {

/// The mathematical content of an `EgldOrMultiDctPayment`.
pub ghost enum EgldOrMultiDctPaymentView {
    Egld(nat),
    MultiDct(Seq<DctTokenPaymentView>),
}

/// Any kind of payment, which is either:
/// - EGLD (zero where nothing at all is paid);
/// - a list of payments in issued tokens.
///
/// An entry of the list is always a token, and EGLD never comes with a list.
#[derive(Debug)]
pub enum EgldOrMultiDctPayment {
    Egld(BigUint),
    MultiDct(Vec<DctTokenPayment>),
}

impl View for EgldOrMultiDctPayment {
    type V = EgldOrMultiDctPaymentView;

    open spec fn view(&self) -> EgldOrMultiDctPaymentView {
        match self {
            EgldOrMultiDctPayment::Egld(amount) => EgldOrMultiDctPaymentView::Egld(amount@),
            EgldOrMultiDctPayment::MultiDct(payments) => EgldOrMultiDctPaymentView::MultiDct(
                payments_view(payments@),
            ),
        }
    }
}

/// The token and the amount of a payment that is exactly one payment in a
/// fungible token; none for EGLD, for a list of none or of several, and for
/// an instance of a token (a nonce other than zero).
pub open spec fn single_fungible_dct_of(payment: EgldOrMultiDctPaymentView) -> Option<
    (Seq<u8>, nat),
> {
    match payment {
        EgldOrMultiDctPaymentView::Egld(_) => None,
        EgldOrMultiDctPaymentView::MultiDct(payments) => if payments.len() == 1
            && payments[0].token_nonce == 0 {
            Some((payments[0].token_identifier, payments[0].amount))
        } else {
            None
        },
    }
}

impl EgldOrMultiDctPayment {
    /// The token and the amount, where the payment is exactly one payment
    /// in a fungible token; else the error `PaymentKindMismatch`.
    pub fn single_fungible_dct(&self) -> (r: Result<(TokenIdentifier, BigUint), PaymentError>)
        ensures
            match single_fungible_dct_of(self@) {
                Some((token_identifier, amount)) => r is Ok && r->Ok_0.0@ == token_identifier
                    && r->Ok_0.1@ == amount,
                None => r == Err::<(TokenIdentifier, BigUint), PaymentError>(
                    PaymentError::PaymentKindMismatch,
                ),
            },
    {
        match self {
            EgldOrMultiDctPayment::Egld(_) => Err(PaymentError::PaymentKindMismatch),
            EgldOrMultiDctPayment::MultiDct(payments) => {
                if payments.len() != 1 {
                    return Err(PaymentError::PaymentKindMismatch);
                }
                let payment = &payments[0];
                if payment.token_nonce != 0 {
                    return Err(PaymentError::PaymentKindMismatch);
                }
                Ok((payment.token_identifier.clone(), payment.amount.clone()))
            },
        }
    }
}

impl Clone for EgldOrMultiDctPayment {
    fn clone(&self) -> (r: Self)
        ensures
            r@ == self@,
    {
        match self {
            EgldOrMultiDctPayment::Egld(amount) => EgldOrMultiDctPayment::Egld(amount.clone()),
            EgldOrMultiDctPayment::MultiDct(payments) => EgldOrMultiDctPayment::MultiDct(
                clone_payments(payments),
            ),
        }
    }
}

impl PartialEq for EgldOrMultiDctPayment {
    fn eq(&self, other: &Self) -> (r: bool) {
        match (self, other) {
            (EgldOrMultiDctPayment::Egld(a), EgldOrMultiDctPayment::Egld(b)) => a == b,
            (EgldOrMultiDctPayment::MultiDct(a), EgldOrMultiDctPayment::MultiDct(b)) => {
                payments_eq(a, b)
            },
            _ => false,
        }
    }
}

impl Eq for EgldOrMultiDctPayment {}

impl vstd::std_specs::cmp::PartialEqSpecImpl for EgldOrMultiDctPayment {
    open spec fn obeys_eq_spec() -> bool {
        true
    }

    open spec fn eq_spec(&self, other: &Self) -> bool {
        self@ == other@
    }
}

/// The byte that stands in front of an encoded amount of EGLD.
pub const EGLD_DISCRIMINANT: u8 = 0;

/// The byte that stands in front of an encoded list of token payments.
pub const MULTI_DCT_DISCRIMINANT: u8 = 1;

/// Whether a payment can be encoded: the amount, or the count of the list and
/// each payment of it, fit the four-byte lengths of the nested encoding.
pub open spec fn any_payment_encodable(payment: EgldOrMultiDctPaymentView) -> bool {
    match payment {
        EgldOrMultiDctPaymentView::Egld(amount) => bytes_dep_encodable(be_bytes(amount)),
        EgldOrMultiDctPaymentView::MultiDct(payments) => payments.len() <= u32::MAX
            && payments_encodable(payments),
    }
}

/// The encoding of a payment, top-level or nested: one byte, 0 for EGLD and 1
/// for a list of tokens; then the amount in nested encoding, or the count of
/// the list in four bytes and its payments.
pub open spec fn any_payment_encoding(payment: EgldOrMultiDctPaymentView) -> Seq<u8> {
    match payment {
        EgldOrMultiDctPaymentView::Egld(amount) => seq![EGLD_DISCRIMINANT] + bytes_dep_encoding(
            be_bytes(amount),
        ),
        EgldOrMultiDctPaymentView::MultiDct(payments) => seq![MULTI_DCT_DISCRIMINANT]
            + u32_be_bytes(payments.len() as u32) + payments_encoding(payments),
    }
}

/// The payment at the front of `input`, with the number of bytes it takes.
/// A first byte other than 0 and 1 is an `InvalidValue`.
pub open spec fn any_payment_dep_decoding(input: Seq<u8>) -> Result<
    (EgldOrMultiDctPaymentView, nat),
    DecodeError,
> {
    if input.len() == 0 {
        Err(DecodeError::InputTooShort)
    } else if input[0] == EGLD_DISCRIMINANT {
        match bytes_dep_decoding(input.skip(1)) {
            Ok((amount, used)) => Ok((EgldOrMultiDctPaymentView::Egld(be_value(amount)), 1 + used)),
            Err(e) => Err(e),
        }
    } else if input[0] == MULTI_DCT_DISCRIMINANT {
        if input.len() < 5 {
            Err(DecodeError::InputTooShort)
        } else {
            match payments_counted_decoding(input.skip(5), be_value(input.subrange(1, 5))) {
                Ok((payments, used)) => Ok(
                    (EgldOrMultiDctPaymentView::MultiDct(payments), 5 + used),
                ),
                Err(e) => Err(e),
            }
        }
    } else {
        Err(DecodeError::InvalidValue)
    }
}

/// Decoding an encoded payment gives the payment back, whatever follows.
pub proof fn lemma_any_payment_round_trip(payment: EgldOrMultiDctPaymentView, rest: Seq<u8>)
    requires
        any_payment_encodable(payment),
    ensures
        any_payment_dep_decoding(any_payment_encoding(payment) + rest) == Ok::<
            (EgldOrMultiDctPaymentView, nat),
            DecodeError,
        >((payment, any_payment_encoding(payment).len())),
{
    let input = any_payment_encoding(payment) + rest;
    match payment {
        EgldOrMultiDctPaymentView::Egld(amount) => {
            let body = bytes_dep_encoding(be_bytes(amount));
            assert(input.skip(1) =~= body + rest);
            lemma_bytes_dep_round_trip(be_bytes(amount), rest);
            lemma_be_bytes_value(amount);
        },
        EgldOrMultiDctPaymentView::MultiDct(payments) => {
            let count = u32_be_bytes(payments.len() as u32);
            lemma_u32_be_bytes_value(payments.len() as u32);
            assert(input.subrange(1, 5) =~= count);
            assert(input.skip(5) =~= payments_encoding(payments) + rest);
            lemma_payments_round_trip(payments, rest);
        },
    }
}

/// Decoding the top-level encoding of a payment gives the payment back.
pub proof fn lemma_any_payment_top_round_trip(payment: EgldOrMultiDctPaymentView)
    requires
        any_payment_encodable(payment),
    ensures
        top_from_dep(
            any_payment_dep_decoding(any_payment_encoding(payment)),
            any_payment_encoding(payment).len(),
        ) == Ok::<EgldOrMultiDctPaymentView, DecodeError>(payment),
{
    lemma_any_payment_round_trip(payment, Seq::empty());
    assert(any_payment_encoding(payment) + Seq::<u8>::empty() =~= any_payment_encoding(payment));
}

impl DeepView for EgldOrMultiDctPayment {
    type V = EgldOrMultiDctPaymentView;

    open spec fn deep_view(&self) -> EgldOrMultiDctPaymentView {
        self@
    }
}

/// A payment is written as one byte, 0 for EGLD and 1 for a list of tokens,
/// and then the amount or the list in nested encoding, at top level as well
/// as nested.
impl TopEncode for EgldOrMultiDctPayment {
    open spec fn top_encodable(&self) -> bool {
        any_payment_encodable(self@)
    }

    open spec fn top_encoding(&self) -> Seq<u8> {
        any_payment_encoding(self@)
    }

    fn top_encode(&self) -> (r: Result<Vec<u8>, EncodeError>) {
        let mut out: Vec<u8> = Vec::new();
        match self {
            EgldOrMultiDctPayment::Egld(amount) => {
                out.push(EGLD_DISCRIMINANT);
                if let Err(e) = amount.dep_encode(&mut out) {
                    return Err(e);
                }
            },
            EgldOrMultiDctPayment::MultiDct(payments) => {
                proof {
                    lemma_payments_encoding_of_view(payments@);
                }
                out.push(MULTI_DCT_DISCRIMINANT);
                if let Err(e) = payments.dep_encode(&mut out) {
                    return Err(e);
                }
            },
        }
        Ok(out)
    }
}

impl NestedEncode for EgldOrMultiDctPayment {
    open spec fn dep_encodable(&self) -> bool {
        any_payment_encodable(self@)
    }

    open spec fn dep_encoding(&self) -> Seq<u8> {
        any_payment_encoding(self@)
    }

    fn dep_encode(&self, dest: &mut Vec<u8>) -> (r: Result<(), EncodeError>) {
        match self.top_encode() {
            Ok(bytes) => {
                dest.extend_from_slice(bytes.as_slice());
                Ok(())
            },
            Err(e) => Err(e),
        }
    }
}

impl NestedDecode for EgldOrMultiDctPayment {
    open spec fn dep_decoding(input: Seq<u8>) -> Result<
        (EgldOrMultiDctPaymentView, nat),
        DecodeError,
    > {
        any_payment_dep_decoding(input)
    }

    fn dep_decode(input: &[u8]) -> (r: Result<(Self, usize), DecodeError>) {
        if input.len() == 0 {
            return Err(DecodeError::InputTooShort);
        }
        let discriminant = input[0];
        let rest = slice_subrange(input, 1, input.len());
        if discriminant == EGLD_DISCRIMINANT {
            match BigUint::dep_decode(rest) {
                Ok((amount, used)) => Ok((EgldOrMultiDctPayment::Egld(amount), 1 + used)),
                Err(e) => Err(e),
            }
        } else if discriminant == MULTI_DCT_DISCRIMINANT {
            proof {
                if rest@.len() >= 4 {
                    assert(rest@.subrange(0, 4) =~= input@.subrange(1, 5));
                    assert(rest@.skip(4) =~= input@.skip(5));
                    lemma_payments_decoding_of_view(
                        rest@.skip(4),
                        be_value(rest@.subrange(0, 4)),
                    );
                }
            }
            match Vec::<DctTokenPayment>::dep_decode(rest) {
                Ok((payments, used)) => {
                    assert(payments.deep_view() =~= payments_view(payments@));
                    Ok((EgldOrMultiDctPayment::MultiDct(payments), 1 + used))
                },
                Err(e) => Err(e),
            }
        } else {
            Err(DecodeError::InvalidValue)
        }
    }
}

impl TopDecode for EgldOrMultiDctPayment {
    open spec fn top_decoding(input: Seq<u8>) -> Result<EgldOrMultiDctPaymentView, DecodeError> {
        top_from_dep(any_payment_dep_decoding(input), input.len())
    }

    fn top_decode(input: &[u8]) -> (r: Result<Self, DecodeError>) {
        match Self::dep_decode(input) {
            Ok((payment, used)) => if used < input.len() {
                Err(DecodeError::InputTooLong)
            } else {
                Ok(payment)
            },
            Err(e) => Err(e),
        }
    }
}

} // verus!
