//! A payment in one issued token.

use crate::big_endian::{be_bytes, be_value, lemma_be_bytes_value, u64_be_bytes};
use crate::big_uint::BigUint;
use crate::codec::{
    bytes_dep_decoding, bytes_dep_encodable, bytes_dep_encoding, lemma_bytes_dep_round_trip,
    lemma_u64_dep_round_trip, seq_counted_decoding, seq_dep_encodable, seq_dep_encoding,
    top_from_dep, u64_dep_decoding, NestedDecode, NestedEncode, TopDecode, TopEncode,
};
use crate::error::{DecodeError, EncodeError};
use crate::token_identifier::TokenIdentifier;
use vstd::prelude::*;
use vstd::slice::slice_subrange;

verus! {

/// The mathematical content of a `DctTokenPayment`.
pub ghost struct DctTokenPaymentView {
    pub token_identifier: Seq<u8>,
    pub token_nonce: u64,
    pub amount: nat,
}

/// An amount of one issued token. The nonce tells the instances of a
/// non-fungible token apart and is zero for a fungible one.
#[derive(Debug)]
pub struct DctTokenPayment {
    pub token_identifier: TokenIdentifier,
    pub token_nonce: u64,
    pub amount: BigUint,
}

impl View for DctTokenPayment {
    type V = DctTokenPaymentView;

    open spec fn view(&self) -> DctTokenPaymentView {
        DctTokenPaymentView {
            token_identifier: self.token_identifier@,
            token_nonce: self.token_nonce,
            amount: self.amount@,
        }
    }
}

/// The views of the payments of a list, in order.
pub open spec fn payments_view(payments: Seq<DctTokenPayment>) -> Seq<DctTokenPaymentView> {
    payments.map_values(|p: DctTokenPayment| p@)
}

impl DctTokenPayment {
    pub fn new(token_identifier: TokenIdentifier, token_nonce: u64, amount: BigUint) -> (r: Self)
        ensures
            r.token_identifier == token_identifier,
            r.token_nonce == token_nonce,
            r.amount == amount,
    {
        DctTokenPayment { token_identifier, token_nonce, amount }
    }

    pub fn into_tuple(self) -> (r: (TokenIdentifier, u64, BigUint))
        ensures
            r == (self.token_identifier, self.token_nonce, self.amount),
    {
        (self.token_identifier, self.token_nonce, self.amount)
    }
}

impl Clone for DctTokenPayment {
    fn clone(&self) -> (r: Self)
        ensures
            r@ == self@,
    {
        DctTokenPayment {
            token_identifier: self.token_identifier.clone(),
            token_nonce: self.token_nonce,
            amount: self.amount.clone(),
        }
    }
}

impl PartialEq for DctTokenPayment {
    fn eq(&self, other: &Self) -> (r: bool) {
        self.token_identifier == other.token_identifier && self.token_nonce == other.token_nonce
            && self.amount == other.amount
    }
}

impl Eq for DctTokenPayment {}

impl vstd::std_specs::cmp::PartialEqSpecImpl for DctTokenPayment {
    open spec fn obeys_eq_spec() -> bool {
        true
    }

    open spec fn eq_spec(&self, other: &Self) -> bool {
        self@ == other@
    }
}

/// Whether a payment can be encoded: the identifier and the amount are each
/// short enough for a four-byte length.
pub open spec fn dct_payment_encodable(p: DctTokenPaymentView) -> bool {
    bytes_dep_encodable(p.token_identifier) && bytes_dep_encodable(be_bytes(p.amount))
}

/// The encoding of a payment, top-level or nested: the nested encodings of
/// the identifier, the nonce and the amount, in this order.
#[verifier::opaque]
pub open spec fn dct_payment_encoding(p: DctTokenPaymentView) -> Seq<u8> {
    bytes_dep_encoding(p.token_identifier) + u64_be_bytes(p.token_nonce) + bytes_dep_encoding(
        be_bytes(p.amount),
    )
}

/// The payment at the front of `input`, with the number of bytes it takes.
#[verifier::opaque]
pub open spec fn dct_payment_dep_decoding(input: Seq<u8>) -> Result<
    (DctTokenPaymentView, nat),
    DecodeError,
> {
    match bytes_dep_decoding(input) {
        Err(e) => Err(e),
        Ok((token_identifier, n1)) => match u64_dep_decoding(input.skip(n1 as int)) {
            Err(e) => Err(e),
            Ok((token_nonce, n2)) => match bytes_dep_decoding(input.skip((n1 + n2) as int)) {
                Err(e) => Err(e),
                Ok((amount, n3)) => Ok(
                    (
                        DctTokenPaymentView {
                            token_identifier,
                            token_nonce,
                            amount: be_value(amount),
                        },
                        n1 + n2 + n3,
                    ),
                ),
            },
        },
    }
}

/// Decoding an encoded payment gives the payment back, whatever follows.
pub proof fn lemma_dct_payment_round_trip(p: DctTokenPaymentView, rest: Seq<u8>)
    requires
        dct_payment_encodable(p),
    ensures
        dct_payment_dep_decoding(dct_payment_encoding(p) + rest) == Ok::<
            (DctTokenPaymentView, nat),
            DecodeError,
        >((p, dct_payment_encoding(p).len())),
        dct_payment_encoding(p).len() > 0,
{
    reveal(dct_payment_encoding);
    reveal(dct_payment_dep_decoding);
    let e1 = bytes_dep_encoding(p.token_identifier);
    let e2 = u64_be_bytes(p.token_nonce);
    let e3 = bytes_dep_encoding(be_bytes(p.amount));
    let input = dct_payment_encoding(p) + rest;
    lemma_bytes_dep_round_trip(p.token_identifier, e2 + e3 + rest);
    assert(input =~= e1 + (e2 + e3 + rest));
    lemma_u64_dep_round_trip(p.token_nonce, e3 + rest);
    assert(input.skip(e1.len() as int) =~= e2 + (e3 + rest));
    lemma_bytes_dep_round_trip(be_bytes(p.amount), rest);
    assert(input.skip((e1.len() + 8) as int) =~= e3 + rest);
    lemma_be_bytes_value(p.amount);
}

/// Decoding the top-level encoding of a payment gives the payment back.
pub proof fn lemma_dct_payment_top_round_trip(p: DctTokenPaymentView)
    requires
        dct_payment_encodable(p),
    ensures
        top_from_dep(
            dct_payment_dep_decoding(dct_payment_encoding(p)),
            dct_payment_encoding(p).len(),
        ) == Ok::<DctTokenPaymentView, DecodeError>(p),
{
    lemma_dct_payment_round_trip(p, Seq::empty());
    assert(dct_payment_encoding(p) + Seq::<u8>::empty() =~= dct_payment_encoding(p));
}

impl DeepView for DctTokenPayment {
    type V = DctTokenPaymentView;

    open spec fn deep_view(&self) -> DctTokenPaymentView {
        self@
    }
}

/// A payment is written as its three fields, each in nested encoding, at top
/// level as well as nested.
impl TopEncode for DctTokenPayment {
    open spec fn top_encodable(&self) -> bool {
        dct_payment_encodable(self@)
    }

    open spec fn top_encoding(&self) -> Seq<u8> {
        dct_payment_encoding(self@)
    }

    fn top_encode(&self) -> (r: Result<Vec<u8>, EncodeError>) {
        let mut out: Vec<u8> = Vec::new();
        if let Err(e) = self.token_identifier.dep_encode(&mut out) {
            return Err(e);
        }
        let _ = self.token_nonce.dep_encode(&mut out);
        if let Err(e) = self.amount.dep_encode(&mut out) {
            return Err(e);
        }
        proof {
            reveal(dct_payment_encoding);
        }
        Ok(out)
    }
}

impl NestedEncode for DctTokenPayment {
    open spec fn dep_encodable(&self) -> bool {
        dct_payment_encodable(self@)
    }

    open spec fn dep_encoding(&self) -> Seq<u8> {
        dct_payment_encoding(self@)
    }

    fn dep_encode(&self, dest: &mut Vec<u8>) -> (r: Result<(), EncodeError>) {
        match self.top_encode() {
            Ok(bytes) => {
                dest.extend_from_slice(bytes.as_slice());
                Ok(())
            },
            Err(e) => Err(e),
        }
    }
}

impl NestedDecode for DctTokenPayment {
    open spec fn dep_decoding(input: Seq<u8>) -> Result<(DctTokenPaymentView, nat), DecodeError> {
        dct_payment_dep_decoding(input)
    }

    fn dep_decode(input: &[u8]) -> (r: Result<(Self, usize), DecodeError>) {
        proof {
            reveal(dct_payment_dep_decoding);
        }
        let (token_identifier, n1) = match TokenIdentifier::dep_decode(input) {
            Ok(found) => found,
            Err(e) => { return Err(e); },
        };
        let after_identifier = slice_subrange(input, n1, input.len());
        let (token_nonce, n2) = match u64::dep_decode(after_identifier) {
            Ok(found) => found,
            Err(e) => { return Err(e); },
        };
        let after_nonce = slice_subrange(after_identifier, n2, after_identifier.len());
        assert(after_nonce@ =~= input@.skip((n1 + n2) as int));
        let (amount, n3) = match BigUint::dep_decode(after_nonce) {
            Ok(found) => found,
            Err(e) => { return Err(e); },
        };
        Ok((DctTokenPayment { token_identifier, token_nonce, amount }, n1 + n2 + n3))
    }
}

impl TopDecode for DctTokenPayment {
    open spec fn top_decoding(input: Seq<u8>) -> Result<DctTokenPaymentView, DecodeError> {
        top_from_dep(dct_payment_dep_decoding(input), input.len())
    }

    fn top_decode(input: &[u8]) -> (r: Result<Self, DecodeError>) {
        match Self::dep_decode(input) {
            Ok((payment, used)) => if used < input.len() {
                Err(DecodeError::InputTooLong)
            } else {
                Ok(payment)
            },
            Err(e) => Err(e),
        }
    }
}

/// Whether every payment of a list can be encoded.
pub open spec fn payments_encodable(payments: Seq<DctTokenPaymentView>) -> bool {
    forall|i: int| 0 <= i < payments.len() ==> dct_payment_encodable(#[trigger] payments[i])
}

/// The encodings of the payments of a list, one after the other.
pub open spec fn payments_encoding(payments: Seq<DctTokenPaymentView>) -> Seq<u8>
    decreases payments.len(),
{
    if payments.len() == 0 {
        Seq::empty()
    } else {
        payments_encoding(payments.drop_last()) + dct_payment_encoding(payments.last())
    }
}

/// The `count` payments at the front of `input`, with the number of bytes
/// they take together.
pub open spec fn payments_counted_decoding(input: Seq<u8>, count: nat) -> Result<
    (Seq<DctTokenPaymentView>, nat),
    DecodeError,
>
    decreases count,
{
    if count == 0 {
        Ok((Seq::empty(), 0))
    } else {
        match dct_payment_dep_decoding(input) {
            Err(e) => Err(e),
            Ok((payment, used)) => match payments_counted_decoding(
                input.skip(used as int),
                (count - 1) as nat,
            ) {
                Err(e) => Err(e),
                Ok((rest, more)) => Ok((seq![payment] + rest, used + more)),
            },
        }
    }
}

/// The encoding of a list written after that of a payment `p` is the encoding
/// of the list with `p` in front.
pub proof fn lemma_payments_encoding_front(p: DctTokenPaymentView, rest: Seq<DctTokenPaymentView>)
    ensures
        payments_encoding(seq![p] + rest) == dct_payment_encoding(p) + payments_encoding(rest),
    decreases rest.len(),
{
    let all = seq![p] + rest;
    if rest.len() == 0 {
        assert(payments_encoding(all.drop_last()) =~= Seq::<u8>::empty());
    } else {
        assert(all.drop_last() =~= seq![p] + rest.drop_last());
        lemma_payments_encoding_front(p, rest.drop_last());
    }
}

/// Decoding an encoded list of payments, by its count, gives the list back,
/// whatever follows.
pub proof fn lemma_payments_round_trip(payments: Seq<DctTokenPaymentView>, rest: Seq<u8>)
    requires
        payments_encodable(payments),
    ensures
        payments_counted_decoding(payments_encoding(payments) + rest, payments.len()) == Ok::<
            (Seq<DctTokenPaymentView>, nat),
            DecodeError,
        >((payments, payments_encoding(payments).len())),
    decreases payments.len(),
{
    if payments.len() == 0 {
        assert(payments =~= Seq::<DctTokenPaymentView>::empty());
    } else {
        let p = payments[0];
        let tail = payments.skip(1);
        let first = dct_payment_encoding(p);
        let others = payments_encoding(tail);
        let input = payments_encoding(payments) + rest;
        assert(payments =~= seq![p] + tail);
        assert(payments_encodable(tail));
        lemma_payments_encoding_front(p, tail);
        lemma_dct_payment_round_trip(p, others + rest);
        lemma_payments_round_trip(tail, rest);
        assert(input =~= first + (others + rest));
        assert(input.skip(first.len() as int) =~= others + rest);
        lemma_payments_counted_step(input, payments.len(), p, first.len(), tail, others.len());
    }
}

/// One more payment in front of a decoded list.
proof fn lemma_payments_counted_step(
    input: Seq<u8>,
    count: nat,
    p: DctTokenPaymentView,
    used: nat,
    tail: Seq<DctTokenPaymentView>,
    more: nat,
)
    requires
        count > 0,
        dct_payment_dep_decoding(input) == Ok::<(DctTokenPaymentView, nat), DecodeError>(
            (p, used),
        ),
        payments_counted_decoding(input.skip(used as int), (count - 1) as nat) == Ok::<
            (Seq<DctTokenPaymentView>, nat),
            DecodeError,
        >((tail, more)),
    ensures
        payments_counted_decoding(input, count) == Ok::<
            (Seq<DctTokenPaymentView>, nat),
            DecodeError,
        >((seq![p] + tail, used + more)),
{
}

/// The encoding of a list of payments is that of the list of their views.
pub proof fn lemma_payments_encoding_of_view(payments: Seq<DctTokenPayment>)
    ensures
        seq_dep_encodable(payments) == payments_encodable(payments_view(payments)),
        seq_dep_encoding(payments) == payments_encoding(payments_view(payments)),
    decreases payments.len(),
{
    let views = payments_view(payments);
    if seq_dep_encodable(payments) {
        assert forall|i: int| 0 <= i < views.len() implies dct_payment_encodable(
            #[trigger] views[i],
        ) by {
            assert(payments[i].dep_encodable());
        }
    }
    if payments_encodable(views) {
        assert forall|i: int| 0 <= i < payments.len() implies (
        #[trigger] payments[i]).dep_encodable() by {
            assert(dct_payment_encodable(views[i]));
        }
    }
    if payments.len() > 0 {
        lemma_payments_encoding_of_view(payments.drop_last());
        assert(payments_view(payments.drop_last()) =~= views.drop_last());
    }
}

/// Decoding a counted list of payments gives the list of their views.
pub proof fn lemma_payments_decoding_of_view(input: Seq<u8>, count: nat)
    ensures
        seq_counted_decoding::<DctTokenPayment>(input, count) == payments_counted_decoding(
            input,
            count,
        ),
    decreases count,
{
    if count > 0 {
        match dct_payment_dep_decoding(input) {
            Err(e) => {},
            Ok((payment, used)) => {
                lemma_payments_decoding_of_view(input.skip(used as int), (count - 1) as nat);
            },
        }
    }
}

/// Copies a list of payments.
pub fn clone_payments(payments: &Vec<DctTokenPayment>) -> (r: Vec<DctTokenPayment>)
    ensures
        payments_view(r@) == payments_view(payments@),
{
    let mut out: Vec<DctTokenPayment> = Vec::new();
    let mut i: usize = 0;
    while i < payments.len()
        invariant
            i <= payments.len(),
            out@.len() == i,
            forall|j: int| 0 <= j < i ==> out@[j]@ == payments@[j]@,
        decreases payments.len() - i,
    {
        out.push(payments[i].clone());
        i += 1;
    }
    out
}

/// Whether two lists hold equal payments in the same order.
pub fn payments_eq(a: &Vec<DctTokenPayment>, b: &Vec<DctTokenPayment>) -> (r: bool)
    ensures
        r == (payments_view(a@) == payments_view(b@)),
{
    if a.len() != b.len() {
        return false;
    }
    let mut i: usize = 0;
    while i < a.len()
        invariant
            i <= a.len(),
            a.len() == b.len(),
            forall|j: int| 0 <= j < i ==> a@[j]@ == b@[j]@,
        decreases a.len() - i,
    {
        if a[i] != b[i] {
            assert(payments_view(a@)[i as int] != payments_view(b@)[i as int]);
            return false;
        }
        i += 1;
    }
    assert(payments_view(a@) =~= payments_view(b@));
    true
}

} // verus!
