//! Calls that pay either EGLD or one token.

use crate::big_uint::BigUint;
use crate::contract_call::{
    egld_call, single_transfer_call, ContractCall, ContractCallNoPayment, ContractCallView,
    ContractCallWithEgld, ContractCallWithEgldView, DirectTransfer, DirectTransferView,
};
use crate::dct_token_payment::{DctTokenPayment, DctTokenPaymentView};
use crate::egld_or_dct_token_identifier::EgldOrDctTokenIdentifier;
use crate::egld_or_dct_token_payment::{EgldOrDctTokenPayment, EgldOrDctTokenPaymentView};
use crate::error::PaymentError;
use crate::managed_address::ManagedAddress;
use crate::managed_buffer::ManagedBuffer;
use vstd::prelude::*;

verus! {

/// The mathematical content of a `ContractCallWithEgldOrSingleDct`.
pub ghost struct ContractCallWithEgldOrSingleDctView {
    pub basic: ContractCallView,
    pub payment: EgldOrDctTokenPaymentView,
}

/// The payment of `payment` as a payment in the token `token_identifier`.
pub open spec fn as_dct_payment(
    payment: EgldOrDctTokenPaymentView,
    token_identifier: Seq<u8>,
) -> DctTokenPaymentView {
    DctTokenPaymentView {
        token_identifier,
        token_nonce: payment.token_nonce,
        amount: payment.amount,
    }
}

/// The canonical call of a call that pays EGLD or one token: the call with
/// the amount attached where it pays EGLD, whatever the nonce; else the
/// transfer of the one token.
pub open spec fn normalized_egld_or_single_dct(
    call: ContractCallWithEgldOrSingleDctView,
    sc_address: Seq<u8>,
) -> ContractCallWithEgldView {
    match call.payment.token_identifier {
        None => egld_call(call.basic, call.payment.amount),
        Some(token_identifier) => single_transfer_call(
            call.basic,
            as_dct_payment(call.payment, token_identifier),
            sc_address,
        ),
    }
}

/// The transfer of a call that pays EGLD or one token: of the amount of EGLD,
/// zero too, or of the one token.
pub open spec fn transfer_egld_or_single_dct(
    call: ContractCallWithEgldOrSingleDctView,
) -> DirectTransferView {
    match call.payment.token_identifier {
        None => DirectTransferView::Egld { call: call.basic, amount: call.payment.amount },
        Some(token_identifier) => DirectTransferView::SingleDct {
            call: call.basic,
            payment: as_dct_payment(call.payment, token_identifier),
        },
    }
}

/// A call to another contract with a single payment, either EGLD or one
/// token.
///
/// It is made by `with_egld_or_single_dct_transfer` on a call without
/// payment, or directly by `new`.
#[derive(Debug)]
pub struct ContractCallWithEgldOrSingleDct {
    pub basic: ContractCallNoPayment,
    pub payment: EgldOrDctTokenPayment,
}

impl View for ContractCallWithEgldOrSingleDct {
    type V = ContractCallWithEgldOrSingleDctView;

    open spec fn view(&self) -> ContractCallWithEgldOrSingleDctView {
        ContractCallWithEgldOrSingleDctView { basic: self.basic@, payment: self.payment@ }
    }
}

impl ContractCallWithEgldOrSingleDct {
    /// A call of `endpoint_name` at `to` that pays `amount` of
    /// `token_identifier`, without arguments yet.
    pub fn new(
        to: ManagedAddress,
        endpoint_name: ManagedBuffer,
        token_identifier: EgldOrDctTokenIdentifier,
        token_nonce: u64,
        amount: BigUint,
    ) -> (r: Self)
        ensures
            r@ == (ContractCallWithEgldOrSingleDctView {
                basic: ContractCallView {
                    to: to@,
                    endpoint_name: endpoint_name@,
                    arg_buffer: Seq::empty(),
                },
                payment: EgldOrDctTokenPaymentView {
                    token_identifier: token_identifier@,
                    token_nonce,
                    amount: amount@,
                },
            }),
    {
        ContractCallWithEgldOrSingleDct {
            basic: ContractCallNoPayment::new(to, endpoint_name),
            payment: EgldOrDctTokenPayment::new(token_identifier, token_nonce, amount),
        }
    }

    /// The call with the amount attached as EGLD, whatever the identifier.
    pub fn into_normalized_egld(self) -> (r: ContractCallWithEgld)
        ensures
            r@ == egld_call(self@.basic, self@.payment.amount),
    {
        ContractCallWithEgld { basic: self.basic, egld_payment: self.payment.amount }
    }

    /// The call rewritten to the transfer of its token, or the error
    /// `UnwrapOnNative` where it pays EGLD.
    pub fn into_normalized_dct(self, sc_address: &ManagedAddress) -> (r: Result<
        ContractCallWithEgld,
        PaymentError,
    >)
        ensures
            match self@.payment.token_identifier {
                Some(token_identifier) => r is Ok && r->Ok_0@ == single_transfer_call(
                    self@.basic,
                    as_dct_payment(self@.payment, token_identifier),
                    sc_address@,
                ),
                None => r == Err::<ContractCallWithEgld, PaymentError>(
                    PaymentError::UnwrapOnNative,
                ),
            },
    {
        match self.payment.unwrap_dct() {
            Ok(payment) => Ok(
                self.basic.into_normalized(sc_address).convert_to_single_transfer_dct_call(
                    payment,
                    sc_address,
                ),
            ),
            Err(e) => Err(e),
        }
    }
}

impl Clone for ContractCallWithEgldOrSingleDct {
    fn clone(&self) -> (r: Self)
        ensures
            r@ == self@,
    {
        ContractCallWithEgldOrSingleDct {
            basic: self.basic.clone(),
            payment: self.payment.clone(),
        }
    }
}

impl ContractCall for ContractCallWithEgldOrSingleDct {
    open spec fn normalized(
        call: ContractCallWithEgldOrSingleDctView,
        sc_address: Seq<u8>,
    ) -> ContractCallWithEgldView {
        normalized_egld_or_single_dct(call, sc_address)
    }

    open spec fn transfer(call: ContractCallWithEgldOrSingleDctView) -> DirectTransferView {
        transfer_egld_or_single_dct(call)
    }

    open spec fn basic_part(self) -> ContractCallNoPayment {
        self.basic
    }

    open spec fn with_basic_part(self, basic: ContractCallNoPayment) -> Self {
        ContractCallWithEgldOrSingleDct { basic, payment: self.payment }
    }

    fn into_normalized(self, sc_address: &ManagedAddress) -> (r: ContractCallWithEgld)
        ensures
            r@ == normalized_egld_or_single_dct(self@, sc_address@),
    {
        let basic = self.basic;
        let (token_identifier, token_nonce, amount) = self.payment.into_tuple();
        match token_identifier.into_dct_option() {
            None => ContractCallWithEgld { basic, egld_payment: amount },
            // There is one payment at most, so the transfer of one token is
            // written directly, not as a list of one.
            Some(token_identifier) => basic.into_normalized(
                sc_address,
            ).convert_to_single_transfer_dct_call(
                DctTokenPayment::new(token_identifier, token_nonce, amount),
                sc_address,
            ),
        }
    }

    fn get_mut_basic(&mut self) -> (r: &mut ContractCallNoPayment) {
        &mut self.basic
    }

    fn transfer_execute(self) -> (r: DirectTransfer)
        ensures
            r@ == transfer_egld_or_single_dct(self@),
    {
        let basic = self.basic;
        let (token_identifier, token_nonce, amount) = self.payment.into_tuple();
        match token_identifier.into_dct_option() {
            None => basic.transfer_execute_egld(amount),
            Some(token_identifier) => basic.transfer_execute_single_dct(
                DctTokenPayment::new(token_identifier, token_nonce, amount),
            ),
        }
    }
}

impl ContractCallNoPayment {
    /// The same call with a payment of EGLD or of one token.
    pub fn with_egld_or_single_dct_transfer(self, payment: EgldOrDctTokenPayment) -> (r:
        ContractCallWithEgldOrSingleDct)
        ensures
            r.basic == self,
            r.payment == payment,
    {
        ContractCallWithEgldOrSingleDct { basic: self, payment }
    }
}

} // verus!
