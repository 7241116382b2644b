//! Calls that pay in tokens: one token, or a list of them.

use crate::contract_call::{
    multi_transfer_call, single_transfer_call, ContractCall, ContractCallNoPayment,
    ContractCallView, ContractCallWithEgld, ContractCallWithEgldView, DirectTransfer,
    DirectTransferView,
};
use crate::dct_token_payment::{
    clone_payments, payments_view, DctTokenPayment, DctTokenPaymentView,
};
use crate::managed_address::ManagedAddress;
use crate::managed_buffer::ManagedBuffer;
use vstd::prelude::*;

verus! {

/// The mathematical content of a `ContractCallWithSingleDct`.
pub ghost struct ContractCallWithSingleDctView {
    pub basic: ContractCallView,
    pub payment: DctTokenPaymentView,
}

/// The mathematical content of a `ContractCallWithMultiDct`.
pub ghost struct ContractCallWithMultiDctView {
    pub basic: ContractCallView,
    pub dct_payments: Seq<DctTokenPaymentView>,
}

/// A call to another contract that pays an amount of one token. An amount of
/// zero is accepted: whoever wants none sent checks before.
#[derive(Debug)]
pub struct ContractCallWithSingleDct {
    pub basic: ContractCallNoPayment,
    pub payment: DctTokenPayment,
}

impl View for ContractCallWithSingleDct {
    type V = ContractCallWithSingleDctView;

    open spec fn view(&self) -> ContractCallWithSingleDctView {
        ContractCallWithSingleDctView { basic: self.basic@, payment: self.payment@ }
    }
}

impl ContractCallWithSingleDct {
    /// A call of `endpoint_name` at `to` that pays `payment`, without
    /// arguments yet.
    pub fn new(to: ManagedAddress, endpoint_name: ManagedBuffer, payment: DctTokenPayment) -> (r:
        Self)
        ensures
            r@ == (ContractCallWithSingleDctView {
                basic: ContractCallView {
                    to: to@,
                    endpoint_name: endpoint_name@,
                    arg_buffer: Seq::empty(),
                },
                payment: payment@,
            }),
    {
        ContractCallWithSingleDct { basic: ContractCallNoPayment::new(to, endpoint_name), payment }
    }
}

impl Clone for ContractCallWithSingleDct {
    fn clone(&self) -> (r: Self)
        ensures
            r@ == self@,
    {
        ContractCallWithSingleDct { basic: self.basic.clone(), payment: self.payment.clone() }
    }
}

/// A call that pays one token is normalized to the transfer of that token,
/// and executed as the direct transfer of it.
impl ContractCall for ContractCallWithSingleDct {
    open spec fn normalized(
        call: ContractCallWithSingleDctView,
        sc_address: Seq<u8>,
    ) -> ContractCallWithEgldView {
        single_transfer_call(call.basic, call.payment, sc_address)
    }

    open spec fn transfer(call: ContractCallWithSingleDctView) -> DirectTransferView {
        DirectTransferView::SingleDct { call: call.basic, payment: call.payment }
    }

    open spec fn basic_part(self) -> ContractCallNoPayment {
        self.basic
    }

    open spec fn with_basic_part(self, basic: ContractCallNoPayment) -> Self {
        ContractCallWithSingleDct { basic, payment: self.payment }
    }

    fn into_normalized(self, sc_address: &ManagedAddress) -> (r: ContractCallWithEgld)
        ensures
            r@ == single_transfer_call(self@.basic, self@.payment, sc_address@),
    {
        self.basic.into_normalized(sc_address).convert_to_single_transfer_dct_call(
            self.payment,
            sc_address,
        )
    }

    fn get_mut_basic(&mut self) -> (r: &mut ContractCallNoPayment) {
        &mut self.basic
    }

    fn transfer_execute(self) -> (r: DirectTransfer)
        ensures
            r@ == (DirectTransferView::SingleDct { call: self@.basic, payment: self@.payment }),
    {
        self.basic.transfer_execute_single_dct(self.payment)
    }
}

/// A call to another contract that pays a list of tokens, in order. The list
/// may be empty.
#[derive(Debug)]
pub struct ContractCallWithMultiDct {
    pub basic: ContractCallNoPayment,
    pub dct_payments: Vec<DctTokenPayment>,
}

impl View for ContractCallWithMultiDct {
    type V = ContractCallWithMultiDctView;

    open spec fn view(&self) -> ContractCallWithMultiDctView {
        ContractCallWithMultiDctView {
            basic: self.basic@,
            dct_payments: payments_view(self.dct_payments@),
        }
    }
}

impl ContractCallWithMultiDct {
    /// A call of `endpoint_name` at `to` that pays all of `payments`,
    /// without arguments yet.
    pub fn new(to: ManagedAddress, endpoint_name: ManagedBuffer, payments: Vec<DctTokenPayment>) -> (r:
        Self)
        ensures
            r@ == (ContractCallWithMultiDctView {
                basic: ContractCallView {
                    to: to@,
                    endpoint_name: endpoint_name@,
                    arg_buffer: Seq::empty(),
                },
                dct_payments: payments_view(payments@),
            }),
    {
        ContractCallWithMultiDct {
            basic: ContractCallNoPayment::new(to, endpoint_name),
            dct_payments: payments,
        }
    }

    /// The same call with `payment` added at the end of its list.
    pub fn with_dct_transfer(self, payment: DctTokenPayment) -> (r: Self)
        ensures
            r.basic == self.basic,
            r@.dct_payments == self@.dct_payments.push(payment@),
    {
        let mut dct_payments = self.dct_payments;
        dct_payments.push(payment);
        ContractCallWithMultiDct { basic: self.basic, dct_payments }
    }
}

impl Clone for ContractCallWithMultiDct {
    fn clone(&self) -> (r: Self)
        ensures
            r@ == self@,
    {
        ContractCallWithMultiDct {
            basic: self.basic.clone(),
            dct_payments: clone_payments(&self.dct_payments),
        }
    }
}

/// A call that pays a list of tokens is normalized to the multi-transfer of
/// the whole list, and executed as the direct transfer of it.
impl ContractCall for ContractCallWithMultiDct {
    open spec fn normalized(
        call: ContractCallWithMultiDctView,
        sc_address: Seq<u8>,
    ) -> ContractCallWithEgldView {
        multi_transfer_call(call.basic, call.dct_payments, sc_address)
    }

    open spec fn transfer(call: ContractCallWithMultiDctView) -> DirectTransferView {
        DirectTransferView::MultiDct { call: call.basic, payments: call.dct_payments }
    }

    open spec fn basic_part(self) -> ContractCallNoPayment {
        self.basic
    }

    open spec fn with_basic_part(self, basic: ContractCallNoPayment) -> Self {
        ContractCallWithMultiDct { basic, dct_payments: self.dct_payments }
    }

    fn into_normalized(self, sc_address: &ManagedAddress) -> (r: ContractCallWithEgld)
        ensures
            r@ == multi_transfer_call(self@.basic, self@.dct_payments, sc_address@),
    {
        self.basic.into_normalized(sc_address).convert_to_dct_transfer_call(
            self.dct_payments,
            sc_address,
        )
    }

    fn get_mut_basic(&mut self) -> (r: &mut ContractCallNoPayment) {
        &mut self.basic
    }

    fn transfer_execute(self) -> (r: DirectTransfer)
        ensures
            r@ == (DirectTransferView::MultiDct {
                call: self@.basic,
                payments: self@.dct_payments,
            }),
    {
        self.basic.transfer_execute_dct(self.dct_payments)
    }
}

impl ContractCallNoPayment {
    /// The same call with a payment of one token.
    pub fn with_single_dct_transfer(self, payment: DctTokenPayment) -> (r:
        ContractCallWithSingleDct)
        ensures
            r.basic == self,
            r.payment == payment,
    {
        ContractCallWithSingleDct { basic: self, payment }
    }

    /// The same call with a list of payments in tokens.
    pub fn with_multi_token_transfer(self, payments: Vec<DctTokenPayment>) -> (r:
        ContractCallWithMultiDct)
        ensures
            r.basic == self,
            r.dct_payments == payments,
    {
        ContractCallWithMultiDct { basic: self, dct_payments: payments }
    }
}

} // verus!
