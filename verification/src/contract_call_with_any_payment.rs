//! Calls with any payment: none, EGLD, or a list of tokens.

use crate::contract_call::{
    egld_call, multi_transfer_call, ContractCall, ContractCallNoPayment, ContractCallView,
    ContractCallWithEgld, ContractCallWithEgldView, DirectTransfer, DirectTransferView,
};
use crate::egld_or_multi_dct_payment::{EgldOrMultiDctPayment, EgldOrMultiDctPaymentView};
use crate::managed_address::ManagedAddress;
use crate::managed_buffer::ManagedBuffer;
use vstd::prelude::*;

verus! {

/// The mathematical content of a `ContractCallWithAnyPayment`.
pub ghost struct ContractCallWithAnyPaymentView {
    pub basic: ContractCallView,
    pub payment: EgldOrMultiDctPaymentView,
}

/// The canonical call of a call with any payment: the call with the amount
/// attached where it pays EGLD, else the multi-transfer of the whole list.
pub open spec fn normalized_any_payment(
    call: ContractCallWithAnyPaymentView,
    sc_address: Seq<u8>,
) -> ContractCallWithEgldView {
    match call.payment {
        EgldOrMultiDctPaymentView::Egld(egld_amount) => egld_call(call.basic, egld_amount),
        EgldOrMultiDctPaymentView::MultiDct(multi_dct_payment) => multi_transfer_call(
            call.basic,
            multi_dct_payment,
            sc_address,
        ),
    }
}

/// The transfer of a call with any payment: of the amount of EGLD, or of the
/// whole list of tokens.
pub open spec fn transfer_any_payment(call: ContractCallWithAnyPaymentView) -> DirectTransferView {
    match call.payment {
        EgldOrMultiDctPaymentView::Egld(egld_amount) => DirectTransferView::Egld {
            call: call.basic,
            amount: egld_amount,
        },
        EgldOrMultiDctPaymentView::MultiDct(multi_dct_payment) => DirectTransferView::MultiDct {
            call: call.basic,
            payments: multi_dct_payment,
        },
    }
}

/// A call to another contract with any kind of payment: none, EGLD, or a
/// list of tokens.
///
/// It is made by `with_any_payment` on a call without payment, or directly
/// by `new`.
#[derive(Debug)]
pub struct ContractCallWithAnyPayment {
    pub basic: ContractCallNoPayment,
    pub payment: EgldOrMultiDctPayment,
}

impl View for ContractCallWithAnyPayment {
    type V = ContractCallWithAnyPaymentView;

    open spec fn view(&self) -> ContractCallWithAnyPaymentView {
        ContractCallWithAnyPaymentView { basic: self.basic@, payment: self.payment@ }
    }
}

impl ContractCallWithAnyPayment {
    /// A call of `endpoint_name` at `to` that pays `payment`, without
    /// arguments yet.
    pub fn new(to: ManagedAddress, endpoint_name: ManagedBuffer, payment: EgldOrMultiDctPayment) -> (r:
        Self)
        ensures
            r@ == (ContractCallWithAnyPaymentView {
                basic: ContractCallView {
                    to: to@,
                    endpoint_name: endpoint_name@,
                    arg_buffer: Seq::empty(),
                },
                payment: payment@,
            }),
    {
        ContractCallWithAnyPayment { basic: ContractCallNoPayment::new(to, endpoint_name), payment }
    }
}

impl Clone for ContractCallWithAnyPayment {
    fn clone(&self) -> (r: Self)
        ensures
            r@ == self@,
    {
        ContractCallWithAnyPayment { basic: self.basic.clone(), payment: self.payment.clone() }
    }
}

impl ContractCall for ContractCallWithAnyPayment {
    open spec fn normalized(
        call: ContractCallWithAnyPaymentView,
        sc_address: Seq<u8>,
    ) -> ContractCallWithEgldView {
        normalized_any_payment(call, sc_address)
    }

    open spec fn transfer(call: ContractCallWithAnyPaymentView) -> DirectTransferView {
        transfer_any_payment(call)
    }

    open spec fn basic_part(self) -> ContractCallNoPayment {
        self.basic
    }

    open spec fn with_basic_part(self, basic: ContractCallNoPayment) -> Self {
        ContractCallWithAnyPayment { basic, payment: self.payment }
    }

    fn into_normalized(self, sc_address: &ManagedAddress) -> (r: ContractCallWithEgld)
        ensures
            r@ == normalized_any_payment(self@, sc_address@),
    {
        match self.payment {
            EgldOrMultiDctPayment::Egld(egld_amount) => self.basic.with_egld_transfer(egld_amount),
            EgldOrMultiDctPayment::MultiDct(multi_dct_payment) => self.basic.into_normalized(
                sc_address,
            ).convert_to_dct_transfer_call(multi_dct_payment, sc_address),
        }
    }

    fn get_mut_basic(&mut self) -> (r: &mut ContractCallNoPayment) {
        &mut self.basic
    }

    fn transfer_execute(self) -> (r: DirectTransfer)
        ensures
            r@ == transfer_any_payment(self@),
    {
        match self.payment {
            EgldOrMultiDctPayment::Egld(egld_amount) => self.basic.transfer_execute_egld(
                egld_amount,
            ),
            EgldOrMultiDctPayment::MultiDct(multi_dct_payment) => self.basic.transfer_execute_dct(
                multi_dct_payment,
            ),
        }
    }
}

impl ContractCallNoPayment {
    /// The same call with any kind of payment.
    pub fn with_any_payment(self, payment: EgldOrMultiDctPayment) -> (r:
        ContractCallWithAnyPayment)
        ensures
            r.basic == self,
            r.payment == payment,
    {
        ContractCallWithAnyPayment { basic: self, payment }
    }
}

} // verus!
