//! Calls to other contracts, and the one shape that every call is reduced to
//! before it is sent: a call that carries an amount of EGLD, where a payment
//! in tokens has become a call of one of the ledger's transfer functions.

use crate::big_endian::be_bytes;
use crate::big_uint::BigUint;
use crate::dct_token_payment::{
    payments_eq, payments_view, DctTokenPayment, DctTokenPaymentView,
};
use crate::managed_address::ManagedAddress;
use crate::managed_arg_buffer::ManagedArgBuffer;
use crate::managed_buffer::ManagedBuffer;
use vstd::prelude::*;
use vstd::string::StringSliceAdditionalSpecFns;

verus! {

/// The ledger's function that moves an amount of a fungible token.
pub const DCT_TRANSFER_FUNC_NAME: &'static str = "DCTTransfer";

/// The ledger's function that moves an amount of one instance of a token.
pub const DCT_NFT_TRANSFER_FUNC_NAME: &'static str = "DCTNFTTransfer";

/// The ledger's function that moves several token payments at once.
pub const DCT_MULTI_TRANSFER_FUNC_NAME: &'static str = "MultiDCTNFTTransfer";

/// The mathematical content of a call without payment.
pub ghost struct ContractCallView {
    pub to: Seq<u8>,
    pub endpoint_name: Seq<u8>,
    pub arg_buffer: Seq<Seq<u8>>,
}

/// The mathematical content of a call with an amount of EGLD.
pub ghost struct ContractCallWithEgldView {
    pub basic: ContractCallView,
    pub egld_payment: nat,
}

/// The mathematical content of a `DirectTransfer`.
pub ghost enum DirectTransferView {
    Egld { call: ContractCallView, amount: nat },
    SingleDct { call: ContractCallView, payment: DctTokenPaymentView },
    MultiDct { call: ContractCallView, payments: Seq<DctTokenPaymentView> },
}

/// The call `call` with `egld_payment` attached and nothing rewritten.
pub open spec fn egld_call(call: ContractCallView, egld_payment: nat) -> ContractCallWithEgldView {
    ContractCallWithEgldView { basic: call, egld_payment }
}

/// The endpoint of a call as an argument of a transfer function: one
/// argument, or none where the call names no endpoint.
pub open spec fn endpoint_arg(call: ContractCallView) -> Seq<Seq<u8>> {
    if call.endpoint_name.len() == 0 {
        Seq::empty()
    } else {
        seq![call.endpoint_name]
    }
}

/// A call that pays a fungible token: the transfer function is sent to the
/// destination itself, with the token, the amount, the endpoint and the
/// call's own arguments.
pub open spec fn fungible_transfer_call(
    call: ContractCallView,
    payment: DctTokenPaymentView,
) -> ContractCallWithEgldView {
    ContractCallWithEgldView {
        basic: ContractCallView {
            to: call.to,
            endpoint_name: DCT_TRANSFER_FUNC_NAME.spec_bytes(),
            arg_buffer: seq![payment.token_identifier, be_bytes(payment.amount)] + endpoint_arg(
                call,
            ) + call.arg_buffer,
        },
        egld_payment: 0,
    }
}

/// A call that pays one instance of a token: the transfer function is sent
/// to the caller's own address `sc_address`, with the token, the nonce, the
/// amount, the destination, the endpoint and the call's own arguments.
pub open spec fn nft_transfer_call(
    call: ContractCallView,
    payment: DctTokenPaymentView,
    sc_address: Seq<u8>,
) -> ContractCallWithEgldView {
    ContractCallWithEgldView {
        basic: ContractCallView {
            to: sc_address,
            endpoint_name: DCT_NFT_TRANSFER_FUNC_NAME.spec_bytes(),
            arg_buffer: seq![
                payment.token_identifier,
                be_bytes(payment.token_nonce as nat),
                be_bytes(payment.amount),
                call.to,
            ] + endpoint_arg(call) + call.arg_buffer,
        },
        egld_payment: 0,
    }
}

/// A call that pays in one token: by the fungible transfer where the nonce is
/// zero, else by the transfer of an instance. An amount of zero is paid like
/// any other.
pub open spec fn single_transfer_call(
    call: ContractCallView,
    payment: DctTokenPaymentView,
    sc_address: Seq<u8>,
) -> ContractCallWithEgldView {
    if payment.token_nonce == 0 {
        fungible_transfer_call(call, payment)
    } else {
        nft_transfer_call(call, payment, sc_address)
    }
}

/// The three arguments of each payment of a list: token, nonce and amount.
pub open spec fn payment_args(payments: Seq<DctTokenPaymentView>) -> Seq<Seq<u8>>
    decreases payments.len(),
{
    if payments.len() == 0 {
        Seq::empty()
    } else {
        payment_args(payments.drop_last()) + seq![
            payments.last().token_identifier,
            be_bytes(payments.last().token_nonce as nat),
            be_bytes(payments.last().amount),
        ]
    }
}

/// A call that pays a list of tokens: the multi-transfer function is sent to
/// the caller's own address `sc_address`, with the destination, the number of
/// payments, the payments, the endpoint and the call's own arguments. The
/// whole list is carried, also where it is empty or has one payment.
pub open spec fn multi_transfer_call(
    call: ContractCallView,
    payments: Seq<DctTokenPaymentView>,
    sc_address: Seq<u8>,
) -> ContractCallWithEgldView {
    ContractCallWithEgldView {
        basic: ContractCallView {
            to: sc_address,
            endpoint_name: DCT_MULTI_TRANSFER_FUNC_NAME.spec_bytes(),
            arg_buffer: seq![call.to, be_bytes(payments.len())] + payment_args(payments)
                + endpoint_arg(call) + call.arg_buffer,
        },
        egld_payment: 0,
    }
}

/// What the host is asked to send where a call is executed as a transfer:
/// one of its three direct transfers, with the call to run at the receiver.
#[derive(Debug)]
pub enum DirectTransfer {
    /// A transfer of EGLD.
    Egld { call: ContractCallNoPayment, amount: BigUint },
    /// A transfer of one token.
    SingleDct { call: ContractCallNoPayment, payment: DctTokenPayment },
    /// A transfer of a list of tokens.
    MultiDct { call: ContractCallNoPayment, payments: Vec<DctTokenPayment> },
}

impl View for DirectTransfer {
    type V = DirectTransferView;

    open spec fn view(&self) -> DirectTransferView {
        match self {
            DirectTransfer::Egld { call, amount } => DirectTransferView::Egld {
                call: call@,
                amount: amount@,
            },
            DirectTransfer::SingleDct { call, payment } => DirectTransferView::SingleDct {
                call: call@,
                payment: payment@,
            },
            DirectTransfer::MultiDct { call, payments } => DirectTransferView::MultiDct {
                call: call@,
                payments: payments_view(payments@),
            },
        }
    }
}

impl PartialEq for DirectTransfer {
    fn eq(&self, other: &Self) -> (r: bool) {
        match (self, other) {
            (
                DirectTransfer::Egld { call: call_a, amount: amount_a },
                DirectTransfer::Egld { call: call_b, amount: amount_b },
            ) => call_a == call_b && amount_a == amount_b,
            (
                DirectTransfer::SingleDct { call: call_a, payment: first },
                DirectTransfer::SingleDct { call: call_b, payment: second },
            ) => call_a == call_b && first == second,
            (
                DirectTransfer::MultiDct { call: call_a, payments: first },
                DirectTransfer::MultiDct { call: call_b, payments: second },
            ) => call_a == call_b && payments_eq(first, second),
            _ => false,
        }
    }
}

impl Eq for DirectTransfer {}

impl vstd::std_specs::cmp::PartialEqSpecImpl for DirectTransfer {
    open spec fn obeys_eq_spec() -> bool {
        true
    }

    open spec fn eq_spec(&self, other: &Self) -> bool {
        self@ == other@
    }
}

/// A call under construction, with whatever payment its type holds.
///
/// Each kind of payment has a type of its own, so a call holds one kind and
/// never two. A call is used once: it is normalized, or executed as a
/// transfer.
pub trait ContractCall: Sized + View {
    /// The canonical call of a call with content `call`, made by a contract
    /// at `sc_address`.
    spec fn normalized(call: Self::V, sc_address: Seq<u8>) -> ContractCallWithEgldView;

    /// The transfer that executes a call with content `call`.
    spec fn transfer(call: Self::V) -> DirectTransferView;

    /// Reduces the call to the canonical one: a call with an amount of EGLD,
    /// in which a payment in tokens has become the call of a transfer
    /// function. `sc_address` is the address of the contract that makes the
    /// call; some transfer functions are sent there.
    fn into_normalized(self, sc_address: &ManagedAddress) -> (r: ContractCallWithEgld)
        ensures
            r@ == Self::normalized(self@, sc_address@),
    ;

    /// The call without its payment, for changing it in place.
    fn get_mut_basic(&mut self) -> (r: &mut ContractCallNoPayment)
        ensures
            *r == old(self).basic_part(),
            *final(self) == old(self).with_basic_part(*final(r)),
    ;

    /// The call without its payment.
    spec fn basic_part(self) -> ContractCallNoPayment;

    /// The same call with `basic` in place of its call without payment.
    spec fn with_basic_part(self, basic: ContractCallNoPayment) -> Self;

    /// The transfer that executes the call, for the host to send: no answer
    /// is waited for.
    fn transfer_execute(self) -> (r: DirectTransfer)
        ensures
            r@ == Self::transfer(self@),
    ;
}

/// A call to another contract, without payment: where it goes, the endpoint
/// and the arguments.
#[derive(Debug)]
pub struct ContractCallNoPayment {
    pub to: ManagedAddress,
    pub endpoint_name: ManagedBuffer,
    pub arg_buffer: ManagedArgBuffer,
}

impl View for ContractCallNoPayment {
    type V = ContractCallView;

    open spec fn view(&self) -> ContractCallView {
        ContractCallView {
            to: self.to@,
            endpoint_name: self.endpoint_name@,
            arg_buffer: self.arg_buffer@,
        }
    }
}

impl ContractCallNoPayment {
    /// A call of `endpoint_name` at `to`, without arguments yet.
    pub fn new(to: ManagedAddress, endpoint_name: ManagedBuffer) -> (r: Self)
        ensures
            r@ == (ContractCallView {
                to: to@,
                endpoint_name: endpoint_name@,
                arg_buffer: Seq::empty(),
            }),
    {
        ContractCallNoPayment { to, endpoint_name, arg_buffer: ManagedArgBuffer::new() }
    }

    /// Adds the bytes of `raw_arg` as the last argument.
    pub fn push_raw_argument(&mut self, raw_arg: ManagedBuffer)
        ensures
            final(self).to == old(self).to,
            final(self).endpoint_name == old(self).endpoint_name,
            final(self).arg_buffer@ == old(self).arg_buffer@.push(raw_arg@),
    {
        self.arg_buffer.push_arg_raw(raw_arg);
    }

    /// The same call with `egld_amount` attached.
    pub fn with_egld_transfer(self, egld_amount: BigUint) -> (r: ContractCallWithEgld)
        ensures
            r.basic == self,
            r.egld_payment == egld_amount,
    {
        ContractCallWithEgld { basic: self, egld_payment: egld_amount }
    }

    /// Executes the call as a transfer of `egld_payment`.
    pub fn transfer_execute_egld(self, egld_payment: BigUint) -> (r: DirectTransfer)
        ensures
            r == (DirectTransfer::Egld { call: self, amount: egld_payment }),
    {
        DirectTransfer::Egld { call: self, amount: egld_payment }
    }

    /// Executes the call as a transfer of `payment`.
    pub fn transfer_execute_single_dct(self, payment: DctTokenPayment) -> (r: DirectTransfer)
        ensures
            r == (DirectTransfer::SingleDct { call: self, payment }),
    {
        DirectTransfer::SingleDct { call: self, payment }
    }

    /// Executes the call as a transfer of all of `payments`.
    pub fn transfer_execute_dct(self, payments: Vec<DctTokenPayment>) -> (r: DirectTransfer)
        ensures
            r == (DirectTransfer::MultiDct { call: self, payments }),
    {
        DirectTransfer::MultiDct { call: self, payments }
    }
}

impl Clone for ContractCallNoPayment {
    fn clone(&self) -> (r: Self)
        ensures
            r@ == self@,
    {
        ContractCallNoPayment {
            to: self.to,
            endpoint_name: self.endpoint_name.clone(),
            arg_buffer: self.arg_buffer.clone(),
        }
    }
}

impl PartialEq for ContractCallNoPayment {
    fn eq(&self, other: &Self) -> (r: bool) {
        self.to == other.to && self.endpoint_name == other.endpoint_name && self.arg_buffer
            == other.arg_buffer
    }
}

impl Eq for ContractCallNoPayment {}

impl vstd::std_specs::cmp::PartialEqSpecImpl for ContractCallNoPayment {
    open spec fn obeys_eq_spec() -> bool {
        true
    }

    open spec fn eq_spec(&self, other: &Self) -> bool {
        self@ == other@
    }
}

/// A call without payment is normalized to itself with zero EGLD, and
/// executed as a transfer of zero EGLD.
impl ContractCall for ContractCallNoPayment {
    open spec fn normalized(call: ContractCallView, sc_address: Seq<u8>) -> ContractCallWithEgldView {
        egld_call(call, 0)
    }

    open spec fn transfer(call: ContractCallView) -> DirectTransferView {
        DirectTransferView::Egld { call, amount: 0 }
    }

    open spec fn basic_part(self) -> ContractCallNoPayment {
        self
    }

    open spec fn with_basic_part(self, basic: ContractCallNoPayment) -> Self {
        basic
    }

    fn into_normalized(self, sc_address: &ManagedAddress) -> (r: ContractCallWithEgld)
        ensures
            r@ == egld_call(self@, 0),
    {
        ContractCallWithEgld { basic: self, egld_payment: BigUint::zero() }
    }

    fn get_mut_basic(&mut self) -> (r: &mut ContractCallNoPayment) {
        self
    }

    fn transfer_execute(self) -> (r: DirectTransfer)
        ensures
            r@ == (DirectTransferView::Egld { call: self@, amount: 0 }),
    {
        self.transfer_execute_egld(BigUint::zero())
    }
}

/// A call with an amount of EGLD. This is the canonical call: every other
/// call is normalized to one of these.
#[derive(Debug)]
pub struct ContractCallWithEgld {
    pub basic: ContractCallNoPayment,
    pub egld_payment: BigUint,
}

impl View for ContractCallWithEgld {
    type V = ContractCallWithEgldView;

    open spec fn view(&self) -> ContractCallWithEgldView {
        ContractCallWithEgldView { basic: self.basic@, egld_payment: self.egld_payment@ }
    }
}

impl ContractCallWithEgld {
    /// A call of `endpoint_name` at `to` that pays `egld_payment`.
    pub fn new(to: ManagedAddress, endpoint_name: ManagedBuffer, egld_payment: BigUint) -> (r:
        Self)
        ensures
            r@ == egld_call(
                ContractCallView { to: to@, endpoint_name: endpoint_name@, arg_buffer: Seq::empty() },
                egld_payment@,
            ),
    {
        ContractCallWithEgld { basic: ContractCallNoPayment::new(to, endpoint_name), egld_payment }
    }

    /// The arguments that name the endpoint inside a transfer call.
    fn push_endpoint_arg(endpoint_name: ManagedBuffer, args: &mut ManagedArgBuffer)
        ensures
            final(args)@ == old(args)@ + (if endpoint_name@.len() == 0 {
                Seq::<Seq<u8>>::empty()
            } else {
                seq![endpoint_name@]
            }),
    {
        if !endpoint_name.is_empty() {
            args.push_arg_raw(endpoint_name);
        }
    }

    /// Rewrites the call so that it pays `payment`: the call of a transfer
    /// function that hands on the endpoint and the arguments. The amount of
    /// EGLD that the call held is dropped: the result pays none.
    pub fn convert_to_single_transfer_dct_call(
        self,
        payment: DctTokenPayment,
        sc_address: &ManagedAddress,
    ) -> (r: Self)
        ensures
            r@ == single_transfer_call(self@.basic, payment@, sc_address@),
    {
        if payment.token_nonce == 0 {
            self.convert_to_single_transfer_fungible_call(payment)
        } else {
            self.convert_to_single_transfer_nft_call(payment, sc_address)
        }
    }

    fn convert_to_single_transfer_fungible_call(self, payment: DctTokenPayment) -> (r: Self)
        ensures
            r@ == fungible_transfer_call(self@.basic, payment@),
    {
        let basic = self.basic;
        let mut new_arg_buffer = ManagedArgBuffer::new();
        // None of these top-level encodings has a length in it: none can fail.
        let _ = new_arg_buffer.push_arg(&payment.token_identifier);
        let _ = new_arg_buffer.push_arg(&payment.amount);
        Self::push_endpoint_arg(basic.endpoint_name, &mut new_arg_buffer);
        let r = ContractCallWithEgld {
            basic: ContractCallNoPayment {
                to: basic.to,
                endpoint_name: ManagedBuffer::from(DCT_TRANSFER_FUNC_NAME),
                arg_buffer: new_arg_buffer.concat(basic.arg_buffer),
            },
            egld_payment: BigUint::zero(),
        };
        assert(r@.basic.arg_buffer =~= fungible_transfer_call(self@.basic, payment@).basic.arg_buffer);
        r
    }

    fn convert_to_single_transfer_nft_call(
        self,
        payment: DctTokenPayment,
        sc_address: &ManagedAddress,
    ) -> (r: Self)
        ensures
            r@ == nft_transfer_call(self@.basic, payment@, sc_address@),
    {
        let basic = self.basic;
        let mut new_arg_buffer = ManagedArgBuffer::new();
        // None of these top-level encodings has a length in it: none can fail.
        let _ = new_arg_buffer.push_arg(&payment.token_identifier);
        let _ = new_arg_buffer.push_arg(&payment.token_nonce);
        let _ = new_arg_buffer.push_arg(&payment.amount);
        let _ = new_arg_buffer.push_arg(&basic.to);
        Self::push_endpoint_arg(basic.endpoint_name, &mut new_arg_buffer);
        let r = ContractCallWithEgld {
            basic: ContractCallNoPayment {
                to: *sc_address,
                endpoint_name: ManagedBuffer::from(DCT_NFT_TRANSFER_FUNC_NAME),
                arg_buffer: new_arg_buffer.concat(basic.arg_buffer),
            },
            egld_payment: BigUint::zero(),
        };
        assert(r@.basic.arg_buffer =~= nft_transfer_call(
            self@.basic,
            payment@,
            sc_address@,
        ).basic.arg_buffer);
        r
    }

    /// Rewrites the call so that it pays all of `payments`: the call of the
    /// multi-transfer function that hands on the destination, the endpoint
    /// and the arguments. The amount of EGLD that the call held is dropped:
    /// the result pays none.
    pub fn convert_to_dct_transfer_call(
        self,
        payments: Vec<DctTokenPayment>,
        sc_address: &ManagedAddress,
    ) -> (r: Self)
        ensures
            r@ == multi_transfer_call(self@.basic, payments_view(payments@), sc_address@),
    {
        let basic = self.basic;
        let ghost views = payments_view(payments@);
        let mut new_arg_buffer = ManagedArgBuffer::new();
        // None of these top-level encodings has a length in it: none can fail.
        let _ = new_arg_buffer.push_arg(&basic.to);
        let count: u64 = payments.len() as u64;
        let _ = new_arg_buffer.push_arg(&count);
        let ghost head = new_arg_buffer@;
        let mut i: usize = 0;
        while i < payments.len()
            invariant
                i <= payments.len(),
                views == payments_view(payments@),
                new_arg_buffer@ == head + payment_args(views.take(i as int)),
            decreases payments.len() - i,
        {
            let payment = &payments[i];
            let _ = new_arg_buffer.push_arg(&payment.token_identifier);
            let _ = new_arg_buffer.push_arg(&payment.token_nonce);
            let _ = new_arg_buffer.push_arg(&payment.amount);
            assert(views.take(i as int + 1).drop_last() =~= views.take(i as int));
            i += 1;
        }
        assert(views.take(i as int) =~= views);
        Self::push_endpoint_arg(basic.endpoint_name, &mut new_arg_buffer);
        let r = ContractCallWithEgld {
            basic: ContractCallNoPayment {
                to: *sc_address,
                endpoint_name: ManagedBuffer::from(DCT_MULTI_TRANSFER_FUNC_NAME),
                arg_buffer: new_arg_buffer.concat(basic.arg_buffer),
            },
            egld_payment: BigUint::zero(),
        };
        assert(r@.basic.arg_buffer =~= multi_transfer_call(
            self@.basic,
            views,
            sc_address@,
        ).basic.arg_buffer);
        r
    }
}

impl Clone for ContractCallWithEgld {
    fn clone(&self) -> (r: Self)
        ensures
            r@ == self@,
    {
        ContractCallWithEgld { basic: self.basic.clone(), egld_payment: self.egld_payment.clone() }
    }
}

impl PartialEq for ContractCallWithEgld {
    fn eq(&self, other: &Self) -> (r: bool) {
        self.basic == other.basic && self.egld_payment == other.egld_payment
    }
}

impl Eq for ContractCallWithEgld {}

impl vstd::std_specs::cmp::PartialEqSpecImpl for ContractCallWithEgld {
    open spec fn obeys_eq_spec() -> bool {
        true
    }

    open spec fn eq_spec(&self, other: &Self) -> bool {
        self@ == other@
    }
}

/// A call with an amount of EGLD is canonical already, and is executed as a
/// transfer of that amount.
impl ContractCall for ContractCallWithEgld {
    open spec fn normalized(
        call: ContractCallWithEgldView,
        sc_address: Seq<u8>,
    ) -> ContractCallWithEgldView {
        call
    }

    open spec fn transfer(call: ContractCallWithEgldView) -> DirectTransferView {
        DirectTransferView::Egld { call: call.basic, amount: call.egld_payment }
    }

    open spec fn basic_part(self) -> ContractCallNoPayment {
        self.basic
    }

    open spec fn with_basic_part(self, basic: ContractCallNoPayment) -> Self {
        ContractCallWithEgld { basic, egld_payment: self.egld_payment }
    }

    fn into_normalized(self, sc_address: &ManagedAddress) -> (r: ContractCallWithEgld)
        ensures
            r@ == self@,
    {
        self
    }

    fn get_mut_basic(&mut self) -> (r: &mut ContractCallNoPayment) {
        &mut self.basic
    }

    fn transfer_execute(self) -> (r: DirectTransfer)
        ensures
            r@ == (DirectTransferView::Egld {
                call: self@.basic,
                amount: self@.egld_payment,
            }),
    {
        self.basic.transfer_execute_egld(self.egld_payment)
    }
}

/// Two calls with the same content are normalized to the same canonical
/// call, and executed as the same transfer: both are functions of the content
/// and of the caller's address, and of nothing else.
pub proof fn lemma_normalization_is_a_function<C: ContractCall>(
    first: C,
    second: C,
    sc_address: ManagedAddress,
)
    requires
        first@ == second@,
    ensures
        C::normalized(first@, sc_address@) == C::normalized(second@, sc_address@),
        C::transfer(first@) == C::transfer(second@),
{
}

} // verus!
