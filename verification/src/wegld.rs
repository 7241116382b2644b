//! A contract that wraps EGLD into a token and unwraps it again, one for
//! one. Here stand its decisions: what a request is answered with and what
//! the host is to do for it. The host reads the request and does the work.

use crate::big_uint::BigUint;
use crate::dct_token_payment::{DctTokenPayment, DctTokenPaymentView};
use crate::egld_or_multi_dct_payment::{
    single_fungible_dct_of, EgldOrMultiDctPayment, EgldOrMultiDctPaymentView,
};
use crate::error::PaymentError;
use crate::managed_address::ManagedAddress;
use crate::token_identifier::TokenIdentifier;
use vstd::prelude::*;

verus! {

/// Why a request was refused. Nothing is done for a refused request.
#[derive(Debug, Clone, Copy, PartialEq, Eq, Structural)]
pub enum SwapError {
    /// The contract is paused.
    ContractPaused,
    /// No EGLD came with the request to wrap.
    PaymentMustBeMoreThanZero,
    /// What came with the request to unwrap is not one payment in a fungible
    /// token.
    Payment(PaymentError),
    /// The token that came with the request is not the wrapped EGLD.
    WrongDctToken,
    /// The payment in wrapped EGLD is of amount zero.
    MustPayMoreThanZeroTokens,
    /// The contract holds less EGLD than was asked for.
    NotEnoughFunds,
}

/// The mathematical content of a `SwapAction`.
pub ghost enum SwapActionView {
    DctLocalMint { payment: DctTokenPaymentView },
    DctLocalBurn { payment: DctTokenPaymentView },
    DirectDct { to: Seq<u8>, payment: DctTokenPaymentView },
    DirectEgld { to: Seq<u8>, amount: nat },
}

/// One thing that the host is to do for a request that was accepted.
#[derive(Debug)]
pub enum SwapAction {
    /// Create an amount of a token.
    DctLocalMint { payment: DctTokenPayment },
    /// Destroy an amount of a token.
    DctLocalBurn { payment: DctTokenPayment },
    /// Send an amount of a token.
    DirectDct { to: ManagedAddress, payment: DctTokenPayment },
    /// Send an amount of EGLD.
    DirectEgld { to: ManagedAddress, amount: BigUint },
}

impl View for SwapAction {
    type V = SwapActionView;

    open spec fn view(&self) -> SwapActionView {
        match self {
            SwapAction::DctLocalMint { payment } => SwapActionView::DctLocalMint {
                payment: payment@,
            },
            SwapAction::DctLocalBurn { payment } => SwapActionView::DctLocalBurn {
                payment: payment@,
            },
            SwapAction::DirectDct { to, payment } => SwapActionView::DirectDct {
                to: to@,
                payment: payment@,
            },
            SwapAction::DirectEgld { to, amount } => SwapActionView::DirectEgld {
                to: to@,
                amount: amount@,
            },
        }
    }
}

impl PartialEq for SwapAction {
    fn eq(&self, other: &Self) -> (r: bool) {
        match (self, other) {
            (
                SwapAction::DctLocalMint { payment: first },
                SwapAction::DctLocalMint { payment: second },
            ) => first == second,
            (
                SwapAction::DctLocalBurn { payment: first },
                SwapAction::DctLocalBurn { payment: second },
            ) => first == second,
            (
                SwapAction::DirectDct { to: to_a, payment: first },
                SwapAction::DirectDct { to: to_b, payment: second },
            ) => to_a == to_b && first == second,
            (
                SwapAction::DirectEgld { to: to_a, amount: amount_a },
                SwapAction::DirectEgld { to: to_b, amount: amount_b },
            ) => to_a == to_b && amount_a == amount_b,
            _ => false,
        }
    }
}

impl Eq for SwapAction {}

impl vstd::std_specs::cmp::PartialEqSpecImpl for SwapAction {
    open spec fn obeys_eq_spec() -> bool {
        true
    }

    open spec fn eq_spec(&self, other: &Self) -> bool {
        self@ == other@
    }
}

/// The views of the actions of a list, in order.
pub open spec fn actions_view(actions: Seq<SwapAction>) -> Seq<SwapActionView> {
    actions.map_values(|a: SwapAction| a@)
}

/// An amount of the fungible token `token`.
pub open spec fn fungible(token: Seq<u8>, amount: nat) -> DctTokenPaymentView {
    DctTokenPaymentView { token_identifier: token, token_nonce: 0, amount }
}

/// What a request to wrap is answered with: refused where the contract is
/// paused or no EGLD came; else the same amount of wrapped EGLD is created
/// and sent to the caller, and the request is answered with that payment.
pub open spec fn wrap_egld_outcome(
    wrapped_egld_token_id: Seq<u8>,
    paused: bool,
    caller: Seq<u8>,
    payment_amount: nat,
) -> Result<(Seq<SwapActionView>, DctTokenPaymentView), SwapError> {
    if paused {
        Err(SwapError::ContractPaused)
    } else if payment_amount == 0 {
        Err(SwapError::PaymentMustBeMoreThanZero)
    } else {
        let wrapped = fungible(wrapped_egld_token_id, payment_amount);
        Ok(
            (
                seq![
                    SwapActionView::DctLocalMint { payment: wrapped },
                    SwapActionView::DirectDct { to: caller, payment: wrapped },
                ],
                wrapped,
            ),
        )
    }
}

/// What a request to unwrap is answered with. It is refused, in this order,
/// where the contract is paused; where what came is not one payment in a
/// fungible token; where that token is not the wrapped EGLD; where its amount
/// is zero; where the contract holds less EGLD than that. Else the wrapped
/// EGLD is destroyed and the same amount of EGLD is sent to the caller.
pub open spec fn unwrap_egld_outcome(
    wrapped_egld_token_id: Seq<u8>,
    paused: bool,
    caller: Seq<u8>,
    payment: EgldOrMultiDctPaymentView,
    locked_egld_balance: nat,
) -> Result<Seq<SwapActionView>, SwapError> {
    if paused {
        Err(SwapError::ContractPaused)
    } else {
        match single_fungible_dct_of(payment) {
            None => Err(SwapError::Payment(PaymentError::PaymentKindMismatch)),
            Some((payment_token, payment_amount)) => if payment_token != wrapped_egld_token_id {
                Err(SwapError::WrongDctToken)
            } else if payment_amount == 0 {
                Err(SwapError::MustPayMoreThanZeroTokens)
            } else if payment_amount > locked_egld_balance {
                Err(SwapError::NotEnoughFunds)
            } else {
                Ok(
                    seq![
                        SwapActionView::DctLocalBurn {
                            payment: fungible(wrapped_egld_token_id, payment_amount),
                        },
                        SwapActionView::DirectEgld { to: caller, amount: payment_amount },
                    ],
                )
            },
        }
    }
}

/// The contract: it knows the token that stands for wrapped EGLD.
#[derive(Debug)]
pub struct EgldDctSwap {
    wrapped_egld_token_id: TokenIdentifier,
}

impl EgldDctSwap {
    /// The identifier of the wrapped EGLD.
    pub closed spec fn token(&self) -> Seq<u8> {
        self.wrapped_egld_token_id@
    }

    /// The contract for the token `wrapped_egld_token_id`.
    pub fn init(wrapped_egld_token_id: TokenIdentifier) -> (r: Self)
        ensures
            r.token() == wrapped_egld_token_id@,
    {
        EgldDctSwap { wrapped_egld_token_id }
    }

    /// The identifier of the wrapped EGLD.
    pub fn wrapped_egld_token_id(&self) -> (r: &TokenIdentifier)
        ensures
            r@ == self.token(),
    {
        &self.wrapped_egld_token_id
    }

    /// Answers a request of `caller` to wrap the `payment_amount` of EGLD that
    /// came with it: the actions for the host, in order, with the payment
    /// that the request is answered with; or the refusal.
    pub fn wrap_egld(&self, paused: bool, caller: &ManagedAddress, payment_amount: &BigUint) -> (r:
        Result<(Vec<SwapAction>, DctTokenPayment), SwapError>)
        ensures
            match r {
                Ok((actions, wrapped)) => wrap_egld_outcome(
                    self.token(),
                    paused,
                    caller@,
                    payment_amount@,
                ) == Ok::<(Seq<SwapActionView>, DctTokenPaymentView), SwapError>(
                    (actions_view(actions@), wrapped@),
                ),
                Err(e) => wrap_egld_outcome(self.token(), paused, caller@, payment_amount@)
                    == Err::<(Seq<SwapActionView>, DctTokenPaymentView), SwapError>(e),
            },
    {
        if paused {
            return Err(SwapError::ContractPaused);
        }
        if payment_amount.is_zero() {
            return Err(SwapError::PaymentMustBeMoreThanZero);
        }
        let mut actions: Vec<SwapAction> = Vec::new();
        actions.push(
            SwapAction::DctLocalMint {
                payment: DctTokenPayment::new(
                    self.wrapped_egld_token_id.clone(),
                    0,
                    payment_amount.clone(),
                ),
            },
        );
        actions.push(
            SwapAction::DirectDct {
                to: *caller,
                payment: DctTokenPayment::new(
                    self.wrapped_egld_token_id.clone(),
                    0,
                    payment_amount.clone(),
                ),
            },
        );
        assert(actions_view(actions@) =~= wrap_egld_outcome(
            self.token(),
            paused,
            caller@,
            payment_amount@,
        )->Ok_0.0);
        Ok(
            (
                actions,
                DctTokenPayment::new(
                    self.wrapped_egld_token_id.clone(),
                    0,
                    payment_amount.clone(),
                ),
            ),
        )
    }

    /// Answers a request of `caller` to unwrap the `payment` that came with
    /// it, while the contract holds `locked_egld_balance` of EGLD: the actions
    /// for the host, in order, or the refusal.
    pub fn unwrap_egld(
        &self,
        paused: bool,
        caller: &ManagedAddress,
        payment: &EgldOrMultiDctPayment,
        locked_egld_balance: &BigUint,
    ) -> (r: Result<Vec<SwapAction>, SwapError>)
        ensures
            match r {
                Ok(actions) => unwrap_egld_outcome(
                    self.token(),
                    paused,
                    caller@,
                    payment@,
                    locked_egld_balance@,
                ) == Ok::<Seq<SwapActionView>, SwapError>(actions_view(actions@)),
                Err(e) => unwrap_egld_outcome(
                    self.token(),
                    paused,
                    caller@,
                    payment@,
                    locked_egld_balance@,
                ) == Err::<Seq<SwapActionView>, SwapError>(e),
            },
    {
        if paused {
            return Err(SwapError::ContractPaused);
        }
        let (payment_token, payment_amount) = match payment.single_fungible_dct() {
            Ok(found) => found,
            Err(e) => { return Err(SwapError::Payment(e)); },
        };
        if payment_token != self.wrapped_egld_token_id {
            return Err(SwapError::WrongDctToken);
        }
        if payment_amount.is_zero() {
            return Err(SwapError::MustPayMoreThanZeroTokens);
        }
        if !payment_amount.at_most(locked_egld_balance) {
            return Err(SwapError::NotEnoughFunds);
        }
        let mut actions: Vec<SwapAction> = Vec::new();
        actions.push(
            SwapAction::DctLocalBurn {
                payment: DctTokenPayment::new(payment_token, 0, payment_amount.clone()),
            },
        );
        // One wrapped EGLD is one EGLD: the same amount is paid back.
        actions.push(SwapAction::DirectEgld { to: *caller, amount: payment_amount });
        assert(actions_view(actions@) =~= unwrap_egld_outcome(
            self.token(),
            paused,
            caller@,
            payment@,
            locked_egld_balance@,
        )->Ok_0);
        Ok(actions)
    }
}

} // verus!
