use egld_dct_payment::{
    BigUint, DctTokenPayment, EgldDctSwap, EgldOrMultiDctPayment, ManagedAddress, PaymentError,
    SwapAction, SwapError, TokenIdentifier,
};

fn swap() -> EgldDctSwap {
    EgldDctSwap::init(TokenIdentifier::from("WEGLD-abcdef"))
}

fn caller() -> ManagedAddress {
    ManagedAddress::new_from_bytes(&[3u8; 32])
}

fn wrapped(amount: u64) -> DctTokenPayment {
    DctTokenPayment::new(TokenIdentifier::from("WEGLD-abcdef"), 0, BigUint::from_u64(amount))
}

fn paid(payment: DctTokenPayment) -> EgldOrMultiDctPayment {
    EgldOrMultiDctPayment::MultiDct(vec![payment])
}

#[test]
fn wrapping_mints_and_sends_the_same_amount() {
    assert_eq!(swap().wrapped_egld_token_id(), &TokenIdentifier::from("WEGLD-abcdef"));
    assert_eq!(
        swap().wrap_egld(false, &caller(), &BigUint::from_u64(100)),
        Ok((
            vec![
                SwapAction::DctLocalMint { payment: wrapped(100) },
                SwapAction::DirectDct { to: caller(), payment: wrapped(100) },
            ],
            wrapped(100)
        ))
    );
}

#[test]
fn wrapping_is_refused() {
    assert_eq!(
        swap().wrap_egld(true, &caller(), &BigUint::from_u64(100)),
        Err(SwapError::ContractPaused)
    );
    assert_eq!(
        swap().wrap_egld(true, &caller(), &BigUint::zero()),
        Err(SwapError::ContractPaused)
    );
    assert_eq!(
        swap().wrap_egld(false, &caller(), &BigUint::zero()),
        Err(SwapError::PaymentMustBeMoreThanZero)
    );
}

#[test]
fn unwrapping_burns_and_pays_back_the_same_amount() {
    let expected = vec![
        SwapAction::DctLocalBurn { payment: wrapped(100) },
        SwapAction::DirectEgld { to: caller(), amount: BigUint::from_u64(100) },
    ];
    assert_eq!(
        swap().unwrap_egld(false, &caller(), &paid(wrapped(100)), &BigUint::from_u64(100)),
        Ok(expected)
    );
    assert!(swap()
        .unwrap_egld(false, &caller(), &paid(wrapped(100)), &BigUint::from_u64(101))
        .is_ok());
}

#[test]
fn unwrapping_is_refused() {
    let balance = BigUint::from_u64(100);
    assert_eq!(
        swap().unwrap_egld(true, &caller(), &paid(wrapped(100)), &balance),
        Err(SwapError::ContractPaused)
    );
    assert_eq!(
        swap().unwrap_egld(false, &caller(), &EgldOrMultiDctPayment::Egld(BigUint::from_u64(1)), &balance),
        Err(SwapError::Payment(PaymentError::PaymentKindMismatch))
    );
    assert_eq!(
        swap().unwrap_egld(false, &caller(), &EgldOrMultiDctPayment::MultiDct(vec![]), &balance),
        Err(SwapError::Payment(PaymentError::PaymentKindMismatch))
    );
    assert_eq!(
        swap().unwrap_egld(
            false,
            &caller(),
            &EgldOrMultiDctPayment::MultiDct(vec![wrapped(1), wrapped(1)]),
            &balance
        ),
        Err(SwapError::Payment(PaymentError::PaymentKindMismatch))
    );
    let instance = DctTokenPayment::new(TokenIdentifier::from("WEGLD-abcdef"), 1, BigUint::from_u64(1));
    assert_eq!(
        swap().unwrap_egld(false, &caller(), &paid(instance), &balance),
        Err(SwapError::Payment(PaymentError::PaymentKindMismatch))
    );
    let other = DctTokenPayment::new(TokenIdentifier::from("OTHER-abcdef"), 0, BigUint::zero());
    assert_eq!(
        swap().unwrap_egld(false, &caller(), &paid(other), &balance),
        Err(SwapError::WrongDctToken)
    );
    assert_eq!(
        swap().unwrap_egld(false, &caller(), &paid(wrapped(0)), &balance),
        Err(SwapError::MustPayMoreThanZeroTokens)
    );
    assert_eq!(
        swap().unwrap_egld(false, &caller(), &paid(wrapped(101)), &balance),
        Err(SwapError::NotEnoughFunds)
    );
    assert_eq!(
        swap().unwrap_egld(false, &caller(), &paid(wrapped(1)), &BigUint::zero()),
        Err(SwapError::NotEnoughFunds)
    );
}
