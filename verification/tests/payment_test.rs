use egld_dct_payment::{
    BigUint, DctTokenPayment, EgldOrDctTokenIdentifier, EgldOrDctTokenPayment,
    EgldOrMultiDctPayment, ManagedBuffer, PaymentError, TokenIdentifier, TokenIdentifierFeatures,
};

#[test]
fn egld_is_always_valid() {
    assert!(EgldOrDctTokenIdentifier::egld().is_valid());
    assert!(EgldOrDctTokenIdentifier::egld().is_egld());
    assert!(!EgldOrDctTokenIdentifier::egld().is_dct());
}

#[test]
fn a_token_is_not_egld() {
    let token = EgldOrDctTokenIdentifier::dct(TokenIdentifier::from("ALC-6258d2"));
    assert!(token.is_dct());
    assert!(!token.is_egld());
    assert_eq!(token, TokenIdentifier::from("ALC-6258d2"));
    assert_ne!(token, TokenIdentifier::from("ALC-6258d3"));
    assert_ne!(token, EgldOrDctTokenIdentifier::egld());
}

#[test]
fn parse_takes_the_exact_bytes_for_egld() {
    assert!(EgldOrDctTokenIdentifier::parse(ManagedBuffer::from("EGLD")).is_egld());
    assert!(EgldOrDctTokenIdentifier::parse(ManagedBuffer::from("egld")).is_dct());
    assert!(EgldOrDctTokenIdentifier::parse(ManagedBuffer::from("EGLD ")).is_dct());
    assert!(EgldOrDctTokenIdentifier::parse(ManagedBuffer::from("EGL")).is_dct());
    assert!(EgldOrDctTokenIdentifier::parse(ManagedBuffer::new()).is_dct());
    assert_eq!(
        EgldOrDctTokenIdentifier::parse(ManagedBuffer::from("ALC-6258d2")),
        TokenIdentifier::from("ALC-6258d2")
    );
}

#[test]
fn names() {
    assert_eq!(EgldOrDctTokenIdentifier::egld().into_name(), ManagedBuffer::from("EGLD"));
    assert_eq!(
        EgldOrDctTokenIdentifier::dct(TokenIdentifier::from("ALC-6258d2")).into_name(),
        ManagedBuffer::from("ALC-6258d2")
    );
    assert_eq!(&EgldOrDctTokenIdentifier::EGLD_REPRESENTATION, b"EGLD");
}

#[test]
fn from_an_optional_handle() {
    assert!(EgldOrDctTokenIdentifier::from_opt_raw_handle(None).is_egld());
    assert_eq!(
        EgldOrDctTokenIdentifier::from_opt_raw_handle(Some(ManagedBuffer::from("ALC-6258d2"))),
        TokenIdentifier::from("ALC-6258d2")
    );
    assert!(EgldOrDctTokenIdentifier::from_opt_raw_handle(Some(ManagedBuffer::from("EGLD"))).is_dct());
}

#[test]
fn unwrapping() {
    assert_eq!(
        EgldOrDctTokenIdentifier::egld().unwrap_dct(),
        Err(PaymentError::UnwrapOnNative)
    );
    assert_eq!(
        EgldOrDctTokenIdentifier::dct(TokenIdentifier::from("ALC-6258d2")).unwrap_dct(),
        Ok(TokenIdentifier::from("ALC-6258d2"))
    );
    assert_eq!(EgldOrDctTokenIdentifier::egld().as_dct_option(), None);
    assert_eq!(EgldOrDctTokenIdentifier::egld().into_dct_option(), None);
    let token = EgldOrDctTokenIdentifier::dct(TokenIdentifier::from("ALC-6258d2"));
    assert_eq!(token.as_dct_option(), Some(&TokenIdentifier::from("ALC-6258d2")));
    assert_eq!(token.into_dct_option(), Some(TokenIdentifier::from("ALC-6258d2")));
}

#[test]
fn mapping() {
    let token = EgldOrDctTokenIdentifier::dct(TokenIdentifier::from("ALC-6258d2"));
    assert_eq!(token.map_ref_or_else(|| 0usize, |t| t.as_bytes().len()), 10);
    assert_eq!(token.map_or_else(|| 0usize, |t| t.ticker().len()), 3);
    let egld = EgldOrDctTokenIdentifier::egld();
    assert_eq!(egld.map_ref_or_else(|| 0usize, |t| t.as_bytes().len()), 0);
    assert_eq!(egld.map_or_else(|| 7usize, |t| t.ticker().len()), 7);
}

#[test]
fn tickers_of_short_identifiers_are_empty() {
    assert_eq!(TokenIdentifier::from("").ticker(), ManagedBuffer::new());
    assert_eq!(TokenIdentifier::from("123456").ticker(), ManagedBuffer::new());
    assert_eq!(TokenIdentifier::from("1234567").ticker(), ManagedBuffer::new());
    assert_eq!(TokenIdentifier::from("12345678").ticker(), ManagedBuffer::from("1"));
}

#[test]
fn grammar_edges() {
    assert!(TokenIdentifier::from("ABCDEFGHIJ-0a1b2f").is_valid_dct_identifier());
    assert!(!TokenIdentifier::from("ABCDEFGHIJK-0a1b2f").is_valid_dct_identifier());
    assert!(TokenIdentifier::from("AZ09-abcdef").is_valid_dct_identifier());
    assert!(!TokenIdentifier::from("ALC-6258dg").is_valid_dct_identifier());
    assert!(!TokenIdentifier::from("ALC-6258dz").is_valid_dct_identifier());
    assert!(!TokenIdentifier::from("ALC_6258d2").is_valid_dct_identifier());
    assert!(!TokenIdentifier::from("AL@-6258d2").is_valid_dct_identifier());
    assert!(!TokenIdentifier::from("AL[-6258d2").is_valid_dct_identifier());
    assert!(!TokenIdentifier::from("ALC-/258d2").is_valid_dct_identifier());
    assert!(!TokenIdentifier::from("ALC-:258d2").is_valid_dct_identifier());
    assert!(!TokenIdentifier::from("ALC-`258d2").is_valid_dct_identifier());
    assert!(!TokenIdentifier::from("").is_valid_dct_identifier());
    assert!(!TokenIdentifier::from("EGLD").is_valid_dct_identifier());
}

#[test]
fn no_payment_is_zero_egld() {
    let (token_identifier, token_nonce, amount) = EgldOrDctTokenPayment::no_payment().into_tuple();
    assert!(token_identifier.is_egld());
    assert_eq!(token_nonce, 0);
    assert!(amount.is_zero());
}

#[test]
fn payments_from_their_parts() {
    let payment = EgldOrDctTokenPayment::from((
        EgldOrDctTokenIdentifier::dct(TokenIdentifier::from("ALC-6258d2")),
        4,
        BigUint::from_u64(10),
    ));
    assert_eq!(
        payment,
        EgldOrDctTokenPayment::new(
            EgldOrDctTokenIdentifier::dct(TokenIdentifier::from("ALC-6258d2")),
            4,
            BigUint::from_u64(10)
        )
    );
    assert_eq!(
        payment.clone().unwrap_dct(),
        Ok(DctTokenPayment::new(TokenIdentifier::from("ALC-6258d2"), 4, BigUint::from_u64(10)))
    );
    assert_eq!(
        EgldOrDctTokenPayment::from(DctTokenPayment::new(
            TokenIdentifier::from("ALC-6258d2"),
            4,
            BigUint::from_u64(10)
        )),
        payment
    );
    assert_eq!(
        DctTokenPayment::new(TokenIdentifier::from("ALC-6258d2"), 4, BigUint::from_u64(10)).into_tuple(),
        (TokenIdentifier::from("ALC-6258d2"), 4, BigUint::from_u64(10))
    );
}

#[test]
fn a_payment_in_egld_is_no_payment_in_a_token() {
    assert_eq!(
        EgldOrDctTokenPayment::no_payment().unwrap_dct(),
        Err(PaymentError::UnwrapOnNative)
    );
    assert_eq!(
        EgldOrDctTokenPayment::new(EgldOrDctTokenIdentifier::egld(), 0, BigUint::from_u64(5)).unwrap_dct(),
        Err(PaymentError::UnwrapOnNative)
    );
}

#[test]
fn any_payment_equality() {
    let payment = || DctTokenPayment::new(TokenIdentifier::from("ALC-6258d2"), 0, BigUint::from_u64(1));
    assert_eq!(
        EgldOrMultiDctPayment::Egld(BigUint::from_u64(1)),
        EgldOrMultiDctPayment::Egld(BigUint::from_u64(1))
    );
    assert_ne!(
        EgldOrMultiDctPayment::Egld(BigUint::from_u64(1)),
        EgldOrMultiDctPayment::Egld(BigUint::from_u64(2))
    );
    assert_ne!(
        EgldOrMultiDctPayment::Egld(BigUint::zero()),
        EgldOrMultiDctPayment::MultiDct(vec![])
    );
    assert_eq!(
        EgldOrMultiDctPayment::MultiDct(vec![payment(), payment()]),
        EgldOrMultiDctPayment::MultiDct(vec![payment(), payment()]).clone()
    );
    assert_ne!(
        EgldOrMultiDctPayment::MultiDct(vec![payment()]),
        EgldOrMultiDctPayment::MultiDct(vec![payment(), payment()])
    );
}

#[test]
fn the_one_fungible_payment() {
    let payment = |nonce: u64| DctTokenPayment::new(TokenIdentifier::from("ALC-6258d2"), nonce, BigUint::from_u64(1));
    assert_eq!(
        EgldOrMultiDctPayment::MultiDct(vec![payment(0)]).single_fungible_dct(),
        Ok((TokenIdentifier::from("ALC-6258d2"), BigUint::from_u64(1)))
    );
    assert_eq!(
        EgldOrMultiDctPayment::MultiDct(vec![payment(1)]).single_fungible_dct(),
        Err(PaymentError::PaymentKindMismatch)
    );
    assert_eq!(
        EgldOrMultiDctPayment::MultiDct(vec![]).single_fungible_dct(),
        Err(PaymentError::PaymentKindMismatch)
    );
    assert_eq!(
        EgldOrMultiDctPayment::MultiDct(vec![payment(0), payment(0)]).single_fungible_dct(),
        Err(PaymentError::PaymentKindMismatch)
    );
    assert_eq!(
        EgldOrMultiDctPayment::Egld(BigUint::from_u64(1)).single_fungible_dct(),
        Err(PaymentError::PaymentKindMismatch)
    );
}

#[test]
fn feature_requests() {
    let features = TokenIdentifierFeatures;
    assert!(features.token_identifier_egld().is_egld());
    assert!(features.token_identifier_is_valid_1(EgldOrDctTokenIdentifier::egld()));
    assert!(features.token_identifier_is_valid_1(EgldOrDctTokenIdentifier::dct(
        TokenIdentifier::from("ALC-6258d2")
    )));
    assert!(!features.token_identifier_is_valid_1(EgldOrDctTokenIdentifier::dct(
        TokenIdentifier::from("EGLD")
    )));
    assert!(features.token_identifier_is_valid_2(ManagedBuffer::from("ALC-6258d2")));
    assert!(!features.token_identifier_is_valid_2(ManagedBuffer::from("EGLD")));
}
