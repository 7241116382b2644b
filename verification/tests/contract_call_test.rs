use egld_dct_payment::{
    BigUint, ContractCall, ContractCallNoPayment, ContractCallWithAnyPayment,
    ContractCallWithEgld, ContractCallWithEgldOrSingleDct, ContractCallWithMultiDct,
    ContractCallWithSingleDct, DctTokenPayment, DirectTransfer, EgldOrDctTokenIdentifier,
    EgldOrDctTokenPayment, EgldOrMultiDctPayment, ManagedAddress, ManagedArgBuffer,
    ManagedBuffer, PaymentError, TokenIdentifier,
};

fn destination() -> ManagedAddress {
    ManagedAddress::new_from_bytes(&[7u8; 32])
}

fn own_address() -> ManagedAddress {
    ManagedAddress::new_from_bytes(&[9u8; 32])
}

fn basic_call() -> ContractCallNoPayment {
    let mut call = ContractCallNoPayment::new(destination(), ManagedBuffer::from("deposit"));
    call.push_raw_argument(ManagedBuffer::from("first"));
    call.push_raw_argument(ManagedBuffer::from(vec![1u8, 2]));
    call
}

fn args(list: &[&[u8]]) -> ManagedArgBuffer {
    let mut buffer = ManagedArgBuffer::new();
    for arg in list {
        buffer.push_arg_raw(ManagedBuffer::from(*arg));
    }
    buffer
}

fn expected_call(to: ManagedAddress, endpoint: &str, list: &[&[u8]], egld: u64) -> ContractCallWithEgld {
    ContractCallWithEgld {
        basic: ContractCallNoPayment {
            to,
            endpoint_name: ManagedBuffer::from(endpoint),
            arg_buffer: args(list),
        },
        egld_payment: BigUint::from_u64(egld),
    }
}

fn fungible(amount: u64) -> DctTokenPayment {
    DctTokenPayment::new(TokenIdentifier::from("ALC-6258d2"), 0, BigUint::from_u64(amount))
}

fn instance(nonce: u64, amount: u64) -> DctTokenPayment {
    DctTokenPayment::new(TokenIdentifier::from("NFT-123456"), nonce, BigUint::from_u64(amount))
}

#[test]
fn no_payment_is_normalized_to_zero_egld() {
    assert_eq!(
        basic_call().into_normalized(&own_address()),
        expected_call(destination(), "deposit", &[b"first", &[1, 2]], 0)
    );
}

#[test]
fn egld_payment_is_canonical_already() {
    let call = basic_call().with_egld_transfer(BigUint::from_u64(500));
    assert_eq!(
        call.into_normalized(&own_address()),
        expected_call(destination(), "deposit", &[b"first", &[1, 2]], 500)
    );
    let made = ContractCallWithEgld::new(destination(), ManagedBuffer::from("x"), BigUint::from_u64(3));
    assert_eq!(
        made.into_normalized(&own_address()),
        expected_call(destination(), "x", &[], 3)
    );
}

#[test]
fn fungible_token_becomes_a_transfer_call_to_the_destination() {
    let call = basic_call().with_single_dct_transfer(fungible(1000));
    assert_eq!(
        call.into_normalized(&own_address()),
        expected_call(
            destination(),
            "DCTTransfer",
            &[b"ALC-6258d2", &[0x03, 0xe8], b"deposit", b"first", &[1, 2]],
            0
        )
    );
}

#[test]
fn token_instance_becomes_a_transfer_call_to_oneself() {
    let call = ContractCallWithSingleDct {
        basic: basic_call(),
        payment: instance(5, 1),
    };
    assert_eq!(
        call.into_normalized(&own_address()),
        expected_call(
            own_address(),
            "DCTNFTTransfer",
            &[b"NFT-123456", &[5], &[1], &[7u8; 32], b"deposit", b"first", &[1, 2]],
            0
        )
    );
}

#[test]
fn zero_amount_of_a_token_is_normalized_like_any_other() {
    let call = ContractCallWithSingleDct::new(destination(), ManagedBuffer::from("deposit"), fungible(0));
    assert_eq!(
        call.into_normalized(&own_address()),
        expected_call(destination(), "DCTTransfer", &[b"ALC-6258d2", &[], b"deposit"], 0)
    );
}

#[test]
fn a_call_without_endpoint_hands_on_no_endpoint() {
    let call = ContractCallWithSingleDct::new(destination(), ManagedBuffer::new(), fungible(1));
    assert_eq!(
        call.into_normalized(&own_address()),
        expected_call(destination(), "DCTTransfer", &[b"ALC-6258d2", &[1]], 0)
    );
    let list = ContractCallWithMultiDct::new(destination(), ManagedBuffer::new(), vec![fungible(1)]);
    assert_eq!(
        list.into_normalized(&own_address()),
        expected_call(
            own_address(),
            "MultiDCTNFTTransfer",
            &[&[7u8; 32], &[1], b"ALC-6258d2", &[], &[1]],
            0
        )
    );
}

#[test]
fn list_of_tokens_becomes_a_multi_transfer_call() {
    let call = basic_call()
        .with_multi_token_transfer(vec![fungible(1000)])
        .with_dct_transfer(instance(5, 1));
    assert_eq!(
        call.into_normalized(&own_address()),
        expected_call(
            own_address(),
            "MultiDCTNFTTransfer",
            &[
                &[7u8; 32],
                &[2],
                b"ALC-6258d2",
                &[],
                &[0x03, 0xe8],
                b"NFT-123456",
                &[5],
                &[1],
                b"deposit",
                b"first",
                &[1, 2]
            ],
            0
        )
    );
}

#[test]
fn empty_list_of_tokens_is_normalized_to_an_empty_multi_transfer() {
    let call = ContractCallWithMultiDct::new(destination(), ManagedBuffer::from("deposit"), vec![]);
    let normalized = call.into_normalized(&own_address());
    assert!(normalized.egld_payment.is_zero());
    assert_eq!(
        normalized,
        expected_call(own_address(), "MultiDCTNFTTransfer", &[&[7u8; 32], &[], b"deposit"], 0)
    );

    let any = ContractCallWithAnyPayment::new(
        destination(),
        ManagedBuffer::from("deposit"),
        EgldOrMultiDctPayment::MultiDct(vec![]),
    );
    assert_eq!(
        any.into_normalized(&own_address()),
        expected_call(own_address(), "MultiDCTNFTTransfer", &[&[7u8; 32], &[], b"deposit"], 0)
    );
}

#[test]
fn egld_or_single_token_follows_its_identifier() {
    let egld = ContractCallWithEgldOrSingleDct::new(
        destination(),
        ManagedBuffer::from("deposit"),
        EgldOrDctTokenIdentifier::egld(),
        0,
        BigUint::from_u64(500),
    );
    assert_eq!(
        egld.into_normalized(&own_address()),
        expected_call(destination(), "deposit", &[], 500)
    );

    let token = ContractCallWithEgldOrSingleDct::new(
        destination(),
        ManagedBuffer::from("deposit"),
        EgldOrDctTokenIdentifier::dct(TokenIdentifier::from("ALC-6258d2")),
        0,
        BigUint::from_u64(1000),
    );
    assert_eq!(
        token.into_normalized(&own_address()),
        expected_call(
            destination(),
            "DCTTransfer",
            &[b"ALC-6258d2", &[0x03, 0xe8], b"deposit"],
            0
        )
    );

    let one_instance = basic_call().with_egld_or_single_dct_transfer(EgldOrDctTokenPayment::from(instance(5, 1)));
    assert_eq!(
        one_instance.into_normalized(&own_address()),
        expected_call(
            own_address(),
            "DCTNFTTransfer",
            &[b"NFT-123456", &[5], &[1], &[7u8; 32], b"deposit", b"first", &[1, 2]],
            0
        )
    );
}

#[test]
fn the_two_halves_of_egld_or_single_token() {
    let egld = || {
        ContractCallWithEgldOrSingleDct::new(
            destination(),
            ManagedBuffer::from("deposit"),
            EgldOrDctTokenIdentifier::egld(),
            0,
            BigUint::from_u64(500),
        )
    };
    let token = || {
        ContractCallWithEgldOrSingleDct::new(
            destination(),
            ManagedBuffer::from("deposit"),
            EgldOrDctTokenIdentifier::dct(TokenIdentifier::from("ALC-6258d2")),
            0,
            BigUint::from_u64(1000),
        )
    };
    assert_eq!(
        egld().into_normalized_egld(),
        expected_call(destination(), "deposit", &[], 500)
    );
    assert_eq!(
        token().into_normalized_egld(),
        expected_call(destination(), "deposit", &[], 1000)
    );
    assert_eq!(
        egld().into_normalized_dct(&own_address()),
        Err(PaymentError::UnwrapOnNative)
    );
    assert_eq!(
        token().into_normalized_dct(&own_address()),
        Ok(expected_call(
            destination(),
            "DCTTransfer",
            &[b"ALC-6258d2", &[0x03, 0xe8], b"deposit"],
            0
        ))
    );
}

#[test]
fn any_payment_follows_its_kind() {
    let egld = basic_call().with_any_payment(EgldOrMultiDctPayment::Egld(BigUint::from_u64(500)));
    assert_eq!(
        egld.into_normalized(&own_address()),
        expected_call(destination(), "deposit", &[b"first", &[1, 2]], 500)
    );
    let tokens = ContractCallWithAnyPayment::new(
        destination(),
        ManagedBuffer::from("deposit"),
        EgldOrMultiDctPayment::MultiDct(vec![fungible(1000)]),
    );
    assert_eq!(
        tokens.into_normalized(&own_address()),
        expected_call(
            own_address(),
            "MultiDCTNFTTransfer",
            &[&[7u8; 32], &[1], b"ALC-6258d2", &[], &[0x03, 0xe8], b"deposit"],
            0
        )
    );
}

#[test]
fn normalizing_a_clone_gives_the_same_call() {
    let call = ContractCallWithEgldOrSingleDct::new(
        destination(),
        ManagedBuffer::from("deposit"),
        EgldOrDctTokenIdentifier::dct(TokenIdentifier::from("ALC-6258d2")),
        3,
        BigUint::from_u64(1000),
    );
    let copy = call.clone();
    assert_eq!(call.into_normalized(&own_address()), copy.into_normalized(&own_address()));

    let any = ContractCallWithAnyPayment::new(
        destination(),
        ManagedBuffer::from("deposit"),
        EgldOrMultiDctPayment::MultiDct(vec![fungible(1), instance(2, 3)]),
    );
    let copy = any.clone();
    assert_eq!(any.into_normalized(&own_address()), copy.into_normalized(&own_address()));

    let list = ContractCallWithMultiDct::new(destination(), ManagedBuffer::new(), vec![fungible(1)]);
    let copy = list.clone();
    assert_eq!(list.transfer_execute(), copy.transfer_execute());

    let single = ContractCallWithSingleDct::new(destination(), ManagedBuffer::new(), fungible(1));
    let copy = single.clone();
    assert_eq!(single.into_normalized(&own_address()), copy.into_normalized(&own_address()));

    let normalized = basic_call().into_normalized(&own_address());
    let copy = normalized.clone();
    assert_eq!(normalized.clone().into_normalized(&own_address()), copy);
}

#[test]
fn transfer_of_zero_egld_is_a_transfer_of_egld() {
    let call = ContractCallWithEgldOrSingleDct::new(
        destination(),
        ManagedBuffer::from("deposit"),
        EgldOrDctTokenIdentifier::egld(),
        0,
        BigUint::zero(),
    );
    assert_eq!(
        call.transfer_execute(),
        DirectTransfer::Egld {
            call: ContractCallNoPayment::new(destination(), ManagedBuffer::from("deposit")),
            amount: BigUint::zero(),
        }
    );
}

#[test]
fn transfers_follow_the_kind_of_payment() {
    assert_eq!(
        basic_call().transfer_execute(),
        DirectTransfer::Egld { call: basic_call(), amount: BigUint::zero() }
    );
    assert_eq!(
        basic_call().with_egld_transfer(BigUint::from_u64(5)).transfer_execute(),
        DirectTransfer::Egld { call: basic_call(), amount: BigUint::from_u64(5) }
    );
    assert_eq!(
        basic_call().with_single_dct_transfer(instance(5, 1)).transfer_execute(),
        DirectTransfer::SingleDct { call: basic_call(), payment: instance(5, 1) }
    );
    assert_eq!(
        basic_call().with_multi_token_transfer(vec![fungible(1)]).transfer_execute(),
        DirectTransfer::MultiDct { call: basic_call(), payments: vec![fungible(1)] }
    );
    assert_eq!(
        basic_call().with_multi_token_transfer(vec![]).transfer_execute(),
        DirectTransfer::MultiDct { call: basic_call(), payments: vec![] }
    );
    assert_eq!(
        basic_call()
            .with_egld_or_single_dct_transfer(EgldOrDctTokenPayment::from(fungible(2)))
            .transfer_execute(),
        DirectTransfer::SingleDct { call: basic_call(), payment: fungible(2) }
    );
    assert_eq!(
        basic_call()
            .with_any_payment(EgldOrMultiDctPayment::Egld(BigUint::from_u64(8)))
            .transfer_execute(),
        DirectTransfer::Egld { call: basic_call(), amount: BigUint::from_u64(8) }
    );
    assert_eq!(
        basic_call()
            .with_any_payment(EgldOrMultiDctPayment::MultiDct(vec![fungible(1), fungible(2)]))
            .transfer_execute(),
        DirectTransfer::MultiDct { call: basic_call(), payments: vec![fungible(1), fungible(2)] }
    );
    assert_ne!(
        basic_call().transfer_execute(),
        DirectTransfer::MultiDct { call: basic_call(), payments: vec![] }
    );
}

#[test]
fn the_call_can_be_changed_in_place() {
    let mut call = ContractCallWithAnyPayment::new(
        destination(),
        ManagedBuffer::from("deposit"),
        EgldOrMultiDctPayment::Egld(BigUint::from_u64(500)),
    );
    call.get_mut_basic().push_raw_argument(ManagedBuffer::from("late"));
    assert_eq!(
        call.into_normalized(&own_address()),
        expected_call(destination(), "deposit", &[b"late"], 500)
    );

    let mut single = ContractCallWithEgldOrSingleDct::new(
        destination(),
        ManagedBuffer::from("deposit"),
        EgldOrDctTokenIdentifier::egld(),
        0,
        BigUint::from_u64(1),
    );
    single.get_mut_basic().endpoint_name = ManagedBuffer::from("other");
    assert_eq!(
        single.into_normalized(&own_address()),
        expected_call(destination(), "other", &[], 1)
    );
}

#[test]
fn argument_buffers() {
    let mut buffer = ManagedArgBuffer::new();
    assert!(buffer.is_empty());
    buffer.push_arg(&BigUint::from_u64(1000)).unwrap();
    buffer.push_arg(&TokenIdentifier::from("ALC-6258d2")).unwrap();
    buffer.push_arg(&0u64).unwrap();
    buffer.push_arg(&fungible(1)).unwrap();
    assert_eq!(buffer.len(), 4);
    assert_eq!(buffer.get(0), &ManagedBuffer::from(vec![0x03u8, 0xe8]));
    assert_eq!(buffer.get(1), &ManagedBuffer::from("ALC-6258d2"));
    assert_eq!(buffer.try_get(2), Some(&ManagedBuffer::new()));
    assert_eq!(buffer.try_get(4), None);
    let joined = buffer.clone().concat(args(&[b"x"]));
    assert_eq!(joined.len(), 5);
    assert_eq!(joined.get(4), &ManagedBuffer::from("x"));
    assert_eq!(joined.get(0), buffer.get(0));
    assert_ne!(joined, buffer);
    assert_eq!(buffer.clone(), buffer);
}
