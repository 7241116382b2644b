use egld_dct_payment::{
    BigUint, DctTokenPayment, DecodeError, EgldOrDctTokenIdentifier, EgldOrDctTokenPayment,
    EgldOrMultiDctPayment, ManagedAddress, ManagedBuffer, NestedDecode,
    NestedEncode, TokenIdentifier, TopDecode, TopEncode,
};

fn nested<T: NestedEncode>(value: &T) -> Vec<u8> {
    let mut out = Vec::new();
    value.dep_encode(&mut out).unwrap();
    out
}

fn sample_payment() -> DctTokenPayment {
    DctTokenPayment::new(TokenIdentifier::from("ALC-6258d2"), 5, BigUint::from_u64(1000))
}

fn sample_payment_bytes() -> Vec<u8> {
    let mut expected = vec![0u8, 0, 0, 10];
    expected.extend_from_slice(b"ALC-6258d2");
    expected.extend_from_slice(&[0, 0, 0, 0, 0, 0, 0, 5]);
    expected.extend_from_slice(&[0, 0, 0, 2, 0x03, 0xe8]);
    expected
}

#[test]
fn identifier_top_level_round_trip() {
    let egld = EgldOrDctTokenIdentifier::egld();
    let bytes = egld.top_encode().unwrap();
    assert_eq!(bytes, b"EGLD".to_vec());
    assert_eq!(EgldOrDctTokenIdentifier::top_decode(&bytes), Ok(EgldOrDctTokenIdentifier::egld()));

    let token = EgldOrDctTokenIdentifier::dct(TokenIdentifier::from("ALC-6258d2"));
    let bytes = token.top_encode().unwrap();
    assert_eq!(bytes, b"ALC-6258d2".to_vec());
    assert_eq!(EgldOrDctTokenIdentifier::top_decode(&bytes), Ok(token));
}

#[test]
fn identifier_decoding_checks_no_grammar() {
    let decoded = EgldOrDctTokenIdentifier::top_decode(b"not a token").unwrap();
    assert!(decoded.is_dct());
    assert!(!decoded.is_valid());
    assert_eq!(decoded.into_name(), ManagedBuffer::from("not a token"));
}

#[test]
fn token_named_egld_is_read_back_as_egld() {
    let token = EgldOrDctTokenIdentifier::dct(TokenIdentifier::from("EGLD"));
    assert!(token.is_dct());
    assert_ne!(token, EgldOrDctTokenIdentifier::egld());
    let bytes = token.top_encode().unwrap();
    assert_eq!(bytes, b"EGLD".to_vec());
    assert_eq!(EgldOrDctTokenIdentifier::top_decode(&bytes), Ok(EgldOrDctTokenIdentifier::egld()));
}

#[test]
fn identifier_nested_encoding_has_a_length() {
    assert_eq!(nested(&EgldOrDctTokenIdentifier::egld()), vec![0, 0, 0, 4, b'E', b'G', b'L', b'D']);
    let mut input = nested(&EgldOrDctTokenIdentifier::dct(TokenIdentifier::from("AB")));
    assert_eq!(input, vec![0, 0, 0, 2, b'A', b'B']);
    input.push(99);
    let (decoded, used) = EgldOrDctTokenIdentifier::dep_decode(&input).unwrap();
    assert_eq!(decoded, TokenIdentifier::from("AB"));
    assert_eq!(used, 6);
}

#[test]
fn buffer_encodings() {
    let buffer = ManagedBuffer::from("abc");
    assert_eq!(buffer.top_encode(), Ok(b"abc".to_vec()));
    assert_eq!(nested(&buffer), vec![0, 0, 0, 3, b'a', b'b', b'c']);
    assert_eq!(ManagedBuffer::top_decode(b"abc"), Ok(ManagedBuffer::from("abc")));
    assert_eq!(
        ManagedBuffer::dep_decode(&[0, 0, 0, 1, 7, 8]),
        Ok((ManagedBuffer::from(vec![7u8]), 5))
    );
    assert_eq!(nested(&ManagedBuffer::new()), vec![0, 0, 0, 0]);
    let long = ManagedBuffer::from(vec![9u8; 0x0102_03]);
    assert_eq!(&nested(&long)[..4], &[0, 1, 2, 3]);
}

#[test]
fn number_encodings() {
    assert_eq!(1000u64.top_encode(), Ok(vec![0x03, 0xe8]));
    assert_eq!(0u64.top_encode(), Ok(vec![]));
    assert_eq!(nested(&1000u64), vec![0, 0, 0, 0, 0, 0, 0x03, 0xe8]);
    assert_eq!(nested(&0x0102_0304_0506_0708u64), vec![1, 2, 3, 4, 5, 6, 7, 8]);
    assert_eq!(u64::dep_decode(&[1, 2, 3, 4, 5, 6, 7, 8, 9]), Ok((0x0102_0304_0506_0708u64, 8)));
    assert_eq!(u64::dep_decode(&[0xff; 8]), Ok((u64::MAX, 8)));
    assert_eq!(u64::dep_decode(&[1, 2, 3, 4, 5, 6, 7]), Err(DecodeError::InputTooShort));

    let amount = BigUint::from_u64(1000);
    assert_eq!(amount.top_encode(), Ok(vec![0x03, 0xe8]));
    assert_eq!(nested(&amount), vec![0, 0, 0, 2, 0x03, 0xe8]);
    assert_eq!(nested(&BigUint::zero()), vec![0, 0, 0, 0]);
    assert_eq!(BigUint::top_decode(&[0, 0x03, 0xe8]), Ok(BigUint::from_u64(1000)));
    assert_eq!(BigUint::dep_decode(&[0, 0, 0, 2, 0x03, 0xe8, 1]), Ok((BigUint::from_u64(1000), 6)));
    assert_eq!(BigUint::dep_decode(&[0, 0, 0, 2, 0x03]), Err(DecodeError::InputTooShort));
}

#[test]
fn address_encodings() {
    let mut bytes = [0u8; 32];
    bytes[0] = 1;
    bytes[31] = 2;
    let address = ManagedAddress::new_from_bytes(&bytes);
    assert_eq!(address.top_encode(), Ok(bytes.to_vec()));
    assert_eq!(nested(&address), bytes.to_vec());
    assert_eq!(ManagedAddress::top_decode(&bytes), Ok(address));
    assert_eq!(ManagedAddress::top_decode(&bytes[..31]), Err(DecodeError::InputTooShort));
    let mut longer = bytes.to_vec();
    longer.push(0);
    assert_eq!(ManagedAddress::top_decode(&longer), Err(DecodeError::InputTooLong));
    assert_eq!(ManagedAddress::dep_decode(&longer), Ok((address, 32)));
    assert_eq!(ManagedAddress::dep_decode(&bytes[..31]), Err(DecodeError::InputTooShort));
    assert_eq!(ManagedAddress::zero().to_byte_array(), [0u8; 32]);
    assert_eq!(ManagedAddress::try_from_slice(&bytes), Some(address));
    assert_eq!(ManagedAddress::try_from_slice(&bytes[1..]), None);
}

#[test]
fn token_payment_encoding_is_its_fields_in_order() {
    let payment = sample_payment();
    assert_eq!(payment.top_encode(), Ok(sample_payment_bytes()));
    assert_eq!(nested(&payment), sample_payment_bytes());
    assert_eq!(DctTokenPayment::top_decode(&sample_payment_bytes()), Ok(sample_payment()));
    let mut longer = sample_payment_bytes();
    longer.push(0);
    assert_eq!(DctTokenPayment::dep_decode(&longer), Ok((sample_payment(), 28)));
    assert_eq!(DctTokenPayment::top_decode(&longer), Err(DecodeError::InputTooLong));
}

#[test]
fn token_payment_decoding_fails_on_short_input() {
    let bytes = sample_payment_bytes();
    for cut in 0..bytes.len() {
        assert_eq!(DctTokenPayment::top_decode(&bytes[..cut]), Err(DecodeError::InputTooShort));
        assert_eq!(DctTokenPayment::dep_decode(&bytes[..cut]), Err(DecodeError::InputTooShort));
    }
}

#[test]
fn egld_or_token_payment_encoding_has_no_tag() {
    let no_payment = EgldOrDctTokenPayment::no_payment();
    let expected = vec![0, 0, 0, 4, b'E', b'G', b'L', b'D', 0, 0, 0, 0, 0, 0, 0, 0, 0, 0, 0, 0];
    assert_eq!(no_payment.top_encode(), Ok(expected.clone()));
    assert_eq!(nested(&no_payment), expected);
    assert_eq!(EgldOrDctTokenPayment::top_decode(&expected), Ok(EgldOrDctTokenPayment::no_payment()));

    let in_token = EgldOrDctTokenPayment::from(sample_payment());
    assert_eq!(in_token.top_encode(), Ok(sample_payment_bytes()));
    assert_eq!(EgldOrDctTokenPayment::top_decode(&sample_payment_bytes()), Ok(in_token));
    let mut longer = sample_payment_bytes();
    longer.push(1);
    assert_eq!(EgldOrDctTokenPayment::top_decode(&longer), Err(DecodeError::InputTooLong));
    assert_eq!(
        EgldOrDctTokenPayment::dep_decode(&longer),
        Ok((EgldOrDctTokenPayment::from(sample_payment()), 28))
    );
    assert_eq!(
        EgldOrDctTokenPayment::top_decode(&sample_payment_bytes()[..27]),
        Err(DecodeError::InputTooShort)
    );
}

#[test]
fn any_payment_encoding_starts_with_the_kind() {
    let egld = EgldOrMultiDctPayment::Egld(BigUint::from_u64(1000));
    let expected = vec![0, 0, 0, 0, 2, 0x03, 0xe8];
    assert_eq!(egld.top_encode(), Ok(expected.clone()));
    assert_eq!(nested(&egld), expected);
    assert_eq!(EgldOrMultiDctPayment::top_decode(&expected), Ok(egld));

    let tokens = EgldOrMultiDctPayment::MultiDct(vec![sample_payment(), sample_payment()]);
    let mut expected = vec![1, 0, 0, 0, 2];
    expected.extend_from_slice(&sample_payment_bytes());
    expected.extend_from_slice(&sample_payment_bytes());
    assert_eq!(tokens.top_encode(), Ok(expected.clone()));
    assert_eq!(nested(&tokens), expected);
    assert_eq!(EgldOrMultiDctPayment::top_decode(&expected), Ok(tokens));

    let none = EgldOrMultiDctPayment::MultiDct(vec![]);
    assert_eq!(none.top_encode(), Ok(vec![1, 0, 0, 0, 0]));
    assert_eq!(EgldOrMultiDctPayment::top_decode(&[1, 0, 0, 0, 0]), Ok(none));
}

#[test]
fn any_payment_decoding_errors() {
    assert_eq!(EgldOrMultiDctPayment::top_decode(&[]), Err(DecodeError::InputTooShort));
    assert_eq!(EgldOrMultiDctPayment::top_decode(&[2, 0, 0, 0, 0]), Err(DecodeError::InvalidValue));
    assert_eq!(EgldOrMultiDctPayment::top_decode(&[0, 0, 0, 0]), Err(DecodeError::InputTooShort));
    assert_eq!(EgldOrMultiDctPayment::top_decode(&[1, 0, 0, 0]), Err(DecodeError::InputTooShort));
    assert_eq!(EgldOrMultiDctPayment::top_decode(&[1, 0, 0, 0, 1]), Err(DecodeError::InputTooShort));
    assert_eq!(
        EgldOrMultiDctPayment::top_decode(&[0, 0, 0, 0, 0, 7]),
        Err(DecodeError::InputTooLong)
    );
    assert_eq!(
        EgldOrMultiDctPayment::dep_decode(&[0, 0, 0, 0, 0, 7]),
        Ok((EgldOrMultiDctPayment::Egld(BigUint::zero()), 5))
    );
}

#[test]
fn lists_at_top_level_have_no_count() {
    let list = vec![sample_payment(), sample_payment()];
    let mut expected = sample_payment_bytes();
    expected.extend_from_slice(&sample_payment_bytes());
    assert_eq!(list.top_encode(), Ok(expected.clone()));
    assert_eq!(Vec::<DctTokenPayment>::top_decode(&expected), Ok(list));
    assert_eq!(Vec::<DctTokenPayment>::top_decode(&[]), Ok(vec![]));
    assert_eq!(
        Vec::<DctTokenPayment>::top_decode(&expected[..30]),
        Err(DecodeError::InputTooShort)
    );
    assert_eq!(
        Vec::<u64>::top_decode(&[0, 0, 0, 0, 0, 0, 0, 1, 0, 0, 0, 0, 0, 0, 0, 2]),
        Ok(vec![1u64, 2])
    );
}

#[test]
fn nested_lists_have_a_count() {
    let list = vec![1u64, 2];
    assert_eq!(nested(&list), vec![0, 0, 0, 2, 0, 0, 0, 0, 0, 0, 0, 1, 0, 0, 0, 0, 0, 0, 0, 2]);
    assert_eq!(
        Vec::<u64>::dep_decode(&[0, 0, 0, 1, 0, 0, 0, 0, 0, 0, 0, 9, 5]),
        Ok((vec![9u64], 12))
    );
    assert_eq!(Vec::<u64>::dep_decode(&[0, 0, 0, 0, 5]), Ok((vec![], 4)));
    assert_eq!(Vec::<u64>::dep_decode(&[0, 0, 0]), Err(DecodeError::InputTooShort));
    assert_eq!(
        Vec::<u64>::dep_decode(&[0, 0, 0, 2, 0, 0, 0, 0, 0, 0, 0, 9]),
        Err(DecodeError::InputTooShort)
    );
}

#[test]
fn encoding_appends_to_what_is_there() {
    let mut out = vec![1u8, 2, 3];
    sample_payment().dep_encode(&mut out).unwrap();
    assert_eq!(&out[..3], &[1, 2, 3]);
    assert_eq!(&out[3..], sample_payment_bytes().as_slice());
}

#[test]
fn numbers_at_top_level() {
    assert_eq!(u64::top_decode(&[]), Ok(0));
    assert_eq!(u64::top_decode(&[0x03, 0xe8]), Ok(1000));
    assert_eq!(u64::top_decode(&[0, 0, 0x03, 0xe8]), Ok(1000));
    assert_eq!(u64::top_decode(&[0xff; 8]), Ok(u64::MAX));
    assert_eq!(u64::top_decode(&[1, 2, 3, 4, 5, 6, 7, 8]), Ok(0x0102_0304_0506_0708));
    assert_eq!(u64::top_decode(&[0, 1, 2, 3, 4, 5, 6, 7, 8]), Err(DecodeError::InputTooLong));
    assert_eq!(u64::top_decode(&u64::MAX.top_encode().unwrap()), Ok(u64::MAX));
}
