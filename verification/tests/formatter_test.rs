use egld_dct_payment::{
    EgldOrDctTokenIdentifier, ManagedBuffer, SCDisplay, SCLowerHex, TokenIdentifier,
};

#[test]
fn identifiers_are_written_as_their_names() {
    let mut out = b"id: ".to_vec();
    SCDisplay::fmt(&EgldOrDctTokenIdentifier::egld(), &mut out);
    assert_eq!(out, b"id: EGLD".to_vec());
    let mut out = Vec::new();
    SCDisplay::fmt(&EgldOrDctTokenIdentifier::dct(TokenIdentifier::from("ALC-6258d2")), &mut out);
    assert_eq!(out, b"ALC-6258d2".to_vec());
    let mut out = Vec::new();
    SCDisplay::fmt(&TokenIdentifier::from("ALC-6258d2"), &mut out);
    SCDisplay::fmt(&ManagedBuffer::from("!"), &mut out);
    assert_eq!(out, b"ALC-6258d2!".to_vec());
}

#[test]
fn identifiers_in_hexadecimal() {
    let mut out = b"0x".to_vec();
    SCLowerHex::fmt(&EgldOrDctTokenIdentifier::egld(), &mut out);
    assert_eq!(out, b"0x45474C44".to_vec());
    let mut out = Vec::new();
    SCLowerHex::fmt(&EgldOrDctTokenIdentifier::dct(TokenIdentifier::from("EGLD")), &mut out);
    assert_eq!(out, b"45474c44".to_vec());
    let mut out = Vec::new();
    SCLowerHex::fmt(&TokenIdentifier::from("ALC-6258d2"), &mut out);
    assert_eq!(out, b"414c432d363235386432".to_vec());
    let mut out = Vec::new();
    SCLowerHex::fmt(&ManagedBuffer::from(vec![0x00u8, 0x09, 0x0a, 0x0f, 0x10, 0x9f, 0xa0, 0xff]), &mut out);
    assert_eq!(out, b"00090a0f109fa0ff".to_vec());
    let mut out = vec![1u8];
    SCLowerHex::fmt(&ManagedBuffer::new(), &mut out);
    assert_eq!(out, vec![1u8]);
}
