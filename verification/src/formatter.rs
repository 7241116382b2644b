//! Writing values out for reading: as they are, or in hexadecimal.

use vstd::prelude::*;

verus! {

/// A value that can be written out as bytes for reading.
pub trait SCDisplay {
    /// The bytes that are written.
    spec fn display_bytes(&self) -> Seq<u8>;

    /// Appends the value to `f`.
    fn fmt(&self, f: &mut Vec<u8>)
        ensures
            final(f)@ == old(f)@ + self.display_bytes(),
    ;
}

/// A value that can be written out in lower-case hexadecimal.
pub trait SCLowerHex {
    /// The characters that are written.
    spec fn lower_hex_bytes(&self) -> Seq<u8>;

    /// Appends the value in hexadecimal to `f`.
    fn fmt(&self, f: &mut Vec<u8>)
        ensures
            final(f)@ == old(f)@ + self.lower_hex_bytes(),
    ;
}

/// The character of a hexadecimal digit: `0` to `9`, then `a` to `f`.
pub open spec fn hex_digit(digit: u8) -> u8
    recommends
        digit < 16,
{
    if digit < 10 {
        (0x30 + digit) as u8
    } else {
        (0x61 + digit - 10) as u8
    }
}

/// The bytes of `bytes` in lower-case hexadecimal: two characters for each
/// byte, the high half first.
pub open spec fn lower_hex(bytes: Seq<u8>) -> Seq<u8>
    decreases bytes.len(),
{
    if bytes.len() == 0 {
        Seq::empty()
    } else {
        lower_hex(bytes.drop_last()) + seq![
            hex_digit(bytes.last() / 16),
            hex_digit(bytes.last() % 16),
        ]
    }
}

/// The character of the hexadecimal digit `digit`.
fn hex_digit_char(digit: u8) -> (r: u8)
    requires
        digit < 16,
    ensures
        r == hex_digit(digit),
{
    if digit < 10 {
        0x30 + digit
    } else {
        0x61 + digit - 10
    }
}

/// Appends `bytes` to `f` in lower-case hexadecimal.
pub fn append_lower_hex(bytes: &[u8], f: &mut Vec<u8>)
    ensures
        final(f)@ == old(f)@ + lower_hex(bytes@),
{
    let mut i: usize = 0;
    while i < bytes.len()
        invariant
            i <= bytes.len(),
            f@ == old(f)@ + lower_hex(bytes@.take(i as int)),
        decreases bytes.len() - i,
    {
        let byte = bytes[i];
        f.push(hex_digit_char(byte / 16));
        f.push(hex_digit_char(byte % 16));
        assert(bytes@.take(i as int + 1).drop_last() =~= bytes@.take(i as int));
        i += 1;
    }
    assert(bytes@.take(i as int) =~= bytes@);
}

} // verus!
