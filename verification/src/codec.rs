//! The two binary encodings of a value.
//!
//! The top-level encoding is used where the value is the whole buffer, so it
//! carries no length. The nested encoding is used inside a larger value and
//! tells by itself where it ends: a fixed width, or a length in front.

use crate::big_endian::{
    be_bytes, be_value, lemma_be_bytes_value, lemma_be_value_4, lemma_be_value_8, lemma_be_value_concat_zero,
    lemma_be_value_zeros, lemma_u32_be_bytes_value, lemma_u64_be_bytes_value, u32_be_bytes,
    u64_be_bytes,
};
use crate::big_uint::BigUint;
use crate::error::{DecodeError, EncodeError};
use vstd::prelude::*;
use vstd::slice::slice_subrange;

verus! {

/// A value that has a top-level encoding.
pub trait TopEncode {
    /// Whether the value can be encoded: every length in it fits its field.
    spec fn top_encodable(&self) -> bool;

    /// The bytes of the top-level encoding.
    spec fn top_encoding(&self) -> Seq<u8>;

    /// Encodes the value as a whole buffer.
    fn top_encode(&self) -> (r: Result<Vec<u8>, EncodeError>)
        ensures
            r is Ok <==> self.top_encodable(),
            r is Ok ==> r->Ok_0@ == self.top_encoding(),
    ;
}

/// A value that has a nested encoding.
pub trait NestedEncode {
    /// Whether the value can be encoded: every length in it fits its field.
    spec fn dep_encodable(&self) -> bool;

    /// The bytes of the nested encoding.
    spec fn dep_encoding(&self) -> Seq<u8>;

    /// Appends the nested encoding to `dest`, or leaves `dest` as it was.
    fn dep_encode(&self, dest: &mut Vec<u8>) -> (r: Result<(), EncodeError>)
        ensures
            r is Ok <==> self.dep_encodable(),
            r is Ok ==> final(dest)@ == old(dest)@ + self.dep_encoding(),
            r is Err ==> final(dest)@ == old(dest)@,
    ;
}

/// A value that can be read from a whole buffer.
pub trait TopDecode: Sized + DeepView {
    /// What a buffer holds: the value it decodes to, or why it decodes to none.
    spec fn top_decoding(input: Seq<u8>) -> Result<Self::V, DecodeError>;

    /// Decodes the whole of `input`.
    fn top_decode(input: &[u8]) -> (r: Result<Self, DecodeError>)
        ensures
            match r {
                Ok(value) => Self::top_decoding(input@) == Ok::<Self::V, DecodeError>(
                    value.deep_view(),
                ),
                Err(e) => Self::top_decoding(input@) == Err::<Self::V, DecodeError>(e),
            },
    ;
}

/// A value that can be read from the front of a buffer.
pub trait NestedDecode: Sized + DeepView {
    /// What the front of a buffer holds: the value it decodes to with the
    /// number of bytes that the value takes, or why it decodes to none.
    spec fn dep_decoding(input: Seq<u8>) -> Result<(Self::V, nat), DecodeError>;

    /// Decodes one value from the front of `input`, and says how many bytes
    /// it took: at least one, and no more than there are.
    fn dep_decode(input: &[u8]) -> (r: Result<(Self, usize), DecodeError>)
        ensures
            match r {
                Ok((value, used)) => Self::dep_decoding(input@) == Ok::<
                    (Self::V, nat),
                    DecodeError,
                >((value.deep_view(), used as nat)) && 0 < used <= input@.len(),
                Err(e) => Self::dep_decoding(input@) == Err::<(Self::V, nat), DecodeError>(e),
            },
    ;
}

/// Whether a byte sequence is short enough for the nested encoding.
pub open spec fn bytes_dep_encodable(bytes: Seq<u8>) -> bool {
    bytes.len() <= u32::MAX
}

/// The nested encoding of a byte sequence: its length in four bytes, most
/// significant first, then the bytes.
pub open spec fn bytes_dep_encoding(bytes: Seq<u8>) -> Seq<u8> {
    u32_be_bytes(bytes.len() as u32) + bytes
}

/// The byte sequence at the front of `input` in nested encoding, with the
/// number of bytes it takes.
pub open spec fn bytes_dep_decoding(input: Seq<u8>) -> Result<(Seq<u8>, nat), DecodeError> {
    if input.len() < 4 {
        Err(DecodeError::InputTooShort)
    } else {
        let len = be_value(input.subrange(0, 4));
        if input.len() - 4 < len {
            Err(DecodeError::InputTooShort)
        } else {
            Ok((input.subrange(4, 4 + len as int), 4 + len))
        }
    }
}

/// The number at the front of `input` in eight bytes, most significant first.
pub open spec fn u64_dep_decoding(input: Seq<u8>) -> Result<(u64, nat), DecodeError> {
    if input.len() < 8 {
        Err(DecodeError::InputTooShort)
    } else {
        Ok((be_value(input.subrange(0, 8)) as u64, 8))
    }
}

/// The number that a whole buffer writes, most significant byte first: the
/// buffer has eight bytes at most, and none for zero. Leading zero bytes are
/// accepted.
pub open spec fn u64_top_decoding(input: Seq<u8>) -> Result<u64, DecodeError> {
    if input.len() > 8 {
        Err(DecodeError::InputTooLong)
    } else {
        Ok(be_value(input) as u64)
    }
}

/// What a whole buffer of `len` bytes holds, given what its front holds: the
/// value there, unless bytes are left over after it.
pub open spec fn top_from_dep<V>(front: Result<(V, nat), DecodeError>, len: nat) -> Result<
    V,
    DecodeError,
> {
    match front {
        Ok((value, used)) => if used < len {
            Err(DecodeError::InputTooLong)
        } else {
            Ok(value)
        },
        Err(e) => Err(e),
    }
}

/// Decoding what was encoded gives the byte sequence back, whatever follows.
pub proof fn lemma_bytes_dep_round_trip(bytes: Seq<u8>, rest: Seq<u8>)
    requires
        bytes_dep_encodable(bytes),
    ensures
        bytes_dep_decoding(bytes_dep_encoding(bytes) + rest) == Ok::<
            (Seq<u8>, nat),
            DecodeError,
        >((bytes, 4 + bytes.len())),
        bytes_dep_encoding(bytes).len() == 4 + bytes.len(),
{
    let input = bytes_dep_encoding(bytes) + rest;
    lemma_u32_be_bytes_value(bytes.len() as u32);
    assert(input.subrange(0, 4) =~= u32_be_bytes(bytes.len() as u32));
    assert(input.subrange(4, 4 + bytes.len() as int) =~= bytes);
}

/// Decoding what was encoded gives the number back, whatever follows.
pub proof fn lemma_u64_dep_round_trip(x: u64, rest: Seq<u8>)
    ensures
        u64_dep_decoding(u64_be_bytes(x) + rest) == Ok::<(u64, nat), DecodeError>((x, 8)),
        u64_be_bytes(x).len() == 8,
{
    lemma_u64_be_bytes_value(x);
    assert((u64_be_bytes(x) + rest).subrange(0, 8) =~= u64_be_bytes(x));
}

/// Decoding the top-level encoding of a number gives the number back.
pub proof fn lemma_u64_top_round_trip(x: u64)
    ensures
        u64_top_decoding(be_bytes(x as nat)) == Ok::<u64, DecodeError>(x),
{
    lemma_be_bytes_value(x as nat);
    let n = x as nat;
    let n1 = n / 256;
    let n2 = n1 / 256;
    let n3 = n2 / 256;
    let n4 = n3 / 256;
    let n5 = n4 / 256;
    let n6 = n5 / 256;
    let n7 = n6 / 256;
    let n8 = n7 / 256;
    assert(be_bytes(n8).len() == 0);
    assert(be_bytes(n7).len() <= 1);
    assert(be_bytes(n6).len() <= 2);
    assert(be_bytes(n5).len() <= 3);
    assert(be_bytes(n4).len() <= 4);
    assert(be_bytes(n3).len() <= 5);
    assert(be_bytes(n2).len() <= 6);
    assert(be_bytes(n1).len() <= 7);
}

/// Appends the four bytes of `x`, most significant first.
pub(crate) fn push_u32_be(x: u32, dest: &mut Vec<u8>)
    ensures
        final(dest)@ == old(dest)@ + u32_be_bytes(x),
{
    proof {
        reveal(u32_be_bytes);
    }
    dest.push((x / 0x100_0000) as u8);
    dest.push((x / 0x1_0000 % 256) as u8);
    dest.push((x / 0x100 % 256) as u8);
    dest.push((x % 256) as u8);
}

/// Appends the eight bytes of `x`, most significant first.
pub(crate) fn push_u64_be(x: u64, dest: &mut Vec<u8>)
    ensures
        final(dest)@ == old(dest)@ + u64_be_bytes(x),
{
    push_u32_be((x / 0x1_0000_0000) as u32, dest);
    push_u32_be((x % 0x1_0000_0000) as u32, dest);
}

/// The number that four bytes write, most significant first.
pub(crate) fn u32_from_be(bytes: &[u8]) -> (r: u32)
    requires
        bytes@.len() == 4,
    ensures
        r == be_value(bytes@),
{
    proof {
        lemma_be_value_4(bytes@);
    }
    let b0 = bytes[0] as u32;
    let b1 = bytes[1] as u32;
    let b2 = bytes[2] as u32;
    let b3 = bytes[3] as u32;
    ((b0 * 256 + b1) * 256 + b2) * 256 + b3
}

/// The number that eight bytes write, most significant first.
pub(crate) fn u64_from_be(bytes: &[u8]) -> (r: u64)
    requires
        bytes@.len() == 8,
    ensures
        r == be_value(bytes@),
{
    proof {
        lemma_be_value_8(bytes@);
    }
    let hi = u32_from_be(slice_subrange(bytes, 0, 4)) as u64;
    let lo = u32_from_be(slice_subrange(bytes, 4, 8)) as u64;
    hi * 0x1_0000_0000 + lo
}

/// Appends the nested encoding of `bytes` to `dest`, or leaves `dest` as it
/// was where `bytes` are too many for a four-byte length.
pub(crate) fn dep_encode_bytes(bytes: &[u8], dest: &mut Vec<u8>) -> (r: Result<(), EncodeError>)
    ensures
        r is Ok <==> bytes_dep_encodable(bytes@),
        r is Ok ==> final(dest)@ == old(dest)@ + bytes_dep_encoding(bytes@),
        r is Err ==> final(dest)@ == old(dest)@,
{
    if bytes.len() > u32::MAX as usize {
        return Err(EncodeError::LengthOverflow);
    }
    push_u32_be(bytes.len() as u32, dest);
    dest.extend_from_slice(bytes);
    Ok(())
}

/// Reads a byte sequence in nested encoding from the front of `input`:
/// the bytes, and how many bytes of `input` they took with their length.
pub(crate) fn dep_decode_bytes(input: &[u8]) -> (r: Result<(&[u8], usize), DecodeError>)
    ensures
        match r {
            Ok((bytes, used)) => bytes_dep_decoding(input@) == Ok::<(Seq<u8>, nat), DecodeError>(
                (bytes@, used as nat),
            ) && 0 < used <= input@.len(),
            Err(e) => bytes_dep_decoding(input@) == Err::<(Seq<u8>, nat), DecodeError>(e),
        },
{
    if input.len() < 4 {
        return Err(DecodeError::InputTooShort);
    }
    let len = u32_from_be(slice_subrange(input, 0, 4)) as usize;
    if input.len() - 4 < len {
        return Err(DecodeError::InputTooShort);
    }
    Ok((slice_subrange(input, 4, 4 + len), 4 + len))
}

impl NestedEncode for u64 {
    open spec fn dep_encodable(&self) -> bool {
        true
    }

    open spec fn dep_encoding(&self) -> Seq<u8> {
        u64_be_bytes(*self)
    }

    fn dep_encode(&self, dest: &mut Vec<u8>) -> (r: Result<(), EncodeError>) {
        push_u64_be(*self, dest);
        Ok(())
    }
}

/// At top level a number is written as its shortest big-endian bytes, none
/// for zero.
impl TopEncode for u64 {
    open spec fn top_encodable(&self) -> bool {
        true
    }

    open spec fn top_encoding(&self) -> Seq<u8> {
        be_bytes(*self as nat)
    }

    fn top_encode(&self) -> (r: Result<Vec<u8>, EncodeError>) {
        Ok(BigUint::from_u64(*self).to_bytes_be())
    }
}

impl TopDecode for u64 {
    open spec fn top_decoding(input: Seq<u8>) -> Result<u64, DecodeError> {
        u64_top_decoding(input)
    }

    fn top_decode(input: &[u8]) -> (r: Result<Self, DecodeError>) {
        let len = input.len();
        if len > 8 {
            return Err(DecodeError::InputTooLong);
        }
        let mut padded = [0u8; 8];
        let mut i: usize = 0;
        while i < len
            invariant
                i <= len <= 8,
                len == input@.len(),
                forall|j: int| 0 <= j < 8 - len ==> padded@[j] == 0,
                forall|j: int| 0 <= j < i ==> padded@[8 - len + j] == input@[j],
            decreases len - i,
        {
            padded[8 - len + i] = input[i];
            i += 1;
        }
        proof {
            let zeros = padded@.subrange(0, 8 - len);
            assert(padded@ =~= zeros + input@);
            lemma_be_value_zeros(zeros);
            lemma_be_value_concat_zero(zeros, input@);
            lemma_be_value_8(padded@);
        }
        Ok(u64_from_be(padded.as_slice()))
    }
}

impl NestedDecode for u64 {
    open spec fn dep_decoding(input: Seq<u8>) -> Result<(u64, nat), DecodeError> {
        u64_dep_decoding(input)
    }

    fn dep_decode(input: &[u8]) -> (r: Result<(Self, usize), DecodeError>) {
        if input.len() < 8 {
            return Err(DecodeError::InputTooShort);
        }
        proof {
            lemma_be_value_8(input@.subrange(0, 8));
        }
        Ok((u64_from_be(slice_subrange(input, 0, 8)), 8))
    }
}

/// Whether every value of a list can be encoded.
pub open spec fn seq_dep_encodable<T: NestedEncode>(items: Seq<T>) -> bool {
    forall|i: int| 0 <= i < items.len() ==> (#[trigger] items[i]).dep_encodable()
}

/// The nested encodings of the values of a list, one after the other.
pub open spec fn seq_dep_encoding<T: NestedEncode>(items: Seq<T>) -> Seq<u8>
    decreases items.len(),
{
    if items.len() == 0 {
        Seq::empty()
    } else {
        seq_dep_encoding(items.drop_last()) + items.last().dep_encoding()
    }
}

/// The values that fill a whole buffer, each in nested encoding. A value
/// that would take no byte, or more than are left, ends the reading with
/// `InvalidValue`.
pub open spec fn seq_top_decoding<T: NestedDecode>(input: Seq<u8>) -> Result<
    Seq<T::V>,
    DecodeError,
>
    decreases input.len(),
{
    if input.len() == 0 {
        Ok(Seq::empty())
    } else {
        match T::dep_decoding(input) {
            Err(e) => Err(e),
            Ok((value, used)) => if used == 0 || used > input.len() {
                Err(DecodeError::InvalidValue)
            } else {
                match seq_top_decoding::<T>(input.skip(used as int)) {
                    Err(e) => Err(e),
                    Ok(rest) => Ok(seq![value] + rest),
                }
            },
        }
    }
}

/// The `count` values at the front of `input`, each in nested encoding, with
/// the number of bytes they take together.
pub open spec fn seq_counted_decoding<T: NestedDecode>(input: Seq<u8>, count: nat) -> Result<
    (Seq<T::V>, nat),
    DecodeError,
>
    decreases count,
{
    if count == 0 {
        Ok((Seq::empty(), 0))
    } else {
        match T::dep_decoding(input) {
            Err(e) => Err(e),
            Ok((value, used)) => match seq_counted_decoding::<T>(
                input.skip(used as int),
                (count - 1) as nat,
            ) {
                Err(e) => Err(e),
                Ok((rest, more)) => Ok((seq![value] + rest, used + more)),
            },
        }
    }
}

/// The list at the front of `input` in nested encoding: its count in four
/// bytes, then that many values.
pub open spec fn seq_dep_decoding<T: NestedDecode>(input: Seq<u8>) -> Result<
    (Seq<T::V>, nat),
    DecodeError,
> {
    if input.len() < 4 {
        Err(DecodeError::InputTooShort)
    } else {
        match seq_counted_decoding::<T>(input.skip(4), be_value(input.subrange(0, 4))) {
            Err(e) => Err(e),
            Ok((items, used)) => Ok((items, 4 + used)),
        }
    }
}

/// What was read so far, followed by what the rest of a buffer holds.
pub open spec fn then_all<V>(done: Seq<V>, rest: Result<Seq<V>, DecodeError>) -> Result<
    Seq<V>,
    DecodeError,
> {
    match rest {
        Ok(items) => Ok(done + items),
        Err(e) => Err(e),
    }
}

/// What was read so far from `used` bytes, followed by what the next bytes hold.
pub open spec fn then_counted<V>(
    done: Seq<V>,
    used: nat,
    rest: Result<(Seq<V>, nat), DecodeError>,
) -> Result<(Seq<V>, nat), DecodeError> {
    match rest {
        Ok((items, more)) => Ok((done + items, used + more)),
        Err(e) => Err(e),
    }
}

/// Appends the nested encodings of the values of `items` to `dest`, or leaves
/// `dest` as it was where one of them cannot be encoded.
pub fn dep_encode_items<T: NestedEncode>(items: &Vec<T>, dest: &mut Vec<u8>) -> (r: Result<
    (),
    EncodeError,
>)
    ensures
        r is Ok <==> seq_dep_encodable(items@),
        r is Ok ==> final(dest)@ == old(dest)@ + seq_dep_encoding(items@),
        r is Err ==> final(dest)@ == old(dest)@,
{
    let mut out: Vec<u8> = Vec::new();
    let mut i: usize = 0;
    while i < items.len()
        invariant
            i <= items.len(),
            seq_dep_encodable(items@.take(i as int)),
            out@ == seq_dep_encoding(items@.take(i as int)),
        decreases items.len() - i,
    {
        assert(items@.take(i as int + 1).drop_last() =~= items@.take(i as int));
        if let Err(e) = items[i].dep_encode(&mut out) {
            return Err(e);
        }
        i += 1;
    }
    assert(items@.take(i as int) =~= items@);
    dest.extend_from_slice(out.as_slice());
    Ok(())
}

/// At top level a list is written as its values, each in nested encoding, one
/// after the other, with no count.
impl<T: NestedEncode> TopEncode for Vec<T> {
    open spec fn top_encodable(&self) -> bool {
        seq_dep_encodable(self@)
    }

    open spec fn top_encoding(&self) -> Seq<u8> {
        seq_dep_encoding(self@)
    }

    fn top_encode(&self) -> (r: Result<Vec<u8>, EncodeError>) {
        let mut out: Vec<u8> = Vec::new();
        match dep_encode_items(self, &mut out) {
            Ok(()) => {
                Ok(out)
            },
            Err(e) => Err(e),
        }
    }
}

/// Nested, a list is written as its count in four bytes and then its values.
impl<T: NestedEncode> NestedEncode for Vec<T> {
    open spec fn dep_encodable(&self) -> bool {
        self@.len() <= u32::MAX && seq_dep_encodable(self@)
    }

    open spec fn dep_encoding(&self) -> Seq<u8> {
        u32_be_bytes(self@.len() as u32) + seq_dep_encoding(self@)
    }

    fn dep_encode(&self, dest: &mut Vec<u8>) -> (r: Result<(), EncodeError>) {
        if self.len() > u32::MAX as usize {
            return Err(EncodeError::LengthOverflow);
        }
        let mut out: Vec<u8> = Vec::new();
        push_u32_be(self.len() as u32, &mut out);
        match dep_encode_items(self, &mut out) {
            Ok(()) => {
                dest.extend_from_slice(out.as_slice());
                Ok(())
            },
            Err(e) => Err(e),
        }
    }
}

impl<T: NestedDecode> TopDecode for Vec<T> {
    open spec fn top_decoding(input: Seq<u8>) -> Result<Seq<T::V>, DecodeError> {
        seq_top_decoding::<T>(input)
    }

    fn top_decode(input: &[u8]) -> (r: Result<Self, DecodeError>) {
        let mut out: Vec<T> = Vec::new();
        let mut pos: usize = 0;
        assert(input@.skip(0) =~= input@);
        while pos < input.len()
            invariant
                pos <= input.len(),
                seq_top_decoding::<T>(input@) == then_all(
                    out.deep_view(),
                    seq_top_decoding::<T>(input@.skip(pos as int)),
                ),
            decreases input.len() - pos,
        {
            let rest = slice_subrange(input, pos, input.len());
            match T::dep_decode(rest) {
                Err(e) => { return Err(e); },
                Ok((value, used)) => {
                    let ghost done = out.deep_view();
                    let ghost v = value.deep_view();
                    out.push(value);
                    assert(out.deep_view() =~= done.push(v));
                    assert(rest@.skip(used as int) =~= input@.skip(pos + used));
                    proof {
                        let tail = seq_top_decoding::<T>(input@.skip(pos + used));
                        if tail is Ok {
                            assert(done + (seq![v] + tail->Ok_0) =~= done.push(v) + tail->Ok_0);
                        }
                    }
                    pos += used;
                },
            }
        }
        Ok(out)
    }
}

impl<T: NestedDecode> NestedDecode for Vec<T> {
    open spec fn dep_decoding(input: Seq<u8>) -> Result<(Seq<T::V>, nat), DecodeError> {
        seq_dep_decoding::<T>(input)
    }

    fn dep_decode(input: &[u8]) -> (r: Result<(Self, usize), DecodeError>) {
        if input.len() < 4 {
            return Err(DecodeError::InputTooShort);
        }
        let count = u32_from_be(slice_subrange(input, 0, 4));
        let mut out: Vec<T> = Vec::new();
        let mut pos: usize = 4;
        let mut i: u32 = 0;
        let ghost whole = seq_counted_decoding::<T>(input@.skip(4), count as nat);
        while i < count
            invariant
                4 <= pos <= input.len(),
                i <= count,
                count == be_value(input@.subrange(0, 4)),
                whole == seq_counted_decoding::<T>(input@.skip(4), count as nat),
                whole == then_counted(
                    out.deep_view(),
                    (pos - 4) as nat,
                    seq_counted_decoding::<T>(input@.skip(pos as int), (count - i) as nat),
                ),
            decreases count - i,
        {
            let rest = slice_subrange(input, pos, input.len());
            match T::dep_decode(rest) {
                Err(e) => { return Err(e); },
                Ok((value, used)) => {
                    let ghost done = out.deep_view();
                    let ghost v = value.deep_view();
                    out.push(value);
                    assert(out.deep_view() =~= done.push(v));
                    assert(rest@.skip(used as int) =~= input@.skip(pos + used));
                    proof {
                        let tail = seq_counted_decoding::<T>(
                            input@.skip(pos + used),
                            (count - i - 1) as nat,
                        );
                        if tail is Ok {
                            assert(done + (seq![v] + tail->Ok_0.0) =~= done.push(v)
                                + tail->Ok_0.0);
                        }
                    }
                    pos += used;
                    i += 1;
                },
            }
        }
        Ok((out, pos))
    }
}

} // verus!
