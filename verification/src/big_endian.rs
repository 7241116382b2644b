//! Big-endian numbers: the value of a byte sequence, the shortest byte
//! sequence of a value, and fixed-width forms of four and eight bytes.

use vstd::prelude::*;

verus! {

/// The number that `s` writes in base 256, most significant byte first.
pub open spec fn be_value(s: Seq<u8>) -> nat
    decreases s.len(),
{
    if s.len() == 0 {
        0
    } else {
        be_value(s.drop_last()) * 256 + s.last() as nat
    }
}

/// The shortest big-endian byte sequence whose value is `n`; empty for zero.
pub open spec fn be_bytes(n: nat) -> Seq<u8>
    decreases n,
{
    if n == 0 {
        Seq::empty()
    } else {
        be_bytes(n / 256).push((n % 256) as u8)
    }
}

/// No leading zero byte.
pub open spec fn is_minimal(s: Seq<u8>) -> bool {
    s.len() == 0 || s[0] != 0
}

/// `s` without its leading zero bytes.
pub open spec fn strip_leading_zeros(s: Seq<u8>) -> Seq<u8>
    decreases s.len(),
{
    if s.len() > 0 && s[0] == 0 {
        strip_leading_zeros(s.skip(1))
    } else {
        s
    }
}

/// The four bytes of `x`, most significant first.
#[verifier::opaque]
pub open spec fn u32_be_bytes(x: u32) -> Seq<u8> {
    seq![
        (x / 0x100_0000) as u8,
        (x / 0x1_0000 % 256) as u8,
        (x / 0x100 % 256) as u8,
        (x % 256) as u8,
    ]
}

/// The eight bytes of `x`, most significant first.
pub open spec fn u64_be_bytes(x: u64) -> Seq<u8> {
    u32_be_bytes((x / 0x1_0000_0000) as u32) + u32_be_bytes((x % 0x1_0000_0000) as u32)
}

/// The value of a sequence with one more byte at its end.
pub proof fn lemma_be_value_push(s: Seq<u8>, b: u8)
    ensures
        be_value(s.push(b)) == be_value(s) * 256 + b as nat,
{
    assert(s.push(b).drop_last() =~= s);
}

/// A sequence of value zero in front of another does not change its value.
pub proof fn lemma_be_value_concat_zero(a: Seq<u8>, b: Seq<u8>)
    requires
        be_value(a) == 0,
    ensures
        be_value(a + b) == be_value(b),
    decreases b.len(),
{
    if b.len() > 0 {
        assert((a + b).drop_last() =~= a + b.drop_last());
        lemma_be_value_concat_zero(a, b.drop_last());
    }
}

/// A sequence of zero bytes writes zero.
pub proof fn lemma_be_value_zeros(s: Seq<u8>)
    requires
        forall|i: int| 0 <= i < s.len() ==> s[i] == 0,
    ensures
        be_value(s) == 0,
    decreases s.len(),
{
    if s.len() > 0 {
        lemma_be_value_zeros(s.drop_last());
    }
}

/// Leading zero bytes do not change the value.
pub proof fn lemma_strip_leading_zeros(s: Seq<u8>)
    ensures
        is_minimal(strip_leading_zeros(s)),
        be_value(strip_leading_zeros(s)) == be_value(s),
        strip_leading_zeros(s).len() <= s.len(),
        is_minimal(s) ==> strip_leading_zeros(s) == s,
    decreases s.len(),
{
    if s.len() > 0 && s[0] == 0 {
        lemma_strip_leading_zeros(s.skip(1));
        let z = seq![0u8];
        assert(be_value(z.drop_last()) == 0);
        assert(z + s.skip(1) =~= s);
        lemma_be_value_concat_zero(z, s.skip(1));
    }
}

/// `be_bytes` writes `n`, and without a leading zero.
pub proof fn lemma_be_bytes_value(n: nat)
    ensures
        be_value(be_bytes(n)) == n,
        is_minimal(be_bytes(n)),
        n > 0 ==> be_bytes(n).len() > 0,
    decreases n,
{
    if n > 0 {
        lemma_be_bytes_value(n / 256);
        lemma_be_value_push(be_bytes(n / 256), (n % 256) as u8);
    }
}

/// A sequence without a leading zero is the shortest one of its value.
pub proof fn lemma_be_bytes_of_minimal(s: Seq<u8>)
    requires
        is_minimal(s),
    ensures
        be_bytes(be_value(s)) == s,
    decreases s.len(),
{
    if s.len() > 0 {
        lemma_be_bytes_of_minimal(s.drop_last());
        lemma_minimal_positive(s);
    }
}

/// A non-empty sequence without a leading zero has a positive value.
pub proof fn lemma_minimal_positive(s: Seq<u8>)
    requires
        is_minimal(s),
        s.len() > 0,
    ensures
        be_value(s) > 0,
    decreases s.len(),
{
    let t = s.drop_last();
    if t.len() > 0 {
        lemma_minimal_positive(t);
    }
}

/// Two sequences without leading zeros that write the same number are equal.
pub proof fn lemma_minimal_injective(a: Seq<u8>, b: Seq<u8>)
    requires
        is_minimal(a),
        is_minimal(b),
        be_value(a) == be_value(b),
    ensures
        a == b,
{
    lemma_be_bytes_of_minimal(a);
    lemma_be_bytes_of_minimal(b);
}

/// Of two sequences without leading zeros, the shorter writes the smaller number.
pub proof fn lemma_shorter_is_less(a: Seq<u8>, b: Seq<u8>)
    requires
        is_minimal(a),
        is_minimal(b),
        a.len() < b.len(),
    ensures
        be_value(a) < be_value(b),
    decreases b.len(),
{
    if a.len() == 0 {
        lemma_minimal_positive(b);
    } else {
        lemma_shorter_is_less(a.drop_last(), b.drop_last());
    }
}

/// Of two sequences of one length that first differ at `i`, the one with the
/// smaller byte there writes the smaller number.
pub proof fn lemma_first_difference_decides(a: Seq<u8>, b: Seq<u8>, i: int)
    requires
        a.len() == b.len(),
        0 <= i < a.len(),
        forall|j: int| 0 <= j < i ==> a[j] == b[j],
        a[i] < b[i],
    ensures
        be_value(a) < be_value(b),
    decreases a.len(),
{
    let a1 = a.drop_last();
    let b1 = b.drop_last();
    if i == a.len() - 1 {
        assert(a1 =~= b1);
    } else {
        lemma_first_difference_decides(a1, b1, i);
    }
}

/// The four digits of a number below 256 to the fourth, in base 256.
proof fn lemma_four_digits(b0: int, b1: int, b2: int, b3: int)
    requires
        0 <= b0 < 256,
        0 <= b1 < 256,
        0 <= b2 < 256,
        0 <= b3 < 256,
    ensures
        ({
            let x = ((b0 * 256 + b1) * 256 + b2) * 256 + b3;
            &&& 0 <= x <= u32::MAX
            &&& x / 0x100_0000 == b0
            &&& x / 0x1_0000 % 256 == b1
            &&& x / 0x100 % 256 == b2
            &&& x % 256 == b3
        }),
{
}

/// The value of a sequence of four bytes by its bytes.
proof fn lemma_be_value_4_formula(s: Seq<u8>)
    requires
        s.len() == 4,
    ensures
        be_value(s) == ((s[0] as nat * 256 + s[1] as nat) * 256 + s[2] as nat) * 256 + s[3] as nat,
{
    let s3 = s.drop_last();
    let s2 = s3.drop_last();
    let s1 = s2.drop_last();
    let s0 = s1.drop_last();
    assert(be_value(s0) == 0);
    assert(be_value(s1) == s[0] as nat);
    assert(be_value(s2) == be_value(s1) * 256 + s[1] as nat);
    assert(be_value(s3) == be_value(s2) * 256 + s[2] as nat);
    assert(be_value(s) == be_value(s3) * 256 + s[3] as nat);
}

/// The value of a sequence of four bytes: it fits in four bytes, and its
/// four-byte form is the sequence.
pub proof fn lemma_be_value_4(s: Seq<u8>)
    requires
        s.len() == 4,
    ensures
        be_value(s) == ((s[0] as nat * 256 + s[1] as nat) * 256 + s[2] as nat) * 256 + s[3] as nat,
        be_value(s) <= u32::MAX,
        u32_be_bytes(be_value(s) as u32) == s,
{
    lemma_be_value_4_formula(s);
    lemma_four_digits(s[0] as int, s[1] as int, s[2] as int, s[3] as int);
    reveal(u32_be_bytes);
    assert(u32_be_bytes(be_value(s) as u32) =~= s);
}

/// The four-byte form of `x` writes `x`.
pub proof fn lemma_u32_be_bytes_value(x: u32)
    ensures
        u32_be_bytes(x).len() == 4,
        be_value(u32_be_bytes(x)) == x,
{
    reveal(u32_be_bytes);
    lemma_be_value_4(u32_be_bytes(x));
}

/// The two halves of a number below 2 to the 64th.
proof fn lemma_two_halves(hi: int, lo: int)
    requires
        0 <= hi <= u32::MAX,
        0 <= lo <= u32::MAX,
    ensures
        ({
            let x = hi * 0x1_0000_0000 + lo;
            &&& 0 <= x <= u64::MAX
            &&& x / 0x1_0000_0000 == hi
            &&& x % 0x1_0000_0000 == lo
        }),
{
}

/// The value of a sequence of eight bytes by its two halves.
proof fn lemma_be_value_8_formula(s: Seq<u8>)
    requires
        s.len() == 8,
    ensures
        be_value(s) == be_value(s.subrange(0, 4)) * 0x1_0000_0000 + be_value(s.subrange(4, 8)),
{
    let hi = s.subrange(0, 4);
    let lo = s.subrange(4, 8);
    lemma_be_value_4_formula(lo);
    let t7 = s.drop_last();
    let t6 = t7.drop_last();
    let t5 = t6.drop_last();
    let t4 = t5.drop_last();
    assert(t4 =~= hi);
    assert(be_value(t5) == be_value(t4) * 256 + s[4] as nat);
    assert(be_value(t6) == be_value(t5) * 256 + s[5] as nat);
    assert(be_value(t7) == be_value(t6) * 256 + s[6] as nat);
    assert(be_value(s) == be_value(t7) * 256 + s[7] as nat);
}

/// The value of a sequence of eight bytes, by its two halves: it fits in
/// eight bytes, and its eight-byte form is the sequence.
pub proof fn lemma_be_value_8(s: Seq<u8>)
    requires
        s.len() == 8,
    ensures
        be_value(s) == be_value(s.subrange(0, 4)) * 0x1_0000_0000 + be_value(s.subrange(4, 8)),
        be_value(s) <= u64::MAX,
        u64_be_bytes(be_value(s) as u64) == s,
{
    let hi = s.subrange(0, 4);
    let lo = s.subrange(4, 8);
    lemma_be_value_8_formula(s);
    lemma_be_value_4(hi);
    lemma_be_value_4(lo);
    lemma_two_halves(be_value(hi) as int, be_value(lo) as int);
    assert(u64_be_bytes(be_value(s) as u64) =~= hi + lo);
    assert(hi + lo =~= s);
}

/// The eight-byte form of `x` writes `x`.
pub proof fn lemma_u64_be_bytes_value(x: u64)
    ensures
        u64_be_bytes(x).len() == 8,
        be_value(u64_be_bytes(x)) == x,
{
    let s = u64_be_bytes(x);
    let hi = u32_be_bytes((x / 0x1_0000_0000) as u32);
    let lo = u32_be_bytes((x % 0x1_0000_0000) as u32);
    lemma_u32_be_bytes_value((x / 0x1_0000_0000) as u32);
    lemma_u32_be_bytes_value((x % 0x1_0000_0000) as u32);
    assert(s.subrange(0, 4) =~= hi);
    assert(s.subrange(4, 8) =~= lo);
    lemma_be_value_8_formula(s);
}

} // verus!
