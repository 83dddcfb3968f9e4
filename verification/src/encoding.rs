//! Byte-level well-formedness of BLS12-381 point encodings.
//!
//! A point travels as the big-endian bytes of its affine coordinates, each a
//! base-field element of 48 bytes. The three highest bits of the first byte
//! are flags; the only flagged encoding that is accepted is the point at
//! infinity, written as `0x40` followed by zeros.

use vstd::prelude::*;

verus! {

/// The base-field modulus `p` of BLS12-381, big-endian.
pub const FP_MODULUS: [u8; 48] = [
    0x1a, 0x01, 0x11, 0xea, 0x39, 0x7f, 0xe6, 0x9a, 0x4b, 0x1b, 0xa7, 0xb6,
    0x43, 0x4b, 0xac, 0xd7, 0x64, 0x77, 0x4b, 0x84, 0xf3, 0x85, 0x12, 0xbf,
    0x67, 0x30, 0xd2, 0xa0, 0xf6, 0xb0, 0xf6, 0x24, 0x1e, 0xab, 0xff, 0xfe,
    0xb1, 0x53, 0xff, 0xff, 0xb9, 0xfe, 0xff, 0xff, 0xff, 0xff, 0xaa, 0xab,
];

/// The number that `bytes` spells in base 256, most significant byte first.
pub open spec fn be_value(bytes: Seq<u8>) -> nat
    decreases bytes.len(),
{
    if bytes.len() == 0 {
        0
    } else {
        be_value(bytes.drop_last()) * 256 + bytes.last() as nat
    }
}

/// `bytes` spells a number below the base-field modulus.
pub open spec fn fp_reduced(bytes: Seq<u8>) -> bool {
    be_value(bytes) < be_value(FP_MODULUS@)
}

/// The accepted encoding of the point at infinity: the infinity flag alone,
/// then zeros.
pub open spec fn is_infinity_encoding(b: Seq<u8>) -> bool {
    &&& b.len() > 0
    &&& b[0] == 0x40
    &&& forall|i: int| 1 <= i < b.len() ==> b[i] == 0
}

/// `b` is a well-formed uncompressed G1 encoding: 96 bytes that are either
/// the point at infinity or two reduced coordinates with no flag bit set.
pub open spec fn g1_canonical(b: Seq<u8>) -> bool {
    &&& b.len() == 96
    &&& if b[0] >= 0x20 {
        is_infinity_encoding(b)
    } else {
        fp_reduced(b.subrange(0, 48)) && fp_reduced(b.subrange(48, 96))
    }
}

/// `b` is a well-formed uncompressed G2 encoding: 192 bytes that are either
/// the point at infinity or four reduced coordinates with no flag bit set.
pub open spec fn g2_canonical(b: Seq<u8>) -> bool {
    &&& b.len() == 192
    &&& if b[0] >= 0x20 {
        is_infinity_encoding(b)
    } else {
        &&& fp_reduced(b.subrange(0, 48))
        &&& fp_reduced(b.subrange(48, 96))
        &&& fp_reduced(b.subrange(96, 144))
        &&& fp_reduced(b.subrange(144, 192))
    }
}

/// The well-formed G1 encoding `b` satisfies the curve equation
/// `y^2 = x^3 + 4` over the base field. The point at infinity counts as
/// satisfying it.
pub open spec fn g1_on_curve(b: Seq<u8>) -> bool {
    let p = be_value(FP_MODULUS@) as int;
    let x = be_value(b.subrange(0, 48)) as int;
    let y = be_value(b.subrange(48, 96)) as int;
    is_infinity_encoding(b) || (y * y - (x * x * x + 4)) % p == 0
}

/// The well-formed G2 encoding `b` satisfies the curve equation
/// `y^2 = x^3 + 4 (1 + u)` over the extension of the base field by `u` with
/// `u^2 = -1`. The four numbers of the encoding are the `u` part and the
/// plain part of `x`, then those of `y`. The point at infinity counts as
/// satisfying the equation.
pub open spec fn g2_on_curve(b: Seq<u8>) -> bool {
    let p = be_value(FP_MODULUS@) as int;
    let x1 = be_value(b.subrange(0, 48)) as int;
    let x0 = be_value(b.subrange(48, 96)) as int;
    let y1 = be_value(b.subrange(96, 144)) as int;
    let y0 = be_value(b.subrange(144, 192)) as int;
    is_infinity_encoding(b) || {
        &&& ((y0 * y0 - y1 * y1) - (x0 * x0 * x0 - 3 * x0 * x1 * x1 + 4)) % p == 0
        &&& (2 * y0 * y1 - (3 * x0 * x0 * x1 - x1 * x1 * x1 + 4)) % p == 0
    }
}

/// How one number stands to another.
#[derive(Clone, Copy, Debug, PartialEq, Eq)]
pub enum Order {
    Less,
    Equal,
    Greater,
}

/// Big-endian numbers of one length are ordered by their first differing
/// byte.
pub proof fn lemma_be_value_first_difference(a: Seq<u8>, b: Seq<u8>, i: int)
    requires
        a.len() == b.len(),
        0 <= i < a.len(),
        a.subrange(0, i) =~= b.subrange(0, i),
        a[i] < b[i],
    ensures
        be_value(a) < be_value(b),
    decreases a.len(),
{
    let a0 = a.drop_last();
    let b0 = b.drop_last();
    if i == a.len() - 1 {
        assert(a0 =~= a.subrange(0, i));
        assert(b0 =~= b.subrange(0, i));
    } else {
        assert(a0.subrange(0, i) =~= a.subrange(0, i));
        assert(b0.subrange(0, i) =~= b.subrange(0, i));
        lemma_be_value_first_difference(a0, b0, i);
    }
}

/// How the number spelled by the `b.len()` bytes of `a` from `start` on
/// stands to the number spelled by `b`. Equal numbers are equal byte strings.
pub fn be_order(a: &[u8], start: usize, b: &[u8]) -> (r: Order)
    requires
        start + b@.len() <= a@.len(),
    ensures
        r == Order::Less ==> be_value(a@.subrange(start as int, start + b@.len())) < be_value(b@),
        r == Order::Greater ==> be_value(b@) < be_value(
            a@.subrange(start as int, start + b@.len()),
        ),
        r == Order::Equal ==> a@.subrange(start as int, start + b@.len()) == b@,
{
    let ghost field = a@.subrange(start as int, start + b@.len());
    let n = a.len();
    let len = b.len();
    let mut i: usize = 0;
    while i < len
        invariant
            0 <= i <= len,
            len == b@.len(),
            n == a@.len(),
            start + len <= n,
            field == a@.subrange(start as int, start + len),
            field.subrange(0, i as int) =~= b@.subrange(0, i as int),
        decreases len - i,
    {
        let x = a[start + i];
        let y = b[i];
        assert(x == field[i as int]);
        if x < y {
            proof {
                lemma_be_value_first_difference(field, b@, i as int);
            }
            return Order::Less;
        }
        if x > y {
            proof {
                lemma_be_value_first_difference(b@, field, i as int);
            }
            return Order::Greater;
        }
        assert(field.subrange(0, i + 1) =~= b@.subrange(0, i + 1));
        i += 1;
    }
    proof {
        assert(field.subrange(0, len as int) =~= field);
        assert(b@.subrange(0, len as int) =~= b@);
    }
    Order::Equal
}

/// Whether the 48 bytes of `bytes` from `start` on spell a number below the
/// base-field modulus.
pub fn fp_is_reduced(bytes: &[u8], start: usize) -> (r: bool)
    requires
        start + 48 <= bytes@.len(),
    ensures
        r == fp_reduced(bytes@.subrange(start as int, start + 48)),
{
    match be_order(bytes, start, &FP_MODULUS) {
        Order::Less => true,
        _ => false,
    }
}

/// Whether every byte of `bytes` after the first is zero.
fn tail_is_zero(bytes: &[u8]) -> (r: bool)
    ensures
        r == (forall|i: int| 1 <= i < bytes@.len() ==> bytes@[i] == 0),
{
    let mut i: usize = 1;
    while i < bytes.len()
        invariant
            1 <= i,
            forall|j: int| 1 <= j < i && j < bytes@.len() ==> bytes@[j] == 0,
        decreases bytes@.len() - i,
    {
        if bytes[i] != 0 {
            return false;
        }
        i += 1;
    }
    true
}

/// Whether `p` is a well-formed G1 encoding.
pub fn g1_is_canonical(p: &[u8; 96]) -> (r: bool)
    ensures
        r == g1_canonical(p@),
{
    if p[0] >= 0x20 {
        p[0] == 0x40 && tail_is_zero(p)
    } else {
        fp_is_reduced(p, 0) && fp_is_reduced(p, 48)
    }
}

/// Whether `p` is a well-formed G2 encoding.
pub fn g2_is_canonical(p: &[u8; 192]) -> (r: bool)
    ensures
        r == g2_canonical(p@),
{
    if p[0] >= 0x20 {
        p[0] == 0x40 && tail_is_zero(p)
    } else {
        fp_is_reduced(p, 0) && fp_is_reduced(p, 48) && fp_is_reduced(p, 96) && fp_is_reduced(
            p,
            144,
        )
    }
}

} // verus!
