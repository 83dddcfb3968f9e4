//! Case normalisation of the names in the recovery record.
//!
//! A name is normalised on its XDR form, which is the type word of a
//! string, the length as four big-endian bytes, the bytes themselves and
//! zeros up to a multiple of four. Every byte of the string in the form that
//! is an ASCII letter of the other case is replaced, the two words in front
//! of the string are kept, and the result is read back as a string.

use crate::encoding::be_value;
use vstd::prelude::*;

verus! {

/// The longest string that has an XDR form: its length is written in a
/// word of four bytes.
pub const MAX_STRING_LEN: usize = 4294967295;

/// The lower-case form of an ASCII capital, any other byte unchanged.
pub open spec fn lower(b: u8) -> u8 {
    if 65 <= b <= 90 {
        (b + 32) as u8
    } else {
        b
    }
}

/// The capital form of a lower-case ASCII letter, any other byte unchanged.
pub open spec fn upper(b: u8) -> u8 {
    if 97 <= b <= 122 {
        (b - 32) as u8
    } else {
        b
    }
}

/// `s` with every byte in lower case.
pub open spec fn to_lower(s: Seq<u8>) -> Seq<u8> {
    Seq::new(s.len(), |i: int| lower(s[i]))
}

/// `s` with every byte in upper case.
pub open spec fn to_upper(s: Seq<u8>) -> Seq<u8> {
    Seq::new(s.len(), |i: int| upper(s[i]))
}

/// The four big-endian bytes of `n`.
pub open spec fn be32(n: nat) -> Seq<u8> {
    seq![
        ((n / 16777216) % 256) as u8,
        ((n / 65536) % 256) as u8,
        ((n / 256) % 256) as u8,
        (n % 256) as u8,
    ]
}

/// The number of zero bytes that fill `n` bytes up to a multiple of four.
pub open spec fn pad_len(n: nat) -> nat {
    ((4 - n % 4) % 4) as nat
}

/// The XDR form of the string value that holds the bytes `s`.
pub open spec fn string_xdr(s: Seq<u8>) -> Seq<u8> {
    seq![0u8, 0u8, 0u8, 14u8] + be32(s.len()) + s + Seq::new(pad_len(s.len()), |i: int| 0u8)
}

/// `x` is the XDR form of a string value.
pub open spec fn is_string_xdr(x: Seq<u8>) -> bool {
    &&& x.len() >= 8
    &&& x.subrange(0, 4) == seq![0u8, 0u8, 0u8, 14u8]
    &&& x.len() == 8 + be_value(x.subrange(4, 8)) + pad_len(be_value(x.subrange(4, 8)))
    &&& forall|i: int| 8 + be_value(x.subrange(4, 8)) <= i < x.len() ==> x[i] == 0
}

/// The bytes of the string value whose XDR form is `x`.
pub open spec fn xdr_string(x: Seq<u8>) -> Seq<u8> {
    x.subrange(8, 8 + be_value(x.subrange(4, 8)) as int)
}

/// A name that can be normalised: one that has an XDR form.
pub open spec fn normalizable(name: Seq<u8>) -> bool {
    name.len() <= MAX_STRING_LEN
}

/// `x` with every byte from `start` on in lower case.
pub open spec fn lower_after(x: Seq<u8>, start: int) -> Seq<u8> {
    Seq::new(
        x.len(),
        |i: int|
            if i < start {
                x[i]
            } else {
                lower(x[i])
            },
    )
}

/// `x` with every byte from `start` on in upper case.
pub open spec fn upper_after(x: Seq<u8>, start: int) -> Seq<u8> {
    Seq::new(
        x.len(),
        |i: int|
            if i < start {
                x[i]
            } else {
                upper(x[i])
            },
    )
}

/// Four bytes spell the number that their positions give them.
pub proof fn lemma_be_value_of_word(w: Seq<u8>)
    requires
        w.len() == 4,
    ensures
        be_value(w) == w[0] * 16777216 + w[1] * 65536 + w[2] * 256 + w[3],
{
    let w3 = w.drop_last();
    let w2 = w3.drop_last();
    let w1 = w2.drop_last();
    assert(w1.drop_last().len() == 0);
    assert(be_value(w1.drop_last()) == 0);
    assert(be_value(w1) == w[0]);
    assert(be_value(w2) == w[0] * 256 + w[1]);
    assert(be_value(w3) == (w[0] * 256 + w[1]) * 256 + w[2]);
}

/// The length word of a string spells the string's length.
pub proof fn lemma_be32_spells(n: nat)
    requires
        n < 4294967296,
    ensures
        be_value(be32(n)) == n,
{
    lemma_be_value_of_word(be32(n));
}

/// The XDR form of a string is recognised as one and gives the string back.
pub proof fn lemma_string_xdr_round_trip(s: Seq<u8>)
    requires
        s.len() < 4294967296,
    ensures
        is_string_xdr(string_xdr(s)),
        xdr_string(string_xdr(s)) == s,
{
    let x = string_xdr(s);
    lemma_be32_spells(s.len());
    assert(x.subrange(0, 4) =~= seq![0u8, 0u8, 0u8, 14u8]);
    assert(x.subrange(4, 8) =~= be32(s.len()));
    assert(x.subrange(8, 8 + s.len() as int) =~= s);
}

/// The XDR form of a string with the string's bytes put in lower case is
/// the XDR form of the lower-case string.
pub proof fn lemma_lower_commutes(s: Seq<u8>)
    ensures
        lower_after(string_xdr(s), 8) == string_xdr(to_lower(s)),
{
    assert(lower_after(string_xdr(s), 8) =~= string_xdr(to_lower(s)));
}

/// The XDR form of a string with the string's bytes put in upper case is
/// the XDR form of the upper-case string.
pub proof fn lemma_upper_commutes(s: Seq<u8>)
    ensures
        upper_after(string_xdr(s), 8) == string_xdr(to_upper(s)),
{
    assert(upper_after(string_xdr(s), 8) =~= string_xdr(to_upper(s)));
}

/// `bytes` with every byte from `start` on in lower case.
pub fn lower_tail(bytes: &[u8], start: usize) -> (lowered: Vec<u8>)
    ensures
        lowered@ == lower_after(bytes@, start as int),
{
    let mut lowered: Vec<u8> = Vec::new();
    let mut i: usize = 0;
    while i < bytes.len()
        invariant
            0 <= i <= bytes@.len(),
            lowered@ == lower_after(bytes@, start as int).subrange(0, i as int),
        decreases bytes@.len() - i,
    {
        let ascii = bytes[i];
        if i >= start && ascii >= 65 && ascii <= 90 {
            lowered.push(ascii + 32);
        } else {
            lowered.push(ascii);
        }
        assert(lowered@ =~= lower_after(bytes@, start as int).subrange(0, i + 1));
        i += 1;
    }
    assert(lower_after(bytes@, start as int).subrange(0, i as int) =~= lower_after(
        bytes@,
        start as int,
    ));
    lowered
}

/// `bytes` with every byte from `start` on in upper case.
pub fn upper_tail(bytes: &[u8], start: usize) -> (raised: Vec<u8>)
    ensures
        raised@ == upper_after(bytes@, start as int),
{
    let mut raised: Vec<u8> = Vec::new();
    let mut i: usize = 0;
    while i < bytes.len()
        invariant
            0 <= i <= bytes@.len(),
            raised@ == upper_after(bytes@, start as int).subrange(0, i as int),
        decreases bytes@.len() - i,
    {
        let ascii = bytes[i];
        if i >= start && ascii >= 97 && ascii <= 122 {
            raised.push(ascii - 32);
        } else {
            raised.push(ascii);
        }
        assert(raised@ =~= upper_after(bytes@, start as int).subrange(0, i + 1));
        i += 1;
    }
    assert(upper_after(bytes@, start as int).subrange(0, i as int) =~= upper_after(
        bytes@,
        start as int,
    ));
    raised
}

/// The XDR form of the string value that holds the bytes `string`.
pub fn string_to_xdr(string: &[u8]) -> (xdr: Vec<u8>)
    requires
        normalizable(string@),
    ensures
        xdr@ == string_xdr(string@),
{
    let n = string.len();
    let mut xdr: Vec<u8> = Vec::new();
    xdr.push(0);
    xdr.push(0);
    xdr.push(0);
    xdr.push(14);
    xdr.push(((n / 16777216) % 256) as u8);
    xdr.push(((n / 65536) % 256) as u8);
    xdr.push(((n / 256) % 256) as u8);
    xdr.push((n % 256) as u8);
    let ghost head = seq![0u8, 0u8, 0u8, 14u8] + be32(n as nat);
    assert(xdr@ =~= head);
    let mut i: usize = 0;
    while i < n
        invariant
            0 <= i <= n,
            n == string@.len(),
            xdr@ == head + string@.subrange(0, i as int),
        decreases n - i,
    {
        xdr.push(string[i]);
        assert(xdr@ =~= head + string@.subrange(0, i + 1));
        i += 1;
    }
    assert(string@.subrange(0, n as int) =~= string@);
    let pad = (4 - n % 4) % 4;
    let mut k: usize = 0;
    while k < pad
        invariant
            0 <= k <= pad,
            pad == pad_len(n as nat),
            n == string@.len(),
            xdr@ == head + string@ + Seq::new(k as nat, |j: int| 0u8),
        decreases pad - k,
    {
        xdr.push(0);
        assert(xdr@ =~= head + string@ + Seq::new((k + 1) as nat, |j: int| 0u8));
        k += 1;
    }
    xdr
}

/// The bytes of the string value whose XDR form `xdr` is, if it is the form
/// of one.
pub fn string_from_xdr(xdr: &[u8]) -> (r: Option<Vec<u8>>)
    ensures
        match r {
            Some(string) => is_string_xdr(xdr@) && string@ == xdr_string(xdr@),
            None => !is_string_xdr(xdr@),
        },
{
    let len = xdr.len();
    if len < 8 {
        return None;
    }
    proof {
        lemma_be_value_of_word(xdr@.subrange(4, 8));
        assert(xdr@.subrange(0, 4) =~= seq![xdr@[0], xdr@[1], xdr@[2], xdr@[3]]);
    }
    if xdr[0] != 0 || xdr[1] != 0 || xdr[2] != 0 || xdr[3] != 14 {
        return None;
    }
    let n: u64 = (xdr[4] as u64) * 16777216 + (xdr[5] as u64) * 65536 + (xdr[6] as u64) * 256 + (
    xdr[7] as u64);
    assert(n == be_value(xdr@.subrange(4, 8)));
    let pad: u64 = (4 - n % 4) % 4;
    if len as u64 != 8 + n + pad {
        return None;
    }
    let end: usize = len - pad as usize;
    let mut k: usize = end;
    while k < len
        invariant
            end <= k <= len,
            len == xdr@.len(),
            end == 8 + be_value(xdr@.subrange(4, 8)),
            forall|j: int| end <= j < k ==> xdr@[j] == 0,
        decreases len - k,
    {
        if xdr[k] != 0 {
            assert(xdr@[k as int] != 0);
            return None;
        }
        k += 1;
    }
    let mut string: Vec<u8> = Vec::new();
    let mut i: usize = 8;
    while i < end
        invariant
            8 <= i <= end,
            end <= xdr@.len(),
            string@ == xdr@.subrange(8, i as int),
        decreases end - i,
    {
        string.push(xdr[i]);
        assert(string@ =~= xdr@.subrange(8, i + 1));
        i += 1;
    }
    Some(string)
}

/// The XDR form of `string` in lower case.
pub fn to_lower_bytes(string: &[u8]) -> (bytes: Vec<u8>)
    requires
        normalizable(string@),
    ensures
        bytes@ == string_xdr(to_lower(string@)),
{
    let xdr = string_to_xdr(string);
    proof {
        lemma_lower_commutes(string@);
    }
    lower_tail(xdr.as_slice(), 8)
}

/// The XDR form of `string` in upper case.
pub fn to_upper_bytes(string: &[u8]) -> (bytes: Vec<u8>)
    requires
        normalizable(string@),
    ensures
        bytes@ == string_xdr(to_upper(string@)),
{
    let xdr = string_to_xdr(string);
    proof {
        lemma_upper_commutes(string@);
    }
    upper_tail(xdr.as_slice(), 8)
}

/// Whether `name` can be normalised.
pub fn is_normalizable(name: &[u8]) -> (r: bool)
    ensures
        r == normalizable(name@),
{
    name.len() <= MAX_STRING_LEN
}

/// `string` in lower case.
pub fn convert_to_lower(string: &[u8]) -> (lowered: Vec<u8>)
    requires
        normalizable(string@),
    ensures
        lowered@ == to_lower(string@),
{
    let bytes = to_lower_bytes(string);
    proof {
        lemma_string_xdr_round_trip(to_lower(string@));
    }
    string_from_xdr(bytes.as_slice()).unwrap()
}

/// `string` in upper case.
pub fn convert_to_upper(string: &[u8]) -> (raised: Vec<u8>)
    requires
        normalizable(string@),
    ensures
        raised@ == to_upper(string@),
{
    let bytes = to_upper_bytes(string);
    proof {
        lemma_string_xdr_round_trip(to_upper(string@));
    }
    string_from_xdr(bytes.as_slice()).unwrap()
}

} // verus!
