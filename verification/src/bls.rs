//! Aggregated-key signatures over BLS12-381.
//!
//! The account's verification key is the sum of its members' public keys in
//! G1; a signature is a point of G2. A signature `s` over a message `m` is
//! accepted under the key `k` when `e(k, H(m)) * e(-g1, s)` is the identity,
//! where `H` hashes to G2 under the account's domain separation tag and
//! `-g1` is the negated generator of G1.

use crate::encoding::{g1_is_canonical, g2_is_canonical};
use crate::host::{
    g1_add, g1_is_in_subgroup, g1_is_on_curve, g1_member, g1_point, g1_sum, g2_hash,
    g2_is_in_subgroup, g2_is_on_curve, g2_member, hash_to_g2, pairing_check, pairing_holds,
};
use vstd::prelude::*;

verus! {

/// The negated generator of G1, encoded.
pub const NEG_G1_GENERATOR: [u8; 96] = [
    0x17, 0xf1, 0xd3, 0xa7, 0x31, 0x97, 0xd7, 0x94, 0x26, 0x95, 0x63, 0x8c,
    0x4f, 0xa9, 0xac, 0x0f, 0xc3, 0x68, 0x8c, 0x4f, 0x97, 0x74, 0xb9, 0x05,
    0xa1, 0x4e, 0x3a, 0x3f, 0x17, 0x1b, 0xac, 0x58, 0x6c, 0x55, 0xe8, 0x3f,
    0xf9, 0x7a, 0x1a, 0xef, 0xfb, 0x3a, 0xf0, 0x0a, 0xdb, 0x22, 0xc6, 0xbb,
    0x11, 0x4d, 0x1d, 0x68, 0x55, 0xd5, 0x45, 0xa8, 0xaa, 0x7d, 0x76, 0xc8,
    0xcf, 0x2e, 0x21, 0xf2, 0x67, 0x81, 0x6a, 0xef, 0x1d, 0xb5, 0x07, 0xc9,
    0x66, 0x55, 0xb9, 0xd5, 0xca, 0xac, 0x42, 0x36, 0x4e, 0x6f, 0x38, 0xba,
    0x0e, 0xcb, 0x75, 0x1b, 0xad, 0x54, 0xdc, 0xd6, 0xb9, 0x39, 0xc2, 0xca,
];

/// The key that the ordered list `keys` aggregates to: the keys summed from
/// the left. A single key is its own aggregate.
pub open spec fn aggregate(keys: Seq<[u8; 96]>) -> Seq<u8>
    decreases keys.len(),
{
    if keys.len() == 0 {
        Seq::empty()
    } else if keys.len() == 1 {
        keys[0]@
    } else {
        g1_sum(aggregate(keys.drop_last()), keys.last()@)
    }
}

/// A list of keys that can be aggregated: it is not empty and each key
/// encodes a point of the curve.
pub open spec fn aggregable(keys: Seq<[u8; 96]>) -> bool {
    &&& keys.len() > 0
    &&& forall|i: int| 0 <= i < keys.len() ==> g1_point(#[trigger] keys[i]@)
}

/// The signature `sig` is accepted for the message `nonce` under the
/// verification key `key` and the tag `dst`: the tag has a length that the
/// hash accepts, all four points of the pairing equation are members of
/// their groups, and the equation holds.
pub open spec fn signature_verifies(
    key: Seq<u8>,
    dst: Seq<u8>,
    nonce: Seq<u8>,
    sig: Seq<u8>,
) -> bool {
    &&& 1 <= dst.len() <= 255
    &&& g1_member(key)
    &&& g1_member(NEG_G1_GENERATOR@)
    &&& g2_member(g2_hash(nonce, dst))
    &&& g2_member(sig)
    &&& pairing_holds(seq![key, NEG_G1_GENERATOR@], seq![g2_hash(nonce, dst), sig])
}

/// Whether `p` encodes a point of the curve over the base field.
pub fn g1_is_point(env: &soroban_sdk::Env, p: &[u8; 96]) -> (r: bool)
    ensures
        r == g1_point(p@),
{
    g1_is_canonical(p) && g1_is_on_curve(env, p)
}

/// Whether `p` encodes a member of G1.
pub fn g1_is_member(env: &soroban_sdk::Env, p: &[u8; 96]) -> (r: bool)
    ensures
        r == g1_member(p@),
{
    g1_is_point(env, p) && g1_is_in_subgroup(env, p)
}

/// Whether `p` encodes a member of G2.
pub fn g2_is_member(env: &soroban_sdk::Env, p: &[u8; 192]) -> (r: bool)
    ensures
        r == g2_member(p@),
{
    g2_is_canonical(p) && g2_is_on_curve(env, p) && g2_is_in_subgroup(env, p)
}

/// Sums `keys` from the left. There is a result exactly when the list can be
/// aggregated, and it is then the aggregate, itself a point of the curve.
pub fn aggregate_keys(env: &soroban_sdk::Env, keys: &Vec<[u8; 96]>) -> (r: Option<[u8; 96]>)
    ensures
        r is Some <==> aggregable(keys@),
        r is Some ==> r->0@ == aggregate(keys@) && g1_point(r->0@),
{
    if keys.len() == 0 {
        return None;
    }
    if !g1_is_point(env, &keys[0]) {
        return None;
    }
    let mut sum = keys[0];
    let mut i: usize = 1;
    assert(keys@.subrange(0, 1).len() == 1);
    while i < keys.len()
        invariant
            1 <= i <= keys.len(),
            forall|j: int| 0 <= j < i ==> g1_point(#[trigger] keys@[j]@),
            sum@ == aggregate(keys@.subrange(0, i as int)),
            g1_point(sum@),
        decreases keys.len() - i,
    {
        if !g1_is_point(env, &keys[i]) {
            return None;
        }
        sum = g1_add(env, &sum, &keys[i]);
        proof {
            let next = keys@.subrange(0, i + 1);
            assert(next.drop_last() =~= keys@.subrange(0, i as int));
            assert(next.last() == keys@[i as int]);
        }
        i += 1;
    }
    assert(keys@.subrange(0, i as int) =~= keys@);
    Some(sum)
}

/// Whether `sig` is accepted for `nonce` under `key` and `dst`.
pub fn verify_signature(
    env: &soroban_sdk::Env,
    key: &[u8; 96],
    dst: &[u8],
    nonce: &[u8; 32],
    sig: &[u8; 192],
) -> (r: bool)
    ensures
        r == signature_verifies(key@, dst@, nonce@, sig@),
{
    if dst.len() < 1 || dst.len() > 255 {
        return false;
    }
    if !g1_is_member(env, key) || !g1_is_member(env, &NEG_G1_GENERATOR) {
        return false;
    }
    let message = hash_to_g2(env, nonce, dst);
    if !g2_is_member(env, &message) || !g2_is_member(env, sig) {
        return false;
    }
    pairing_check(env, key, &NEG_G1_GENERATOR, &message, sig)
}

} // verus!
