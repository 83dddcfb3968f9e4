//! The host functions that the account relies on.
//!
//! Nothing in this file is proved. Each function below hands plain values to
//! one function of `soroban_sdk` and hands plain values back; its contract is
//! what the rest of the library believes of that function. Where a few
//! lines say what a host function returns, the contract says it. A host
//! function whose result takes more to state, and is a mathematical function
//! of its arguments, has its result named by a specification function
//! without a body, so that the callers' contracts can speak of it.
//!
//! A host aborts the running invocation when its resource budget is
//! exhausted, as a machine does that runs out of memory.

use crate::encoding::{g1_canonical, g1_on_curve, g2_canonical, g2_on_curve};
use crate::token_list::{added, removed, TokenList};
use crate::types::Address;
use vstd::prelude::*;

verus! {

/// The handle to the hosting environment. Its inside is unknown here.
#[verifier::external_type_specification]
#[verifier::external_body]
pub struct ExEnv(soroban_sdk::Env);

/// The tokens that a token list holds, in the order in which its map holds
/// them, each as the address of the library that has the same XDR form as
/// the map's key.
pub uninterp spec fn token_keys(list: TokenList) -> Seq<Address>;

/// What the host answers when asked whether the curve point encoded by `p`
/// lies in the prime-order subgroup G1.
pub uninterp spec fn g1_in_subgroup(p: Seq<u8>) -> bool;

/// What the host answers when asked whether the curve point encoded by `p`
/// lies in the prime-order subgroup G2.
pub uninterp spec fn g2_in_subgroup(p: Seq<u8>) -> bool;

/// The encoding of the sum of the curve points encoded by `a` and `b`.
pub uninterp spec fn g1_sum(a: Seq<u8>, b: Seq<u8>) -> Seq<u8>;

/// The encoding of the G2 point that the message `msg` hashes to under the
/// domain separation tag `dst`.
pub uninterp spec fn g2_hash(msg: Seq<u8>, dst: Seq<u8>) -> Seq<u8>;

/// Whether the product of the pairings of `g1s[i]` with `g2s[i]` is the
/// identity of the target group.
pub uninterp spec fn pairing_holds(g1s: Seq<Seq<u8>>, g2s: Seq<Seq<u8>>) -> bool;

/// `p` is a well-formed encoding of a point of the curve over the base field.
pub open spec fn g1_point(p: Seq<u8>) -> bool {
    g1_canonical(p) && g1_on_curve(p)
}

/// `p` is a well-formed encoding of a member of the group G1.
pub open spec fn g1_member(p: Seq<u8>) -> bool {
    g1_point(p) && g1_in_subgroup(p)
}

/// `p` is a well-formed encoding of a point of the curve over the extension
/// field.
pub open spec fn g2_point(p: Seq<u8>) -> bool {
    g2_canonical(p) && g2_on_curve(p)
}

/// `p` is a well-formed encoding of a member of the group G2.
pub open spec fn g2_member(p: Seq<u8>) -> bool {
    g2_point(p) && g2_in_subgroup(p)
}

/// `Bls12_381::g1_is_on_curve`: decodes `p` and says whether the point is
/// the point at infinity or satisfies the curve equation `y^2 = x^3 + 4`
/// over the base field. The host rejects an encoding that is not well
/// formed, so the caller must have checked that.
#[verifier::external_body]
pub(crate) fn g1_is_on_curve(env: &soroban_sdk::Env, p: &[u8; 96]) -> (r: bool)
    requires
        g1_canonical(p@),
    ensures
        r == g1_on_curve(p@),
{
    let point = soroban_sdk::crypto::bls12_381::Bls12381G1Affine::from_array(env, p);
    env.crypto().bls12_381().g1_is_on_curve(&point)
}

/// `Bls12_381::g1_is_in_subgroup`: decodes `p`, which must be a point of the
/// curve, and tests membership in the prime-order subgroup; the answer is
/// given the name `g1_in_subgroup`.
#[verifier::external_body]
pub(crate) fn g1_is_in_subgroup(env: &soroban_sdk::Env, p: &[u8; 96]) -> (r: bool)
    requires
        g1_point(p@),
    ensures
        r == g1_in_subgroup(p@),
{
    let point = soroban_sdk::crypto::bls12_381::Bls12381G1Affine::from_array(env, p);
    env.crypto().bls12_381().g1_is_in_subgroup(&point)
}

/// `Bls12_381::g2_is_on_curve`: as `g1_is_on_curve`, for the 192-byte
/// encodings of G2 and the curve equation `y^2 = x^3 + 4 (1 + u)` over the
/// extension field.
#[verifier::external_body]
pub(crate) fn g2_is_on_curve(env: &soroban_sdk::Env, p: &[u8; 192]) -> (r: bool)
    requires
        g2_canonical(p@),
    ensures
        r == g2_on_curve(p@),
{
    let point = soroban_sdk::crypto::bls12_381::Bls12381G2Affine::from_array(env, p);
    env.crypto().bls12_381().g2_is_on_curve(&point)
}

/// `Bls12_381::g2_is_in_subgroup`: as `g1_is_in_subgroup`, for G2.
#[verifier::external_body]
pub(crate) fn g2_is_in_subgroup(env: &soroban_sdk::Env, p: &[u8; 192]) -> (r: bool)
    requires
        g2_point(p@),
    ensures
        r == g2_in_subgroup(p@),
{
    let point = soroban_sdk::crypto::bls12_381::Bls12381G2Affine::from_array(env, p);
    env.crypto().bls12_381().g2_is_in_subgroup(&point)
}

/// `Bls12_381::g1_add`: decodes two points of the curve (the host checks the
/// curve equation, not the subgroup), adds them and encodes the sum. The sum
/// is given the name `g1_sum`. It is the host's own encoding of a point that
/// curve addition produced, which `soroban_sdk` documents as fit to be added
/// to again; so it is claimed to be a well-formed encoding of a point of the
/// curve.
#[verifier::external_body]
pub(crate) fn g1_add(env: &soroban_sdk::Env, a: &[u8; 96], b: &[u8; 96]) -> (sum: [u8; 96])
    requires
        g1_point(a@),
        g1_point(b@),
    ensures
        sum@ == g1_sum(a@, b@),
        g1_point(sum@),
{
    let p = soroban_sdk::crypto::bls12_381::Bls12381G1Affine::from_array(env, a);
    let q = soroban_sdk::crypto::bls12_381::Bls12381G1Affine::from_array(env, b);
    env.crypto().bls12_381().g1_add(&p, &q).to_array()
}

/// `Bls12_381::hash_to_g2`: hashes `msg` to a point of G2 under the tag
/// `dst`, whose length the host wants between 1 and 255. The encoded point
/// is given the name `g2_hash`.
#[verifier::external_body]
pub(crate) fn hash_to_g2(env: &soroban_sdk::Env, msg: &[u8], dst: &[u8]) -> (point: [u8; 192])
    requires
        1 <= dst@.len() <= 255,
    ensures
        point@ == g2_hash(msg@, dst@),
{
    let m = soroban_sdk::Bytes::from_slice(env, msg);
    let d = soroban_sdk::Bytes::from_slice(env, dst);
    env.crypto().bls12_381().hash_to_g2(&m, &d).to_array()
}

/// `Bls12_381::pairing_check` on two pairs: whether the product of the
/// pairing of `left_g1` with `left_g2` and the pairing of `right_g1` with
/// `right_g2` is the identity. The host rejects any argument that is not a
/// member of its group, so the caller must have checked all four; the answer
/// is given the name `pairing_holds`.
#[verifier::external_body]
pub(crate) fn pairing_check(
    env: &soroban_sdk::Env,
    left_g1: &[u8; 96],
    right_g1: &[u8; 96],
    left_g2: &[u8; 192],
    right_g2: &[u8; 192],
) -> (r: bool)
    requires
        g1_member(left_g1@),
        g1_member(right_g1@),
        g2_member(left_g2@),
        g2_member(right_g2@),
    ensures
        r == pairing_holds(seq![left_g1@, right_g1@], seq![left_g2@, right_g2@]),
{
    let a = soroban_sdk::crypto::bls12_381::Bls12381G1Affine::from_array(env, left_g1);
    let b = soroban_sdk::crypto::bls12_381::Bls12381G1Affine::from_array(env, right_g1);
    let c = soroban_sdk::crypto::bls12_381::Bls12381G2Affine::from_array(env, left_g2);
    let d = soroban_sdk::crypto::bls12_381::Bls12381G2Affine::from_array(env, right_g2);
    let g1s = soroban_sdk::Vec::from_array(env, [a, b]);
    let g2s = soroban_sdk::Vec::from_array(env, [c, d]);
    env.crypto().bls12_381().pairing_check(g1s, g2s)
}

/// `Map::new`: a list over a map without keys.
#[verifier::external_body]
pub(crate) fn token_map_new(env: &soroban_sdk::Env) -> (list: TokenList)
    ensures
        token_keys(list) == Seq::<Address>::empty(),
{
    TokenList { map: soroban_sdk::Map::new(env) }
}

/// `Map::set` with the address whose XDR form is `key_xdr` as the key: the
/// map holds the key from then on, once, and keeps its keys in the ledger's
/// order of addresses. The host rejects bytes that are not the XDR form of
/// an address.
#[verifier::external_body]
pub(crate) fn token_map_set(list: &mut TokenList, key_xdr: &[u8])
    requires
        exists|key: Address| key.xdr() == key_xdr@,
    ensures
        forall|key: Address|
            key.xdr() == key_xdr@ ==> added(token_keys(*old(list)), key, token_keys(*final(list))),
{
    let bytes = soroban_sdk::Bytes::from_slice(list.map.env(), key_xdr);
    let key = soroban_sdk::xdr::FromXdr::from_xdr(list.map.env(), &bytes).unwrap();
    list.map.set(key, ());
}

/// `Map::remove` with the address whose XDR form is `key_xdr` as the key:
/// the map holds the key no longer, and keeps the order of the others.
#[verifier::external_body]
pub(crate) fn token_map_remove(list: &mut TokenList, key_xdr: &[u8])
    requires
        exists|key: Address| key.xdr() == key_xdr@,
    ensures
        forall|key: Address|
            key.xdr() == key_xdr@ ==> removed(
                token_keys(*old(list)),
                key,
                token_keys(*final(list)),
            ),
{
    let bytes = soroban_sdk::Bytes::from_slice(list.map.env(), key_xdr);
    let key = soroban_sdk::xdr::FromXdr::from_xdr(list.map.env(), &bytes).unwrap();
    list.map.remove(key);
}

/// `Map::keys`: the keys in the map's order, which is the ledger's order of
/// addresses; each is handed out as its XDR form.
#[verifier::external_body]
pub(crate) fn token_map_keys(list: &TokenList) -> (keys: Vec<Vec<u8>>)
    ensures
        keys@.len() == token_keys(*list).len(),
        forall|i: int| 0 <= i < keys@.len() ==> keys@[i]@ == token_keys(*list)[i].xdr(),
        forall|i: int, j: int|
            0 <= i < j < keys@.len() ==> token_keys(*list)[i].less(token_keys(*list)[j]),
{
    let env = list.map.env();
    list.map.keys().iter().map(|k| soroban_sdk::xdr::ToXdr::to_xdr(k, env).iter().collect()).collect()
}

} // verus!
