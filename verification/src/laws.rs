//! What holds of the account's rules, whatever the keys, the signatures and
//! the random bytes are.
//!
//! The laws speak of the relations that the operations' contracts state
//! between the entries before and after a call, so each holds of every run
//! of the operations.
//!
//! Whether a signature over one nonce is also a signature over another is a
//! question of cryptography, which nothing here decides. Where a law says
//! that an old signature is refused, it therefore leaves out the case that
//! the signature verifies for the new nonce or tag as well, as it does when
//! the same bytes are drawn again, or when key and signature are both the
//! point at infinity.

use crate::access::key_written;
use crate::bls::{aggregate, signature_verifies};
use crate::bls_account_auth::{accepts, authorized, checked, Authorization};
use crate::dap_adapter::{
    aqua_capability, soroswap_capability, transferable, transfers_amount, ArgView,
    DelegatedCapabilityView, Selector, SwapHopView,
};
use crate::error::ContractError;
use crate::storage::StorageView;
use crate::types::Address;
use vstd::prelude::*;

verus! {

/// Aggregation is a function of the ordered list of keys: two accounts that
/// aggregate the same list are answered alike and, where the list was
/// accepted, hold the same key, byte for byte.
pub proof fn law_aggregation_is_repeatable(
    pre1: StorageView,
    pre2: StorageView,
    keys: Seq<[u8; 96]>,
    r1: Result<(), ContractError>,
    r2: Result<(), ContractError>,
    post1: StorageView,
    post2: StorageView,
)
    requires
        key_written(pre1, keys, r1, post1),
        key_written(pre2, keys, r2, post2),
    ensures
        r1 == r2,
        r1 is Ok ==> post1.bls_public_key == post2.bls_public_key,
{
    if r1 is Ok {
        let k1 = post1.bls_public_key->0;
        let k2 = post2.bls_public_key->0;
        assert(k1@ == k2@);
        assert(k1 =~= k2);
    }
}

/// A single key is its own aggregate.
pub proof fn law_single_key_is_its_own_aggregate(key: [u8; 96])
    ensures
        aggregate(seq![key]) == key@,
{
}

/// A signature is good for one verification. Once it was accepted, the
/// nonce it was over is gone and the bytes drawn for the next one are the
/// live nonce: the same signature, offered again, is judged against them,
/// and unless it verifies for them too it is refused as invalid and nothing
/// changes.
pub proof fn law_nonce_is_single_use(
    s0: StorageView,
    sig: [u8; 192],
    fresh1: [u8; 32],
    r1: Result<(), ContractError>,
    s1: StorageView,
    fresh2: [u8; 32],
    r2: Result<(), ContractError>,
    s2: StorageView,
)
    requires
        accepts(s0, sig),
        checked(s0, sig, fresh1, r1, s1),
        checked(s1, sig, fresh2, r2, s2),
        !signature_verifies(s0.bls_public_key->0@, s0.dst->0, fresh1@, sig@),
    ensures
        r1 == Ok::<(), ContractError>(()),
        s1.nonce == Some(fresh1),
        r2 == Err::<(), ContractError>(ContractError::InvalidSignature),
        s2 == s1,
{
}

/// `a` and `b` differ in exactly one byte.
pub open spec fn differ_in_one_byte(a: Seq<u8>, b: Seq<u8>) -> bool {
    &&& a.len() == b.len()
    &&& exists|i: int|
        0 <= i < a.len() && a[i] != b[i] && forall|j: int|
            0 <= j < a.len() && j != i ==> a[j] == b[j]
}

/// A signature is bound to the tag. After one byte of the stored tag was
/// changed, a signature that was valid before is judged under the changed
/// tag, and unless it verifies under that one too it is refused as invalid.
pub proof fn law_signature_is_bound_to_tag(
    s: StorageView,
    tag: Seq<u8>,
    sig: [u8; 192],
    fresh: [u8; 32],
    r: Result<(), ContractError>,
    post: StorageView,
)
    requires
        accepts(s, sig),
        differ_in_one_byte(s.dst->0, tag),
        checked(StorageView { dst: Some(tag), ..s }, sig, fresh, r, post),
        !signature_verifies(s.bls_public_key->0@, tag, s.nonce->0@, sig@),
    ensures
        r == Err::<(), ContractError>(ContractError::InvalidSignature),
        post == (StorageView { dst: Some(tag), ..s }),
{
}

/// The owner's direct attestation uses up the nonce as a signature does. A
/// signature that was valid and unused before an operation that the owner
/// authorized by attesting is judged against the bytes drawn for the next
/// nonce afterwards, and unless it verifies for them too it is refused as
/// invalid.
pub proof fn law_attestation_rotates_nonce(
    s0: StorageView,
    sig: [u8; 192],
    fresh1: [u8; 32],
    r1: Result<Authorization, ContractError>,
    s1: StorageView,
    fresh2: [u8; 32],
    r2: Result<(), ContractError>,
    s2: StorageView,
)
    requires
        accepts(s0, sig),
        authorized(s0, None, fresh1, r1, s1),
        r1 is Ok,
        checked(s1, sig, fresh2, r2, s2),
        !signature_verifies(s0.bls_public_key->0@, s0.dst->0, fresh1@, sig@),
    ensures
        s0.user_account is Some,
        r1 == Ok::<Authorization, ContractError>(Authorization::Attestation(s0.user_account->0)),
        s1.nonce == Some(fresh1),
        r2 == Err::<(), ContractError>(ContractError::InvalidSignature),
        s2 == s1,
{
}

/// The gateway fails closed. Without a signature and without a configured
/// owner account, it refuses with the error that says so, and changes
/// nothing.
pub proof fn law_gateway_fails_closed(
    s: StorageView,
    fresh: [u8; 32],
    r: Result<Authorization, ContractError>,
    post: StorageView,
)
    requires
        s.user_account is None,
        authorized(s, None, fresh, r, post),
    ensures
        r == Err::<Authorization, ContractError>(ContractError::UserAccountNotFound),
        post == s,
{
}

/// The gateway lets nothing through unproved: it authorizes only on an
/// accepted signature or for the configured owner's attestation, and every
/// authorization makes the bytes drawn for it the live nonce and changes
/// nothing else.
pub proof fn law_gateway_authorizes_on_proof_only(
    s: StorageView,
    tx_signature: Option<[u8; 192]>,
    fresh: [u8; 32],
    r: Result<Authorization, ContractError>,
    post: StorageView,
)
    requires
        authorized(s, tx_signature, fresh, r, post),
        r is Ok,
    ensures
        match tx_signature {
            Some(sig) => accepts(s, sig) && r->Ok_0 == Authorization::Signature,
            None => s.user_account is Some && r->Ok_0 == Authorization::Attestation(
                s.user_account->0,
            ),
        },
        post == (StorageView { nonce: Some(fresh), ..s }),
{
}

/// The capability for a swap on the single-pool router is scoped to the
/// request. For the path `[x, y]`, the amount `amount_in` and the recipient
/// `to`, the only call authorized beneath the router's is the transfer of
/// exactly `amount_in` of `x` from `to` to the pool `pair_id`, and nothing
/// is authorized beneath that.
pub proof fn law_soroswap_capability_is_scoped(
    soroswap_id: Address,
    pair_id: Address,
    amount_in: i128,
    amount_out_min: i128,
    deadline: u64,
    x: Address,
    y: Address,
    to: Address,
)
    ensures
        ({
            let tree = soroswap_capability(
                soroswap_id,
                pair_id,
                amount_in,
                amount_out_min,
                deadline,
                seq![x, y],
                to,
            );
            &&& tree.sub_invocations.len() == 1
            &&& tree.sub_invocations[0] == (DelegatedCapabilityView {
                contract: x,
                fn_name: Selector::Transfer,
                args: seq![ArgView::Address(to), ArgView::Address(pair_id), ArgView::I128(amount_in)],
                sub_invocations: Seq::empty(),
            })
        }),
{
}

/// The capability for a chained swap is scoped to the request. For an
/// amount that a transfer can speak of, the only call authorized beneath the
/// router's is a transfer of the input token, from the recipient to the
/// router, of the very amount requested.
pub proof fn law_aqua_capability_is_scoped(
    dex_router_id: Address,
    to: Address,
    swaps_chain: Seq<SwapHopView>,
    token_in: Address,
    in_amount: u128,
    out_min: u128,
)
    requires
        transferable(in_amount),
    ensures
        ({
            let tree = aqua_capability(dex_router_id, to, swaps_chain, token_in, in_amount, out_min);
            &&& tree.sub_invocations.len() == 1
            &&& tree.sub_invocations[0].contract == token_in
            &&& tree.sub_invocations[0].args[0] == ArgView::Address(to)
            &&& tree.sub_invocations[0].args[1] == ArgView::Address(dex_router_id)
            &&& transfers_amount(tree.sub_invocations[0], in_amount as int)
            &&& tree.sub_invocations[0].sub_invocations.len() == 0
        }),
{
}

} // verus!
