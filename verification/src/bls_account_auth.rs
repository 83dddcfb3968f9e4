//! Authorization: the nonce, signatures over it, and the gateway that every
//! privileged operation passes.
//!
//! One nonce is live at a time. A signature is accepted only over the live
//! nonce, and every authorization that succeeds, by signature or by the
//! owner's direct attestation, replaces the nonce with fresh random bytes.
//! A refused authorization changes nothing, so it can be tried again.
//!
//! The fresh bytes are drawn by whoever hosts the account, from the
//! generator that the host offers to a running invocation, and are handed
//! to the operations as an argument.

use crate::access::read_user_account;
use crate::bls::{signature_verifies, verify_signature};
use crate::error::ContractError;
use crate::storage::{copy_bytes, Storage, StorageView};
use crate::types::Address;
use vstd::prelude::*;

verus! {

/// The domain separation tag of the account's signatures: the ASCII text
/// `BLS_AUTH_XMD:SHA-256_SSWU_SOCKETFI`.
pub const DST: [u8; 34] = [
    0x42, 0x4c, 0x53, 0x5f, 0x41, 0x55, 0x54, 0x48, 0x5f, 0x58, 0x4d, 0x44,
    0x3a, 0x53, 0x48, 0x41, 0x2d, 0x32, 0x35, 0x36, 0x5f, 0x53, 0x53, 0x57,
    0x55, 0x5f, 0x53, 0x4f, 0x43, 0x4b, 0x45, 0x54, 0x46, 0x49,
];

/// How an operation was authorized.
#[derive(Clone, Copy, Debug, PartialEq, Eq)]
pub enum Authorization {
    /// A signature over the live nonce was verified.
    Signature,
    /// No signature was given: the operation stands if the hosting
    /// environment attests that this owner account takes part in the
    /// invocation, and is void if it does not.
    Attestation(Address),
}

/// The entries `s` with `fresh` as the live nonce.
pub open spec fn rotated(s: StorageView, fresh: [u8; 32]) -> StorageView {
    StorageView { nonce: Some(fresh), ..s }
}

/// The key, the nonce and the tag are all set.
pub open spec fn key_material_present(s: StorageView) -> bool {
    s.bls_public_key is Some && s.nonce is Some && s.dst is Some
}

/// The entries `s` accept the signature `sig`: the key material is present
/// and `sig` is a signature over the live nonce under the stored key and tag.
pub open spec fn accepts(s: StorageView, sig: [u8; 192]) -> bool {
    key_material_present(s) && signature_verifies(
        s.bls_public_key->0@,
        s.dst->0,
        s.nonce->0@,
        sig@,
    )
}

/// The verdict on a signature of which the host has said whether it
/// verifies: accepted if it does, refused as invalid if it does not, and
/// refused for want of key material where the key, the nonce or the tag is
/// not set, whatever the host said.
pub open spec fn judged(s: StorageView, verified: bool) -> Result<(), ContractError> {
    if !key_material_present(s) {
        Err(ContractError::MissingKeyMaterial)
    } else if verified {
        Ok(())
    } else {
        Err(ContractError::InvalidSignature)
    }
}

/// The answer to a verification of `sig` against the entries `s`.
pub open spec fn verdict(s: StorageView, sig: [u8; 192]) -> Result<(), ContractError> {
    judged(s, accepts(s, sig))
}

/// How a verification of `sig` against the entries `pre` ends when `fresh`
/// are the bytes drawn for the next nonce: with the verdict, and with
/// `fresh` as the nonce and nothing else changed if the signature was
/// accepted, with nothing changed if it was refused.
pub open spec fn checked(
    pre: StorageView,
    sig: [u8; 192],
    fresh: [u8; 32],
    r: Result<(), ContractError>,
    post: StorageView,
) -> bool {
    &&& r == verdict(pre, sig)
    &&& if r is Ok {
        post == rotated(pre, fresh)
    } else {
        post == pre
    }
}

/// The gateway's answer to a request of which it is known whether a
/// signature came with it and, if one did, what the verdict on it is. A
/// signature, where one is given, decides alone. Without one, the
/// configured owner account has to attest; where none is configured the
/// request is refused.
pub open spec fn answered(s: StorageView, verdict: Option<Result<(), ContractError>>) -> Result<
    Authorization,
    ContractError,
> {
    match verdict {
        Some(Ok(_)) => Ok(Authorization::Signature),
        Some(Err(e)) => Err(e),
        None => match s.user_account {
            Some(owner) => Ok(Authorization::Attestation(owner)),
            None => Err(ContractError::UserAccountNotFound),
        },
    }
}

/// The gateway's answer to a request against the entries `s`.
pub open spec fn gateway(s: StorageView, tx_signature: Option<[u8; 192]>) -> Result<
    Authorization,
    ContractError,
> {
    answered(
        s,
        match tx_signature {
            Some(sig) => Some(verdict(s, sig)),
            None => None,
        },
    )
}

/// How a request to the gateway against the entries `pre` ends when `fresh`
/// are the bytes drawn for the next nonce: with the gateway's answer, and
/// with `fresh` as the nonce and nothing else changed if the request was
/// authorized, with nothing changed if it was refused.
pub open spec fn authorized(
    pre: StorageView,
    tx_signature: Option<[u8; 192]>,
    fresh: [u8; 32],
    r: Result<Authorization, ContractError>,
    post: StorageView,
) -> bool {
    &&& r == gateway(pre, tx_signature)
    &&& if r is Ok {
        post == rotated(pre, fresh)
    } else {
        post == pre
    }
}

/// Stores the account's domain separation tag.
pub fn write_dst_bytes(store: &mut Storage)
    ensures
        final(store)@ == (StorageView { dst: Some(DST@), ..old(store)@ }),
{
    store.dst = Some(copy_bytes(&DST));
}

/// The stored domain separation tag, if there is one.
pub fn read_dst_bytes(store: &Storage) -> (r: Option<Vec<u8>>)
    ensures
        match r {
            Some(tag) => store@.dst == Some(tag@),
            None => store@.dst is None,
        },
{
    match &store.dst {
        Some(tag) => Some(copy_bytes(tag.as_slice())),
        None => None,
    }
}

/// The live nonce. An account that was never constructed has none.
pub fn read_nonce(store: &Storage) -> (r: Result<[u8; 32], ContractError>)
    ensures
        r == match store@.nonce {
            Some(nonce) => Ok::<[u8; 32], ContractError>(nonce),
            None => Err(ContractError::MissingKeyMaterial),
        },
{
    match store.nonce {
        Some(nonce) => Ok(nonce),
        None => Err(ContractError::MissingKeyMaterial),
    }
}

/// Makes `fresh`, the bytes drawn for it, the live nonce, whatever the
/// nonce was. To be called only for an invocation that is already
/// authorized.
pub fn write_nonce(store: &mut Storage, fresh: [u8; 32])
    ensures
        final(store)@ == rotated(old(store)@, fresh),
{
    store.nonce = Some(fresh);
}

/// The verdict on a signature of which the host has said whether it
/// verifies.
pub fn judge(store: &Storage, verified: bool) -> (r: Result<(), ContractError>)
    ensures
        r == judged(store@, verified),
{
    if store.bls_public_key.is_none() || store.nonce.is_none() || store.dst.is_none() {
        Err(ContractError::MissingKeyMaterial)
    } else if verified {
        Ok(())
    } else {
        Err(ContractError::InvalidSignature)
    }
}

/// The gateway's answer to a request of which it is known whether a
/// signature came with it and, if one did, what the verdict on it is.
pub fn answer_request(store: &Storage, verdict: Option<Result<(), ContractError>>) -> (r: Result<
    Authorization,
    ContractError,
>)
    ensures
        r == answered(store@, verdict),
{
    match verdict {
        Some(Ok(_)) => Ok(Authorization::Signature),
        Some(Err(e)) => Err(e),
        None => match read_user_account(store) {
            Ok(owner) => Ok(Authorization::Attestation(owner)),
            Err(e) => Err(e),
        },
    }
}

/// The verdict on `tx_signature` against the live nonce. Nothing changes.
pub fn examine(env: &soroban_sdk::Env, store: &Storage, tx_signature: &[u8; 192]) -> (r: Result<
    (),
    ContractError,
>)
    ensures
        r == verdict(store@, *tx_signature),
{
    let verified = match (&store.bls_public_key, &store.dst, &store.nonce) {
        (Some(key), Some(tag), Some(nonce)) => verify_signature(
            env,
            key,
            tag.as_slice(),
            nonce,
            tx_signature,
        ),
        _ => false,
    };
    judge(store, verified)
}

/// The gateway's answer to a request. Nothing changes: this is the answer
/// that `owner_require_auth` would give, for whoever has to know it before
/// acting on the request.
pub fn gateway_answer(
    env: &soroban_sdk::Env,
    store: &Storage,
    tx_signature: &Option<[u8; 192]>,
) -> (r: Result<Authorization, ContractError>)
    ensures
        r == gateway(store@, *tx_signature),
{
    match tx_signature {
        Some(signature) => {
            let verdict = examine(env, store, signature);
            answer_request(store, Some(verdict))
        },
        None => answer_request(store, None),
    }
}

/// Verifies `tx_signature` against the live nonce and, if it is accepted,
/// makes `fresh`, the bytes drawn for it, the next nonce.
pub fn check_auth(
    env: &soroban_sdk::Env,
    store: &mut Storage,
    tx_signature: &[u8; 192],
    fresh: [u8; 32],
) -> (r: Result<(), ContractError>)
    ensures
        checked(old(store)@, *tx_signature, fresh, r, final(store)@),
{
    let verdict = examine(env, store, tx_signature);
    if verdict.is_ok() {
        write_nonce(store, fresh);
    }
    verdict
}

/// The gateway in front of every privileged operation. A signature, where
/// one is given, decides alone; without one the owner account must attest.
/// An authorization makes `fresh`, the bytes drawn for it, the next nonce.
pub fn owner_require_auth(
    env: &soroban_sdk::Env,
    store: &mut Storage,
    tx_signature: Option<[u8; 192]>,
    fresh: [u8; 32],
) -> (r: Result<Authorization, ContractError>)
    ensures
        authorized(old(store)@, tx_signature, fresh, r, final(store)@),
{
    let answer = gateway_answer(env, store, &tx_signature);
    if answer.is_ok() {
        write_nonce(store, fresh);
    }
    answer
}

} // verus!
