//! The owner reference, the key registry, the recovery record and the
//! references to the routing contracts.

use crate::action::{Action, ActionView};
use crate::bls::{aggregable, aggregate, aggregate_keys};
use crate::data::DataKey;
use crate::error::ContractError;
use crate::formatter::{convert_to_lower, normalizable, to_lower};
use crate::storage::{copy_bytes, Storage, StorageView};
use crate::types::{Address, WebKeyDetails, WebKeyDetailsView};
use vstd::prelude::*;

verus! {

/// Whether an owner account is configured.
pub fn has_user_account(store: &Storage) -> (r: bool)
    ensures
        r == (store@.user_account is Some),
{
    store.has(&DataKey::UserAccountId)
}

/// The configured owner account.
pub fn read_user_account(store: &Storage) -> (r: Result<Address, ContractError>)
    ensures
        r == match store@.user_account {
            Some(owner) => Ok::<Address, ContractError>(owner),
            None => Err(ContractError::UserAccountNotFound),
        },
{
    match store.user_account {
        Some(owner) => Ok(owner),
        None => Err(ContractError::UserAccountNotFound),
    }
}

/// Configures `user_account_id` as the owner account.
pub fn write_user_account(store: &mut Storage, user_account_id: &Address)
    ensures
        final(store)@ == (StorageView { user_account: Some(*user_account_id), ..old(store)@ }),
{
    store.user_account = Some(*user_account_id);
}

/// The call that demands the attestation of the configured owner account.
pub fn authenticate_user_account(store: &Storage) -> (call: Action)
    requires
        store@.user_account is Some,
    ensures
        call@ == ActionView::RequireAuth(store@.user_account->0),
{
    Action::RequireAuth(store.user_account.unwrap())
}

/// Whether the account was constructed: whether it has its aggregated key.
pub fn is_initialized(store: &Storage) -> (r: bool)
    ensures
        r == (store@.bls_public_key is Some),
{
    store.has(&DataKey::BlsPublicKey)
}

/// How `write_aggregated_pk_bytes` on `keys` answers and what it leaves of
/// the entries `pre`: the aggregate as the account's key where the list can
/// be aggregated, a refusal and the entries as they were where it cannot.
pub open spec fn key_written(
    pre: StorageView,
    keys: Seq<[u8; 96]>,
    r: Result<(), ContractError>,
    post: StorageView,
) -> bool {
    if aggregable(keys) {
        &&& r == Ok::<(), ContractError>(())
        &&& post.bls_public_key is Some
        &&& post.bls_public_key->0@ == aggregate(keys)
        &&& post == (StorageView { bls_public_key: post.bls_public_key, ..pre })
    } else {
        &&& r == Err::<(), ContractError>(ContractError::InvalidPublicKey)
        &&& post == pre
    }
}

/// Stores `aggregate` as the account's key, if there is one; the want of
/// one is the refusal of the list of keys that it was to be the aggregate
/// of.
pub fn store_aggregate(store: &mut Storage, aggregate: Option<[u8; 96]>) -> (r: Result<
    (),
    ContractError,
>)
    ensures
        match aggregate {
            Some(key) => r == Ok::<(), ContractError>(()) && final(store)@ == (StorageView {
                bls_public_key: Some(key),
                ..old(store)@
            }),
            None => r == Err::<(), ContractError>(ContractError::InvalidPublicKey)
                && final(store)@ == old(store)@,
        },
{
    match aggregate {
        Some(key) => {
            store.bls_public_key = Some(key);
            Ok(())
        },
        None => Err(ContractError::InvalidPublicKey),
    }
}

/// Aggregates `keypair_pubkeys` and stores the aggregate as the account's
/// key. A list that cannot be aggregated is refused and nothing is stored.
pub fn write_aggregated_pk_bytes(
    env: &soroban_sdk::Env,
    store: &mut Storage,
    keypair_pubkeys: &Vec<[u8; 96]>,
) -> (r: Result<(), ContractError>)
    ensures
        key_written(old(store)@, keypair_pubkeys@, r, final(store)@),
{
    let aggregate = aggregate_keys(env, keypair_pubkeys);
    store_aggregate(store, aggregate)
}

/// The account's aggregated key, if it has one.
pub fn read_aggregated_pk_bytes(store: &Storage) -> (r: Option<[u8; 96]>)
    ensures
        r == store@.bls_public_key,
{
    store.bls_public_key
}

/// The recovery record that `write_web_keys_bytes` stores for its arguments.
pub open spec fn web_keys_record(
    platform: Seq<u8>,
    social_username: Seq<u8>,
    web_pubkey: [u8; 77],
) -> WebKeyDetailsView {
    WebKeyDetailsView {
        web_public_key: web_pubkey,
        primary_social_acct: to_lower(social_username),
        platform: to_lower(platform),
    }
}

/// Stores the recovery record as one unit: the auxiliary key with the
/// platform's name and the owner's handle, both in lower case.
pub fn write_web_keys_bytes(
    store: &mut Storage,
    platform: &[u8],
    social_username: &[u8],
    web_pubkey: [u8; 77],
)
    requires
        normalizable(platform@),
        normalizable(social_username@),
    ensures
        final(store)@ == (StorageView {
            web_keys: Some(web_keys_record(platform@, social_username@, web_pubkey)),
            ..old(store)@
        }),
{
    let primary_social_acct = convert_to_lower(social_username);
    let platform = convert_to_lower(platform);
    store.web_keys = Some(
        WebKeyDetails { web_public_key: web_pubkey, primary_social_acct, platform },
    );
}

/// `record` is the one that stands for a recovery record that was never
/// written: a key of zeros and empty names.
pub open spec fn is_default_web_keys(record: WebKeyDetailsView) -> bool {
    &&& record.web_public_key@ == Seq::new(77, |i: int| 0u8)
    &&& record.primary_social_acct == Seq::<u8>::empty()
    &&& record.platform == Seq::<u8>::empty()
}

/// The recovery record, or the default record if none was written.
pub fn read_web_keys_bytes(store: &Storage) -> (r: WebKeyDetails)
    ensures
        match store@.web_keys {
            Some(w) => r@ == w,
            None => is_default_web_keys(r@),
        },
{
    match &store.web_keys {
        Some(w) => WebKeyDetails {
            web_public_key: w.web_public_key,
            primary_social_acct: copy_bytes(w.primary_social_acct.as_slice()),
            platform: copy_bytes(w.platform.as_slice()),
        },
        None => {
            let zeros = [0u8; 77];
            assert(zeros@ =~= Seq::new(77, |i: int| 0u8));
            WebKeyDetails {
                web_public_key: zeros,
                primary_social_acct: Vec::new(),
                platform: Vec::new(),
            }
        },
    }
}

/// The contract that resolves and calls the exchange routers, if one is
/// configured.
pub fn read_master_contract_id(store: &Storage) -> (r: Option<Address>)
    ensures
        r == store@.master_contract,
{
    store.master_contract
}

/// Configures the contract that resolves and calls the exchange routers.
pub fn write_master_contract_id(store: &mut Storage, master_contract_id: &Address)
    ensures
        final(store)@ == (StorageView {
            master_contract: Some(*master_contract_id),
            ..old(store)@
        }),
{
    store.master_contract = Some(*master_contract_id);
}

/// The router of decentralised applications, if one is configured.
pub fn read_dapp_router_contract_id(store: &Storage) -> (r: Option<Address>)
    ensures
        r == store@.dapp_router,
{
    store.dapp_router
}

/// Configures the router of decentralised applications.
pub fn write_dapp_router_contract_id(store: &mut Storage, dapp_router_contract_id: &Address)
    ensures
        final(store)@ == (StorageView {
            dapp_router: Some(*dapp_router_contract_id),
            ..old(store)@
        }),
{
    store.dapp_router = Some(*dapp_router_contract_id);
}

} // verus!
