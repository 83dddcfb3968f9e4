//! Construction of an account.

use crate::access::{
    web_keys_record, write_aggregated_pk_bytes, write_dapp_router_contract_id,
    write_master_contract_id, write_web_keys_bytes,
};
use crate::account_token::write_allowance_expiration;
use crate::bls::{aggregable, aggregate};
use crate::bls_account_auth::{write_dst_bytes, write_nonce, DST};
use crate::error::ContractError;
use crate::formatter::normalizable;
use crate::storage::{Storage, StorageView};
use crate::types::Address;
use vstd::prelude::*;

verus! {

/// The number of ledgers for which a new allowance of a new account stays
/// valid.
pub const DEFAULT_ALLOWANCE_EXPIRATION: u32 = 17000;

/// The entries `post` are those of an account constructed over the entries
/// `pre` with these arguments: it has the aggregate of `keys` as its key,
/// the recovery record, the tag, both contract references, the default
/// allowance horizon and `fresh` as its first nonce; what else `pre` held,
/// it holds.
pub open spec fn constructed(
    pre: StorageView,
    keys: Seq<[u8; 96]>,
    platform: Seq<u8>,
    social_username: Seq<u8>,
    web_pubkey: [u8; 77],
    master_contract_id: Address,
    dapp_router_contract_id: Address,
    fresh: [u8; 32],
    post: StorageView,
) -> bool {
    &&& post.bls_public_key is Some
    &&& post.bls_public_key->0@ == aggregate(keys)
    &&& post == (StorageView {
        bls_public_key: post.bls_public_key,
        web_keys: Some(web_keys_record(platform, social_username, web_pubkey)),
        dst: Some(DST@),
        master_contract: Some(master_contract_id),
        dapp_router: Some(dapp_router_contract_id),
        allowance_expiration: Some(DEFAULT_ALLOWANCE_EXPIRATION),
        nonce: Some(fresh),
        ..pre
    })
}

/// Constructs the account. A list of keys that cannot be aggregated is
/// refused, and then nothing is written. The first nonce is `fresh`, the
/// bytes drawn for it.
pub fn init_constructor(
    env: &soroban_sdk::Env,
    store: &mut Storage,
    bls_pubkeys: &Vec<[u8; 96]>,
    platform: &[u8],
    social_username: &[u8],
    web_pubkey: [u8; 77],
    master_contract_id: Address,
    dapp_router_contract_id: Address,
    fresh: [u8; 32],
) -> (r: Result<(), ContractError>)
    requires
        normalizable(platform@),
        normalizable(social_username@),
    ensures
        if aggregable(bls_pubkeys@) {
            &&& r == Ok::<(), ContractError>(())
            &&& constructed(
                old(store)@,
                bls_pubkeys@,
                platform@,
                social_username@,
                web_pubkey,
                master_contract_id,
                dapp_router_contract_id,
                fresh,
                final(store)@,
            )
        } else {
            &&& r == Err::<(), ContractError>(ContractError::InvalidPublicKey)
            &&& final(store)@ == old(store)@
        },
{
    match write_aggregated_pk_bytes(env, store, bls_pubkeys) {
        Ok(()) => {},
        Err(e) => {
            return Err(e);
        },
    }
    write_web_keys_bytes(store, platform, social_username, web_pubkey);
    write_dst_bytes(store);
    write_master_contract_id(store, &master_contract_id);
    write_dapp_router_contract_id(store, &dapp_router_contract_id);
    write_allowance_expiration(store, DEFAULT_ALLOWANCE_EXPIRATION);
    write_nonce(store, fresh);
    Ok(())
}

} // verus!
