//! What the account keeps between invocations.
//!
//! Every operation of the library takes the persisted entries as one value
//! and leaves the value as the entries are to be afterwards. Whoever hosts
//! the account reads the value before an operation and writes it back after
//! it. The ledger applies an invocation as a whole or not at all: if a host
//! call that the operation asks for fails, what was written is void.
//!
//! All entries are plain values but the list of tracked tokens, which is a
//! map of the host and so belongs to the host that made it.

use crate::token_list::TokenList;
use crate::types::{Address, WebKeyDetails, WebKeyDetailsView};
use vstd::prelude::*;

verus! {

/// The persisted entries of one account. An entry that was never written is
/// `None`.
#[derive(Debug, PartialEq, Eq)]
pub struct Storage {
    /// The owner's own account, which can attest directly.
    pub user_account: Option<Address>,
    /// The contract that resolves and calls the exchange routers.
    pub master_contract: Option<Address>,
    /// The router of decentralised applications.
    pub dapp_router: Option<Address>,
    /// The aggregated public key of the signing group.
    pub bls_public_key: Option<[u8; 96]>,
    /// The recovery record.
    pub web_keys: Option<WebKeyDetails>,
    /// The number of ledgers for which a new allowance stays valid.
    pub allowance_expiration: Option<u32>,
    /// The tokens that the account has held.
    pub token_list: TokenList,
    /// The challenge that the next signature must be over.
    pub nonce: Option<[u8; 32]>,
    /// The domain separation tag of the signature scheme.
    pub dst: Option<Vec<u8>>,
}

/// What a `Storage` holds.
pub struct StorageView {
    pub user_account: Option<Address>,
    pub master_contract: Option<Address>,
    pub dapp_router: Option<Address>,
    pub bls_public_key: Option<[u8; 96]>,
    pub web_keys: Option<WebKeyDetailsView>,
    pub allowance_expiration: Option<u32>,
    pub token_list: Seq<Address>,
    pub nonce: Option<[u8; 32]>,
    pub dst: Option<Seq<u8>>,
}

impl View for Storage {
    type V = StorageView;

    open spec fn view(&self) -> StorageView {
        StorageView {
            user_account: self.user_account,
            master_contract: self.master_contract,
            dapp_router: self.dapp_router,
            bls_public_key: self.bls_public_key,
            web_keys: match self.web_keys {
                Some(w) => Some(w@),
                None => None,
            },
            allowance_expiration: self.allowance_expiration,
            token_list: self.token_list@,
            nonce: self.nonce,
            dst: match self.dst {
                Some(d) => Some(d@),
                None => None,
            },
        }
    }
}

impl StorageView {
    /// The entries of an account that was never constructed.
    pub open spec fn empty() -> StorageView {
        StorageView {
            user_account: None,
            master_contract: None,
            dapp_router: None,
            bls_public_key: None,
            web_keys: None,
            allowance_expiration: None,
            token_list: Seq::empty(),
            nonce: None,
            dst: None,
        }
    }
}

impl Storage {
    /// The entries of an account that was never constructed, its token list
    /// held by the host of `env`.
    pub fn new(env: &soroban_sdk::Env) -> (store: Storage)
        ensures
            store@ == StorageView::empty(),
    {
        Storage {
            user_account: None,
            master_contract: None,
            dapp_router: None,
            bls_public_key: None,
            web_keys: None,
            allowance_expiration: None,
            token_list: TokenList::new(env),
            nonce: None,
            dst: None,
        }
    }
}

/// A copy of `bytes`.
pub fn copy_bytes(bytes: &[u8]) -> (copy: Vec<u8>)
    ensures
        copy@ == bytes@,
{
    let mut copy: Vec<u8> = Vec::new();
    let mut i: usize = 0;
    while i < bytes.len()
        invariant
            0 <= i <= bytes@.len(),
            copy@ == bytes@.subrange(0, i as int),
        decreases bytes@.len() - i,
    {
        copy.push(bytes[i]);
        assert(copy@ =~= bytes@.subrange(0, i + 1));
        i += 1;
    }
    assert(bytes@.subrange(0, i as int) =~= bytes@);
    copy
}

} // verus!
