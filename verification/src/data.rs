//! The names of the account's persisted entries.

use crate::storage::{Storage, StorageView};
use crate::types::Address;
use vstd::prelude::*;

verus! {

/// The key of a persisted entry. The account's operations write only some
/// of the entries that have a key.
#[derive(Clone, Copy, Debug, PartialEq, Eq)]
pub enum DataKey {
    UserAccountId,
    MasterContractId,
    DappRouterId,
    BlsPublicKey,
    WebKey,
    Allowance(Address, Address),
    PrimarySocialProfile,
    AllowanceExpiration,
    SmartAllowance(Address),
    Balance(Address),
    TokenList,
    Nonce,
    Dst,
    TransactionNonce,
    SoroswapContract,
    PairContract,
}

impl StorageView {
    /// Whether the entry under `key` holds anything.
    pub open spec fn holds(self, key: DataKey) -> bool {
        match key {
            DataKey::UserAccountId => self.user_account is Some,
            DataKey::MasterContractId => self.master_contract is Some,
            DataKey::DappRouterId => self.dapp_router is Some,
            DataKey::BlsPublicKey => self.bls_public_key is Some,
            DataKey::WebKey => self.web_keys is Some,
            DataKey::AllowanceExpiration => self.allowance_expiration is Some,
            DataKey::TokenList => self.token_list.len() > 0,
            DataKey::Nonce => self.nonce is Some,
            DataKey::Dst => self.dst is Some,
            _ => false,
        }
    }
}

impl Storage {
    /// Whether the entry under `key` holds anything.
    pub fn has(&self, key: &DataKey) -> (r: bool)
        ensures
            r == self@.holds(*key),
    {
        match key {
            DataKey::UserAccountId => self.user_account.is_some(),
            DataKey::MasterContractId => self.master_contract.is_some(),
            DataKey::DappRouterId => self.dapp_router.is_some(),
            DataKey::BlsPublicKey => self.bls_public_key.is_some(),
            DataKey::WebKey => self.web_keys.is_some(),
            DataKey::AllowanceExpiration => self.allowance_expiration.is_some(),
            DataKey::TokenList => self.token_list.len() > 0,
            DataKey::Nonce => self.nonce.is_some(),
            DataKey::Dst => self.dst.is_some(),
            _ => false,
        }
    }
}

} // verus!
