//! The operations that an account offers, and what each owes its caller.
//!
//! A privileged operation passes the gateway first. If the gateway refuses,
//! the operation is refused and nothing changes. If it authorizes, the nonce
//! is replaced, the operation's own changes are made, and the operation
//! returns the calls that the host is to make: the owner's attestation
//! first, where the authorization rests on it, then the operation's own.
//!
//! The bytes of the next nonce are drawn by whoever hosts the account and
//! handed to the operation as `fresh`.

use crate::access::is_default_web_keys;
use crate::formatter::normalizable;
use crate::account_token::allowance_window;
use crate::action::{auth_actions, plan_view, Action, ActionView, Query};
use crate::bls::aggregable;
use crate::bls_account_auth::{gateway, rotated};
use crate::constructor::constructed;
use crate::dap_adapter::{
    aqua_capability, chain_view, soroswap_capability, transferable, SwapHop,
};
use crate::error::ContractError;
use crate::storage::{Storage, StorageView};
use crate::token_list::added;
use crate::types::{Address, WebKeyDetails};
use vstd::prelude::*;

verus! {

/// How a privileged operation ends that asks the host for `calls` and makes
/// of the entries `pre`, the nonce apart, the entries `changed`, when
/// `fresh` are the bytes drawn for the next nonce.
pub open spec fn privileged(
    pre: StorageView,
    tx_signature: Option<[u8; 192]>,
    fresh: [u8; 32],
    r: Result<Vec<Action>, ContractError>,
    post: StorageView,
    calls: Seq<ActionView>,
    changed: StorageView,
) -> bool {
    match gateway(pre, tx_signature) {
        Ok(auth) => {
            &&& r is Ok
            &&& plan_view(r->Ok_0@) == auth_actions(auth) + calls
            &&& post == rotated(changed, fresh)
        },
        Err(e) => {
            &&& r is Err
            &&& r->Err_0 == e
            &&& post == pre
        },
    }
}

/// The entries of `amounts` with a positive amount, in their order.
pub open spec fn positive(amounts: Seq<(Address, i128)>) -> Seq<(Address, i128)> {
    amounts.filter(|entry: (Address, i128)| entry.1 > 0)
}

/// The operations of a custodial account, each with what it owes its
/// caller.
pub trait AccountTrait {
    /// Constructs the account, once. A second construction is refused. For
    /// a first construction both names must be short enough for the host to
    /// write.
    fn init(
        env: &soroban_sdk::Env,
        store: &mut Storage,
        bls_pubkeys: &Vec<[u8; 96]>,
        platform: &[u8],
        social_username: &[u8],
        web_pubkey: [u8; 77],
        master_contract_id: Address,
        dapp_router_contract_id: Address,
        fresh: [u8; 32],
    ) -> (r: Result<(), ContractError>)
        requires
            old(store)@.bls_public_key is None ==> normalizable(platform@) && normalizable(
                social_username@,
            ),
        ensures
            if old(store)@.bls_public_key is Some {
                &&& r == Err::<(), ContractError>(ContractError::AlreadyInitialized)
                &&& final(store)@ == old(store)@
            } else if aggregable(bls_pubkeys@) {
                &&& r == Ok::<(), ContractError>(())
                &&& constructed(
                    old(store)@,
                    bls_pubkeys@,
                    platform@,
                    social_username@,
                    web_pubkey,
                    master_contract_id,
                    dapp_router_contract_id,
                    fresh,
                    final(store)@,
                )
            } else {
                &&& r == Err::<(), ContractError>(ContractError::InvalidPublicKey)
                &&& final(store)@ == old(store)@
            },
    ;

    /// Sets the number of ledgers for which a new allowance stays valid.
    fn update_allowance_expiration(
        env: &soroban_sdk::Env,
        store: &mut Storage,
        expiration_ledger: u32,
        tx_signature: Option<[u8; 192]>,
        fresh: [u8; 32],
    ) -> (r: Result<Vec<Action>, ContractError>)
        ensures
            privileged(
                old(store)@,
                tx_signature,
                fresh,
                r,
                final(store)@,
                Seq::empty(),
                StorageView { allowance_expiration: Some(expiration_ledger), ..old(store)@ },
            ),
    ;

    /// Configures the owner's own account, which can attest directly.
    fn set_user_account(
        env: &soroban_sdk::Env,
        store: &mut Storage,
        user_account_id: Address,
        tx_signature: Option<[u8; 192]>,
        fresh: [u8; 32],
    ) -> (r: Result<Vec<Action>, ContractError>)
        ensures
            privileged(
                old(store)@,
                tx_signature,
                fresh,
                r,
                final(store)@,
                Seq::empty(),
                StorageView { user_account: Some(user_account_id), ..old(store)@ },
            ),
    ;

    /// Configures the contract that resolves and calls the exchange routers.
    fn update_master_contract(
        env: &soroban_sdk::Env,
        store: &mut Storage,
        master_contract_id: Address,
        tx_signature: Option<[u8; 192]>,
        fresh: [u8; 32],
    ) -> (r: Result<Vec<Action>, ContractError>)
        ensures
            privileged(
                old(store)@,
                tx_signature,
                fresh,
                r,
                final(store)@,
                Seq::empty(),
                StorageView { master_contract: Some(master_contract_id), ..old(store)@ },
            ),
    ;

    /// Configures the router of decentralised applications.
    fn update_dapp_router_contract(
        env: &soroban_sdk::Env,
        store: &mut Storage,
        dapp_router_contract_id: Address,
        tx_signature: Option<[u8; 192]>,
        fresh: [u8; 32],
    ) -> (r: Result<Vec<Action>, ContractError>)
        ensures
            privileged(
                old(store)@,
                tx_signature,
                fresh,
                r,
                final(store)@,
                Seq::empty(),
                StorageView { dapp_router: Some(dapp_router_contract_id), ..old(store)@ },
            ),
    ;

    /// Takes `amount` of `token_id` from `from` into the account `this`.
    /// Anybody may deposit what is theirs: the depositor attests, no
    /// signature is asked. The token is tracked from then on.
    fn deposit(
        store: &mut Storage,
        this: Address,
        from: Address,
        token_id: Address,
        amount: i128,
    ) -> (plan: Vec<Action>)
        ensures
            plan_view(plan@) == seq![
                ActionView::RequireAuth(from),
                ActionView::Transfer { token: token_id, from, to: this, amount },
            ],
            added(old(store)@.token_list, token_id, final(store)@.token_list),
            final(store)@ == (StorageView {
                token_list: final(store)@.token_list,
                ..old(store)@
            }),
    ;

    /// Pays `amount` of `token_id` out of the account `this` to `to`.
    fn withdraw(
        env: &soroban_sdk::Env,
        store: &mut Storage,
        this: Address,
        to: Address,
        token_id: Address,
        amount: i128,
        tx_signature: Option<[u8; 192]>,
        fresh: [u8; 32],
    ) -> (r: Result<Vec<Action>, ContractError>)
        ensures
            privileged(
                old(store)@,
                tx_signature,
                fresh,
                r,
                final(store)@,
                seq![ActionView::Transfer { token: token_id, from: this, to, amount }],
                old(store)@,
            ),
    ;

    /// Swaps `amount_in` of the first token of `path` for the last on the
    /// single-pool router `soroswap_id`, through the adapter that the
    /// account has configured; the account `this` pays and receives. The
    /// router and the pool `pair_id` of the first hop are the ones that the
    /// adapter has just resolved for this path. The last token of the path,
    /// which the swap pays out, is tracked from then on. A request that the
    /// gateway refuses is refused whatever else it holds; one that it
    /// authorizes must have a path of two tokens or more and an adapter
    /// configured.
    fn swap_tokens_soroswap(
        env: &soroban_sdk::Env,
        store: &mut Storage,
        this: Address,
        soroswap_id: Address,
        pair_id: Address,
        amount_in: i128,
        amount_out_min: i128,
        path: &Vec<Address>,
        deadline: u64,
        tx_signature: Option<[u8; 192]>,
        fresh: [u8; 32],
    ) -> (r: Result<Vec<Action>, ContractError>)
        requires
            gateway(old(store)@, tx_signature) is Ok ==> path@.len() >= 2
                && old(store)@.master_contract is Some,
        ensures
            privileged(
                old(store)@,
                tx_signature,
                fresh,
                r,
                final(store)@,
                seq![
                    ActionView::Authorize(
                        soroswap_capability(
                            soroswap_id,
                            pair_id,
                            amount_in,
                            amount_out_min,
                            deadline,
                            path@,
                            this,
                        ),
                    ),
                    ActionView::SwapExactSoroswap {
                        adapter: old(store)@.master_contract->0,
                        amount_in,
                        amount_out_min,
                        path: path@,
                        to: this,
                        deadline,
                    },
                ],
                StorageView { token_list: final(store)@.token_list, ..old(store)@ },
            ),
            r is Ok ==> added(
                old(store)@.token_list,
                path@[path@.len() - 1],
                final(store)@.token_list,
            ),
    ;

    /// Swaps `in_amount` of `token_in` over the hops of `swaps_chain` on the
    /// chained router `aqua_router_id`, through the adapter that the account
    /// has configured; the account `this` pays and receives. The router is
    /// the one that the adapter has just named. The token that the last hop
    /// pays out is tracked from then on. A request that the gateway refuses
    /// is refused whatever else it holds; one that it authorizes must have
    /// an adapter configured and an amount that a transfer can speak of.
    fn swap_tokens_aqua(
        env: &soroban_sdk::Env,
        store: &mut Storage,
        this: Address,
        aqua_router_id: Address,
        swaps_chain: &Vec<SwapHop>,
        token_in: Address,
        in_amount: u128,
        out_min: u128,
        tx_signature: Option<[u8; 192]>,
        fresh: [u8; 32],
    ) -> (r: Result<Vec<Action>, ContractError>)
        requires
            gateway(old(store)@, tx_signature) is Ok ==> old(store)@.master_contract is Some
                && transferable(in_amount),
        ensures
            privileged(
                old(store)@,
                tx_signature,
                fresh,
                r,
                final(store)@,
                seq![
                    ActionView::Authorize(
                        aqua_capability(
                            aqua_router_id,
                            this,
                            chain_view(swaps_chain@),
                            token_in,
                            in_amount,
                            out_min,
                        ),
                    ),
                    ActionView::SwapChainAqua {
                        adapter: old(store)@.master_contract->0,
                        to: this,
                        swaps_chain: chain_view(swaps_chain@),
                        token_in,
                        in_amount,
                        out_min,
                    },
                ],
                StorageView { token_list: final(store)@.token_list, ..old(store)@ },
            ),
            r is Ok ==> if swaps_chain@.len() > 0 {
                added(
                    old(store)@.token_list,
                    swaps_chain@[swaps_chain@.len() - 1].token_out,
                    final(store)@.token_list,
                )
            } else {
                final(store)@.token_list == old(store)@.token_list
            },
    ;

    /// Lets `spender` spend `amount` of `token_id` of the account `this`,
    /// until the configured number of ledgers after `ledger_sequence`, the
    /// ledger's current sequence number. A request that the gateway refuses
    /// is refused whatever else it holds; for one that it authorizes the
    /// ledger of expiry must be a number of 32 bits.
    fn approve(
        env: &soroban_sdk::Env,
        store: &mut Storage,
        this: Address,
        token_id: Address,
        spender: Address,
        amount: i128,
        ledger_sequence: u32,
        tx_signature: Option<[u8; 192]>,
        fresh: [u8; 32],
    ) -> (r: Result<Vec<Action>, ContractError>)
        requires
            gateway(old(store)@, tx_signature) is Ok ==> allowance_window(old(store)@)
                + ledger_sequence <= u32::MAX,
        ensures
            privileged(
                old(store)@,
                tx_signature,
                fresh,
                r,
                final(store)@,
                seq![
                    ActionView::Approve {
                        token: token_id,
                        from: this,
                        spender,
                        amount,
                        expiration_ledger: (allowance_window(old(store)@) + ledger_sequence) as u32,
                    },
                ],
                old(store)@,
            ),
    ;

    /// Has `spender` move `amount` of `token_id` out of its allowance from
    /// the account `this` to `to`. The spender attests; the owner is not
    /// asked again.
    fn spend(this: Address, token_id: Address, spender: Address, amount: i128, to: Address) -> (plan:
        Vec<Action>)
        ensures
            plan_view(plan@) == seq![
                ActionView::RequireAuth(spender),
                ActionView::TransferFrom { token: token_id, spender, from: this, to, amount },
            ],
    ;

    /// Of the tracked tokens with the account's balances, as the token
    /// contracts report them, those of which the account holds something.
    /// Only of these is the symbol asked.
    fn get_token_list(balances: &Vec<(Address, i128)>) -> (list: Vec<(Address, i128)>)
        ensures
            list@ == positive(balances@),
    ;

    /// Of the tracked tokens with what a spender may still spend of them, as
    /// the token contracts report it, those of which the spender may spend
    /// something. Only of these is the symbol asked.
    fn get_spender_allowances(allowances: &Vec<(Address, i128)>) -> (list: Vec<(Address, i128)>)
        ensures
            list@ == positive(allowances@),
    ;

    /// The recovery record, or the default record if none was written.
    fn get_web_keys(store: &Storage) -> (r: WebKeyDetails)
        ensures
            match store@.web_keys {
                Some(w) => r@ == w,
                None => is_default_web_keys(r@),
            },
    ;

    /// The question what `spender` may still spend of `token_id` of the
    /// account `this`.
    fn get_allowance(this: Address, token_id: Address, spender: Address) -> (query: Query)
        ensures
            query == (Query::Allowance { token: token_id, from: this, spender }),
    ;

    /// The question what the account `this` holds of `token_id`.
    fn get_balance(this: Address, token_id: Address) -> (query: Query)
        ensures
            query == (Query::Balance { token: token_id, id: this }),
    ;

    /// The live nonce: what the next signature must be over.
    fn get_nonce(store: &Storage) -> (r: Result<[u8; 32], ContractError>)
        ensures
            r == match store@.nonce {
                Some(nonce) => Ok::<[u8; 32], ContractError>(nonce),
                None => Err(ContractError::MissingKeyMaterial),
            },
    ;

    /// Replaces the account's code by the code with the hash
    /// `new_wasm_hash`.
    fn upgrade(
        env: &soroban_sdk::Env,
        store: &mut Storage,
        new_wasm_hash: [u8; 32],
        tx_signature: Option<[u8; 192]>,
        fresh: [u8; 32],
    ) -> (r: Result<Vec<Action>, ContractError>)
        ensures
            privileged(
                old(store)@,
                tx_signature,
                fresh,
                r,
                final(store)@,
                seq![ActionView::UpdateWasm(new_wasm_hash)],
                old(store)@,
            ),
    ;
}

} // verus!
