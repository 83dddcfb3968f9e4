//! The account and its operations.

use crate::access::{
    is_initialized, read_web_keys_bytes, write_dapp_router_contract_id,
    write_master_contract_id, write_user_account,
};
use crate::account_token::{
    allowance_window, read_allowance, read_balance, send_token, spend_token, take_token,
    write_allowance_expiration, write_approve,
};
use crate::action::{append, auth_actions, plan_for, plan_view, Action, ActionView, Query};
use crate::bls_account_auth::{owner_require_auth, read_nonce};
use crate::constructor::init_constructor;
use crate::dap_adapter::{
    chain_view, copy_chain, copy_path, deep_auth_aqua_amm, deep_auth_soroswap, SwapHop,
};
use crate::error::ContractError;
use crate::storage::Storage;
use crate::token_list::write_add_token;
use crate::types::{Address, WebKeyDetails};
use crate::user_account_trait::{positive, AccountTrait};
use vstd::prelude::*;

verus! {

/// The custodial account: the operations that its host offers to the world.
pub struct Account;

/// The entries of `amounts` with a positive amount, in their order.
pub fn select_positive(amounts: &Vec<(Address, i128)>) -> (list: Vec<(Address, i128)>)
    ensures
        list@ == positive(amounts@),
{
    let mut list: Vec<(Address, i128)> = Vec::new();
    let mut i: usize = 0;
    proof {
        reveal(Seq::filter);
        assert(amounts@.subrange(0, 0) =~= Seq::empty());
    }
    while i < amounts.len()
        invariant
            0 <= i <= amounts@.len(),
            list@ == positive(amounts@.subrange(0, i as int)),
        decreases amounts@.len() - i,
    {
        proof {
            reveal(Seq::filter);
            let next = amounts@.subrange(0, i + 1);
            assert(next.drop_last() =~= amounts@.subrange(0, i as int));
            assert(next.last() == amounts@[i as int]);
        }
        if amounts[i].1 > 0 {
            list.push(amounts[i]);
        }
        i += 1;
    }
    assert(amounts@.subrange(0, i as int) =~= amounts@);
    list
}

impl AccountTrait for Account {
    fn init(
        env: &soroban_sdk::Env,
        store: &mut Storage,
        bls_pubkeys: &Vec<[u8; 96]>,
        platform: &[u8],
        social_username: &[u8],
        web_pubkey: [u8; 77],
        master_contract_id: Address,
        dapp_router_contract_id: Address,
        fresh: [u8; 32],
    ) -> (r: Result<(), ContractError>)
    {
        if is_initialized(store) {
            return Err(ContractError::AlreadyInitialized);
        }
        init_constructor(
            env,
            store,
            bls_pubkeys,
            platform,
            social_username,
            web_pubkey,
            master_contract_id,
            dapp_router_contract_id,
            fresh,
        )
    }

    fn update_allowance_expiration(
        env: &soroban_sdk::Env,
        store: &mut Storage,
        expiration_ledger: u32,
        tx_signature: Option<[u8; 192]>,
        fresh: [u8; 32],
    ) -> (r: Result<Vec<Action>, ContractError>)
    {
        let auth = match owner_require_auth(env, store, tx_signature, fresh) {
            Ok(auth) => auth,
            Err(e) => {
                return Err(e);
            },
        };
        write_allowance_expiration(store, expiration_ledger);
        let plan = plan_for(auth);
        assert(auth_actions(auth) + Seq::empty() =~= auth_actions(auth));
        Ok(plan)
    }

    fn set_user_account(
        env: &soroban_sdk::Env,
        store: &mut Storage,
        user_account_id: Address,
        tx_signature: Option<[u8; 192]>,
        fresh: [u8; 32],
    ) -> (r: Result<Vec<Action>, ContractError>)
    {
        let auth = match owner_require_auth(env, store, tx_signature, fresh) {
            Ok(auth) => auth,
            Err(e) => {
                return Err(e);
            },
        };
        write_user_account(store, &user_account_id);
        let plan = plan_for(auth);
        assert(auth_actions(auth) + Seq::empty() =~= auth_actions(auth));
        Ok(plan)
    }

    fn update_master_contract(
        env: &soroban_sdk::Env,
        store: &mut Storage,
        master_contract_id: Address,
        tx_signature: Option<[u8; 192]>,
        fresh: [u8; 32],
    ) -> (r: Result<Vec<Action>, ContractError>)
    {
        let auth = match owner_require_auth(env, store, tx_signature, fresh) {
            Ok(auth) => auth,
            Err(e) => {
                return Err(e);
            },
        };
        write_master_contract_id(store, &master_contract_id);
        let plan = plan_for(auth);
        assert(auth_actions(auth) + Seq::empty() =~= auth_actions(auth));
        Ok(plan)
    }

    fn update_dapp_router_contract(
        env: &soroban_sdk::Env,
        store: &mut Storage,
        dapp_router_contract_id: Address,
        tx_signature: Option<[u8; 192]>,
        fresh: [u8; 32],
    ) -> (r: Result<Vec<Action>, ContractError>)
    {
        let auth = match owner_require_auth(env, store, tx_signature, fresh) {
            Ok(auth) => auth,
            Err(e) => {
                return Err(e);
            },
        };
        write_dapp_router_contract_id(store, &dapp_router_contract_id);
        let plan = plan_for(auth);
        assert(auth_actions(auth) + Seq::empty() =~= auth_actions(auth));
        Ok(plan)
    }

    fn deposit(
        store: &mut Storage,
        this: Address,
        from: Address,
        token_id: Address,
        amount: i128,
    ) -> (plan: Vec<Action>)
    {
        let mut plan: Vec<Action> = Vec::new();
        append(&mut plan, Action::RequireAuth(from));
        append(&mut plan, take_token(&this, &from, &token_id, amount));
        write_add_token(store, token_id);
        assert(plan_view(plan@) =~= seq![
            ActionView::RequireAuth(from),
            ActionView::Transfer { token: token_id, from, to: this, amount },
        ]);
        plan
    }

    fn withdraw(
        env: &soroban_sdk::Env,
        store: &mut Storage,
        this: Address,
        to: Address,
        token_id: Address,
        amount: i128,
        tx_signature: Option<[u8; 192]>,
        fresh: [u8; 32],
    ) -> (r: Result<Vec<Action>, ContractError>)
    {
        let auth = match owner_require_auth(env, store, tx_signature, fresh) {
            Ok(auth) => auth,
            Err(e) => {
                return Err(e);
            },
        };
        let mut plan = plan_for(auth);
        append(&mut plan, send_token(&this, &to, &token_id, amount));
        assert(plan_view(plan@) =~= auth_actions(auth) + seq![
            ActionView::Transfer { token: token_id, from: this, to, amount },
        ]);
        Ok(plan)
    }

    fn swap_tokens_soroswap(
        env: &soroban_sdk::Env,
        store: &mut Storage,
        this: Address,
        soroswap_id: Address,
        pair_id: Address,
        amount_in: i128,
        amount_out_min: i128,
        path: &Vec<Address>,
        deadline: u64,
        tx_signature: Option<[u8; 192]>,
        fresh: [u8; 32],
    ) -> (r: Result<Vec<Action>, ContractError>)
    {
        let auth = match owner_require_auth(env, store, tx_signature, fresh) {
            Ok(auth) => auth,
            Err(e) => {
                return Err(e);
            },
        };
        let adapter = store.master_contract.unwrap();
        let tree = deep_auth_soroswap(
            soroswap_id,
            pair_id,
            amount_in,
            amount_out_min,
            deadline,
            path,
            this,
        );
        let mut plan = plan_for(auth);
        let ghost granted = tree@;
        append(&mut plan, Action::Authorize(tree));
        append(
            &mut plan,
            Action::SwapExactSoroswap {
                adapter,
                amount_in,
                amount_out_min,
                path: copy_path(path),
                to: this,
                deadline,
            },
        );
        write_add_token(store, path[path.len() - 1]);
        assert(plan_view(plan@) =~= auth_actions(auth) + seq![
            ActionView::Authorize(granted),
            ActionView::SwapExactSoroswap {
                adapter,
                amount_in,
                amount_out_min,
                path: path@,
                to: this,
                deadline,
            },
        ]);
        Ok(plan)
    }

    fn swap_tokens_aqua(
        env: &soroban_sdk::Env,
        store: &mut Storage,
        this: Address,
        aqua_router_id: Address,
        swaps_chain: &Vec<SwapHop>,
        token_in: Address,
        in_amount: u128,
        out_min: u128,
        tx_signature: Option<[u8; 192]>,
        fresh: [u8; 32],
    ) -> (r: Result<Vec<Action>, ContractError>)
    {
        let auth = match owner_require_auth(env, store, tx_signature, fresh) {
            Ok(auth) => auth,
            Err(e) => {
                return Err(e);
            },
        };
        let adapter = store.master_contract.unwrap();
        let tree = deep_auth_aqua_amm(
            aqua_router_id,
            this,
            swaps_chain,
            token_in,
            in_amount,
            out_min,
        );
        let mut plan = plan_for(auth);
        let ghost granted = tree@;
        append(&mut plan, Action::Authorize(tree));
        append(
            &mut plan,
            Action::SwapChainAqua {
                adapter,
                to: this,
                swaps_chain: copy_chain(swaps_chain),
                token_in,
                in_amount,
                out_min,
            },
        );
        if swaps_chain.len() > 0 {
            write_add_token(store, swaps_chain[swaps_chain.len() - 1].token_out);
        }
        assert(plan_view(plan@) =~= auth_actions(auth) + seq![
            ActionView::Authorize(granted),
            ActionView::SwapChainAqua {
                adapter,
                to: this,
                swaps_chain: chain_view(swaps_chain@),
                token_in,
                in_amount,
                out_min,
            },
        ]);
        Ok(plan)
    }

    fn approve(
        env: &soroban_sdk::Env,
        store: &mut Storage,
        this: Address,
        token_id: Address,
        spender: Address,
        amount: i128,
        ledger_sequence: u32,
        tx_signature: Option<[u8; 192]>,
        fresh: [u8; 32],
    ) -> (r: Result<Vec<Action>, ContractError>)
    {
        let auth = match owner_require_auth(env, store, tx_signature, fresh) {
            Ok(auth) => auth,
            Err(e) => {
                return Err(e);
            },
        };
        let mut plan = plan_for(auth);
        let call = write_approve(store, &this, &token_id, &spender, amount, ledger_sequence);
        append(&mut plan, call);
        assert(plan_view(plan@) =~= auth_actions(auth) + seq![
            ActionView::Approve {
                token: token_id,
                from: this,
                spender,
                amount,
                expiration_ledger: (allowance_window(old(store)@) + ledger_sequence) as u32,
            },
        ]);
        Ok(plan)
    }

    fn spend(this: Address, token_id: Address, spender: Address, amount: i128, to: Address) -> (plan:
        Vec<Action>)
    {
        let mut plan: Vec<Action> = Vec::new();
        append(&mut plan, Action::RequireAuth(spender));
        append(&mut plan, spend_token(&this, &spender, &token_id, amount, &to));
        assert(plan_view(plan@) =~= seq![
            ActionView::RequireAuth(spender),
            ActionView::TransferFrom { token: token_id, spender, from: this, to, amount },
        ]);
        plan
    }

    fn get_token_list(balances: &Vec<(Address, i128)>) -> (list: Vec<(Address, i128)>) {
        select_positive(balances)
    }

    fn get_spender_allowances(allowances: &Vec<(Address, i128)>) -> (list: Vec<(Address, i128)>) {
        select_positive(allowances)
    }

    fn get_web_keys(store: &Storage) -> (r: WebKeyDetails)
    {
        read_web_keys_bytes(store)
    }

    fn get_allowance(this: Address, token_id: Address, spender: Address) -> (query: Query)
    {
        read_allowance(&this, &token_id, &spender)
    }

    fn get_balance(this: Address, token_id: Address) -> (query: Query)
    {
        read_balance(&this, &token_id)
    }

    fn get_nonce(store: &Storage) -> (r: Result<[u8; 32], ContractError>)
    {
        read_nonce(store)
    }

    fn upgrade(
        env: &soroban_sdk::Env,
        store: &mut Storage,
        new_wasm_hash: [u8; 32],
        tx_signature: Option<[u8; 192]>,
        fresh: [u8; 32],
    ) -> (r: Result<Vec<Action>, ContractError>)
    {
        let auth = match owner_require_auth(env, store, tx_signature, fresh) {
            Ok(auth) => auth,
            Err(e) => {
                return Err(e);
            },
        };
        let mut plan = plan_for(auth);
        append(&mut plan, Action::UpdateWasm(new_wasm_hash));
        assert(plan_view(plan@) =~= auth_actions(auth) + seq![
            ActionView::UpdateWasm(new_wasm_hash),
        ]);
        Ok(plan)
    }
}

} // verus!
