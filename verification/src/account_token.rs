//! The calls into token contracts, and the horizon of allowances.

use crate::action::{Action, ActionView, Query};
use crate::storage::{Storage, StorageView};
use crate::types::Address;
use vstd::prelude::*;

verus! {

/// The call that moves `amount` of `token_id` from `from` to the account
/// `this`.
pub fn take_token(this: &Address, from: &Address, token_id: &Address, amount: i128) -> (call:
    Action)
    ensures
        call@ == (ActionView::Transfer { token: *token_id, from: *from, to: *this, amount }),
{
    Action::Transfer { token: *token_id, from: *from, to: *this, amount }
}

/// The call that moves `amount` of `token_id` from the account `this` to
/// `to`.
pub fn send_token(this: &Address, to: &Address, token_id: &Address, amount: i128) -> (call: Action)
    ensures
        call@ == (ActionView::Transfer { token: *token_id, from: *this, to: *to, amount }),
{
    Action::Transfer { token: *token_id, from: *this, to: *to, amount }
}

/// The call by which `spender` moves `amount` of `token_id` out of its
/// allowance from the account `this` to `to`.
pub fn spend_token(
    this: &Address,
    spender: &Address,
    token_id: &Address,
    amount: i128,
    to: &Address,
) -> (call: Action)
    ensures
        call@ == (ActionView::TransferFrom {
            token: *token_id,
            spender: *spender,
            from: *this,
            to: *to,
            amount,
        }),
{
    Action::TransferFrom { token: *token_id, spender: *spender, from: *this, to: *to, amount }
}

/// The question what the account `this` holds of `token_id`.
pub fn read_balance(this: &Address, token_id: &Address) -> (query: Query)
    ensures
        query == (Query::Balance { token: *token_id, id: *this }),
{
    Query::Balance { token: *token_id, id: *this }
}

/// The question what `spender` may still spend of `token_id` of the account
/// `this`.
pub fn read_allowance(this: &Address, token_id: &Address, spender: &Address) -> (query: Query)
    ensures
        query == (Query::Allowance { token: *token_id, from: *this, spender: *spender }),
{
    Query::Allowance { token: *token_id, from: *this, spender: *spender }
}

/// The number of ledgers for which a new allowance stays valid; zero where
/// none was set.
pub open spec fn allowance_window(s: StorageView) -> u32 {
    match s.allowance_expiration {
        Some(window) => window,
        None => 0,
    }
}

/// The call that lets `spender` spend `amount` of `token_id` of the account
/// `this`, until the configured number of ledgers after `ledger_sequence`,
/// the ledger's current sequence number.
pub fn write_approve(
    store: &Storage,
    this: &Address,
    token_id: &Address,
    spender: &Address,
    amount: i128,
    ledger_sequence: u32,
) -> (call: Action)
    requires
        allowance_window(store@) + ledger_sequence <= u32::MAX,
    ensures
        call@ == (ActionView::Approve {
            token: *token_id,
            from: *this,
            spender: *spender,
            amount,
            expiration_ledger: (allowance_window(store@) + ledger_sequence) as u32,
        }),
{
    let expiration = read_allowance_expiration(store) + ledger_sequence;
    Action::Approve {
        token: *token_id,
        from: *this,
        spender: *spender,
        amount,
        expiration_ledger: expiration,
    }
}

/// Sets the number of ledgers for which a new allowance stays valid.
pub fn write_allowance_expiration(store: &mut Storage, expiration_ledger: u32)
    ensures
        final(store)@ == (StorageView {
            allowance_expiration: Some(expiration_ledger),
            ..old(store)@
        }),
{
    store.allowance_expiration = Some(expiration_ledger);
}

/// The number of ledgers for which a new allowance stays valid; zero where
/// none was set.
pub fn read_allowance_expiration(store: &Storage) -> (window: u32)
    ensures
        window == allowance_window(store@),
{
    match store.allowance_expiration {
        Some(window) => window,
        None => 0,
    }
}

} // verus!
