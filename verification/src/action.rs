//! What the account asks of its host.
//!
//! The library decides; it does not call other contracts. An operation
//! returns, in order, the calls that the host is to make in the account's
//! name. The outcome of the operation stands if every call succeeds; if one
//! fails, the invocation fails and the entries stay as they were before it.

use crate::bls_account_auth::Authorization;
use crate::dap_adapter::{
    chain_view, DelegatedCapability, DelegatedCapabilityView, SwapHop, SwapHopView,
};
use crate::types::Address;
use vstd::prelude::*;

verus! {

/// One call for the host to make.
#[derive(Debug, PartialEq, Eq)]
pub enum Action {
    /// Demand that the address attests to taking part in the invocation.
    RequireAuth(Address),
    /// `token.transfer(from, to, amount)`.
    Transfer { token: Address, from: Address, to: Address, amount: i128 },
    /// `token.transfer_from(spender, from, to, amount)`.
    TransferFrom { token: Address, spender: Address, from: Address, to: Address, amount: i128 },
    /// `token.approve(from, spender, amount, expiration_ledger)`.
    Approve {
        token: Address,
        from: Address,
        spender: Address,
        amount: i128,
        expiration_ledger: u32,
    },
    /// Authorize the capability for the calls that follow.
    Authorize(DelegatedCapability),
    /// Have the adapter swap along `path` on the single-pool router.
    SwapExactSoroswap {
        adapter: Address,
        amount_in: i128,
        amount_out_min: i128,
        path: Vec<Address>,
        to: Address,
        deadline: u64,
    },
    /// Have the adapter swap over `swaps_chain` on the chained router.
    SwapChainAqua {
        adapter: Address,
        to: Address,
        swaps_chain: Vec<SwapHop>,
        token_in: Address,
        in_amount: u128,
        out_min: u128,
    },
    /// Replace the account's code by the code with this hash.
    UpdateWasm([u8; 32]),
}

/// One question for the host to put to a token contract.
#[derive(Clone, Copy, Debug, PartialEq, Eq)]
pub enum Query {
    /// `token.balance(id)`.
    Balance { token: Address, id: Address },
    /// `token.allowance(from, spender)`.
    Allowance { token: Address, from: Address, spender: Address },
}

/// What an `Action` holds.
pub enum ActionView {
    RequireAuth(Address),
    Transfer { token: Address, from: Address, to: Address, amount: i128 },
    TransferFrom { token: Address, spender: Address, from: Address, to: Address, amount: i128 },
    Approve {
        token: Address,
        from: Address,
        spender: Address,
        amount: i128,
        expiration_ledger: u32,
    },
    Authorize(DelegatedCapabilityView),
    SwapExactSoroswap {
        adapter: Address,
        amount_in: i128,
        amount_out_min: i128,
        path: Seq<Address>,
        to: Address,
        deadline: u64,
    },
    SwapChainAqua {
        adapter: Address,
        to: Address,
        swaps_chain: Seq<SwapHopView>,
        token_in: Address,
        in_amount: u128,
        out_min: u128,
    },
    UpdateWasm([u8; 32]),
}

impl View for Action {
    type V = ActionView;

    open spec fn view(&self) -> ActionView {
        match self {
            Action::RequireAuth(a) => ActionView::RequireAuth(*a),
            Action::Transfer { token, from, to, amount } => ActionView::Transfer {
                token: *token,
                from: *from,
                to: *to,
                amount: *amount,
            },
            Action::TransferFrom { token, spender, from, to, amount } => ActionView::TransferFrom {
                token: *token,
                spender: *spender,
                from: *from,
                to: *to,
                amount: *amount,
            },
            Action::Approve { token, from, spender, amount, expiration_ledger } => {
                ActionView::Approve {
                    token: *token,
                    from: *from,
                    spender: *spender,
                    amount: *amount,
                    expiration_ledger: *expiration_ledger,
                }
            },
            Action::Authorize(c) => ActionView::Authorize(c@),
            Action::SwapExactSoroswap { adapter, amount_in, amount_out_min, path, to, deadline } => {
                ActionView::SwapExactSoroswap {
                    adapter: *adapter,
                    amount_in: *amount_in,
                    amount_out_min: *amount_out_min,
                    path: path@,
                    to: *to,
                    deadline: *deadline,
                }
            },
            Action::SwapChainAqua { adapter, to, swaps_chain, token_in, in_amount, out_min } => {
                ActionView::SwapChainAqua {
                    adapter: *adapter,
                    to: *to,
                    swaps_chain: chain_view(swaps_chain@),
                    token_in: *token_in,
                    in_amount: *in_amount,
                    out_min: *out_min,
                }
            },
            Action::UpdateWasm(hash) => ActionView::UpdateWasm(*hash),
        }
    }
}

/// What a list of actions holds.
pub open spec fn plan_view(plan: Seq<Action>) -> Seq<ActionView> {
    Seq::new(plan.len(), |i: int| plan[i]@)
}

/// What an authorization asks of the host: nothing where a signature was
/// verified, the owner's attestation where none was given.
pub open spec fn auth_actions(auth: Authorization) -> Seq<ActionView> {
    match auth {
        Authorization::Signature => Seq::empty(),
        Authorization::Attestation(owner) => seq![ActionView::RequireAuth(owner)],
    }
}

/// The plan that an authorization begins with.
pub fn plan_for(auth: Authorization) -> (plan: Vec<Action>)
    ensures
        plan_view(plan@) == auth_actions(auth),
{
    let mut plan: Vec<Action> = Vec::new();
    match auth {
        Authorization::Signature => {},
        Authorization::Attestation(owner) => {
            plan.push(Action::RequireAuth(owner));
        },
    }
    assert(plan_view(plan@) =~= auth_actions(auth));
    plan
}

/// Adds `action` at the end of `plan`.
pub fn append(plan: &mut Vec<Action>, action: Action)
    ensures
        plan_view(final(plan)@) == plan_view(old(plan)@).push(action@),
{
    plan.push(action);
    assert(plan_view(plan@) =~= plan_view(old(plan)@).push(action@));
}

} // verus!
