//! Delegated capabilities for the exchange routers.
//!
//! When the account has a router exchange tokens for it, the router and the
//! contracts that the router calls act in the account's name. Before the
//! call, the account states which calls it authorizes: a tree whose root is
//! the router's entry point and whose children are the calls made beneath
//! it. Every argument in the tree is taken from the request that was
//! authorized. A tree serves one call and is not kept.

use crate::types::Address;
use vstd::prelude::*;

verus! {

/// The entry points that a capability can name.
#[derive(Clone, Copy, Debug, PartialEq, Eq)]
pub enum Selector {
    /// The single-pool router's swap along a path of tokens.
    SwapExactTokensForTokens,
    /// The chained router's swap over a list of hops.
    SwapChained,
    /// A token's transfer.
    Transfer,
}

impl Selector {
    /// The name by which the ledger knows the entry point.
    pub open spec fn name_spec(self) -> Seq<char> {
        match self {
            Selector::SwapExactTokensForTokens => "swap_exact_tokens_for_tokens"@,
            Selector::SwapChained => "swap_chained"@,
            Selector::Transfer => "transfer"@,
        }
    }

    /// The name by which the ledger knows the entry point.
    pub fn name(&self) -> (name: &'static str)
        ensures
            name@ == self.name_spec(),
    {
        match self {
            Selector::SwapExactTokensForTokens => "swap_exact_tokens_for_tokens",
            Selector::SwapChained => "swap_chained",
            Selector::Transfer => "transfer",
        }
    }
}

/// One hop of a chained swap: the tokens of the pool, the pool's index, and
/// the token that the hop pays out.
#[derive(Debug, PartialEq, Eq)]
pub struct SwapHop {
    pub tokens: Vec<Address>,
    pub pool_index: [u8; 32],
    pub token_out: Address,
}

/// What a `SwapHop` holds.
pub struct SwapHopView {
    pub tokens: Seq<Address>,
    pub pool_index: [u8; 32],
    pub token_out: Address,
}

impl View for SwapHop {
    type V = SwapHopView;

    open spec fn view(&self) -> SwapHopView {
        SwapHopView {
            tokens: self.tokens@,
            pool_index: self.pool_index,
            token_out: self.token_out,
        }
    }
}

/// What a list of hops holds.
pub open spec fn chain_view(chain: Seq<SwapHop>) -> Seq<SwapHopView> {
    Seq::new(chain.len(), |i: int| chain[i]@)
}

/// One argument of a delegated call.
#[derive(Debug, PartialEq, Eq)]
pub enum Arg {
    I128(i128),
    U128(u128),
    U64(u64),
    Address(Address),
    Path(Vec<Address>),
    Chain(Vec<SwapHop>),
}

/// What an `Arg` holds.
pub enum ArgView {
    I128(i128),
    U128(u128),
    U64(u64),
    Address(Address),
    Path(Seq<Address>),
    Chain(Seq<SwapHopView>),
}

impl View for Arg {
    type V = ArgView;

    open spec fn view(&self) -> ArgView {
        match self {
            Arg::I128(x) => ArgView::I128(*x),
            Arg::U128(x) => ArgView::U128(*x),
            Arg::U64(x) => ArgView::U64(*x),
            Arg::Address(x) => ArgView::Address(*x),
            Arg::Path(x) => ArgView::Path(x@),
            Arg::Chain(x) => ArgView::Chain(chain_view(x@)),
        }
    }
}

/// A call that the account authorizes in advance, with the calls that it
/// authorizes beneath it, in order.
#[derive(Debug, PartialEq, Eq)]
pub struct DelegatedCapability {
    /// The contract that is called.
    pub contract: Address,
    /// The entry point that is called.
    pub fn_name: Selector,
    /// The arguments of the call.
    pub args: Vec<Arg>,
    /// The calls authorized beneath this one.
    pub sub_invocations: Vec<DelegatedCapability>,
}

/// What a `DelegatedCapability` holds.
pub struct DelegatedCapabilityView {
    pub contract: Address,
    pub fn_name: Selector,
    pub args: Seq<ArgView>,
    pub sub_invocations: Seq<DelegatedCapabilityView>,
}

impl View for DelegatedCapability {
    type V = DelegatedCapabilityView;

    open spec fn view(&self) -> DelegatedCapabilityView
        decreases self,
    {
        DelegatedCapabilityView {
            contract: self.contract,
            fn_name: self.fn_name,
            args: Seq::new(self.args@.len(), |i: int| self.args@[i]@),
            sub_invocations: Seq::new(
                self.sub_invocations@.len(),
                |i: int|
                    if 0 <= i < self.sub_invocations@.len() {
                        self.sub_invocations@[i].view()
                    } else {
                        arbitrary()
                    },
            ),
        }
    }
}

/// The transfer of `amount` of `token` from `from` to `to`, with nothing
/// beneath it.
pub open spec fn transfer_capability(
    token: Address,
    from: Address,
    to: Address,
    amount: i128,
) -> DelegatedCapabilityView {
    DelegatedCapabilityView {
        contract: token,
        fn_name: Selector::Transfer,
        args: seq![ArgView::Address(from), ArgView::Address(to), ArgView::I128(amount)],
        sub_invocations: Seq::empty(),
    }
}

/// What the account authorizes for a swap along `path` on the single-pool
/// router: the router's swap with the request's own arguments, and beneath
/// it the transfer of the input amount of the path's first token from the
/// recipient to the pool of the first hop.
pub open spec fn soroswap_capability(
    soroswap_id: Address,
    pair_id: Address,
    amount_in: i128,
    amount_out_min: i128,
    deadline: u64,
    path: Seq<Address>,
    to: Address,
) -> DelegatedCapabilityView {
    DelegatedCapabilityView {
        contract: soroswap_id,
        fn_name: Selector::SwapExactTokensForTokens,
        args: seq![
            ArgView::I128(amount_in),
            ArgView::I128(amount_out_min),
            ArgView::Path(path),
            ArgView::Address(to),
            ArgView::U64(deadline),
        ],
        sub_invocations: seq![transfer_capability(path[0], to, pair_id, amount_in)],
    }
}

/// The input amount of a chained swap is one that a transfer can speak of:
/// a transfer's amount is a signed number of 128 bits.
pub open spec fn transferable(in_amount: u128) -> bool {
    in_amount <= i128::MAX
}

/// What the account authorizes for a chained swap of a transferable amount:
/// the router's swap with the request's own arguments, and beneath it the
/// transfer of the input amount of the input token from the recipient to the
/// router itself.
pub open spec fn aqua_capability(
    dex_router_id: Address,
    to: Address,
    swaps_chain: Seq<SwapHopView>,
    token_in: Address,
    in_amount: u128,
    out_min: u128,
) -> DelegatedCapabilityView
    recommends
        transferable(in_amount),
{
    DelegatedCapabilityView {
        contract: dex_router_id,
        fn_name: Selector::SwapChained,
        args: seq![
            ArgView::Address(to),
            ArgView::Chain(swaps_chain),
            ArgView::Address(token_in),
            ArgView::U128(in_amount),
            ArgView::U128(out_min),
        ],
        sub_invocations: seq![
            transfer_capability(token_in, to, dex_router_id, in_amount as i128),
        ],
    }
}

/// The amount that the transfer `capability` moves is the number `amount`.
pub open spec fn transfers_amount(capability: DelegatedCapabilityView, amount: int) -> bool {
    &&& capability.fn_name == Selector::Transfer
    &&& capability.args.len() == 3
    &&& match capability.args[2] {
        ArgView::I128(moved) => moved == amount,
        _ => false,
    }
}

/// A copy of `path`.
pub fn copy_path(path: &Vec<Address>) -> (copy: Vec<Address>)
    ensures
        copy@ == path@,
{
    let mut copy: Vec<Address> = Vec::new();
    let mut i: usize = 0;
    while i < path.len()
        invariant
            0 <= i <= path@.len(),
            copy@ == path@.subrange(0, i as int),
        decreases path@.len() - i,
    {
        copy.push(path[i]);
        assert(copy@ =~= path@.subrange(0, i + 1));
        i += 1;
    }
    assert(path@.subrange(0, i as int) =~= path@);
    copy
}

/// A copy of `chain`.
pub fn copy_chain(chain: &Vec<SwapHop>) -> (copy: Vec<SwapHop>)
    ensures
        chain_view(copy@) == chain_view(chain@),
{
    let mut copy: Vec<SwapHop> = Vec::new();
    let mut i: usize = 0;
    while i < chain.len()
        invariant
            0 <= i <= chain@.len(),
            copy@.len() == i,
            forall|j: int| 0 <= j < i ==> copy@[j]@ == chain@[j]@,
        decreases chain@.len() - i,
    {
        let hop = SwapHop {
            tokens: copy_path(&chain[i].tokens),
            pool_index: chain[i].pool_index,
            token_out: chain[i].token_out,
        };
        copy.push(hop);
        i += 1;
    }
    assert(chain_view(copy@) =~= chain_view(chain@));
    copy
}

/// The capability for the transfer of `amount` of `token` from `from` to
/// `to`.
fn transfer(token: Address, from: Address, to: Address, amount: i128) -> (c: DelegatedCapability)
    ensures
        c@ == transfer_capability(token, from, to, amount),
{
    let mut args: Vec<Arg> = Vec::new();
    args.push(Arg::Address(from));
    args.push(Arg::Address(to));
    args.push(Arg::I128(amount));
    let c = DelegatedCapability {
        contract: token,
        fn_name: Selector::Transfer,
        args,
        sub_invocations: Vec::new(),
    };
    assert(c@.args =~= transfer_capability(token, from, to, amount).args);
    assert(c@.sub_invocations =~= Seq::empty());
    c
}

/// Builds the capability for a swap along `path` on the single-pool router
/// `soroswap_id`, whose first hop runs through the pool `pair_id`.
pub fn deep_auth_soroswap(
    soroswap_id: Address,
    pair_id: Address,
    amount_in: i128,
    amount_out_min: i128,
    deadline: u64,
    path: &Vec<Address>,
    to: Address,
) -> (tree: DelegatedCapability)
    requires
        path@.len() > 0,
    ensures
        tree@ == soroswap_capability(
            soroswap_id,
            pair_id,
            amount_in,
            amount_out_min,
            deadline,
            path@,
            to,
        ),
{
    let mut args: Vec<Arg> = Vec::new();
    args.push(Arg::I128(amount_in));
    args.push(Arg::I128(amount_out_min));
    args.push(Arg::Path(copy_path(path)));
    args.push(Arg::Address(to));
    args.push(Arg::U64(deadline));
    let mut sub_invocations: Vec<DelegatedCapability> = Vec::new();
    sub_invocations.push(transfer(path[0], to, pair_id, amount_in));
    let tree = DelegatedCapability {
        contract: soroswap_id,
        fn_name: Selector::SwapExactTokensForTokens,
        args,
        sub_invocations,
    };
    proof {
        let want = soroswap_capability(
            soroswap_id,
            pair_id,
            amount_in,
            amount_out_min,
            deadline,
            path@,
            to,
        );
        assert(tree@.args =~= want.args);
        assert(tree@.sub_invocations =~= want.sub_invocations);
    }
    tree
}

/// Builds the capability for a chained swap on the router `dex_router_id`.
/// The amount must be one that a transfer can speak of, so that the transfer
/// granted is of the amount requested and of no other.
pub fn deep_auth_aqua_amm(
    dex_router_id: Address,
    to: Address,
    swaps_chain: &Vec<SwapHop>,
    token_in: Address,
    in_amount: u128,
    out_min: u128,
) -> (tree: DelegatedCapability)
    requires
        transferable(in_amount),
    ensures
        tree@ == aqua_capability(
            dex_router_id,
            to,
            chain_view(swaps_chain@),
            token_in,
            in_amount,
            out_min,
        ),
        transfers_amount(tree@.sub_invocations[0], in_amount as int),
{
    let mut args: Vec<Arg> = Vec::new();
    args.push(Arg::Address(to));
    args.push(Arg::Chain(copy_chain(swaps_chain)));
    args.push(Arg::Address(token_in));
    args.push(Arg::U128(in_amount));
    args.push(Arg::U128(out_min));
    let mut sub_invocations: Vec<DelegatedCapability> = Vec::new();
    sub_invocations.push(transfer(token_in, to, dex_router_id, in_amount as i128));
    let tree = DelegatedCapability {
        contract: dex_router_id,
        fn_name: Selector::SwapChained,
        args,
        sub_invocations,
    };
    proof {
        let want = aqua_capability(
            dex_router_id,
            to,
            chain_view(swaps_chain@),
            token_in,
            in_amount,
            out_min,
        );
        assert(tree@.args =~= want.args);
        assert(tree@.sub_invocations =~= want.sub_invocations);
    }
    tree
}

} // verus!
