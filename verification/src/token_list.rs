//! The tokens that the account has held, each once, in ledger order.
//!
//! The list is a map of the host with the tokens as its keys. The host keeps
//! the keys of a map in order, and the order of addresses is by kind, then
//! by the number that the identifier spells.

use crate::host::{token_keys, token_map_keys, token_map_new, token_map_remove, token_map_set};
use crate::storage::{Storage, StorageView};
use crate::types::Address;
use vstd::prelude::*;

verus! {

/// Each element stands before the ones that follow it in ledger order, so
/// none occurs twice.
pub open spec fn strictly_increasing(s: Seq<Address>) -> bool {
    forall|i: int, j: int| 0 <= i < j < s.len() ==> (#[trigger] s[i]).less(#[trigger] s[j])
}

/// `post` holds the tokens of `pre` and `token`, in ledger order.
pub open spec fn added(pre: Seq<Address>, token: Address, post: Seq<Address>) -> bool {
    &&& forall|t: Address| post.contains(t) <==> (pre.contains(t) || t == token)
    &&& pre.contains(token) ==> post == pre
    &&& strictly_increasing(post)
}

/// `post` holds the tokens of `pre` but for `token`, in ledger order.
pub open spec fn removed(pre: Seq<Address>, token: Address, post: Seq<Address>) -> bool {
    &&& forall|t: Address| post.contains(t) <==> (pre.contains(t) && t != token)
    &&& !pre.contains(token) ==> post == pre
    &&& strictly_increasing(post)
}

/// A set of tokens has one ledger order: two strictly increasing lists that
/// hold the same tokens are the same list.
pub proof fn law_ledger_order_is_unique(a: Seq<Address>, b: Seq<Address>)
    requires
        strictly_increasing(a),
        strictly_increasing(b),
        forall|t: Address| a.contains(t) <==> b.contains(t),
    ensures
        a == b,
    decreases a.len(),
{
    if a.len() == 0 {
        if b.len() > 0 {
            assert(b.contains(b[0]));
        }
        assert(a =~= b);
    } else {
        let top = a.last();
        assert(a.contains(top));
        let k = choose|k: int| 0 <= k < b.len() && b[k] == top;
        if k < b.len() - 1 {
            let other = b.last();
            assert(b[k].less(other));
            assert(b.contains(other));
            let j = choose|j: int| 0 <= j < a.len() && a[j] == other;
            if j < a.len() - 1 {
                assert(a[j].less(top));
            }
        }
        let a0 = a.drop_last();
        let b0 = b.drop_last();
        assert forall|t: Address| a0.contains(t) <==> b0.contains(t) by {
            if a0.contains(t) {
                let i = choose|i: int| 0 <= i < a0.len() && a0[i] == t;
                assert(a[i].less(top));
                assert(a.contains(t));
                let j = choose|j: int| 0 <= j < b.len() && b[j] == t;
                assert(b0[j] == t);
            }
            if b0.contains(t) {
                let i = choose|i: int| 0 <= i < b0.len() && b0[i] == t;
                assert(b[i].less(top));
                assert(b.contains(t));
                let j = choose|j: int| 0 <= j < a.len() && a[j] == t;
                assert(a0[j] == t);
            }
        }
        assert(strictly_increasing(a0)) by {
            assert forall|i: int, j: int| 0 <= i < j < a0.len() implies (#[trigger] a0[i]).less(
                #[trigger] a0[j],
            ) by {
                assert(a[i].less(a[j]));
            }
        }
        assert(strictly_increasing(b0)) by {
            assert forall|i: int, j: int| 0 <= i < j < b0.len() implies (#[trigger] b0[i]).less(
                #[trigger] b0[j],
            ) by {
                assert(b[i].less(b[j]));
            }
        }
        law_ledger_order_is_unique(a0, b0);
        assert(a =~= a0.push(top));
        assert(b =~= b0.push(top));
    }
}

/// The tracked tokens, held in a map of the host, which keeps its keys in
/// the ledger's order of addresses.
#[verifier::external_body]
#[derive(Debug, PartialEq, Eq)]
pub struct TokenList {
    pub(crate) map: soroban_sdk::Map<soroban_sdk::Address, ()>,
}

impl View for TokenList {
    type V = Seq<Address>;

    open spec fn view(&self) -> Seq<Address> {
        token_keys(*self)
    }
}

impl TokenList {
    /// The list without tokens, held by the host of `env`.
    pub fn new(env: &soroban_sdk::Env) -> (list: TokenList)
        ensures
            list@ == Seq::<Address>::empty(),
    {
        token_map_new(env)
    }

    /// The tokens, in ledger order.
    pub fn keys(&self) -> (keys: Vec<Address>)
        ensures
            keys@ == self@,
            strictly_increasing(keys@),
    {
        let forms = token_map_keys(self);
        let mut keys: Vec<Address> = Vec::new();
        let mut i: usize = 0;
        while i < forms.len()
            invariant
                0 <= i <= forms@.len(),
                forms@.len() == self@.len(),
                forall|j: int| 0 <= j < forms@.len() ==> forms@[j]@ == self@[j].xdr(),
                keys@ == self@.subrange(0, i as int),
            decreases forms@.len() - i,
        {
            let ghost held = self@[i as int];
            match Address::from_xdr_bytes(forms[i].as_slice()) {
                Some(token) => {
                    proof {
                        Address::lemma_xdr_injective(token, held);
                    }
                    keys.push(token);
                },
                None => {
                    assert(held.xdr() == forms@[i as int]@);
                    assert(false);
                },
            }
            assert(keys@ =~= self@.subrange(0, i + 1));
            i += 1;
        }
        assert(self@.subrange(0, i as int) =~= self@);
        keys
    }

    /// The number of tokens.
    pub fn len(&self) -> (n: usize)
        ensures
            n == self@.len(),
    {
        self.keys().len()
    }

    /// Whether `token` is in the list.
    pub fn contains(&self, token: &Address) -> (r: bool)
        ensures
            r == self@.contains(*token),
    {
        let keys = self.keys();
        let mut i: usize = 0;
        while i < keys.len()
            invariant
                0 <= i <= keys@.len(),
                keys@ == self@,
                forall|j: int| 0 <= j < i ==> keys@[j] != *token,
            decreases keys@.len() - i,
        {
            if keys[i].same(token) {
                return true;
            }
            i += 1;
        }
        false
    }

    /// Puts `token` in its place in the list, unless it is there already.
    pub fn insert(&mut self, token: Address)
        ensures
            added(old(self)@, token, final(self)@),
    {
        let form = token.xdr_bytes();
        token_map_set(self, form.as_slice());
    }

    /// Takes `token` out of the list, if it is there.
    pub fn remove(&mut self, token: Address)
        ensures
            removed(old(self)@, token, final(self)@),
    {
        let form = token.xdr_bytes();
        token_map_remove(self, form.as_slice());
    }

    /// The list, held by the host of `env`, that holds the tokens of
    /// `tokens`, whatever their order there and however often each occurs.
    pub fn from_tokens(env: &soroban_sdk::Env, tokens: &Vec<Address>) -> (list: TokenList)
        ensures
            forall|t: Address| list@.contains(t) <==> tokens@.contains(t),
            strictly_increasing(list@),
    {
        let mut list = TokenList::new(env);
        let mut i: usize = 0;
        while i < tokens.len()
            invariant
                0 <= i <= tokens@.len(),
                strictly_increasing(list@),
                forall|t: Address|
                    list@.contains(t) <==> tokens@.subrange(0, i as int).contains(t),
            decreases tokens@.len() - i,
        {
            let ghost seen = tokens@.subrange(0, i as int);
            let ghost next = tokens@.subrange(0, i + 1);
            list.insert(tokens[i]);
            proof {
                assert forall|t: Address| list@.contains(t) <==> next.contains(t) by {
                    if next.contains(t) {
                        let k = choose|k: int| 0 <= k < next.len() && next[k] == t;
                        if k < i {
                            assert(seen[k] == t);
                        }
                    }
                    if seen.contains(t) {
                        let k = choose|k: int| 0 <= k < seen.len() && seen[k] == t;
                        assert(next[k] == t);
                    }
                    if t == tokens@[i as int] {
                        assert(next[i as int] == t);
                    }
                }
            }
            i += 1;
        }
        assert(tokens@.subrange(0, i as int) =~= tokens@);
        list
    }
}

/// Adds `token` to the tokens that the account tracks.
pub fn write_add_token(store: &mut Storage, token: Address)
    ensures
        added(old(store)@.token_list, token, final(store)@.token_list),
        final(store)@ == (StorageView { token_list: final(store)@.token_list, ..old(store)@ }),
{
    store.token_list.insert(token);
}

/// Takes `token` from the tokens that the account tracks.
pub fn write_remove_token(store: &mut Storage, token: Address)
    ensures
        removed(old(store)@.token_list, token, final(store)@.token_list),
        final(store)@ == (StorageView { token_list: final(store)@.token_list, ..old(store)@ }),
{
    store.token_list.remove(token);
}

/// The tokens that the account tracks, in ledger order.
pub fn read_token_list(store: &Storage) -> (tokens: Vec<Address>)
    ensures
        tokens@ == store@.token_list,
        strictly_increasing(tokens@),
{
    store.token_list.keys()
}

} // verus!
