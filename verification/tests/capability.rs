use smart_account::dap_adapter::{
    deep_auth_aqua_amm, deep_auth_soroswap, Arg, DelegatedCapability, Selector, SwapHop,
};
use smart_account::types::Address;

fn party(id: u8) -> Address {
    Address::Contract([id; 32])
}

#[test]
fn selectors_have_their_ledger_names() {
    assert_eq!(Selector::SwapExactTokensForTokens.name(), "swap_exact_tokens_for_tokens");
    assert_eq!(Selector::SwapChained.name(), "swap_chained");
    assert_eq!(Selector::Transfer.name(), "transfer");
}

#[test]
fn soroswap_capability_is_scoped_to_the_request() {
    let router = party(1);
    let pair = party(2);
    let x = party(3);
    let y = party(4);
    let to = party(5);
    let tree = deep_auth_soroswap(router, pair, 1000, 990, 77, &vec![x, y], to);
    let expected = DelegatedCapability {
        contract: router,
        fn_name: Selector::SwapExactTokensForTokens,
        args: vec![
            Arg::I128(1000),
            Arg::I128(990),
            Arg::Path(vec![x, y]),
            Arg::Address(to),
            Arg::U64(77),
        ],
        sub_invocations: vec![DelegatedCapability {
            contract: x,
            fn_name: Selector::Transfer,
            args: vec![Arg::Address(to), Arg::Address(pair), Arg::I128(1000)],
            sub_invocations: vec![],
        }],
    };
    assert_eq!(tree, expected);
}

#[test]
fn soroswap_capability_for_a_longer_path() {
    let path = vec![party(9), party(8), party(7)];
    let tree = deep_auth_soroswap(party(1), party(2), -5, i128::MIN, u64::MAX, &path, party(5));
    assert_eq!(tree.args[2], Arg::Path(path.clone()));
    assert_eq!(tree.args[0], Arg::I128(-5));
    assert_eq!(tree.args[1], Arg::I128(i128::MIN));
    assert_eq!(tree.args[4], Arg::U64(u64::MAX));
    assert_eq!(tree.sub_invocations.len(), 1);
    assert_eq!(tree.sub_invocations[0].contract, party(9));
    assert_eq!(
        tree.sub_invocations[0].args,
        vec![Arg::Address(party(5)), Arg::Address(party(2)), Arg::I128(-5)]
    );
    let single = deep_auth_soroswap(party(1), party(2), 1, 1, 1, &vec![party(6)], party(5));
    assert_eq!(single.sub_invocations[0].contract, party(6));
}

#[test]
fn aqua_capability_is_scoped_to_the_request() {
    let router = party(1);
    let to = party(5);
    let token_in = party(3);
    let chain = vec![
        SwapHop { tokens: vec![party(3), party(4)], pool_index: [7u8; 32], token_out: party(4) },
        SwapHop { tokens: vec![party(4), party(6)], pool_index: [8u8; 32], token_out: party(6) },
    ];
    let tree = deep_auth_aqua_amm(router, to, &chain, token_in, 500, 450);
    let expected = DelegatedCapability {
        contract: router,
        fn_name: Selector::SwapChained,
        args: vec![
            Arg::Address(to),
            Arg::Chain(vec![
                SwapHop {
                    tokens: vec![party(3), party(4)],
                    pool_index: [7u8; 32],
                    token_out: party(4),
                },
                SwapHop {
                    tokens: vec![party(4), party(6)],
                    pool_index: [8u8; 32],
                    token_out: party(6),
                },
            ]),
            Arg::Address(token_in),
            Arg::U128(500),
            Arg::U128(450),
        ],
        sub_invocations: vec![DelegatedCapability {
            contract: token_in,
            fn_name: Selector::Transfer,
            args: vec![Arg::Address(to), Arg::Address(router), Arg::I128(500)],
            sub_invocations: vec![],
        }],
    };
    assert_eq!(tree, expected);
}

#[test]
fn aqua_transfer_is_of_the_amount_requested() {
    let tree = deep_auth_aqua_amm(party(1), party(5), &vec![], party(3), i128::MAX as u128, 0);
    assert_eq!(tree.args[3], Arg::U128(i128::MAX as u128));
    assert_eq!(tree.sub_invocations[0].args[2], Arg::I128(i128::MAX));
    let tree = deep_auth_aqua_amm(party(1), party(5), &vec![], party(3), 0, u128::MAX);
    assert_eq!(tree.args[3], Arg::U128(0));
    assert_eq!(tree.args[4], Arg::U128(u128::MAX));
    assert_eq!(tree.sub_invocations[0].args[2], Arg::I128(0));
    assert_eq!(tree.args[1], Arg::Chain(vec![]));
}
