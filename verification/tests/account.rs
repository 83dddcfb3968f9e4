use smart_account::account::{select_positive, Account};
use smart_account::action::Action;
use smart_account::bls::NEG_G1_GENERATOR;
use smart_account::bls_account_auth::DST;
use smart_account::constructor::{init_constructor, DEFAULT_ALLOWANCE_EXPIRATION};
use smart_account::dap_adapter::{deep_auth_aqua_amm, deep_auth_soroswap, SwapHop};
use smart_account::error::ContractError;
use smart_account::storage::Storage;
use smart_account::token_list::TokenList;
use smart_account::types::{Address, WebKeyDetails};
use smart_account::user_account_trait::AccountTrait;
use soroban_sdk::crypto::bls12_381::{Bls12381Fr, Bls12381G1Affine};
use soroban_sdk::testutils::EnvTestConfig;
use soroban_sdk::{Bytes, Env, U256};

fn account_env() -> Env {
    Env::new_with_config(EnvTestConfig { capture_snapshot_at_drop: false })
}

fn account_key(env: &Env, secret: u32) -> [u8; 96] {
    let generator = -Bls12381G1Affine::from_array(env, &NEG_G1_GENERATOR);
    let sk = Bls12381Fr::from_u256(U256::from_u32(env, secret));
    env.crypto().bls12_381().g1_mul(&generator, &sk).to_array()
}

fn account_sign(env: &Env, secret: u32, store: &Storage) -> [u8; 192] {
    let bls = env.crypto().bls12_381();
    let nonce = store.nonce.unwrap();
    let tag = store.dst.clone().unwrap();
    let h = bls.hash_to_g2(&Bytes::from_slice(env, &nonce), &Bytes::from_slice(env, &tag));
    let sk = Bls12381Fr::from_u256(U256::from_u32(env, secret));
    bls.g2_mul(&h, &sk).to_array()
}

fn c(id: u8) -> Address {
    Address::Contract([id; 32])
}

fn new_account(env: &Env, secrets: &[u32]) -> Storage {
    let mut store = Storage::new(&env);
    let keys: Vec<[u8; 96]> = secrets.iter().map(|s| account_key(env, *s)).collect();
    let r = Account::init(
        env,
        &mut store,
        &keys,
        b"Telegram",
        b"Alice",
        [5u8; 77],
        c(100),
        c(101),
        [0x11; 32],
    );
    assert_eq!(r, Ok(()));
    store
}

#[test]
fn construction_writes_every_entry() {
    let env = account_env();
    let store = new_account(&env, &[40, 2]);
    assert_eq!(store.bls_public_key, Some(account_key(&env, 42)));
    assert_eq!(
        store.web_keys,
        Some(WebKeyDetails {
            web_public_key: [5u8; 77],
            primary_social_acct: b"alice".to_vec(),
            platform: b"telegram".to_vec(),
        })
    );
    assert_eq!(store.dst, Some(DST.to_vec()));
    assert_eq!(store.master_contract, Some(c(100)));
    assert_eq!(store.dapp_router, Some(c(101)));
    assert_eq!(store.allowance_expiration, Some(17000));
    assert_eq!(DEFAULT_ALLOWANCE_EXPIRATION, 17000);
    assert_eq!(store.nonce, Some([0x11; 32]));
    assert_eq!(store.user_account, None);
    assert_eq!(store.token_list, TokenList::new(&env));
}

#[test]
fn construction_happens_once() {
    let env = account_env();
    let mut store = new_account(&env, &[40]);
    let before = new_account(&env, &[40]);
    let again = Account::init(
        &env,
        &mut store,
        &vec![account_key(&env, 41)],
        &[b'O'; 65],
        b"bob",
        [6u8; 77],
        c(1),
        c(2),
        [0x11; 32],
    );
    assert_eq!(again, Err(ContractError::AlreadyInitialized));
    assert_eq!(store.bls_public_key, before.bls_public_key);
    assert_eq!(store.web_keys, before.web_keys);
    assert_eq!(store.master_contract, Some(c(100)));
}

#[test]
fn construction_refuses_bad_keys_and_writes_nothing() {
    let env = account_env();
    let mut store = Storage::new(&env);
    store.user_account = Some(c(9));
    let r = Account::init(
        &env,
        &mut store,
        &vec![],
        b"t",
        b"a",
        [5u8; 77],
        c(100),
        c(101),
        [0x11; 32],
    );
    assert_eq!(r, Err(ContractError::InvalidPublicKey));
    let r = init_constructor(
        &env,
        &mut store,
        &vec![account_key(&env, 1), [2u8; 96]],
        b"t",
        b"a",
        [5u8; 77],
        c(100),
        c(101),
        [0x11; 32],
    );
    assert_eq!(r, Err(ContractError::InvalidPublicKey));
    let mut untouched = Storage::new(&env);
    untouched.user_account = Some(c(9));
    assert_eq!(store, untouched);
}

#[test]
fn constructed_account_accepts_its_owner_signature() {
    let env = account_env();
    let mut store = new_account(&env, &[40, 2]);
    let n0 = store.nonce;
    let sig = account_sign(&env, 42, &store);
    let r = Account::update_allowance_expiration(&env, &mut store, 9, Some(sig), [0x22; 32]);
    assert_eq!(r, Ok(vec![]));
    assert_eq!(store.allowance_expiration, Some(9));
    assert_ne!(store.nonce, n0);
    assert_eq!(store.nonce, Some([0x22; 32]));
    let n1 = store.nonce;
    let r = Account::update_allowance_expiration(&env, &mut store, 10, Some(sig), [0x22; 32]);
    assert_eq!(r, Err(ContractError::InvalidSignature));
    assert_eq!(store.allowance_expiration, Some(9));
    assert_eq!(store.nonce, n1);
}

#[test]
fn configuration_by_attestation() {
    let env = account_env();
    let mut store = new_account(&env, &[40]);
    let r = Account::set_user_account(&env, &mut store, c(7), None, [0x22; 32]);
    assert_eq!(r, Err(ContractError::UserAccountNotFound));
    assert_eq!(store.user_account, None);
    let sig = account_sign(&env, 40, &store);
    let r = Account::set_user_account(&env, &mut store, c(7), Some(sig), [0x22; 32]);
    assert_eq!(r, Ok(vec![]));
    assert_eq!(store.user_account, Some(c(7)));
    let n = store.nonce;
    let r = Account::update_master_contract(&env, &mut store, c(50), None, [0x23; 32]);
    assert_eq!(r, Ok(vec![Action::RequireAuth(c(7))]));
    assert_eq!(store.master_contract, Some(c(50)));
    assert_ne!(store.nonce, n);
    assert_eq!(store.nonce, Some([0x23; 32]));
    let r = Account::update_dapp_router_contract(&env, &mut store, c(51), None, [0x24; 32]);
    assert_eq!(r, Ok(vec![Action::RequireAuth(c(7))]));
    assert_eq!(store.dapp_router, Some(c(51)));
    assert_eq!(store.nonce, Some([0x24; 32]));
    let r = Account::set_user_account(&env, &mut store, c(8), None, [0x22; 32]);
    assert_eq!(r, Ok(vec![Action::RequireAuth(c(7))]));
    assert_eq!(store.user_account, Some(c(8)));
}

#[test]
fn deposit_asks_the_depositor_and_tracks_the_token() {
    let env = account_env();
    let mut store = Storage::new(&env);
    let plan = Account::deposit(&mut store, c(1), c(2), c(3), 250);
    assert_eq!(
        plan,
        vec![
            Action::RequireAuth(c(2)),
            Action::Transfer { token: c(3), from: c(2), to: c(1), amount: 250 },
        ]
    );
    assert_eq!(store.token_list.keys(), vec![c(3)]);
    Account::deposit(&mut store, c(1), c(2), c(3), 1);
    assert_eq!(store.token_list.keys(), vec![c(3)]);
}

#[test]
fn withdrawal_pays_out_once_authorized() {
    let env = account_env();
    let mut store = new_account(&env, &[40]);
    let bad = [0u8; 192];
    let r = Account::withdraw(&env, &mut store, c(1), c(2), c(3), 75, Some(bad), [0x22; 32]);
    assert_eq!(r, Err(ContractError::InvalidSignature));
    let r = Account::withdraw(&env, &mut store, c(1), c(2), c(3), 75, None, [0x22; 32]);
    assert_eq!(r, Err(ContractError::UserAccountNotFound));
    let sig = account_sign(&env, 40, &store);
    let r = Account::withdraw(&env, &mut store, c(1), c(2), c(3), 75, Some(sig), [0x22; 32]);
    assert_eq!(r, Ok(vec![Action::Transfer { token: c(3), from: c(1), to: c(2), amount: 75 }]));
    store.user_account = Some(c(9));
    let r = Account::withdraw(&env, &mut store, c(1), c(2), c(3), 75, None, [0x22; 32]);
    assert_eq!(
        r,
        Ok(vec![
            Action::RequireAuth(c(9)),
            Action::Transfer { token: c(3), from: c(1), to: c(2), amount: 75 },
        ])
    );
}

#[test]
fn approval_uses_the_configured_window() {
    let env = account_env();
    let mut store = new_account(&env, &[40]);
    store.user_account = Some(c(9));
    let r = Account::approve(&env, &mut store, c(1), c(3), c(4), 600, 1000, None, [0x22; 32]);
    assert_eq!(
        r,
        Ok(vec![
            Action::RequireAuth(c(9)),
            Action::Approve {
                token: c(3),
                from: c(1),
                spender: c(4),
                amount: 600,
                expiration_ledger: 18000,
            },
        ])
    );
}

#[test]
fn spending_asks_the_spender() {
    assert_eq!(
        Account::spend(c(1), c(3), c(4), 30, c(2)),
        vec![
            Action::RequireAuth(c(4)),
            Action::TransferFrom { token: c(3), spender: c(4), from: c(1), to: c(2), amount: 30 },
        ]
    );
}

#[test]
fn soroswap_swap_authorizes_exactly_its_call() {
    let env = account_env();
    let mut store = new_account(&env, &[40]);
    let this = c(1);
    let path = vec![c(3), c(4)];
    let sig = account_sign(&env, 40, &store);
    let r = Account::swap_tokens_soroswap(
            &env,
            &mut store,
            this,
            c(20),
            c(21),
            1000,
            990,
            &path,
            77,
            Some(sig),
            [0x22; 32],
        );
    assert_eq!(
        r,
        Ok(vec![
            Action::Authorize(deep_auth_soroswap(c(20), c(21), 1000, 990, 77, &path, this)),
            Action::SwapExactSoroswap {
                adapter: c(100),
                amount_in: 1000,
                amount_out_min: 990,
                path: vec![c(3), c(4)],
                to: this,
                deadline: 77,
            },
        ])
    );
    assert_eq!(store.token_list.keys(), vec![c(4)]);
    let r = Account::swap_tokens_soroswap(
        &env,
        &mut store,
        this,
        c(20),
        c(21),
        1000,
        990,
        &path,
        77,
        Some(sig),
        [0x22; 32],
    );
    assert_eq!(r, Err(ContractError::InvalidSignature));
    assert_eq!(store.token_list.keys(), vec![c(4)]);
}

#[test]
fn aqua_swap_authorizes_exactly_its_call() {
    let env = account_env();
    let mut store = new_account(&env, &[40]);
    store.user_account = Some(c(9));
    let this = c(1);
    let chain =
        vec![SwapHop { tokens: vec![c(3), c(4)], pool_index: [7u8; 32], token_out: c(4) }];
    let r = Account::swap_tokens_aqua(
        &env,
        &mut store,
        this,
        c(30),
        &chain,
        c(3),
        500,
        450,
        None,
        [0x22; 32],
    );
    assert_eq!(
        r,
        Ok(vec![
            Action::RequireAuth(c(9)),
            Action::Authorize(deep_auth_aqua_amm(c(30), this, &chain, c(3), 500, 450)),
            Action::SwapChainAqua {
                adapter: c(100),
                to: this,
                swaps_chain: vec![SwapHop {
                    tokens: vec![c(3), c(4)],
                    pool_index: [7u8; 32],
                    token_out: c(4),
                }],
                token_in: c(3),
                in_amount: 500,
                out_min: 450,
            },
        ])
    );
    assert_eq!(store.token_list.keys(), vec![c(4)]);
    assert_eq!(store.nonce, Some([0x22; 32]));
    let r = Account::swap_tokens_aqua(
        &env,
        &mut store,
        this,
        c(30),
        &vec![],
        c(3),
        500,
        450,
        None,
        [0x23; 32],
    );
    assert!(r.is_ok());
    assert_eq!(store.token_list.keys(), vec![c(4)]);
    assert_eq!(store.nonce, Some([0x23; 32]));
}

#[test]
fn swap_tracks_the_token_it_pays_out() {
    let env = account_env();
    let mut store = new_account(&env, &[40]);
    store.user_account = Some(c(9));
    let path = vec![c(3), c(4), c(5)];
    let r = Account::swap_tokens_soroswap(
        &env,
        &mut store,
        c(1),
        c(20),
        c(21),
        10,
        9,
        &path,
        7,
        None,
        [0x22; 32],
    );
    assert!(r.is_ok());
    assert_eq!(store.token_list.keys(), vec![c(5)]);
    let chain = vec![
        SwapHop { tokens: vec![c(3), c(4)], pool_index: [7u8; 32], token_out: c(4) },
        SwapHop { tokens: vec![c(4), c(6)], pool_index: [8u8; 32], token_out: c(6) },
    ];
    let r = Account::swap_tokens_aqua(
        &env,
        &mut store,
        c(1),
        c(30),
        &chain,
        c(3),
        500,
        450,
        None,
        [0x22; 32],
    );
    assert!(r.is_ok());
    assert_eq!(store.token_list.keys(), vec![c(5), c(6)]);
}

#[test]
fn upgrade_is_privileged() {
    let env = account_env();
    let mut store = new_account(&env, &[40]);
    let r = Account::upgrade(&env, &mut store, [1u8; 32], None, [0x22; 32]);
    assert_eq!(r, Err(ContractError::UserAccountNotFound));
    let sig = account_sign(&env, 40, &store);
    let r = Account::upgrade(&env, &mut store, [1u8; 32], Some(sig), [0x22; 32]);
    assert_eq!(r, Ok(vec![Action::UpdateWasm([1u8; 32])]));
}

#[test]
fn token_list_shows_what_is_held() {
    let balances = vec![(c(1), 10), (c(2), 0), (c(3), -4), (c(4), 1), (c(5), i128::MAX)];
    assert_eq!(
        Account::get_token_list(&balances),
        vec![(c(1), 10), (c(4), 1), (c(5), i128::MAX)]
    );
    assert_eq!(Account::get_token_list(&vec![]), vec![]);
    assert_eq!(Account::get_token_list(&vec![(c(1), 0), (c(2), i128::MIN)]), vec![]);
}

#[test]
fn spender_allowances_show_what_is_left() {
    let allowances = vec![(c(1), 0), (c(2), 7), (c(3), 0)];
    assert_eq!(Account::get_spender_allowances(&allowances), vec![(c(2), 7)]);
    assert_eq!(select_positive(&allowances), vec![(c(2), 7)]);
}

#[test]
fn refused_requests_are_refused_whatever_else_they_hold() {
    let env = account_env();
    let mut store = new_account(&env, &[40]);
    store.master_contract = None;
    let before = store.nonce;
    let bad = [0u8; 192];
    let r = Account::swap_tokens_soroswap(
        &env,
        &mut store,
        c(1),
        c(20),
        c(21),
        10,
        9,
        &vec![],
        7,
        Some(bad),
        [0x22; 32],
    );
    assert_eq!(r, Err(ContractError::InvalidSignature));
    let r = Account::swap_tokens_aqua(
        &env,
        &mut store,
        c(1),
        c(30),
        &vec![],
        c(3),
        u128::MAX,
        0,
        None,
        [0x22; 32],
    );
    assert_eq!(r, Err(ContractError::UserAccountNotFound));
    store.allowance_expiration = Some(u32::MAX);
    let r = Account::approve(&env, &mut store, c(1), c(3), c(4), 600, 1000, Some(bad), [0x22; 32]);
    assert_eq!(r, Err(ContractError::InvalidSignature));
    assert_eq!(store.nonce, before);
    assert_eq!(store.token_list.keys(), Vec::<Address>::new());
}

#[test]
fn construction_takes_names_of_every_length() {
    let env = account_env();
    let mut store = Storage::new(&env);
    let keys = vec![account_key(&env, 40)];
    let platform = vec![b'P'; 65];
    let handle = vec![b'H'; 0x4100];
    let r = Account::init(
        &env,
        &mut store,
        &keys,
        &platform,
        &handle,
        [5u8; 77],
        c(100),
        c(101),
        [0x11; 32],
    );
    assert_eq!(r, Ok(()));
    assert_eq!(
        store.web_keys,
        Some(WebKeyDetails {
            web_public_key: [5u8; 77],
            primary_social_acct: vec![b'h'; 0x4100],
            platform: vec![b'p'; 65],
        })
    );
}

#[test]
fn queries_of_an_account() {
    let env = account_env();
    let store = new_account(&env, &[40]);
    assert_eq!(Account::get_nonce(&store), Ok(store.nonce.unwrap()));
    assert_eq!(Account::get_nonce(&Storage::new(&env)), Err(ContractError::MissingKeyMaterial));
    assert_eq!(Account::get_web_keys(&store), store.web_keys.unwrap());
    assert_eq!(
        Account::get_web_keys(&Storage::new(&env)),
        WebKeyDetails { web_public_key: [0u8; 77], primary_social_acct: vec![], platform: vec![] }
    );
    assert_eq!(
        Account::get_balance(c(1), c(3)),
        smart_account::action::Query::Balance { token: c(3), id: c(1) }
    );
    assert_eq!(
        Account::get_allowance(c(1), c(3), c(4)),
        smart_account::action::Query::Allowance { token: c(3), from: c(1), spender: c(4) }
    );
}
