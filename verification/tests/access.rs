use smart_account::access::{
    authenticate_user_account, has_user_account, is_initialized, read_aggregated_pk_bytes,
    read_dapp_router_contract_id, read_master_contract_id, read_user_account,
    read_web_keys_bytes, store_aggregate, write_aggregated_pk_bytes,
    write_dapp_router_contract_id,
    write_master_contract_id, write_user_account, write_web_keys_bytes,
};
use smart_account::account_token::{
    read_allowance, read_allowance_expiration, read_balance, send_token, spend_token,
    take_token, write_allowance_expiration, write_approve,
};
use smart_account::action::{Action, Query};
use smart_account::bls::NEG_G1_GENERATOR;
use smart_account::data::DataKey;
use smart_account::error::ContractError;
use smart_account::storage::{copy_bytes, Storage};
use smart_account::types::{Address, WebKeyDetails};
use soroban_sdk::testutils::EnvTestConfig;
use soroban_sdk::Env;

fn access_env() -> Env {
    Env::new_with_config(EnvTestConfig { capture_snapshot_at_drop: false })
}

fn who(id: u8) -> Address {
    Address::Contract([id; 32])
}

#[test]
fn owner_reference_is_optional() {
    let env = access_env();
    let mut store = Storage::new(&env);
    assert!(!has_user_account(&store));
    assert_eq!(read_user_account(&store), Err(ContractError::UserAccountNotFound));
    let owner = Address::Account([1u8; 32]);
    write_user_account(&mut store, &owner);
    assert!(has_user_account(&store));
    assert_eq!(read_user_account(&store), Ok(owner));
    assert_eq!(authenticate_user_account(&store), Action::RequireAuth(owner));
    write_user_account(&mut store, &who(2));
    assert_eq!(read_user_account(&store), Ok(who(2)));
}

#[test]
fn key_registry_stores_the_aggregate() {
    let env = access_env();
    let mut store = Storage::new(&env);
    assert!(!is_initialized(&store));
    assert_eq!(read_aggregated_pk_bytes(&store), None);
    assert_eq!(
        write_aggregated_pk_bytes(&env, &mut store, &vec![]),
        Err(ContractError::InvalidPublicKey)
    );
    assert_eq!(
        write_aggregated_pk_bytes(&env, &mut store, &vec![NEG_G1_GENERATOR, [0u8; 96]]),
        Err(ContractError::InvalidPublicKey)
    );
    assert_eq!(store, Storage::new(&env));
    assert_eq!(write_aggregated_pk_bytes(&env, &mut store, &vec![NEG_G1_GENERATOR]), Ok(()));
    assert!(is_initialized(&store));
    assert_eq!(read_aggregated_pk_bytes(&store), Some(NEG_G1_GENERATOR));
    let mut infinity = [0u8; 96];
    infinity[0] = 0x40;
    assert_eq!(
        write_aggregated_pk_bytes(&env, &mut store, &vec![NEG_G1_GENERATOR, infinity]),
        Ok(())
    );
    assert_eq!(read_aggregated_pk_bytes(&store), Some(NEG_G1_GENERATOR));
}

#[test]
fn recovery_record_is_written_as_one_unit() {
    let env = access_env();
    let mut store = Storage::new(&env);
    assert_eq!(
        read_web_keys_bytes(&store),
        WebKeyDetails { web_public_key: [0u8; 77], primary_social_acct: vec![], platform: vec![] }
    );
    write_web_keys_bytes(&mut store, b"TeleGram", b"Alice_01", [9u8; 77]);
    assert_eq!(
        read_web_keys_bytes(&store),
        WebKeyDetails {
            web_public_key: [9u8; 77],
            primary_social_acct: b"alice_01".to_vec(),
            platform: b"telegram".to_vec(),
        }
    );
    write_web_keys_bytes(&mut store, b"X", b"", [1u8; 77]);
    assert_eq!(
        store.web_keys,
        Some(WebKeyDetails {
            web_public_key: [1u8; 77],
            primary_social_acct: vec![],
            platform: b"x".to_vec(),
        })
    );
}

#[test]
fn contract_references() {
    let env = access_env();
    let mut store = Storage::new(&env);
    assert_eq!(read_master_contract_id(&store), None);
    assert_eq!(read_dapp_router_contract_id(&store), None);
    write_master_contract_id(&mut store, &who(1));
    write_dapp_router_contract_id(&mut store, &who(2));
    assert_eq!(read_master_contract_id(&store), Some(who(1)));
    assert_eq!(read_dapp_router_contract_id(&store), Some(who(2)));
    write_master_contract_id(&mut store, &who(3));
    assert_eq!(read_master_contract_id(&store), Some(who(3)));
    assert_eq!(read_dapp_router_contract_id(&store), Some(who(2)));
}

#[test]
fn token_calls_name_the_account_as_party() {
    let this = who(1);
    assert_eq!(
        take_token(&this, &who(2), &who(3), 40),
        Action::Transfer { token: who(3), from: who(2), to: this, amount: 40 }
    );
    assert_eq!(
        send_token(&this, &who(2), &who(3), 40),
        Action::Transfer { token: who(3), from: this, to: who(2), amount: 40 }
    );
    assert_eq!(
        spend_token(&this, &who(4), &who(3), 40, &who(2)),
        Action::TransferFrom { token: who(3), spender: who(4), from: this, to: who(2), amount: 40 }
    );
    assert_eq!(read_balance(&this, &who(3)), Query::Balance { token: who(3), id: this });
    assert_eq!(
        read_allowance(&this, &who(3), &who(4)),
        Query::Allowance { token: who(3), from: this, spender: who(4) }
    );
}

#[test]
fn approval_expires_after_the_window() {
    let env = access_env();
    let mut store = Storage::new(&env);
    assert_eq!(read_allowance_expiration(&store), 0);
    assert_eq!(
        write_approve(&store, &who(1), &who(3), &who(4), 500, 1234),
        Action::Approve {
            token: who(3),
            from: who(1),
            spender: who(4),
            amount: 500,
            expiration_ledger: 1234,
        }
    );
    write_allowance_expiration(&mut store, 17000);
    assert_eq!(read_allowance_expiration(&store), 17000);
    assert_eq!(
        write_approve(&store, &who(1), &who(3), &who(4), 500, 1234),
        Action::Approve {
            token: who(3),
            from: who(1),
            spender: who(4),
            amount: 500,
            expiration_ledger: 18234,
        }
    );
    write_allowance_expiration(&mut store, u32::MAX - 5);
    assert_eq!(
        write_approve(&store, &who(1), &who(3), &who(4), 0, 5),
        Action::Approve {
            token: who(3),
            from: who(1),
            spender: who(4),
            amount: 0,
            expiration_ledger: u32::MAX,
        }
    );
}

#[test]
fn entries_are_present_once_written() {
    let env = access_env();
    let mut store = Storage::new(&env);
    let keys = [
        DataKey::UserAccountId,
        DataKey::MasterContractId,
        DataKey::DappRouterId,
        DataKey::BlsPublicKey,
        DataKey::WebKey,
        DataKey::AllowanceExpiration,
        DataKey::TokenList,
        DataKey::Nonce,
        DataKey::Dst,
        DataKey::Allowance(who(1), who(2)),
        DataKey::PrimarySocialProfile,
        DataKey::SmartAllowance(who(1)),
        DataKey::Balance(who(1)),
        DataKey::TransactionNonce,
        DataKey::SoroswapContract,
        DataKey::PairContract,
    ];
    for key in keys.iter() {
        assert!(!store.has(key));
    }
    store.user_account = Some(who(1));
    store.master_contract = Some(who(1));
    store.dapp_router = Some(who(1));
    store.bls_public_key = Some(NEG_G1_GENERATOR);
    store.web_keys = Some(read_web_keys_bytes(&Storage::new(&env)));
    store.allowance_expiration = Some(0);
    store.token_list.insert(who(7));
    store.nonce = Some([0u8; 32]);
    store.dst = Some(vec![]);
    for key in keys[..9].iter() {
        assert!(store.has(key));
    }
    for key in keys[9..].iter() {
        assert!(!store.has(key));
    }
}

#[test]
fn bytes_are_copied() {
    assert_eq!(copy_bytes(&[1, 2, 3]), vec![1, 2, 3]);
    assert_eq!(copy_bytes(&[]), Vec::<u8>::new());
}

#[test]
fn aggregate_is_stored_or_refused() {
    let env = access_env();
    let mut store = Storage::new(&env);
    store.nonce = Some([1u8; 32]);
    assert_eq!(store_aggregate(&mut store, None), Err(ContractError::InvalidPublicKey));
    assert_eq!(store.bls_public_key, None);
    assert_eq!(store_aggregate(&mut store, Some([3u8; 96])), Ok(()));
    assert_eq!(store.bls_public_key, Some([3u8; 96]));
    assert_eq!(store.nonce, Some([1u8; 32]));
    assert_eq!(store_aggregate(&mut store, None), Err(ContractError::InvalidPublicKey));
    assert_eq!(store.bls_public_key, Some([3u8; 96]));
}
