use smart_account::formatter::{
    convert_to_lower, convert_to_upper, is_normalizable, lower_tail, string_from_xdr,
    string_to_xdr, to_lower_bytes, to_upper_bytes, upper_tail, MAX_STRING_LEN,
};
use soroban_sdk::xdr::{FromXdr, ToXdr};
use soroban_sdk::testutils::EnvTestConfig;
use soroban_sdk::Env;

fn formatter_env() -> Env {
    Env::new_with_config(EnvTestConfig { capture_snapshot_at_drop: false })
}

#[test]
fn lower_bytes_are_the_lowered_xdr_form() {
    let env = formatter_env();
    assert_eq!(
        to_lower_bytes(b"HeLLo"),
        vec![0, 0, 0, 14, 0, 0, 0, 5, b'h', b'e', b'l', b'l', b'o', 0, 0, 0]
    );
    assert_eq!(to_lower_bytes(b""), vec![0, 0, 0, 14, 0, 0, 0, 0]);
    assert_eq!(
        to_lower_bytes(b"AZ@["),
        vec![0, 0, 0, 14, 0, 0, 0, 4, b'a', b'z', b'@', b'[']
    );
}

#[test]
fn upper_bytes_are_the_raised_xdr_form() {
    let env = formatter_env();
    assert_eq!(
        to_upper_bytes(b"HeLLo!"),
        vec![0, 0, 0, 14, 0, 0, 0, 6, b'H', b'E', b'L', b'L', b'O', b'!', 0, 0]
    );
    assert_eq!(
        to_upper_bytes(b"az`{"),
        vec![0, 0, 0, 14, 0, 0, 0, 4, b'A', b'Z', b'`', b'{']
    );
}

#[test]
fn length_word_is_kept() {
    let env = formatter_env();
    let name = [b'X'; 65];
    let lowered = to_lower_bytes(&name);
    assert_eq!(lowered.len(), 8 + 65 + 3);
    assert_eq!(&lowered[..8], &[0, 0, 0, 14, 0, 0, 0, 65]);
    assert_eq!(&lowered[8..73], &[b'x'; 65]);
    assert_eq!(&lowered[73..], &[0, 0, 0]);
    let name = [b'x'; 97];
    let raised = to_upper_bytes(&name);
    assert_eq!(&raised[..8], &[0, 0, 0, 14, 0, 0, 0, 97]);
    assert_eq!(&raised[8..105], &[b'X'; 97]);
}

#[test]
fn names_are_normalised() {
    let env = formatter_env();
    assert_eq!(convert_to_lower(b"TeleGram"), b"telegram".to_vec());
    assert_eq!(convert_to_lower(b"Alice_01 \xc3\x89"), b"alice_01 \xc3\x89".to_vec());
    assert_eq!(convert_to_lower(b""), Vec::<u8>::new());
    assert_eq!(convert_to_upper(b"TeleGram"), b"TELEGRAM".to_vec());
    assert_eq!(convert_to_upper(b"alice_01"), b"ALICE_01".to_vec());
    let long = vec![b'Q'; 64];
    assert_eq!(convert_to_lower(&long), vec![b'q'; 64]);
    let long = vec![b'q'; 96];
    assert_eq!(convert_to_upper(&long), vec![b'Q'; 96]);
}

#[test]
fn names_of_every_length_are_normalised() {
    let env = formatter_env();
    for len in [65usize, 66, 77, 90, 91, 97, 122, 255, 256, 0x4100, 0x6100, 70000] {
        let name = vec![b'Q'; len];
        assert_eq!(convert_to_lower(&name), vec![b'q'; len]);
        let name = vec![b'q'; len];
        assert_eq!(convert_to_upper(&name), vec![b'Q'; len]);
    }
}

#[test]
fn names_that_have_a_form() {
    assert!(is_normalizable(b""));
    assert!(is_normalizable(&[0u8; 65]));
    assert!(is_normalizable(&vec![0u8; 0x4100]));
    assert_eq!(MAX_STRING_LEN as u64, u32::MAX as u64);
}

#[test]
fn form_of_a_string_is_the_ledger_form() {
    let env = formatter_env();
    for len in [0usize, 1, 2, 3, 4, 5, 64, 65, 255, 256, 257, 70000] {
        let string: Vec<u8> = (0..len).map(|i| (i * 7 + 3) as u8).collect();
        let ledger: Vec<u8> =
            soroban_sdk::String::from_bytes(&env, &string).to_xdr(&env).iter().collect();
        assert_eq!(string_to_xdr(&string), ledger);
        assert_eq!(string_from_xdr(&ledger), Some(string.clone()));
        let back = soroban_sdk::String::from_xdr(
            &env,
            &soroban_sdk::Bytes::from_slice(&env, &string_to_xdr(&string)),
        )
        .unwrap();
        assert_eq!(back, soroban_sdk::String::from_bytes(&env, &string));
    }
}

#[test]
fn bytes_that_are_no_form_of_a_string() {
    assert_eq!(string_from_xdr(&[]), None);
    assert_eq!(string_from_xdr(&[0, 0, 0, 14, 0, 0, 0]), None);
    assert_eq!(string_from_xdr(&[0, 0, 0, 14, 0, 0, 0, 0]), Some(vec![]));
    assert_eq!(string_from_xdr(&[0, 0, 0, 13, 0, 0, 0, 0]), None);
    assert_eq!(string_from_xdr(&[1, 0, 0, 14, 0, 0, 0, 0]), None);
    assert_eq!(string_from_xdr(&[0, 0, 0, 14, 0, 0, 0, 1, 7, 0, 0, 0]), Some(vec![7]));
    assert_eq!(string_from_xdr(&[0, 0, 0, 14, 0, 0, 0, 1, 7, 0, 0, 1]), None);
    assert_eq!(string_from_xdr(&[0, 0, 0, 14, 0, 0, 0, 1, 7, 0, 0]), None);
    assert_eq!(string_from_xdr(&[0, 0, 0, 14, 0, 0, 0, 1, 7, 0, 0, 0, 0]), None);
    assert_eq!(string_from_xdr(&[0, 0, 0, 14, 0, 0, 0, 2, 7, 0, 0, 0]), Some(vec![7, 0]));
    assert_eq!(string_from_xdr(&[0, 0, 0, 14, 0, 0, 0, 5, 7, 0, 0, 0]), None);
    assert_eq!(string_from_xdr(&[0, 0, 0, 14, 255, 255, 255, 255, 7, 0, 0, 0]), None);
    assert_eq!(string_from_xdr(&[0, 0, 0, 14, 0, 0, 0, 4, 1, 2, 3, 4]), Some(vec![1, 2, 3, 4]));
}

#[test]
fn bytes_before_the_start_are_kept() {
    assert_eq!(lower_tail(b"ABCabc", 2), b"ABcabc".to_vec());
    assert_eq!(lower_tail(b"ABC", 0), b"abc".to_vec());
    assert_eq!(lower_tail(b"ABC", 3), b"ABC".to_vec());
    assert_eq!(lower_tail(b"ABC", 9), b"ABC".to_vec());
    assert_eq!(upper_tail(b"abcABC", 1), b"aBCABC".to_vec());
    assert_eq!(upper_tail(b"abc", 0), b"ABC".to_vec());
    assert_eq!(upper_tail(b"", 0), Vec::<u8>::new());
}

#[test]
fn every_byte_is_put_in_the_case() {
    let all: Vec<u8> = (0..=255).collect();
    let lowered = lower_tail(&all, 0);
    let raised = upper_tail(&all, 0);
    for b in 0..=255u8 {
        assert_eq!(lowered[b as usize], if b.is_ascii_uppercase() { b + 32 } else { b });
        assert_eq!(raised[b as usize], if b.is_ascii_lowercase() { b - 32 } else { b });
    }
    assert_eq!(lower_tail(&[], 0), Vec::<u8>::new());
    assert_eq!(lower_tail(b"@AZ[`az{", 0), b"@az[`az{".to_vec());
    assert_eq!(upper_tail(b"@AZ[`az{", 0), b"@AZ[`AZ{".to_vec());
}
