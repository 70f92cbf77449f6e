use aptos_account::{
    append_decimal, faucet_request_url, parse_decimal, report, sequence_number_from_body,
    sequence_number_from_reply, AccountAddress, CreateAccount, CreateError, Start, SubmitReply,
};
use sha3::Digest;

fn public_key(seed: u8) -> Vec<u8> {
    ed25519_dalek::SigningKey::from_bytes(&[seed; 32])
        .verifying_key()
        .to_bytes()
        .to_vec()
}

fn expected_address(public_key: &[u8]) -> [u8; 32] {
    let mut data = public_key.to_vec();
    data.push(0);
    sha3::Sha3_256::digest(&data).into()
}

fn hex(bytes: &[u8]) -> String {
    bytes.iter().map(|b| format!("{:02x}", b)).collect()
}

fn command(use_faucet: bool, private_key: Option<Vec<u8>>) -> CreateAccount {
    CreateAccount::new(
        public_key(1),
        private_key,
        "http://node.test/v1/".to_string(),
        4,
        use_faucet,
    )
}

#[test]
fn derive_is_deterministic() {
    let pk = public_key(9);
    let a = AccountAddress::derive(&pk).unwrap();
    let b = AccountAddress::derive(&pk).unwrap();
    assert_eq!(a, b);
    assert_eq!(a.bytes, expected_address(&pk));
}

#[test]
fn derive_differs_from_the_key() {
    let pk = public_key(3);
    let a = AccountAddress::derive(&pk).unwrap();
    assert_ne!(a.bytes.to_vec(), pk);
}

#[test]
fn derive_rejects_wrong_length() {
    assert_eq!(AccountAddress::derive(&[1u8; 31]), Err(CreateError::InvalidPublicKey));
    assert_eq!(AccountAddress::derive(&[]), Err(CreateError::InvalidPublicKey));
}

#[test]
fn derive_rejects_non_point() {
    let mut key = [0u8; 32];
    let mut found = false;
    for b in 0..=255u8 {
        key[0] = b;
        if ed25519_dalek::VerifyingKey::from_bytes(&key).is_err() {
            found = true;
            break;
        }
    }
    assert!(found);
    assert_eq!(AccountAddress::derive(&key), Err(CreateError::InvalidPublicKey));
}

#[test]
fn address_hex_is_lower_case_and_full_length() {
    let mut bytes = [0u8; 32];
    for (i, b) in bytes.iter_mut().enumerate() {
        *b = (i as u8) * 8;
    }
    let a = AccountAddress { bytes };
    let h = a.to_hex();
    assert_eq!(h.len(), 64);
    assert_eq!(h, hex(&bytes));
    assert!(h.starts_with("0008101820"));
    assert!(h.ends_with("f8"));
}

#[test]
fn decimal_rendering() {
    let mut s = String::new();
    append_decimal(&mut s, 0);
    assert_eq!(s, "0");
    let mut s = "x".to_string();
    append_decimal(&mut s, 503);
    assert_eq!(s, "x503");
    let mut s = String::new();
    append_decimal(&mut s, u64::MAX);
    assert_eq!(s, "18446744073709551615");
}

#[test]
fn decimal_parsing() {
    assert_eq!(parse_decimal("5"), Some(5));
    assert_eq!(parse_decimal("0042"), Some(42));
    assert_eq!(parse_decimal("18446744073709551615"), Some(u64::MAX));
    assert_eq!(parse_decimal("18446744073709551616"), None);
    assert_eq!(parse_decimal(""), None);
    assert_eq!(parse_decimal("12a"), None);
    assert_eq!(parse_decimal("+5"), Some(5));
    assert_eq!(parse_decimal("+"), None);
    assert_eq!(parse_decimal("++5"), None);
    assert_eq!(parse_decimal("5+"), None);
    assert_eq!(parse_decimal("-1"), None);
}

#[test]
fn sequence_from_string_member() {
    assert_eq!(sequence_number_from_body(r#"{"sequence_number":"5"}"#), Ok(5));
    assert_eq!(
        sequence_number_from_body(r#"{"authentication_key":"0x1","sequence_number":"123"}"#),
        Ok(123)
    );
}

#[test]
fn sequence_from_numeric_member() {
    assert_eq!(sequence_number_from_body(r#"{"sequence_number":7}"#), Ok(7));
    assert_eq!(sequence_number_from_body(r#"{"sequence_number":"+5"}"#), Ok(5));
}

#[test]
fn sequence_missing_or_malformed() {
    assert_eq!(sequence_number_from_body("{}"), Err(CreateError::Parse));
    assert_eq!(sequence_number_from_body("not json"), Err(CreateError::Parse));
    assert_eq!(sequence_number_from_body(r#"{"sequence_number":"x"}"#), Err(CreateError::Parse));
    assert_eq!(sequence_number_from_body(r#"{"sequence_number":-3}"#), Err(CreateError::Parse));
    assert_eq!(sequence_number_from_body(r#"["sequence_number"]"#), Err(CreateError::Parse));
}

#[test]
fn sequence_reply_statuses() {
    assert_eq!(sequence_number_from_reply(404, "{}"), Err(CreateError::NotFound));
    assert_eq!(
        sequence_number_from_reply(500, r#"{"sequence_number":"5"}"#),
        Err(CreateError::Network("unexpected status 500".to_string()))
    );
    assert_eq!(sequence_number_from_reply(200, r#"{"sequence_number":"9"}"#), Ok(9));
}

#[test]
fn no_key_and_no_faucet_is_a_configuration_error() {
    let cmd = command(false, None);
    let start = cmd.start();
    assert_eq!(start, Start::Done(Err(CreateError::MissingSenderKey)));
    assert_eq!(
        CreateError::MissingSenderKey.message(),
        "One of ['--private-key', '--private-key-file', '--use-faucet'] must be provided"
    );
}

#[test]
fn invalid_public_key_stops_before_any_request() {
    let mut cmd = command(true, None);
    cmd.public_key = vec![1, 2, 3];
    assert_eq!(cmd.start(), Start::Done(Err(CreateError::InvalidPublicKey)));
    assert_eq!(CreateError::InvalidPublicKey.message(), "Invalid public key");
}

#[test]
fn short_private_key_is_refused() {
    let cmd = command(false, Some(vec![5u8; 31]));
    assert_eq!(cmd.start(), Start::Done(Err(CreateError::InvalidPrivateKey)));
    assert_eq!(CreateError::InvalidPrivateKey.message(), "Invalid private key");
}

#[test]
fn faucet_request_asks_for_zero() {
    let a = AccountAddress { bytes: [0xab; 32] };
    let url = faucet_request_url("https://faucet.test", &a);
    assert_eq!(url, format!("https://faucet.test/mint?amount=0&auth_key={}", "ab".repeat(32)));
}

#[test]
fn faucet_path_success() {
    let cmd = command(true, Some(vec![2u8; 32]));
    let address = expected_address(&public_key(1));
    match cmd.start() {
        Start::Faucet(wait, url) => {
            assert_eq!(
                url,
                format!("https://faucet.devnet.aptoslabs.com/mint?amount=0&auth_key={}", hex(&address))
            );
            let outcome = wait.on_reply(Ok(200));
            assert_eq!(outcome, Ok(AccountAddress { bytes: address }));
            assert_eq!(report(&outcome), format!("Account Created at {}", hex(&address)));
        }
        other => panic!("expected a faucet request, got {:?}", other),
    }
}

#[test]
fn faucet_path_failure_names_status() {
    let cmd = command(true, None);
    match cmd.start() {
        Start::Faucet(wait, _) => {
            let outcome = wait.on_reply(Ok(503));
            assert_eq!(outcome, Err(CreateError::Faucet(503)));
            let line = report(&outcome);
            assert!(line.contains("503"));
            assert_eq!(line, "Faucet issue: 503");
        }
        other => panic!("expected a faucet request, got {:?}", other),
    }
}

#[test]
fn faucet_unreachable_is_network_error() {
    let cmd = command(true, None);
    match cmd.start() {
        Start::Faucet(wait, _) => {
            let outcome = wait.on_reply(Err("connection refused".to_string()));
            assert_eq!(report(&outcome), "Network error: connection refused");
        }
        other => panic!("expected a faucet request, got {:?}", other),
    }
}

#[test]
fn key_path_success_uses_fetched_sequence() {
    let secret = vec![2u8; 32];
    let cmd = command(false, Some(secret.clone()));
    let sender = expected_address(&public_key(2));
    let new_account = expected_address(&public_key(1));
    match cmd.start() {
        Start::FetchSequence(wait, url) => {
            assert_eq!(url, format!("http://node.test/v1/accounts/{}", hex(&sender)));
            assert_eq!(wait.sender.bytes, sender);
            let (submit, tx) = wait
                .on_reply(Ok((200, r#"{"sequence_number":"5"}"#.to_string())))
                .unwrap();
            assert_eq!(tx.sequence_number, 5);
            assert_eq!(tx.sender.bytes, sender);
            assert_eq!(tx.sender_key.to_vec(), secret);
            assert_eq!(tx.new_account.bytes, new_account);
            assert_eq!(tx.chain_id, 4);
            assert_eq!(tx.gas_unit_price, 1);
            assert_eq!(tx.max_gas_amount, 1000);
            let outcome = submit.on_reply(SubmitReply::Executed);
            assert_eq!(report(&outcome), format!("Account Created at {}", hex(&new_account)));
        }
        other => panic!("expected a sequence request, got {:?}", other),
    }
}

#[test]
fn key_path_sender_not_on_chain() {
    let cmd = command(false, Some(vec![2u8; 32]));
    match cmd.start() {
        Start::FetchSequence(wait, _) => {
            let outcome = wait.on_reply(Ok((404, "{}".to_string())));
            assert_eq!(outcome, Err(CreateError::NotFound));
            assert_eq!(CreateError::NotFound.message(), "Account not found");
        }
        other => panic!("expected a sequence request, got {:?}", other),
    }
}

#[test]
fn key_path_missing_sequence_is_parse_error() {
    let cmd = command(false, Some(vec![2u8; 32]));
    match cmd.start() {
        Start::FetchSequence(wait, _) => {
            let outcome = wait.on_reply(Ok((200, "{}".to_string())));
            assert_eq!(outcome, Err(CreateError::Parse));
            assert_eq!(CreateError::Parse.message(), "Sequence number not found");
        }
        other => panic!("expected a sequence request, got {:?}", other),
    }
}

#[test]
fn key_path_node_unreachable() {
    let cmd = command(false, Some(vec![2u8; 32]));
    match cmd.start() {
        Start::FetchSequence(wait, _) => {
            let outcome = wait.on_reply(Err("timed out".to_string()));
            assert_eq!(outcome, Err(CreateError::Network("timed out".to_string())));
        }
        other => panic!("expected a sequence request, got {:?}", other),
    }
}

#[test]
fn key_path_rejected_transaction() {
    let cmd = command(false, Some(vec![2u8; 32]));
    match cmd.start() {
        Start::FetchSequence(wait, _) => {
            let (submit, _) = wait
                .on_reply(Ok((200, r#"{"sequence_number":"0"}"#.to_string())))
                .unwrap();
            let outcome = submit.on_reply(SubmitReply::Rejected("SEQUENCE_NUMBER_TOO_OLD".to_string()));
            assert_eq!(report(&outcome), "Transaction failed: SEQUENCE_NUMBER_TOO_OLD");
            let outcome = submit.on_reply(SubmitReply::Unreachable("reset".to_string()));
            assert_eq!(outcome, Err(CreateError::Network("reset".to_string())));
        }
        other => panic!("expected a sequence request, got {:?}", other),
    }
}

#[test]
fn hex_decoding() {
    assert_eq!(aptos_account::decode_hex("00ff10Ab"), Some(vec![0, 255, 16, 171]));
    assert_eq!(aptos_account::decode_hex(""), Some(vec![]));
    assert_eq!(aptos_account::decode_hex("abc"), None);
    assert_eq!(aptos_account::decode_hex("zz"), None);
}

#[test]
fn key_path_unexpected_status_names_it() {
    let cmd = command(false, Some(vec![2u8; 32]));
    match cmd.start() {
        Start::FetchSequence(wait, _) => {
            let outcome = wait.on_reply(Ok((502, r#"{"sequence_number":"+5"}"#.to_string())));
            assert_eq!(outcome, Err(CreateError::Network("unexpected status 502".to_string())));
            assert_eq!(outcome.unwrap_err().message(), "Network error: unexpected status 502");
        }
        other => panic!("expected a sequence request, got {:?}", other),
    }
}

#[test]
fn key_path_plus_signed_sequence() {
    let cmd = command(false, Some(vec![2u8; 32]));
    match cmd.start() {
        Start::FetchSequence(wait, _) => {
            let (_, tx) = wait
                .on_reply(Ok((200, r#"{"sequence_number":"+5"}"#.to_string())))
                .unwrap();
            assert_eq!(tx.sequence_number, 5);
        }
        other => panic!("expected a sequence request, got {:?}", other),
    }
}
