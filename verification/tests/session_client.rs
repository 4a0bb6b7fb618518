use db3_client::db3_signer::Db3MultiSchemeSigner;
use db3_client::errors::DB3Error;
use db3_client::key_derive::{derive_key_pair_from_path, SignatureScheme};
use db3_client::session_manager::{SessionManager, DEFAULT_SESSION_QUERY_LIMIT};
use db3_client::store_sdk::{current_seconds, StoreSDK};

fn ed25519_client() -> StoreSDK {
    let seed: [u8; 32] = [3; 32];
    let (_, kp) = derive_key_pair_from_path(&seed, None, &SignatureScheme::ED25519).unwrap();
    StoreSDK::new(Db3MultiSchemeSigner::new(kp))
}

#[test]
fn fresh_session_is_blocked_until_created_and_blocked_again_at_quota() {
    let fresh = SessionManager::new();
    assert!(!fresh.check_session_running());
    assert_eq!(fresh.get_session_info().id, 0);
    assert_eq!(fresh.get_session_info().query_count, 0);

    let mut active = SessionManager::create_session(7);
    assert!(active.check_session_running());
    assert_eq!(active.get_session_info().id, 7);

    active.increase_query(DEFAULT_SESSION_QUERY_LIMIT - 1);
    assert!(active.check_session_running());
    active.increase_query(1);
    assert!(!active.check_session_running());
    assert_eq!(active.get_session_info().query_count, DEFAULT_SESSION_QUERY_LIMIT);
}

#[test]
fn gated_query_fails_locally_then_succeeds_after_restart() {
    let mut sdk = ed25519_client();
    let keys: Vec<Vec<u8>> = vec![b"k1".to_vec()];

    // A fresh client is refused locally, before anything could reach a network.
    let r = sdk.begin_batch_get(b"ns1", &keys);
    assert!(matches!(r, Err(DB3Error::SessionNotRunning)));
    let r = sdk.begin_get_bills_by_block(1, 0, 10);
    assert!(matches!(r, Err(DB3Error::SessionNotRunning)));
    assert_eq!(sdk.query_count(), 0);

    // A (simulated) successful restart authorizes the session.
    let old_info = sdk.finish_restart_session(7);
    assert_eq!(old_info.id, 0);
    assert_eq!(old_info.query_count, 0);
    assert_eq!(sdk.session_id(), 7);
    assert!(sdk.check_session_running());

    // The same call is now admitted, and a served query counts once.
    let env = sdk.begin_batch_get(b"ns1", &keys).unwrap();
    assert!(!env.payload.is_empty());
    sdk.finish_metered_query();
    assert_eq!(sdk.query_count(), 1);

    let bill = sdk.begin_get_bills_by_block(1, 0, 10).unwrap();
    assert_eq!(bill.height, 1);
    assert_eq!(bill.start_id, 0);
    assert_eq!(bill.end_id, 10);
    sdk.finish_metered_query();
    assert_eq!(sdk.query_count(), 2);
}

#[test]
fn restart_envelope_holds_the_signed_session_snapshot() {
    let sdk = ed25519_client();
    let env = sdk.begin_restart_session().unwrap();
    // id 0 and count 0, each as one tagged varint field.
    assert_eq!(env.payload, vec![0x08, 0x00, 0x10, 0x00]);
    assert_eq!(env.signature.len(), 64);
    assert_ne!(env.signature, env.payload);
}

#[test]
fn restart_envelope_encodes_a_negative_id_in_ten_bytes() {
    let mut sdk = ed25519_client();
    sdk.finish_restart_session(-1);
    let env = sdk.begin_restart_session().unwrap();
    let expected: Vec<u8> = vec![
        0x08, 0xff, 0xff, 0xff, 0xff, 0xff, 0xff, 0xff, 0xff, 0xff, 0x01, 0x10, 0x00,
    ];
    assert_eq!(env.payload, expected);
}

#[test]
fn batch_get_envelope_holds_the_canonical_descriptor() {
    let mut sdk = ed25519_client();
    sdk.finish_restart_session(9);
    let keys: Vec<Vec<u8>> = vec![b"k1".to_vec(), b"k23".to_vec()];
    let env = sdk.begin_batch_get(b"ns1", &keys).unwrap();
    let expected: Vec<u8> = vec![
        0x0a, 0x03, b'n', b's', b'1', // namespace field
        0x12, 0x02, b'k', b'1', // first key field
        0x12, 0x03, b'k', b'2', b'3', // second key field
        0x18, 0x01, // session number field
    ];
    assert_eq!(env.payload, expected);
    assert_eq!(env.signature.len(), 64);
}

#[test]
fn account_lookup_carries_the_hex_address_text() {
    let seed: [u8; 32] = [5; 32];
    let (addr, kp) = derive_key_pair_from_path(&seed, None, &SignatureScheme::ED25519).unwrap();
    let sdk = StoreSDK::new(Db3MultiSchemeSigner::new(kp));
    let request = sdk.begin_get_account(&addr);
    let mut expected = String::from("0x");
    for b in addr.as_bytes() {
        expected.push_str(&format!("{:02x}", b));
    }
    assert_eq!(request.addr, expected.as_bytes());
    assert_eq!(request.addr.len(), 42);
    let info_request = sdk.begin_get_session_info(&addr);
    assert_eq!(info_request.addr, expected.as_bytes());
}

#[test]
fn current_seconds_reads_a_post_epoch_clock() {
    assert!(current_seconds() > 0);
}
