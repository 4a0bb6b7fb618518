use db3_client::db3_address::{DB3Address, DB3_ADDRESS_LENGTH};
use db3_client::errors::DB3Error;
use db3_client::key::{bytes_lex_less, Key, MAX_NAMESPACE_LEN, MAX_USE_KEY_LEN, MIN_KEY_TOTAL_LEN};
use db3_client::key_derive::{derive_key_pair_from_path, SignatureScheme};

fn gen_address() -> DB3Address {
    let seed: [u8; 32] = [0; 32];
    let (address, _) =
        derive_key_pair_from_path(&seed, None, &SignatureScheme::ED25519).unwrap();
    address
}

#[test]
fn it_key_serde() {
    let addr = gen_address();
    let ns: &str = "ns1";
    let k: &str = "k1";
    let key = Key(addr, ns.as_bytes(), k.as_bytes());
    let key_encoded = key.encode();
    assert!(key_encoded.is_ok());
    let key_decoded = Key::decode(key_encoded.as_ref().unwrap(), ns.as_bytes());
    assert!(key_decoded.is_ok());
    assert!(key_decoded.unwrap().0 == addr);
}

#[test]
fn it_key_serde_cmp() -> Result<(), DB3Error> {
    let addr = gen_address();
    let ns: &str = "ns1";
    let k: &str = "k1";
    let key = Key(addr, ns.as_bytes(), k.as_bytes());
    let key_encoded1 = key.encode()?;
    let ns: &str = "ns1";
    let k: &str = "k2";
    let key = Key(addr, ns.as_bytes(), k.as_bytes());
    let key_encoded2 = key.encode()?;
    assert!(key_encoded1.cmp(&key_encoded1) == std::cmp::Ordering::Equal);
    assert!(key_encoded1.cmp(&key_encoded2) == std::cmp::Ordering::Less);
    Ok(())
}

#[test]
fn round_trip_returns_all_parts() {
    let addr = gen_address();
    let key = Key(addr, b"ns1", b"k1");
    let encoded = key.encode().unwrap();
    let decoded = Key::decode(&encoded, b"ns1").unwrap();
    assert!(decoded.0 == addr);
    assert_eq!(decoded.1, b"ns1");
    assert_eq!(decoded.2, b"k1");
}

#[test]
fn encoded_layout_is_address_sentinel_namespace_key() {
    let addr = gen_address();
    let key = Key(addr, b"ab", b"xy");
    let encoded = key.encode().unwrap();
    let mut expected: Vec<u8> = Vec::new();
    expected.extend_from_slice(addr.as_bytes());
    expected.extend_from_slice(b"_NS_");
    expected.extend_from_slice(b"ab");
    expected.extend_from_slice(b"xy");
    assert_eq!(encoded, expected);
    assert_eq!(encoded.len(), DB3_ADDRESS_LENGTH + 4 + 2 + 2);
}

#[test]
fn encode_rejects_oversized_namespace() {
    let addr = gen_address();
    let ns = [0u8; 17];
    let key = Key(addr, &ns, b"k");
    let r = key.encode();
    assert_eq!(r, Err(DB3Error::KeyCodecError { length: 17 }));
}

#[test]
fn encode_rejects_oversized_user_key() {
    let addr = gen_address();
    let user_key = [0u8; 513];
    let key = Key(addr, b"ns", &user_key);
    let r = key.encode();
    assert_eq!(r, Err(DB3Error::KeyCodecError { length: 513 }));
}

#[test]
fn encode_accepts_maximal_lengths() {
    let addr = gen_address();
    let ns = [7u8; 16];
    let user_key = [9u8; 512];
    let key = Key(addr, &ns, &user_key);
    let encoded = key.encode().unwrap();
    assert_eq!(encoded.len(), MIN_KEY_TOTAL_LEN + MAX_NAMESPACE_LEN + MAX_USE_KEY_LEN);
    let decoded = Key::decode(&encoded, &ns).unwrap();
    assert_eq!(decoded.2, &user_key[..]);
}

#[test]
fn decode_rejects_short_data() {
    let data = [1u8; 24];
    let r = Key::decode(&data, b"ns1");
    assert_eq!(r.err(), Some(DB3Error::KeyCodecError { length: 24 }));
    let empty: [u8; 0] = [];
    let r = Key::decode(&empty, b"");
    assert_eq!(r.err(), Some(DB3Error::KeyCodecError { length: 0 }));
    // An empty namespace and empty user key encode to exactly the minimum
    // length, which decode rejects: such a key cannot round-trip.
    let addr = gen_address();
    let encoded = Key(addr, b"", b"").encode().unwrap();
    assert_eq!(encoded.len(), 24);
    let r = Key::decode(&encoded, b"");
    assert_eq!(r.err(), Some(DB3Error::KeyCodecError { length: 24 }));
}

#[test]
fn decode_trusts_the_callers_namespace() {
    let addr = gen_address();
    let key = Key(addr, b"ns1", b"k1");
    let encoded = key.encode().unwrap();
    // A wrong namespace of the same length yields a wrong, non-crashing
    // decode: the user key is read positionally.
    let decoded = Key::decode(&encoded, b"ns2").unwrap();
    assert!(decoded.0 == addr);
    assert_eq!(decoded.1, b"ns2");
    assert_eq!(decoded.2, b"k1");
}

#[test]
fn encoding_preserves_user_key_order() {
    let addr = gen_address();
    let pairs: [(&[u8], &[u8]); 4] = [
        (b"k1", b"k2"),
        (b"a", b"ab"),
        (b"", b"b"),
        (b"k19", b"k2"),
    ];
    for (k1, k2) in pairs {
        assert!(bytes_lex_less(k1, k2));
        assert!(!bytes_lex_less(k2, k1));
        let e1 = Key(addr, b"ns1", k1).encode().unwrap();
        let e2 = Key(addr, b"ns1", k2).encode().unwrap();
        assert!(bytes_lex_less(&e1, &e2));
        assert!(e1.cmp(&e2) == std::cmp::Ordering::Less);
    }
    assert!(!bytes_lex_less(b"same", b"same"));
}
