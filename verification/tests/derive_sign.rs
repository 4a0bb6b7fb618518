use db3_client::db3_address::DB3Address;
use ed25519_dalek::Verifier;
use k256::ecdsa::signature::Verifier as EcdsaVerifier;
use sha3::Digest;
use db3_client::db3_signer::Db3MultiSchemeSigner;
use db3_client::errors::DB3Error;
use db3_client::key_derive::{derive_key_pair_from_path, validate_path, SignatureScheme};

fn gen_ed25519_signer(seed: i64) -> (DB3Address, Db3MultiSchemeSigner) {
    let mut seeds: Vec<u8> = vec![];
    seeds.extend_from_slice(&seed.to_be_bytes());
    seeds.extend_from_slice(&seed.to_be_bytes());
    seeds.extend_from_slice(&seed.to_be_bytes());
    seeds.extend_from_slice(&seed.to_be_bytes());
    let (addr, kp) =
        derive_key_pair_from_path(&seeds, None, &SignatureScheme::ED25519).unwrap();
    (addr, Db3MultiSchemeSigner::new(kp))
}

fn gen_secp256k1_signer(seed: i64) -> (DB3Address, Db3MultiSchemeSigner) {
    let mut seeds: Vec<u8> = vec![];
    seeds.extend_from_slice(&seed.to_be_bytes());
    seeds.extend_from_slice(&seed.to_be_bytes());
    seeds.extend_from_slice(&seed.to_be_bytes());
    seeds.extend_from_slice(&seed.to_be_bytes());
    let (addr, kp) =
        derive_key_pair_from_path(&seeds, None, &SignatureScheme::Secp256k1).unwrap();
    (addr, Db3MultiSchemeSigner::new(kp))
}

#[test]
fn derivation_is_deterministic_for_both_schemes() {
    for scheme in [SignatureScheme::ED25519, SignatureScheme::Secp256k1] {
        let seed: [u8; 32] = [42; 32];
        let (addr1, kp1) = derive_key_pair_from_path(&seed, None, &scheme).unwrap();
        let (addr2, kp2) = derive_key_pair_from_path(&seed, None, &scheme).unwrap();
        assert!(addr1 == addr2);
        assert_eq!(kp1.public_key_bytes(), kp2.public_key_bytes());
        let signer1 = Db3MultiSchemeSigner::new(kp1);
        let signer2 = Db3MultiSchemeSigner::new(kp2);
        let sig1 = signer1.sign(b"payload").unwrap();
        let sig2 = signer2.sign(b"payload").unwrap();
        assert_eq!(sig1, sig2);
        assert_eq!(sig1.len(), 64);
        assert!(signer1.address() == addr1);
    }
}

#[test]
fn distinct_seeds_and_schemes_give_distinct_accounts() {
    let (addr_a, _) = gen_ed25519_signer(1);
    let (addr_b, _) = gen_ed25519_signer(2);
    assert!(!(addr_a == addr_b));
    let (addr_c, _) = gen_secp256k1_signer(1);
    assert!(!(addr_a == addr_c));
    assert_eq!(addr_a.as_bytes().len(), 20);
    assert_eq!(addr_c.as_bytes().len(), 20);
}

#[test]
fn the_two_schemes_sign_differently_over_one_payload() {
    let (_, ed) = gen_ed25519_signer(11);
    let (_, secp) = gen_secp256k1_signer(11);
    let payload = b"the exact bytes to authenticate";
    let ed_sig = ed.sign(payload).unwrap();
    let secp_sig = secp.sign(payload).unwrap();
    assert_eq!(ed_sig.len(), 64);
    assert_eq!(secp_sig.len(), 64);
    assert_ne!(ed_sig, secp_sig);
}

#[test]
fn signatures_verify_under_the_reported_public_keys() {
    let seed: [u8; 32] = [77; 32];
    let payload = b"bytes under signature";

    let (_, kp) = derive_key_pair_from_path(&seed, None, &SignatureScheme::ED25519).unwrap();
    let mut pk_bytes = [0u8; 32];
    pk_bytes.copy_from_slice(kp.public_key_bytes());
    let verifying = ed25519_dalek::VerifyingKey::from_bytes(&pk_bytes).unwrap();
    let signer = Db3MultiSchemeSigner::new(kp);
    let sig_bytes = signer.sign(payload).unwrap();
    let mut sig = [0u8; 64];
    sig.copy_from_slice(&sig_bytes);
    assert!(verifying
        .verify(payload, &ed25519_dalek::Signature::from_bytes(&sig))
        .is_ok());
    assert!(verifying
        .verify(b"other bytes", &ed25519_dalek::Signature::from_bytes(&sig))
        .is_err());

    let (_, kp) = derive_key_pair_from_path(&seed, None, &SignatureScheme::Secp256k1).unwrap();
    let verifying = k256::ecdsa::VerifyingKey::from_sec1_bytes(kp.public_key_bytes()).unwrap();
    let signer = Db3MultiSchemeSigner::new(kp);
    let sig_bytes = signer.sign(payload).unwrap();
    let sig = k256::ecdsa::Signature::from_slice(&sig_bytes).unwrap();
    assert!(verifying.verify(payload, &sig).is_ok());
    assert!(verifying.verify(b"other bytes", &sig).is_err());
}

#[test]
fn the_address_is_the_tail_of_the_public_key_digest() {
    let seed: [u8; 32] = [21; 32];
    for scheme in [SignatureScheme::ED25519, SignatureScheme::Secp256k1] {
        let (addr, kp) = derive_key_pair_from_path(&seed, None, &scheme).unwrap();
        let digest = sha3::Keccak256::digest(kp.public_key_bytes());
        assert_eq!(addr.as_bytes(), &digest[12..32]);
        let signer = Db3MultiSchemeSigner::new(kp);
        assert!(signer.address() == addr);
    }
}

#[test]
fn derivation_rejects_a_malformed_seed() {
    let short = [0u8; 16];
    let r = derive_key_pair_from_path(&short, None, &SignatureScheme::ED25519);
    assert!(matches!(r, Err(DB3Error::KeyDerivationError)));
    let long = [0u8; 33];
    let r = derive_key_pair_from_path(&long, None, &SignatureScheme::Secp256k1);
    assert!(matches!(r, Err(DB3Error::KeyDerivationError)));
}

#[test]
fn derivation_rejects_an_invalid_path() {
    let seed = [0u8; 32];
    for bad in ["", "x/44'", "m/", "m/44'/", "m//0'", "m/4a'", "m/44"] {
        let r = derive_key_pair_from_path(&seed, Some(bad), &SignatureScheme::ED25519);
        assert!(matches!(r, Err(DB3Error::KeyDerivationError)), "path {:?}", bad);
    }
    // Ed25519 derivation demands hardened components; secp256k1 accepts both.
    assert!(derive_key_pair_from_path(&seed, Some("m/44"), &SignatureScheme::Secp256k1).is_ok());
    assert!(derive_key_pair_from_path(&seed, Some("m/44'"), &SignatureScheme::ED25519).is_ok());
    assert!(derive_key_pair_from_path(&seed, Some("m"), &SignatureScheme::ED25519).is_ok());
    assert!(
        derive_key_pair_from_path(&seed, Some("m/44'/60'/0'/0/0"), &SignatureScheme::Secp256k1)
            .is_ok()
    );
}

#[test]
fn path_syntax_is_checked_per_component() {
    assert!(validate_path(b"m", true));
    assert!(validate_path(b"m/44'/60'/0'", true));
    assert!(!validate_path(b"m/44/60", true));
    assert!(validate_path(b"m/44/60", false));
    assert!(validate_path(b"m/44'/60", false));
    assert!(!validate_path(b"m/'", false));
    assert!(!validate_path(b"m/44''", false));
    assert!(!validate_path(b"44/60", false));
    assert!(!validate_path(b"", false));
}

#[test]
fn distinct_paths_give_distinct_accounts() {
    let seed = [9u8; 32];
    let (a1, _) =
        derive_key_pair_from_path(&seed, Some("m/44'/60'/0'"), &SignatureScheme::ED25519).unwrap();
    let (a2, _) =
        derive_key_pair_from_path(&seed, Some("m/44'/60'/1'"), &SignatureScheme::ED25519).unwrap();
    assert!(!(a1 == a2));
    // `None` falls back to the scheme's default path.
    let (a3, _) = derive_key_pair_from_path(&seed, None, &SignatureScheme::ED25519).unwrap();
    let (a4, _) =
        derive_key_pair_from_path(&seed, Some("m/44'/60'/0'"), &SignatureScheme::ED25519).unwrap();
    assert!(a3 == a4);
}
