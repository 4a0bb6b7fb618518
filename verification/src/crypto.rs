use vstd::prelude::*;
use ed25519_dalek::Signer as Ed25519Signer;
use k256::ecdsa::signature::Signer as EcdsaSigner;
use sha3::Digest;

verus! {

/// The Keccak-256 digest of a byte string: 32 bytes, a function of the
/// input alone.
pub uninterp spec fn keccak256_of(data: Seq<u8>) -> Seq<u8>;

/// The Ed25519 public key determined by 32 bytes of secret key material.
pub uninterp spec fn ed25519_public_key_of(material: Seq<u8>) -> Seq<u8>;

/// The Ed25519 signature over a message under 32 bytes of secret key
/// material.
pub uninterp spec fn ed25519_signature_of(material: Seq<u8>, msg: Seq<u8>) -> Seq<u8>;

/// Whether 32 bytes of material form a valid secp256k1 secret scalar
/// (non-zero and below the curve order).
pub uninterp spec fn secp256k1_material_valid(material: Seq<u8>) -> bool;

/// The uncompressed SEC1 encoding of the secp256k1 public key determined by
/// valid secret key material.
pub uninterp spec fn secp256k1_public_key_of(material: Seq<u8>) -> Seq<u8>;

/// The deterministic ECDSA/secp256k1 signature over a message under valid
/// secret key material.
pub uninterp spec fn secp256k1_signature_of(material: Seq<u8>, msg: Seq<u8>) -> Seq<u8>;

/// Relies on `sha3::Keccak256` through `Digest::digest`: a 32-byte digest
/// that depends on the input bytes alone.
#[verifier::external_body]
pub(crate) fn keccak256(data: &[u8]) -> (r: Vec<u8>)
    ensures
        r@ == keccak256_of(data@),
        r@.len() == 32,
{
    sha3::Keccak256::digest(data).to_vec()
}

/// Relies on `ed25519_dalek::SigningKey::from_bytes` (total over any 32
/// bytes) and `SigningKey::verifying_key`: the public key is a function of
/// the secret key bytes alone and encodes as 32 bytes.
#[verifier::external_body]
pub(crate) fn ed25519_public_key(material: &[u8]) -> (r: Vec<u8>)
    requires
        material@.len() == 32,
    ensures
        r@ == ed25519_public_key_of(material@),
        r@.len() == 32,
{
    let mut secret = [0u8; 32];
    secret.copy_from_slice(material);
    ed25519_dalek::SigningKey::from_bytes(&secret).verifying_key().to_bytes().to_vec()
}

/// Relies on `ed25519_dalek::SigningKey::from_bytes` and `Signer::sign`:
/// Ed25519 signing is deterministic (RFC 8032), never fails for a 32-byte
/// secret key, and yields a 64-byte signature.
#[verifier::external_body]
pub(crate) fn ed25519_sign(material: &[u8], msg: &[u8]) -> (r: Vec<u8>)
    requires
        material@.len() == 32,
    ensures
        r@ == ed25519_signature_of(material@, msg@),
        r@.len() == 64,
{
    let mut secret = [0u8; 32];
    secret.copy_from_slice(material);
    ed25519_dalek::SigningKey::from_bytes(&secret).sign(msg).to_bytes().to_vec()
}

/// Relies on `k256::ecdsa::SigningKey::from_slice`, which accepts exactly
/// the 32-byte strings that form a non-zero scalar below the curve order,
/// and on `SigningKey::verifying_key` with
/// `VerifyingKey::to_encoded_point(false)`: the public key is a function of
/// the secret key bytes alone, encoded uncompressed as 65 bytes.
#[verifier::external_body]
pub(crate) fn secp256k1_public_key(material: &[u8]) -> (r: Option<Vec<u8>>)
    requires
        material@.len() == 32,
    ensures
        r is Some <==> secp256k1_material_valid(material@),
        r matches Some(pk) ==> pk@ == secp256k1_public_key_of(material@) && pk@.len() == 65,
{
    match k256::ecdsa::SigningKey::from_slice(material) {
        Ok(sk) => Some(sk.verifying_key().to_encoded_point(false).as_bytes().to_vec()),
        Err(_) => None,
    }
}

/// Relies on `k256::ecdsa::SigningKey::from_slice` and `Signer::try_sign`:
/// ECDSA signing here is deterministic (RFC 6979), so the 64-byte signature
/// depends on the key material and message alone. `try_sign` keeps the
/// right to fail, so success is not promised; a failure is reported as
/// `None` rather than a panic.
#[verifier::external_body]
pub(crate) fn secp256k1_sign(material: &[u8], msg: &[u8]) -> (r: Option<Vec<u8>>)
    requires
        material@.len() == 32,
    ensures
        r is Some ==> secp256k1_material_valid(material@),
        r matches Some(s) ==> s@ == secp256k1_signature_of(material@, msg@) && s@.len() == 64,
{
    let sk = match k256::ecdsa::SigningKey::from_slice(material) {
        Ok(sk) => sk,
        Err(_) => {
            return None;
        },
    };
    let sig: Result<k256::ecdsa::Signature, k256::ecdsa::Error> = sk.try_sign(msg);
    match sig {
        Ok(s) => Some(s.to_vec()),
        Err(_) => None,
    }
}

} // verus!
