use vstd::prelude::*;
use crate::crypto::{
    ed25519_sign, ed25519_signature_of, keccak256, secp256k1_sign, secp256k1_signature_of,
};
use crate::db3_address::DB3Address;
use crate::errors::DB3Error;
use crate::key_derive::{account_address_of, DB3KeyPair, SignatureScheme};

verus! {

/// The signature a scheme produces over a message under given secret key
/// material. Both schemes sign deterministically, so this is a function of
/// the three arguments.
pub open spec fn scheme_signature(
    scheme: SignatureScheme,
    material: Seq<u8>,
    msg: Seq<u8>,
) -> Seq<u8> {
    match scheme {
        SignatureScheme::ED25519 => ed25519_signature_of(material, msg),
        SignatureScheme::Secp256k1 => secp256k1_signature_of(material, msg),
    }
}

/// A uniform signing capability over one derived keypair: sign bytes,
/// report the bound address. Callers never branch on the scheme.
pub struct Db3MultiSchemeSigner {
    kp: DB3KeyPair,
    address: DB3Address,
}

impl Db3MultiSchemeSigner {
    /// The scheme of the owned keypair.
    pub closed spec fn spec_scheme(self) -> SignatureScheme {
        self.kp.spec_scheme()
    }

    /// The secret material of the owned keypair (specification-level only).
    pub closed spec fn spec_material(self) -> Seq<u8> {
        self.kp.spec_material()
    }

    /// The public key of the owned keypair.
    pub closed spec fn spec_public_key(self) -> Seq<u8> {
        self.kp.spec_public_key()
    }

    #[verifier::type_invariant]
    spec fn wf(self) -> bool {
        self.address@ == account_address_of(self.kp.spec_public_key())
    }

    /// Wraps an already-derived keypair; derivation is not the signer's
    /// job. The signer owns the keypair exclusively and never exposes its
    /// secret material.
    pub fn new(kp: DB3KeyPair) -> (s: Self)
        ensures
            s.spec_scheme() == kp.spec_scheme(),
            s.spec_material() == kp.spec_material(),
            s.spec_public_key() == kp.spec_public_key(),
    {
        let hash: Vec<u8> = keccak256(kp.public_key_bytes());
        let addr_slice: &[u8] = vstd::slice::slice_subrange(hash.as_slice(), 12, 32);
        let address = DB3Address::from_slice(addr_slice);
        proof {
            assert(address@ =~= account_address_of(kp.spec_public_key()));
        }
        Db3MultiSchemeSigner { kp, address }
    }

    /// Produces the scheme's signature over exactly the bytes given; the
    /// payload is never hashed or reinterpreted beyond what the scheme
    /// itself mandates. Ed25519 signing always succeeds; a scheme-level
    /// rejection surfaces as `SigningError`, a hard local fault.
    pub fn sign(&self, msg: &[u8]) -> (r: Result<Vec<u8>, DB3Error>)
        ensures
            match r {
                Ok(sig) => sig@ == scheme_signature(self.spec_scheme(), self.spec_material(), msg@),
                Err(e) => e == DB3Error::SigningError && self.spec_scheme()
                    == SignatureScheme::Secp256k1,
            },
            self.spec_scheme() == SignatureScheme::ED25519 ==> r is Ok,
    {
        proof {
            use_type_invariant(&*self);
        }
        match self.kp.scheme_of() {
            SignatureScheme::ED25519 => Ok(ed25519_sign(self.kp.material_bytes(), msg)),
            SignatureScheme::Secp256k1 => {
                match secp256k1_sign(self.kp.material_bytes(), msg) {
                    Some(sig) => Ok(sig),
                    None => Err(DB3Error::SigningError),
                }
            },
        }
    }

    /// The address bound to this signer's keypair; a pure accessor.
    pub fn address(&self) -> (r: DB3Address)
        ensures
            r@ == account_address_of(self.spec_public_key()),
    {
        proof {
            use_type_invariant(&*self);
        }
        self.address
    }
}

} // verus!
