use vstd::prelude::*;
use vstd::slice::slice_index_get;
use vstd::slice::slice_subrange;
use vstd::string::StringSliceAdditionalSpecFns;
use crate::crypto::{
    ed25519_public_key, ed25519_public_key_of, keccak256, keccak256_of, secp256k1_material_valid,
    secp256k1_public_key, secp256k1_public_key_of,
};
use crate::db3_address::DB3Address;
use crate::errors::DB3Error;

verus! {

/// The closed set of signature schemes: each selects both the derivation
/// algorithm and the signature algorithm.
#[derive(Clone, Copy, Debug, PartialEq, Eq, Structural)]
pub enum SignatureScheme {
    ED25519,
    Secp256k1,
}

/// Number of bytes a derivation seed must have.
pub const SEED_LENGTH: usize = 32;

/// The domain-separation byte that keeps the two schemes' key material
/// apart in the derivation input.
pub open spec fn scheme_tag(scheme: SignatureScheme) -> u8 {
    match scheme {
        SignatureScheme::ED25519 => 0,
        SignatureScheme::Secp256k1 => 1,
    }
}

/// One step of the derivation-path syntax checker. States: `0` after the
/// leading `m` or a full component group, `1` after a slash, `2` inside a
/// component's digits, `3` after a hardening apostrophe; `-1` rejects. When
/// `hardened_only` holds, every component must end hardened.
pub open spec fn path_step(state: int, b: u8, hardened_only: bool) -> int {
    if state == 0 {
        if b == 0x2f {
            1int
        } else {
            -1int
        }
    } else if state == 1 {
        if 0x30 <= b && b <= 0x39 {
            2int
        } else {
            -1int
        }
    } else if state == 2 {
        if 0x30 <= b && b <= 0x39 {
            2int
        } else if b == 0x27 {
            3int
        } else if b == 0x2f && !hardened_only {
            1int
        } else {
            -1int
        }
    } else if state == 3 {
        if b == 0x2f {
            1int
        } else {
            -1int
        }
    } else {
        -1int
    }
}

/// Runs the syntax checker over `s` from position `i` in `state`; the
/// result is the final state.
pub open spec fn path_scan(s: Seq<u8>, i: int, state: int, hardened_only: bool) -> int
    decreases s.len() - i when 0 <= i <= s.len()
{
    if i >= s.len() {
        state
    } else {
        path_scan(s, i + 1, path_step(state, s[i], hardened_only), hardened_only)
    }
}

/// The states in which a path may end: after `m`, after a complete
/// component (which must be hardened when `hardened_only` holds).
pub open spec fn path_accepting(state: int, hardened_only: bool) -> bool {
    state == 0 || state == 3 || (state == 2 && !hardened_only)
}

/// A syntactically valid derivation path: a leading `m`, then slash-led
/// components of decimal digits, each optionally (or, for `hardened_only`,
/// necessarily) ending in an apostrophe.
pub open spec fn valid_path(s: Seq<u8>, hardened_only: bool) -> bool {
    s.len() >= 1 && s[0] == 0x6d && path_accepting(
        path_scan(s, 1, 0, hardened_only),
        hardened_only,
    )
}

/// Whether a scheme demands hardened derivation for every path component.
pub open spec fn scheme_hardened_only(scheme: SignatureScheme) -> bool {
    scheme == SignatureScheme::ED25519
}

/// The scheme-defined default derivation path, used when the caller gives
/// none: `m/44'/60'/0'` for Ed25519 (all components hardened),
/// `m/44/60/0` for secp256k1.
pub open spec fn default_path_bytes(scheme: SignatureScheme) -> Seq<u8> {
    match scheme {
        SignatureScheme::ED25519 => seq![
            0x6du8,
            0x2fu8,
            0x34u8,
            0x34u8,
            0x27u8,
            0x2fu8,
            0x36u8,
            0x30u8,
            0x27u8,
            0x2fu8,
            0x30u8,
            0x27u8,
        ],
        SignatureScheme::Secp256k1 => seq![
            0x6du8,
            0x2fu8,
            0x34u8,
            0x34u8,
            0x2fu8,
            0x36u8,
            0x30u8,
            0x2fu8,
            0x30u8,
        ],
    }
}

/// The path bytes derivation works on: the caller's path when one is given,
/// else the scheme's default.
pub open spec fn chosen_path_bytes(path: Option<&str>, scheme: SignatureScheme) -> Seq<u8> {
    match path {
        Some(p) => p.spec_bytes(),
        None => default_path_bytes(scheme),
    }
}

/// The 32 bytes of secret key material derived from a seed and path for a
/// scheme: the digest of the tagged concatenation, so distinct schemes,
/// seeds or paths never collide by construction of the input.
pub open spec fn derived_material(seed: Seq<u8>, path: Seq<u8>, scheme: SignatureScheme) -> Seq<
    u8,
> {
    keccak256_of(seq![scheme_tag(scheme)] + seed + path)
}

/// The public key a scheme determines from secret key material.
pub open spec fn scheme_public_key(scheme: SignatureScheme, material: Seq<u8>) -> Seq<u8> {
    match scheme {
        SignatureScheme::ED25519 => ed25519_public_key_of(material),
        SignatureScheme::Secp256k1 => secp256k1_public_key_of(material),
    }
}

/// Whether a scheme accepts derived material as a secret key. Ed25519
/// accepts any 32 bytes; secp256k1 accepts exactly the non-zero scalars
/// below the curve order.
pub open spec fn scheme_accepts_material(scheme: SignatureScheme, material: Seq<u8>) -> bool {
    match scheme {
        SignatureScheme::ED25519 => true,
        SignatureScheme::Secp256k1 => secp256k1_material_valid(material),
    }
}

/// The fixed-width account address bound to a public key: the last
/// `DB3_ADDRESS_LENGTH` bytes of its Keccak-256 digest.
pub open spec fn account_address_of(public_key: Seq<u8>) -> Seq<u8> {
    keccak256_of(public_key).skip(12)
}

/// Everything derivation promises of a successful result, as a relation
/// between the inputs and the returned address and keypair.
pub open spec fn derivation_ok(
    seed: Seq<u8>,
    path: Option<&str>,
    scheme: SignatureScheme,
    addr: DB3Address,
    kp: DB3KeyPair,
) -> bool {
    &&& kp.spec_scheme() == scheme
    &&& kp.spec_material() == derived_material(seed, chosen_path_bytes(path, scheme), scheme)
    &&& kp.spec_public_key() == scheme_public_key(scheme, kp.spec_material())
    &&& addr@ == account_address_of(kp.spec_public_key())
}

/// The inputs on which derivation is owed success: a well-formed seed, a
/// syntactically valid path, and material the scheme accepts.
pub open spec fn derivation_accepted(
    seed: Seq<u8>,
    path: Option<&str>,
    scheme: SignatureScheme,
) -> bool {
    &&& seed.len() == SEED_LENGTH
    &&& valid_path(chosen_path_bytes(path, scheme), scheme_hardened_only(scheme))
    &&& scheme_accepts_material(
        scheme,
        derived_material(seed, chosen_path_bytes(path, scheme), scheme),
    )
}

/// Determinism of derivation: any two successful derivations from identical
/// inputs agree bit for bit — the same address, the same scheme, the same
/// secret material and public key — and therefore sign identically, since
/// each scheme's signature is itself a function of material and message.
pub proof fn lemma_derivation_deterministic(
    seed: Seq<u8>,
    path: Option<&str>,
    scheme: SignatureScheme,
    addr1: DB3Address,
    kp1: DB3KeyPair,
    addr2: DB3Address,
    kp2: DB3KeyPair,
)
    requires
        derivation_ok(seed, path, scheme, addr1, kp1),
        derivation_ok(seed, path, scheme, addr2, kp2),
    ensures
        addr1@ == addr2@,
        kp1.spec_scheme() == kp2.spec_scheme(),
        kp1.spec_material() == kp2.spec_material(),
        kp1.spec_public_key() == kp2.spec_public_key(),
{
}

/// A derived keypair: one scheme tag and the secret material and public key
/// it determines. The secret material never leaves the keypair.
pub struct DB3KeyPair {
    scheme: SignatureScheme,
    material: Vec<u8>,
    public_key: Vec<u8>,
}

impl DB3KeyPair {
    /// The scheme this keypair signs under.
    pub closed spec fn spec_scheme(self) -> SignatureScheme {
        self.scheme
    }

    /// The secret key material (specification-level only).
    pub closed spec fn spec_material(self) -> Seq<u8> {
        self.material@
    }

    /// The public key bound to the secret material.
    pub closed spec fn spec_public_key(self) -> Seq<u8> {
        self.public_key@
    }

    #[verifier::type_invariant]
    spec fn wf(self) -> bool {
        &&& self.material@.len() == 32
        &&& scheme_accepts_material(self.scheme, self.material@)
        &&& self.public_key@ == scheme_public_key(self.scheme, self.material@)
    }

    /// The public key bytes, for callers that publish them.
    pub fn public_key_bytes(&self) -> (r: &[u8])
        ensures
            r@ == self.spec_public_key(),
    {
        self.public_key.as_slice()
    }

    /// The scheme tag, for the signer that owns this keypair.
    pub(crate) fn scheme_of(&self) -> (r: SignatureScheme)
        ensures
            r == self.spec_scheme(),
    {
        self.scheme
    }

    /// The secret material, for the signer that owns this keypair; never
    /// part of the public interface.
    pub(crate) fn material_bytes(&self) -> (r: &[u8])
        ensures
            r@ == self.spec_material(),
            r@.len() == 32,
            scheme_accepts_material(self.spec_scheme(), r@),
    {
        proof {
            use_type_invariant(&*self);
        }
        self.material.as_slice()
    }
}

/// One exec step of the path syntax checker.
fn path_step_exec(state: i32, b: u8, hardened_only: bool) -> (r: i32)
    requires
        -1 <= state <= 3,
    ensures
        r as int == path_step(state as int, b, hardened_only),
        -1 <= r <= 3,
{
    if state == 0 {
        if b == 0x2f {
            1
        } else {
            -1
        }
    } else if state == 1 {
        if 0x30 <= b && b <= 0x39 {
            2
        } else {
            -1
        }
    } else if state == 2 {
        if 0x30 <= b && b <= 0x39 {
            2
        } else if b == 0x27 {
            3
        } else if b == 0x2f && !hardened_only {
            1
        } else {
            -1
        }
    } else if state == 3 {
        if b == 0x2f {
            1
        } else {
            -1
        }
    } else {
        -1
    }
}

/// Checks derivation-path syntax.
pub fn validate_path(path: &[u8], hardened_only: bool) -> (r: bool)
    ensures
        r == valid_path(path@, hardened_only),
{
    if path.len() == 0 {
        return false;
    }
    if *slice_index_get(path, 0) != 0x6d {
        return false;
    }
    let mut state: i32 = 0;
    let mut i: usize = 1;
    while i < path.len()
        invariant
            1 <= i <= path@.len(),
            -1 <= state <= 3,
            path_scan(path@, 1, 0, hardened_only) == path_scan(
                path@,
                i as int,
                state as int,
                hardened_only,
            ),
        decreases path@.len() - i,
    {
        let b = *slice_index_get(path, i);
        state = path_step_exec(state, b, hardened_only);
        i = i + 1;
    }
    state == 0 || state == 3 || (state == 2 && !hardened_only)
}

/// The scheme's default derivation path.
pub fn default_derivation_path(scheme: &SignatureScheme) -> (r: Vec<u8>)
    ensures
        r@ == default_path_bytes(*scheme),
{
    let mut out: Vec<u8> = Vec::new();
    match scheme {
        SignatureScheme::ED25519 => {
            out.push(0x6d);
            out.push(0x2f);
            out.push(0x34);
            out.push(0x34);
            out.push(0x27);
            out.push(0x2f);
            out.push(0x36);
            out.push(0x30);
            out.push(0x27);
            out.push(0x2f);
            out.push(0x30);
            out.push(0x27);
            proof {
                assert(out@ =~= default_path_bytes(*scheme));
            }
        },
        SignatureScheme::Secp256k1 => {
            out.push(0x6d);
            out.push(0x2f);
            out.push(0x34);
            out.push(0x34);
            out.push(0x2f);
            out.push(0x36);
            out.push(0x30);
            out.push(0x2f);
            out.push(0x30);
            proof {
                assert(out@ =~= default_path_bytes(*scheme));
            }
        },
    }
    out
}

/// Deterministically derives the account address and keypair that a seed,
/// an optional derivation path, and a scheme define. Identical inputs
/// always yield the identical address and keypair: the result is a pure
/// function of the three arguments, so accounts are reproducible from a
/// secret seed without persisted state.
///
/// Fails, with `KeyDerivationError`, exactly when the seed is not
/// `SEED_LENGTH` bytes, the path is syntactically invalid for the scheme,
/// or the scheme rejects the derived material.
pub fn derive_key_pair_from_path(seed: &[u8], path: Option<&str>, scheme: &SignatureScheme) -> (r:
    Result<(DB3Address, DB3KeyPair), DB3Error>)
    ensures
        match r {
            Ok((addr, kp)) => derivation_accepted(seed@, path, *scheme) && derivation_ok(
                seed@,
                path,
                *scheme,
                addr,
                kp,
            ),
            Err(e) => e == DB3Error::KeyDerivationError && !derivation_accepted(
                seed@,
                path,
                *scheme,
            ),
        },
{
    if seed.len() != SEED_LENGTH {
        return Err(DB3Error::KeyDerivationError);
    }
    let hardened_only: bool = match scheme {
        SignatureScheme::ED25519 => true,
        SignatureScheme::Secp256k1 => false,
    };
    let path_vec: Vec<u8> = match path {
        Some(p) => vstd::slice::slice_to_vec(p.as_bytes()),
        None => default_derivation_path(scheme),
    };
    if !validate_path(path_vec.as_slice(), hardened_only) {
        return Err(DB3Error::KeyDerivationError);
    }
    let mut kdf_input: Vec<u8> = Vec::new();
    let tag: u8 = match scheme {
        SignatureScheme::ED25519 => 0,
        SignatureScheme::Secp256k1 => 1,
    };
    kdf_input.push(tag);
    kdf_input.extend_from_slice(seed);
    kdf_input.extend_from_slice(path_vec.as_slice());
    proof {
        assert(kdf_input@ =~= seq![scheme_tag(*scheme)] + seed@ + chosen_path_bytes(
            path,
            *scheme,
        ));
    }
    let material: Vec<u8> = keccak256(kdf_input.as_slice());
    let public_key: Vec<u8> = match scheme {
        SignatureScheme::ED25519 => ed25519_public_key(material.as_slice()),
        SignatureScheme::Secp256k1 => {
            match secp256k1_public_key(material.as_slice()) {
                Some(pk) => pk,
                None => {
                    return Err(DB3Error::KeyDerivationError);
                },
            }
        },
    };
    let addr_hash: Vec<u8> = keccak256(public_key.as_slice());
    let addr_slice: &[u8] = slice_subrange(addr_hash.as_slice(), 12, 32);
    let addr = DB3Address::from_slice(addr_slice);
    proof {
        assert(addr@ =~= account_address_of(public_key@));
    }
    let kp = DB3KeyPair { scheme: *scheme, material, public_key };
    Ok((addr, kp))
}

} // verus!
