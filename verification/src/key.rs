use vstd::prelude::*;
use vstd::slice::slice_subrange;
use crate::db3_address::{DB3Address, DB3_ADDRESS_LENGTH};
use crate::errors::DB3Error;

verus! {

/// Longest user key accepted by the codec, in bytes.
pub const MAX_USE_KEY_LEN: usize = 512;

/// Longest namespace accepted by the codec, in bytes.
pub const MAX_NAMESPACE_LEN: usize = 16;

/// Width of the fixed sentinel that separates the address from the
/// namespace in an encoded key.
pub const NAMESPACE_SENTINEL_LEN: usize = 4;

/// Shortest length an encoded key may exceed: address plus sentinel.
pub const MIN_KEY_TOTAL_LEN: usize = DB3_ADDRESS_LENGTH + NAMESPACE_SENTINEL_LEN;

/// The fixed 4-byte sentinel `"_NS_"` that follows the address in every
/// encoded key.
pub open spec fn sentinel_bytes() -> Seq<u8> {
    seq![0x5fu8, 0x4eu8, 0x53u8, 0x5fu8]
}

/// The single on-wire layout of a storage key:
/// `address ∥ "_NS_" ∥ namespace ∥ user_key`. No length prefixes are
/// embedded; boundaries are positional.
pub open spec fn encoded_key(addr: Seq<u8>, ns: Seq<u8>, user_key: Seq<u8>) -> Seq<u8> {
    addr + sentinel_bytes() + ns + user_key
}

/// Strict byte-lexicographic order on byte strings: a proper prefix comes
/// before any extension of it.
pub open spec fn lex_less(a: Seq<u8>, b: Seq<u8>) -> bool
    decreases a.len(),
{
    if b.len() == 0 {
        false
    } else if a.len() == 0 {
        true
    } else if a[0] < b[0] {
        true
    } else if a[0] > b[0] {
        false
    } else {
        lex_less(a.skip(1), b.skip(1))
    }
}

/// A storage key as the logical triple
/// `(account address, namespace, user key)`.
pub struct Key<'a>(pub DB3Address, pub &'a [u8], pub &'a [u8]);

impl<'a> Key<'a> {
    /// Encodes the key into its single byte-string form.
    ///
    /// Succeeds exactly when the namespace and user key are within their
    /// bounds; the error carries the violating length.
    pub fn encode(&self) -> (r: Result<Vec<u8>, DB3Error>)
        ensures
            match r {
                Ok(v) => self.1@.len() <= MAX_NAMESPACE_LEN && self.2@.len() <= MAX_USE_KEY_LEN
                    && v@ == encoded_key(self.0@, self.1@, self.2@),
                Err(e) => (self.1@.len() > MAX_NAMESPACE_LEN || self.2@.len() > MAX_USE_KEY_LEN)
                    && e == (DB3Error::KeyCodecError {
                    length: if self.1@.len() > MAX_NAMESPACE_LEN {
                        self.1@.len() as usize
                    } else {
                        self.2@.len() as usize
                    },
                }),
            },
    {
        if self.1.len() > MAX_NAMESPACE_LEN {
            return Err(DB3Error::KeyCodecError { length: self.1.len() });
        }
        if self.2.len() > MAX_USE_KEY_LEN {
            return Err(DB3Error::KeyCodecError { length: self.2.len() });
        }
        let mut encoded: Vec<u8> = Vec::new();
        encoded.extend_from_slice(self.0.as_bytes());
        encoded.push(0x5f);
        encoded.push(0x4e);
        encoded.push(0x53);
        encoded.push(0x5f);
        encoded.extend_from_slice(self.1);
        encoded.extend_from_slice(self.2);
        proof {
            assert(encoded@ =~= encoded_key(self.0@, self.1@, self.2@));
        }
        Ok(encoded)
    }

    /// Decodes an encoded key, trusting the caller's namespace.
    ///
    /// The caller must supply the namespace used at encode time: the encoded
    /// form does not self-describe the namespace boundary, so the user key is
    /// read positionally from `MIN_KEY_TOTAL_LEN + ns.len()` onward, and a
    /// wrong namespace yields a wrong (but non-crashing) decode. Only the
    /// length precondition is checked; the sentinel and namespace bytes are
    /// deliberately not validated on this hot path.
    pub fn decode(data: &'a [u8], ns: &'a [u8]) -> (r: Result<Key<'a>, DB3Error>)
        requires
            data@.len() > MIN_KEY_TOTAL_LEN ==> data@.len() >= MIN_KEY_TOTAL_LEN + ns@.len(),
        ensures
            match r {
                Ok(k) => data@.len() > MIN_KEY_TOTAL_LEN
                    && k.0@ == data@.subrange(0, DB3_ADDRESS_LENGTH as int)
                    && k.1@ == ns@
                    && k.2@ == data@.subrange(
                    MIN_KEY_TOTAL_LEN + ns@.len(),
                    data@.len() as int,
                ),
                Err(e) => data@.len() <= MIN_KEY_TOTAL_LEN && e == (DB3Error::KeyCodecError {
                    length: data@.len() as usize,
                }),
            },
    {
        if data.len() <= MIN_KEY_TOTAL_LEN {
            return Err(DB3Error::KeyCodecError { length: data.len() });
        }
        let key_start_offset: usize = MIN_KEY_TOTAL_LEN + ns.len();
        let addr_slice: &[u8] = slice_subrange(data, 0, DB3_ADDRESS_LENGTH);
        let addr = DB3Address::from_slice(addr_slice);
        let user_key: &[u8] = slice_subrange(data, key_start_offset, data.len());
        Ok(Key(addr, ns, user_key))
    }
}

/// Round trip: decoding an encoded key with the namespace used at encode
/// time recovers the address, the namespace, and the user key. The encoded
/// form of any triple within bounds is long enough for `decode` to accept,
/// provided the namespace and user key are not both empty (an encoded key
/// of two empty parts is exactly `MIN_KEY_TOTAL_LEN` bytes, which `decode`
/// rejects).
pub proof fn lemma_key_round_trip(addr: Seq<u8>, ns: Seq<u8>, user_key: Seq<u8>)
    requires
        addr.len() == DB3_ADDRESS_LENGTH,
        ns.len() <= MAX_NAMESPACE_LEN,
        user_key.len() <= MAX_USE_KEY_LEN,
        ns.len() + user_key.len() > 0,
    ensures
        encoded_key(addr, ns, user_key).len() == MIN_KEY_TOTAL_LEN + ns.len() + user_key.len(),
        encoded_key(addr, ns, user_key).len() > MIN_KEY_TOTAL_LEN,
        encoded_key(addr, ns, user_key).subrange(0, DB3_ADDRESS_LENGTH as int) == addr,
        encoded_key(addr, ns, user_key).subrange(
            MIN_KEY_TOTAL_LEN + ns.len(),
            encoded_key(addr, ns, user_key).len() as int,
        ) == user_key,
        encoded_key(addr, ns, user_key).subrange(
            DB3_ADDRESS_LENGTH as int,
            MIN_KEY_TOTAL_LEN as int,
        ) == sentinel_bytes(),
        encoded_key(addr, ns, user_key).subrange(
            MIN_KEY_TOTAL_LEN as int,
            MIN_KEY_TOTAL_LEN + ns.len(),
        ) == ns,
{
    let e = encoded_key(addr, ns, user_key);
    assert(e.subrange(0, DB3_ADDRESS_LENGTH as int) =~= addr);
    assert(e.subrange(MIN_KEY_TOTAL_LEN + ns.len(), e.len() as int) =~= user_key);
    assert(e.subrange(DB3_ADDRESS_LENGTH as int, MIN_KEY_TOTAL_LEN as int) =~= sentinel_bytes());
    assert(e.subrange(MIN_KEY_TOTAL_LEN as int, MIN_KEY_TOTAL_LEN + ns.len()) =~= ns);
}

/// Prepending one common prefix to two byte strings neither creates nor
/// destroys their lexicographic order.
pub proof fn lemma_lex_less_common_prefix(p: Seq<u8>, a: Seq<u8>, b: Seq<u8>)
    ensures
        lex_less(p + a, p + b) == lex_less(a, b),
    decreases p.len(),
{
    if p.len() == 0 {
        assert(p + a =~= a);
        assert(p + b =~= b);
    } else {
        assert((p + a).len() > 0);
        assert((p + b).len() > 0);
        assert((p + a)[0] == p[0]);
        assert((p + b)[0] == p[0]);
        assert((p + a).skip(1) =~= p.skip(1) + a);
        assert((p + b).skip(1) =~= p.skip(1) + b);
        lemma_lex_less_common_prefix(p.skip(1), a, b);
    }
}

/// Order preservation, the codec's load-bearing property for range scans:
/// for a fixed address and namespace, encoded keys compare in the same
/// byte-lexicographic order as their user keys.
pub proof fn lemma_encode_preserves_order(addr: Seq<u8>, ns: Seq<u8>, k1: Seq<u8>, k2: Seq<u8>)
    ensures
        lex_less(encoded_key(addr, ns, k1), encoded_key(addr, ns, k2)) == lex_less(k1, k2),
{
    let p = addr + sentinel_bytes() + ns;
    assert(encoded_key(addr, ns, k1) =~= p + k1);
    assert(encoded_key(addr, ns, k2) =~= p + k2);
    lemma_lex_less_common_prefix(p, k1, k2);
}

/// Decides the strict byte-lexicographic order on two byte strings.
pub fn bytes_lex_less(a: &[u8], b: &[u8]) -> (r: bool)
    ensures
        r == lex_less(a@, b@),
{
    let mut i: usize = 0;
    proof {
        assert(a@.skip(0) =~= a@);
        assert(b@.skip(0) =~= b@);
    }
    loop
        invariant
            i <= a@.len(),
            i <= b@.len(),
            lex_less(a@, b@) == lex_less(a@.skip(i as int), b@.skip(i as int)),
        decreases a@.len() - i,
    {
        if i >= b.len() {
            return false;
        }
        if i >= a.len() {
            return true;
        }
        let x = *vstd::slice::slice_index_get(a, i);
        let y = *vstd::slice::slice_index_get(b, i);
        proof {
            assert(a@.skip(i as int)[0] == a@[i as int]);
            assert(b@.skip(i as int)[0] == b@[i as int]);
        }
        if x < y {
            return true;
        }
        if x > y {
            return false;
        }
        proof {
            assert(a@.skip(i as int).skip(1) =~= a@.skip(i + 1));
            assert(b@.skip(i as int).skip(1) =~= b@.skip(i + 1));
        }
        i = i + 1;
    }
}

} // verus!
