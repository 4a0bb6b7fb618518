use vstd::prelude::*;
use crate::db3_address::DB3Address;
use crate::session_manager::QuerySessionInfo;

verus! {

/// Base-128 varint encoding, least-significant group first, the continuation
/// bit set on every byte but the last. This is the integer encoding of the
/// protocol's canonical message form.
pub open spec fn varint(n: nat) -> Seq<u8>
    decreases n,
{
    if n < 128 {
        seq![n as u8]
    } else {
        seq![(128 + (n % 128)) as u8] + varint(n / 128)
    }
}

/// A varint-typed field: one tag byte, then the varint of the value.
pub open spec fn uint_field(tag: u8, value: nat) -> Seq<u8> {
    seq![tag] + varint(value)
}

/// A length-delimited field: one tag byte, the varint of the payload length,
/// then the payload bytes.
pub open spec fn bytes_field(tag: u8, payload: Seq<u8>) -> Seq<u8> {
    seq![tag] + varint(payload.len()) + payload
}

/// The 64-bit two's-complement value that carries a signed 32-bit integer on
/// the wire: non-negative values stand for themselves, negative ones are
/// offset by 2^64.
pub open spec fn wire_u64_of_i32(v: i32) -> nat {
    if v >= 0 {
        v as nat
    } else {
        (v + 0x1_0000_0000_0000_0000) as nat
    }
}

/// Canonical bytes of a session snapshot, the payload signed when requesting
/// a session restart: field 1 the session id, field 2 the query count.
pub open spec fn session_info_bytes(id: i32, query_count: u64) -> Seq<u8> {
    uint_field(0x08, wire_u64_of_i32(id)) + uint_field(0x10, query_count as nat)
}

/// The repeated key fields of a batch-get descriptor, one length-delimited
/// field per key, in order.
pub open spec fn key_fields(keys: Seq<Seq<u8>>) -> Seq<u8>
    decreases keys.len(),
{
    if keys.len() == 0 {
        Seq::empty()
    } else {
        bytes_field(0x12, keys[0]) + key_fields(keys.skip(1))
    }
}

/// Canonical bytes of a batch-get descriptor, the payload signed for a
/// batch key lookup: field 1 the namespace, field 2 the keys in order,
/// field 3 the session number.
pub open spec fn batch_get_key_bytes(ns: Seq<u8>, keys: Seq<Seq<u8>>, session: i32) -> Seq<u8> {
    bytes_field(0x0a, ns) + key_fields(keys) + uint_field(0x18, wire_u64_of_i32(session))
}

/// The ASCII byte of one hexadecimal digit, lower case.
pub open spec fn hex_digit(n: nat) -> u8 {
    if n < 10 {
        (0x30 + n) as u8
    } else {
        (0x57 + n) as u8
    }
}

/// Lower-case hexadecimal text of a byte string, two digits per byte.
pub open spec fn hex_bytes(data: Seq<u8>) -> Seq<u8>
    decreases data.len(),
{
    if data.len() == 0 {
        Seq::empty()
    } else {
        seq![hex_digit(data[0] as nat / 16), hex_digit(data[0] as nat % 16)] + hex_bytes(
            data.skip(1),
        )
    }
}

/// The canonical text form of an account address: `0x` followed by the
/// lower-case hexadecimal digits of its bytes.
pub open spec fn address_text(addr: Seq<u8>) -> Seq<u8> {
    seq![0x30u8, 0x78u8] + hex_bytes(addr)
}

/// Appends the varint encoding of `value`.
pub fn encode_varint(value: u64, out: &mut Vec<u8>)
    ensures
        final(out)@ == old(out)@ + varint(value as nat),
{
    let ghost orig: Seq<u8> = out@;
    let mut n: u64 = value;
    while n >= 128
        invariant
            out@ + varint(n as nat) == orig + varint(value as nat),
        decreases n,
    {
        let b: u8 = (n % 128) as u8 + 128;
        proof {
            assert(varint(n as nat) == seq![b] + varint(n as nat / 128));
            assert((out@ + seq![b]) + varint(n as nat / 128) =~= out@ + (seq![b] + varint(
                n as nat / 128,
            )));
        }
        out.push(b);
        n = n / 128;
    }
    proof {
        assert(varint(n as nat) == seq![n as u8]);
    }
    out.push(n as u8);
    proof {
        assert(out@ =~= orig + varint(value as nat));
    }
}

/// Appends a length-delimited field: the tag, the payload length, and the
/// payload bytes.
pub fn encode_bytes_field(tag: u8, payload: &[u8], out: &mut Vec<u8>)
    ensures
        final(out)@ == old(out)@ + bytes_field(tag, payload@),
{
    let ghost orig: Seq<u8> = out@;
    out.push(tag);
    encode_varint(payload.len() as u64, out);
    out.extend_from_slice(payload);
    proof {
        assert(out@ =~= orig + bytes_field(tag, payload@));
    }
}

/// The wire value of a signed 32-bit integer.
pub fn wire_u64(v: i32) -> (r: u64)
    ensures
        r as nat == wire_u64_of_i32(v),
{
    if v >= 0 {
        v as u64
    } else {
        let neg: u64 = (-(v as i64)) as u64;
        (u64::MAX - neg) + 1
    }
}

/// Appends a varint-typed field: the tag and the wire value of `v`.
pub fn encode_i32_field(tag: u8, v: i32, out: &mut Vec<u8>)
    ensures
        final(out)@ == old(out)@ + uint_field(tag, wire_u64_of_i32(v)),
{
    let ghost orig: Seq<u8> = out@;
    out.push(tag);
    let w = wire_u64(v);
    encode_varint(w, out);
    proof {
        assert(out@ =~= orig + uint_field(tag, wire_u64_of_i32(v)));
    }
}

/// Encodes a session snapshot into its canonical byte form.
pub fn encode_session_info(info: &QuerySessionInfo) -> (r: Vec<u8>)
    ensures
        r@ == session_info_bytes(info.id, info.query_count),
{
    let mut out: Vec<u8> = Vec::new();
    encode_i32_field(0x08, info.id, &mut out);
    out.push(0x10);
    encode_varint(info.query_count, &mut out);
    proof {
        assert(out@ =~= session_info_bytes(info.id, info.query_count));
    }
    out
}

/// One appended key field extends the repeated-field bytes at the end.
proof fn lemma_key_fields_push(keys: Seq<Seq<u8>>, k: Seq<u8>)
    ensures
        key_fields(keys.push(k)) == key_fields(keys) + bytes_field(0x12, k),
    decreases keys.len(),
{
    if keys.len() == 0 {
        assert(keys.push(k)[0] == k);
        assert(keys.push(k).skip(1) =~= Seq::<Seq<u8>>::empty());
        assert(key_fields(Seq::<Seq<u8>>::empty()) == Seq::<u8>::empty());
        assert(keys =~= Seq::<Seq<u8>>::empty());
        assert(key_fields(keys.push(k)) == bytes_field(0x12, k) + key_fields(
            Seq::<Seq<u8>>::empty(),
        ));
        assert(key_fields(keys.push(k)) =~= key_fields(keys) + bytes_field(0x12, k));
    } else {
        assert(keys.push(k)[0] == keys[0]);
        assert(keys.push(k).skip(1) =~= keys.skip(1).push(k));
        lemma_key_fields_push(keys.skip(1), k);
        assert(key_fields(keys.push(k)) == bytes_field(0x12, keys[0]) + key_fields(
            keys.skip(1).push(k),
        ));
        assert(key_fields(keys) == bytes_field(0x12, keys[0]) + key_fields(keys.skip(1)));
        assert(key_fields(keys.push(k)) =~= key_fields(keys) + bytes_field(0x12, k));
    }
}

/// Encodes a batch-get descriptor into its canonical byte form.
pub fn encode_batch_get_key(ns: &[u8], keys: &Vec<Vec<u8>>, session: i32) -> (r: Vec<u8>)
    ensures
        r@ == batch_get_key_bytes(ns@, keys.deep_view(), session),
{
    let mut out: Vec<u8> = Vec::new();
    encode_bytes_field(0x0a, ns, &mut out);
    let ghost head: Seq<u8> = out@;
    let mut i: usize = 0;
    proof {
        assert(keys.deep_view().take(0) =~= Seq::<Seq<u8>>::empty());
    }
    while i < keys.len()
        invariant
            i <= keys.len(),
            keys.deep_view().len() == keys@.len(),
            forall|j: int| 0 <= j < keys@.len() ==> keys.deep_view()[j] == keys@[j]@,
            out@ == head + key_fields(keys.deep_view().take(i as int)),
        decreases keys.len() - i,
    {
        let ghost before: Seq<Seq<u8>> = keys.deep_view().take(i as int);
        encode_bytes_field(0x12, keys[i].as_slice(), &mut out);
        proof {
            lemma_key_fields_push(before, keys.deep_view()[i as int]);
            assert(before.push(keys.deep_view()[i as int]) =~= keys.deep_view().take(i + 1));
        }
        i = i + 1;
    }
    proof {
        assert(keys.deep_view().take(keys@.len() as int) =~= keys.deep_view());
    }
    encode_i32_field(0x18, session, &mut out);
    proof {
        assert(out@ =~= batch_get_key_bytes(ns@, keys.deep_view(), session));
    }
    out
}

/// The hexadecimal digits of one more byte extend the text at the end.
proof fn lemma_hex_bytes_push(data: Seq<u8>, b: u8)
    ensures
        hex_bytes(data.push(b)) == hex_bytes(data) + seq![
            hex_digit(b as nat / 16),
            hex_digit(b as nat % 16),
        ],
    decreases data.len(),
{
    if data.len() == 0 {
        assert(data.push(b)[0] == b);
        assert(data.push(b).skip(1) =~= Seq::<u8>::empty());
        assert(hex_bytes(Seq::<u8>::empty()) == Seq::<u8>::empty());
        assert(data =~= Seq::<u8>::empty());
        assert(hex_bytes(data.push(b)) == seq![
            hex_digit(b as nat / 16),
            hex_digit(b as nat % 16),
        ] + hex_bytes(Seq::<u8>::empty()));
        assert(hex_bytes(data.push(b)) =~= hex_bytes(data) + seq![
            hex_digit(b as nat / 16),
            hex_digit(b as nat % 16),
        ]);
    } else {
        assert(data.push(b)[0] == data[0]);
        assert(data.push(b).skip(1) =~= data.skip(1).push(b));
        lemma_hex_bytes_push(data.skip(1), b);
        assert(hex_bytes(data.push(b)) == seq![
            hex_digit(data[0] as nat / 16),
            hex_digit(data[0] as nat % 16),
        ] + hex_bytes(data.skip(1).push(b)));
        assert(hex_bytes(data) == seq![
            hex_digit(data[0] as nat / 16),
            hex_digit(data[0] as nat % 16),
        ] + hex_bytes(data.skip(1)));
        assert(hex_bytes(data.push(b)) =~= hex_bytes(data) + seq![
            hex_digit(b as nat / 16),
            hex_digit(b as nat % 16),
        ]);
    }
}

/// The ASCII byte of one hexadecimal digit, lower case.
pub fn hex_digit_byte(n: u8) -> (r: u8)
    requires
        n < 16,
    ensures
        r == hex_digit(n as nat),
{
    if n < 10 {
        0x30 + n
    } else {
        0x57 + n
    }
}

/// Renders an account address as its canonical `0x`-prefixed lower-case
/// hexadecimal text, as ASCII bytes.
pub fn address_to_text(addr: &DB3Address) -> (r: Vec<u8>)
    ensures
        r@ == address_text(addr@),
{
    let bytes: &[u8] = addr.as_bytes();
    let mut out: Vec<u8> = Vec::new();
    out.push(0x30);
    out.push(0x78);
    let ghost head: Seq<u8> = out@;
    let mut i: usize = 0;
    proof {
        assert(hex_bytes(bytes@.take(0)) =~= Seq::<u8>::empty());
        assert(out@ =~= head + hex_bytes(bytes@.take(0)));
    }
    while i < bytes.len()
        invariant
            i <= bytes@.len(),
            out@ == head + hex_bytes(bytes@.take(i as int)),
        decreases bytes@.len() - i,
    {
        let b = *vstd::slice::slice_index_get(bytes, i);
        out.push(hex_digit_byte(b / 16));
        out.push(hex_digit_byte(b % 16));
        proof {
            lemma_hex_bytes_push(bytes@.take(i as int), b);
            assert(bytes@.take(i as int).push(b) =~= bytes@.take(i + 1));
            assert(out@ =~= head + hex_bytes(bytes@.take(i + 1)));
        }
        i = i + 1;
    }
    proof {
        assert(bytes@.take(bytes@.len() as int) =~= bytes@);
        assert(out@ =~= address_text(addr@));
    }
    out
}

} // verus!
