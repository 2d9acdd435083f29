//! Bit-level codec between a 122-bit payload and the 128-bit identifier value.
//!
//! The identifier value is the 128-bit integer whose big-endian bytes are the
//! identifier's byte representation; bit 127 is the most significant bit of
//! byte 0. Six bit positions are reserved: bits 79..=76 hold the fixed
//! version marker `1000` and bits 63..=62 hold the fixed variant marker `10`.
//! The remaining 122 positions carry the payload, most significant payload
//! bit in the most significant free position: the 48-bit timestamp lands in
//! bits 127..=80, the next 12 payload bits in 75..=64, and the low 62 payload
//! bits in 61..=0.

use vstd::prelude::*;

verus! {

pub const TIMESTAMP_BITS: u32 = 48;
pub const TYPE_BITS: u32 = 16;
pub const RANDOM_BITS: u32 = 58;

/// Largest timestamp that fits its 48-bit field.
pub const TIMESTAMP_MAX: u64 = 0xFFFF_FFFF_FFFF;
/// Largest type id; every 16-bit value fits its field.
pub const TYPE_ID_MAX: u16 = 0xFFFF;
/// Mask keeping the low 58 bits of the randomness field.
pub const RANDOM_MASK: u64 = 0x03FF_FFFF_FFFF_FFFF;
/// Largest payload: 48 + 16 + 58 = 122 bits, all set.
pub const PAYLOAD_MAX: u128 = 0x03FF_FFFF_FFFF_FFFF_FFFF_FFFF_FFFF_FFFF;

/// The payload integer for the given fields: timestamp in the high 48 bits,
/// type id in the next 16, randomness (masked to 58 bits) in the low 58.
pub open spec fn payload_of(timestamp_ms: u64, type_id: u16, randomness: u64) -> u128 {
    ((timestamp_ms as u128) << 74) | ((type_id as u128) << 58)
        | ((randomness & RANDOM_MASK) as u128)
}

/// Timestamp field of a payload.
pub open spec fn payload_timestamp(p: u128) -> u64 {
    ((p >> 74) & 0xFFFF_FFFF_FFFFu128) as u64
}

/// Type-id field of a payload.
pub open spec fn payload_type_id(p: u128) -> u16 {
    ((p >> 58) & 0xFFFFu128) as u16
}

/// Randomness field of a payload.
pub open spec fn payload_randomness(p: u128) -> u64 {
    (p & 0x03FF_FFFF_FFFF_FFFFu128) as u64
}

/// The 128-bit identifier value holding payload `p`: payload bits distributed
/// over the non-reserved positions in order, marker bits at their fixed
/// positions.
pub open spec fn spec_encode(p: u128) -> u128 {
    (((p >> 74) & 0xFFFF_FFFF_FFFFu128) << 80) | (0x8u128 << 76)
        | (((p >> 62) & 0xFFFu128) << 64) | (0x2u128 << 62) | (p & 0x3FFF_FFFF_FFFF_FFFFu128)
}

/// The six reserved positions read `1000` (version) and `10` (variant).
pub open spec fn spec_valid(v: u128) -> bool {
    ((v >> 76) & 0xFu128) == 8 && ((v >> 62) & 0x3u128) == 2
}

/// The payload read back from an identifier value (meaningful when
/// `spec_valid(v)` holds).
pub open spec fn spec_decode(v: u128) -> u128 {
    ((v >> 80) << 74) | (((v >> 64) & 0xFFFu128) << 62) | (v & 0x3FFF_FFFF_FFFF_FFFFu128)
}

/// Every encoded value carries the fixed version and variant markers.
pub proof fn lemma_encode_valid(p: u128)
    by (bit_vector)
    ensures
        spec_valid(spec_encode(p)),
{
}

/// Decoding inverts encoding on every payload that fits 122 bits.
pub proof fn lemma_decode_encode(p: u128)
    by (bit_vector)
    requires
        p <= PAYLOAD_MAX,
    ensures
        spec_decode(spec_encode(p)) == p,
{
}

/// Encoding inverts decoding on every value that carries the markers: a
/// structurally valid value is exactly the encoding of its own payload.
pub proof fn lemma_encode_decode(v: u128)
    by (bit_vector)
    requires
        spec_valid(v),
    ensures
        spec_encode(spec_decode(v)) == v,
{
}

/// A decoded payload fits 122 bits, and each of its fields fits its width.
pub proof fn lemma_decode_bounded(v: u128)
    by (bit_vector)
    ensures
        spec_decode(v) <= PAYLOAD_MAX,
        payload_timestamp(spec_decode(v)) <= TIMESTAMP_MAX,
        payload_randomness(spec_decode(v)) <= RANDOM_MASK,
{
}

/// A payload is exactly the packing of its own three fields.
pub proof fn lemma_payload_reassemble(p: u128)
    by (bit_vector)
    requires
        p <= PAYLOAD_MAX,
    ensures
        payload_of(payload_timestamp(p), payload_type_id(p), payload_randomness(p)) == p,
{
}

/// Encoding is strictly monotonic: the marker bits, identical on both sides,
/// never disturb the order of the payload bits.
pub proof fn lemma_encode_monotonic(p1: u128, p2: u128)
    by (bit_vector)
    requires
        p1 <= PAYLOAD_MAX,
        p2 <= PAYLOAD_MAX,
        p1 < p2,
    ensures
        spec_encode(p1) < spec_encode(p2),
{
}

/// The three fields come back from a packed payload exactly, the randomness
/// masked to its 58 bits.
pub proof fn lemma_payload_fields(ts: u64, tid: u16, rnd: u64)
    by (bit_vector)
    requires
        ts <= TIMESTAMP_MAX,
    ensures
        payload_of(ts, tid, rnd) <= PAYLOAD_MAX,
        payload_timestamp(payload_of(ts, tid, rnd)) == ts,
        payload_type_id(payload_of(ts, tid, rnd)) == tid,
        payload_randomness(payload_of(ts, tid, rnd)) == rnd & RANDOM_MASK,
{
}

/// Payloads order lexicographically by (timestamp, type id, randomness).
pub proof fn lemma_payload_order(ts1: u64, tid1: u16, rnd1: u64, ts2: u64, tid2: u16, rnd2: u64)
    by (bit_vector)
    requires
        ts1 <= TIMESTAMP_MAX,
        ts2 <= TIMESTAMP_MAX,
        ts1 < ts2 || (ts1 == ts2 && tid1 < tid2) || (ts1 == ts2 && tid1 == tid2 && (rnd1
            & RANDOM_MASK) < (rnd2 & RANDOM_MASK)),
    ensures
        payload_of(ts1, tid1, rnd1) < payload_of(ts2, tid2, rnd2),
{
}

/// Identifier values sort like their field triples: a smaller timestamp sorts
/// first; for equal timestamps a smaller type id sorts first; for equal
/// timestamps and type ids smaller (masked) randomness sorts first. Since the
/// value's bytes are its big-endian representation, this is byte-lexicographic
/// order.
pub proof fn lemma_value_order(ts1: u64, tid1: u16, rnd1: u64, ts2: u64, tid2: u16, rnd2: u64)
    requires
        ts1 <= TIMESTAMP_MAX,
        ts2 <= TIMESTAMP_MAX,
        ts1 < ts2 || (ts1 == ts2 && tid1 < tid2) || (ts1 == ts2 && tid1 == tid2 && (rnd1
            & RANDOM_MASK) < (rnd2 & RANDOM_MASK)),
    ensures
        spec_encode(payload_of(ts1, tid1, rnd1)) < spec_encode(payload_of(ts2, tid2, rnd2)),
{
    lemma_payload_order(ts1, tid1, rnd1, ts2, tid2, rnd2);
    lemma_payload_fields(ts1, tid1, rnd1);
    lemma_payload_fields(ts2, tid2, rnd2);
    lemma_encode_monotonic(payload_of(ts1, tid1, rnd1), payload_of(ts2, tid2, rnd2));
}

/// Distributes the payload bits of `payload` over the non-reserved bit
/// positions and writes the fixed version and variant markers.
pub fn encode_payload_to_uuid(payload: u128) -> (v: u128)
    requires
        payload <= PAYLOAD_MAX,
    ensures
        v == spec_encode(payload),
        spec_valid(v),
        spec_decode(v) == payload,
{
    proof {
        lemma_encode_valid(payload);
        lemma_decode_encode(payload);
    }
    (((payload >> 74) & 0xFFFF_FFFF_FFFFu128) << 80) | (0x8u128 << 76) | (((payload >> 62)
        & 0xFFFu128) << 64) | (0x2u128 << 62) | (payload & 0x3FFF_FFFF_FFFF_FFFFu128)
}

/// Checks the six reserved positions and, when they carry the fixed markers,
/// reassembles the 122-bit payload from the remaining positions.
pub fn decode_payload_from_uuid(value: u128) -> (r: Option<u128>)
    ensures
        spec_valid(value) ==> r == Some(spec_decode(value)),
        !spec_valid(value) ==> r is None,
        r matches Some(p) ==> p == spec_decode(value) && p <= PAYLOAD_MAX,
{
    if ((value >> 76) & 0xFu128) == 8 && ((value >> 62) & 0x3u128) == 2 {
        let p: u128 = ((value >> 80) << 74) | (((value >> 64) & 0xFFFu128) << 62) | (value
            & 0x3FFF_FFFF_FFFF_FFFFu128);
        proof {
            assert(((value >> 80) << 74) | (((value >> 64) & 0xFFFu128) << 62) | (value
                & 0x3FFF_FFFF_FFFF_FFFFu128) <= PAYLOAD_MAX) by (bit_vector);
        }
        Some(p)
    } else {
        None
    }
}

/// Byte `i` (0 = most significant) of the big-endian representation of `v`.
pub open spec fn be_byte(v: u128, i: int) -> u8 {
    ((v >> (((15 - i) * 8) as u128)) & 0xFFu128) as u8
}

/// The 16 big-endian bytes of `v`.
pub open spec fn be_bytes_of(v: u128) -> Seq<u8> {
    Seq::new(16, |i: int| be_byte(v, i))
}

/// Bit `pos` of a 16-byte big-endian representation, with bit 127 the most
/// significant bit of byte 0 and bit 0 the least significant bit of byte 15.
pub open spec fn spec_bit_of(bytes: Seq<u8>, pos: int) -> u8 {
    (bytes[15 - pos / 8] >> ((pos % 8) as u8)) & 1
}

/// Bit `pos` of the byte view is bit `pos` of the value.
pub proof fn lemma_bit_of_be_bytes(v: u128, pos: u32)
    requires
        pos < 128,
    ensures
        spec_bit_of(be_bytes_of(v), pos as int) == ((v >> (pos as u128)) & 1) as u8,
{
    let i: int = 15 - pos as int / 8;
    assert(0 <= i < 16);
    assert(be_bytes_of(v)[i] == be_byte(v, i));
    assert(15 - i == pos as int / 8);
    assert(pos as int / 8 == (pos / 8) as int);
    assert(be_byte(v, i) == ((v >> (((pos / 8) * 8) as u128)) & 0xFFu128) as u8);
    assert((((v >> (((pos / 8) * 8) as u128)) & 0xFFu128) as u8 >> ((pos % 8) as u8)) & 1 == ((v
        >> (pos as u128)) & 1) as u8) by (bit_vector)
        requires
            pos < 128,
    ;
}

/// The validity check reads exactly the marker bytes: the version nibble is
/// the high half of byte 6, the variant bits are the top two bits of byte 8.
pub proof fn lemma_valid_markers(v: u128)
    by (bit_vector)
    ensures
        spec_valid(v) <==> ((be_byte(v, 6) >> 4) == 8 && (be_byte(v, 8) & 0xC0) == 0x80),
{
}


/// The big-endian bytes of `v1` and `v2` agree before position `k` and
/// differ downward at `k`: the byte-lexicographic "less" witness.
pub open spec fn byte_lex_lt_at(v1: u128, v2: u128, k: int) -> bool {
    &&& 0 <= k < 16
    &&& forall|j: int| 0 <= j < k ==> be_byte(v1, j) == be_byte(v2, j)
    &&& be_byte(v1, k) < be_byte(v2, k)
}

/// A smaller value is byte-lexicographically smaller: the big-endian byte
/// sequences first differ at some position, and there the smaller value's
/// byte is the smaller one.
pub proof fn lemma_lt_byte_lex(v1: u128, v2: u128)
    requires
        v1 < v2,
    ensures
        exists|k: int| byte_lex_lt_at(v1, v2, k),
{
    assert(((((v1 >> 120) & 0xFFu128) as u8) < (((v2 >> 120) & 0xFFu128) as u8))
        || ((((v1 >> 120) & 0xFFu128) as u8) == (((v2 >> 120) & 0xFFu128) as u8) && (((v1 >> 112) & 0xFFu128) as u8) < (((v2 >> 112) & 0xFFu128) as u8))
        || ((((v1 >> 120) & 0xFFu128) as u8) == (((v2 >> 120) & 0xFFu128) as u8) && (((v1 >> 112) & 0xFFu128) as u8) == (((v2 >> 112) & 0xFFu128) as u8) && (((v1 >> 104) & 0xFFu128) as u8) < (((v2 >> 104) & 0xFFu128) as u8))
        || ((((v1 >> 120) & 0xFFu128) as u8) == (((v2 >> 120) & 0xFFu128) as u8) && (((v1 >> 112) & 0xFFu128) as u8) == (((v2 >> 112) & 0xFFu128) as u8) && (((v1 >> 104) & 0xFFu128) as u8) == (((v2 >> 104) & 0xFFu128) as u8) && (((v1 >> 96) & 0xFFu128) as u8) < (((v2 >> 96) & 0xFFu128) as u8))
        || ((((v1 >> 120) & 0xFFu128) as u8) == (((v2 >> 120) & 0xFFu128) as u8) && (((v1 >> 112) & 0xFFu128) as u8) == (((v2 >> 112) & 0xFFu128) as u8) && (((v1 >> 104) & 0xFFu128) as u8) == (((v2 >> 104) & 0xFFu128) as u8) && (((v1 >> 96) & 0xFFu128) as u8) == (((v2 >> 96) & 0xFFu128) as u8) && (((v1 >> 88) & 0xFFu128) as u8) < (((v2 >> 88) & 0xFFu128) as u8))
        || ((((v1 >> 120) & 0xFFu128) as u8) == (((v2 >> 120) & 0xFFu128) as u8) && (((v1 >> 112) & 0xFFu128) as u8) == (((v2 >> 112) & 0xFFu128) as u8) && (((v1 >> 104) & 0xFFu128) as u8) == (((v2 >> 104) & 0xFFu128) as u8) && (((v1 >> 96) & 0xFFu128) as u8) == (((v2 >> 96) & 0xFFu128) as u8) && (((v1 >> 88) & 0xFFu128) as u8) == (((v2 >> 88) & 0xFFu128) as u8) && (((v1 >> 80) & 0xFFu128) as u8) < (((v2 >> 80) & 0xFFu128) as u8))
        || ((((v1 >> 120) & 0xFFu128) as u8) == (((v2 >> 120) & 0xFFu128) as u8) && (((v1 >> 112) & 0xFFu128) as u8) == (((v2 >> 112) & 0xFFu128) as u8) && (((v1 >> 104) & 0xFFu128) as u8) == (((v2 >> 104) & 0xFFu128) as u8) && (((v1 >> 96) & 0xFFu128) as u8) == (((v2 >> 96) & 0xFFu128) as u8) && (((v1 >> 88) & 0xFFu128) as u8) == (((v2 >> 88) & 0xFFu128) as u8) && (((v1 >> 80) & 0xFFu128) as u8) == (((v2 >> 80) & 0xFFu128) as u8) && (((v1 >> 72) & 0xFFu128) as u8) < (((v2 >> 72) & 0xFFu128) as u8))
        || ((((v1 >> 120) & 0xFFu128) as u8) == (((v2 >> 120) & 0xFFu128) as u8) && (((v1 >> 112) & 0xFFu128) as u8) == (((v2 >> 112) & 0xFFu128) as u8) && (((v1 >> 104) & 0xFFu128) as u8) == (((v2 >> 104) & 0xFFu128) as u8) && (((v1 >> 96) & 0xFFu128) as u8) == (((v2 >> 96) & 0xFFu128) as u8) && (((v1 >> 88) & 0xFFu128) as u8) == (((v2 >> 88) & 0xFFu128) as u8) && (((v1 >> 80) & 0xFFu128) as u8) == (((v2 >> 80) & 0xFFu128) as u8) && (((v1 >> 72) & 0xFFu128) as u8) == (((v2 >> 72) & 0xFFu128) as u8) && (((v1 >> 64) & 0xFFu128) as u8) < (((v2 >> 64) & 0xFFu128) as u8))
        || ((((v1 >> 120) & 0xFFu128) as u8) == (((v2 >> 120) & 0xFFu128) as u8) && (((v1 >> 112) & 0xFFu128) as u8) == (((v2 >> 112) & 0xFFu128) as u8) && (((v1 >> 104) & 0xFFu128) as u8) == (((v2 >> 104) & 0xFFu128) as u8) && (((v1 >> 96) & 0xFFu128) as u8) == (((v2 >> 96) & 0xFFu128) as u8) && (((v1 >> 88) & 0xFFu128) as u8) == (((v2 >> 88) & 0xFFu128) as u8) && (((v1 >> 80) & 0xFFu128) as u8) == (((v2 >> 80) & 0xFFu128) as u8) && (((v1 >> 72) & 0xFFu128) as u8) == (((v2 >> 72) & 0xFFu128) as u8) && (((v1 >> 64) & 0xFFu128) as u8) == (((v2 >> 64) & 0xFFu128) as u8) && (((v1 >> 56) & 0xFFu128) as u8) < (((v2 >> 56) & 0xFFu128) as u8))
        || ((((v1 >> 120) & 0xFFu128) as u8) == (((v2 >> 120) & 0xFFu128) as u8) && (((v1 >> 112) & 0xFFu128) as u8) == (((v2 >> 112) & 0xFFu128) as u8) && (((v1 >> 104) & 0xFFu128) as u8) == (((v2 >> 104) & 0xFFu128) as u8) && (((v1 >> 96) & 0xFFu128) as u8) == (((v2 >> 96) & 0xFFu128) as u8) && (((v1 >> 88) & 0xFFu128) as u8) == (((v2 >> 88) & 0xFFu128) as u8) && (((v1 >> 80) & 0xFFu128) as u8) == (((v2 >> 80) & 0xFFu128) as u8) && (((v1 >> 72) & 0xFFu128) as u8) == (((v2 >> 72) & 0xFFu128) as u8) && (((v1 >> 64) & 0xFFu128) as u8) == (((v2 >> 64) & 0xFFu128) as u8) && (((v1 >> 56) & 0xFFu128) as u8) == (((v2 >> 56) & 0xFFu128) as u8) && (((v1 >> 48) & 0xFFu128) as u8) < (((v2 >> 48) & 0xFFu128) as u8))
        || ((((v1 >> 120) & 0xFFu128) as u8) == (((v2 >> 120) & 0xFFu128) as u8) && (((v1 >> 112) & 0xFFu128) as u8) == (((v2 >> 112) & 0xFFu128) as u8) && (((v1 >> 104) & 0xFFu128) as u8) == (((v2 >> 104) & 0xFFu128) as u8) && (((v1 >> 96) & 0xFFu128) as u8) == (((v2 >> 96) & 0xFFu128) as u8) && (((v1 >> 88) & 0xFFu128) as u8) == (((v2 >> 88) & 0xFFu128) as u8) && (((v1 >> 80) & 0xFFu128) as u8) == (((v2 >> 80) & 0xFFu128) as u8) && (((v1 >> 72) & 0xFFu128) as u8) == (((v2 >> 72) & 0xFFu128) as u8) && (((v1 >> 64) & 0xFFu128) as u8) == (((v2 >> 64) & 0xFFu128) as u8) && (((v1 >> 56) & 0xFFu128) as u8) == (((v2 >> 56) & 0xFFu128) as u8) && (((v1 >> 48) & 0xFFu128) as u8) == (((v2 >> 48) & 0xFFu128) as u8) && (((v1 >> 40) & 0xFFu128) as u8) < (((v2 >> 40) & 0xFFu128) as u8))
        || ((((v1 >> 120) & 0xFFu128) as u8) == (((v2 >> 120) & 0xFFu128) as u8) && (((v1 >> 112) & 0xFFu128) as u8) == (((v2 >> 112) & 0xFFu128) as u8) && (((v1 >> 104) & 0xFFu128) as u8) == (((v2 >> 104) & 0xFFu128) as u8) && (((v1 >> 96) & 0xFFu128) as u8) == (((v2 >> 96) & 0xFFu128) as u8) && (((v1 >> 88) & 0xFFu128) as u8) == (((v2 >> 88) & 0xFFu128) as u8) && (((v1 >> 80) & 0xFFu128) as u8) == (((v2 >> 80) & 0xFFu128) as u8) && (((v1 >> 72) & 0xFFu128) as u8) == (((v2 >> 72) & 0xFFu128) as u8) && (((v1 >> 64) & 0xFFu128) as u8) == (((v2 >> 64) & 0xFFu128) as u8) && (((v1 >> 56) & 0xFFu128) as u8) == (((v2 >> 56) & 0xFFu128) as u8) && (((v1 >> 48) & 0xFFu128) as u8) == (((v2 >> 48) & 0xFFu128) as u8) && (((v1 >> 40) & 0xFFu128) as u8) == (((v2 >> 40) & 0xFFu128) as u8) && (((v1 >> 32) & 0xFFu128) as u8) < (((v2 >> 32) & 0xFFu128) as u8))
        || ((((v1 >> 120) & 0xFFu128) as u8) == (((v2 >> 120) & 0xFFu128) as u8) && (((v1 >> 112) & 0xFFu128) as u8) == (((v2 >> 112) & 0xFFu128) as u8) && (((v1 >> 104) & 0xFFu128) as u8) == (((v2 >> 104) & 0xFFu128) as u8) && (((v1 >> 96) & 0xFFu128) as u8) == (((v2 >> 96) & 0xFFu128) as u8) && (((v1 >> 88) & 0xFFu128) as u8) == (((v2 >> 88) & 0xFFu128) as u8) && (((v1 >> 80) & 0xFFu128) as u8) == (((v2 >> 80) & 0xFFu128) as u8) && (((v1 >> 72) & 0xFFu128) as u8) == (((v2 >> 72) & 0xFFu128) as u8) && (((v1 >> 64) & 0xFFu128) as u8) == (((v2 >> 64) & 0xFFu128) as u8) && (((v1 >> 56) & 0xFFu128) as u8) == (((v2 >> 56) & 0xFFu128) as u8) && (((v1 >> 48) & 0xFFu128) as u8) == (((v2 >> 48) & 0xFFu128) as u8) && (((v1 >> 40) & 0xFFu128) as u8) == (((v2 >> 40) & 0xFFu128) as u8) && (((v1 >> 32) & 0xFFu128) as u8) == (((v2 >> 32) & 0xFFu128) as u8) && (((v1 >> 24) & 0xFFu128) as u8) < (((v2 >> 24) & 0xFFu128) as u8))
        || ((((v1 >> 120) & 0xFFu128) as u8) == (((v2 >> 120) & 0xFFu128) as u8) && (((v1 >> 112) & 0xFFu128) as u8) == (((v2 >> 112) & 0xFFu128) as u8) && (((v1 >> 104) & 0xFFu128) as u8) == (((v2 >> 104) & 0xFFu128) as u8) && (((v1 >> 96) & 0xFFu128) as u8) == (((v2 >> 96) & 0xFFu128) as u8) && (((v1 >> 88) & 0xFFu128) as u8) == (((v2 >> 88) & 0xFFu128) as u8) && (((v1 >> 80) & 0xFFu128) as u8) == (((v2 >> 80) & 0xFFu128) as u8) && (((v1 >> 72) & 0xFFu128) as u8) == (((v2 >> 72) & 0xFFu128) as u8) && (((v1 >> 64) & 0xFFu128) as u8) == (((v2 >> 64) & 0xFFu128) as u8) && (((v1 >> 56) & 0xFFu128) as u8) == (((v2 >> 56) & 0xFFu128) as u8) && (((v1 >> 48) & 0xFFu128) as u8) == (((v2 >> 48) & 0xFFu128) as u8) && (((v1 >> 40) & 0xFFu128) as u8) == (((v2 >> 40) & 0xFFu128) as u8) && (((v1 >> 32) & 0xFFu128) as u8) == (((v2 >> 32) & 0xFFu128) as u8) && (((v1 >> 24) & 0xFFu128) as u8) == (((v2 >> 24) & 0xFFu128) as u8) && (((v1 >> 16) & 0xFFu128) as u8) < (((v2 >> 16) & 0xFFu128) as u8))
        || ((((v1 >> 120) & 0xFFu128) as u8) == (((v2 >> 120) & 0xFFu128) as u8) && (((v1 >> 112) & 0xFFu128) as u8) == (((v2 >> 112) & 0xFFu128) as u8) && (((v1 >> 104) & 0xFFu128) as u8) == (((v2 >> 104) & 0xFFu128) as u8) && (((v1 >> 96) & 0xFFu128) as u8) == (((v2 >> 96) & 0xFFu128) as u8) && (((v1 >> 88) & 0xFFu128) as u8) == (((v2 >> 88) & 0xFFu128) as u8) && (((v1 >> 80) & 0xFFu128) as u8) == (((v2 >> 80) & 0xFFu128) as u8) && (((v1 >> 72) & 0xFFu128) as u8) == (((v2 >> 72) & 0xFFu128) as u8) && (((v1 >> 64) & 0xFFu128) as u8) == (((v2 >> 64) & 0xFFu128) as u8) && (((v1 >> 56) & 0xFFu128) as u8) == (((v2 >> 56) & 0xFFu128) as u8) && (((v1 >> 48) & 0xFFu128) as u8) == (((v2 >> 48) & 0xFFu128) as u8) && (((v1 >> 40) & 0xFFu128) as u8) == (((v2 >> 40) & 0xFFu128) as u8) && (((v1 >> 32) & 0xFFu128) as u8) == (((v2 >> 32) & 0xFFu128) as u8) && (((v1 >> 24) & 0xFFu128) as u8) == (((v2 >> 24) & 0xFFu128) as u8) && (((v1 >> 16) & 0xFFu128) as u8) == (((v2 >> 16) & 0xFFu128) as u8) && (((v1 >> 8) & 0xFFu128) as u8) < (((v2 >> 8) & 0xFFu128) as u8))
        || ((((v1 >> 120) & 0xFFu128) as u8) == (((v2 >> 120) & 0xFFu128) as u8) && (((v1 >> 112) & 0xFFu128) as u8) == (((v2 >> 112) & 0xFFu128) as u8) && (((v1 >> 104) & 0xFFu128) as u8) == (((v2 >> 104) & 0xFFu128) as u8) && (((v1 >> 96) & 0xFFu128) as u8) == (((v2 >> 96) & 0xFFu128) as u8) && (((v1 >> 88) & 0xFFu128) as u8) == (((v2 >> 88) & 0xFFu128) as u8) && (((v1 >> 80) & 0xFFu128) as u8) == (((v2 >> 80) & 0xFFu128) as u8) && (((v1 >> 72) & 0xFFu128) as u8) == (((v2 >> 72) & 0xFFu128) as u8) && (((v1 >> 64) & 0xFFu128) as u8) == (((v2 >> 64) & 0xFFu128) as u8) && (((v1 >> 56) & 0xFFu128) as u8) == (((v2 >> 56) & 0xFFu128) as u8) && (((v1 >> 48) & 0xFFu128) as u8) == (((v2 >> 48) & 0xFFu128) as u8) && (((v1 >> 40) & 0xFFu128) as u8) == (((v2 >> 40) & 0xFFu128) as u8) && (((v1 >> 32) & 0xFFu128) as u8) == (((v2 >> 32) & 0xFFu128) as u8) && (((v1 >> 24) & 0xFFu128) as u8) == (((v2 >> 24) & 0xFFu128) as u8) && (((v1 >> 16) & 0xFFu128) as u8) == (((v2 >> 16) & 0xFFu128) as u8) && (((v1 >> 8) & 0xFFu128) as u8) == (((v2 >> 8) & 0xFFu128) as u8) && (((v1 >> 0) & 0xFFu128) as u8) < (((v2 >> 0) & 0xFFu128) as u8))) by (bit_vector)
        requires
            v1 < v2,
    ;
    assert(be_byte(v1, 0) == ((v1 >> 120) & 0xFFu128) as u8);
    assert(be_byte(v2, 0) == ((v2 >> 120) & 0xFFu128) as u8);
    assert(be_byte(v1, 1) == ((v1 >> 112) & 0xFFu128) as u8);
    assert(be_byte(v2, 1) == ((v2 >> 112) & 0xFFu128) as u8);
    assert(be_byte(v1, 2) == ((v1 >> 104) & 0xFFu128) as u8);
    assert(be_byte(v2, 2) == ((v2 >> 104) & 0xFFu128) as u8);
    assert(be_byte(v1, 3) == ((v1 >> 96) & 0xFFu128) as u8);
    assert(be_byte(v2, 3) == ((v2 >> 96) & 0xFFu128) as u8);
    assert(be_byte(v1, 4) == ((v1 >> 88) & 0xFFu128) as u8);
    assert(be_byte(v2, 4) == ((v2 >> 88) & 0xFFu128) as u8);
    assert(be_byte(v1, 5) == ((v1 >> 80) & 0xFFu128) as u8);
    assert(be_byte(v2, 5) == ((v2 >> 80) & 0xFFu128) as u8);
    assert(be_byte(v1, 6) == ((v1 >> 72) & 0xFFu128) as u8);
    assert(be_byte(v2, 6) == ((v2 >> 72) & 0xFFu128) as u8);
    assert(be_byte(v1, 7) == ((v1 >> 64) & 0xFFu128) as u8);
    assert(be_byte(v2, 7) == ((v2 >> 64) & 0xFFu128) as u8);
    assert(be_byte(v1, 8) == ((v1 >> 56) & 0xFFu128) as u8);
    assert(be_byte(v2, 8) == ((v2 >> 56) & 0xFFu128) as u8);
    assert(be_byte(v1, 9) == ((v1 >> 48) & 0xFFu128) as u8);
    assert(be_byte(v2, 9) == ((v2 >> 48) & 0xFFu128) as u8);
    assert(be_byte(v1, 10) == ((v1 >> 40) & 0xFFu128) as u8);
    assert(be_byte(v2, 10) == ((v2 >> 40) & 0xFFu128) as u8);
    assert(be_byte(v1, 11) == ((v1 >> 32) & 0xFFu128) as u8);
    assert(be_byte(v2, 11) == ((v2 >> 32) & 0xFFu128) as u8);
    assert(be_byte(v1, 12) == ((v1 >> 24) & 0xFFu128) as u8);
    assert(be_byte(v2, 12) == ((v2 >> 24) & 0xFFu128) as u8);
    assert(be_byte(v1, 13) == ((v1 >> 16) & 0xFFu128) as u8);
    assert(be_byte(v2, 13) == ((v2 >> 16) & 0xFFu128) as u8);
    assert(be_byte(v1, 14) == ((v1 >> 8) & 0xFFu128) as u8);
    assert(be_byte(v2, 14) == ((v2 >> 8) & 0xFFu128) as u8);
    assert(be_byte(v1, 15) == ((v1 >> 0) & 0xFFu128) as u8);
    assert(be_byte(v2, 15) == ((v2 >> 0) & 0xFFu128) as u8);
    if be_byte(v1, 0) < be_byte(v2, 0) {
        assert(byte_lex_lt_at(v1, v2, 0));
    } else if be_byte(v1, 0) == be_byte(v2, 0) && be_byte(v1, 1) < be_byte(v2, 1) {
        assert(byte_lex_lt_at(v1, v2, 1));
    } else if be_byte(v1, 0) == be_byte(v2, 0) && be_byte(v1, 1) == be_byte(v2, 1) && be_byte(v1, 2) < be_byte(v2, 2) {
        assert(byte_lex_lt_at(v1, v2, 2));
    } else if be_byte(v1, 0) == be_byte(v2, 0) && be_byte(v1, 1) == be_byte(v2, 1) && be_byte(v1, 2) == be_byte(v2, 2) && be_byte(v1, 3) < be_byte(v2, 3) {
        assert(byte_lex_lt_at(v1, v2, 3));
    } else if be_byte(v1, 0) == be_byte(v2, 0) && be_byte(v1, 1) == be_byte(v2, 1) && be_byte(v1, 2) == be_byte(v2, 2) && be_byte(v1, 3) == be_byte(v2, 3) && be_byte(v1, 4) < be_byte(v2, 4) {
        assert(byte_lex_lt_at(v1, v2, 4));
    } else if be_byte(v1, 0) == be_byte(v2, 0) && be_byte(v1, 1) == be_byte(v2, 1) && be_byte(v1, 2) == be_byte(v2, 2) && be_byte(v1, 3) == be_byte(v2, 3) && be_byte(v1, 4) == be_byte(v2, 4) && be_byte(v1, 5) < be_byte(v2, 5) {
        assert(byte_lex_lt_at(v1, v2, 5));
    } else if be_byte(v1, 0) == be_byte(v2, 0) && be_byte(v1, 1) == be_byte(v2, 1) && be_byte(v1, 2) == be_byte(v2, 2) && be_byte(v1, 3) == be_byte(v2, 3) && be_byte(v1, 4) == be_byte(v2, 4) && be_byte(v1, 5) == be_byte(v2, 5) && be_byte(v1, 6) < be_byte(v2, 6) {
        assert(byte_lex_lt_at(v1, v2, 6));
    } else if be_byte(v1, 0) == be_byte(v2, 0) && be_byte(v1, 1) == be_byte(v2, 1) && be_byte(v1, 2) == be_byte(v2, 2) && be_byte(v1, 3) == be_byte(v2, 3) && be_byte(v1, 4) == be_byte(v2, 4) && be_byte(v1, 5) == be_byte(v2, 5) && be_byte(v1, 6) == be_byte(v2, 6) && be_byte(v1, 7) < be_byte(v2, 7) {
        assert(byte_lex_lt_at(v1, v2, 7));
    } else if be_byte(v1, 0) == be_byte(v2, 0) && be_byte(v1, 1) == be_byte(v2, 1) && be_byte(v1, 2) == be_byte(v2, 2) && be_byte(v1, 3) == be_byte(v2, 3) && be_byte(v1, 4) == be_byte(v2, 4) && be_byte(v1, 5) == be_byte(v2, 5) && be_byte(v1, 6) == be_byte(v2, 6) && be_byte(v1, 7) == be_byte(v2, 7) && be_byte(v1, 8) < be_byte(v2, 8) {
        assert(byte_lex_lt_at(v1, v2, 8));
    } else if be_byte(v1, 0) == be_byte(v2, 0) && be_byte(v1, 1) == be_byte(v2, 1) && be_byte(v1, 2) == be_byte(v2, 2) && be_byte(v1, 3) == be_byte(v2, 3) && be_byte(v1, 4) == be_byte(v2, 4) && be_byte(v1, 5) == be_byte(v2, 5) && be_byte(v1, 6) == be_byte(v2, 6) && be_byte(v1, 7) == be_byte(v2, 7) && be_byte(v1, 8) == be_byte(v2, 8) && be_byte(v1, 9) < be_byte(v2, 9) {
        assert(byte_lex_lt_at(v1, v2, 9));
    } else if be_byte(v1, 0) == be_byte(v2, 0) && be_byte(v1, 1) == be_byte(v2, 1) && be_byte(v1, 2) == be_byte(v2, 2) && be_byte(v1, 3) == be_byte(v2, 3) && be_byte(v1, 4) == be_byte(v2, 4) && be_byte(v1, 5) == be_byte(v2, 5) && be_byte(v1, 6) == be_byte(v2, 6) && be_byte(v1, 7) == be_byte(v2, 7) && be_byte(v1, 8) == be_byte(v2, 8) && be_byte(v1, 9) == be_byte(v2, 9) && be_byte(v1, 10) < be_byte(v2, 10) {
        assert(byte_lex_lt_at(v1, v2, 10));
    } else if be_byte(v1, 0) == be_byte(v2, 0) && be_byte(v1, 1) == be_byte(v2, 1) && be_byte(v1, 2) == be_byte(v2, 2) && be_byte(v1, 3) == be_byte(v2, 3) && be_byte(v1, 4) == be_byte(v2, 4) && be_byte(v1, 5) == be_byte(v2, 5) && be_byte(v1, 6) == be_byte(v2, 6) && be_byte(v1, 7) == be_byte(v2, 7) && be_byte(v1, 8) == be_byte(v2, 8) && be_byte(v1, 9) == be_byte(v2, 9) && be_byte(v1, 10) == be_byte(v2, 10) && be_byte(v1, 11) < be_byte(v2, 11) {
        assert(byte_lex_lt_at(v1, v2, 11));
    } else if be_byte(v1, 0) == be_byte(v2, 0) && be_byte(v1, 1) == be_byte(v2, 1) && be_byte(v1, 2) == be_byte(v2, 2) && be_byte(v1, 3) == be_byte(v2, 3) && be_byte(v1, 4) == be_byte(v2, 4) && be_byte(v1, 5) == be_byte(v2, 5) && be_byte(v1, 6) == be_byte(v2, 6) && be_byte(v1, 7) == be_byte(v2, 7) && be_byte(v1, 8) == be_byte(v2, 8) && be_byte(v1, 9) == be_byte(v2, 9) && be_byte(v1, 10) == be_byte(v2, 10) && be_byte(v1, 11) == be_byte(v2, 11) && be_byte(v1, 12) < be_byte(v2, 12) {
        assert(byte_lex_lt_at(v1, v2, 12));
    } else if be_byte(v1, 0) == be_byte(v2, 0) && be_byte(v1, 1) == be_byte(v2, 1) && be_byte(v1, 2) == be_byte(v2, 2) && be_byte(v1, 3) == be_byte(v2, 3) && be_byte(v1, 4) == be_byte(v2, 4) && be_byte(v1, 5) == be_byte(v2, 5) && be_byte(v1, 6) == be_byte(v2, 6) && be_byte(v1, 7) == be_byte(v2, 7) && be_byte(v1, 8) == be_byte(v2, 8) && be_byte(v1, 9) == be_byte(v2, 9) && be_byte(v1, 10) == be_byte(v2, 10) && be_byte(v1, 11) == be_byte(v2, 11) && be_byte(v1, 12) == be_byte(v2, 12) && be_byte(v1, 13) < be_byte(v2, 13) {
        assert(byte_lex_lt_at(v1, v2, 13));
    } else if be_byte(v1, 0) == be_byte(v2, 0) && be_byte(v1, 1) == be_byte(v2, 1) && be_byte(v1, 2) == be_byte(v2, 2) && be_byte(v1, 3) == be_byte(v2, 3) && be_byte(v1, 4) == be_byte(v2, 4) && be_byte(v1, 5) == be_byte(v2, 5) && be_byte(v1, 6) == be_byte(v2, 6) && be_byte(v1, 7) == be_byte(v2, 7) && be_byte(v1, 8) == be_byte(v2, 8) && be_byte(v1, 9) == be_byte(v2, 9) && be_byte(v1, 10) == be_byte(v2, 10) && be_byte(v1, 11) == be_byte(v2, 11) && be_byte(v1, 12) == be_byte(v2, 12) && be_byte(v1, 13) == be_byte(v2, 13) && be_byte(v1, 14) < be_byte(v2, 14) {
        assert(byte_lex_lt_at(v1, v2, 14));
    } else if be_byte(v1, 0) == be_byte(v2, 0) && be_byte(v1, 1) == be_byte(v2, 1) && be_byte(v1, 2) == be_byte(v2, 2) && be_byte(v1, 3) == be_byte(v2, 3) && be_byte(v1, 4) == be_byte(v2, 4) && be_byte(v1, 5) == be_byte(v2, 5) && be_byte(v1, 6) == be_byte(v2, 6) && be_byte(v1, 7) == be_byte(v2, 7) && be_byte(v1, 8) == be_byte(v2, 8) && be_byte(v1, 9) == be_byte(v2, 9) && be_byte(v1, 10) == be_byte(v2, 10) && be_byte(v1, 11) == be_byte(v2, 11) && be_byte(v1, 12) == be_byte(v2, 12) && be_byte(v1, 13) == be_byte(v2, 13) && be_byte(v1, 14) == be_byte(v2, 14) && be_byte(v1, 15) < be_byte(v2, 15) {
        assert(byte_lex_lt_at(v1, v2, 15));
    }
}

/// Whether `bit_pos` is one of the six reserved marker positions.
pub fn is_fixed_uuid_bit(bit_pos: usize) -> (r: bool)
    ensures
        r == (bit_pos == 79 || bit_pos == 78 || bit_pos == 77 || bit_pos == 76 || bit_pos == 63
            || bit_pos == 62),
{
    bit_pos == 79 || bit_pos == 78 || bit_pos == 77 || bit_pos == 76 || bit_pos == 63 || bit_pos
        == 62
}

/// Reads bit `bit_pos` of a 16-byte value in big-endian bit numbering.
pub fn get_bit(bytes: &[u8; 16], bit_pos: usize) -> (r: u8)
    requires
        bit_pos < 128,
    ensures
        r == spec_bit_of(bytes@, bit_pos as int),
{
    let byte_idx: usize = 15 - bit_pos / 8;
    let bit_idx: usize = bit_pos % 8;
    (bytes[byte_idx] >> (bit_idx as u8)) & 1
}

/// Sets or clears bit `bit_pos` (big-endian bit numbering): the bit becomes 1
/// exactly when `value` is nonzero, and every other bit keeps its value.
pub fn set_bit(bytes: &mut [u8; 16], bit_pos: usize, value: u8)
    requires
        bit_pos < 128,
    ensures
        spec_bit_of(final(bytes)@, bit_pos as int) == (if value == 0 {
            0u8
        } else {
            1u8
        }),
        forall|p: int|
            0 <= p < 128 && p != bit_pos as int ==> spec_bit_of(final(bytes)@, p) == spec_bit_of(
                old(bytes)@,
                p,
            ),
{
    let byte_idx: usize = 15 - bit_pos / 8;
    let bit_idx: usize = bit_pos % 8;
    let b: u8 = bytes[byte_idx];
    let k: u8 = bit_idx as u8;
    let nb: u8 = if value == 0 {
        b & !(1u8 << k)
    } else {
        b | (1u8 << k)
    };
    bytes[byte_idx] = nb;
    proof {
        let bi = bit_pos as int;
        assert(15 - bi / 8 == byte_idx as int);
        assert(bi % 8 == (bit_pos % 8) as int);
        assert((bi % 8) as u8 == k);
        assert((nb >> k) & 1 == (if value == 0 {
            0u8
        } else {
            1u8
        })) by (bit_vector)
            requires
                k < 8,
                nb == (if value == 0 {
                    b & !(1u8 << k)
                } else {
                    b | (1u8 << k)
                }),
        ;
        assert(spec_bit_of(bytes@, bi) == (nb >> k) & 1);
        assert forall|p: int| 0 <= p < 128 && p != bi implies spec_bit_of(bytes@, p)
            == spec_bit_of(old(bytes)@, p) by {
            if 15 - p / 8 == byte_idx as int {
                let j: u8 = (p % 8) as u8;
                assert(p / 8 == bi / 8);
                assert(p % 8 != bi % 8);
                assert(j != k);
                assert(j < 8);
                assert((nb >> j) & 1 == (b >> j) & 1) by (bit_vector)
                    requires
                        j < 8,
                        k < 8,
                        j != k,
                        nb == (b & !(1u8 << k)) || nb == (b | (1u8 << k)),
                ;
            } else {
                assert(bytes@[15 - p / 8] == old(bytes)@[15 - p / 8]);
            }
        }
    }
}

/// Whether the 16 bytes carry the fixed version nibble (`1000` in the high
/// half of byte 6) and variant bits (`10` at the top of byte 8).
pub fn is_valid_ttid_uuid(bytes: &[u8; 16]) -> (r: bool)
    ensures
        r == ((bytes@[6] >> 4) == 8 && (bytes@[8] & 0xC0) == 0x80),
{
    let version_ok: bool = (bytes[6] >> 4) == 0b1000;
    let variant_ok: bool = (bytes[8] & 0b1100_0000) == 0b1000_0000;
    version_ok && variant_ok
}

} // verus!
