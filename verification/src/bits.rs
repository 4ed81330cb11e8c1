//! Bit-level model of the lane encodings.
//!
//! A 32-bit float lane is carried as its raw IEEE-754 bit pattern in a
//! `u32`, a 64-bit float lane as a `u64`. The spec functions here say what
//! the encoding means: sign, magnitude, NaN-ness, IEEE-754 ordering and
//! equality of the encoded values, and the little-endian byte layout that
//! bit-reinterpretation between vector shapes preserves.

use vstd::prelude::*;

verus! {

/// The lane's bits with the sign bit cleared: the encoded magnitude.
pub open spec fn f32_magnitude(bits: u32) -> u32 {
    bits & 0x7fff_ffff
}

/// True iff the lane's sign bit is set (the encoded value is negative,
/// a negative zero, or a NaN with the sign bit set).
pub open spec fn f32_sign(bits: u32) -> bool {
    bits >= 0x8000_0000
}

/// True iff the bit pattern encodes an IEEE-754 NaN: magnitude strictly
/// above that of infinity.
pub open spec fn f32_is_nan(bits: u32) -> bool {
    f32_magnitude(bits) > 0x7f80_0000
}

/// Order key of a non-NaN lane: negating the magnitude of negative values
/// places the encoded values in their IEEE-754 numeric order, with the two
/// zero encodings sharing the key 0.
pub open spec fn f32_key(bits: u32) -> int {
    if f32_sign(bits) {
        -(f32_magnitude(bits) as int)
    } else {
        f32_magnitude(bits) as int
    }
}

/// IEEE-754 equality of two encoded lanes: false whenever either is NaN,
/// true for the two zero encodings, otherwise bit equality.
pub open spec fn f32_eq(a: u32, b: u32) -> bool {
    &&& !f32_is_nan(a)
    &&& !f32_is_nan(b)
    &&& f32_key(a) == f32_key(b)
}

/// IEEE-754 minNum of two encoded lanes: a NaN loses to the other operand
/// (two NaNs give the second); otherwise the numerically smaller value,
/// the first operand when the two are numerically equal.
pub open spec fn f32_min_bits(a: u32, b: u32) -> u32 {
    if f32_is_nan(a) {
        b
    } else if f32_is_nan(b) {
        a
    } else if f32_key(b) < f32_key(a) {
        b
    } else {
        a
    }
}

/// IEEE-754 maxNum of two encoded lanes: a NaN loses to the other operand
/// (two NaNs give the second); otherwise the numerically larger value,
/// the first operand when the two are numerically equal.
pub open spec fn f32_max_bits(a: u32, b: u32) -> u32 {
    if f32_is_nan(a) {
        b
    } else if f32_is_nan(b) {
        a
    } else if f32_key(b) > f32_key(a) {
        b
    } else {
        a
    }
}

/// Order key of a lane, computed executably.
pub(crate) fn f32_order_key(bits: u32) -> (k: i64)
    ensures
        k == f32_key(bits),
{
    let magnitude: u32 = bits & 0x7fff_ffff;
    if bits >= 0x8000_0000 {
        -(magnitude as i64)
    } else {
        magnitude as i64
    }
}

/// NaN test of a lane, computed executably.
pub(crate) fn f32_lane_is_nan(bits: u32) -> (r: bool)
    ensures
        r == f32_is_nan(bits),
{
    (bits & 0x7fff_ffff) > 0x7f80_0000
}

/// IEEE-754 equality of two lanes, computed executably.
pub(crate) fn f32_lane_eq(a: u32, b: u32) -> (r: bool)
    ensures
        r == f32_eq(a, b),
{
    if f32_lane_is_nan(a) || f32_lane_is_nan(b) {
        false
    } else {
        f32_order_key(a) == f32_order_key(b)
    }
}

/// IEEE-754 minNum of two lanes, computed executably.
pub(crate) fn f32_lane_min(a: u32, b: u32) -> (r: u32)
    ensures
        r == f32_min_bits(a, b),
{
    if f32_lane_is_nan(a) {
        b
    } else if f32_lane_is_nan(b) {
        a
    } else if f32_order_key(b) < f32_order_key(a) {
        b
    } else {
        a
    }
}

/// IEEE-754 maxNum of two lanes, computed executably.
pub(crate) fn f32_lane_max(a: u32, b: u32) -> (r: u32)
    ensures
        r == f32_max_bits(a, b),
{
    if f32_lane_is_nan(a) {
        b
    } else if f32_lane_is_nan(b) {
        a
    } else if f32_order_key(b) > f32_order_key(a) {
        b
    } else {
        a
    }
}

/// The NaN-aware choice the minimum and maximum make: against a NaN the
/// numeric operand always wins, and between numbers the result is never
/// a NaN; either way the result is one of the two operands.
pub proof fn lemma_min_max_nan_aware(a: u32, b: u32)
    ensures
        f32_is_nan(a) && !f32_is_nan(b) ==> f32_min_bits(a, b) == b && f32_max_bits(a, b) == b,
        !f32_is_nan(a) && f32_is_nan(b) ==> f32_min_bits(a, b) == a && f32_max_bits(a, b) == a,
        !f32_is_nan(a) || !f32_is_nan(b) ==> !f32_is_nan(f32_min_bits(a, b)) && !f32_is_nan(
            f32_max_bits(a, b),
        ),
        f32_min_bits(a, b) == a || f32_min_bits(a, b) == b,
        f32_max_bits(a, b) == a || f32_max_bits(a, b) == b,
{
}

/// Little-endian byte layout of a 32-bit lane.
pub open spec fn le_bytes_32(x: u32) -> Seq<u8> {
    seq![
        (x & 0xff) as u8,
        ((x >> 8) & 0xff) as u8,
        ((x >> 16) & 0xff) as u8,
        ((x >> 24) & 0xff) as u8,
    ]
}

/// Little-endian byte layout of a 64-bit lane.
pub open spec fn le_bytes_64(x: u64) -> Seq<u8> {
    seq![
        (x & 0xff) as u8,
        ((x >> 8) & 0xff) as u8,
        ((x >> 16) & 0xff) as u8,
        ((x >> 24) & 0xff) as u8,
        ((x >> 32) & 0xff) as u8,
        ((x >> 40) & 0xff) as u8,
        ((x >> 48) & 0xff) as u8,
        ((x >> 56) & 0xff) as u8,
    ]
}

/// Two adjacent 32-bit lanes read as one 64-bit lane, low lane first.
pub open spec fn pack_64(lo: u32, hi: u32) -> u64 {
    (lo as u64) | ((hi as u64) << 32)
}

/// The low 32-bit half of a 64-bit lane.
pub open spec fn low_32(x: u64) -> u32 {
    (x & 0xffff_ffff) as u32
}

/// The high 32-bit half of a 64-bit lane.
pub open spec fn high_32(x: u64) -> u32 {
    (x >> 32) as u32
}

/// A 32-bit lane's bits read as a two's-complement signed integer.
pub open spec fn to_signed_32(bits: u32) -> i32 {
    bits as i32
}

/// A signed 32-bit lane's two's-complement bit pattern.
pub open spec fn to_bits_32(v: i32) -> u32 {
    v as u32
}

/// Four bytes read as a 32-bit lane, little-endian.
pub open spec fn from_le_bytes_32(b0: u8, b1: u8, b2: u8, b3: u8) -> u32 {
    (b0 as u32) | ((b1 as u32) << 8) | ((b2 as u32) << 16) | ((b3 as u32) << 24)
}

/// Packing two 32-bit halves and splitting the result gives the halves back.
pub proof fn lemma_pack_64_halves(lo: u32, hi: u32)
    ensures
        low_32(pack_64(lo, hi)) == lo,
        high_32(pack_64(lo, hi)) == hi,
{
    assert(((((lo as u64) | ((hi as u64) << 32)) & 0xffff_ffff) as u32) == lo
        && ((((lo as u64) | ((hi as u64) << 32)) >> 32) as u32) == hi) by (bit_vector);
}

/// Splitting a 64-bit lane and packing the halves gives the lane back.
pub proof fn lemma_split_64_packs(x: u64)
    ensures
        pack_64(low_32(x), high_32(x)) == x,
{
    assert(((((x & 0xffff_ffff) as u32) as u64) | ((((x >> 32) as u32) as u64) << 32)) == x)
        by (bit_vector);
}

/// A packed 64-bit lane has the bytes of its two halves, low half first.
pub proof fn lemma_pack_64_bytes(lo: u32, hi: u32)
    ensures
        le_bytes_64(pack_64(lo, hi)) =~= le_bytes_32(lo) + le_bytes_32(hi),
{
    let p = pack_64(lo, hi);
    assert((p & 0xff) as u8 == (lo & 0xff) as u8
        && ((p >> 8) & 0xff) as u8 == ((lo >> 8) & 0xff) as u8
        && ((p >> 16) & 0xff) as u8 == ((lo >> 16) & 0xff) as u8
        && ((p >> 24) & 0xff) as u8 == ((lo >> 24) & 0xff) as u8
        && ((p >> 32) & 0xff) as u8 == (hi & 0xff) as u8
        && ((p >> 40) & 0xff) as u8 == ((hi >> 8) & 0xff) as u8
        && ((p >> 48) & 0xff) as u8 == ((hi >> 16) & 0xff) as u8
        && ((p >> 56) & 0xff) as u8 == ((hi >> 24) & 0xff) as u8) by (bit_vector)
        requires
            p == ((lo as u64) | ((hi as u64) << 32)),
    ;
}

/// Reading bits as a signed lane and taking its bit pattern back gives
/// the bits unchanged.
pub proof fn lemma_signed_of_bits_round_trip(bits: u32)
    ensures
        to_bits_32(to_signed_32(bits)) == bits,
{
    assert(((bits as i32) as u32) == bits) by (bit_vector);
}

/// Taking a signed lane's bit pattern and reading it back gives the lane
/// unchanged.
pub proof fn lemma_bits_of_signed_round_trip(v: i32)
    ensures
        to_signed_32(to_bits_32(v)) == v,
{
    assert(((v as u32) as i32) == v) by (bit_vector);
}

/// Reassembling a lane's little-endian bytes gives the lane back.
pub proof fn lemma_le_bytes_32_round_trip(x: u32)
    ensures
        from_le_bytes_32(
            le_bytes_32(x)[0],
            le_bytes_32(x)[1],
            le_bytes_32(x)[2],
            le_bytes_32(x)[3],
        ) == x,
{
    assert((((x & 0xff) as u8) as u32) | ((((x >> 8) & 0xff) as u8) as u32) << 8
        | ((((x >> 16) & 0xff) as u8) as u32) << 16 | ((((x >> 24) & 0xff) as u8) as u32) << 24
        == x) by (bit_vector);
}

/// Reassembled bytes lay themselves out again byte for byte.
pub proof fn lemma_from_le_bytes_32_layout(b0: u8, b1: u8, b2: u8, b3: u8)
    ensures
        le_bytes_32(from_le_bytes_32(b0, b1, b2, b3)) =~= seq![b0, b1, b2, b3],
{
    let x = from_le_bytes_32(b0, b1, b2, b3);
    assert((x & 0xff) as u8 == b0 && ((x >> 8) & 0xff) as u8 == b1 && ((x >> 16) & 0xff) as u8
        == b2 && ((x >> 24) & 0xff) as u8 == b3) by (bit_vector)
        requires
            x == ((b0 as u32) | ((b1 as u32) << 8) | ((b2 as u32) << 16) | ((b3 as u32) << 24)),
    ;
}

/// The low and high 32-bit halves of a 64-bit lane, computed executably.
pub(crate) fn split_64(x: u64) -> (halves: (u32, u32))
    ensures
        halves.0 == low_32(x),
        halves.1 == high_32(x),
{
    proof {
        assert((x & 0xffff_ffff) <= 0xffff_ffff && (x >> 32) <= 0xffff_ffff) by (bit_vector);
    }
    (((x & 0xffff_ffff) as u32), ((x >> 32) as u32))
}

/// Two 32-bit lanes packed into one 64-bit lane, computed executably.
pub(crate) fn pack_64_exec(lo: u32, hi: u32) -> (p: u64)
    ensures
        p == pack_64(lo, hi),
{
    (lo as u64) | ((hi as u64) << 32)
}

/// The four little-endian bytes of a 32-bit lane, computed executably.
pub(crate) fn le_bytes_32_exec(x: u32) -> (bytes: (u8, u8, u8, u8))
    ensures
        bytes.0 == le_bytes_32(x)[0],
        bytes.1 == le_bytes_32(x)[1],
        bytes.2 == le_bytes_32(x)[2],
        bytes.3 == le_bytes_32(x)[3],
{
    proof {
        assert((x & 0xff) <= 0xff && ((x >> 8) & 0xff) <= 0xff && ((x >> 16) & 0xff) <= 0xff && ((
        x >> 24) & 0xff) <= 0xff) by (bit_vector);
    }
    (
        ((x & 0xff) as u8),
        (((x >> 8) & 0xff) as u8),
        (((x >> 16) & 0xff) as u8),
        (((x >> 24) & 0xff) as u8),
    )
}

/// Four bytes reassembled into a 32-bit lane, computed executably.
pub(crate) fn from_le_bytes_32_exec(b0: u8, b1: u8, b2: u8, b3: u8) -> (x: u32)
    ensures
        x == from_le_bytes_32(b0, b1, b2, b3),
{
    (b0 as u32) | ((b1 as u32) << 8) | ((b2 as u32) << 16) | ((b3 as u32) << 24)
}

/// A 32-bit lane's bits as a signed integer, computed executably.
pub(crate) fn to_signed_32_exec(bits: u32) -> (v: i32)
    ensures
        v == to_signed_32(bits),
{
    #[verifier::truncate] (bits as i32)
}

/// A signed lane's two's-complement bit pattern, computed executably.
pub(crate) fn to_bits_32_exec(v: i32) -> (bits: u32)
    ensures
        bits == to_bits_32(v),
{
    #[verifier::truncate] (v as u32)
}

} // verus!
