//! Numbers as the class format and the value model store them: big-endian
//! byte runs, two's-complement bit patterns, and 64-bit values split into
//! two 32-bit halves.

use vstd::prelude::*;

verus! {

/// `n` bytes starting at `pos` lie inside `data`.
pub open spec fn fits(data: Seq<u8>, pos: int, n: int) -> bool {
    0 <= pos && 0 <= n && pos + n <= data.len()
}

/// The big-endian 16-bit value at `pos`.
pub open spec fn be_u16(data: Seq<u8>, pos: int) -> u16 {
    (data[pos] as int * 0x100 + data[pos + 1] as int) as u16
}

/// The big-endian 32-bit value at `pos`.
pub open spec fn be_u32(data: Seq<u8>, pos: int) -> u32 {
    (be_u16(data, pos) as int * 0x1_0000 + be_u16(data, pos + 2) as int) as u32
}

/// The big-endian 64-bit value at `pos`.
pub open spec fn be_u64(data: Seq<u8>, pos: int) -> u64 {
    (be_u32(data, pos) as int * 0x1_0000_0000 + be_u32(data, pos + 4) as int) as u64
}

/// The `n` big-endian 16-bit values that start at `pos`.
pub open spec fn be_u16_run(data: Seq<u8>, pos: int, n: int) -> Seq<u16> {
    Seq::new(n as nat, |i: int| be_u16(data, pos + 2 * i))
}

/// The two bytes of `v`, the upper one first.
pub open spec fn u16_bytes(v: u16) -> Seq<u8> {
    seq![(v / 0x100) as u8, (v % 0x100) as u8]
}

/// The four bytes of `v`, the uppermost first.
pub open spec fn u32_bytes(v: u32) -> Seq<u8> {
    u16_bytes((v / 0x1_0000) as u16) + u16_bytes((v % 0x1_0000) as u16)
}

/// The eight bytes of `v`, the uppermost first.
pub open spec fn u64_bytes(v: u64) -> Seq<u8> {
    u32_bytes((v / 0x1_0000_0000) as u32) + u32_bytes((v % 0x1_0000_0000) as u32)
}

/// The bytes of each of `values` in turn.
pub open spec fn u16_run_bytes(values: Seq<u16>) -> Seq<u8>
    decreases values.len(),
{
    if values.len() == 0 {
        Seq::empty()
    } else {
        u16_run_bytes(values.drop_last()) + u16_bytes(values.last())
    }
}

proof fn lemma_halves_of_sum(high: int, low: int)
    ensures
        0 <= low < 0x100 ==> (high * 0x100 + low) / 0x100 == high && (high * 0x100 + low) % 0x100
            == low,
        0 <= low < 0x1_0000 ==> (high * 0x1_0000 + low) / 0x1_0000 == high && (high * 0x1_0000
            + low) % 0x1_0000 == low,
        0 <= low < 0x1_0000_0000 ==> (high * 0x1_0000_0000 + low) / 0x1_0000_0000 == high && (high
            * 0x1_0000_0000 + low) % 0x1_0000_0000 == low,
{
}

/// A big-endian 16-bit value, written out again, gives the bytes it was read
/// from.
pub proof fn lemma_bytes_of_be_u16(data: Seq<u8>, pos: int)
    requires
        fits(data, pos, 2),
    ensures
        u16_bytes(be_u16(data, pos)) == data.subrange(pos, pos + 2),
{
    lemma_halves_of_sum(data[pos] as int, data[pos + 1] as int);
    assert(u16_bytes(be_u16(data, pos)) =~= data.subrange(pos, pos + 2));
}

/// The same for a 32-bit value.
pub proof fn lemma_bytes_of_be_u32(data: Seq<u8>, pos: int)
    requires
        fits(data, pos, 4),
    ensures
        u32_bytes(be_u32(data, pos)) == data.subrange(pos, pos + 4),
{
    let high = be_u16(data, pos);
    let low = be_u16(data, pos + 2);
    lemma_halves_of_sum(high as int, low as int);
    lemma_bytes_of_be_u16(data, pos);
    lemma_bytes_of_be_u16(data, pos + 2);
    assert(be_u32(data, pos) == high * 0x1_0000 + low);
    assert(data.subrange(pos, pos + 2) + data.subrange(pos + 2, pos + 4) =~= data.subrange(
        pos,
        pos + 4,
    ));
}

/// The same for a 64-bit value.
pub proof fn lemma_bytes_of_be_u64(data: Seq<u8>, pos: int)
    requires
        fits(data, pos, 8),
    ensures
        u64_bytes(be_u64(data, pos)) == data.subrange(pos, pos + 8),
{
    let high = be_u32(data, pos);
    let low = be_u32(data, pos + 4);
    lemma_halves_of_sum(high as int, low as int);
    lemma_bytes_of_be_u32(data, pos);
    lemma_bytes_of_be_u32(data, pos + 4);
    assert(be_u64(data, pos) == high * 0x1_0000_0000 + low);
    assert(data.subrange(pos, pos + 4) + data.subrange(pos + 4, pos + 8) =~= data.subrange(
        pos,
        pos + 8,
    ));
}

/// A run of big-endian 16-bit values, written out again, gives the bytes it
/// was read from.
pub proof fn lemma_bytes_of_be_run(data: Seq<u8>, pos: int, n: int)
    requires
        0 <= n,
        fits(data, pos, 2 * n),
    ensures
        u16_run_bytes(be_u16_run(data, pos, n)) == data.subrange(pos, pos + 2 * n),
    decreases n,
{
    if n == 0 {
        assert(u16_run_bytes(be_u16_run(data, pos, n)) =~= data.subrange(pos, pos + 2 * n));
    } else {
        lemma_bytes_of_be_run(data, pos, n - 1);
        lemma_bytes_of_be_u16(data, pos + 2 * (n - 1));
        assert(be_u16_run(data, pos, n).drop_last() =~= be_u16_run(data, pos, n - 1));
        assert(data.subrange(pos, pos + 2 * (n - 1)) + data.subrange(
            pos + 2 * (n - 1),
            pos + 2 * n,
        ) =~= data.subrange(pos, pos + 2 * n));
    }
}

/// Shifting the high byte into place and adding the low one by `|` gives
/// the big-endian value.
pub proof fn lemma_join_u16(b0: u16, b1: u16)
    requires
        b0 < 0x100,
        b1 < 0x100,
    ensures
        (b0 << 8) | b1 == b0 * 0x100 + b1,
{
    assert((b0 << 8) | b1 == b0 * 0x100 + b1) by (bit_vector)
        requires
            b0 < 0x100,
            b1 < 0x100,
    ;
}

/// The same for two 16-bit halves.
pub proof fn lemma_join_u32(h: u32, l: u32)
    requires
        h < 0x1_0000,
        l < 0x1_0000,
    ensures
        (h << 16) | l == h * 0x1_0000 + l,
{
    assert((h << 16) | l == h * 0x1_0000 + l) by (bit_vector)
        requires
            h < 0x1_0000,
            l < 0x1_0000,
    ;
}

/// The same for two 32-bit halves.
pub proof fn lemma_join_u64(h: u64, l: u64)
    requires
        h < 0x1_0000_0000,
        l < 0x1_0000_0000,
    ensures
        (h << 32) | l == h * 0x1_0000_0000 + l,
{
    assert((h << 32) | l == h * 0x1_0000_0000 + l) by (bit_vector)
        requires
            h < 0x1_0000_0000,
            l < 0x1_0000_0000,
    ;
}

/// The signed value with the 8-bit pattern `x`.
pub open spec fn signed8(x: u8) -> i8 {
    if x < 0x80 {
        x as i8
    } else {
        (x - 0x100) as i8
    }
}

/// The signed value with the 16-bit pattern `x`.
pub open spec fn signed16(x: u16) -> i16 {
    if x < 0x8000 {
        x as i16
    } else {
        (x - 0x1_0000) as i16
    }
}

/// The signed value with the 32-bit pattern `x`.
pub open spec fn signed32(x: u32) -> i32 {
    if x < 0x8000_0000 {
        x as i32
    } else {
        (x - 0x1_0000_0000) as i32
    }
}

/// The signed value with the 64-bit pattern `x`.
pub open spec fn signed64(x: u64) -> i64 {
    if x < 0x8000_0000_0000_0000 {
        x as i64
    } else {
        (x - 0x1_0000_0000_0000_0000) as i64
    }
}

/// The 32-bit pattern of `v`.
pub open spec fn pattern32(v: i32) -> u32 {
    if v < 0 {
        (v + 0x1_0000_0000) as u32
    } else {
        v as u32
    }
}

/// The 64-bit pattern of `v`.
pub open spec fn pattern64(v: i64) -> u64 {
    if v < 0 {
        (v + 0x1_0000_0000_0000_0000) as u64
    } else {
        v as u64
    }
}

/// The upper 32 bits of `v`, as a signed number.
pub open spec fn high_half(v: i64) -> i32 {
    (v as int / 0x1_0000_0000) as i32
}

/// The lower 32 bits of `v`, as a signed number.
pub open spec fn low_half(v: i64) -> i32 {
    signed32((v as int % 0x1_0000_0000) as u32)
}

/// The 64-bit value with upper half `high` and lower half `low`.
pub open spec fn join_halves(high: i32, low: i32) -> i64 {
    (high * 0x1_0000_0000 + pattern32(low)) as i64
}

pub fn to_i8(x: u8) -> (v: i8)
    ensures
        v == signed8(x),
{
    let v: i8 = #[verifier::truncate]
    (x as i8);
    assert(v == (if x < 0x80 {
        x as int
    } else {
        x - 0x100
    })) by (bit_vector)
        requires
            v == x as i8,
    ;
    v
}

pub fn to_i16(x: u16) -> (v: i16)
    ensures
        v == signed16(x),
{
    let v: i16 = #[verifier::truncate]
    (x as i16);
    assert(v == (if x < 0x8000 {
        x as int
    } else {
        x - 0x1_0000
    })) by (bit_vector)
        requires
            v == x as i16,
    ;
    v
}

pub fn to_i32(x: u32) -> (v: i32)
    ensures
        v == signed32(x),
{
    let v: i32 = #[verifier::truncate]
    (x as i32);
    assert(v == (if x < 0x8000_0000 {
        x as int
    } else {
        x - 0x1_0000_0000
    })) by (bit_vector)
        requires
            v == x as i32,
    ;
    v
}

pub fn to_i64(x: u64) -> (v: i64)
    ensures
        v == signed64(x),
{
    let v: i64 = #[verifier::truncate]
    (x as i64);
    assert(v == (if x < 0x8000_0000_0000_0000 {
        x as int
    } else {
        x - 0x1_0000_0000_0000_0000
    })) by (bit_vector)
        requires
            v == x as i64,
    ;
    v
}

pub fn to_u32(v: i32) -> (x: u32)
    ensures
        x == pattern32(v),
{
    let x: u32 = #[verifier::truncate]
    (v as u32);
    assert(x == (if v < 0 {
        v + 0x1_0000_0000
    } else {
        v as int
    })) by (bit_vector)
        requires
            x == v as u32,
    ;
    x
}

pub fn to_u64(v: i64) -> (x: u64)
    ensures
        x == pattern64(v),
{
    let x: u64 = #[verifier::truncate]
    (v as u64);
    assert(x == (if v < 0 {
        v + 0x1_0000_0000_0000_0000
    } else {
        v as int
    })) by (bit_vector)
        requires
            x == v as u64,
    ;
    x
}

/// Splits a 64-bit value into its upper and lower half.
pub fn split_i64(v: i64) -> (halves: (i32, i32))
    ensures
        halves.0 == high_half(v),
        halves.1 == low_half(v),
{
    let high: i32 = #[verifier::truncate]
    ((v >> 32) as i32);
    let low: i32 = #[verifier::truncate]
    (v as i32);
    assert(high == v as int / 0x1_0000_0000) by (bit_vector)
        requires
            high == (v >> 32) as i32,
    ;
    assert(low == (if v as int % 0x1_0000_0000 < 0x8000_0000 {
        v as int % 0x1_0000_0000
    } else {
        v as int % 0x1_0000_0000 - 0x1_0000_0000
    })) by (bit_vector)
        requires
            low == v as i32,
    ;
    (high, low)
}

/// Joins an upper and a lower half into a 64-bit value.
pub fn join_i64(high: i32, low: i32) -> (v: i64)
    ensures
        v == join_halves(high, low),
{
    let unsigned_low: u32 = #[verifier::truncate]
    (low as u32);
    let v: i64 = ((high as i64) << 32) | (unsigned_low as i64);
    assert(v == high * 0x1_0000_0000 + (if low < 0 {
        low + 0x1_0000_0000
    } else {
        low as int
    })) by (bit_vector)
        requires
            v == ((high as i64) << 32) | ((low as u32) as i64),
            unsigned_low == low as u32,
    ;
    v
}

/// Each signed value is the signed reading of its own bit pattern, and each
/// bit pattern is the pattern of its signed reading.
pub proof fn lemma_patterns(v32: i32, x32: u32, v64: i64, x64: u64)
    ensures
        signed32(pattern32(v32)) == v32,
        pattern32(signed32(x32)) == x32,
        signed64(pattern64(v64)) == v64,
        pattern64(signed64(x64)) == x64,
{
}

/// Splitting a 64-bit value and joining the halves gives the value back,
/// and joining two halves and splitting the result gives the halves back.
pub proof fn lemma_halves(v: i64, high: i32, low: i32)
    ensures
        join_halves(high_half(v), low_half(v)) == v,
        high_half(join_halves(high, low)) == high,
        low_half(join_halves(high, low)) == low,
{
}

} // verus!
