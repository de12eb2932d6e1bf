//! Little-endian readers over raw byte slices.
//!
//! Every multi-byte quantity in the shared region and in capture files is
//! stored little-endian and tightly packed, so the whole wire layer reduces
//! to the spec functions and checked readers below.

use vstd::prelude::*;

verus! {

broadcast use vstd::slice::axiom_spec_len;

/// Little-endian unsigned 16-bit value stored at `off`.
pub open spec fn le_u16_at(s: Seq<u8>, off: int) -> int {
    s[off] + s[off + 1] * 0x100
}

/// Little-endian unsigned 32-bit value stored at `off`.
pub open spec fn le_u32_at(s: Seq<u8>, off: int) -> int {
    s[off] + s[off + 1] * 0x100 + s[off + 2] * 0x1_0000 + s[off + 3] * 0x100_0000
}

/// Little-endian unsigned 64-bit value stored at `off`.
pub open spec fn le_u64_at(s: Seq<u8>, off: int) -> int {
    le_u32_at(s, off) + le_u32_at(s, off + 4) * 0x1_0000_0000
}

/// Two's-complement reading of an unsigned 32-bit value.
pub open spec fn as_signed_32(v: int) -> int {
    if v < 0x8000_0000 {
        v
    } else {
        v - 0x1_0000_0000
    }
}

/// Two's-complement reading of an unsigned 64-bit value.
pub open spec fn as_signed_64(v: int) -> int {
    if v < 0x8000_0000_0000_0000 {
        v
    } else {
        v - 0x1_0000_0000_0000_0000
    }
}

/// Little-endian signed 32-bit value stored at `off`.
pub open spec fn le_i32_at(s: Seq<u8>, off: int) -> int {
    as_signed_32(le_u32_at(s, off))
}

/// Little-endian signed 64-bit value stored at `off`.
pub open spec fn le_i64_at(s: Seq<u8>, off: int) -> int {
    as_signed_64(le_u64_at(s, off))
}

/// The four little-endian bytes of an unsigned 32-bit value.
pub open spec fn u32_le_bytes(v: int) -> Seq<u8> {
    seq![
        (v % 0x100) as u8,
        ((v / 0x100) % 0x100) as u8,
        ((v / 0x1_0000) % 0x100) as u8,
        ((v / 0x100_0000) % 0x100) as u8,
    ]
}

/// The eight little-endian bytes of an unsigned 64-bit value.
pub open spec fn u64_le_bytes(v: int) -> Seq<u8> {
    u32_le_bytes(v % 0x1_0000_0000) + u32_le_bytes(v / 0x1_0000_0000)
}

/// The unsigned 32-bit word that a signed 32-bit value is stored as.
pub open spec fn u32_of_i32(v: int) -> int {
    if v >= 0 {
        v
    } else {
        v + 0x1_0000_0000
    }
}

/// Writing an unsigned 32-bit value little-endian and reading it back
/// yields the value.
pub proof fn lemma_le_u32_round_trip(v: int)
    requires
        0 <= v < 0x1_0000_0000,
    ensures
        le_u32_at(u32_le_bytes(v), 0) == v,
{
    let s = u32_le_bytes(v);
    assert(s[0] + s[1] * 0x100 + s[2] * 0x1_0000 + s[3] * 0x100_0000 == v) by (nonlinear_arith)
        requires
            0 <= v < 0x1_0000_0000,
            s[0] == v % 0x100,
            s[1] == (v / 0x100) % 0x100,
            s[2] == (v / 0x1_0000) % 0x100,
            s[3] == (v / 0x100_0000) % 0x100,
    ;
}

/// Writing an unsigned 64-bit value little-endian and reading it back
/// yields the value.
pub proof fn lemma_le_u64_round_trip(v: int)
    requires
        0 <= v < 0x1_0000_0000_0000_0000,
    ensures
        le_u64_at(u64_le_bytes(v), 0) == v,
{
    let lo = v % 0x1_0000_0000;
    let hi = v / 0x1_0000_0000;
    assert(0 <= lo < 0x1_0000_0000);
    assert(0 <= hi < 0x1_0000_0000) by (nonlinear_arith)
        requires
            0 <= v < 0x1_0000_0000_0000_0000,
            hi == v / 0x1_0000_0000,
    ;
    lemma_le_u32_round_trip(lo);
    lemma_le_u32_round_trip(hi);
    let s = u64_le_bytes(v);
    assert(s.subrange(0, 4) =~= u32_le_bytes(lo));
    assert(s.subrange(4, 8) =~= u32_le_bytes(hi));
    assert(le_u32_at(s, 0) == le_u32_at(u32_le_bytes(lo), 0));
    assert(le_u32_at(s, 4) == le_u32_at(u32_le_bytes(hi), 0));
    assert(lo + hi * 0x1_0000_0000 == v) by (nonlinear_arith)
        requires
            lo == v % 0x1_0000_0000,
            hi == v / 0x1_0000_0000,
            v >= 0,
    ;
}

/// Reading a signed 32-bit value back from the word it is stored as
/// yields the value.
pub proof fn lemma_signed_32_round_trip(v: int)
    requires
        -0x8000_0000 <= v < 0x8000_0000,
    ensures
        as_signed_32(u32_of_i32(v)) == v,
{
}

pub fn read_u8_at(data: &[u8], off: usize) -> (r: u8)
    requires
        off < data.len(),
    ensures
        r == data@[off as int],
{
    data[off]
}

pub fn read_u16_le(data: &[u8], off: usize) -> (r: u16)
    requires
        off + 2 <= data.len(),
    ensures
        r == le_u16_at(data@, off as int),
{
    let b0 = data[off] as u16;
    let b1 = data[off + 1] as u16;
    b0 + b1 * 0x100
}

pub fn read_u32_le(data: &[u8], off: usize) -> (r: u32)
    requires
        off + 4 <= data.len(),
    ensures
        r == le_u32_at(data@, off as int),
{
    let b0 = data[off] as u32;
    let b1 = data[off + 1] as u32;
    let b2 = data[off + 2] as u32;
    let b3 = data[off + 3] as u32;
    b0 + b1 * 0x100 + b2 * 0x1_0000 + b3 * 0x100_0000
}

pub fn read_u64_le(data: &[u8], off: usize) -> (r: u64)
    requires
        off + 8 <= data.len(),
    ensures
        r == le_u64_at(data@, off as int),
{
    let lo = read_u32_le(data, off) as u64;
    let hi = read_u32_le(data, off + 4) as u64;
    lo + hi * 0x1_0000_0000
}

pub fn read_i32_le(data: &[u8], off: usize) -> (r: i32)
    requires
        off + 4 <= data.len(),
    ensures
        r == le_i32_at(data@, off as int),
{
    let u = read_u32_le(data, off);
    let wide = u as i64;
    if wide >= 0x8000_0000 {
        (wide - 0x1_0000_0000) as i32
    } else {
        wide as i32
    }
}

pub fn read_i64_le(data: &[u8], off: usize) -> (r: i64)
    requires
        off + 8 <= data.len(),
    ensures
        r == le_i64_at(data@, off as int),
{
    let lo = read_u32_le(data, off) as i64;
    let hi = read_i32_le(data, off + 4) as i64;
    hi * 0x1_0000_0000 + lo
}

} // verus!
