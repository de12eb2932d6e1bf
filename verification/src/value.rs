//! The typed value decoder.
//!
//! A variable decodes from a row according to its descriptor: the type tag
//! fixes the element width (1/1/4/4/4/8 bytes), the element count the
//! arity, and the offset the position within the row.  Every decode is
//! bounds-checked and returns absent rather than failing: a mismatched
//! type tag, an out-of-range element index or a row too short for the
//! descriptor all yield `None`.  The two floating-point widths are carried
//! as raw IEEE 754 bits; interpreting them as numbers is the caller's
//! concern.

use vstd::prelude::*;
use crate::raw_bytes::{le_i32_at, le_u32_at, le_u64_at, u32_le_bytes, u32_of_i32, lemma_le_u32_round_trip};
use crate::schema::{VarHeader, VarType};

verus! {

broadcast use vstd::slice::axiom_spec_len;

/// A type a variable can decode to.
pub trait VarData: Sized {
    /// What parsing the given bytes as the given type yields; the bytes
    /// run from the requested element to the end of the variable, so only
    /// their prefix of one element width is read.
    spec fn spec_parse(var_type: VarType, data: Seq<u8>) -> Option<Self>;

    /// Parse a value of this type from the start of `data`.
    fn parse(var_type: VarType, data: &[u8]) -> (r: Option<Self>)
        ensures
            r == Self::spec_parse(var_type, data@),
    ;
}

/// What decoding `entry` of a variable from a row yields: absent when the
/// index is out of range or the row cannot hold every element the
/// descriptor claims; otherwise the typed parse of the bytes from the
/// requested element to the end of the variable's elements.
pub open spec fn spec_parse_from_raw<T: VarData>(entry: int, h: VarHeader, data: Seq<u8>) -> Option<
    T,
> {
    let size = h.var_type.spec_byte_count();
    let start = h.offset + entry * size;
    let end = h.offset + h.count * size;
    if entry >= h.count {
        None
    } else if end <= data.len() {
        T::spec_parse(h.var_type, data.subrange(start, end))
    } else {
        None
    }
}

/// Decode element `entry` of the variable `header` from a row.
pub fn parse_from_raw<T: VarData>(entry: usize, header: &VarHeader, data: &[u8]) -> (r: Option<T>)
    ensures
        r == spec_parse_from_raw::<T>(entry as int, *header, data@),
{
    if entry >= header.count {
        return None;
    }
    let size = header.var_type.byte_count();
    let total = match header.count.checked_mul(size) {
        Some(v) => v,
        None => {
            proof {
                assert(data@.len() == vstd::slice::spec_slice_len(data));
            }
            return None;
        },
    };
    let end = match header.offset.checked_add(total) {
        Some(v) => v,
        None => {
            proof {
                assert(data@.len() == vstd::slice::spec_slice_len(data));
            }
            return None;
        },
    };
    if end > data.len() {
        return None;
    }
    proof {
        assert(entry * header.var_type.spec_byte_count() <= header.count
            * header.var_type.spec_byte_count()) by (nonlinear_arith)
            requires
                entry <= header.count,
                header.var_type.spec_byte_count() >= 0,
        ;
    }
    let start = header.offset + entry * size;
    T::parse(header.var_type, vstd::slice::slice_subrange(data, start, end))
}

impl VarData for u8 {
    /// A character or boolean byte, read as-is.
    open spec fn spec_parse(var_type: VarType, data: Seq<u8>) -> Option<u8> {
        match var_type {
            VarType::Char | VarType::Bool => if data.len() >= 1 {
                Some(data[0])
            } else {
                None
            },
            _ => None,
        }
    }

    fn parse(var_type: VarType, data: &[u8]) -> (r: Option<u8>)
        ensures
            r == Self::spec_parse(var_type, data@),
    {
        match var_type {
            VarType::Char | VarType::Bool => if data.len() >= 1 {
                Some(crate::raw_bytes::read_u8_at(data, 0))
            } else {
                None
            },
            _ => None,
        }
    }
}

impl VarData for bool {
    /// A character or boolean byte; any non-zero byte is true.
    open spec fn spec_parse(var_type: VarType, data: Seq<u8>) -> Option<bool> {
        match var_type {
            VarType::Char | VarType::Bool => if data.len() >= 1 {
                Some(data[0] != 0)
            } else {
                None
            },
            _ => None,
        }
    }

    fn parse(var_type: VarType, data: &[u8]) -> (r: Option<bool>)
        ensures
            r == Self::spec_parse(var_type, data@),
    {
        match var_type {
            VarType::Char | VarType::Bool => if data.len() >= 1 {
                Some(crate::raw_bytes::read_u8_at(data, 0) != 0)
            } else {
                None
            },
            _ => None,
        }
    }
}

impl VarData for i32 {
    /// A signed 32-bit value; a character byte widens by zero-extension.
    open spec fn spec_parse(var_type: VarType, data: Seq<u8>) -> Option<i32> {
        match var_type {
            VarType::Char => if data.len() >= 1 {
                Some(data[0] as i32)
            } else {
                None
            },
            VarType::Int => if data.len() >= 4 {
                Some(le_i32_at(data, 0) as i32)
            } else {
                None
            },
            _ => None,
        }
    }

    fn parse(var_type: VarType, data: &[u8]) -> (r: Option<i32>)
        ensures
            r == Self::spec_parse(var_type, data@),
    {
        match var_type {
            VarType::Char => if data.len() >= 1 {
                Some(crate::raw_bytes::read_u8_at(data, 0) as i32)
            } else {
                None
            },
            VarType::Int => if data.len() >= 4 {
                Some(crate::raw_bytes::read_i32_le(data, 0))
            } else {
                None
            },
            _ => None,
        }
    }
}

impl VarData for u32 {
    /// A 32-bit bit field.
    open spec fn spec_parse(var_type: VarType, data: Seq<u8>) -> Option<u32> {
        match var_type {
            VarType::BitField => if data.len() >= 4 {
                Some(le_u32_at(data, 0) as u32)
            } else {
                None
            },
            _ => None,
        }
    }

    fn parse(var_type: VarType, data: &[u8]) -> (r: Option<u32>)
        ensures
            r == Self::spec_parse(var_type, data@),
    {
        match var_type {
            VarType::BitField => if data.len() >= 4 {
                Some(crate::raw_bytes::read_u32_le(data, 0))
            } else {
                None
            },
            _ => None,
        }
    }
}

/// The raw bits of a 32-bit IEEE 754 value.
#[derive(Clone, Copy, Debug, PartialEq, Eq, Structural)]
pub struct Float32Bits(pub u32);

impl VarData for Float32Bits {
    /// A 32-bit float, carried as its bits.
    open spec fn spec_parse(var_type: VarType, data: Seq<u8>) -> Option<Float32Bits> {
        match var_type {
            VarType::Float => if data.len() >= 4 {
                Some(Float32Bits(le_u32_at(data, 0) as u32))
            } else {
                None
            },
            _ => None,
        }
    }

    fn parse(var_type: VarType, data: &[u8]) -> (r: Option<Float32Bits>)
        ensures
            r == Self::spec_parse(var_type, data@),
    {
        match var_type {
            VarType::Float => if data.len() >= 4 {
                Some(Float32Bits(crate::raw_bytes::read_u32_le(data, 0)))
            } else {
                None
            },
            _ => None,
        }
    }
}

/// The raw bits of a 64-bit IEEE 754 value.
#[derive(Clone, Copy, Debug, PartialEq, Eq, Structural)]
pub struct Float64Bits(pub u64);

/// A subnormal single's fraction shifted up until its leading bit is in
/// place, with the exponent lowered in step.
pub open spec fn spec_normalize_single(frac: u64, e: int) -> (u64, int)
    recommends
        1 <= frac < 0x80_0000,
    decreases 0x100_0000 - frac,
{
    if frac <= 0 {
        (frac, e)
    } else if frac >= 0x80_0000 {
        (frac, e)
    } else {
        spec_normalize_single((frac * 2) as u64, e - 1)
    }
}

/// The double with the same value as the given single, by bits: the
/// exponent is re-biased and the fraction shifted up; a subnormal single
/// is normalized; an infinity or NaN keeps its class and payload; a zero
/// keeps its sign.
pub open spec fn spec_widen_f32_bits(b: u32) -> u64 {
    let sign = (b / 0x8000_0000) as u64;
    let exp = ((b / 0x80_0000) % 0x100) as u64;
    let frac = (b % 0x80_0000) as u64;
    if exp == 0xFF {
        (sign * 0x8000_0000_0000_0000 + 0x7FF0_0000_0000_0000 + frac * 0x2000_0000) as u64
    } else if exp == 0 {
        if frac == 0 {
            (sign * 0x8000_0000_0000_0000) as u64
        } else {
            let (norm, e) = spec_normalize_single(frac, -126);
            (sign * 0x8000_0000_0000_0000 + (e + 1023) * 0x10_0000_0000_0000 + (norm - 0x80_0000)
                * 0x2000_0000) as u64
        }
    } else {
        (sign * 0x8000_0000_0000_0000 + (exp + 0x380) * 0x10_0000_0000_0000 + frac
            * 0x2000_0000) as u64
    }
}

impl VarData for Float64Bits {
    /// A 64-bit float, carried as its bits; a 32-bit float widens to the
    /// double of the same value.
    open spec fn spec_parse(var_type: VarType, data: Seq<u8>) -> Option<Float64Bits> {
        match var_type {
            VarType::Float => if data.len() >= 4 {
                Some(Float64Bits(spec_widen_f32_bits(le_u32_at(data, 0) as u32)))
            } else {
                None
            },
            VarType::Double => if data.len() >= 8 {
                Some(Float64Bits(le_u64_at(data, 0) as u64))
            } else {
                None
            },
            _ => None,
        }
    }

    fn parse(var_type: VarType, data: &[u8]) -> (r: Option<Float64Bits>)
        ensures
            r == Self::spec_parse(var_type, data@),
    {
        match var_type {
            VarType::Float => if data.len() >= 4 {
                Some(Float64Bits(widen_f32_bits(crate::raw_bytes::read_u32_le(data, 0))))
            } else {
                None
            },
            VarType::Double => if data.len() >= 8 {
                Some(Float64Bits(crate::raw_bytes::read_u64_le(data, 0)))
            } else {
                None
            },
            _ => None,
        }
    }
}

/// Widen single bits to double bits, preserving the value.
pub fn widen_f32_bits(b: u32) -> (r: u64)
    ensures
        r == spec_widen_f32_bits(b),
{
    let sign = (b / 0x8000_0000) as u64;
    let exp = ((b / 0x80_0000) % 0x100) as u64;
    let frac = (b % 0x80_0000) as u64;
    if exp == 0xFF {
        sign * 0x8000_0000_0000_0000 + 0x7FF0_0000_0000_0000 + frac * 0x2000_0000
    } else if exp == 0 {
        if frac == 0 {
            sign * 0x8000_0000_0000_0000
        } else {
            let mut norm = frac;
            let mut e: i64 = -126;
            proof {
                vstd::arithmetic::power2::lemma2_to64();
            }
            while norm < 0x80_0000
                invariant
                    1 <= norm < 0x100_0000,
                    -149 <= e <= -126,
                    norm >= vstd::arithmetic::power2::pow2((-126 - e) as nat),
                    spec_normalize_single(frac, -126) == spec_normalize_single(norm, e as int),
                decreases 0x100_0000 - norm,
            {
                proof {
                    vstd::arithmetic::power2::lemma2_to64();
                    if e == -149 {
                        assert(norm >= vstd::arithmetic::power2::pow2(23));
                        assert(false);
                    }
                    vstd::arithmetic::power2::lemma_pow2_unfold((-126 - (e - 1)) as nat);
                }
                norm = norm * 2;
                e = e - 1;
            }
            let ghost pair = spec_normalize_single(frac, -126);
            proof {
                assert(pair == (norm, e as int));
            }
            sign * 0x8000_0000_0000_0000 + ((e + 1023) as u64) * 0x10_0000_0000_0000 + (norm
                - 0x80_0000) * 0x2000_0000
        }
    } else {
        sign * 0x8000_0000_0000_0000 + (exp + 0x380) * 0x10_0000_0000_0000 + frac * 0x2000_0000
    }
}

/// A decoded value tagged with its source type, for reading a variable
/// without knowing its type ahead of time.  The two float variants carry
/// raw IEEE 754 bits.
#[derive(Clone, Copy, Debug, PartialEq, Eq, Structural)]
pub enum Value {
    Char(u8),
    Bool(bool),
    Int(i32),
    BitField(u32),
    Float(u32),
    Double(u64),
}

impl VarData for Value {
    /// The generic decode succeeds for every type tag, given enough bytes.
    open spec fn spec_parse(var_type: VarType, data: Seq<u8>) -> Option<Value> {
        match var_type {
            VarType::Char => if data.len() >= 1 {
                Some(Value::Char(data[0]))
            } else {
                None
            },
            VarType::Bool => if data.len() >= 1 {
                Some(Value::Bool(data[0] != 0))
            } else {
                None
            },
            VarType::Int => if data.len() >= 4 {
                Some(Value::Int(le_i32_at(data, 0) as i32))
            } else {
                None
            },
            VarType::BitField => if data.len() >= 4 {
                Some(Value::BitField(le_u32_at(data, 0) as u32))
            } else {
                None
            },
            VarType::Float => if data.len() >= 4 {
                Some(Value::Float(le_u32_at(data, 0) as u32))
            } else {
                None
            },
            VarType::Double => if data.len() >= 8 {
                Some(Value::Double(le_u64_at(data, 0) as u64))
            } else {
                None
            },
        }
    }

    fn parse(var_type: VarType, data: &[u8]) -> (r: Option<Value>)
        ensures
            r == Self::spec_parse(var_type, data@),
    {
        match var_type {
            VarType::Char => match u8::parse(var_type, data) {
                Some(v) => Some(Value::Char(v)),
                None => None,
            },
            VarType::Bool => match bool::parse(var_type, data) {
                Some(v) => Some(Value::Bool(v)),
                None => None,
            },
            VarType::Int => match i32::parse(var_type, data) {
                Some(v) => Some(Value::Int(v)),
                None => None,
            },
            VarType::BitField => match u32::parse(var_type, data) {
                Some(v) => Some(Value::BitField(v)),
                None => None,
            },
            VarType::Float => match Float32Bits::parse(var_type, data) {
                Some(v) => Some(Value::Float(v.0)),
                None => None,
            },
            VarType::Double => if data.len() >= 8 {
                Some(Value::Double(crate::raw_bytes::read_u64_le(data, 0)))
            } else {
                None
            },
        }
    }
}

/// The values that the chunks of `data`, one element width each, parse to;
/// chunks that do not parse are skipped, and a short final chunk is kept.
pub open spec fn spec_parse_chunks<T: VarData>(vt: VarType, data: Seq<u8>) -> Seq<T>
    decreases data.len(),
{
    let size = vt.spec_byte_count();
    if data.len() == 0 {
        Seq::empty()
    } else if data.len() < size {
        match T::spec_parse(vt, data) {
            Some(v) => seq![v],
            None => Seq::empty(),
        }
    } else {
        match T::spec_parse(vt, data.take(size as int)) {
            Some(v) => seq![v] + spec_parse_chunks(vt, data.skip(size as int)),
            None => spec_parse_chunks(vt, data.skip(size as int)),
        }
    }
}

/// Decode every element of the variable `header` from a row into an owned
/// vector; absent when the row cannot hold the declared elements.
pub fn parse_all<T: VarData>(header: &VarHeader, data: &[u8]) -> (r: Option<Vec<T>>)
    ensures
        ({
            let size = header.var_type.spec_byte_count();
            let end = header.offset + header.count * size;
            match r {
                Some(v) => end <= data.len() && v@ == spec_parse_chunks::<T>(
                    header.var_type,
                    data@.subrange(header.offset as int, end),
                ),
                None => end > data.len(),
            }
        }),
{
    let size = header.var_type.byte_count();
    let total = match header.count.checked_mul(size) {
        Some(v) => v,
        None => {
            proof {
                assert(data@.len() == vstd::slice::spec_slice_len(data));
            }
            return None;
        },
    };
    let end = match header.offset.checked_add(total) {
        Some(v) => v,
        None => {
            proof {
                assert(data@.len() == vstd::slice::spec_slice_len(data));
            }
            return None;
        },
    };
    if end > data.len() {
        return None;
    }
    let seg = vstd::slice::slice_subrange(data, header.offset, end);
    let n = seg.len();
    let mut out: Vec<T> = Vec::new();
    let mut pos: usize = 0;
    proof {
        assert(seg@.skip(0) =~= seg@);
    }
    while n - pos >= size
        invariant
            pos <= n,
            n == seg@.len(),
            size == header.var_type.spec_byte_count(),
            spec_parse_chunks::<T>(header.var_type, seg@) == out@ + spec_parse_chunks::<T>(
                header.var_type,
                seg@.skip(pos as int),
            ),
        decreases n - pos,
    {
        let chunk = vstd::slice::slice_subrange(seg, pos, pos + size);
        match T::parse(header.var_type, chunk) {
            Some(v) => {
                out.push(v);
            },
            None => {},
        }
        proof {
            let tail = seg@.skip(pos as int);
            assert(tail.len() >= size);
            assert(tail.take(size as int) =~= chunk@);
            assert(tail.skip(size as int) =~= seg@.skip(pos + size));
            assert(out@ + spec_parse_chunks::<T>(header.var_type, seg@.skip(pos + size))
                =~= spec_parse_chunks::<T>(header.var_type, seg@));
        }
        pos = pos + size;
    }
    if pos < n {
        let chunk = vstd::slice::slice_subrange(seg, pos, n);
        match T::parse(header.var_type, chunk) {
            Some(v) => {
                out.push(v);
            },
            None => {},
        }
        proof {
            let tail = seg@.skip(pos as int);
            assert(tail =~= chunk@);
            assert(out@ =~= spec_parse_chunks::<T>(header.var_type, seg@));
        }
    } else {
        proof {
            assert(seg@.skip(pos as int) =~= Seq::<u8>::empty());
            assert(out@ =~= spec_parse_chunks::<T>(header.var_type, seg@));
        }
    }
    Some(out)
}

/// An element index at or past the declared count decodes to absent, for
/// every decode type.
pub proof fn lemma_decode_out_of_range<T: VarData>(entry: int, h: VarHeader, data: Seq<u8>)
    requires
        entry >= h.count,
    ensures
        spec_parse_from_raw::<T>(entry, h, data) is None,
{
}

/// The bytes of the element `entry` of variable `h` within a row.
pub open spec fn element_range(h: VarHeader, row: Seq<u8>, entry: int) -> Seq<u8> {
    let size = h.var_type.spec_byte_count();
    row.subrange(h.offset + entry * size, h.offset + entry * size + size)
}

/// Whether a row can hold every element the descriptor claims.
pub open spec fn row_holds(h: VarHeader, row: Seq<u8>) -> bool {
    h.offset + h.count * h.var_type.spec_byte_count() <= row.len()
}

proof fn lemma_element_prefix(h: VarHeader, row: Seq<u8>, entry: int)
    requires
        0 <= entry < h.count,
        row_holds(h, row),
    ensures
        ({
            let size = h.var_type.spec_byte_count();
            let seg = row.subrange(h.offset + entry * size, h.offset + h.count * size);
            seg.len() >= size && forall|i: int|
                0 <= i < size ==> seg[i] == element_range(h, row, entry)[i]
        }),
{
    let size = h.var_type.spec_byte_count();
    assert((h.count - entry) * size >= 1 * size) by (nonlinear_arith)
        requires
            h.count - entry >= 1,
            size >= 0,
    ;
}

/// A signed 32-bit value written little-endian at its slot decodes back to
/// itself.
pub proof fn lemma_decode_int_round_trip(h: VarHeader, row: Seq<u8>, entry: int, v: i32)
    requires
        h.var_type == VarType::Int,
        0 <= entry < h.count,
        row_holds(h, row),
        element_range(h, row, entry) == u32_le_bytes(u32_of_i32(v as int)),
    ensures
        spec_parse_from_raw::<i32>(entry, h, row) == Some(v),
{
    let start = h.offset + entry * 4;
    let end = h.offset + h.count * 4;
    let seg = row.subrange(start, end);
    lemma_element_prefix(h, row, entry);
    lemma_le_u32_round_trip(u32_of_i32(v as int));
    assert(le_u32_at(seg, 0) == le_u32_at(u32_le_bytes(u32_of_i32(v as int)), 0));
    crate::raw_bytes::lemma_signed_32_round_trip(v as int);
}

/// A byte written at its slot decodes back to itself, as a character.
pub proof fn lemma_decode_char_round_trip(h: VarHeader, row: Seq<u8>, entry: int, v: u8)
    requires
        h.var_type == VarType::Char,
        0 <= entry < h.count,
        row_holds(h, row),
        element_range(h, row, entry) == seq![v],
    ensures
        spec_parse_from_raw::<u8>(entry, h, row) == Some(v),
{
    lemma_element_prefix(h, row, entry);
}

/// A boolean written at its slot decodes back to itself; it is stored as
/// one byte, zero for false.
pub proof fn lemma_decode_bool_round_trip(h: VarHeader, row: Seq<u8>, entry: int, v: bool)
    requires
        h.var_type == VarType::Bool,
        0 <= entry < h.count,
        row_holds(h, row),
        element_range(h, row, entry) == seq![if v { 1u8 } else { 0u8 }],
    ensures
        spec_parse_from_raw::<bool>(entry, h, row) == Some(v),
{
    lemma_element_prefix(h, row, entry);
}

/// A bit field written little-endian at its slot decodes back to itself.
pub proof fn lemma_decode_bit_field_round_trip(h: VarHeader, row: Seq<u8>, entry: int, v: u32)
    requires
        h.var_type == VarType::BitField,
        0 <= entry < h.count,
        row_holds(h, row),
        element_range(h, row, entry) == u32_le_bytes(v as int),
    ensures
        spec_parse_from_raw::<u32>(entry, h, row) == Some(v),
{
    let start = h.offset + entry * 4;
    let end = h.offset + h.count * 4;
    let seg = row.subrange(start, end);
    lemma_element_prefix(h, row, entry);
    lemma_le_u32_round_trip(v as int);
    assert(le_u32_at(seg, 0) == le_u32_at(u32_le_bytes(v as int), 0));
}

/// 32-bit float bits written little-endian at their slot decode back to
/// themselves.
pub proof fn lemma_decode_float_round_trip(h: VarHeader, row: Seq<u8>, entry: int, v: u32)
    requires
        h.var_type == VarType::Float,
        0 <= entry < h.count,
        row_holds(h, row),
        element_range(h, row, entry) == u32_le_bytes(v as int),
    ensures
        spec_parse_from_raw::<Float32Bits>(entry, h, row) == Some(Float32Bits(v)),
{
    let start = h.offset + entry * 4;
    let end = h.offset + h.count * 4;
    let seg = row.subrange(start, end);
    lemma_element_prefix(h, row, entry);
    lemma_le_u32_round_trip(v as int);
    assert(le_u32_at(seg, 0) == le_u32_at(u32_le_bytes(v as int), 0));
}

/// 64-bit float bits written little-endian at their slot decode back to
/// themselves.
pub proof fn lemma_decode_double_round_trip(h: VarHeader, row: Seq<u8>, entry: int, v: u64)
    requires
        h.var_type == VarType::Double,
        0 <= entry < h.count,
        row_holds(h, row),
        element_range(h, row, entry) == crate::raw_bytes::u64_le_bytes(v as int),
    ensures
        spec_parse_from_raw::<Float64Bits>(entry, h, row) == Some(Float64Bits(v)),
{
    let start = h.offset + entry * 8;
    let end = h.offset + h.count * 8;
    let seg = row.subrange(start, end);
    lemma_element_prefix(h, row, entry);
    crate::raw_bytes::lemma_le_u64_round_trip(v as int);
    assert(le_u32_at(seg, 0) == le_u32_at(crate::raw_bytes::u64_le_bytes(v as int), 0));
    assert(le_u32_at(seg, 4) == le_u32_at(crate::raw_bytes::u64_le_bytes(v as int), 4));
}

/// The generic tagged decode succeeds for every type tag whenever the
/// element index is in range and the row holds the declared elements.
pub proof fn lemma_generic_decode_succeeds(h: VarHeader, row: Seq<u8>, entry: int)
    requires
        0 <= entry < h.count,
        row_holds(h, row),
    ensures
        spec_parse_from_raw::<Value>(entry, h, row) is Some,
{
    lemma_element_prefix(h, row, entry);
}

} // verus!
