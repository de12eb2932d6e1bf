//! The runtime-discovered variable table.
//!
//! The region publishes `num_vars` fixed-size descriptor records, each
//! giving a variable's type tag, row offset, element count and fixed-width
//! text fields.  The table is rebuilt from scratch whenever the row length
//! changes, because offsets are only valid for one schema generation.

use vstd::prelude::*;
use crate::codepage::{cp1252_decode, cp1252_to_string};
use crate::error::TelemetryError;
use crate::raw_bytes::le_i32_at;

verus! {

broadcast use vstd::slice::axiom_spec_len;

/// Number of bytes of one variable descriptor record.
pub const VAR_RECORD_BYTES: usize = 144;

/// Byte width of the fixed name and unit fields.
pub const MAX_STRING: usize = 32;

/// Byte width of the fixed description field.
pub const MAX_DESC: usize = 64;

/// Type tag of a telemetry variable.
#[derive(Clone, Copy, Debug, PartialEq, Eq, Structural)]
pub enum VarType {
    /// One byte, a character.
    Char,
    /// One byte, zero means false.
    Bool,
    /// Four bytes, signed.
    Int,
    /// Four bytes, a bit field.
    BitField,
    /// Four bytes, IEEE 754 single bits.
    Float,
    /// Eight bytes, IEEE 754 double bits.
    Double,
}

/// The type a raw tag stands for, if any.
pub open spec fn var_type_of(raw: int) -> Option<VarType> {
    if raw == 0 {
        Some(VarType::Char)
    } else if raw == 1 {
        Some(VarType::Bool)
    } else if raw == 2 {
        Some(VarType::Int)
    } else if raw == 3 {
        Some(VarType::BitField)
    } else if raw == 4 {
        Some(VarType::Float)
    } else if raw == 5 {
        Some(VarType::Double)
    } else {
        None
    }
}

impl VarType {
    /// Bytes one element of the given type occupies in a row.
    pub open spec fn spec_byte_count(self) -> usize {
        match self {
            VarType::Char => 1,
            VarType::Bool => 1,
            VarType::Int => 4,
            VarType::BitField => 4,
            VarType::Float => 4,
            VarType::Double => 8,
        }
    }

    /// The type a raw tag stands for; unknown tags are rejected.
    pub fn from_raw(raw: i32) -> (r: Result<VarType, TelemetryError>)
        ensures
            r == match var_type_of(raw as int) {
                Some(t) => Result::<VarType, TelemetryError>::Ok(t),
                None => Result::<VarType, TelemetryError>::Err(
                    TelemetryError::InvalidVarType { raw },
                ),
            },
    {
        match raw {
            0 => Ok(VarType::Char),
            1 => Ok(VarType::Bool),
            2 => Ok(VarType::Int),
            3 => Ok(VarType::BitField),
            4 => Ok(VarType::Float),
            5 => Ok(VarType::Double),
            _ => Err(TelemetryError::InvalidVarType { raw }),
        }
    }

    /// Bytes one element of this type occupies in a row.
    #[verifier::when_used_as_spec(spec_byte_count)]
    pub fn byte_count(self) -> (r: usize)
        ensures
            r == self.spec_byte_count(),
    {
        match self {
            VarType::Char => 1,
            VarType::Bool => 1,
            VarType::Int => 4,
            VarType::BitField => 4,
            VarType::Float => 4,
            VarType::Double => 8,
        }
    }
}

/// One parsed variable descriptor.
#[derive(Debug)]
pub struct VarHeader {
    /// Type tag of each element.
    pub var_type: VarType,
    /// Byte offset of the first element within a row.
    pub offset: usize,
    /// Number of elements.
    pub count: usize,
    /// Whether the element count stands for a unit of time.
    pub count_as_time: bool,
    /// Unique name, the lookup key.
    pub name: String,
    /// Free-text description.
    pub desc: String,
    /// Unit text, such as "kg/m^2".
    pub unit: String,
}

/// Whether a raw descriptor record is well-formed: known type tag and
/// non-negative offset and count.
pub open spec fn record_ok(s: Seq<u8>) -> bool {
    &&& var_type_of(le_i32_at(s, 0)) is Some
    &&& le_i32_at(s, 4) >= 0
    &&& le_i32_at(s, 8) >= 0
}

/// Field-by-field relation between a parsed descriptor and the raw record
/// it was read from.
pub open spec fn var_header_matches(h: VarHeader, s: Seq<u8>) -> bool {
    &&& var_type_of(le_i32_at(s, 0)) == Some(h.var_type)
    &&& h.offset == le_i32_at(s, 4)
    &&& h.count == le_i32_at(s, 8)
    &&& h.count_as_time == (s[12] != 0)
    &&& h.name@ == cp1252_decode(s.subrange(16, 48))
    &&& h.desc@ == cp1252_decode(s.subrange(48, 112))
    &&& h.unit@ == cp1252_decode(s.subrange(112, 144))
}

impl VarHeader {
    /// Parse one descriptor record.  Rejected records carry an unknown type
    /// tag or a negative offset or count; the caller skips them.
    pub fn from_raw(raw: &[u8]) -> (r: Result<VarHeader, TelemetryError>)
        requires
            raw.len() >= VAR_RECORD_BYTES,
        ensures
            r is Ok <==> record_ok(raw@),
            r matches Ok(h) ==> var_header_matches(h, raw@),
            r matches Err(e) ==> if var_type_of(le_i32_at(raw@, 0)) is None {
                e == (TelemetryError::InvalidVarType { raw: le_i32_at(raw@, 0) as i32 })
            } else {
                e == TelemetryError::InvalidDescriptor
            },
    {
        let raw_type = crate::raw_bytes::read_i32_le(raw, 0);
        let var_type = VarType::from_raw(raw_type)?;
        let offset = crate::raw_bytes::read_i32_le(raw, 4);
        let count = crate::raw_bytes::read_i32_le(raw, 8);
        if offset < 0 || count < 0 {
            return Err(TelemetryError::InvalidDescriptor);
        }
        let count_as_time = crate::raw_bytes::read_u8_at(raw, 12) != 0;
        let name = cp1252_to_string(vstd::slice::slice_subrange(raw, 16, 48));
        let desc = cp1252_to_string(vstd::slice::slice_subrange(raw, 48, 112));
        let unit = cp1252_to_string(vstd::slice::slice_subrange(raw, 112, 144));
        Ok(
            VarHeader {
                var_type,
                offset: offset as usize,
                count: count as usize,
                count_as_time,
                name,
                desc,
                unit,
            },
        )
    }
}

/// Lookup by name, from the back of the table, so that of two records with
/// the same name the later one wins, as a map built by insertion would
/// behave.
pub open spec fn spec_lookup(entries: Seq<VarHeader>, name: Seq<char>) -> Option<VarHeader>
    decreases entries.len(),
{
    if entries.len() == 0 {
        None
    } else if entries.last().name@ == name {
        Some(entries.last())
    } else {
        spec_lookup(entries.drop_last(), name)
    }
}

/// A lookup finds a descriptor exactly when the table holds the name,
/// and what it finds carries that name.
pub proof fn lemma_lookup_finds_name(entries: Seq<VarHeader>, name: Seq<char>)
    ensures
        spec_lookup(entries, name) is Some <==> exists|i: int|
            0 <= i < entries.len() && entries[i].name@ == name,
        spec_lookup(entries, name) matches Some(h) ==> h.name@ == name,
    decreases entries.len(),
{
    if entries.len() > 0 {
        lemma_lookup_finds_name(entries.drop_last(), name);
        if entries.last().name@ == name {
            assert(entries[entries.len() - 1].name@ == name);
        } else {
            match spec_lookup(entries.drop_last(), name) {
                Some(_) => {
                    let i = choose|i: int|
                        0 <= i < entries.drop_last().len() && entries.drop_last()[i].name@ == name;
                    assert(entries[i].name@ == name);
                },
                None => {
                    assert forall|i: int|
                        0 <= i < entries.len() implies entries[i].name@ != name by {
                        if i < entries.len() - 1 {
                            assert(entries.drop_last()[i] == entries[i]);
                        }
                    }
                },
            }
        }
    }
}

/// Whether `t` is exactly the sequence of well-formed descriptors among the
/// first `n` records of `s`, in order; a final partial record is ignored.
pub open spec fn table_parses_to(s: Seq<u8>, n: int, t: Seq<VarHeader>) -> bool
    decreases n,
{
    if n <= 0 || s.len() < VAR_RECORD_BYTES {
        t.len() == 0
    } else if record_ok(s.take(VAR_RECORD_BYTES as int)) {
        &&& t.len() > 0
        &&& var_header_matches(t.first(), s.take(VAR_RECORD_BYTES as int))
        &&& table_parses_to(s.skip(VAR_RECORD_BYTES as int), n - 1, t.drop_first())
    } else {
        table_parses_to(s.skip(VAR_RECORD_BYTES as int), n - 1, t)
    }
}

/// The name-indexed variable table of one schema generation.
#[derive(Debug)]
pub struct VarTable {
    entries: Vec<VarHeader>,
}

/// The name-indexed lookup structure over variable descriptors.
pub type VarHeaders = VarTable;

impl View for VarTable {
    type V = Seq<VarHeader>;

    closed spec fn view(&self) -> Seq<VarHeader> {
        self.entries@
    }
}

impl VarTable {
    /// An empty table, the state before the first schema is read.
    pub fn new() -> (r: VarTable)
        ensures
            r@ == Seq::<VarHeader>::empty(),
    {
        VarTable { entries: Vec::new() }
    }

    /// Parse `num_vars` descriptor records from the raw table bytes,
    /// keeping the well-formed ones in order.
    pub fn parse(data: &[u8], num_vars: usize) -> (r: VarTable)
        ensures
            table_parses_to(data@, num_vars as int, r@),
    {
        let n = data.len();
        // Number of whole records actually present.
        let mut limit: usize = 0;
        let mut off: usize = 0;
        while n - off >= VAR_RECORD_BYTES && limit < num_vars
            invariant
                off == limit * VAR_RECORD_BYTES,
                off <= n,
                limit <= num_vars,
            decreases n - off,
        {
            limit = limit + 1;
            off = off + VAR_RECORD_BYTES;
        }
        let mut entries: Vec<VarHeader> = Vec::new();
        let mut i: usize = limit;
        proof {
            lemma_table_empty_suffix(data@, num_vars as int, limit as int, off as int);
        }
        while i > 0
            invariant
                i <= limit,
                off == i * VAR_RECORD_BYTES,
                limit * VAR_RECORD_BYTES <= n,
                n == data.len(),
                limit <= num_vars,
                table_parses_to(data@.skip(off as int), num_vars - i, entries@),
            decreases i,
        {
            proof {
                assert(i * VAR_RECORD_BYTES <= limit * VAR_RECORD_BYTES) by (nonlinear_arith)
                    requires
                        i <= limit,
                ;
            }
            i = i - 1;
            let rec_start = off - VAR_RECORD_BYTES;
            let record = vstd::slice::slice_subrange(data, rec_start, off);
            let ghost prev_entries = entries@;
            match VarHeader::from_raw(record) {
                Ok(h) => {
                    entries.insert(0, h);
                    proof {
                        assert(entries@.drop_first() =~= prev_entries);
                    }
                },
                Err(_) => {},
            }
            proof {
                lemma_table_parse_step(
                    data@,
                    num_vars as int,
                    i as int,
                    rec_start as int,
                    prev_entries,
                    entries@,
                );
            }
            off = rec_start;
        }
        proof {
            assert(data@.skip(0) =~= data@);
        }
        VarTable { entries }
    }

    /// All descriptors of this generation, in table order.
    pub fn entries(&self) -> (r: &Vec<VarHeader>)
        ensures
            r@ == self@,
    {
        &self.entries
    }

    /// Number of descriptors in the table.
    pub fn len(&self) -> (r: usize)
        ensures
            r == self@.len(),
    {
        self.entries.len()
    }

    /// Look a descriptor up by name; of two records with the same name the
    /// later one wins.
    pub fn get(&self, name: &str) -> (r: Option<&VarHeader>)
        ensures
            match r {
                Some(h) => spec_lookup(self@, name@) == Some(*h),
                None => spec_lookup(self@, name@) is None,
            },
    {
        let key = String::from_str(name);
        let n = self.entries.len();
        let mut i: usize = n;
        proof {
            assert(self@.take(n as int) =~= self@);
        }
        while i > 0
            invariant
                i <= n,
                n == self@.len(),
                key@ == name@,
                spec_lookup(self@, name@) == spec_lookup(self@.take(i as int), name@),
            decreases i,
        {
            i = i - 1;
            if self.entries[i].name == key {
                proof {
                    assert(self@.take(i + 1).last() == self@[i as int]);
                }
                return Some(&self.entries[i]);
            }
            proof {
                assert(self@.take(i + 1).drop_last() =~= self@.take(i as int));
            }
        }
        proof {
            assert(self@.take(0) =~= Seq::<VarHeader>::empty());
        }
        None
    }
}

/// Past `limit` whole records (or past `num_vars`), nothing more parses.
proof fn lemma_table_empty_suffix(s: Seq<u8>, num_vars: int, limit: int, off: int)
    requires
        0 <= limit <= num_vars,
        off == limit * VAR_RECORD_BYTES,
        off <= s.len(),
        limit == num_vars || s.len() - off < VAR_RECORD_BYTES,
    ensures
        table_parses_to(s.skip(off), num_vars - limit, Seq::<VarHeader>::empty()),
{
    if limit == num_vars {
        assert(table_parses_to(s.skip(off), 0, Seq::<VarHeader>::empty()));
    } else {
        assert(s.skip(off).len() < VAR_RECORD_BYTES);
    }
}

/// One backward step of table parsing: prepending the record at
/// `rec_start` (when well-formed) to a parse of the records after it gives
/// a parse of the records from `rec_start` on.
proof fn lemma_table_parse_step(
    s: Seq<u8>,
    num_vars: int,
    i: int,
    rec_start: int,
    rest: Seq<VarHeader>,
    whole: Seq<VarHeader>,
)
    requires
        0 <= i < num_vars,
        rec_start == i * VAR_RECORD_BYTES,
        rec_start + VAR_RECORD_BYTES <= s.len(),
        table_parses_to(s.skip(rec_start + VAR_RECORD_BYTES), num_vars - i - 1, rest),
        if record_ok(s.subrange(rec_start, rec_start + VAR_RECORD_BYTES)) {
            whole.len() == rest.len() + 1 && whole.drop_first() == rest && var_header_matches(
                whole.first(),
                s.subrange(rec_start, rec_start + VAR_RECORD_BYTES),
            )
        } else {
            whole == rest
        },
    ensures
        table_parses_to(s.skip(rec_start), num_vars - i, whole),
{
    let tail = s.skip(rec_start);
    assert(tail.len() >= VAR_RECORD_BYTES);
    assert(tail.take(VAR_RECORD_BYTES as int) =~= s.subrange(
        rec_start,
        rec_start + VAR_RECORD_BYTES,
    ));
    assert(tail.skip(VAR_RECORD_BYTES as int) =~= s.skip(rec_start + VAR_RECORD_BYTES));
}

} // verus!
