//! Decoding of the legacy single-byte text encoding (Windows code page 1252).
//!
//! All fixed-width text fields of the variable table and the session-info
//! blob use this encoding.  Bytes `0x00`–`0x7F` and `0xA0`–`0xFF` map to the
//! code point of the same value; the 32 bytes in between map to specific
//! code points (undefined entries fall back to a space).  Decoding stops at
//! the first NUL byte, which terminates a fixed-width field.

use vstd::prelude::*;

verus! {

broadcast use vstd::slice::axiom_spec_len;

/// The code point that a single byte decodes to.
pub open spec fn cp1252_char(b: u8) -> char {
    if b < 0x80 || b >= 0xA0 {
        b as char
    } else {
        match b {
            0x80 => '\u{20AC}',
            0x82 => '\u{201A}',
            0x83 => '\u{0192}',
            0x84 => '\u{201E}',
            0x85 => '\u{2026}',
            0x86 => '\u{2020}',
            0x87 => '\u{2021}',
            0x88 => '\u{02C6}',
            0x89 => '\u{2030}',
            0x8A => '\u{0160}',
            0x8B => '\u{2039}',
            0x8C => '\u{0152}',
            0x8E => '\u{017D}',
            0x91 => '\u{2018}',
            0x92 => '\u{2019}',
            0x93 => '\u{201C}',
            0x94 => '\u{201D}',
            0x95 => '\u{2022}',
            0x96 => '\u{2013}',
            0x97 => '\u{2014}',
            0x98 => '\u{02DC}',
            0x99 => '\u{2122}',
            0x9A => '\u{0161}',
            0x9B => '\u{203A}',
            0x9C => '\u{0153}',
            0x9E => '\u{017E}',
            0x9F => '\u{0178}',
            _ => ' ',
        }
    }
}

/// The text that a byte field decodes to: one character per byte, up to but
/// not including the first NUL byte.
pub open spec fn cp1252_decode(s: Seq<u8>) -> Seq<char>
    decreases s.len(),
{
    if s.len() == 0 || s[0] == 0 {
        Seq::empty()
    } else {
        seq![cp1252_char(s[0])] + cp1252_decode(s.drop_first())
    }
}

proof fn lemma_decode_step(s: Seq<u8>, i: int)
    requires
        0 <= i < s.len(),
        s[i] != 0,
    ensures
        cp1252_decode(s.skip(i)) == seq![cp1252_char(s[i])] + cp1252_decode(s.skip(i + 1)),
{
    assert(s.skip(i).len() > 0);
    assert(s.skip(i)[0] == s[i]);
    assert(s.skip(i).drop_first() =~= s.skip(i + 1));
}

fn decode_byte(b: u8) -> (c: char)
    ensures
        c == cp1252_char(b),
{
    if b < 0x80 || b >= 0xA0 {
        b as char
    } else {
        match b {
            0x80 => '\u{20AC}',
            0x82 => '\u{201A}',
            0x83 => '\u{0192}',
            0x84 => '\u{201E}',
            0x85 => '\u{2026}',
            0x86 => '\u{2020}',
            0x87 => '\u{2021}',
            0x88 => '\u{02C6}',
            0x89 => '\u{2030}',
            0x8A => '\u{0160}',
            0x8B => '\u{2039}',
            0x8C => '\u{0152}',
            0x8E => '\u{017D}',
            0x91 => '\u{2018}',
            0x92 => '\u{2019}',
            0x93 => '\u{201C}',
            0x94 => '\u{201D}',
            0x95 => '\u{2022}',
            0x96 => '\u{2013}',
            0x97 => '\u{2014}',
            0x98 => '\u{02DC}',
            0x99 => '\u{2122}',
            0x9A => '\u{0161}',
            0x9B => '\u{203A}',
            0x9C => '\u{0153}',
            0x9E => '\u{017E}',
            0x9F => '\u{0178}',
            _ => ' ',
        }
    }
}

/// Relies on `String::push`: appends exactly the given character.
#[verifier::external_body]
fn push_char(s: &mut String, c: char)
    ensures
        final(s)@ == old(s)@.push(c),
{
    s.push(c);
}

/// Decode a byte field with the legacy single-byte code page, stopping at
/// the first NUL byte.
pub fn cp1252_to_string(data: &[u8]) -> (r: String)
    ensures
        r@ == cp1252_decode(data@),
{
    let n = data.len();
    let mut out = String::new();
    let mut i: usize = 0;
    proof {
        assert(data@.skip(0) =~= data@);
    }
    while i < n
        invariant
            i <= n,
            n == data.len(),
            cp1252_decode(data@) == out@ + cp1252_decode(data@.skip(i as int)),
        decreases n - i,
    {
        let b = data[i];
        if b == 0 {
            proof {
                assert(data@.skip(i as int)[0] == 0);
                assert(cp1252_decode(data@.skip(i as int)) =~= Seq::<char>::empty());
                assert(cp1252_decode(data@) =~= out@);
            }
            return out;
        }
        let c = decode_byte(b);
        push_char(&mut out, c);
        proof {
            lemma_decode_step(data@, i as int);
            assert(out@ + cp1252_decode(data@.skip(i + 1)) =~= cp1252_decode(data@));
        }
        i = i + 1;
    }
    proof {
        assert(data@.skip(n as int) =~= Seq::<u8>::empty());
        assert(cp1252_decode(data@) =~= out@);
    }
    out
}

} // verus!
