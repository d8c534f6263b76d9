//! Modified UTF-8, the string encoding of UTF8 constants.
//!
//! A string is stored as a run of one-, two- and three-byte sequences, each
//! of which yields one UTF-16 code unit. The code units are then read as
//! UTF-16, and a surrogate that has no partner becomes U+FFFD.

use crate::error::DecodeError;
use vstd::prelude::*;

verus! {

/// `b` has the form `10xxxxxx`.
pub open spec fn is_continuation(b: u8) -> bool {
    0x80 <= b < 0xC0
}

/// Number of bytes in the sequence that `lead` starts; 0 if no sequence
/// starts with `lead`.
pub open spec fn sequence_width(lead: u8) -> int {
    if lead < 0x80 {
        1
    } else if 0xC0 <= lead < 0xE0 {
        2
    } else if 0xE0 <= lead < 0xF0 {
        3
    } else {
        0
    }
}

/// A complete sequence with proper continuation bytes starts at `pos`.
pub open spec fn sequence_ok(data: Seq<u8>, pos: int) -> bool {
    let w = sequence_width(data[pos]);
    &&& w > 0
    &&& pos + w <= data.len()
    &&& w >= 2 ==> is_continuation(data[pos + 1])
    &&& w >= 3 ==> is_continuation(data[pos + 2])
}

/// The code unit that the sequence at `pos` encodes.
pub open spec fn sequence_unit(data: Seq<u8>, pos: int) -> u16 {
    let c = data[pos];
    if c < 0x80 {
        c as u16
    } else if c < 0xE0 {
        ((c - 0xC0) * 0x40 + (data[pos + 1] - 0x80)) as u16
    } else {
        ((c - 0xE0) * 0x1000 + (data[pos + 1] - 0x80) * 0x40 + (data[pos + 2] - 0x80)) as u16
    }
}

/// The code units encoded by `data` from `pos` on; `None` if some sequence
/// is malformed or cut short.
pub open spec fn code_units(data: Seq<u8>, pos: int) -> Option<Seq<u16>>
    decreases data.len() - pos,
{
    if pos < 0 || pos >= data.len() {
        Some(Seq::empty())
    } else if !sequence_ok(data, pos) {
        None
    } else {
        match code_units(data, pos + sequence_width(data[pos])) {
            Some(rest) => Some(seq![sequence_unit(data, pos)] + rest),
            None => None,
        }
    }
}

/// `u` is the first half of a surrogate pair.
pub open spec fn is_high_surrogate(u: u16) -> bool {
    0xD800 <= u < 0xDC00
}

/// `u` is the second half of a surrogate pair.
pub open spec fn is_low_surrogate(u: u16) -> bool {
    0xDC00 <= u < 0xE000
}

/// The code point of the pair `high`, `low`, as a number.
pub open spec fn pair_scalar(high: u16, low: u16) -> u32 {
    (0x1_0000 + (high - 0xD800) * 0x400 + (low - 0xDC00)) as u32
}

/// `v` is a Unicode scalar value: a code point that is no surrogate.
pub open spec fn is_scalar_value(v: u32) -> bool {
    v < 0xD800 || 0xE000 <= v <= 0x10_FFFF
}

/// The text that the UTF-16 code units from `pos` on stand for, with U+FFFD
/// in place of each surrogate that has no partner.
pub open spec fn utf16_text(units: Seq<u16>, pos: int) -> Seq<char>
    decreases units.len() - pos,
{
    if pos < 0 || pos >= units.len() {
        Seq::empty()
    } else {
        let u = units[pos];
        if !is_high_surrogate(u) && !is_low_surrogate(u) {
            seq![(u as u32) as char] + utf16_text(units, pos + 1)
        } else if is_high_surrogate(u) && pos + 1 < units.len() && is_low_surrogate(
            units[pos + 1],
        ) {
            seq![pair_scalar(u, units[pos + 1]) as char] + utf16_text(units, pos + 2)
        } else {
            seq!['\u{FFFD}'] + utf16_text(units, pos + 1)
        }
    }
}

/// The text of a modified UTF-8 byte string; `None` if it is malformed.
pub open spec fn mutf8_text(data: Seq<u8>) -> Option<Seq<char>> {
    match code_units(data, 0) {
        Some(units) => Some(utf16_text(units, 0)),
        None => None,
    }
}

/// `char::from_u32` yields the character with the given code point, and
/// nothing for a surrogate or a number above U+10FFFF.
pub assume_specification[ char::from_u32 ](i: u32) -> (c: Option<char>)
    ensures
        is_scalar_value(i) ==> c == Some(i as char),
        !is_scalar_value(i) ==> c is None,
;

/// `String::push` appends one character.
pub assume_specification[ String::push ](s: &mut String, ch: char)
    ensures
        final(s)@ == old(s)@.push(ch),
;

spec fn after(acc: Seq<u16>, rest: Option<Seq<u16>>) -> Option<Seq<u16>> {
    match rest {
        Some(r) => Some(acc + r),
        None => None,
    }
}

proof fn lemma_sequence_bits(c: u8, b2: u8, b3: u8)
    ensures
        c < 0x80 <==> c >> 4 <= 7,
        0xC0 <= c < 0xE0 <==> (c >> 4 == 12 || c >> 4 == 13),
        0xE0 <= c < 0xF0 <==> c >> 4 == 14,
        is_continuation(b2) <==> b2 & 0xC0 == 0x80,
        0xC0 <= c < 0xE0 && is_continuation(b2) ==> (((c as u16) & 0x1F) << 6) | ((b2 as u16)
            & 0x3F) == (c - 0xC0) * 0x40 + (b2 - 0x80),
        0xE0 <= c < 0xF0 && is_continuation(b2) && is_continuation(b3) ==> (((c as u16) & 0x0F)
            << 12) | (((b2 as u16) & 0x3F) << 6) | ((b3 as u16) & 0x3F) == (c - 0xE0) * 0x1000 + (
        b2 - 0x80) * 0x40 + (b3 - 0x80),
{
    assert(c < 0x80 <==> c >> 4 <= 7) by (bit_vector);
    assert(0xC0 <= c < 0xE0 <==> (c >> 4 == 12 || c >> 4 == 13)) by (bit_vector);
    assert(0xE0 <= c < 0xF0 <==> c >> 4 == 14) by (bit_vector);
    assert((0x80 <= b2 < 0xC0) <==> b2 & 0xC0 == 0x80) by (bit_vector);
    assert(0xC0 <= c < 0xE0 && 0x80 <= b2 < 0xC0 ==> (((c as u16) & 0x1F) << 6) | ((b2 as u16)
        & 0x3F) == (c - 0xC0) * 0x40 + (b2 - 0x80)) by (bit_vector);
    assert(0xE0 <= c < 0xF0 && 0x80 <= b2 < 0xC0 && 0x80 <= b3 < 0xC0 ==> (((c as u16) & 0x0F)
        << 12) | (((b2 as u16) & 0x3F) << 6) | ((b3 as u16) & 0x3F) == (c - 0xE0) * 0x1000 + (b2
        - 0x80) * 0x40 + (b3 - 0x80)) by (bit_vector);
}

/// Reads modified UTF-8 into UTF-16 code units.
pub fn decode_code_units(data: &Vec<u8>) -> (r: Result<Vec<u16>, DecodeError>)
    ensures
        match r {
            Ok(units) => code_units(data@, 0) == Some(units@),
            Err(e) => e == DecodeError::MalformedStringEncoding && code_units(data@, 0) is None,
        },
{
    let utflen: usize = data.len();
    let mut units: Vec<u16> = Vec::new();
    let mut count: usize = 0;
    while count < utflen
        invariant
            utflen == data.len(),
            count <= utflen,
            code_units(data@, 0) == after(units@, code_units(data@, count as int)),
        decreases utflen - count,
    {
        let c: u8 = data[count];
        let ghost here = count as int;
        let ghost before = units@;
        proof {
            let b2: u8 = if here + 1 < utflen { data@[here + 1] } else { 0 };
            let b3: u8 = if here + 2 < utflen { data@[here + 2] } else { 0 };
            lemma_sequence_bits(c, b2, b3);
        }
        let kind: u8 = c >> 4;
        if kind <= 7 {
            count += 1;
            units.push(c as u16);
        } else if kind == 12 || kind == 13 {
            if utflen - count < 2 {
                return Err(DecodeError::MalformedStringEncoding);
            }
            let char2: u8 = data[count + 1];
            if char2 & 0xC0 != 0x80 {
                return Err(DecodeError::MalformedStringEncoding);
            }
            count += 2;
            units.push((((c as u16) & 0x1F) << 6) | ((char2 as u16) & 0x3F));
        } else if kind == 14 {
            if utflen - count < 3 {
                return Err(DecodeError::MalformedStringEncoding);
            }
            let char2: u8 = data[count + 1];
            let char3: u8 = data[count + 2];
            proof {
                lemma_sequence_bits(c, char3, char3);
            }
            if char2 & 0xC0 != 0x80 || char3 & 0xC0 != 0x80 {
                return Err(DecodeError::MalformedStringEncoding);
            }
            count += 3;
            units.push(
                (((c as u16) & 0x0F) << 12) | (((char2 as u16) & 0x3F) << 6) | ((char3 as u16)
                    & 0x3F),
            );
        } else {
            return Err(DecodeError::MalformedStringEncoding);
        }
        proof {
            let rest = code_units(data@, count as int);
            assert(units@ == before.push(sequence_unit(data@, here)));
            if rest is Some {
                assert(units@ + rest->0 =~= before + (seq![sequence_unit(data@, here)] + rest->0));
            }
        }
    }
    assert(units@ + Seq::<u16>::empty() =~= units@);
    Ok(units)
}

/// Reads UTF-16 code units as text, with U+FFFD for each lone surrogate.
pub fn utf16_to_string(units: &Vec<u16>) -> (text: String)
    ensures
        text@ == utf16_text(units@, 0),
{
    let n: usize = units.len();
    let mut text: String = String::new();
    let mut i: usize = 0;
    while i < n
        invariant
            n == units.len(),
            i <= n,
            utf16_text(units@, 0) == text@ + utf16_text(units@, i as int),
        decreases n - i,
    {
        let u: u16 = units[i];
        let ghost before = text@;
        let ghost here = i as int;
        let mut scalar: u32 = 0xFFFD;
        if u < 0xD800 || u >= 0xE000 {
            scalar = u as u32;
            i += 1;
        } else if u < 0xDC00 && n - i >= 2 && 0xDC00 <= units[i + 1] && units[i + 1] < 0xE000 {
            let low: u16 = units[i + 1];
            scalar = 0x1_0000 + (((u - 0xD800) as u32) * 0x400) + ((low - 0xDC00) as u32);
            i += 2;
        } else {
            i += 1;
        }
        let ch: char = match char::from_u32(scalar) {
            Some(c) => c,
            None => '\u{FFFD}',
        };
        text.push(ch);
        proof {
            let rest = utf16_text(units@, i as int);
            assert(0xFFFDu32 as char == '\u{FFFD}');
            assert(text@ + rest =~= before + (seq![ch] + rest));
        }
    }
    assert(text@ + Seq::<char>::empty() =~= text@);
    text
}

} // verus!
