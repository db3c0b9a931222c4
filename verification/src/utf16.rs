//! UTF-16 in either byte order: the code units of a character and the bytes
//! of a string.
use vstd::prelude::*;
use vstd::utf8::{char_is_scalar, char_u32_cast};

use crate::text::chars_of;

verus! {

/// The UTF-16 code units of `c`: the scalar value itself below U+10000, and
/// otherwise a high surrogate (U+D800 plus the upper ten bits of the value
/// less 0x10000) followed by a low surrogate (U+DC00 plus the lower ten bits).
pub open spec fn utf16_units(c: char) -> Seq<u16> {
    let v = c as u32;
    if v < 0x10000 {
        seq![v as u16]
    } else {
        seq![(0xD800 + (v - 0x10000) / 0x400) as u16, (0xDC00 + (v - 0x10000) % 0x400) as u16]
    }
}

/// The two bytes of a code unit: low byte first in little-endian order, high
/// byte first in big-endian order.
pub open spec fn unit_bytes(unit: u16, big_endian: bool) -> Seq<u8> {
    if big_endian {
        seq![(unit / 256) as u8, (unit % 256) as u8]
    } else {
        seq![(unit % 256) as u8, (unit / 256) as u8]
    }
}

/// The UTF-16 bytes of one character.
pub open spec fn char_utf16_bytes(c: char, big_endian: bool) -> Seq<u8> {
    let units = utf16_units(c);
    if units.len() == 1 {
        unit_bytes(units[0], big_endian)
    } else {
        unit_bytes(units[0], big_endian) + unit_bytes(units[1], big_endian)
    }
}

/// The UTF-16 bytes of `text`, without a byte-order mark, in the given byte
/// order.
pub open spec fn encode_utf16(text: Seq<char>, big_endian: bool) -> Seq<u8>
    decreases text.len(),
{
    if text.len() == 0 {
        Seq::empty()
    } else {
        encode_utf16(text.drop_last(), big_endian) + char_utf16_bytes(text.last(), big_endian)
    }
}

/// The code unit held by the two bytes of `bytes` at `i`, in the given byte
/// order.
pub open spec fn unit_at(bytes: Seq<u8>, i: int, big_endian: bool) -> int {
    if big_endian {
        bytes[i] as int * 256 + bytes[i + 1] as int
    } else {
        bytes[i + 1] as int * 256 + bytes[i] as int
    }
}

/// Whether a code unit is a high (leading) surrogate.
pub open spec fn is_high_surrogate(unit: int) -> bool {
    0xD800 <= unit < 0xDC00
}

/// Whether a code unit is a low (trailing) surrogate.
pub open spec fn is_low_surrogate(unit: int) -> bool {
    0xDC00 <= unit < 0xE000
}

/// Reads UTF-16 `bytes` in the given byte order from the front: a code unit
/// outside the surrogates is that character, a high surrogate followed by a
/// low surrogate is the supplementary character they encode, and anything
/// else (an odd byte, an unpaired surrogate) makes the bytes ill-formed
/// (`None`).
pub open spec fn decode_utf16(bytes: Seq<u8>, big_endian: bool) -> Option<Seq<char>>
    decreases bytes.len(),
{
    if bytes.len() == 0 {
        Some(Seq::empty())
    } else if bytes.len() < 2 {
        None
    } else {
        let unit = unit_at(bytes, 0, big_endian);
        if is_high_surrogate(unit) {
            if bytes.len() < 4 || !is_low_surrogate(unit_at(bytes, 2, big_endian)) {
                None
            } else {
                let low = unit_at(bytes, 2, big_endian);
                let c = (0x10000 + (unit - 0xD800) * 0x400 + (low - 0xDC00)) as char;
                match decode_utf16(bytes.subrange(4, bytes.len() as int), big_endian) {
                    Some(rest) => Some(seq![c] + rest),
                    None => None,
                }
            }
        } else if is_low_surrogate(unit) {
            None
        } else {
            match decode_utf16(bytes.subrange(2, bytes.len() as int), big_endian) {
                Some(rest) => Some(seq![unit as char] + rest),
                None => None,
            }
        }
    }
}

/// The bytes of a code unit read back as that unit.
pub proof fn lemma_unit_bytes_read_back(unit: u16, big_endian: bool, rest: Seq<u8>)
    ensures
        unit_at(unit_bytes(unit, big_endian) + rest, 0, big_endian) == unit as int,
        (unit_bytes(unit, big_endian) + rest).len() == rest.len() + 2,
        (unit_bytes(unit, big_endian) + rest).subrange(2, rest.len() as int + 2) == rest,
{
    let b = unit_bytes(unit, big_endian) + rest;
    assert(((unit / 256) as u8) as int == unit as int / 256);
    assert(((unit % 256) as u8) as int == unit as int % 256);
    assert((unit as int / 256) * 256 + unit as int % 256 == unit as int) by (nonlinear_arith);
    assert(b.subrange(2, rest.len() as int + 2) =~= rest);
}

/// Decoding the UTF-16 bytes of a character followed by more bytes gives that
/// character followed by what the rest decodes to.
pub proof fn lemma_decode_char_then_rest(c: char, big_endian: bool, rest: Seq<u8>)
    ensures
        decode_utf16(char_utf16_bytes(c, big_endian) + rest, big_endian) == match decode_utf16(
            rest,
            big_endian,
        ) {
            Some(text) => Some(seq![c] + text),
            None => None::<Seq<char>>,
        },
{
    char_is_scalar(c);
    let v = c as u32;
    let units = utf16_units(c);
    let bytes = char_utf16_bytes(c, big_endian) + rest;
    if v < 0x10000 {
        lemma_unit_bytes_read_back(units[0], big_endian, rest);
        assert(units[0] as int == v as int);
        char_u32_cast(c, v);
        assert(bytes.subrange(2, bytes.len() as int) =~= rest);
    } else {
        let w = v - 0x10000;
        let tail = unit_bytes(units[1], big_endian) + rest;
        assert(bytes =~= unit_bytes(units[0], big_endian) + tail);
        lemma_unit_bytes_read_back(units[0], big_endian, tail);
        lemma_unit_bytes_read_back(units[1], big_endian, rest);
        assert(units[0] as int == 0xD800 + w / 0x400);
        assert(units[1] as int == 0xDC00 + w % 0x400);
        assert(unit_at(bytes, 2, big_endian) == unit_at(tail, 0, big_endian));
        assert((w / 0x400) * 0x400 + w % 0x400 == w) by (nonlinear_arith);
        char_u32_cast(c, v);
        assert(bytes.subrange(4, bytes.len() as int) =~= rest);
    }
}

/// The bytes of a string start with those of its first character.
pub proof fn lemma_encode_utf16_front(text: Seq<char>, big_endian: bool)
    requires
        text.len() > 0,
    ensures
        encode_utf16(text, big_endian) == char_utf16_bytes(text[0], big_endian) + encode_utf16(
            text.drop_first(),
            big_endian,
        ),
    decreases text.len(),
{
    if text.len() == 1 {
        assert(text.drop_last() =~= Seq::<char>::empty());
        assert(text.drop_first() =~= Seq::<char>::empty());
        assert(encode_utf16(text.drop_last(), big_endian) =~= Seq::<u8>::empty());
        assert(encode_utf16(text.drop_first(), big_endian) =~= Seq::<u8>::empty());
        assert(text.last() == text[0]);
        assert(encode_utf16(text, big_endian) =~= char_utf16_bytes(text[0], big_endian));
    } else {
        let init = text.drop_last();
        lemma_encode_utf16_front(init, big_endian);
        assert(text.drop_first().drop_last() =~= init.drop_first());
        assert(text.drop_first().last() == text.last());
        assert(encode_utf16(text, big_endian) =~= char_utf16_bytes(text[0], big_endian)
            + encode_utf16(text.drop_first(), big_endian));
    }
}

fn push_unit(out: &mut Vec<u8>, unit: u16, big_endian: bool)
    ensures
        final(out)@ == old(out)@ + unit_bytes(unit, big_endian),
{
    let high = (unit / 256) as u8;
    let low = (unit % 256) as u8;
    if big_endian {
        out.push(high);
        out.push(low);
    } else {
        out.push(low);
        out.push(high);
    }
}

/// The UTF-16 bytes of `text` in the given byte order, with no byte-order
/// mark.
pub fn utf16_bytes(text: &str, big_endian: bool) -> (r: Vec<u8>)
    ensures
        r@ == encode_utf16(text@, big_endian),
{
    let chars = chars_of(text);
    let mut out: Vec<u8> = Vec::new();
    let mut i: usize = 0;
    while i < chars.len()
        invariant
            chars@ == text@,
            i <= chars@.len(),
            out@ == encode_utf16(chars@.take(i as int), big_endian),
        decreases chars@.len() - i,
    {
        let c = chars[i];
        proof {
            char_is_scalar(c);
            assert(chars@.take(i + 1).drop_last() =~= chars@.take(i as int));
        }
        let ghost before = out@;
        let v = c as u32;
        if v < 0x10000 {
            push_unit(&mut out, v as u16, big_endian);
        } else {
            let w = v - 0x10000;
            push_unit(&mut out, (0xD800 + w / 0x400) as u16, big_endian);
            push_unit(&mut out, (0xDC00 + w % 0x400) as u16, big_endian);
            assert(out@ =~= before + char_utf16_bytes(c, big_endian));
        }
        i = i + 1;
    }
    assert(chars@.take(chars@.len() as int) =~= chars@);
    out
}

} // verus!
