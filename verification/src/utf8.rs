//! Checking UTF-8 well-formedness byte by byte, against vstd's definition of
//! UTF-8 (`vstd::utf8`): no overlong encodings, no surrogates, nothing above
//! U+10FFFF.
use vstd::prelude::*;
use vstd::utf8::*;

verus! {

/// The length of the well-formed UTF-8 encoding of one scalar that starts
/// `bytes` at `start`, or `None` when none does.
pub(crate) fn first_scalar_len(bytes: &[u8], start: usize) -> (r: Option<usize>)
    requires
        start < bytes@.len(),
    ensures
        ({
            let rest = bytes@.subrange(start as int, bytes@.len() as int);
            match r {
                Some(n) => valid_first_scalar(rest) && n == length_of_first_scalar(rest) && 1 <= n
                    <= rest.len(),
                None => !valid_first_scalar(rest),
            }
        }),
{
    let ghost rest = bytes@.subrange(start as int, bytes@.len() as int);
    let n = bytes.len() - start;
    let b0 = bytes[start];
    assert(rest[0] == b0);
    if b0 <= 0x7f {
        return Some(1);
    }
    if 0xc0 <= b0 && b0 <= 0xdf {
        if n < 2 {
            return None;
        }
        let b1 = bytes[start + 1];
        assert(rest[1] == b1);
        if !(0x80 <= b1 && b1 <= 0xbf) {
            return None;
        }
        let cp: u32 = (((b0 & 0x1f) as u32) << 6u32) | ((b1 & 0x3f) as u32);
        assert(cp == codepoint_width_2(b0, b1));
        assert(cp <= 0x7ff) by (bit_vector)
            requires
                cp == (((b0 & 0x1f) as u32) << 6u32) | ((b1 & 0x3f) as u32),
        ;
        if cp < 0x80 {
            return None;
        }
        return Some(2);
    }
    if 0xe0 <= b0 && b0 <= 0xef {
        if n < 3 {
            return None;
        }
        let b1 = bytes[start + 1];
        let b2 = bytes[start + 2];
        assert(rest[1] == b1 && rest[2] == b2);
        if !(0x80 <= b1 && b1 <= 0xbf && 0x80 <= b2 && b2 <= 0xbf) {
            return None;
        }
        let cp: u32 = (((b0 & 0x0f) as u32) << 12u32) | (((b1 & 0x3f) as u32) << 6u32) | ((b2
            & 0x3f) as u32);
        assert(cp == codepoint_width_3(b0, b1, b2));
        if cp < 0x800 || (0xd800 <= cp && cp <= 0xdfff) {
            return None;
        }
        return Some(3);
    }
    if 0xf0 <= b0 && b0 <= 0xf7 {
        if n < 4 {
            return None;
        }
        let b1 = bytes[start + 1];
        let b2 = bytes[start + 2];
        let b3 = bytes[start + 3];
        assert(rest[1] == b1 && rest[2] == b2 && rest[3] == b3);
        if !(0x80 <= b1 && b1 <= 0xbf && 0x80 <= b2 && b2 <= 0xbf && 0x80 <= b3 && b3 <= 0xbf) {
            return None;
        }
        let cp: u32 = (((b0 & 0x07) as u32) << 18u32) | (((b1 & 0x3f) as u32) << 12u32) | (((b2
            & 0x3f) as u32) << 6u32) | ((b3 & 0x3f) as u32);
        assert(cp == codepoint_width_4(b0, b1, b2, b3));
        if cp < 0x10000 || cp > 0x10ffff {
            return None;
        }
        return Some(4);
    }
    None
}

} // verus!
