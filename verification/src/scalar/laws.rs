//! What each scalar gives for a row, stated over its input cell and the
//! results of `encoding_rs` and `chardetng`.
use vstd::prelude::*;
use vstd::utf8::{decode_utf8, encode_utf8, valid_utf8};

use crate::charset::{marker_count, Confidence};
use crate::codec::{decoding_without_bom, encoding_output, label_encoding};
use crate::laws::{
    lemma_byte_order_mark_decides, lemma_fix_mojibake_takes_improving_repairs,
    lemma_unmarked_bytes_judged_as_a_whole, lemma_valid_utf8_is_encoded_text, starts_with,
    unmarked, utf16be_mark, utf16le_mark, utf8_mark, whole_input_guess,
};
use crate::scalar::decode::{to_utf8_from_row, to_utf8_row};
use crate::scalar::detect::{detect_confidence_row, detect_encoding_row, is_valid_utf8_row};
use crate::scalar::encode::{fix_mojibake_row, transcode_row};
use crate::text::{count_where, debug_quoted};
use crate::utf16::encode_utf16;

verus! {

/// `detect_encoding` and `to_utf8` over a row: NULL and empty cells give NULL;
/// a byte-order mark names the encoding and only what follows it is decoded;
/// otherwise the whole cell is guessed by `chardetng` and decoded in the
/// guessed encoding.
pub proof fn lemma_detect_and_decode_rows(b: &[u8])
    ensures
        detect_encoding_row(None) is None && to_utf8_row(None) is None,
        b@.len() == 0 ==> detect_encoding_row(Some(b)) is None && to_utf8_row(Some(b)) is None,
        starts_with(b@, utf8_mark()) ==> detect_encoding_row(Some(b)) == Some(
            "UTF-8"@,
        ) && to_utf8_row(Some(b)) == Some(
            decoding_without_bom("UTF-8"@, b@.subrange(3, b@.len() as int)).0,
        ),
        starts_with(b@, utf16le_mark()) ==> detect_encoding_row(Some(b))
            == Some("UTF-16LE"@) && to_utf8_row(Some(b)) == Some(
            decoding_without_bom("UTF-16LE"@, b@.subrange(2, b@.len() as int)).0,
        ),
        starts_with(b@, utf16be_mark()) ==> detect_encoding_row(Some(b))
            == Some("UTF-16BE"@) && to_utf8_row(Some(b)) == Some(
            decoding_without_bom("UTF-16BE"@, b@.subrange(2, b@.len() as int)).0,
        ),
        b@.len() > 0 && unmarked(b@) ==> detect_encoding_row(Some(b)) == Some(
            whole_input_guess(b@),
        ) && to_utf8_row(Some(b)) == Some(decoding_without_bom(whole_input_guess(b@), b@).0),
{
    lemma_byte_order_mark_decides(b@);
    if b@.len() > 0 && unmarked(b@) {
        lemma_unmarked_bytes_judged_as_a_whole(b@);
    }
}

/// `detect_confidence` over a row: NULL and empty cells give NULL; a
/// byte-order mark gives full confidence; otherwise confidence is full exactly
/// when decoding the whole cell in the guessed encoding met no malformed
/// sequence, and is otherwise measured by the U+FFFD characters that decoding
/// holds against its length.
pub proof fn lemma_confidence_rows(b: &[u8])
    ensures
        detect_confidence_row(None) is None,
        b@.len() == 0 ==> detect_confidence_row(Some(b)) is None,
        b@.len() > 0 && !unmarked(b@) ==> detect_confidence_row(Some(b)) == Some(
            Confidence::Lossless,
        ),
        b@.len() > 0 && unmarked(b@) ==> (detect_confidence_row(Some(b)) == Some(
            Confidence::Lossless,
        ) <==> !decoding_without_bom(whole_input_guess(b@), b@).1),
        b@.len() > 0 && unmarked(b@) ==> (detect_confidence_row(Some(b)) matches Some(
            Confidence::Lossy { replaced, total },
        ) ==> replaced == count_where(
            decoding_without_bom(whole_input_guess(b@), b@).0,
            |c: char| c == '\u{FFFD}',
        ) as usize && total == decoding_without_bom(whole_input_guess(b@), b@).0.len() as usize),
{
    lemma_byte_order_mark_decides(b@);
    if b@.len() > 0 && unmarked(b@) {
        lemma_unmarked_bytes_judged_as_a_whole(b@);
    }
}

/// `is_valid_utf8` over a row: NULL gives NULL, and a cell is valid exactly
/// when its bytes are the UTF-8 encoding of some text, whatever that text
/// holds (U+FFFD included).
pub proof fn lemma_validity_rows(b: &[u8])
    ensures
        is_valid_utf8_row(None) is None,
        is_valid_utf8_row(Some(b)) is Some,
        is_valid_utf8_row(Some(b)) == Some(true) <==> exists|text: Seq<char>|
            encode_utf8(text) == b@,
        forall|text: Seq<char>|
            #![trigger encode_utf8(text)]
            b@ == encode_utf8(text) ==> is_valid_utf8_row(Some(b)) == Some(true),
{
    lemma_valid_utf8_is_encoded_text(b@);
}

/// `to_utf8_from` over a row: a NULL cell or label gives NULL; a label of an
/// encoding decodes the whole cell in it, with no BOM handling; any other
/// label is an error naming the label.
pub proof fn lemma_explicit_decode_rows(b: &[u8], l: &str, name: Seq<char>)
    ensures
        to_utf8_from_row(None, Some(l)) == Ok::<Option<Seq<char>>, Seq<char>>(None),
        to_utf8_from_row(Some(b), None) == Ok::<Option<Seq<char>>, Seq<char>>(None),
        label_encoding(l@) == Some(name) ==> to_utf8_from_row(Some(b), Some(l)) == Ok::<
            Option<Seq<char>>,
            Seq<char>,
        >(Some(decoding_without_bom(name, b@).0)),
        label_encoding(l@) is None ==> to_utf8_from_row(Some(b), Some(l)) == Err::<
            Option<Seq<char>>,
            Seq<char>,
        >("unknown encoding label: "@ + debug_quoted(l@)),
{
}

/// `transcode` over a row: a NULL text or label gives NULL; UTF-16LE and
/// UTF-16BE write the text's UTF-16 code units in that byte order, any other
/// encoding writes what `encoding_rs` encodes, and an unknown label is an
/// error naming the label.
pub proof fn lemma_transcode_rows(t: &str, l: &str, name: Seq<char>)
    ensures
        transcode_row(None, Some(l)) == Ok::<Option<Seq<u8>>, Seq<char>>(None),
        transcode_row(Some(t), None) == Ok::<Option<Seq<u8>>, Seq<char>>(None),
        label_encoding(l@) == Some("UTF-16LE"@) ==> transcode_row(Some(t), Some(l)) == Ok::<Option<Seq<u8>>, Seq<char>>(
            Some(encode_utf16(t@, false)),
        ),
        label_encoding(l@) == Some("UTF-16BE"@) ==> transcode_row(Some(t), Some(l)) == Ok::<Option<Seq<u8>>, Seq<char>>(
            Some(encode_utf16(t@, true)),
        ),
        label_encoding(l@) == Some(name) && name != "UTF-16LE"@ && name != "UTF-16BE"@
            ==> transcode_row(Some(t), Some(l)) == Ok::<
            Option<Seq<u8>>,
            Seq<char>,
        >(Some(encoding_output(name, t@).0)),
        label_encoding(l@) is None ==> transcode_row(Some(t), Some(l)) == Err::<Option<Seq<u8>>, Seq<char>>(
            "unknown encoding label: "@ + debug_quoted(l@),
        ),
{
    reveal_strlit("UTF-16LE");
    reveal_strlit("UTF-16BE");
    assert("UTF-16LE"@[6] != "UTF-16BE"@[6]);
}

/// `fix_mojibake` over a row: NULL gives NULL; otherwise the text's
/// Windows-1252 bytes read as UTF-8 when nothing was unmappable, the bytes are
/// well-formed UTF-8 and that reading has strictly fewer mojibake markers, and
/// the text unchanged otherwise.
pub proof fn lemma_mojibake_rows(t: &str)
    ensures
        fix_mojibake_row(None) is None,
        ({
            let (bytes, unmappable) = encoding_output("windows-1252"@, t@);
            &&& !unmappable && valid_utf8(bytes) && marker_count(decode_utf8(bytes))
                < marker_count(t@) ==> fix_mojibake_row(Some(t)) == Some(decode_utf8(bytes))
            &&& !(!unmappable && valid_utf8(bytes) && marker_count(decode_utf8(bytes))
                < marker_count(t@)) ==> fix_mojibake_row(Some(t)) == Some(t@)
        }),
{
    lemma_fix_mojibake_takes_improving_repairs(t@);
}

} // verus!
