//! The character-encoding engine: detection, decoding, encoding, mojibake
//! repair and validity checks over bytes and strings.
//!
//! Detection checks for a Unicode byte-order mark first (UTF-8, UTF-16LE,
//! UTF-16BE) and trusts it; without one it asks `chardetng` for a guess over
//! the whole input. Decoding and encoding go through `encoding_rs`; an explicit
//! label decodes with no detection at all, so a byte-order mark is then read
//! as ordinary bytes. UTF-16 output is written here in the byte order the
//! label names. Empty input has no encoding to detect.
use vstd::prelude::*;
use vstd::utf8::{
    decode_utf8, encode_utf8, encode_utf8_decode_utf8, partial_valid_partial_invalid_utf8,
    partial_valid_utf8, partial_valid_utf8_extend, valid_utf8,
};

use crate::codec::{
    bom_encoding, chardet_guess, codec_for_label, decode, decode_without_bom,
    decoding_with_bom_sniffing, decoding_without_bom, detector_feed, detector_guess,
    detector_input, detector_new, encode, encoding_names, encoding_output, is_label_of,
    label_encoding, latin1_shared, sniff_bom, whatwg_names, windows_1252, Codec,
};
use crate::text::{
    chars_of, count_where, debug_quoted, debug_string, lemma_count_where_le_len,
    lemma_count_where_positive, lemma_count_where_step, utf8_str,
};
use crate::utf16::{encode_utf16, utf16_bytes};
use crate::utf8::first_scalar_len;

verus! {

/// The encoding detected for non-empty `bytes`: the one its byte-order mark
/// declares, or else `chardetng`'s guess for the whole input, with no
/// top-level-domain hint and UTF-8 allowed.
pub open spec fn detected_encoding(bytes: Seq<u8>) -> Seq<char> {
    match bom_encoding(bytes) {
        Some((name, _)) => name,
        None => chardet_guess(bytes, true, None, true),
    }
}

/// What [`detect`] returns.
pub open spec fn spec_detect(bytes: Seq<u8>) -> Option<Seq<char>> {
    if bytes.len() == 0 {
        None
    } else {
        Some(detected_encoding(bytes))
    }
}

/// What [`to_utf8`] returns.
pub open spec fn spec_to_utf8(bytes: Seq<u8>) -> Option<Seq<char>> {
    if bytes.len() == 0 {
        None
    } else {
        Some(decoding_with_bom_sniffing(detected_encoding(bytes), bytes).0)
    }
}

/// The message of the error for an encoding label that names no encoding.
pub open spec fn unknown_label_message(label: Seq<char>) -> Seq<char> {
    "unknown encoding label: "@ + debug_quoted(label)
}

/// What [`to_utf8_from`] returns.
pub open spec fn spec_to_utf8_from(bytes: Seq<u8>, label: Seq<char>) -> Result<Seq<char>, Seq<char>> {
    match label_encoding(label) {
        Some(name) => Ok(decoding_without_bom(name, bytes).0),
        None => Err(unknown_label_message(label)),
    }
}

/// The bytes of `text` in the encoding named `name`: UTF-16 in the named byte
/// order for UTF-16LE and UTF-16BE, and what `encoding_rs` writes otherwise.
pub open spec fn encoded_as(name: Seq<char>, text: Seq<char>) -> Seq<u8> {
    if name == "UTF-16LE"@ {
        encode_utf16(text, false)
    } else if name == "UTF-16BE"@ {
        encode_utf16(text, true)
    } else {
        encoding_output(name, text).0
    }
}

/// What [`transcode`] returns.
pub open spec fn spec_transcode(text: Seq<char>, label: Seq<char>) -> Result<Seq<u8>, Seq<char>> {
    match label_encoding(label) {
        Some(name) => Ok(encoded_as(name, text)),
        None => Err(unknown_label_message(label)),
    }
}

/// The detected encoding of `bytes` (BOM first, then `chardetng`).
fn detect_encoding(bytes: &[u8]) -> (r: Codec)
    ensures
        r@ == detected_encoding(bytes@),
        whatwg_names().contains(r@),
{
    match sniff_bom(bytes) {
        Some((codec, _bom_len)) => {
            assert(whatwg_names()[0] == "UTF-8"@ && whatwg_names()[1] == "UTF-16LE"@
                && whatwg_names()[2] == "UTF-16BE"@);
            codec
        },
        None => {
            let mut detector = detector_new();
            // The whole document is fed at once, so the end of the stream is
            // signalled together with it.
            detector_feed(&mut detector, bytes, true);
            assert(detector_input(detector) == bytes@);
            detector_guess(&detector, None, true)
        },
    }
}

/// Detect the most likely encoding label for `bytes`.
///
/// `None` for empty input. A UTF-8/UTF-16 byte-order mark decides; without
/// one, the `chardetng` heuristic guesses.
pub fn detect(bytes: &[u8]) -> (r: Option<&'static str>)
    ensures
        match r {
            Some(name) => spec_detect(bytes@) == Some(name@),
            None => spec_detect(bytes@) is None,
        },
        r matches Some(name) ==> whatwg_names().contains(name@),
{
    if bytes.len() == 0 {
        return None;
    }
    let codec = detect_encoding(bytes);
    Some(codec.name())
}

/// Detect the encoding of `bytes` and decode them to a UTF-8 string. `None`
/// for empty input. Undecodable bytes become U+FFFD. A byte-order mark decides
/// the encoding and is dropped; without one the bytes decode exactly as
/// [`to_utf8_from`] decodes them under the detected name.
pub fn to_utf8(bytes: &[u8]) -> (r: Option<String>)
    ensures
        match r {
            Some(text) => spec_to_utf8(bytes@) == Some(text@),
            None => spec_to_utf8(bytes@) is None,
        },
        bytes@.len() > 0 && bom_encoding(bytes@) is None ==> (r matches Some(text) && spec_detect(
            bytes@,
        ) matches Some(name) && whatwg_names().contains(name) && text@ == decoding_without_bom(
            name,
            bytes@,
        ).0),
{
    if bytes.len() == 0 {
        return None;
    }
    let codec = detect_encoding(bytes);
    let (text, _had_errors) = decode(&codec, bytes);
    Some(text)
}

/// The error for an encoding label that names no encoding.
fn unknown_label(label: &str) -> (r: String)
    ensures
        r@ == unknown_label_message(label@),
{
    let mut message = String::from_str("unknown encoding label: ");
    let quoted = debug_string(label);
    message.append(quoted.as_str());
    message
}

/// Decode `bytes` with an explicit encoding label (no detection: a byte-order
/// mark is decoded like any other bytes). `Err` with the offending label when
/// it is not a WHATWG encoding label; undecodable bytes within a known
/// encoding become U+FFFD. Every canonical name of [`supported_encodings`],
/// in any ASCII case, is accepted as a label of its own encoding.
pub fn to_utf8_from(bytes: &[u8], label: &str) -> (r: Result<String, String>)
    ensures
        match r {
            Ok(text) => spec_to_utf8_from(bytes@, label@) == Ok::<Seq<char>, Seq<char>>(text@),
            Err(message) => spec_to_utf8_from(bytes@, label@) == Err::<Seq<char>, Seq<char>>(
                message@,
            ),
        },
        r matches Ok(_) ==> label_encoding(label@) matches Some(name) && whatwg_names().contains(
            name,
        ),
        forall|name: Seq<char>|
            #[trigger] is_label_of(label@, name) ==> (r matches Ok(text) && text@
                == decoding_without_bom(name, bytes@).0),
        forall|name: Seq<char>|
            #[trigger] is_label_of(label@, name) ==> label_encoding(label@) == Some(name),
        label_encoding(label@) == Some("windows-1252"@) ==> (r matches Ok(text) && encoding_output(
            "windows-1252"@,
            text@,
        ) == (bytes@, false)),
{
    match codec_for_label(label) {
        Some(codec) => {
            let (text, _had_errors) = decode_without_bom(&codec, bytes);
            Ok(text)
        },
        None => Err(unknown_label(label)),
    }
}

/// Encode a string into the named encoding's bytes. `Err` when the label is
/// unknown. Characters a legacy encoding cannot represent become HTML numeric
/// character references; UTF-8 gives the string's own bytes and UTF-16LE /
/// UTF-16BE its UTF-16 code units in that byte order (no byte-order mark), so
/// those are lossless. Every canonical name of [`supported_encodings`], in any
/// ASCII case, is accepted as a label of its own encoding.
pub fn transcode(text: &str, label: &str) -> (r: Result<Vec<u8>, String>)
    ensures
        match r {
            Ok(bytes) => spec_transcode(text@, label@) == Ok::<Seq<u8>, Seq<char>>(bytes@),
            Err(message) => spec_transcode(text@, label@) == Err::<Seq<u8>, Seq<char>>(message@),
        },
        r matches Ok(_) ==> label_encoding(label@) matches Some(name) && whatwg_names().contains(
            name,
        ),
        forall|name: Seq<char>|
            #[trigger] is_label_of(label@, name) ==> (r matches Ok(bytes) && bytes@ == encoded_as(
                name,
                text@,
            )),
        forall|name: Seq<char>|
            #[trigger] is_label_of(label@, name) ==> label_encoding(label@) == Some(name),
        label_encoding(label@) == Some("windows-1252"@) && latin1_shared(text@) ==> (r matches Ok(
            bytes,
        ) && bytes@ == text@.map_values(|c: char| c as u8) && !encoding_output(
            "windows-1252"@,
            text@,
        ).1),
        label_encoding(label@) == Some("windows-1252"@) && !encoding_output(
            "windows-1252"@,
            text@,
        ).1 ==> (r matches Ok(bytes) && decoding_without_bom("windows-1252"@, bytes@) == (
            text@,
            false,
        )),
        is_label_of(label@, "UTF-8"@) ==> (r matches Ok(bytes) && bytes@ == encode_utf8(text@)),
        is_label_of(label@, "UTF-16LE"@) ==> (r matches Ok(bytes) && bytes@ == encode_utf16(
            text@,
            false,
        )),
        is_label_of(label@, "UTF-16BE"@) ==> (r matches Ok(bytes) && bytes@ == encode_utf16(
            text@,
            true,
        )),
{
    proof {
        reveal_strlit("UTF-8");
        reveal_strlit("UTF-16LE");
        reveal_strlit("UTF-16BE");
        reveal_strlit("windows-1252");
        assert("UTF-16LE"@[6] != "UTF-16BE"@[6]);
    }
    match codec_for_label(label) {
        Some(codec) => {
            if codec.is_named("UTF-16LE") {
                Ok(utf16_bytes(text, false))
            } else if codec.is_named("UTF-16BE") {
                Ok(utf16_bytes(text, true))
            } else {
                let (bytes, _had_unmappable) = encode(&codec, text);
                Ok(bytes)
            }
        },
        None => Err(unknown_label(label)),
    }
}

/// Whether `bytes` is well-formed UTF-8.
pub fn is_valid_utf8(bytes: &[u8]) -> (r: bool)
    ensures
        r == valid_utf8(bytes@),
{
    let mut i: usize = 0;
    assert(bytes@.subrange(0, 0) =~= Seq::<u8>::empty());
    while i < bytes.len()
        invariant
            0 <= i <= bytes@.len(),
            partial_valid_utf8(bytes@, i as int),
        decreases bytes@.len() - i,
    {
        match first_scalar_len(bytes, i) {
            Some(n) => {
                proof {
                    partial_valid_utf8_extend(bytes@, i as int);
                }
                i = i + n;
            },
            None => {
                proof {
                    partial_valid_partial_invalid_utf8(bytes@, i as int);
                }
                return false;
            },
        }
    }
    assert(bytes@.subrange(0, bytes@.len() as int) =~= bytes@);
    true
}

/// Characters that typically appear when UTF-8 text is misread as
/// Windows-1252: the lead bytes 0xC3 and 0xC2 as `Ã` and `Â`, 0xE2 as `â`,
/// the punctuation `€ ™ … “ ” ‘ ’`, and the C1 controls U+009D and U+0081.
pub open spec fn is_mojibake_marker(c: char) -> bool {
    c == '\u{C3}' || c == '\u{C2}' || c == '\u{E2}' || c == '\u{20AC}' || c == '\u{2122}'
        || c == '\u{2026}' || c == '\u{201C}' || c == '\u{201D}' || c == '\u{2018}'
        || c == '\u{2019}' || c == '\u{9D}' || c == '\u{81}'
}

/// The mojibake marker test as a predicate.
pub open spec fn marker() -> spec_fn(char) -> bool {
    |c: char| is_mojibake_marker(c)
}

/// How many mojibake markers `text` holds.
pub open spec fn marker_count(text: Seq<char>) -> nat {
    count_where(text, marker())
}

fn is_marker(c: char) -> (r: bool)
    ensures
        r == is_mojibake_marker(c),
{
    c == '\u{C3}' || c == '\u{C2}' || c == '\u{E2}' || c == '\u{20AC}' || c == '\u{2122}'
        || c == '\u{2026}' || c == '\u{201C}' || c == '\u{201D}' || c == '\u{2018}'
        || c == '\u{2019}' || c == '\u{9D}' || c == '\u{81}'
}

/// The number of mojibake marker characters in `text`.
fn mojibake_markers(text: &str) -> (r: usize)
    ensures
        r == marker_count(text@),
{
    let chars = chars_of(text);
    let mut count: usize = 0;
    let mut i: usize = 0;
    while i < chars.len()
        invariant
            i <= chars@.len(),
            chars@ == text@,
            count == count_where(chars@.take(i as int), marker()),
            count <= i,
        decreases chars@.len() - i,
    {
        proof {
            lemma_count_where_step(chars@, marker(), i as int);
        }
        if is_marker(chars[i]) {
            count = count + 1;
        }
        i = i + 1;
    }
    assert(chars@.take(chars@.len() as int) =~= chars@);
    count
}

/// The repair of `text` that its Windows-1252 encoding `bytes` offers (with
/// `had_unmappable` telling whether some character had no Windows-1252 byte):
/// the bytes read as UTF-8, when nothing was unmappable, the bytes are
/// well-formed UTF-8 and the result holds strictly fewer mojibake markers.
pub open spec fn mojibake_repair(text: Seq<char>, bytes: Seq<u8>, had_unmappable: bool) -> Option<
    Seq<char>,
> {
    if had_unmappable || !valid_utf8(bytes) {
        None
    } else if marker_count(decode_utf8(bytes)) < marker_count(text) {
        Some(decode_utf8(bytes))
    } else {
        None
    }
}

/// The repair that [`fix_mojibake`] makes of `text`, if any.
pub open spec fn spec_fix_mojibake_once(text: Seq<char>) -> Option<Seq<char>> {
    mojibake_repair(
        text,
        encoding_output("windows-1252"@, text).0,
        encoding_output("windows-1252"@, text).1,
    )
}

/// What [`fix_mojibake`] returns: the repair, or `text` itself when there is
/// none.
pub open spec fn spec_fix_mojibake(text: Seq<char>) -> Seq<char> {
    match spec_fix_mojibake_once(text) {
        Some(fixed) => fixed,
        None => text,
    }
}

/// Given the Windows-1252 encoding `bytes` of `text` and whether some
/// character was unmappable, the mojibake repair of `text`: the bytes decoded
/// as UTF-8, accepted only when that strictly reduces the mojibake markers.
pub fn repair_mojibake(text: &str, bytes: &[u8], had_unmappable: bool) -> (r: Option<String>)
    ensures
        match r {
            Some(fixed) => mojibake_repair(text@, bytes@, had_unmappable) == Some(fixed@),
            None => mojibake_repair(text@, bytes@, had_unmappable) is None,
        },
{
    if had_unmappable {
        return None;
    }
    let candidate = match utf8_str(bytes) {
        Some(candidate) => candidate,
        None => return None,
    };
    proof {
        encode_utf8_decode_utf8(candidate@);
    }
    if mojibake_markers(candidate) < mojibake_markers(text) {
        Some(String::from_str(candidate))
    } else {
        None
    }
}

/// One attempt at repairing double-encoded mojibake: re-encode as
/// Windows-1252 (giving up on unmappable characters), read the bytes as UTF-8
/// (giving up when they are not), and keep the result only when it has fewer
/// mojibake markers.
fn fix_mojibake_once(text: &str) -> (r: Option<String>)
    ensures
        match r {
            Some(fixed) => spec_fix_mojibake_once(text@) == Some(fixed@),
            None => spec_fix_mojibake_once(text@) is None,
        },
{
    let codec = windows_1252();
    let (bytes, had_unmappable) = encode(&codec, text);
    repair_mojibake(text, &bytes, had_unmappable)
}

/// Repair the classic double-encoding mojibake where UTF-8 bytes were decoded
/// as Latin-1 / Windows-1252 and stored again as UTF-8 (`é` shown as `Ã©`).
///
/// The text is re-encoded as Windows-1252 and the bytes read as UTF-8; the
/// result is kept only when every character was mappable, the bytes are
/// well-formed UTF-8 and the mojibake markers strictly decreased. Otherwise
/// the input is returned unchanged.
pub fn fix_mojibake(text: &str) -> (r: String)
    ensures
        r@ == spec_fix_mojibake(text@),
{
    match fix_mojibake_once(text) {
        Some(fixed) => fixed,
        None => String::from_str(text),
    }
}

/// How cleanly bytes read as their detected encoding; the worker turns this
/// into a confidence value in `[0, 1]`.
#[derive(Debug, Clone, Copy, PartialEq, Eq)]
pub enum Confidence {
    /// Empty input: nothing to detect (confidence 0).
    Empty,
    /// A byte-order mark, or a decode without malformed sequences
    /// (confidence 1).
    Lossless,
    /// Malformed sequences were replaced: `replaced` of the `total` decoded
    /// characters are U+FFFD (confidence `1 - replaced / total`).
    Lossy { replaced: usize, total: usize },
}

/// The replacement character test as a predicate.
pub open spec fn replacement() -> spec_fn(char) -> bool {
    |c: char| c == '\u{FFFD}'
}

/// What [`confidence_measure`] returns.
pub open spec fn spec_confidence_measure(bytes: Seq<u8>) -> Confidence {
    if bytes.len() == 0 {
        Confidence::Empty
    } else if bom_encoding(bytes) is Some {
        Confidence::Lossless
    } else if !decoding_without_bom(detected_encoding(bytes), bytes).1 {
        Confidence::Lossless
    } else {
        let text = decoding_without_bom(detected_encoding(bytes), bytes).0;
        Confidence::Lossy {
            replaced: count_where(text, replacement()) as usize,
            total: text.len() as usize,
        }
    }
}

/// How cleanly `bytes` read as their detected encoding: `Empty` for empty
/// input, `Lossless` with a byte-order mark or when decoding met no malformed
/// sequence, and otherwise the count of U+FFFD among the decoded characters.
pub fn confidence_measure(bytes: &[u8]) -> (r: Confidence)
    ensures
        r == spec_confidence_measure(bytes@),
        r matches Confidence::Lossy { replaced, total } ==> 1 <= replaced <= total,
{
    if bytes.len() == 0 {
        return Confidence::Empty;
    }
    if sniff_bom(bytes).is_some() {
        return Confidence::Lossless;
    }
    let codec = detect_encoding(bytes);
    let (text, had_errors) = decode(&codec, bytes);
    if !had_errors {
        return Confidence::Lossless;
    }
    let chars = chars_of(text.as_str());
    let mut replaced: usize = 0;
    let mut i: usize = 0;
    while i < chars.len()
        invariant
            i <= chars@.len(),
            chars@ == text@,
            replaced == count_where(chars@.take(i as int), replacement()),
            replaced <= i,
        decreases chars@.len() - i,
    {
        proof {
            lemma_count_where_step(chars@, replacement(), i as int);
        }
        if chars[i] == '\u{FFFD}' {
            replaced = replaced + 1;
        }
        i = i + 1;
    }
    assert(chars@.take(chars@.len() as int) =~= chars@);
    proof {
        lemma_count_where_le_len(chars@, replacement());
        let k = choose|k: int| 0 <= k < chars@.len() && chars@[k] == '\u{FFFD}';
        lemma_count_where_positive(chars@, replacement(), k);
    }
    Confidence::Lossy { replaced, total: chars.len() }
}

/// Every encoding of the Encoding Standard by canonical name, as
/// `encoding_rs` ships them.
pub fn supported_encodings() -> (r: Vec<&'static str>)
    ensures
        r@.len() == whatwg_names().len(),
        forall|i: int| 0 <= i < r@.len() ==> #[trigger] r@[i]@ == whatwg_names()[i],
{
    encoding_names()
}

} // verus!
