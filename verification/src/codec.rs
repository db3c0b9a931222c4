//! The boundary to `encoding_rs` (the WHATWG Encoding Standard codecs) and
//! `chardetng` (the encoding detector).
//!
//! An encoding is carried through the library as a [`Codec`]: the
//! `encoding_rs` encoding together with its canonical name. The name is the
//! plain value that the library's contracts speak of; every result that only
//! the outside crates can compute is named below by a spec function over that
//! name and the input, and every trusted item says so in its doc comment.
use vstd::prelude::*;

use chardetng::EncodingDetector;
use encoding_rs::Encoding;

use crate::text::same_text;
use encoding_rs::{
    BIG5, EUC_JP, EUC_KR, GB18030, GBK, IBM866, ISO_2022_JP, ISO_8859_10, ISO_8859_13,
    ISO_8859_14, ISO_8859_15, ISO_8859_16, ISO_8859_2, ISO_8859_3, ISO_8859_4, ISO_8859_5,
    ISO_8859_6, ISO_8859_7, ISO_8859_8, ISO_8859_8_I, KOI8_R, KOI8_U, MACINTOSH, REPLACEMENT,
    SHIFT_JIS, UTF_16BE, UTF_16LE, UTF_8, WINDOWS_1250, WINDOWS_1251, WINDOWS_1252, WINDOWS_1253,
    WINDOWS_1254, WINDOWS_1255, WINDOWS_1256, WINDOWS_1257, WINDOWS_1258, WINDOWS_874,
    X_MAC_CYRILLIC, X_USER_DEFINED,
};

verus! {

#[verifier::external_type_specification]
#[verifier::external_body]
pub struct ExEncoding(Encoding);

#[verifier::external_type_specification]
#[verifier::external_body]
pub struct ExEncodingDetector(EncodingDetector);

/// One of the encodings of the WHATWG Encoding Standard, as implemented by
/// `encoding_rs`, with its canonical name (`"UTF-8"`, `"windows-1252"`, ...).
///
/// Values are only made by the trusted items below, from an `encoding_rs`
/// encoding and the name that `Encoding::name` reports for it, so the name
/// identifies the encoding.
pub struct Codec {
    encoding: &'static Encoding,
    name: &'static str,
}

impl View for Codec {
    type V = Seq<char>;

    /// The canonical name of the encoding.
    closed spec fn view(&self) -> Seq<char> {
        self.name@
    }
}

impl Codec {
    /// The canonical name of the encoding.
    pub fn name(&self) -> (r: &'static str)
        ensures
            r@ == self@,
    {
        self.name
    }

    /// Whether the canonical name of the encoding is `name`.
    pub fn is_named(&self, name: &str) -> (r: bool)
        ensures
            r == (self@ == name@),
    {
        same_text(self.name, name)
    }
}

/// The encoding that a byte-order mark at the start of `bytes` declares, with
/// the length of the mark: `EF BB BF` is UTF-8, `FF FE` is UTF-16LE and
/// `FE FF` is UTF-16BE.
pub open spec fn bom_encoding(bytes: Seq<u8>) -> Option<(Seq<char>, nat)> {
    if bytes.len() >= 3 && bytes[0] == 0xEFu8 && bytes[1] == 0xBBu8 && bytes[2] == 0xBFu8 {
        Some(("UTF-8"@, 3))
    } else if bytes.len() >= 2 && bytes[0] == 0xFFu8 && bytes[1] == 0xFEu8 {
        Some(("UTF-16LE"@, 2))
    } else if bytes.len() >= 2 && bytes[0] == 0xFEu8 && bytes[1] == 0xFFu8 {
        Some(("UTF-16BE"@, 2))
    } else {
        None
    }
}

/// The encoding that `encoding_rs::Encoding::for_label` finds for `label`
/// (after ASCII-lowercasing and trimming ASCII whitespace, a label of the
/// Encoding Standard), by canonical name; `None` for an unknown label.
pub uninterp spec fn label_encoding(label: Seq<char>) -> Option<Seq<char>>;

/// What `encoding_rs::Encoding::decode_without_bom_handling` gives for `bytes`
/// in the encoding named `encoding`: the decoded text (malformed sequences
/// replaced with U+FFFD, a byte-order mark decoded like any other bytes) and
/// whether there were malformed sequences.
pub uninterp spec fn decoding_without_bom(encoding: Seq<char>, bytes: Seq<u8>) -> (Seq<char>, bool);

/// What `encoding_rs::Encoding::decode` gives for `bytes` in the encoding
/// named `encoding`: a byte-order mark, when there is one, overrides the
/// encoding and is removed; the rest is decoded without BOM handling.
pub open spec fn decoding_with_bom_sniffing(encoding: Seq<char>, bytes: Seq<u8>) -> (Seq<char>, bool) {
    match bom_encoding(bytes) {
        Some((declared, len)) => decoding_without_bom(declared, bytes.subrange(len as int, bytes.len() as int)),
        None => decoding_without_bom(encoding, bytes),
    }
}

/// Whether `label` is, up to ASCII case, the canonical name `name` of one of
/// the encodings of the Encoding Standard.
pub open spec fn is_label_of(label: Seq<char>, name: Seq<char>) -> bool {
    whatwg_names().contains(name) && ascii_lowercase(label) == ascii_lowercase(name)
}

/// `s` with the ASCII letters `A`-`Z` lowered to `a`-`z`.
pub open spec fn ascii_lowercase(s: Seq<char>) -> Seq<char> {
    s.map_values(|c: char| if 0x41 <= (c as u32) <= 0x5A { ((c as u32) + 32) as char } else { c })
}

/// What `encoding_rs::Encoding::encode` gives for `text` in the encoding named
/// `encoding`: the encoded bytes (unmappable characters written as HTML
/// decimal character references) and whether there were unmappable characters.
pub uninterp spec fn encoding_output(encoding: Seq<char>, text: Seq<char>) -> (Seq<u8>, bool);

/// The bytes fed so far to a `chardetng::EncodingDetector`.
pub uninterp spec fn detector_input(detector: EncodingDetector) -> Seq<u8>;

/// Whether the end of the stream has been fed to a `chardetng::EncodingDetector`.
pub uninterp spec fn detector_finished(detector: EncodingDetector) -> bool;

/// The canonical name of the encoding that `chardetng::EncodingDetector::guess`
/// returns after exactly `input` was fed (`finished` when the end of the stream
/// was signalled), for the top-level domain `tld` and the `allow_utf8` flag.
pub uninterp spec fn chardet_guess(
    input: Seq<u8>,
    finished: bool,
    tld: Option<Seq<u8>>,
    allow_utf8: bool,
) -> Seq<char>;

/// Whether every character of `text` is ASCII or in U+00A0..=U+00FF, the
/// range that windows-1252 shares with Latin-1 byte for byte.
pub open spec fn latin1_shared(text: Seq<char>) -> bool {
    forall|i: int|
        0 <= i < text.len() ==> (#[trigger] text[i] as u32) < 0x80 || 0xA0 <= (text[i] as u32)
            <= 0xFF
}

/// The encodings whose `encoding_rs` output encoding is UTF-8:
/// `Encoding::encode` writes the text's own UTF-8 bytes for them.
pub open spec fn outputs_utf8(name: Seq<char>) -> bool {
    name == "UTF-8"@ || name == "UTF-16LE"@ || name == "UTF-16BE"@ || name == "replacement"@
}

/// A top-level domain label that `chardetng` accepts: no upper-case ASCII
/// letter, no period and no non-ASCII byte.
pub open spec fn acceptable_tld(tld: Seq<u8>) -> bool {
    forall|i: int|
        0 <= i < tld.len() ==> !(0x41u8 <= #[trigger] tld[i] <= 0x5Au8) && tld[i] != 0x2Eu8
            && tld[i] < 0x80u8
}

/// The canonical names of the encodings of the Encoding Standard, in the order
/// in which the worker lists them.
pub open spec fn whatwg_names() -> Seq<Seq<char>> {
    seq![
        "UTF-8"@, "UTF-16LE"@, "UTF-16BE"@, "IBM866"@, "ISO-8859-2"@, "ISO-8859-3"@,
        "ISO-8859-4"@, "ISO-8859-5"@, "ISO-8859-6"@, "ISO-8859-7"@, "ISO-8859-8"@,
        "ISO-8859-8-I"@, "ISO-8859-10"@, "ISO-8859-13"@, "ISO-8859-14"@, "ISO-8859-15"@,
        "ISO-8859-16"@, "KOI8-R"@, "KOI8-U"@, "macintosh"@, "windows-874"@, "windows-1250"@,
        "windows-1251"@, "windows-1252"@, "windows-1253"@, "windows-1254"@, "windows-1255"@,
        "windows-1256"@, "windows-1257"@, "windows-1258"@, "x-mac-cyrillic"@, "GBK"@,
        "gb18030"@, "Big5"@, "EUC-JP"@, "ISO-2022-JP"@, "Shift_JIS"@, "EUC-KR"@,
        "replacement"@, "x-user-defined"@,
    ]
}

/// `encoding_rs::Encoding::for_bom`: the encoding that a byte-order mark at the
/// start of `bytes` declares, and the mark's length, exactly as
/// [`bom_encoding`] states.
#[verifier::external_body]
pub(crate) fn sniff_bom(bytes: &[u8]) -> (r: Option<(Codec, usize)>)
    ensures
        match r {
            Some((codec, len)) => bom_encoding(bytes@) == Some((codec@, len as nat)),
            None => bom_encoding(bytes@) is None,
        },
{
    match Encoding::for_bom(bytes) {
        Some((encoding, len)) => Some((Codec { encoding, name: encoding.name() }, len)),
        None => None,
    }
}

/// `encoding_rs::Encoding::for_label` on the bytes of `label`: the encoding
/// that the label names, as [`label_encoding`] names the result. The crate's
/// label table holds the lower-cased canonical name of each of its encodings
/// as a label of that encoding, and the lookup lowers ASCII letters first, so
/// a label that equals a canonical name up to ASCII case finds that encoding;
/// and every encoding the crate has is one of [`whatwg_names`].
#[verifier::external_body]
pub(crate) fn codec_for_label(label: &str) -> (r: Option<Codec>)
    ensures
        match r {
            Some(codec) => label_encoding(label@) == Some(codec@),
            None => label_encoding(label@) is None,
        },
        r matches Some(codec) ==> whatwg_names().contains(codec@),
        forall|name: Seq<char>|
            #[trigger] is_label_of(label@, name) ==> r is Some && r->0@ == name,
{
    match Encoding::for_label(label.as_bytes()) {
        Some(encoding) => Some(Codec { encoding, name: encoding.name() }),
        None => None,
    }
}

/// `encoding_rs::WINDOWS_1252`, whose canonical name is `"windows-1252"`.
#[verifier::external_body]
pub(crate) fn windows_1252() -> (r: Codec)
    ensures
        r@ == "windows-1252"@,
{
    Codec { encoding: WINDOWS_1252, name: WINDOWS_1252.name() }
}

/// `encoding_rs::Encoding::decode`: the source sniffs a byte-order mark with
/// `Encoding::for_bom`, which then overrides `codec` and is skipped, and
/// decodes the rest with `decode_without_bom_handling`, as
/// [`decoding_with_bom_sniffing`] states. The crate documents that malformed
/// sequences are replaced with U+FFFD, so when they were met the text holds
/// that character.
#[verifier::external_body]
pub(crate) fn decode(codec: &Codec, bytes: &[u8]) -> (r: (String, bool))
    ensures
        (r.0@, r.1) == decoding_with_bom_sniffing(codec@, bytes@),
        r.1 ==> r.0@.contains('\u{FFFD}'),
{
    let (text, _used, had_errors) = codec.encoding.decode(bytes);
    (text.into_owned(), had_errors)
}

/// `encoding_rs::Encoding::decode_without_bom_handling`: the decoded text and
/// whether malformed sequences were met, as [`decoding_without_bom`] names
/// them; a byte-order mark gets no special treatment. Malformed sequences are
/// replaced with U+FFFD, so when they were met the text holds that character.
/// The crate's windows-1252 table maps the 128 high bytes to 128 distinct
/// characters with no gap, and ASCII to itself, so windows-1252 bytes always
/// decode cleanly and encode back (`Encoding::encode`) to the same bytes with
/// nothing unmappable.
#[verifier::external_body]
pub(crate) fn decode_without_bom(codec: &Codec, bytes: &[u8]) -> (r: (String, bool))
    ensures
        (r.0@, r.1) == decoding_without_bom(codec@, bytes@),
        r.1 ==> r.0@.contains('\u{FFFD}'),
        codec@ == "windows-1252"@ ==> !r.1 && encoding_output("windows-1252"@, r.0@) == (
            bytes@,
            false,
        ),
{
    let (text, had_errors) = codec.encoding.decode_without_bom_handling(bytes);
    (text.into_owned(), had_errors)
}

/// `encoding_rs::Encoding::encode`: the encoded bytes and whether unmappable
/// characters were met, as [`encoding_output`] names them. The source returns
/// the text's own UTF-8 bytes, with no unmappable character, for the encodings
/// whose output encoding is UTF-8. Its windows-1252 encoder maps ASCII and
/// U+00A0..=U+00FF to the byte of the same value (the table's run at index 32),
/// and maps every other character of the table to that character's byte; as
/// the table's 128 entries are distinct, bytes written with nothing
/// unmappable decode back (`decode_without_bom_handling`) to the text.
#[verifier::external_body]
pub(crate) fn encode(codec: &Codec, text: &str) -> (r: (Vec<u8>, bool))
    ensures
        (r.0@, r.1) == encoding_output(codec@, text@),
        outputs_utf8(codec@) ==> r.0@ == vstd::utf8::encode_utf8(text@) && !r.1,
        codec@ == "windows-1252"@ && latin1_shared(text@) ==> !r.1 && r.0@ == text@.map_values(
            |c: char| c as u8,
        ),
        codec@ == "windows-1252"@ && !r.1 ==> decoding_without_bom("windows-1252"@, r.0@) == (
            text@,
            false,
        ),
{
    let (bytes, _used, had_unmappable) = codec.encoding.encode(text);
    (bytes.into_owned(), had_unmappable)
}

/// The canonical names of the 40 encodings of the Encoding Standard, read from
/// the `encoding_rs` statics `UTF_8` through `X_USER_DEFINED` by
/// `Encoding::name`, in the order of [`whatwg_names`].
#[verifier::external_body]
pub(crate) fn encoding_names() -> (r: Vec<&'static str>)
    ensures
        r@.len() == whatwg_names().len(),
        forall|i: int| 0 <= i < r@.len() ==> #[trigger] r@[i]@ == whatwg_names()[i],
{
    [
        UTF_8, UTF_16LE, UTF_16BE, IBM866, ISO_8859_2, ISO_8859_3, ISO_8859_4, ISO_8859_5,
        ISO_8859_6, ISO_8859_7, ISO_8859_8, ISO_8859_8_I, ISO_8859_10, ISO_8859_13, ISO_8859_14,
        ISO_8859_15, ISO_8859_16, KOI8_R, KOI8_U, MACINTOSH, WINDOWS_874, WINDOWS_1250,
        WINDOWS_1251, WINDOWS_1252, WINDOWS_1253, WINDOWS_1254, WINDOWS_1255, WINDOWS_1256,
        WINDOWS_1257, WINDOWS_1258, X_MAC_CYRILLIC, GBK, GB18030, BIG5, EUC_JP, ISO_2022_JP,
        SHIFT_JIS, EUC_KR, REPLACEMENT, X_USER_DEFINED,
    ].iter().map(|e| e.name()).collect()
}

/// `chardetng::EncodingDetector::new`: a detector that has been fed nothing.
#[verifier::external_body]
pub(crate) fn detector_new() -> (r: EncodingDetector)
    ensures
        detector_input(r) == Seq::<u8>::empty(),
        !detector_finished(r),
{
    EncodingDetector::new()
}

/// `chardetng::EncodingDetector::feed`: appends `buffer` to the stream; `last`
/// marks its end. The crate panics when fed again after the end, which
/// `requires` rules out. The returned flag (whether non-ASCII was seen) is
/// not stated.
#[verifier::external_body]
pub(crate) fn detector_feed(detector: &mut EncodingDetector, buffer: &[u8], last: bool) -> (r: bool)
    requires
        !detector_finished(*old(detector)),
    ensures
        detector_input(*final(detector)) == detector_input(*old(detector)) + buffer@,
        detector_finished(*final(detector)) == last,
{
    detector.feed(buffer, last)
}

/// `chardetng::EncodingDetector::guess`: the guessed encoding, as
/// [`chardet_guess`] names it; never UTF-8 when `allow_utf8` is false, and,
/// being one of the `encoding_rs` statics, one of [`whatwg_names`]. The
/// crate panics on a top-level domain with upper-case letters, periods or
/// non-ASCII, which `requires` rules out.
#[verifier::external_body]
pub(crate) fn detector_guess(detector: &EncodingDetector, tld: Option<&[u8]>, allow_utf8: bool) -> (r: Codec)
    requires
        tld matches Some(t) ==> acceptable_tld(t@),
    ensures
        r@ == chardet_guess(
            detector_input(*detector),
            detector_finished(*detector),
            match tld {
                Some(t) => Some(t@),
                None => None,
            },
            allow_utf8,
        ),
        !allow_utf8 ==> r@ != "UTF-8"@,
        whatwg_names().contains(r@),
{
    let encoding = detector.guess(tld, allow_utf8);
    Codec { encoding, name: encoding.name() }
}

} // verus!
