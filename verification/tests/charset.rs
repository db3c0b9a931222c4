//! The encoding engine on known byte sequences.

use charset_worker::charset::{
    confidence_measure, detect, fix_mojibake, is_valid_utf8, supported_encodings, to_utf8,
    to_utf8_from, transcode, Confidence,
};

// windows-1252 bytes for "café": é is 0xE9 in 1252 (and in Latin-1).
const CAFE_1252: &[u8] = &[b'c', b'a', b'f', 0xE9];

#[test]
fn detects_windows_1252_smart_quotes() {
    // "Hello" in 1252 curly quotes 0x93 / 0x94 around ASCII.
    let bytes = &[
        0x93, b'H', b'i', 0x94, b' ', b'w', b'o', b'r', b'l', b'd', b'!',
    ];
    let enc = detect(bytes).unwrap();
    assert_eq!(enc, "windows-1252", "got {enc}");
}

#[test]
fn detects_utf8() {
    let bytes = "Héllo, wörld — naïve façade".as_bytes();
    assert_eq!(detect(bytes), Some("UTF-8"));
}

#[test]
fn detects_utf16_bom() {
    // UTF-16LE BOM (FF FE) + "Hi"
    let le = &[0xFF, 0xFE, b'H', 0x00, b'i', 0x00];
    assert_eq!(detect(le), Some("UTF-16LE"));
    // UTF-16BE BOM (FE FF) + "Hi"
    let be = &[0xFE, 0xFF, 0x00, b'H', 0x00, b'i'];
    assert_eq!(detect(be), Some("UTF-16BE"));
}

#[test]
fn empty_detect_is_none() {
    assert_eq!(detect(&[]), None);
    // An empty input has confidence 0: the measure reports it as empty.
    assert_eq!(confidence_measure(&[]), Confidence::Empty);
    assert!(to_utf8(&[]).is_none());
}

#[test]
fn to_utf8_decodes_cafe() {
    assert_eq!(to_utf8(CAFE_1252).unwrap(), "café");
}

#[test]
fn charset_to_utf8_from_explicit_shift_jis() {
    // "日本語" in Shift_JIS.
    let sjis = &[0x93, 0xFA, 0x96, 0x7B, 0x8C, 0xEA];
    assert_eq!(to_utf8_from(sjis, "shift_jis").unwrap(), "日本語");
}

#[test]
fn charset_to_utf8_from_unknown_label_errors() {
    assert!(to_utf8_from(b"abc", "not-a-real-encoding").is_err());
}

#[test]
fn charset_transcode_round_trip_lossless() {
    // café -> windows-1252 bytes -> back to café.
    let bytes = transcode("café", "windows-1252").unwrap();
    assert_eq!(bytes, CAFE_1252);
    assert_eq!(to_utf8_from(&bytes, "windows-1252").unwrap(), "café");
}

#[test]
fn charset_transcode_unknown_label_errors() {
    assert!(transcode("x", "nope").is_err());
}

#[test]
fn confidence_lossless_is_one() {
    // Confidence 1 is the lossless measure.
    assert_eq!(confidence_measure("hello".as_bytes()), Confidence::Lossless);
    assert_eq!(confidence_measure(CAFE_1252), Confidence::Lossless); // decodes cleanly as 1252
}

#[test]
fn charset_fix_mojibake_cafe() {
    // "CafÃ©" is the mojibake of "Café".
    assert_eq!(fix_mojibake("CafÃ©"), "Café");
}

#[test]
fn fix_mojibake_noop_on_clean_text() {
    assert_eq!(fix_mojibake("Café"), "Café");
    assert_eq!(fix_mojibake("plain ascii"), "plain ascii");
}

#[test]
fn is_valid_utf8_checks() {
    assert!(is_valid_utf8("café".as_bytes()));
    assert!(!is_valid_utf8(CAFE_1252)); // 0xE9 alone is not valid UTF-8
}

#[test]
fn supported_set_nonempty_and_has_utf8() {
    let set = supported_encodings();
    assert!(!set.is_empty());
    assert!(set.contains(&"UTF-8"));
    assert!(set.contains(&"Shift_JIS"));
}
