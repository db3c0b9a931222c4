//! The engine's laws on concrete values, and the outside calls seen through
//! the library.

use charset_worker::charset::{
    confidence_measure, detect, fix_mojibake, is_valid_utf8, repair_mojibake, supported_encodings,
    to_utf8, to_utf8_from, transcode, Confidence,
};

#[test]
fn bom_decides_detection() {
    // A UTF-8 BOM in front of windows-1252 bytes still means UTF-8.
    assert_eq!(detect(&[0xEF, 0xBB, 0xBF, b'c', b'a', b'f', 0xE9]), Some("UTF-8"));
    assert_eq!(detect(&[0xFF, 0xFE]), Some("UTF-16LE"));
    // A BOM makes the measure lossless even when the rest is malformed.
    assert_eq!(confidence_measure(&[0xEF, 0xBB, 0xBF, 0xFF]), Confidence::Lossless);
}

#[test]
fn to_utf8_strips_the_bom() {
    assert_eq!(to_utf8(&[0xEF, 0xBB, 0xBF, b'h', b'i']).unwrap(), "hi");
    assert_eq!(to_utf8(&[0xFF, 0xFE, b'H', 0x00, b'i', 0x00]).unwrap(), "Hi");
}

#[test]
fn unknown_labels_rejected_alike() {
    let a = to_utf8_from(b"x", "klingon").unwrap_err();
    let b = transcode("x", "klingon").unwrap_err();
    assert_eq!(a, b);
    assert_eq!(a, "unknown encoding label: \"klingon\"");
    // Labels are matched case-insensitively with surrounding white space.
    assert_eq!(to_utf8_from(&[0xE9], " Latin1 ").unwrap(), "é");
}

#[test]
fn utf8_label_writes_the_strings_own_bytes() {
    for label in ["utf-8", "UTF-8", "Utf-8"] {
        let bytes = transcode("café", label).unwrap();
        assert_eq!(bytes, "café".as_bytes());
        assert!(is_valid_utf8(&bytes));
    }
}

#[test]
fn utf16_labels_write_utf16_code_units() {
    assert_eq!(transcode("Hi", "UTF-16LE").unwrap(), vec![0x48, 0x00, 0x69, 0x00]);
    assert_eq!(transcode("Hi", "UTF-16BE").unwrap(), vec![0x00, 0x48, 0x00, 0x69]);
    assert_eq!(transcode("é", "utf-16le").unwrap(), vec![0xE9, 0x00]);
    // U+1F600 is the surrogate pair D83D DE00.
    assert_eq!(transcode("😀", "utf-16le").unwrap(), vec![0x3D, 0xD8, 0x00, 0xDE]);
    assert_eq!(transcode("😀", "utf-16be").unwrap(), vec![0xD8, 0x3D, 0xDE, 0x00]);
    // No byte-order mark is written.
    assert_eq!(transcode("", "UTF-16LE").unwrap(), Vec::<u8>::new());
}

#[test]
fn utf16_encoding_is_lossless() {
    let text = "café — 日本語 😀 \u{10FFFF}";
    for label in ["UTF-16LE", "UTF-16BE"] {
        let bytes = transcode(text, label).unwrap();
        assert_eq!(to_utf8_from(&bytes, label).unwrap(), text);
    }
    let bytes = transcode(text, "utf-8").unwrap();
    assert_eq!(to_utf8_from(&bytes, "utf-8").unwrap(), text);
}

#[test]
fn explicit_label_does_no_bom_detection() {
    let bytes = [0xEF, 0xBB, 0xBF, b'a'];
    assert_eq!(to_utf8_from(&bytes, "windows-1252").unwrap(), "ï»¿a");
    assert_eq!(to_utf8_from(&bytes, "utf-8").unwrap(), "\u{FEFF}a");
    assert_eq!(to_utf8(&bytes).unwrap(), "a");
    // A UTF-16 mark does not override an explicit label either.
    assert_eq!(to_utf8_from(&[0xFF, 0xFE, b'a'], "latin1").unwrap(), "ÿþa");
}

#[test]
fn transcode_writes_character_references_for_unmappables() {
    assert_eq!(transcode("a€日", "iso-8859-1").unwrap(), b"a\x80&#26085;");
}

#[test]
fn fix_mojibake_strictly_improves() {
    // Windows-1252 bytes that are not UTF-8: left alone.
    assert_eq!(fix_mojibake("Ã©Ã"), "Ã©Ã");
    // "Ã‚" reads as "Â": valid UTF-8, but no fewer markers, so left alone.
    assert_eq!(fix_mojibake("Ã‚"), "Ã‚");
    // "â€™" reads as "’": three markers become one.
    assert_eq!(fix_mojibake("itâ€™s"), "it’s");
    // Text with characters outside windows-1252 is left alone.
    assert_eq!(fix_mojibake("CafÃ© 日本"), "CafÃ© 日本");
    // Text without markers is left alone.
    assert_eq!(fix_mojibake("naïve façade"), "naïve façade");
}

#[test]
fn repair_takes_the_encoded_bytes() {
    let bytes = [b'C', b'a', b'f', 0xC3, 0xA9];
    assert_eq!(repair_mojibake("CafÃ©", &bytes, false).as_deref(), Some("Café"));
    assert_eq!(repair_mojibake("CafÃ©", &bytes, true), None);
    assert_eq!(repair_mojibake("CafÃ©", &[0xC3], false), None);
    // No fewer markers: no repair.
    assert_eq!(repair_mojibake("Café", &bytes, false), None);
}

#[test]
fn string_bytes_are_valid_utf8() {
    for s in ["", "plain", "café", "日本語", "\u{10FFFF}\u{0}"] {
        assert!(is_valid_utf8(s.as_bytes()));
    }
}

#[test]
fn utf8_validation_rejects_ill_formed_sequences() {
    assert!(is_valid_utf8(&[]));
    assert!(!is_valid_utf8(&[0xC0, 0x80])); // overlong NUL
    assert!(!is_valid_utf8(&[0xC1, 0xBF])); // overlong
    assert!(!is_valid_utf8(&[0xE0, 0x80, 0x80])); // overlong 3-byte
    assert!(!is_valid_utf8(&[0xED, 0xA0, 0x80])); // surrogate U+D800
    assert!(!is_valid_utf8(&[0xF4, 0x90, 0x80, 0x80])); // above U+10FFFF
    assert!(!is_valid_utf8(&[0xF8, 0x88, 0x80, 0x80, 0x80])); // 5-byte form
    assert!(!is_valid_utf8(&[0xE6, 0x97])); // truncated
    assert!(!is_valid_utf8(&[0x80])); // lone continuation
    assert!(is_valid_utf8(&[0xF0, 0x9F, 0x98, 0x80])); // U+1F600
    assert!(is_valid_utf8(&[0xEF, 0xBF, 0xBF])); // U+FFFF
}

#[test]
fn supported_encodings_are_the_whatwg_names() {
    let names = supported_encodings();
    assert_eq!(names.len(), 40);
    assert_eq!(names[0], "UTF-8");
    assert_eq!(names[38], "replacement");
    assert_eq!(names[39], "x-user-defined");
    // Every listed name is also a label that decodes and encodes.
    for name in &names {
        assert!(to_utf8_from(b"a", name).is_ok(), "{name}");
        assert!(transcode("a", name).is_ok(), "{name}");
    }
    // The replacement encoding turns any non-empty input into U+FFFD.
    assert_eq!(to_utf8_from(b"abc", "replacement").unwrap(), "\u{FFFD}");
}

#[test]
fn to_utf8_decodes_as_the_detected_label() {
    for bytes in [&b"caf\xE9"[..], "日本語 テキスト".as_bytes(), &[0x93, 0x94, b'x']] {
        let label = detect(bytes).unwrap();
        assert!(supported_encodings().contains(&label));
        assert_eq!(to_utf8(bytes).unwrap(), to_utf8_from(bytes, label).unwrap());
    }
}

#[test]
fn canonical_names_in_any_case_are_labels() {
    for name in supported_encodings() {
        let lower = name.to_ascii_lowercase();
        let upper = name.to_ascii_uppercase();
        assert_eq!(
            to_utf8_from(b"abc", &lower).unwrap(),
            to_utf8_from(b"abc", name).unwrap(),
            "{name}"
        );
        assert_eq!(transcode("abc", &upper).unwrap(), transcode("abc", name).unwrap(), "{name}");
    }
}

#[test]
fn fix_mojibake_undoes_windows_1252_misreading() {
    for text in ["Café", "it’s “quoted” — naïve", "Äpfel", "Grüße"] {
        let misread = to_utf8_from(text.as_bytes(), "windows-1252").unwrap();
        assert_ne!(misread, text);
        assert_eq!(transcode(&misread, "windows-1252").unwrap(), text.as_bytes());
        assert_eq!(fix_mojibake(&misread), text, "{misread}");
    }
    // Without added markers the misreading is not recognised, and stays.
    let misread = to_utf8_from("日本語".as_bytes(), "windows-1252").unwrap();
    assert_eq!(misread, "æ—¥æœ¬èªž");
    assert_eq!(fix_mojibake(&misread), misread);
}

#[test]
fn windows_1252_encode_then_decode_gives_the_text_back() {
    // Latin-1 characters are written as the byte of the same value.
    assert_eq!(transcode("naïve façade ÿ", "windows-1252").unwrap(), b"na\xEFve fa\xE7ade \xFF");
    for text in ["naïve façade", "“quoted” – €5 ™", "Œuvre š ž Ÿ"] {
        let bytes = transcode(text, "windows-1252").unwrap();
        assert_eq!(to_utf8_from(&bytes, "windows-1252").unwrap(), text);
    }
    // An unmappable character is written as a reference, which reads back as such.
    let bytes = transcode("日", "windows-1252").unwrap();
    assert_eq!(to_utf8_from(&bytes, "windows-1252").unwrap(), "&#26085;");
}
