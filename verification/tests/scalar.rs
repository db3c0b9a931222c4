//! The scalar functions row by row, as the worker runs them over a batch.

use charset_worker::charset::Confidence;
use charset_worker::function::ColumnType;
use charset_worker::scalar::decode::{ToUtf8, ToUtf8From};
use charset_worker::scalar::detect::{DetectConfidence, DetectEncoding, IsValidUtf8};
use charset_worker::scalar::encode::{FixMojibake, Transcode};

const CAFE_1252: &[u8] = &[b'c', b'a', b'f', 0xE9];

#[test]
fn binds_utf8() {
    assert_eq!(ToUtf8.on_bind(), ColumnType::Utf8);
    assert_eq!(ToUtf8From.on_bind(), ColumnType::Utf8);
}

#[test]
fn to_utf8_decodes_and_nulls() {
    let empty: &[u8] = &[];
    let out = ToUtf8.process(&[Some(CAFE_1252), Some("ok".as_bytes()), Some(empty), None]);
    assert_eq!(out[0].as_deref(), Some("café"));
    assert_eq!(out[1].as_deref(), Some("ok"));
    assert!(out[2].is_none());
    assert!(out[3].is_none());
}

#[test]
fn decode_to_utf8_from_explicit_shift_jis() {
    let sjis: &[u8] = &[0x93, 0xFA, 0x96, 0x7B, 0x8C, 0xEA]; // 日本語
    let out = ToUtf8From
        .process(&[Some(sjis), None], &[Some("shift_jis"), Some("utf-8")])
        .unwrap();
    assert_eq!(out[0].as_deref(), Some("日本語"));
    assert!(out[1].is_none(), "NULL bytes -> NULL");
}

#[test]
fn decode_to_utf8_from_unknown_label_errors() {
    let abc: &[u8] = b"abc";
    let err = ToUtf8From.process(&[Some(abc)], &[Some("not-a-real-encoding")]);
    assert!(err.is_err(), "unknown label must error");
}

#[test]
fn detect_binds() {
    assert_eq!(DetectEncoding.on_bind(), ColumnType::Utf8);
    assert_eq!(DetectConfidence.on_bind(), ColumnType::Float64);
    assert_eq!(IsValidUtf8.on_bind(), ColumnType::Boolean);
}

#[test]
fn detect_encoding_known_inputs() {
    let empty: &[u8] = &[];
    let out = DetectEncoding.process(&[
        Some("Héllo wörld — façade".as_bytes()),
        Some(CAFE_1252),
        Some(empty),
        None,
    ]);
    assert_eq!(out[0], Some("UTF-8"));
    assert_eq!(out[1], Some("windows-1252"));
    assert!(out[2].is_none(), "empty -> NULL");
    assert!(out[3].is_none(), "NULL -> NULL");
}

#[test]
fn confidence_lossless_and_empty() {
    let empty: &[u8] = &[];
    let out = DetectConfidence.process(&[Some("hello".as_bytes()), Some(empty), None]);
    // Confidence 1 is the lossless measure.
    assert_eq!(out[0], Some(Confidence::Lossless));
    assert!(out[1].is_none());
    assert!(out[2].is_none());
}

#[test]
fn is_valid_utf8_rows() {
    let out = IsValidUtf8.process(&[Some("café".as_bytes()), Some(CAFE_1252), None]);
    assert_eq!(out[0], Some(true));
    assert_eq!(out[1], Some(false));
    assert!(out[2].is_none());
}

#[test]
fn encode_binds() {
    assert_eq!(Transcode.on_bind(), ColumnType::Binary);
    assert_eq!(FixMojibake.on_bind(), ColumnType::Utf8);
}

#[test]
fn transcode_to_1252_and_null() {
    let out = Transcode
        .process(&[Some("café"), None], &[Some("windows-1252"), Some("utf-8")])
        .unwrap();
    assert_eq!(out[0].as_deref(), Some(&[b'c', b'a', b'f', 0xE9][..]));
    assert!(out[1].is_none());
}

#[test]
fn encode_transcode_unknown_label_errors() {
    assert!(Transcode.process(&[Some("x")], &[Some("nope")]).is_err());
}

#[test]
fn fix_mojibake_rows() {
    let out = FixMojibake.process(&[Some("CafÃ©"), Some("Café"), Some("plain"), None]);
    assert_eq!(out[0].as_deref(), Some("Café"));
    assert_eq!(out[1].as_deref(), Some("Café")); // no-op on clean text
    assert_eq!(out[2].as_deref(), Some("plain"));
    assert!(out[3].is_none());
}

#[test]
fn transcode_round_trips_through_text_batch() {
    // A single-column text batch runs through a text scalar.
    let out = FixMojibake.process(&[Some("x")]);
    assert_eq!(out.len(), 1);
}

#[test]
fn process_errors_on_first_unknown_label_row() {
    let abc: &[u8] = b"abc";
    let err = ToUtf8From
        .process(&[Some(abc), Some(abc), Some(abc)], &[Some("utf-8"), Some("bogus"), Some("worse")])
        .unwrap_err();
    assert_eq!(err, "unknown encoding label: \"bogus\"");
    let err = Transcode
        .process(&[None, Some("x")], &[Some("bogus"), Some("nope")])
        .unwrap_err();
    // A NULL text skips its label; the first row that is encoded fails.
    assert_eq!(err, "unknown encoding label: \"nope\"");
}

#[test]
fn null_label_gives_null_row() {
    let out = ToUtf8From.process(&[Some(CAFE_1252)], &[None]).unwrap();
    assert!(out[0].is_none());
    let out = Transcode.process(&[Some("x")], &[None]).unwrap();
    assert!(out[0].is_none());
}

#[test]
fn scalar_names_and_arguments() {
    assert_eq!(ToUtf8.name(), "to_utf8");
    assert_eq!(ToUtf8From.name(), "to_utf8_from");
    assert_eq!(DetectEncoding.name(), "detect_encoding");
    assert_eq!(DetectConfidence.name(), "detect_confidence");
    assert_eq!(IsValidUtf8.name(), "is_valid_utf8");
    assert_eq!(Transcode.name(), "transcode");
    assert_eq!(FixMojibake.name(), "fix_mojibake");
    let args = ToUtf8From.argument_specs();
    assert_eq!(args.len(), 2);
    assert_eq!(args[1].name, "encoding");
    assert_eq!(args[1].position, 1);
    let args = Transcode.argument_specs();
    assert_eq!(args[0].sql_type.as_deref(), Some("varchar"));
}

#[test]
fn scalar_metadata_tags() {
    let doc = FixMojibake.metadata();
    assert_eq!(doc.return_type, Some(ColumnType::Utf8));
    let keys: Vec<&str> = doc.tags.iter().map(|(k, _)| k.as_str()).collect();
    assert_eq!(
        keys,
        vec!["vgi.title", "vgi.doc_llm", "vgi.doc_md", "vgi.keywords", "vgi.category", "vgi.example_queries"]
    );
    assert_eq!(doc.tags[4].1, "Encoding & Repair");
    assert!(doc.tags[3].1.starts_with("[\"fix mojibake\",\"repair mojibake\""));
    assert_eq!(
        doc.tags[5].1,
        "[{\"description\":\"Repair classic double-encoded mojibake, turning 'CafÃ©' back into 'Café'.\",\"sql\":\"SELECT charset.main.fix_mojibake('CafÃ©');\"}]"
    );
    let doc = ToUtf8.metadata();
    assert_eq!(doc.tags.len(), 5);
    assert_eq!(doc.examples[0].sql, "SELECT charset.main.to_utf8('\\x63\\x61\\x66\\xE9'::BLOB);");
    assert!(DetectEncoding.metadata().tags.is_empty());
}

#[test]
fn confidence_rows_are_lossy_only_with_replacements() {
    let out = DetectConfidence.process(&[Some(CAFE_1252)]);
    match out[0] {
        Some(Confidence::Lossy { replaced, total }) => assert!(1 <= replaced && replaced <= total),
        Some(_) => {}
        None => panic!("non-empty bytes have a confidence"),
    }
}
