//! The discovery metadata helpers.

use charset_worker::meta::{example_queries_json, keywords_json, object_tags};

#[test]
fn keywords_json_trims_and_drops_empty_terms() {
    assert_eq!(keywords_json("a, b"), "[\"a\",\"b\"]");
    assert_eq!(keywords_json(" a ,, \t b ,"), "[\"a\",\"b\"]");
    assert_eq!(keywords_json(""), "[]");
    assert_eq!(keywords_json(" , ,"), "[]");
    assert_eq!(keywords_json("one"), "[\"one\"]");
}

#[test]
fn keywords_json_escapes_quotes_and_backslashes() {
    assert_eq!(keywords_json("say \"hi\", a\\b"), "[\"say \\\"hi\\\"\",\"a\\\\b\"]");
}

#[test]
fn keywords_json_trims_unicode_white_space() {
    assert_eq!(keywords_json("\u{3000}wide\u{A0}, x"), "[\"wide\",\"x\"]");
}

#[test]
fn example_queries_json_escapes_controls() {
    let json = example_queries_json(&[("d\n1", "SELECT '\\xE9'"), ("t\u{1}", "q\t")]);
    assert_eq!(
        json,
        "[{\"description\":\"d\\n1\",\"sql\":\"SELECT '\\\\xE9'\"},{\"description\":\"t\\u0001\",\"sql\":\"q\\t\"}]"
    );
    assert_eq!(example_queries_json(&[]), "[]");
    assert_eq!(
        example_queries_json(&[("\u{1f}\r", "")]),
        "[{\"description\":\"\\u001f\\r\",\"sql\":\"\"}]"
    );
}

#[test]
fn object_tags_without_examples() {
    let tags = object_tags("T", "llm", "md", "k1, k2", "Cat", &[]);
    let expected: Vec<(String, String)> = vec![
        ("vgi.title".into(), "T".into()),
        ("vgi.doc_llm".into(), "llm".into()),
        ("vgi.doc_md".into(), "md".into()),
        ("vgi.keywords".into(), "[\"k1\",\"k2\"]".into()),
        ("vgi.category".into(), "Cat".into()),
    ];
    assert_eq!(tags, expected);
}

#[test]
fn object_tags_with_examples() {
    let tags = object_tags("T", "l", "m", "k", "C", &[("desc", "SELECT 1")]);
    assert_eq!(tags.len(), 6);
    assert_eq!(tags[5].0, "vgi.example_queries");
    assert_eq!(tags[5].1, "[{\"description\":\"desc\",\"sql\":\"SELECT 1\"}]");
}

#[test]
fn json_output_holds_no_control_characters() {
    let keywords = keywords_json("a\u{0}b, tab\there, new\nline, bell\u{7}");
    assert!(keywords.chars().all(|c| c >= ' '), "{keywords}");
    assert_eq!(keywords, "[\"a\\u0000b\",\"tab\\there\",\"new\\nline\",\"bell\\u0007\"]");
    let examples = example_queries_json(&[("\u{1b}[0m", "x\u{c}")]);
    assert!(examples.chars().all(|c| c >= ' '), "{examples}");
}

#[test]
fn plain_terms_are_written_as_they_are() {
    assert_eq!(keywords_json("café, 日本語, a/b"), "[\"café\",\"日本語\",\"a/b\"]");
    assert_eq!(
        example_queries_json(&[("plain", "SELECT 1")]),
        "[{\"description\":\"plain\",\"sql\":\"SELECT 1\"}]"
    );
}
