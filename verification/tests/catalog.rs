//! The catalog, the discovery table and its producer.

use charset_worker::catalog::{catalog_metadata, version};
use charset_worker::charset::supported_encodings;
use charset_worker::function::ColumnType;
use charset_worker::table::{output_columns, supported_encodings_table, SupportedEncodings};

#[test]
fn version_is_the_build_version() {
    assert_eq!(version(), "0.1.0");
}

#[test]
fn catalog_has_main_schema_and_table() {
    let catalog = catalog_metadata("charset");
    assert_eq!(catalog.name, "charset");
    assert_eq!(catalog.implementation_version.as_deref(), Some("0.1.0"));
    assert_eq!(catalog.source_url.as_deref(), Some("https://github.com/Query-farm/vgi-charset"));
    assert_eq!(catalog.tags[6], ("vgi.license".to_string(), "MIT".to_string()));
    assert!(catalog.tags[1].1.starts_with("[\"charset\",\"character encoding\",\"encoding detection\""));
    assert_eq!(catalog.schemas.len(), 1);
    let schema = &catalog.schemas[0];
    assert_eq!(schema.name, "main");
    assert_eq!(schema.tables.len(), 1);
    assert_eq!(schema.tables[0].name, "supported_encodings");
    assert_eq!(schema.tags[8].0, "vgi.example_queries");
    assert!(schema.tags[8].1.starts_with(
        "[{\"description\":\"Detect the character encoding of windows-1252 bytes for \\\"café\\\".\",\"sql\":\"SELECT charset.main.detect_encoding('\\\\x63\\\\x61\\\\x66\\\\xE9'::BLOB);\"}"
    ));
    assert_eq!(catalog_metadata("renamed").name, "renamed");
}

#[test]
fn supported_table_declares_label_key() {
    let table = supported_encodings_table();
    assert_eq!(table.name, "supported_encodings");
    assert_eq!(table.estimated_rows, Some(supported_encodings().len() as i64));
    assert_eq!(table.primary_key, vec![vec![0]]);
    assert_eq!(table.not_null, vec![0]);
    assert_eq!(table.unique, vec![vec![0]]);
    assert_eq!(table.tags[7], ("vgi.category".to_string(), "Discovery".to_string()));
    let columns = output_columns();
    assert_eq!(columns.len(), 1);
    assert_eq!(columns[0].name, "label");
    assert_eq!(columns[0].column_type, ColumnType::Utf8);
    assert!(!columns[0].nullable);
}

#[test]
fn producer_yields_one_batch() {
    let mut producer = SupportedEncodings.producer();
    let batch = producer.next_batch().unwrap();
    assert_eq!(batch, supported_encodings());
    assert_eq!(batch.len(), 40);
    assert!(producer.next_batch().is_none());
    assert!(producer.next_batch().is_none());
}

#[test]
fn supported_function_metadata() {
    let doc = SupportedEncodings.metadata();
    assert_eq!(SupportedEncodings.name(), "supported_encodings");
    assert!(SupportedEncodings.argument_specs().is_empty());
    let keys: Vec<&str> = doc.tags.iter().map(|(k, _)| k.as_str()).collect();
    assert_eq!(keys[5], "vgi.result_columns_md");
    assert_eq!(keys[6], "vgi.executable_examples");
}
