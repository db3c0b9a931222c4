//! The catalog the worker serves: catalog `charset` (or the name it is
//! attached under), schema `main`, with its description, provenance, support
//! and license tags, and the `supported_encodings` table.
use vstd::prelude::*;

use crate::meta::{
    example_pairs, example_queries_json, keywords_json, spec_example_queries_json,
    spec_keywords_json, tag_views,
};
use crate::table::{is_encodings_table, supported_encodings_table, TableDoc};

verus! {

/// The worker's version, surfaced to discovery as the catalog's
/// implementation version.
pub fn version() -> (r: &'static str)
    ensures
        r@ == WORKER_VERSION@,
{
    WORKER_VERSION
}

/// The version of this worker build.
pub const WORKER_VERSION: &'static str = "0.1.0";

/// A schema of the catalog with its tags and tables.
pub struct SchemaDoc {
    pub name: String,
    pub comment: Option<String>,
    pub tags: Vec<(String, String)>,
    pub tables: Vec<TableDoc>,
}

/// The catalog with its description, tags, provenance, version and schemas.
pub struct CatalogDoc {
    pub name: String,
    pub comment: Option<String>,
    pub tags: Vec<(String, String)>,
    pub source_url: Option<String>,
    pub implementation_version: Option<String>,
    pub schemas: Vec<SchemaDoc>,
}

/// The catalog's one-line description.
pub const CATALOG_COMMENT: &'static str =
    "Character-encoding detection and UTF-8 transcoding (mojibake repair).";

/// The catalog's display title.
pub const CATALOG_TITLE: &'static str = "Character Encoding Detection & Transcoding";

/// The catalog's search keywords, comma-separated.
pub const CATALOG_KEYWORDS: &'static str =
    "charset, character encoding, encoding detection, transcode, transcoding, \
     UTF-8, mojibake, mojibake repair, decode, encode, windows-1252, latin-1, \
     shift_jis, chardetng, encoding_rs, BOM, garbled text";

/// The catalog's narrative for agents.
pub const CATALOG_DOC_LLM: &'static str =
    "Detect the character encoding of raw text bytes (BOM check plus the Firefox \
     chardetng heuristic), decode legacy/unlabelled bytes to UTF-8 (auto-detected or \
     with an explicit codec label like 'shift_jis'), encode UTF-8 back into a legacy \
     encoding's bytes, repair double-encoded mojibake such as 'CafÃ©' -> 'Café', test \
     whether bytes are already valid UTF-8, and list every supported encoding label. \
     Use for cleaning up imported text, fixing garbled characters, and normalising \
     mixed-encoding data to UTF-8 in SQL. Detection is heuristic, so pair \
     detect_encoding with detect_confidence before trusting a guess on short input.";

/// The catalog's narrative for human documentation.
pub const CATALOG_DOC_MD: &'static str =
    "# charset — detect text encoding and transcode to UTF-8 in SQL\n\n\
     Detect the character encoding of raw bytes and transcode legacy or \
     mojibake-garbled text into clean UTF-8 directly in DuckDB SQL — no Python \
     preprocessing step and no manual `iconv` passes.\n\n\
     ## What it does\n\n\
     `charset` is a [VGI](https://query.farm) worker that adds character-encoding \
     detection and UTF-8 transcoding to DuckDB over Apache Arrow. It is built for \
     data engineers and analysts wrangling text of unknown or mixed provenance: CSV \
     and log dumps in legacy Windows code pages, scraped HTML, email archives, and \
     columns that arrived double-encoded — the classic `CafÃ©`-instead-of-`Café` \
     mojibake. Rather than shelling out to external tools, you detect, repair, and \
     normalize encodings inline with ordinary SQL queries.\n\n\
     ## How it works\n\n\
     Encoding detection is powered by Mozilla's \
     [`chardetng`](https://github.com/hsivonen/chardetng) \
     ([docs](https://docs.rs/chardetng)), the same heuristic Firefox applies to \
     unlabelled legacy text. Decoding and encoding use \
     [`encoding_rs`](https://github.com/hsivonen/encoding_rs) \
     ([docs](https://docs.rs/encoding_rs)), the pure-Rust implementation of the \
     [WHATWG Encoding Standard](https://encoding.spec.whatwg.org/) that Firefox \
     ships for every web-platform codec. A byte-order-mark (BOM) check runs first; \
     undecodable bytes within a known encoding become the U+FFFD replacement \
     character rather than raising an error, while an unknown encoding *label* is \
     rejected so typos surface immediately.\n\n\
     ## When to reach for it\n\n\
     Reach for `charset` whenever a text column's bytes are of unknown, mixed, or \
     legacy provenance: sniff the likely encoding and score how trustworthy that \
     guess is, decode legacy bytes to UTF-8 either automatically or with an explicit \
     codec label, re-encode UTF-8 back into a legacy codec for export, repair \
     double-encoded mojibake, and check whether bytes are already clean UTF-8. \
     Because detection is heuristic, confidence-check short or ambiguous samples \
     before relying on a result. Empty or NULL input yields NULL everywhere.";

/// The analyst tasks used to measure how well an agent can use the worker.
pub const AGENT_TEST_TASKS: &'static str =
    "[\
     {\"name\":\"detect-utf8\",\
     \"prompt\":\"What encoding does this worker detect for the UTF-8 byte \
     representation of the text 'café'? Return only the single detected encoding \
     label as one column.\",\
     \"reference_sql\":\"SELECT charset.main.detect_encoding(charset.main.transcode('café', 'utf-8'));\",\
     \"ignore_column_names\":true},\
     {\"name\":\"detect-windows-1252\",\
     \"prompt\":\"What encoding does this worker detect for the windows-1252 byte \
     representation of the text 'café'? Return only the single detected encoding \
     label as one column.\",\
     \"reference_sql\":\"SELECT charset.main.detect_encoding(charset.main.transcode('café', 'windows-1252'));\",\
     \"ignore_column_names\":true},\
     {\"name\":\"decode-legacy\",\
     \"prompt\":\"Take the windows-1252 byte encoding of 'café' and decode it back into \
     UTF-8 text.\",\
     \"reference_sql\":\"SELECT charset.main.to_utf8(charset.main.transcode('café', 'windows-1252'));\",\
     \"ignore_column_names\":true},\
     {\"name\":\"fix-mojibake\",\
     \"prompt\":\"Repair the double-encoded mojibake string 'CafÃ©' into correct \
     UTF-8.\",\
     \"reference_sql\":\"SELECT charset.main.fix_mojibake('CafÃ©');\",\
     \"ignore_column_names\":true},\
     {\"name\":\"is-valid-utf8\",\
     \"prompt\":\"Treating the ASCII text 'hello' as raw bytes, does this worker \
     consider them valid UTF-8? Return only the single boolean result as one \
     column.\",\
     \"reference_sql\":\"SELECT charset.main.is_valid_utf8('hello'::BLOB);\",\
     \"ignore_column_names\":true},\
     {\"name\":\"count-encodings\",\
     \"prompt\":\"How many distinct character encodings does this worker support?\",\
     \"reference_sql\":\"SELECT count(*) FROM charset.main.supported_encodings();\",\
     \"ignore_column_names\":true},\
     {\"name\":\"confidence-threshold\",\
     \"prompt\":\"Does this worker report full confidence — a score of exactly 1.0 — \
     for the UTF-8 byte representation of the text 'hello'? Return only a single \
     boolean value as one column.\",\
     \"reference_sql\":\"SELECT charset.main.detect_confidence(charset.main.transcode('hello', 'utf-8')) = 1.0;\",\
     \"ignore_column_names\":true},\
     {\"name\":\"decode-explicit-label\",\
     \"prompt\":\"Using the explicit-codec decode function (not auto-detection), decode \
     the windows-1252 byte representation of 'café' by naming the codec \
     'windows-1252'. Return the decoded text.\",\
     \"reference_sql\":\"SELECT charset.main.to_utf8_from(charset.main.transcode('café', 'windows-1252'), 'windows-1252');\",\
     \"ignore_column_names\":true}\
     ]";

/// The project's source repository.
pub const SOURCE_URL: &'static str = "https://github.com/Query-farm/vgi-charset";

/// The `main` schema's one-line description.
pub const SCHEMA_COMMENT: &'static str =
    "Character-encoding detection and UTF-8 transcoding functions.";

/// The `main` schema's search keywords, comma-separated.
pub const SCHEMA_KEYWORDS: &'static str =
    "charset, character encoding, detect_encoding, detect_confidence, \
     is_valid_utf8, to_utf8, to_utf8_from, transcode, fix_mojibake, \
     supported_encodings, mojibake, UTF-8, decode, encode, transcoding";

/// The category registry of the `main` schema, in listing order.
pub const SCHEMA_CATEGORIES: &'static str =
    "[\
     {\"name\":\"Detection\",\"description\":\"Identify the character encoding \
     of raw bytes, score confidence in the guess, and test for valid UTF-8.\"},\
     {\"name\":\"Decoding\",\"description\":\"Turn legacy or unlabelled bytes \
     into clean UTF-8, auto-detected or with an explicit codec label.\"},\
     {\"name\":\"Encoding & Repair\",\"description\":\"Encode UTF-8 back into a \
     legacy codec's bytes and repair double-encoded mojibake.\"},\
     {\"name\":\"Discovery\",\"description\":\"Enumerate the supported encoding \
     labels the worker accepts.\"}\
     ]";

/// The `main` schema's narrative for agents.
pub const SCHEMA_DOC_LLM: &'static str =
    "The `main` schema of the charset worker. It exposes character-encoding \
     functions: detect the encoding of text bytes, score detection confidence, \
     test for valid UTF-8, decode bytes to UTF-8 (auto-detected or with an \
     explicit label), encode UTF-8 into a legacy encoding, repair double-encoded \
     mojibake, and enumerate supported encodings. All functions are catalog- \
     qualified as charset.main.<fn>(...) and operate row-wise over Arrow.";

/// The `main` schema's narrative for human documentation.
pub const SCHEMA_DOC_MD: &'static str =
    "## charset.main\n\n\
     Character-encoding detection and UTF-8 transcoding over Apache Arrow. \
     The `main` schema groups its functions into detection (identify an \
     encoding and score confidence), decoding (turn legacy or unlabelled bytes \
     into clean UTF-8), encoding and repair (write UTF-8 back into a legacy \
     codec and fix double-encoded mojibake), and discovery (enumerate supported \
     encodings). Every function is catalog-qualified as \
     `charset.main.<fn>(...)` and operates row-wise.\n\n\
     ### Usage\n\n\
     ```sql\n\
     SELECT charset.main.to_utf8('\\x63\\x61\\x66\\xE9'::BLOB); -- 'café'\n\
     ```";

/// The described example queries of the `main` schema.
pub open spec fn schema_examples() -> Seq<(Seq<char>, Seq<char>)> {
    seq![
        (SCHEMA_EXAMPLE_1.0@, SCHEMA_EXAMPLE_1.1@),
        (SCHEMA_EXAMPLE_2.0@, SCHEMA_EXAMPLE_2.1@),
        (SCHEMA_EXAMPLE_3.0@, SCHEMA_EXAMPLE_3.1@),
        (SCHEMA_EXAMPLE_4.0@, SCHEMA_EXAMPLE_4.1@),
        (SCHEMA_EXAMPLE_5.0@, SCHEMA_EXAMPLE_5.1@),
        (SCHEMA_EXAMPLE_6.0@, SCHEMA_EXAMPLE_6.1@),
        (SCHEMA_EXAMPLE_7.0@, SCHEMA_EXAMPLE_7.1@),
    ]
}

/// An example query of the `main` schema: its description and its SQL.
pub const SCHEMA_EXAMPLE_1: (&'static str, &'static str) = (
    "Detect the character encoding of windows-1252 bytes for \"café\".",
    "SELECT charset.main.detect_encoding('\\x63\\x61\\x66\\xE9'::BLOB);",
);

/// An example query of the `main` schema: its description and its SQL.
pub const SCHEMA_EXAMPLE_2: (&'static str, &'static str) = (
    "Auto-detect and decode windows-1252 bytes to a UTF-8 string.",
    "SELECT charset.main.to_utf8('\\x63\\x61\\x66\\xE9'::BLOB);",
);

/// An example query of the `main` schema: its description and its SQL.
pub const SCHEMA_EXAMPLE_3: (&'static str, &'static str) = (
    "Decode Shift-JIS bytes to UTF-8 with an explicit codec label.",
    "SELECT charset.main.to_utf8_from('\\x93\\xFA\\x96\\x7B'::BLOB, \
     'shift_jis');",
);

/// An example query of the `main` schema: its description and its SQL.
pub const SCHEMA_EXAMPLE_4: (&'static str, &'static str) = (
    "Encode a UTF-8 string into windows-1252 bytes for export.",
    "SELECT charset.main.transcode('café', 'windows-1252');",
);

/// An example query of the `main` schema: its description and its SQL.
pub const SCHEMA_EXAMPLE_5: (&'static str, &'static str) = (
    "Repair double-encoded mojibake back to clean UTF-8.",
    "SELECT charset.main.fix_mojibake('CafÃ©');",
);

/// An example query of the `main` schema: its description and its SQL.
pub const SCHEMA_EXAMPLE_6: (&'static str, &'static str) = (
    "Check whether bytes are already valid UTF-8.",
    "SELECT charset.main.is_valid_utf8('\\x63\\x61\\x66\\xC3\\xA9'::BLOB);",
);

/// An example query of the `main` schema: its description and its SQL.
pub const SCHEMA_EXAMPLE_7: (&'static str, &'static str) = (
    "List the first few supported encoding labels.",
    "SELECT * FROM charset.main.supported_encodings() LIMIT 5;",
);

/// The catalog's tags, in order.
pub open spec fn catalog_tags() -> Seq<(Seq<char>, Seq<char>)> {
    seq![
        ("vgi.title"@, CATALOG_TITLE@),
        ("vgi.keywords"@, spec_keywords_json(CATALOG_KEYWORDS@)),
        ("vgi.doc_llm"@, CATALOG_DOC_LLM@),
        ("vgi.doc_md"@, CATALOG_DOC_MD@),
        ("vgi.author"@, "Query.Farm"@),
        ("vgi.copyright"@, "Copyright 2026 Query Farm LLC - https://query.farm"@),
        ("vgi.license"@, "MIT"@),
        ("vgi.support_contact"@, "https://github.com/Query-farm/vgi-charset/issues"@),
        ("vgi.support_policy_url"@, "https://github.com/Query-farm/vgi-charset/blob/main/README.md"@),
        ("vgi.agent_test_tasks"@, AGENT_TEST_TASKS@),
    ]
}

/// The `main` schema's tags, in order.
pub open spec fn schema_tags() -> Seq<(Seq<char>, Seq<char>)> {
    seq![
        ("vgi.title"@, "Charset — main"@),
        ("vgi.keywords"@, spec_keywords_json(SCHEMA_KEYWORDS@)),
        ("domain"@, "text-processing"@),
        ("category"@, "character-encoding"@),
        ("topic"@, "encoding-detection-and-transcoding"@),
        ("vgi.categories"@, SCHEMA_CATEGORIES@),
        ("vgi.doc_llm"@, SCHEMA_DOC_LLM@),
        ("vgi.doc_md"@, SCHEMA_DOC_MD@),
        ("vgi.example_queries"@, spec_example_queries_json(schema_examples())),
    ]
}

fn tag(key: &str, value: &str) -> (r: (String, String))
    ensures
        r.0@ == key@,
        r.1@ == value@,
{
    (String::from_str(key), String::from_str(value))
}

/// The catalog and schema metadata, for the catalog attached under `name`:
/// description, provenance, support and license tags, the agent test tasks,
/// the version of this build, and the `main` schema with its category
/// registry, examples and the `supported_encodings` table.
pub fn catalog_metadata(name: &str) -> (r: CatalogDoc)
    ensures
        r.name@ == name@,
        r.comment matches Some(c) && c@ == CATALOG_COMMENT@,
        r.source_url matches Some(u) && u@ == SOURCE_URL@,
        r.implementation_version matches Some(v) && v@ == WORKER_VERSION@,
        tag_views(r.tags@) == catalog_tags(),
        r.schemas@.len() == 1,
        r.schemas@[0].name@ == "main"@,
        r.schemas@[0].comment matches Some(c) && c@ == SCHEMA_COMMENT@,
        tag_views(r.schemas@[0].tags@) == schema_tags(),
        r.schemas@[0].tables@.len() == 1,
        is_encodings_table(r.schemas@[0].tables@[0]),
{
    let examples: Vec<(&str, &str)> = vec![
        SCHEMA_EXAMPLE_1,
        SCHEMA_EXAMPLE_2,
        SCHEMA_EXAMPLE_3,
        SCHEMA_EXAMPLE_4,
        SCHEMA_EXAMPLE_5,
        SCHEMA_EXAMPLE_6,
        SCHEMA_EXAMPLE_7,
    ];
    assert(example_pairs(examples@) =~= schema_examples());
    let main_tags: Vec<(String, String)> = vec![
        tag("vgi.title", "Charset — main"),
        (String::from_str("vgi.keywords"), keywords_json(SCHEMA_KEYWORDS)),
        tag("domain", "text-processing"),
        tag("category", "character-encoding"),
        tag("topic", "encoding-detection-and-transcoding"),
        tag("vgi.categories", SCHEMA_CATEGORIES),
        tag("vgi.doc_llm", SCHEMA_DOC_LLM),
        tag("vgi.doc_md", SCHEMA_DOC_MD),
        (String::from_str("vgi.example_queries"), example_queries_json(examples.as_slice())),
    ];
    assert(tag_views(main_tags@) =~= schema_tags());
    let schema = SchemaDoc {
        name: String::from_str("main"),
        comment: Some(String::from_str(SCHEMA_COMMENT)),
        tags: main_tags,
        tables: vec![supported_encodings_table()],
    };
    let tags: Vec<(String, String)> = vec![
        tag("vgi.title", CATALOG_TITLE),
        (String::from_str("vgi.keywords"), keywords_json(CATALOG_KEYWORDS)),
        tag("vgi.doc_llm", CATALOG_DOC_LLM),
        tag("vgi.doc_md", CATALOG_DOC_MD),
        tag("vgi.author", "Query.Farm"),
        tag("vgi.copyright", "Copyright 2026 Query Farm LLC - https://query.farm"),
        tag("vgi.license", "MIT"),
        tag("vgi.support_contact", "https://github.com/Query-farm/vgi-charset/issues"),
        tag("vgi.support_policy_url", "https://github.com/Query-farm/vgi-charset/blob/main/README.md"),
        tag("vgi.agent_test_tasks", AGENT_TEST_TASKS),
    ];
    assert(tag_views(tags@) =~= catalog_tags());
    CatalogDoc {
        name: String::from_str(name),
        comment: Some(String::from_str(CATALOG_COMMENT)),
        tags,
        source_url: Some(String::from_str(SOURCE_URL)),
        implementation_version: Some(String::from_str(version())),
        schemas: vec![schema],
    }
}

} // verus!
