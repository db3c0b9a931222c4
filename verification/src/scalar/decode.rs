//! Decoding scalars (bytes to UTF-8 VARCHAR):
//!
//! - `to_utf8(bytes) -> VARCHAR`: detect the encoding, then decode.
//! - `to_utf8_from(bytes, encoding VARCHAR) -> VARCHAR`: decode with an
//!   explicit label (no detection).
//!
//! NULL or empty input gives NULL. For `to_utf8_from`, an unknown encoding
//! label is a caller error that fails the whole call; undecodable bytes
//! within a known encoding become U+FFFD.
use vstd::prelude::*;

use crate::charset::{spec_to_utf8, spec_to_utf8_from, to_utf8, to_utf8_from};
use crate::function::{any_column, example, ArgumentDoc, ColumnType, FunctionDoc};
use crate::meta::{example_pairs, object_tags, spec_object_tags, tag_views};

verus! {

/// The view of an optional string.
pub open spec fn opt_string(cell: Option<String>) -> Option<Seq<char>> {
    match cell {
        Some(s) => Some(s@),
        None => None,
    }
}

/// `to_utf8(bytes)`.
pub struct ToUtf8;

/// The summary of `to_utf8`.
pub const TO_UTF8_DESCRIPTION: &'static str =
    "Detect the encoding of text bytes and decode to a UTF-8 string \
     (U+FFFD for undecodable bytes). NULL for empty/NULL input.";

/// The example query of `to_utf8`.
pub const TO_UTF8_EXAMPLE_SQL: &'static str =
    "SELECT charset.main.to_utf8('\\x63\\x61\\x66\\xE9'::BLOB);";

/// The description of the example query of `to_utf8`.
pub const TO_UTF8_EXAMPLE_DESCRIPTION: &'static str =
    "Auto-detect and decode windows-1252 bytes to the UTF-8 string \
     \"café\".";

/// The display title of `to_utf8`.
pub const TO_UTF8_TITLE: &'static str = "Decode Bytes to UTF-8";

/// The narrative of `to_utf8` for agents.
pub const TO_UTF8_DOC_LLM: &'static str =
    "Auto-detect the encoding of a BLOB of text bytes and decode it to a UTF-8 \
     string. Undecodable bytes within the detected encoding become the U+FFFD \
     replacement character rather than an error. Returns NULL for empty or NULL \
     input. Use to_utf8_from when you already know the source encoding.";

/// The narrative of `to_utf8` for human documentation.
pub const TO_UTF8_DOC_MD: &'static str =
    "## to_utf8\n\n\
     Auto-detects the encoding of a `BLOB` of text bytes and decodes it to a UTF-8 \
     string in one step.\n\n\
     **How it works:** runs the same detection as `detect_encoding` (BOM, then \
     `chardetng`) and decodes with `encoding_rs`. Bytes that are undecodable in the \
     detected encoding become the `U+FFFD` replacement character rather than raising \
     an error.\n\n\
     **Returns:** a `VARCHAR`; `NULL` for empty or `NULL` input.\n\n\
     **When to use:** the convenient default for unlabelled data. Use \
     `to_utf8_from` instead when you already know the source codec and want to skip \
     detection.\n\n\
     ```sql\n\
     SELECT charset.main.to_utf8('\\x63\\x61\\x66\\xE9'::BLOB); -- 'café'\n\
     ```";

/// The search keywords of `to_utf8`, comma-separated.
pub const TO_UTF8_KEYWORDS: &'static str =
    "to utf8, decode, convert to utf-8, auto decode, bytes to text, \
     normalize encoding, clean text, detected encoding";

/// The category of the decoding functions.
pub const DECODING_CATEGORY: &'static str = "Decoding";

/// The row-wise result of `to_utf8`: NULL for NULL, otherwise what
/// [`to_utf8`] gives (NULL for empty bytes).
pub open spec fn to_utf8_row(cell: Option<&[u8]>) -> Option<Seq<char>> {
    match cell {
        Some(bytes) => spec_to_utf8(bytes@),
        None => None,
    }
}

impl ToUtf8 {
    pub fn name(&self) -> (r: &'static str)
        ensures
            r@ == "to_utf8"@,
    {
        "to_utf8"
    }

    pub fn metadata(&self) -> (r: FunctionDoc)
        ensures
            r.description@ == TO_UTF8_DESCRIPTION@,
            r.return_type == Some(ColumnType::Utf8),
            r.examples@.len() == 1,
            r.examples@[0].sql@ == TO_UTF8_EXAMPLE_SQL@,
            r.examples@[0].description@ == TO_UTF8_EXAMPLE_DESCRIPTION@,
            tag_views(r.tags@) == spec_object_tags(
                TO_UTF8_TITLE@,
                TO_UTF8_DOC_LLM@,
                TO_UTF8_DOC_MD@,
                TO_UTF8_KEYWORDS@,
                DECODING_CATEGORY@,
                Seq::empty(),
            ),
    {
        let no_examples: Vec<(&str, &str)> = Vec::new();
        let tags = object_tags(
            TO_UTF8_TITLE,
            TO_UTF8_DOC_LLM,
            TO_UTF8_DOC_MD,
            TO_UTF8_KEYWORDS,
            DECODING_CATEGORY,
            no_examples.as_slice(),
        );
        proof {
            assert(example_pairs(no_examples@) =~= Seq::empty());
        }
        FunctionDoc {
            description: String::from_str(TO_UTF8_DESCRIPTION),
            return_type: Some(ColumnType::Utf8),
            examples: vec![example(TO_UTF8_EXAMPLE_SQL, TO_UTF8_EXAMPLE_DESCRIPTION)],
            tags,
        }
    }

    pub fn argument_specs(&self) -> (r: Vec<ArgumentDoc>)
        ensures
            r@.len() == 1,
            r@[0].name@ == "bytes"@,
            r@[0].position == 0,
            r@[0].sql_type is None,
            r@[0].description@ == "Text bytes (BLOB)"@,
    {
        vec![any_column("bytes", 0, "Text bytes (BLOB)")]
    }

    /// The result type declared at bind time.
    pub fn on_bind(&self) -> (r: ColumnType)
        ensures
            r == ColumnType::Utf8,
    {
        ColumnType::Utf8
    }

    /// Every row decoded from its detected encoding (NULL for NULL or empty
    /// bytes).
    pub fn process(&self, rows: &[Option<&[u8]>]) -> (r: Vec<Option<String>>)
        ensures
            r@.len() == rows@.len(),
            forall|i: int| 0 <= i < rows@.len() ==> opt_string(#[trigger] r@[i]) == to_utf8_row(rows@[i]),
    {
        let mut out: Vec<Option<String>> = Vec::new();
        let mut i: usize = 0;
        while i < rows.len()
            invariant
                i <= rows@.len(),
                out@.len() == i,
                forall|k: int| 0 <= k < i ==> opt_string(#[trigger] out@[k]) == to_utf8_row(rows@[k]),
            decreases rows@.len() - i,
        {
            let cell = match rows[i] {
                Some(bytes) => to_utf8(bytes),
                None => None,
            };
            out.push(cell);
            i = i + 1;
        }
        out
    }
}

/// `to_utf8_from(bytes, encoding)`.
pub struct ToUtf8From;

/// The summary of `to_utf8_from`.
pub const TO_UTF8_FROM_DESCRIPTION: &'static str =
    "Decode text bytes using an EXPLICIT encoding label (no detection), \
     e.g. to_utf8_from(b, 'shift_jis'). ERROR if the label is unknown; \
     NULL for NULL bytes.";

/// The example query of `to_utf8_from`.
pub const TO_UTF8_FROM_EXAMPLE_SQL: &'static str =
    "SELECT charset.main.to_utf8_from('\\x93\\xFA\\x96\\x7B'::BLOB, 'shift_jis');";

/// The description of the example query of `to_utf8_from`.
pub const TO_UTF8_FROM_EXAMPLE_DESCRIPTION: &'static str =
    "Decode Shift-JIS bytes to UTF-8 using an explicit codec label \
     (returns \"日本\").";

/// The display title of `to_utf8_from`.
pub const TO_UTF8_FROM_TITLE: &'static str = "Decode Bytes With Explicit Encoding";

/// The narrative of `to_utf8_from` for agents.
pub const TO_UTF8_FROM_DOC_LLM: &'static str =
    "Decode a BLOB of text bytes to a UTF-8 string using an explicit encoding label \
     you supply (e.g. 'shift_jis', 'windows-1252'), with no auto-detection. Raises \
     an error if the label names an encoding the worker does not recognise; \
     undecodable bytes within a known encoding become U+FFFD. Returns NULL for NULL \
     input.";

/// The narrative of `to_utf8_from` for human documentation.
pub const TO_UTF8_FROM_DOC_MD: &'static str =
    "## to_utf8_from\n\n\
     Decodes a `BLOB` of text bytes to a UTF-8 string using an **explicit** encoding \
     label you supply — no auto-detection.\n\n\
     **Arguments:** `bytes` (the BLOB) and `encoding` (a codec label such as \
     `shift_jis`, `windows-1252`, or `iso-8859-1`). Call `supported_encodings()` to \
     see the accepted labels.\n\n\
     **Errors & nulls:** an unknown label raises an error (the caller named a codec \
     that does not exist); undecodable bytes within a *known* encoding become \
     `U+FFFD`; `NULL` input returns `NULL`.\n\n\
     **When to use:** prefer this over `to_utf8` whenever the source encoding is \
     known, to avoid detection mistakes.\n\n\
     ```sql\n\
     SELECT charset.main.to_utf8_from('\\x93\\xFA\\x96\\x7B'::BLOB, 'shift_jis');\n\
     ```";

/// The search keywords of `to_utf8_from`, comma-separated.
pub const TO_UTF8_FROM_KEYWORDS: &'static str =
    "to utf8 from, decode with encoding, explicit codec, shift_jis, windows-1252, \
     latin-1, known encoding, force encoding";

/// The row-wise result of `to_utf8_from`: NULL when the bytes or the label
/// are NULL, otherwise what [`to_utf8_from`] gives (an error for an unknown
/// label).
pub open spec fn to_utf8_from_row(cell: Option<&[u8]>, label: Option<&str>) -> Result<
    Option<Seq<char>>,
    Seq<char>,
> {
    match (cell, label) {
        (Some(bytes), Some(label)) => match spec_to_utf8_from(bytes@, label@) {
            Ok(text) => Ok(Some(text)),
            Err(message) => Err(message),
        },
        _ => Ok(None),
    }
}

impl ToUtf8From {
    pub fn name(&self) -> (r: &'static str)
        ensures
            r@ == "to_utf8_from"@,
    {
        "to_utf8_from"
    }

    pub fn metadata(&self) -> (r: FunctionDoc)
        ensures
            r.description@ == TO_UTF8_FROM_DESCRIPTION@,
            r.return_type == Some(ColumnType::Utf8),
            r.examples@.len() == 1,
            r.examples@[0].sql@ == TO_UTF8_FROM_EXAMPLE_SQL@,
            r.examples@[0].description@ == TO_UTF8_FROM_EXAMPLE_DESCRIPTION@,
            tag_views(r.tags@) == spec_object_tags(
                TO_UTF8_FROM_TITLE@,
                TO_UTF8_FROM_DOC_LLM@,
                TO_UTF8_FROM_DOC_MD@,
                TO_UTF8_FROM_KEYWORDS@,
                DECODING_CATEGORY@,
                Seq::empty(),
            ),
    {
        let no_examples: Vec<(&str, &str)> = Vec::new();
        let tags = object_tags(
            TO_UTF8_FROM_TITLE,
            TO_UTF8_FROM_DOC_LLM,
            TO_UTF8_FROM_DOC_MD,
            TO_UTF8_FROM_KEYWORDS,
            DECODING_CATEGORY,
            no_examples.as_slice(),
        );
        proof {
            assert(example_pairs(no_examples@) =~= Seq::empty());
        }
        FunctionDoc {
            description: String::from_str(TO_UTF8_FROM_DESCRIPTION),
            return_type: Some(ColumnType::Utf8),
            examples: vec![example(TO_UTF8_FROM_EXAMPLE_SQL, TO_UTF8_FROM_EXAMPLE_DESCRIPTION)],
            tags,
        }
    }

    pub fn argument_specs(&self) -> (r: Vec<ArgumentDoc>)
        ensures
            r@.len() == 2,
            r@[0].name@ == "bytes"@,
            r@[0].position == 0,
            r@[0].sql_type is None,
            r@[0].description@ == "Text bytes (BLOB)"@,
            r@[1].name@ == "encoding"@,
            r@[1].position == 1,
            r@[1].sql_type is None,
            r@[1].description@ == "Encoding label, e.g. 'shift_jis' (VARCHAR)"@,
    {
        vec![
            any_column("bytes", 0, "Text bytes (BLOB)"),
            any_column("encoding", 1, "Encoding label, e.g. 'shift_jis' (VARCHAR)"),
        ]
    }

    /// The result type declared at bind time.
    pub fn on_bind(&self) -> (r: ColumnType)
        ensures
            r == ColumnType::Utf8,
    {
        ColumnType::Utf8
    }

    /// Every row decoded with its own label (NULL when the bytes or the label
    /// are NULL). The first row whose label is unknown fails the whole call
    /// with that row's error.
    pub fn process(&self, rows: &[Option<&[u8]>], labels: &[Option<&str>]) -> (r: Result<
        Vec<Option<String>>,
        String,
    >)
        requires
            rows@.len() == labels@.len(),
        ensures
            match r {
                Ok(out) => out@.len() == rows@.len() && forall|i: int|
                    0 <= i < rows@.len() ==> to_utf8_from_row(rows@[i], labels@[i]) == Ok::<
                        Option<Seq<char>>,
                        Seq<char>,
                    >(opt_string(#[trigger] out@[i])),
                Err(message) => exists|i: int|
                    0 <= i < rows@.len() && #[trigger] to_utf8_from_row(rows@[i], labels@[i])
                        == Err::<Option<Seq<char>>, Seq<char>>(message@) && forall|j: int|
                        0 <= j < i ==> (#[trigger] to_utf8_from_row(rows@[j], labels@[j])) is Ok,
            },
    {
        let mut out: Vec<Option<String>> = Vec::new();
        let mut i: usize = 0;
        while i < rows.len()
            invariant
                i <= rows@.len(),
                rows@.len() == labels@.len(),
                out@.len() == i,
                forall|k: int|
                    0 <= k < i ==> to_utf8_from_row(rows@[k], labels@[k]) == Ok::<
                        Option<Seq<char>>,
                        Seq<char>,
                    >(opt_string(#[trigger] out@[k])),
            decreases rows@.len() - i,
        {
            match (rows[i], labels[i]) {
                (Some(bytes), Some(label)) => match to_utf8_from(bytes, label) {
                    Ok(text) => out.push(Some(text)),
                    Err(message) => {
                        assert(to_utf8_from_row(rows@[i as int], labels@[i as int]) == Err::<
                            Option<Seq<char>>,
                            Seq<char>,
                        >(message@));
                        assert forall|j: int| 0 <= j < i implies (#[trigger] to_utf8_from_row(
                            rows@[j],
                            labels@[j],
                        )) is Ok by {
                            assert(opt_string(out@[j]) == opt_string(out@[j]));
                        }
                        return Err(message);
                    },
                },
                _ => out.push(None),
            }
            i = i + 1;
        }
        Ok(out)
    }
}

} // verus!
