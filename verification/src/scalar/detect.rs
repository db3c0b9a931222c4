//! Detection scalars over BLOB input:
//!
//! - `detect_encoding(bytes) -> VARCHAR`: the detected encoding label.
//! - `detect_confidence(bytes) -> DOUBLE`: a `[0,1]` confidence proxy.
//! - `is_valid_utf8(bytes) -> BOOLEAN`: whether the bytes are already UTF-8.
//!
//! NULL or empty input yields NULL for the label and the confidence (there is
//! nothing to detect); `is_valid_utf8(NULL)` is NULL, and an empty BLOB is
//! valid UTF-8.
use vstd::prelude::*;
use vstd::utf8::valid_utf8;

use crate::charset::{
    confidence_measure, detect, is_valid_utf8, spec_confidence_measure, spec_detect, Confidence,
};
use crate::function::{any_column, example, ArgumentDoc, ColumnType, FunctionDoc};

verus! {

/// `detect_encoding(bytes)`.
pub struct DetectEncoding;

/// The summary of `detect_encoding`.
pub const DETECT_ENCODING_DESCRIPTION: &'static str =
    "Detect the character encoding of text bytes (BOM check, then the \
     chardetng heuristic); returns the encoding label, e.g. 'UTF-8', \
     'windows-1252', 'Shift_JIS'. NULL for empty/NULL input.";

/// The example query of `detect_encoding`.
pub const DETECT_ENCODING_EXAMPLE_SQL: &'static str =
    "SELECT charset.main.detect_encoding('\\x63\\x61\\x66\\xE9'::BLOB);";

/// The description of the example query of `detect_encoding`.
pub const DETECT_ENCODING_EXAMPLE_DESCRIPTION: &'static str =
    "Detect the encoding of the bytes for \"café\" stored as \
     windows-1252 (returns 'windows-1252').";

/// The row-wise result of `detect_encoding`: NULL for NULL, otherwise what
/// [`detect`] gives (NULL for empty bytes).
pub open spec fn detect_encoding_row(cell: Option<&[u8]>) -> Option<Seq<char>> {
    match cell {
        Some(bytes) => spec_detect(bytes@),
        None => None,
    }
}

impl DetectEncoding {
    pub fn name(&self) -> (r: &'static str)
        ensures
            r@ == "detect_encoding"@,
    {
        "detect_encoding"
    }

    pub fn metadata(&self) -> (r: FunctionDoc)
        ensures
            r.description@ == DETECT_ENCODING_DESCRIPTION@,
            r.return_type == Some(ColumnType::Utf8),
            r.examples@.len() == 1,
            r.examples@[0].sql@ == DETECT_ENCODING_EXAMPLE_SQL@,
            r.examples@[0].description@ == DETECT_ENCODING_EXAMPLE_DESCRIPTION@,
            r.tags@.len() == 0,
    {
        FunctionDoc {
            description: String::from_str(DETECT_ENCODING_DESCRIPTION),
            return_type: Some(ColumnType::Utf8),
            examples: vec![
                example(DETECT_ENCODING_EXAMPLE_SQL, DETECT_ENCODING_EXAMPLE_DESCRIPTION),
            ],
            tags: Vec::new(),
        }
    }

    pub fn argument_specs(&self) -> (r: Vec<ArgumentDoc>)
        ensures
            r@.len() == 1,
            r@[0].name@ == "bytes"@,
            r@[0].position == 0,
            r@[0].sql_type is None,
            r@[0].description@ == "Text bytes (BLOB)"@,
    {
        vec![any_column("bytes", 0, "Text bytes (BLOB)")]
    }

    /// The result type declared at bind time.
    pub fn on_bind(&self) -> (r: ColumnType)
        ensures
            r == ColumnType::Utf8,
    {
        ColumnType::Utf8
    }

    /// The encoding label of every row (NULL for NULL or empty bytes).
    pub fn process(&self, rows: &[Option<&[u8]>]) -> (r: Vec<Option<&'static str>>)
        ensures
            r@.len() == rows@.len(),
            forall|i: int|
                0 <= i < rows@.len() ==> match #[trigger] r@[i] {
                    Some(name) => detect_encoding_row(rows@[i]) == Some(name@),
                    None => detect_encoding_row(rows@[i]) is None,
                },
    {
        let mut out: Vec<Option<&'static str>> = Vec::new();
        let mut i: usize = 0;
        while i < rows.len()
            invariant
                i <= rows@.len(),
                out@.len() == i,
                forall|k: int|
                    0 <= k < i ==> match #[trigger] out@[k] {
                        Some(name) => detect_encoding_row(rows@[k]) == Some(name@),
                        None => detect_encoding_row(rows@[k]) is None,
                    },
            decreases rows@.len() - i,
        {
            let cell = match rows[i] {
                Some(bytes) => detect(bytes),
                None => None,
            };
            out.push(cell);
            i = i + 1;
        }
        out
    }
}

/// `detect_confidence(bytes)`.
pub struct DetectConfidence;

/// The summary of `detect_confidence`.
pub const DETECT_CONFIDENCE_DESCRIPTION: &'static str =
    "A confidence proxy in [0,1] for the detected encoding, derived from \
     whether the bytes decode losslessly (1.0) or required U+FFFD \
     replacements (scaled down). NULL for empty/NULL input.";

/// The example query of `detect_confidence`.
pub const DETECT_CONFIDENCE_EXAMPLE_SQL: &'static str =
    "SELECT charset.main.detect_confidence('\\x63\\x61\\x66\\xE9'::BLOB);";

/// The description of the example query of `detect_confidence`.
pub const DETECT_CONFIDENCE_EXAMPLE_DESCRIPTION: &'static str =
    "Score how confidently the bytes for \"café\" decode under the \
     detected encoding (1.0 when lossless).";

/// The row-wise result of `detect_confidence`: NULL for NULL or empty bytes,
/// otherwise the confidence measure of the bytes.
pub open spec fn detect_confidence_row(cell: Option<&[u8]>) -> Option<Confidence> {
    match cell {
        Some(bytes) => if bytes@.len() == 0 {
            None
        } else {
            Some(spec_confidence_measure(bytes@))
        },
        None => None,
    }
}

impl DetectConfidence {
    pub fn name(&self) -> (r: &'static str)
        ensures
            r@ == "detect_confidence"@,
    {
        "detect_confidence"
    }

    pub fn metadata(&self) -> (r: FunctionDoc)
        ensures
            r.description@ == DETECT_CONFIDENCE_DESCRIPTION@,
            r.return_type == Some(ColumnType::Float64),
            r.examples@.len() == 1,
            r.examples@[0].sql@ == DETECT_CONFIDENCE_EXAMPLE_SQL@,
            r.examples@[0].description@ == DETECT_CONFIDENCE_EXAMPLE_DESCRIPTION@,
            r.tags@.len() == 0,
    {
        FunctionDoc {
            description: String::from_str(DETECT_CONFIDENCE_DESCRIPTION),
            return_type: Some(ColumnType::Float64),
            examples: vec![
                example(DETECT_CONFIDENCE_EXAMPLE_SQL, DETECT_CONFIDENCE_EXAMPLE_DESCRIPTION),
            ],
            tags: Vec::new(),
        }
    }

    pub fn argument_specs(&self) -> (r: Vec<ArgumentDoc>)
        ensures
            r@.len() == 1,
            r@[0].name@ == "bytes"@,
            r@[0].position == 0,
            r@[0].sql_type is None,
            r@[0].description@ == "Text bytes (BLOB)"@,
    {
        vec![any_column("bytes", 0, "Text bytes (BLOB)")]
    }

    /// The result type declared at bind time.
    pub fn on_bind(&self) -> (r: ColumnType)
        ensures
            r == ColumnType::Float64,
    {
        ColumnType::Float64
    }

    /// The confidence measure of every row (NULL for NULL or empty bytes).
    pub fn process(&self, rows: &[Option<&[u8]>]) -> (r: Vec<Option<Confidence>>)
        ensures
            r@.len() == rows@.len(),
            forall|i: int| 0 <= i < rows@.len() ==> #[trigger] r@[i] == detect_confidence_row(rows@[i]),
    {
        let mut out: Vec<Option<Confidence>> = Vec::new();
        let mut i: usize = 0;
        while i < rows.len()
            invariant
                i <= rows@.len(),
                out@.len() == i,
                forall|k: int| 0 <= k < i ==> #[trigger] out@[k] == detect_confidence_row(rows@[k]),
            decreases rows@.len() - i,
        {
            let cell = match rows[i] {
                Some(bytes) => if bytes.len() > 0 {
                    Some(confidence_measure(bytes))
                } else {
                    None
                },
                None => None,
            };
            out.push(cell);
            i = i + 1;
        }
        out
    }
}

/// `is_valid_utf8(bytes)`.
pub struct IsValidUtf8;

/// The summary of `is_valid_utf8`.
pub const IS_VALID_UTF8_DESCRIPTION: &'static str =
    "Whether the bytes are already valid UTF-8. NULL for NULL input.";

/// The example query of `is_valid_utf8`.
pub const IS_VALID_UTF8_EXAMPLE_SQL: &'static str =
    "SELECT charset.main.is_valid_utf8('café'::BLOB);";

/// The description of the example query of `is_valid_utf8`.
pub const IS_VALID_UTF8_EXAMPLE_DESCRIPTION: &'static str =
    "Check whether a BLOB already holds valid UTF-8 (returns true).";

/// The row-wise result of `is_valid_utf8`: NULL for NULL, otherwise whether
/// the bytes are well-formed UTF-8.
pub open spec fn is_valid_utf8_row(cell: Option<&[u8]>) -> Option<bool> {
    match cell {
        Some(bytes) => Some(valid_utf8(bytes@)),
        None => None,
    }
}

impl IsValidUtf8 {
    pub fn name(&self) -> (r: &'static str)
        ensures
            r@ == "is_valid_utf8"@,
    {
        "is_valid_utf8"
    }

    pub fn metadata(&self) -> (r: FunctionDoc)
        ensures
            r.description@ == IS_VALID_UTF8_DESCRIPTION@,
            r.return_type == Some(ColumnType::Boolean),
            r.examples@.len() == 1,
            r.examples@[0].sql@ == IS_VALID_UTF8_EXAMPLE_SQL@,
            r.examples@[0].description@ == IS_VALID_UTF8_EXAMPLE_DESCRIPTION@,
            r.tags@.len() == 0,
    {
        FunctionDoc {
            description: String::from_str(IS_VALID_UTF8_DESCRIPTION),
            return_type: Some(ColumnType::Boolean),
            examples: vec![
                example(IS_VALID_UTF8_EXAMPLE_SQL, IS_VALID_UTF8_EXAMPLE_DESCRIPTION),
            ],
            tags: Vec::new(),
        }
    }

    pub fn argument_specs(&self) -> (r: Vec<ArgumentDoc>)
        ensures
            r@.len() == 1,
            r@[0].name@ == "bytes"@,
            r@[0].position == 0,
            r@[0].sql_type is None,
            r@[0].description@ == "Text bytes (BLOB)"@,
    {
        vec![any_column("bytes", 0, "Text bytes (BLOB)")]
    }

    /// The result type declared at bind time.
    pub fn on_bind(&self) -> (r: ColumnType)
        ensures
            r == ColumnType::Boolean,
    {
        ColumnType::Boolean
    }

    /// Whether every row is well-formed UTF-8 (NULL for NULL).
    pub fn process(&self, rows: &[Option<&[u8]>]) -> (r: Vec<Option<bool>>)
        ensures
            r@.len() == rows@.len(),
            forall|i: int| 0 <= i < rows@.len() ==> #[trigger] r@[i] == is_valid_utf8_row(rows@[i]),
    {
        let mut out: Vec<Option<bool>> = Vec::new();
        let mut i: usize = 0;
        while i < rows.len()
            invariant
                i <= rows@.len(),
                out@.len() == i,
                forall|k: int| 0 <= k < i ==> #[trigger] out@[k] == is_valid_utf8_row(rows@[k]),
            decreases rows@.len() - i,
        {
            let cell = match rows[i] {
                Some(bytes) => Some(is_valid_utf8(bytes)),
                None => None,
            };
            out.push(cell);
            i = i + 1;
        }
        out
    }
}

} // verus!
