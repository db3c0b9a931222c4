//! Encoding and repair scalars:
//!
//! - `transcode(text VARCHAR, to_encoding VARCHAR) -> BLOB`: encode a UTF-8
//!   string into the named encoding's bytes (for export). An unknown label is
//!   an error; NULL input gives NULL. Characters the target encoding cannot
//!   represent become HTML numeric character references.
//! - `fix_mojibake(text VARCHAR) -> VARCHAR`: repair the classic "UTF-8 read
//!   as Latin-1/Windows-1252 then stored again as UTF-8" double encoding; a
//!   no-op when it cannot improve the text. NULL input gives NULL.
use vstd::prelude::*;

use crate::charset::{fix_mojibake, spec_fix_mojibake, spec_transcode, transcode};
use crate::function::{typed_column, ArgumentDoc, ColumnType, FunctionDoc};
use crate::meta::{example_pairs, object_tags, spec_object_tags, tag_views};
use crate::scalar::decode::opt_string;

verus! {

/// The view of optional bytes.
pub open spec fn opt_bytes(cell: Option<Vec<u8>>) -> Option<Seq<u8>> {
    match cell {
        Some(b) => Some(b@),
        None => None,
    }
}

/// The category of the encoding and repair functions.
pub const ENCODING_AND_REPAIR_CATEGORY: &'static str = "Encoding & Repair";

/// `transcode(text, to_encoding)`.
pub struct Transcode;

/// The summary of `transcode`.
pub const TRANSCODE_DESCRIPTION: &'static str =
    "Encode a UTF-8 string into the named encoding's bytes (BLOB) for \
     export, e.g. transcode('café', 'windows-1252'). Unmappable chars \
     follow encoding_rs (HTML numeric refs for legacy codecs). ERROR on \
     unknown label; NULL for NULL input.";

/// The display title of `transcode`.
pub const TRANSCODE_TITLE: &'static str = "Transcode Text to Encoding";

/// The narrative of `transcode` for agents.
pub const TRANSCODE_DOC_LLM: &'static str =
    "Encode a UTF-8 string into the bytes of a named legacy encoding (returned as a \
     `BLOB`) so it can be exported to a system that expects that codec, e.g. \
     transcode('café', 'windows-1252'). Characters the target encoding cannot \
     represent are emitted as HTML numeric references per encoding_rs. Raises an \
     error if the encoding label is unknown; returns NULL for NULL input.";

/// The narrative of `transcode` for human documentation.
pub const TRANSCODE_DOC_MD: &'static str =
    "## transcode\n\n\
     Encodes a UTF-8 string into the bytes of a named legacy encoding, returned as a \
     `BLOB`, so it can be exported to a system that expects that codec.\n\n\
     **Arguments:** `text` (UTF-8 `VARCHAR`) and `to_encoding` (target codec label, \
     e.g. `windows-1252`, `shift_jis`).\n\n\
     **Behaviour:** characters the target encoding cannot represent are emitted as \
     HTML numeric references (per `encoding_rs`) rather than dropped. An unknown \
     encoding label raises an error; `NULL` input returns `NULL`.\n\n\
     **When to use:** the inverse of `to_utf8`/`to_utf8_from` — producing legacy \
     bytes for downstream systems or file exports.\n\n\
     ```sql\n\
     SELECT charset.main.transcode('café', 'windows-1252'); -- \\x63\\x61\\x66\\xE9\n\
     ```";

/// The search keywords of `transcode`, comma-separated.
pub const TRANSCODE_KEYWORDS: &'static str =
    "transcode, encode, to bytes, export encoding, windows-1252, latin-1, \
     shift_jis, legacy encoding, utf-8 to bytes, re-encode";

/// The description of the example query of `transcode`.
pub const TRANSCODE_EXAMPLE_DESCRIPTION: &'static str =
    "Encode a UTF-8 string into windows-1252 bytes for export to a legacy system.";

/// The example query of `transcode`.
pub const TRANSCODE_EXAMPLE_SQL: &'static str =
    "SELECT charset.main.transcode('café', 'windows-1252');";

/// The description of the `text` argument of `transcode`.
pub const TRANSCODE_TEXT_ARGUMENT: &'static str =
    "The UTF-8 string to encode into the target encoding's bytes. NULL input \
     yields NULL.";

/// The description of the `to_encoding` argument of `transcode`.
pub const TRANSCODE_ENCODING_ARGUMENT: &'static str =
    "The target encoding label to encode `text` into, e.g. 'windows-1252' or \
     'shift_jis' (see supported_encodings()). Characters the encoding cannot \
     represent are emitted as HTML character references; an unknown label \
     raises an error.";

/// The row-wise result of `transcode`: NULL when the text or the label is
/// NULL, otherwise what [`transcode`] gives (an error for an unknown label).
pub open spec fn transcode_row(text: Option<&str>, label: Option<&str>) -> Result<
    Option<Seq<u8>>,
    Seq<char>,
> {
    match (text, label) {
        (Some(text), Some(label)) => match spec_transcode(text@, label@) {
            Ok(bytes) => Ok(Some(bytes)),
            Err(message) => Err(message),
        },
        _ => Ok(None),
    }
}

impl Transcode {
    pub fn name(&self) -> (r: &'static str)
        ensures
            r@ == "transcode"@,
    {
        "transcode"
    }

    pub fn metadata(&self) -> (r: FunctionDoc)
        ensures
            r.description@ == TRANSCODE_DESCRIPTION@,
            r.return_type == Some(ColumnType::Binary),
            r.examples@.len() == 0,
            tag_views(r.tags@) == spec_object_tags(
                TRANSCODE_TITLE@,
                TRANSCODE_DOC_LLM@,
                TRANSCODE_DOC_MD@,
                TRANSCODE_KEYWORDS@,
                ENCODING_AND_REPAIR_CATEGORY@,
                seq![(TRANSCODE_EXAMPLE_DESCRIPTION@, TRANSCODE_EXAMPLE_SQL@)],
            ),
    {
        let examples: Vec<(&str, &str)> = vec![(TRANSCODE_EXAMPLE_DESCRIPTION, TRANSCODE_EXAMPLE_SQL)];
        let tags = object_tags(
            TRANSCODE_TITLE,
            TRANSCODE_DOC_LLM,
            TRANSCODE_DOC_MD,
            TRANSCODE_KEYWORDS,
            ENCODING_AND_REPAIR_CATEGORY,
            examples.as_slice(),
        );
        proof {
            assert(example_pairs(examples@) =~= seq![
                (TRANSCODE_EXAMPLE_DESCRIPTION@, TRANSCODE_EXAMPLE_SQL@),
            ]);
        }
        FunctionDoc {
            description: String::from_str(TRANSCODE_DESCRIPTION),
            return_type: Some(ColumnType::Binary),
            examples: Vec::new(),
            tags,
        }
    }

    pub fn argument_specs(&self) -> (r: Vec<ArgumentDoc>)
        ensures
            r@.len() == 2,
            r@[0].name@ == "text"@,
            r@[0].position == 0,
            r@[0].sql_type matches Some(t) && t@ == "varchar"@,
            r@[0].description@ == TRANSCODE_TEXT_ARGUMENT@,
            r@[1].name@ == "to_encoding"@,
            r@[1].position == 1,
            r@[1].sql_type matches Some(t) && t@ == "varchar"@,
            r@[1].description@ == TRANSCODE_ENCODING_ARGUMENT@,
    {
        vec![
            typed_column("text", 0, "varchar", TRANSCODE_TEXT_ARGUMENT),
            typed_column("to_encoding", 1, "varchar", TRANSCODE_ENCODING_ARGUMENT),
        ]
    }

    /// The result type declared at bind time.
    pub fn on_bind(&self) -> (r: ColumnType)
        ensures
            r == ColumnType::Binary,
    {
        ColumnType::Binary
    }

    /// Every row encoded with its own label (NULL when the text or the label
    /// is NULL). The first row whose label is unknown fails the whole call
    /// with that row's error.
    pub fn process(&self, texts: &[Option<&str>], labels: &[Option<&str>]) -> (r: Result<
        Vec<Option<Vec<u8>>>,
        String,
    >)
        requires
            texts@.len() == labels@.len(),
        ensures
            match r {
                Ok(out) => out@.len() == texts@.len() && forall|i: int|
                    0 <= i < texts@.len() ==> transcode_row(texts@[i], labels@[i]) == Ok::<
                        Option<Seq<u8>>,
                        Seq<char>,
                    >(opt_bytes(#[trigger] out@[i])),
                Err(message) => exists|i: int|
                    0 <= i < texts@.len() && #[trigger] transcode_row(texts@[i], labels@[i])
                        == Err::<Option<Seq<u8>>, Seq<char>>(message@) && forall|j: int|
                        0 <= j < i ==> (#[trigger] transcode_row(texts@[j], labels@[j])) is Ok,
            },
    {
        let mut out: Vec<Option<Vec<u8>>> = Vec::new();
        let mut i: usize = 0;
        while i < texts.len()
            invariant
                i <= texts@.len(),
                texts@.len() == labels@.len(),
                out@.len() == i,
                forall|k: int|
                    0 <= k < i ==> transcode_row(texts@[k], labels@[k]) == Ok::<
                        Option<Seq<u8>>,
                        Seq<char>,
                    >(opt_bytes(#[trigger] out@[k])),
            decreases texts@.len() - i,
        {
            match (texts[i], labels[i]) {
                (Some(text), Some(label)) => match transcode(text, label) {
                    Ok(bytes) => out.push(Some(bytes)),
                    Err(message) => {
                        assert(transcode_row(texts@[i as int], labels@[i as int]) == Err::<
                            Option<Seq<u8>>,
                            Seq<char>,
                        >(message@));
                        assert forall|j: int| 0 <= j < i implies (#[trigger] transcode_row(
                            texts@[j],
                            labels@[j],
                        )) is Ok by {
                            assert(opt_bytes(out@[j]) == opt_bytes(out@[j]));
                        }
                        return Err(message);
                    },
                },
                _ => out.push(None),
            }
            i = i + 1;
        }
        Ok(out)
    }
}

/// `fix_mojibake(text)`.
pub struct FixMojibake;

/// The summary of `fix_mojibake`.
pub const FIX_MOJIBAKE_DESCRIPTION: &'static str =
    "Repair double-encoded mojibake (UTF-8 read as Latin-1/Windows-1252 \
     then re-stored as UTF-8), e.g. 'CafÃ©' -> 'Café'. No-ops when it \
     can't improve the text. NULL for NULL input.";

/// The display title of `fix_mojibake`.
pub const FIX_MOJIBAKE_TITLE: &'static str = "Repair Mojibake Text";

/// The narrative of `fix_mojibake` for agents.
pub const FIX_MOJIBAKE_DOC_LLM: &'static str =
    "Repair the classic double-encoding mojibake where UTF-8 text was mistakenly \
     read as Latin-1/Windows-1252 and then re-stored as UTF-8, turning garbled \
     sequences like 'CafÃ©' back into 'Café'. It only rewrites text when doing so \
     strictly reduces mojibake markers, otherwise it returns the input unchanged. \
     Returns NULL for NULL input.";

/// The narrative of `fix_mojibake` for human documentation.
pub const FIX_MOJIBAKE_DOC_MD: &'static str =
    "## fix_mojibake\n\n\
     Repairs the classic *mojibake* failure where UTF-8 text was mistakenly read as \
     Latin-1/Windows-1252 and then re-stored as UTF-8, leaving garbled sequences \
     like `CafÃ©`.\n\n\
     **How it works:** re-encodes the text as Windows-1252 and re-decodes it as \
     UTF-8, accepting the result **only** when it strictly reduces the number of \
     mojibake markers. Otherwise it returns the input unchanged, so clean text and \
     non-mojibake garble pass through untouched.\n\n\
     **Returns:** a `VARCHAR`; `NULL` for `NULL` input.\n\n\
     ```sql\n\
     SELECT charset.main.fix_mojibake('CafÃ©'); -- 'Café'\n\
     ```";

/// The search keywords of `fix_mojibake`, comma-separated.
pub const FIX_MOJIBAKE_KEYWORDS: &'static str =
    "fix mojibake, repair mojibake, garbled text, double encoding, \
     unmangle, latin-1 as utf-8, mangled characters, clean text, demojibake";

/// The description of the example query of `fix_mojibake`.
pub const FIX_MOJIBAKE_EXAMPLE_DESCRIPTION: &'static str =
    "Repair classic double-encoded mojibake, turning 'CafÃ©' back into 'Café'.";

/// The example query of `fix_mojibake`.
pub const FIX_MOJIBAKE_EXAMPLE_SQL: &'static str = "SELECT charset.main.fix_mojibake('CafÃ©');";

/// The description of the `text` argument of `fix_mojibake`.
pub const FIX_MOJIBAKE_TEXT_ARGUMENT: &'static str =
    "The possibly-mojibake UTF-8 string to repair, e.g. 'CafÃ©'. Returned \
     unchanged when no improvement is possible; NULL input yields NULL.";

/// The row-wise result of `fix_mojibake`: NULL for NULL, otherwise the
/// repaired (or unchanged) text.
pub open spec fn fix_mojibake_row(text: Option<&str>) -> Option<Seq<char>> {
    match text {
        Some(text) => Some(spec_fix_mojibake(text@)),
        None => None,
    }
}

impl FixMojibake {
    pub fn name(&self) -> (r: &'static str)
        ensures
            r@ == "fix_mojibake"@,
    {
        "fix_mojibake"
    }

    pub fn metadata(&self) -> (r: FunctionDoc)
        ensures
            r.description@ == FIX_MOJIBAKE_DESCRIPTION@,
            r.return_type == Some(ColumnType::Utf8),
            r.examples@.len() == 0,
            tag_views(r.tags@) == spec_object_tags(
                FIX_MOJIBAKE_TITLE@,
                FIX_MOJIBAKE_DOC_LLM@,
                FIX_MOJIBAKE_DOC_MD@,
                FIX_MOJIBAKE_KEYWORDS@,
                ENCODING_AND_REPAIR_CATEGORY@,
                seq![(FIX_MOJIBAKE_EXAMPLE_DESCRIPTION@, FIX_MOJIBAKE_EXAMPLE_SQL@)],
            ),
    {
        let examples: Vec<(&str, &str)> = vec![
            (FIX_MOJIBAKE_EXAMPLE_DESCRIPTION, FIX_MOJIBAKE_EXAMPLE_SQL),
        ];
        let tags = object_tags(
            FIX_MOJIBAKE_TITLE,
            FIX_MOJIBAKE_DOC_LLM,
            FIX_MOJIBAKE_DOC_MD,
            FIX_MOJIBAKE_KEYWORDS,
            ENCODING_AND_REPAIR_CATEGORY,
            examples.as_slice(),
        );
        proof {
            assert(example_pairs(examples@) =~= seq![
                (FIX_MOJIBAKE_EXAMPLE_DESCRIPTION@, FIX_MOJIBAKE_EXAMPLE_SQL@),
            ]);
        }
        FunctionDoc {
            description: String::from_str(FIX_MOJIBAKE_DESCRIPTION),
            return_type: Some(ColumnType::Utf8),
            examples: Vec::new(),
            tags,
        }
    }

    pub fn argument_specs(&self) -> (r: Vec<ArgumentDoc>)
        ensures
            r@.len() == 1,
            r@[0].name@ == "text"@,
            r@[0].position == 0,
            r@[0].sql_type matches Some(t) && t@ == "varchar"@,
            r@[0].description@ == FIX_MOJIBAKE_TEXT_ARGUMENT@,
    {
        vec![typed_column("text", 0, "varchar", FIX_MOJIBAKE_TEXT_ARGUMENT)]
    }

    /// The result type declared at bind time.
    pub fn on_bind(&self) -> (r: ColumnType)
        ensures
            r == ColumnType::Utf8,
    {
        ColumnType::Utf8
    }

    /// Every row repaired, or left as it is when no repair improves it (NULL
    /// for NULL).
    pub fn process(&self, texts: &[Option<&str>]) -> (r: Vec<Option<String>>)
        ensures
            r@.len() == texts@.len(),
            forall|i: int| 0 <= i < texts@.len() ==> opt_string(#[trigger] r@[i]) == fix_mojibake_row(texts@[i]),
    {
        let mut out: Vec<Option<String>> = Vec::new();
        let mut i: usize = 0;
        while i < texts.len()
            invariant
                i <= texts@.len(),
                out@.len() == i,
                forall|k: int| 0 <= k < i ==> opt_string(#[trigger] out@[k]) == fix_mojibake_row(texts@[k]),
            decreases texts@.len() - i,
        {
            let cell = match texts[i] {
                Some(text) => Some(fix_mojibake(text)),
                None => None,
            };
            out.push(cell);
            i = i + 1;
        }
        out
    }
}

} // verus!
