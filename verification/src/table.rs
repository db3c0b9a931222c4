//! `supported_encodings() -> (label VARCHAR)`: the discovery table listing
//! every encoding label the worker accepts (the WHATWG / `encoding_rs` set of
//! canonical encoding names), also exposed as the catalog table
//! `charset.main.supported_encodings`.
use vstd::prelude::*;

use crate::charset::supported_encodings;
use crate::codec::whatwg_names;
use crate::function::{ArgumentDoc, ColumnType, FunctionDoc};
use crate::meta::{
    example_pairs, keywords_json, object_tags, spec_keywords_json, spec_object_tags, tag_views,
};

verus! {

/// One column of a table: its name, type, whether it may hold NULL, and its
/// documentation comment.
pub struct ColumnDoc {
    pub name: String,
    pub column_type: ColumnType,
    pub nullable: bool,
    pub comment: String,
}

/// A catalog table backed by a table function, with its constraints and
/// discovery tags. Column positions index `columns`.
pub struct TableDoc {
    pub name: String,
    pub columns: Vec<ColumnDoc>,
    pub comment: Option<String>,
    pub estimated_rows: Option<i64>,
    pub primary_key: Vec<Vec<usize>>,
    pub not_null: Vec<usize>,
    pub unique: Vec<Vec<usize>>,
    pub tags: Vec<(String, String)>,
}

/// The comment on the `label` column.
pub const LABEL_COMMENT: &'static str =
    "A canonical encoding label accepted by the worker, e.g. 'UTF-8', \
     'windows-1252', or 'Shift_JIS'. Valid as the encoding argument to \
     to_utf8_from and transcode.";

/// The `label` column: a non-NULL VARCHAR documented by [`LABEL_COMMENT`].
pub open spec fn is_label_column(column: ColumnDoc) -> bool {
    &&& column.name@ == "label"@
    &&& column.column_type == ColumnType::Utf8
    &&& !column.nullable
    &&& column.comment@ == LABEL_COMMENT@
}

/// The columns that `supported_encodings` produces: the single `label`
/// column.
pub fn output_columns() -> (r: Vec<ColumnDoc>)
    ensures
        r@.len() == 1,
        is_label_column(r@[0]),
{
    vec![
        ColumnDoc {
            name: String::from_str("label"),
            column_type: ColumnType::Utf8,
            nullable: false,
            comment: String::from_str(LABEL_COMMENT),
        },
    ]
}

/// Runnable, catalog-qualified example queries of the worker.
pub const EXECUTABLE_EXAMPLES: &'static str = r#"[
  {
    "description": "Detect the encoding of windows-1252 bytes for \"café\".",
    "sql": "SELECT charset.main.detect_encoding('\\x63\\x61\\x66\\xE9'::BLOB) AS encoding"
  },
  {
    "description": "Auto-detect and decode windows-1252 bytes to UTF-8.",
    "sql": "SELECT charset.main.to_utf8('\\x63\\x61\\x66\\xE9'::BLOB) AS text"
  },
  {
    "description": "Decode Shift-JIS bytes to UTF-8 with an explicit codec label.",
    "sql": "SELECT charset.main.to_utf8_from('\\x93\\xFA\\x96\\x7B'::BLOB, 'shift_jis') AS text"
  },
  {
    "description": "Encode a UTF-8 string into windows-1252 bytes for export.",
    "sql": "SELECT charset.main.transcode('café', 'windows-1252') AS bytes"
  },
  {
    "description": "Repair double-encoded mojibake back to clean UTF-8.",
    "sql": "SELECT charset.main.fix_mojibake('CafÃ©') AS fixed"
  },
  {
    "description": "Check whether bytes are already valid UTF-8.",
    "sql": "SELECT charset.main.is_valid_utf8('\\x63\\x61\\x66\\xC3\\xA9'::BLOB) AS ok"
  },
  {
    "description": "List the first few supported encoding labels.",
    "sql": "SELECT label FROM charset.main.supported_encodings() ORDER BY label LIMIT 5"
  }
]"#;

/// The display title of `supported_encodings`.
pub const SUPPORTED_TITLE: &'static str = "Supported Encodings Catalog";

/// The narrative of the `supported_encodings` function for agents.
pub const SUPPORTED_DOC_LLM: &'static str =
    "List every encoding label the worker accepts — the encoding_rs / WHATWG set of \
     canonical encoding names. Use it to discover which labels are valid inputs to \
     to_utf8_from and transcode.";

/// The narrative of the `supported_encodings` function for human documentation.
pub const SUPPORTED_DOC_MD: &'static str =
    "## supported_encodings\n\n\
     A discovery table that lists every encoding label the worker accepts — the \
     `encoding_rs` / WHATWG set of canonical encoding names.\n\n\
     **Returns:** one row per encoding, with a single `label` column.\n\n\
     **When to use:** to discover which labels are valid inputs to `to_utf8_from` and \
     `transcode`, or to populate a picker of supported codecs.\n\n\
     ```sql\n\
     SELECT label FROM charset.main.supported_encodings() ORDER BY label LIMIT 5;\n\
     ```";

/// The search keywords of `supported_encodings`, comma-separated.
pub const SUPPORTED_KEYWORDS: &'static str =
    "supported encodings, list encodings, available codecs, encoding catalog, \
     discovery, what encodings, WHATWG, encoding_rs, labels";

/// The category of the discovery objects.
pub const DISCOVERY_CATEGORY: &'static str = "Discovery";

/// The Markdown table describing the result columns.
pub const RESULT_COLUMNS_MD: &'static str =
    "| column | type | description |\n\
     |---|---|---|\n\
     | `label` | VARCHAR | A canonical encoding label accepted by `to_utf8_from` and \
     `transcode`, e.g. `UTF-8`, `windows-1252`, `Shift_JIS`. |";

/// The summary of the `supported_encodings` function.
pub const SUPPORTED_DESCRIPTION: &'static str =
    "List every encoding label the worker accepts (the encoding_rs / WHATWG \
     set of canonical names)";

/// The `supported_encodings()` table function.
pub struct SupportedEncodings;

impl SupportedEncodings {
    pub fn name(&self) -> (r: &'static str)
        ensures
            r@ == "supported_encodings"@,
    {
        "supported_encodings"
    }

    /// The standard discovery tags, followed by the result-column table and
    /// the executable examples.
    pub fn metadata(&self) -> (r: FunctionDoc)
        ensures
            r.description@ == SUPPORTED_DESCRIPTION@,
            r.return_type is None,
            r.examples@.len() == 0,
            tag_views(r.tags@) == spec_object_tags(
                SUPPORTED_TITLE@,
                SUPPORTED_DOC_LLM@,
                SUPPORTED_DOC_MD@,
                SUPPORTED_KEYWORDS@,
                DISCOVERY_CATEGORY@,
                Seq::empty(),
            ).push(("vgi.result_columns_md"@, RESULT_COLUMNS_MD@)).push(
                ("vgi.executable_examples"@, EXECUTABLE_EXAMPLES@),
            ),
    {
        let no_examples: Vec<(&str, &str)> = Vec::new();
        let mut tags = object_tags(
            SUPPORTED_TITLE,
            SUPPORTED_DOC_LLM,
            SUPPORTED_DOC_MD,
            SUPPORTED_KEYWORDS,
            DISCOVERY_CATEGORY,
            no_examples.as_slice(),
        );
        proof {
            assert(example_pairs(no_examples@) =~= Seq::empty());
        }
        let ghost base = tags@;
        tags.push((String::from_str("vgi.result_columns_md"), String::from_str(RESULT_COLUMNS_MD)));
        tags.push(
            (String::from_str("vgi.executable_examples"), String::from_str(EXECUTABLE_EXAMPLES)),
        );
        proof {
            assert(tags@ =~= base.push(tags@[base.len() as int]).push(tags@[base.len() + 1int]));
            assert(tag_views(tags@) =~= tag_views(base).push(
                ("vgi.result_columns_md"@, RESULT_COLUMNS_MD@),
            ).push(("vgi.executable_examples"@, EXECUTABLE_EXAMPLES@)));
        }
        FunctionDoc {
            description: String::from_str(SUPPORTED_DESCRIPTION),
            return_type: None,
            examples: Vec::new(),
            tags,
        }
    }

    /// The table function takes no arguments.
    pub fn argument_specs(&self) -> (r: Vec<ArgumentDoc>)
        ensures
            r@.len() == 0,
    {
        Vec::new()
    }

    /// The columns declared at bind time.
    pub fn on_bind(&self) -> (r: Vec<ColumnDoc>)
        ensures
            r@.len() == 1,
            is_label_column(r@[0]),
    {
        output_columns()
    }

    /// A producer that has not yet produced anything.
    pub fn producer(&self) -> (r: SupportedProducer)
        ensures
            !r.is_done(),
    {
        SupportedProducer { done: false }
    }
}

/// Produces the rows of `supported_encodings`: all labels in one batch, then
/// nothing.
pub struct SupportedProducer {
    done: bool,
}

impl SupportedProducer {
    /// Whether the single batch has been produced.
    pub closed spec fn is_done(&self) -> bool {
        self.done
    }

    /// The next batch of labels: every supported encoding the first time,
    /// `None` ever after.
    pub fn next_batch(&mut self) -> (r: Option<Vec<&'static str>>)
        ensures
            final(self).is_done(),
            old(self).is_done() ==> r is None,
            !old(self).is_done() ==> (r matches Some(labels) && labels@.len()
                == whatwg_names().len() && forall|i: int|
                0 <= i < labels@.len() ==> #[trigger] labels@[i]@ == whatwg_names()[i]),
    {
        if self.done {
            return None;
        }
        self.done = true;
        Some(supported_encodings())
    }
}

/// The description of the `supported_encodings` catalog table.
pub const TABLE_DESCRIPTION: &'static str =
    "Every encoding label the worker accepts (the encoding_rs / WHATWG set of canonical \
     encoding names).";

/// The narrative of the catalog table for agents.
pub const TABLE_DOC_LLM: &'static str =
    "Every encoding label the worker accepts — the encoding_rs / WHATWG set of canonical \
     encoding names. Query it to discover which labels are valid inputs to to_utf8_from \
     and transcode.";

/// The narrative of the catalog table for human documentation.
pub const TABLE_DOC_MD: &'static str =
    "# supported_encodings\n\nThe discovery table of every encoding label the worker \
     accepts. One row per encoding, with a single `label` column (e.g. `UTF-8`, \
     `windows-1252`, `Shift_JIS`). Use it to find valid encoding inputs for `to_utf8_from` \
     and `transcode`.";

/// The example queries of the catalog table.
pub const TABLE_EXAMPLE_QUERIES: &'static str = r#"[
  {
    "description": "List the first few supported encoding labels.",
    "sql": "SELECT label FROM charset.main.supported_encodings ORDER BY label LIMIT 5"
  },
  {
    "description": "Count how many encoding labels the worker accepts.",
    "sql": "SELECT count(*) AS n FROM charset.main.supported_encodings"
  }
]"#;

/// The catalog table's tags, in order.
pub open spec fn table_tags() -> Seq<(Seq<char>, Seq<char>)> {
    seq![
        ("vgi.title"@, SUPPORTED_TITLE@),
        ("vgi.doc_llm"@, TABLE_DOC_LLM@),
        ("vgi.doc_md"@, TABLE_DOC_MD@),
        ("vgi.keywords"@, spec_keywords_json(SUPPORTED_KEYWORDS@)),
        ("domain"@, "text-processing"@),
        ("category"@, "discovery"@),
        ("topic"@, "encoding-catalog"@),
        ("vgi.category"@, DISCOVERY_CATEGORY@),
        ("vgi.example_queries"@, TABLE_EXAMPLE_QUERIES@),
    ]
}

/// The catalog table `supported_encodings`: its single `label` column, its
/// description, one row per encoding, `label` as primary key, NOT NULL and
/// unique, and its discovery tags.
pub open spec fn is_encodings_table(table: TableDoc) -> bool {
    &&& table.name@ == "supported_encodings"@
    &&& table.columns@.len() == 1
    &&& is_label_column(table.columns@[0])
    &&& table.comment matches Some(c) && c@ == TABLE_DESCRIPTION@
    &&& table.estimated_rows == Some(whatwg_names().len() as i64)
    &&& table.primary_key@.len() == 1 && table.primary_key@[0]@ == seq![0usize]
    &&& table.not_null@ == seq![0usize]
    &&& table.unique@.len() == 1 && table.unique@[0]@ == seq![0usize]
    &&& tag_views(table.tags@) == table_tags()
}

/// The catalog table `supported_encodings` (read as a plain table, without
/// parentheses), backed by the [`SupportedEncodings`] scan, with `label` as
/// its primary key, NOT NULL and unique, and its discovery tags.
pub fn supported_encodings_table() -> (r: TableDoc)
    ensures
        is_encodings_table(r),
{
    let labels = supported_encodings();
    let tags: Vec<(String, String)> = vec![
        (String::from_str("vgi.title"), String::from_str(SUPPORTED_TITLE)),
        (String::from_str("vgi.doc_llm"), String::from_str(TABLE_DOC_LLM)),
        (String::from_str("vgi.doc_md"), String::from_str(TABLE_DOC_MD)),
        (String::from_str("vgi.keywords"), keywords_json(SUPPORTED_KEYWORDS)),
        (String::from_str("domain"), String::from_str("text-processing")),
        (String::from_str("category"), String::from_str("discovery")),
        (String::from_str("topic"), String::from_str("encoding-catalog")),
        (String::from_str("vgi.category"), String::from_str(DISCOVERY_CATEGORY)),
        (String::from_str("vgi.example_queries"), String::from_str(TABLE_EXAMPLE_QUERIES)),
    ];
    let table = TableDoc {
        name: String::from_str("supported_encodings"),
        columns: output_columns(),
        comment: Some(String::from_str(TABLE_DESCRIPTION)),
        estimated_rows: Some(labels.len() as i64),
        primary_key: vec![vec![0]],
        not_null: vec![0],
        unique: vec![vec![0]],
        tags,
    };
    assert(table.primary_key@[0]@ =~= seq![0usize]);
    assert(table.unique@[0]@ =~= seq![0usize]);
    assert(table.not_null@ =~= seq![0usize]);
    assert(tag_views(table.tags@) =~= table_tags());
    table
}

} // verus!
