//! Plain descriptions of the worker's functions: what DuckDB is told about a
//! function's name, arguments, result type, examples and discovery tags.
use vstd::prelude::*;

verus! {

/// The SQL column types the worker's functions take and return.
#[derive(Debug, Clone, Copy, PartialEq, Eq)]
pub enum ColumnType {
    /// VARCHAR.
    Utf8,
    /// BLOB.
    Binary,
    /// BOOLEAN.
    Boolean,
    /// DOUBLE.
    Float64,
}

/// A runnable example query with its description.
pub struct Example {
    pub sql: String,
    pub description: String,
}

/// The description of a function: a one-line summary, its result type, its
/// examples and its discovery tags.
pub struct FunctionDoc {
    pub description: String,
    pub return_type: Option<ColumnType>,
    pub examples: Vec<Example>,
    pub tags: Vec<(String, String)>,
}

/// One positional argument of a function. `sql_type` is `None` for an
/// argument that accepts a column of any type.
pub struct ArgumentDoc {
    pub name: String,
    pub position: usize,
    pub sql_type: Option<String>,
    pub description: String,
}

/// An example with the given SQL and description.
pub fn example(sql: &str, description: &str) -> (r: Example)
    ensures
        r.sql@ == sql@,
        r.description@ == description@,
{
    Example { sql: String::from_str(sql), description: String::from_str(description) }
}

/// An argument that accepts a column of any type.
pub fn any_column(name: &str, position: usize, description: &str) -> (r: ArgumentDoc)
    ensures
        r.name@ == name@,
        r.position == position,
        r.sql_type is None,
        r.description@ == description@,
{
    ArgumentDoc {
        name: String::from_str(name),
        position,
        sql_type: None,
        description: String::from_str(description),
    }
}

/// An argument that takes a column of the SQL type `sql_type`.
pub fn typed_column(name: &str, position: usize, sql_type: &str, description: &str) -> (r:
    ArgumentDoc)
    ensures
        r.name@ == name@,
        r.position == position,
        r.sql_type matches Some(t) && t@ == sql_type@,
        r.description@ == description@,
{
    ArgumentDoc {
        name: String::from_str(name),
        position,
        sql_type: Some(String::from_str(sql_type)),
        description: String::from_str(description),
    }
}

} // verus!
