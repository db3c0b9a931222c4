//! Character-encoding detection and UTF-8 transcoding for the `charset`
//! worker, which serves them to DuckDB over Apache Arrow.
//!
//! - [`charset`]: the engine (detection, decoding, encoding, mojibake repair,
//!   UTF-8 validity) with its contracts; [`laws`] holds the properties that
//!   span its functions.
//! - [`codec`]: the boundary to `encoding_rs` and `chardetng`; [`utf16`]: the
//!   UTF-16 encoder.
//! - [`scalar`] and [`table`]: the worker's functions, row by row, with their
//!   descriptions; [`catalog`]: the catalog and schema they are served under;
//!   [`meta`]: the discovery tags every object carries.
use vstd::prelude::*;

pub mod catalog;
pub mod charset;
pub mod codec;
pub mod function;
pub mod laws;
pub mod meta;
pub mod scalar;
pub mod table;
pub mod text;
pub mod utf16;
mod utf8;
