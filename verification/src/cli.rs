//! Command-line argument types.
//!
//! Library callers normally use [`crate::EtlConfig`] directly. This module is
//! public because [`InputFormat`] is shared by the command line and the
//! library API.

use std::path::PathBuf;

use vstd::prelude::*;

verus! {

/// File system paths are carried through the library unchanged.
#[verifier::external_type_specification]
#[verifier::external_body]
pub struct ExPathBuf(PathBuf);

/// `PathBuf::clone`: the copy is the same path.
pub assume_specification[ <PathBuf as Clone>::clone ](p: &PathBuf) -> (r: PathBuf)
    ensures
        r == *p,
;

/// Supported streaming input formats.
#[derive(Debug, Clone, Copy, PartialEq, Eq, Structural)]
pub enum InputFormat {
    /// Comma-separated values with the header `id,timestamp,value,tag`.
    Csv,
    /// Newline-delimited JSON with one raw record object per line.
    Ndjson,
}

impl InputFormat {
    /// The chars of the lowercase label used in logs.
    pub open spec fn label_chars(self) -> Seq<char> {
        match self {
            InputFormat::Csv => "csv"@,
            InputFormat::Ndjson => "ndjson"@,
        }
    }

    /// Lowercase label used in logs: `csv` or `ndjson`.
    pub fn label(self) -> (s: &'static str)
        ensures
            s@ == self.label_chars(),
    {
        match self {
            InputFormat::Csv => "csv",
            InputFormat::Ndjson => "ndjson",
        }
    }
}

/// Command-line options for one ETL run.
#[derive(Debug)]
pub struct Args {
    /// CSV or NDJSON file to read.
    pub input: PathBuf,
    /// Parser to use for the input file.
    pub format: InputFormat,
    /// SQLite database containing the target `metrics` table.
    pub db: PathBuf,
    /// Number of clean records to collect before flushing to SQLite.
    pub batch_size: usize,
    /// Optional JSON-lines file for failed and filtered input records.
    pub log_file: Option<PathBuf>,
}

} // verus!
