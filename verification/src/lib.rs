//! Streaming CSV/NDJSON to SQLite ETL: the verified core.
//!
//! This crate holds the decisions of the loader: how a raw record is
//! validated and normalized, how the `metrics` table schema is checked, how
//! batch insert outcomes are counted, how the run's counters move as records
//! stream through, and how the run summary is rendered. The program around it
//! reads the input files, talks to SQLite and writes the JSONL event log.

pub mod cli;
pub mod db;
pub mod event_log;
pub mod input;
pub mod metrics;
pub mod model;
pub mod pipeline;
pub mod text;
pub mod transform;

use std::path::PathBuf;

use vstd::prelude::*;

use crate::cli::{Args, InputFormat};
use vstd::std_specs::convert::IntoSpec;

verus! {

/// Number of clean records collected before a flush when none is configured.
pub const DEFAULT_BATCH_SIZE: usize = 1000;

/// Configuration for one ETL run.
///
/// This type is independent from the command-line parser so library callers
/// can construct it directly.
#[derive(Clone, Debug)]
pub struct EtlConfig {
    /// CSV or NDJSON file to read.
    pub input: PathBuf,
    /// Parser to use for the input file.
    pub format: InputFormat,
    /// Existing SQLite database containing the target `metrics` table.
    pub db: PathBuf,
    /// Number of clean records to collect before flushing to SQLite.
    pub batch_size: usize,
    /// Optional JSON-lines file for failed and filtered rows.
    pub log_file: Option<PathBuf>,
}

impl EtlConfig {
    /// Build a configuration with the default batch size and no event log.
    pub fn new<I: Into<PathBuf>, D: Into<PathBuf>>(input: I, format: InputFormat, db: D) -> (c: Self)
        ensures
            <I as IntoSpec<PathBuf>>::obeys_into_spec() ==> c.input == input.into_spec(),
            c.format == format,
            <D as IntoSpec<PathBuf>>::obeys_into_spec() ==> c.db == db.into_spec(),
            c.batch_size == DEFAULT_BATCH_SIZE,
            c.log_file is None,
    {
        EtlConfig {
            input: input.into(),
            format,
            db: db.into(),
            batch_size: DEFAULT_BATCH_SIZE,
            log_file: None,
        }
    }

    /// Override the clean-record batch size.
    pub fn with_batch_size(self, batch_size: usize) -> (c: Self)
        ensures
            c == (EtlConfig { batch_size, ..self }),
    {
        EtlConfig { batch_size, ..self }
    }

    /// Enable structured JSONL diagnostics at the provided path.
    pub fn with_log_file<L: Into<PathBuf>>(self, log_file: L) -> (c: Self)
        ensures
            c.input == self.input,
            c.format == self.format,
            c.db == self.db,
            c.batch_size == self.batch_size,
            c.log_file is Some,
            <L as IntoSpec<PathBuf>>::obeys_into_spec() ==> c.log_file == Some(
                log_file.into_spec(),
            ),
    {
        EtlConfig { log_file: Some(log_file.into()), ..self }
    }

    /// The configuration that the command-line options describe.
    pub open spec fn spec_from_args(args: &Args) -> EtlConfig {
        EtlConfig {
            input: args.input,
            format: args.format,
            db: args.db,
            batch_size: args.batch_size,
            log_file: args.log_file,
        }
    }
}

impl<'a> From<&'a Args> for EtlConfig {
    fn from(args: &'a Args) -> (c: Self)
        ensures
            c == EtlConfig::spec_from_args(args),
    {
        let log_file = match &args.log_file {
            Some(path) => Some(path.clone()),
            None => None,
        };
        EtlConfig {
            input: args.input.clone(),
            format: args.format,
            db: args.db.clone(),
            batch_size: args.batch_size,
            log_file,
        }
    }
}

impl<'a> vstd::std_specs::convert::FromSpecImpl<&'a Args> for EtlConfig {
    open spec fn obeys_from_spec() -> bool {
        true
    }

    open spec fn from_spec(args: &'a Args) -> EtlConfig {
        EtlConfig::spec_from_args(args)
    }
}

} // verus!
