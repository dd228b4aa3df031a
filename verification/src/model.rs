//! Data shared across parsing, transformation, insertion and logging.

use vstd::prelude::*;

verus! {

/// Record shape as it appears in CSV or NDJSON input.
#[derive(Debug, PartialEq)]
pub struct RawRecord {
    /// Stable event identifier. This becomes the SQLite primary key.
    pub id: String,
    /// RFC 3339 timestamp string from the input file.
    pub timestamp: String,
    /// Numeric metric value, held as its IEEE-754 binary64 bit pattern
    /// (`f64::to_bits`). Transformation rejects NaN and infinite values.
    pub value_bits: u64,
    /// Source tag. Transformation trims and lowercases this value.
    pub tag: String,
}

impl Clone for RawRecord {
    fn clone(&self) -> (r: Self)
        ensures
            r == *self,
    {
        RawRecord {
            id: self.id.clone(),
            timestamp: self.timestamp.clone(),
            value_bits: self.value_bits,
            tag: self.tag.clone(),
        }
    }
}

/// Validated record ready to be inserted into SQLite.
#[derive(Clone, Debug, PartialEq)]
pub struct CleanRecord {
    /// Stable event identifier used as the SQLite primary key.
    pub id: String,
    /// Unix epoch seconds parsed from `RawRecord::timestamp`.
    pub timestamp: i64,
    /// Finite metric value copied from the raw record, as its bit pattern.
    pub value_bits: u64,
    /// Normalized tag after trimming whitespace and lowercasing.
    pub tag: String,
    /// True when the value is greater than zero.
    pub positive: bool,
}

/// The mathematical content of a [`CleanRecord`].
pub struct CleanRecordView {
    pub id: Seq<char>,
    pub timestamp: i64,
    pub value_bits: u64,
    pub tag: Seq<char>,
    pub positive: bool,
}

impl View for CleanRecord {
    type V = CleanRecordView;

    open spec fn view(&self) -> CleanRecordView {
        CleanRecordView {
            id: self.id@,
            timestamp: self.timestamp,
            value_bits: self.value_bits,
            tag: self.tag@,
            positive: self.positive,
        }
    }
}

/// The original input entry of one physical row, when it could be read.
#[derive(Clone, Debug, PartialEq)]
pub enum RawEntry {
    /// The CSV fields of the row, in column order.
    Fields(Vec<String>),
    /// The raw NDJSON line.
    Line(String),
    /// The row could not be read at all.
    Missing,
}

/// Original input context for one physical input record.
#[derive(Clone, Debug, PartialEq)]
pub struct RecordContext {
    /// One-based physical row number. CSV headers are not counted.
    pub row_number: usize,
    /// Input format label used in structured logs.
    pub format: &'static str,
    /// Original CSV fields or raw NDJSON line captured before parsing.
    pub raw: RawEntry,
}

/// Clean record plus the source context needed for later diagnostics.
#[derive(Clone, Debug, PartialEq)]
pub struct PreparedRecord {
    /// Source context retained through batching.
    pub context: RecordContext,
    /// Validated record to insert into SQLite.
    pub record: CleanRecord,
}

} // verus!
