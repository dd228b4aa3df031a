//! Records as the input readers hand them on.
//!
//! Readers preserve source context: every successfully parsed row becomes an
//! [`InputRecord`], and every row-level read or parse failure becomes an
//! [`InputRecordFailure`] so that processing can continue. Timestamps, values
//! and tags are not validated here; that belongs to [`crate::transform`].

use vstd::prelude::*;

use crate::cli::InputFormat;
use crate::model::{RawEntry, RawRecord, RecordContext};
use crate::text::{decimal_chars, push_decimal};

verus! {

/// Parsed record with enough context to explain later validation failures.
#[derive(Clone, Debug, PartialEq)]
pub struct InputRecord {
    /// Source context captured before format-specific deserialization.
    pub context: RecordContext,
    /// Successfully deserialized raw record.
    pub record: RawRecord,
}

/// Parse failure with the original input entry where it was available.
#[derive(Clone, Debug, PartialEq)]
pub struct InputRecordFailure {
    /// Source row context. Some low-level read failures may not have raw data.
    pub context: Option<RecordContext>,
    /// Human-readable parse or read failure reason.
    pub reason: String,
}

/// Result passed to the pipeline for each physical input row.
pub type RecordReadResult = Result<InputRecord, InputRecordFailure>;

/// The chars of the format's name in messages: `CSV` or `NDJSON`.
pub open spec fn format_title(format: InputFormat) -> Seq<char> {
    match format {
        InputFormat::Csv => "CSV"@,
        InputFormat::Ndjson => "NDJSON"@,
    }
}

/// The reason given for a row that was read but could not be parsed.
pub open spec fn parse_failure_reason(
    format: InputFormat,
    row_number: nat,
    path: Seq<char>,
) -> Seq<char> {
    "failed to parse "@ + format_title(format) + " record "@ + decimal_chars(row_number)
        + " in "@ + path
}

/// The reason given for a row that could not be read.
pub open spec fn read_failure_reason(format: InputFormat, path: Seq<char>) -> Seq<char> {
    match format {
        InputFormat::Csv => "failed to read CSV record in "@ + path,
        InputFormat::Ndjson => "failed to read NDJSON input line in "@ + path,
    }
}

/// The source context of one physical row.
pub fn record_context(format: InputFormat, row_number: usize, raw: RawEntry) -> (c: RecordContext)
    ensures
        c.row_number == row_number,
        c.format@ == format.label_chars(),
        c.raw == raw,
{
    RecordContext { row_number, format: format.label(), raw }
}

/// What a reader hands on for a row it could read: the parsed record with
/// its context, or, when parsing failed, a failure that keeps the raw entry.
/// `path` is the input path as shown in messages.
pub fn parsed_row(
    format: InputFormat,
    row_number: usize,
    raw: RawEntry,
    parsed: Option<RawRecord>,
    path: &str,
) -> (r: RecordReadResult)
    ensures
        match parsed {
            Some(record) => r matches Ok(input) && input.record == record
                && input.context.row_number == row_number && input.context.format@
                == format.label_chars() && input.context.raw == raw,
            None => r matches Err(failure) && failure.context matches Some(context)
                && context.row_number == row_number && context.format@ == format.label_chars()
                && context.raw == raw && failure.reason@ == parse_failure_reason(
                format,
                row_number as nat,
                path@,
            ),
        },
{
    let context = record_context(format, row_number, raw);
    match parsed {
        Some(record) => Ok(InputRecord { context, record }),
        None => {
            let mut reason = String::from_str("failed to parse ");
            match format {
                InputFormat::Csv => reason.append("CSV"),
                InputFormat::Ndjson => reason.append("NDJSON"),
            }
            reason.append(" record ");
            push_decimal(&mut reason, row_number as u128);
            reason.append(" in ");
            reason.append(path);
            assert(reason@ =~= parse_failure_reason(format, row_number as nat, path@));
            Err(InputRecordFailure { context: Some(context), reason })
        },
    }
}

/// What a reader hands on for a row it could not read: a failure with the
/// row's number and no raw entry.
pub fn unreadable_row(format: InputFormat, row_number: usize, path: &str) -> (r: RecordReadResult)
    ensures
        r matches Err(failure) && failure.context matches Some(context) && context.row_number
            == row_number && context.format@ == format.label_chars() && context.raw
            == RawEntry::Missing && failure.reason@ == read_failure_reason(format, path@),
{
    let context = record_context(format, row_number, RawEntry::Missing);
    let mut reason = match format {
        InputFormat::Csv => String::from_str("failed to read CSV record in "),
        InputFormat::Ndjson => String::from_str("failed to read NDJSON input line in "),
    };
    reason.append(path);
    Err(InputRecordFailure { context: Some(context), reason })
}

} // verus!
