//! Validation and normalization of raw records.

use vstd::prelude::*;

use chrono::DateTime;

use crate::model::{CleanRecord, CleanRecordView, RawRecord};
use crate::text::{lowercase_chars, to_lowercase, trim_chars, trim_whitespace};

verus! {

/// A binary64 bit pattern encodes a finite number: its exponent field is not
/// all ones (all-ones exponents encode the infinities and NaNs).
pub open spec fn f64_bits_is_finite(bits: u64) -> bool {
    bits % 0x8000_0000_0000_0000 < 0x7FF0_0000_0000_0000
}

/// A binary64 bit pattern encodes a number greater than zero: the sign bit is
/// clear, it is not `+0.0`, and it is not a NaN (`+inf` counts as greater).
pub open spec fn f64_bits_gt_zero(bits: u64) -> bool {
    0 < bits <= 0x7FF0_0000_0000_0000
}

/// `f64::is_finite` on the value with bit pattern `bits`.
pub fn value_is_finite(bits: u64) -> (b: bool)
    ensures
        b == f64_bits_is_finite(bits),
{
    bits % 0x8000_0000_0000_0000 < 0x7FF0_0000_0000_0000
}

/// `value > 0.0` on the value with bit pattern `bits`.
pub fn value_is_positive(bits: u64) -> (b: bool)
    ensures
        b == f64_bits_gt_zero(bits),
{
    0 < bits && bits <= 0x7FF0_0000_0000_0000
}

/// The Unix epoch seconds that `chrono::DateTime::parse_from_rfc3339`
/// followed by `DateTime::timestamp` gives for a string with chars `s`, or
/// `None` when chrono rejects the string.
pub uninterp spec fn rfc3339_unix_seconds(s: Seq<char>) -> Option<i64>;

/// `chrono::DateTime::parse_from_rfc3339`, then `DateTime::timestamp` on
/// success. Claims only that the result is a function of the chars of `s`,
/// named `rfc3339_unix_seconds`; the RFC 3339 grammar is not stated.
#[verifier::external_body]
fn parse_rfc3339_unix_seconds(s: &str) -> (r: Option<i64>)
    ensures
        r == rfc3339_unix_seconds(s@),
{
    match DateTime::parse_from_rfc3339(s) {
        Ok(parsed) => Some(parsed.timestamp()),
        Err(_) => None,
    }
}

/// Successful transformation outcome.
#[derive(Clone, Debug, PartialEq)]
pub enum TransformResult {
    /// The record is valid and normalized.
    Clean(CleanRecord),
    /// The tag is empty after trimming: a business skip, not a failure.
    FilteredEmptyTag,
}

/// Why a record was rejected.
#[derive(Clone, Debug, PartialEq)]
pub enum TransformError {
    /// The value is NaN or infinite.
    NonFiniteValue { id: String },
    /// The timestamp is not a valid RFC 3339 date-time.
    InvalidTimestamp { id: String },
}

impl TransformError {
    /// The chars of the human-readable reason.
    pub open spec fn message_chars(&self) -> Seq<char> {
        match self {
            TransformError::NonFiniteValue { id } => "value must be finite for id "@ + id@,
            TransformError::InvalidTimestamp { id } => "invalid timestamp for id "@ + id@,
        }
    }

    /// Human-readable reason, as written to the event log.
    pub fn message(&self) -> (m: String)
        ensures
            m@ == self.message_chars(),
    {
        match self {
            TransformError::NonFiniteValue { id } => {
                let mut m = String::from_str("value must be finite for id ");
                m.append(id.as_str());
                m
            },
            TransformError::InvalidTimestamp { id } => {
                let mut m = String::from_str("invalid timestamp for id ");
                m.append(id.as_str());
                m
            },
        }
    }
}

/// The outcome of transforming one record, as mathematical values.
pub enum TransformView {
    Clean(CleanRecordView),
    FilteredEmptyTag,
    NonFiniteValue(Seq<char>),
    InvalidTimestamp(Seq<char>),
}

/// The mathematical content of a transformation result.
pub open spec fn outcome_view(r: Result<TransformResult, TransformError>) -> TransformView {
    match r {
        Ok(TransformResult::Clean(c)) => TransformView::Clean(c@),
        Ok(TransformResult::FilteredEmptyTag) => TransformView::FilteredEmptyTag,
        Err(TransformError::NonFiniteValue { id }) => TransformView::NonFiniteValue(id@),
        Err(TransformError::InvalidTimestamp { id }) => TransformView::InvalidTimestamp(id@),
    }
}

/// The transformation rules, given the normalized tag and the parsed
/// timestamp: a non-finite value is rejected first, then an empty tag is
/// filtered, then an unparsable timestamp is rejected; otherwise the record is
/// clean and `positive` says whether the value is greater than zero.
pub open spec fn decide_transform(
    id: Seq<char>,
    value_bits: u64,
    tag: Seq<char>,
    timestamp: Option<i64>,
) -> TransformView {
    if !f64_bits_is_finite(value_bits) {
        TransformView::NonFiniteValue(id)
    } else if tag.len() == 0 {
        TransformView::FilteredEmptyTag
    } else {
        match timestamp {
            None => TransformView::InvalidTimestamp(id),
            Some(t) => TransformView::Clean(
                CleanRecordView {
                    id,
                    timestamp: t,
                    value_bits,
                    tag,
                    positive: f64_bits_gt_zero(value_bits),
                },
            ),
        }
    }
}

/// The transformation rules, stated on the bit pattern of the value: a
/// value whose exponent bits are all ones (an infinity or a NaN) is rejected
/// and nothing else is; a clean record keeps the id, the value's bits, the
/// tag and the timestamp it was given, and is positive exactly when the
/// value is greater than zero, i.e. its bits lie in `(0, +inf]`, which
/// includes every positive number below one; a record is clean exactly when
/// its value is finite, its tag non-empty and its timestamp parsed.
pub proof fn lemma_transform_rules(
    id: Seq<char>,
    value_bits: u64,
    tag: Seq<char>,
    timestamp: Option<i64>,
)
    ensures
        (decide_transform(id, value_bits, tag, timestamp) is NonFiniteValue) <==> value_bits
            % 0x8000_0000_0000_0000 >= 0x7FF0_0000_0000_0000,
        (decide_transform(id, value_bits, tag, timestamp) is Clean) <==> (value_bits
            % 0x8000_0000_0000_0000 < 0x7FF0_0000_0000_0000 && tag.len() > 0
            && timestamp is Some),
        (decide_transform(id, value_bits, tag, timestamp) is FilteredEmptyTag) <==> (value_bits
            % 0x8000_0000_0000_0000 < 0x7FF0_0000_0000_0000 && tag.len() == 0),
        decide_transform(id, value_bits, tag, timestamp) matches TransformView::Clean(c) ==> {
            &&& c.id == id
            &&& c.value_bits == value_bits
            &&& c.tag == tag
            &&& timestamp == Some(c.timestamp)
            &&& c.positive == (0 < value_bits && value_bits <= 0x7FF0_0000_0000_0000)
            &&& (value_bits < 0x7FF0_0000_0000_0000 && value_bits != 0) ==> c.positive
            &&& value_bits >= 0x8000_0000_0000_0000 ==> !c.positive
        },
        decide_transform(id, value_bits, tag, timestamp) matches TransformView::NonFiniteValue(e)
            ==> e == id,
        decide_transform(id, value_bits, tag, timestamp) matches TransformView::InvalidTimestamp(e)
            ==> e == id && timestamp is None,
{
}

/// `tag.trim().to_lowercase()`.
pub open spec fn normalized_tag(tag: Seq<char>) -> Seq<char> {
    lowercase_chars(trim_chars(tag))
}

/// What `transform_record` gives for `record`.
pub open spec fn expected_transform(record: RawRecord) -> TransformView {
    decide_transform(
        record.id@,
        record.value_bits,
        normalized_tag(record.tag@),
        rfc3339_unix_seconds(record.timestamp@),
    )
}

/// Trim surrounding Unicode whitespace, then lowercase.
pub fn normalize_tag(tag: &str) -> (r: String)
    ensures
        r@ == normalized_tag(tag@),
        r@.len() == 0 <==> trim_chars(tag@).len() == 0,
{
    to_lowercase(trim_whitespace(tag))
}

/// Apply the transformation rules to `record`, given its already normalized
/// tag and already parsed timestamp.
pub fn resolve_transform(record: RawRecord, tag: String, timestamp: Option<i64>) -> (r: Result<
    TransformResult,
    TransformError,
>)
    ensures
        outcome_view(r) == decide_transform(record.id@, record.value_bits, tag@, timestamp),
        r matches Ok(TransformResult::Clean(c)) ==> {
            &&& c.id@ == record.id@
            &&& c.value_bits == record.value_bits
            &&& c.tag@ == tag@
            &&& timestamp == Some(c.timestamp)
            &&& c.positive == (0 < record.value_bits && record.value_bits <= 0x7FF0_0000_0000_0000)
        },
{
    if !value_is_finite(record.value_bits) {
        return Err(TransformError::NonFiniteValue { id: record.id });
    }
    if tag.as_str().is_empty() {
        return Ok(TransformResult::FilteredEmptyTag);
    }
    match timestamp {
        None => Err(TransformError::InvalidTimestamp { id: record.id }),
        Some(t) => {
            let positive = value_is_positive(record.value_bits);
            Ok(
                TransformResult::Clean(
                    CleanRecord {
                        id: record.id,
                        timestamp: t,
                        value_bits: record.value_bits,
                        tag,
                        positive,
                    },
                ),
            )
        },
    }
}

/// Validate and normalize one raw record.
pub fn transform_record(record: RawRecord) -> (r: Result<TransformResult, TransformError>)
    ensures
        outcome_view(r) == expected_transform(record),
        f64_bits_is_finite(record.value_bits) ==> ((r == Ok::<TransformResult, TransformError>(
            TransformResult::FilteredEmptyTag,
        )) <==> trim_chars(record.tag@).len() == 0),
        r matches Ok(TransformResult::Clean(c)) ==> {
            &&& c.id@ == record.id@
            &&& c.value_bits == record.value_bits
            &&& c.positive == (0 < record.value_bits && record.value_bits <= 0x7FF0_0000_0000_0000)
        },
        (record.value_bits % 0x8000_0000_0000_0000 >= 0x7FF0_0000_0000_0000) <==> r matches Err(
            TransformError::NonFiniteValue { .. },
        ),
{
    let tag = normalize_tag(record.tag.as_str());
    let timestamp = parse_rfc3339_unix_seconds(record.timestamp.as_str());
    resolve_transform(record, tag, timestamp)
}

} // verus!
