//! The row-level events that the structured JSONL log records.
//!
//! Each failed or filtered row becomes one [`RowEvent`]; this module decides
//! its event name, pipeline stage and reason. The program writes the events.

use vstd::prelude::*;

use crate::db::DatabaseRowFailure;
use crate::input::InputRecordFailure;
use crate::model::{RawRecord, RecordContext};
use crate::transform::TransformError;

verus! {

/// One failed or filtered row, with what the log says about it.
#[derive(Debug, PartialEq)]
pub enum RowEvent {
    /// A row that could not be read or parsed into a raw record.
    ParseFailure(InputRecordFailure),
    /// A row that parsed but failed validation or normalization.
    TransformFailure { context: RecordContext, record: RawRecord, error: TransformError },
    /// A row skipped by the empty-tag business rule.
    FilteredEmptyTag { context: RecordContext, record: RawRecord },
    /// A row that SQLite refused, such as a duplicate primary key.
    DatabaseFailure(DatabaseRowFailure),
}

/// The reason logged for a row whose tag is empty after trimming.
pub open spec fn empty_tag_reason() -> Seq<char> {
    "tag is empty after trimming whitespace"@
}

impl RowEvent {
    /// The chars of the event name: `filtered_empty_tag` for skipped rows,
    /// `failed_row` for all others.
    pub open spec fn event_chars(&self) -> Seq<char> {
        match self {
            RowEvent::FilteredEmptyTag { .. } => "filtered_empty_tag"@,
            _ => "failed_row"@,
        }
    }

    /// The chars of the stage that produced the event.
    pub open spec fn stage_chars(&self) -> Seq<char> {
        match self {
            RowEvent::ParseFailure(_) => "parse"@,
            RowEvent::TransformFailure { .. } => "transform"@,
            RowEvent::FilteredEmptyTag { .. } => "transform"@,
            RowEvent::DatabaseFailure(_) => "database"@,
        }
    }

    /// The chars of the human-readable reason.
    pub open spec fn reason_chars(&self) -> Seq<char> {
        match self {
            RowEvent::ParseFailure(failure) => failure.reason@,
            RowEvent::TransformFailure { error, .. } => error.message_chars(),
            RowEvent::FilteredEmptyTag { .. } => empty_tag_reason(),
            RowEvent::DatabaseFailure(failure) => failure.reason@,
        }
    }

    /// The source context of the row: the failure's context for a parse
    /// failure (a reader may have none), the row's context otherwise.
    pub open spec fn context_of(&self) -> Option<RecordContext> {
        match self {
            RowEvent::ParseFailure(failure) => failure.context,
            RowEvent::TransformFailure { context, .. } => Some(*context),
            RowEvent::FilteredEmptyTag { context, .. } => Some(*context),
            RowEvent::DatabaseFailure(failure) => Some(failure.context),
        }
    }

    /// The source context that the log line carries for this row; its raw
    /// entry is what the line shows of the original input.
    pub fn context(&self) -> (c: Option<&RecordContext>)
        ensures
            c is Some <==> self.context_of() is Some,
            c is Some ==> *c->0 == self.context_of()->0,
    {
        match self {
            RowEvent::ParseFailure(failure) => match &failure.context {
                Some(context) => Some(context),
                None => None,
            },
            RowEvent::TransformFailure { context, .. } => Some(context),
            RowEvent::FilteredEmptyTag { context, .. } => Some(context),
            RowEvent::DatabaseFailure(failure) => Some(&failure.context),
        }
    }

    /// Event name: `failed_row` or `filtered_empty_tag`.
    pub fn event_name(&self) -> (s: &'static str)
        ensures
            s@ == self.event_chars(),
            *self is FilteredEmptyTag ==> s@ == "filtered_empty_tag"@,
            !(*self is FilteredEmptyTag) ==> s@ == "failed_row"@,
            (s@ == "filtered_empty_tag"@) <==> *self is FilteredEmptyTag,
            (s@ == "failed_row"@) <==> !(*self is FilteredEmptyTag),
    {
        proof {
            lemma_event_names(*self);
        }
        match self {
            RowEvent::FilteredEmptyTag { .. } => "filtered_empty_tag",
            _ => "failed_row",
        }
    }

    /// Pipeline stage that produced the event: `parse`, `transform` or
    /// `database`.
    pub fn stage(&self) -> (s: &'static str)
        ensures
            s@ == self.stage_chars(),
    {
        match self {
            RowEvent::ParseFailure(_) => "parse",
            RowEvent::TransformFailure { .. } => "transform",
            RowEvent::FilteredEmptyTag { .. } => "transform",
            RowEvent::DatabaseFailure(_) => "database",
        }
    }

    /// Human-readable failure or filter reason.
    pub fn reason(&self) -> (s: String)
        ensures
            s@ == self.reason_chars(),
    {
        match self {
            RowEvent::ParseFailure(failure) => failure.reason.clone(),
            RowEvent::TransformFailure { error, .. } => error.message(),
            RowEvent::FilteredEmptyTag { .. } => String::from_str(
                "tag is empty after trimming whitespace",
            ),
            RowEvent::DatabaseFailure(failure) => failure.reason.clone(),
        }
    }
}

/// Only rows skipped by the empty-tag rule are logged as
/// `filtered_empty_tag`; every other event, whether the row failed to parse,
/// failed to transform or was refused by SQLite, is logged as `failed_row`.
/// The two names differ, so the name alone tells a failure from a skip. A
/// parse failure is logged at the `parse` stage, a transformation failure
/// and a skip at `transform`, a database failure at `database`.
pub proof fn lemma_event_names(event: RowEvent)
    ensures
        (event.event_chars() == "filtered_empty_tag"@) <==> event is FilteredEmptyTag,
        (event.event_chars() == "failed_row"@) <==> !(event is FilteredEmptyTag),
        event is ParseFailure ==> event.event_chars() == "failed_row"@ && event.stage_chars()
            == "parse"@,
        event is TransformFailure ==> event.event_chars() == "failed_row"@
            && event.stage_chars() == "transform"@,
        event is DatabaseFailure ==> event.event_chars() == "failed_row"@
            && event.stage_chars() == "database"@,
        event is FilteredEmptyTag ==> event.stage_chars() == "transform"@,
{
    reveal_strlit("filtered_empty_tag");
    reveal_strlit("failed_row");
    assert("filtered_empty_tag"@[1] != "failed_row"@[1]);
}

} // verus!
