//! The decisions of one ETL run, as a state machine.
//!
//! The program reads the input row by row and hands each read result to
//! [`EtlRun::handle_record`], which counts it, transforms it and says what to
//! do next: nothing, log a failed or filtered row, or flush a full batch to
//! SQLite. The program performs that step, reports a flush back with
//! [`EtlRun::complete_flush`], and at the end of the input flushes the last
//! partial batch and calls [`EtlRun::finish`].

use vstd::prelude::*;

use crate::db::BatchInsertResult;
use crate::event_log::{lemma_event_names, RowEvent};
use crate::input::{InputRecord, RecordReadResult};
use crate::metrics::{MetricsView, RunMetrics};
use crate::model::{CleanRecordView, PreparedRecord};
use crate::text::trim_chars;
use crate::transform::{
    expected_transform, normalized_tag, outcome_view, rfc3339_unix_seconds, transform_record,
    TransformError, TransformResult, TransformView,
};

verus! {

/// Why a run cannot start.
#[derive(Debug, PartialEq)]
pub enum ConfigError {
    /// The batch size is zero.
    ZeroBatchSize,
}

impl ConfigError {
    /// The chars of the human-readable reason.
    pub open spec fn message_chars(&self) -> Seq<char> {
        "--batch-size must be greater than 0"@
    }

    /// Human-readable reason.
    pub fn message(&self) -> (m: String)
        ensures
            m@ == self.message_chars(),
    {
        String::from_str("--batch-size must be greater than 0")
    }
}

/// What the program does after a record has been handled.
#[derive(Debug)]
pub enum RunStep {
    /// Nothing: the record is clean and waits in the batch.
    Continue,
    /// Write this event to the structured log.
    Log(RowEvent),
    /// Insert this full batch into SQLite, in order, then report the result
    /// with [`EtlRun::complete_flush`].
    Flush(Vec<PreparedRecord>),
}

/// The state of one ETL run between records.
pub struct EtlRun {
    batch_size: usize,
    batch: Vec<PreparedRecord>,
    in_flight: usize,
    metrics: RunMetrics,
    /// Every clean record of the run so far, in input order.
    clean: Ghost<Seq<PreparedRecord>>,
    /// Every record handed out in a flush so far, in the order handed out.
    handed_out: Ghost<Seq<PreparedRecord>>,
    /// Number of row events handed to the program to log so far.
    events: Ghost<nat>,
}

/// The mathematical content of an [`EtlRun`].
pub struct EtlRunView {
    /// Number of clean records collected before a flush.
    pub batch_size: nat,
    /// Clean records waiting for the next flush, in input order.
    pub batch: Seq<PreparedRecord>,
    /// Records handed out in a flush whose result is not reported yet.
    pub in_flight: nat,
    /// The run's counters.
    pub metrics: MetricsView,
    /// Every clean record of the run so far, in input order.
    pub clean: Seq<PreparedRecord>,
    /// Every record handed out in a flush so far, in the order handed out.
    pub handed_out: Seq<PreparedRecord>,
    /// Number of row events handed to the program to log so far: one per
    /// `RunStep::Log`, and one per failure of each reported flush.
    pub events: nat,
}

impl View for EtlRun {
    type V = EtlRunView;

    open spec fn view(&self) -> EtlRunView {
        self.run_view()
    }
}

/// `after` is `before` with one more clean record at the end: the one
/// built from `input`'s context and the clean view `clean`.
pub open spec fn appends_clean(
    before: Seq<PreparedRecord>,
    after: Seq<PreparedRecord>,
    input: InputRecord,
    clean: CleanRecordView,
) -> bool {
    &&& after.len() == before.len() + 1
    &&& after.subrange(0, before.len() as int) == before
    &&& after.last().context == input.context
    &&& after.last().record@ == clean
}

/// The counters of `m` with the given increments.
pub open spec fn counted(
    m: MetricsView,
    total: nat,
    successful: nat,
    failed: nat,
    filtered: nat,
) -> MetricsView {
    MetricsView {
        total_records: m.total_records + total,
        successful_rows: m.successful_rows + successful,
        failed_rows: m.failed_rows + failed,
        filtered_empty_tags: m.filtered_empty_tags + filtered,
        ..m
    }
}

/// How handling `record` moves the run from `before` to `after`, and which
/// step it asks for. Every record counts once in `total_records`; a read or
/// parse failure counts as failed and is logged; a record that transforms
/// to an error counts as failed and is logged with the error; a record with
/// an empty tag counts as filtered and is logged; a clean record joins the
/// batch, and when the batch reaches the batch size it is handed out whole
/// for a flush.
pub open spec fn handles_record(
    before: EtlRunView,
    record: RecordReadResult,
    after: EtlRunView,
    step: RunStep,
) -> bool {
    &&& after.batch_size == before.batch_size
    &&& match record {
        Err(failure) => {
            &&& step == RunStep::Log(RowEvent::ParseFailure(failure))
            &&& after == EtlRunView {
                metrics: counted(before.metrics, 1, 0, 1, 0),
                events: before.events + 1,
                ..before
            }
        },
        Ok(input) => match expected_transform(input.record) {
            TransformView::Clean(clean) => {
                &&& after.metrics == counted(before.metrics, 1, 0, 0, 0)
                &&& after.events == before.events
                &&& appends_clean(before.clean, after.clean, input, clean)
                &&& if before.batch.len() + 1 == before.batch_size {
                    &&& step matches RunStep::Flush(rows) && appends_clean(
                        before.batch,
                        rows@,
                        input,
                        clean,
                    ) && after.handed_out == before.handed_out + rows@
                    &&& after.batch.len() == 0
                    &&& after.in_flight == before.batch_size
                } else {
                    &&& step is Continue
                    &&& appends_clean(before.batch, after.batch, input, clean)
                    &&& after.in_flight == before.in_flight
                    &&& after.handed_out == before.handed_out
                }
            },
            TransformView::FilteredEmptyTag => {
                &&& step == RunStep::Log(
                    RowEvent::FilteredEmptyTag { context: input.context, record: input.record },
                )
                &&& after == EtlRunView {
                    metrics: counted(before.metrics, 1, 0, 0, 1),
                    events: before.events + 1,
                    ..before
                }
            },
            _ => {
                &&& step matches RunStep::Log(RowEvent::TransformFailure { context, record, error })
                    && context == input.context && record == input.record && outcome_is_error(
                    error,
                    expected_transform(input.record),
                )
                &&& after == EtlRunView {
                    metrics: counted(before.metrics, 1, 0, 1, 0),
                    events: before.events + 1,
                    ..before
                }
            },
        },
    }
}

/// `error` is the transformation error that `outcome` describes.
pub open spec fn outcome_is_error(error: TransformError, outcome: TransformView) -> bool {
    outcome_view(Err(error)) == outcome
}

impl EtlRun {
    /// The batch, the records in flight and the counters of this run.
    pub closed spec fn run_view(&self) -> EtlRunView {
        EtlRunView {
            batch_size: self.batch_size as nat,
            batch: self.batch@,
            in_flight: self.in_flight as nat,
            metrics: self.metrics@,
            clean: self.clean@,
            handed_out: self.handed_out@,
            events: self.events@,
        }
    }

    /// The run is consistent: the batch is below the batch size, and every
    /// record read so far is counted exactly once, as written, failed,
    /// filtered, waiting in the batch, or in flight.
    pub open spec fn wf(&self) -> bool {
        &&& self@.batch_size > 0
        &&& self@.batch.len() < self@.batch_size
        &&& self@.metrics.total_records == self@.metrics.successful_rows
            + self@.metrics.failed_rows + self@.metrics.filtered_empty_tags + self@.batch.len()
            + self@.in_flight
        &&& !self@.metrics.finished
        &&& self@.clean == self@.handed_out + self@.batch
        &&& self@.events == self@.metrics.failed_rows + self@.metrics.filtered_empty_tags
    }

    /// Start a run that flushes every `batch_size` clean records. A batch
    /// size of zero is refused.
    pub fn new(batch_size: usize) -> (r: Result<EtlRun, ConfigError>)
        ensures
            batch_size == 0 ==> r == Err::<EtlRun, ConfigError>(ConfigError::ZeroBatchSize),
            batch_size > 0 ==> (r matches Ok(run) && run.wf() && run@.batch_size == batch_size
                && run@.batch.len() == 0 && run@.in_flight == 0 && run@.metrics.total_records == 0
                && run@.metrics.successful_rows == 0 && run@.metrics.failed_rows == 0
                && run@.metrics.filtered_empty_tags == 0 && run@.clean.len() == 0
                && run@.handed_out.len() == 0 && run@.events == 0),
    {
        if batch_size == 0 {
            return Err(ConfigError::ZeroBatchSize);
        }
        let run = EtlRun {
            batch_size,
            batch: Vec::new(),
            in_flight: 0,
            metrics: RunMetrics::start(),
            clean: Ghost(Seq::empty()),
            handed_out: Ghost(Seq::empty()),
            events: Ghost(0),
        };
        assert(run@.clean =~= run@.handed_out + run@.batch);
        Ok(run)
    }

    /// The run's counters so far.
    pub fn metrics(&self) -> (m: &RunMetrics)
        ensures
            m@ == self@.metrics,
    {
        &self.metrics
    }

    /// Handle the read result of one physical input row.
    pub fn handle_record(&mut self, record: RecordReadResult) -> (step: RunStep)
        requires
            old(self).wf(),
            old(self)@.in_flight == 0,
            old(self)@.metrics.total_records < usize::MAX,
        ensures
            final(self).wf(),
            handles_record(old(self)@, record, final(self)@, step),
            final(self)@.metrics.total_records == old(self)@.metrics.total_records + 1,
            final(self)@.metrics.successful_rows == old(self)@.metrics.successful_rows,
            record is Err ==> final(self)@.metrics.failed_rows == old(self)@.metrics.failed_rows
                + 1 && final(self)@.metrics.filtered_empty_tags
                == old(self)@.metrics.filtered_empty_tags,
            record matches Ok(input) ==> (input.record.value_bits % 0x8000_0000_0000_0000
                >= 0x7FF0_0000_0000_0000 ==> final(self)@.metrics.failed_rows
                == old(self)@.metrics.failed_rows + 1
                && final(self)@.metrics.filtered_empty_tags
                == old(self)@.metrics.filtered_empty_tags),
            (final(self)@.metrics.filtered_empty_tags == old(self)@.metrics.filtered_empty_tags
                + 1) <==> (record matches Ok(input) && input.record.value_bits
                % 0x8000_0000_0000_0000 < 0x7FF0_0000_0000_0000 && trim_chars(
                input.record.tag@,
            ).len() == 0),
            final(self)@.metrics.filtered_empty_tags == old(self)@.metrics.filtered_empty_tags
                || final(self)@.metrics.filtered_empty_tags
                == old(self)@.metrics.filtered_empty_tags + 1,
            step matches RunStep::Log(event) ==> ((event.event_chars() == "failed_row"@) <==> (
            final(self)@.metrics.failed_rows == old(self)@.metrics.failed_rows + 1)),
    {
        let ghost before = self@;
        let ghost read = record;
        self.metrics.add_counts(1, 0, 0, 0);
        let step = match record {
            Err(failure) => {
                self.metrics.add_counts(0, 0, 1, 0);
                self.events = Ghost(self.events@ + 1);
                RunStep::Log(RowEvent::ParseFailure(failure))
            },
            Ok(input) => {
                let ghost original = input;
                let InputRecord { context, record } = input;
                let outcome = transform_record(record.clone());
                match outcome {
                    Ok(TransformResult::Clean(clean)) => {
                        let ghost before = self.batch@;
                        let ghost seen = self.clean@;
                        self.batch.push(PreparedRecord { context, record: clean });
                        self.clean = Ghost(seen.push(self.batch@.last()));
                        assert(self.batch@.subrange(0, before.len() as int) =~= before);
                        assert(self.clean@.subrange(0, seen.len() as int) =~= seen);
                        assert(self.clean@ =~= self.handed_out@ + self.batch@);
                        if self.batch.len() >= self.batch_size {
                            let mut full: Vec<PreparedRecord> = Vec::new();
                            std::mem::swap(&mut full, &mut self.batch);
                            self.in_flight = full.len();
                            self.handed_out = Ghost(self.handed_out@ + full@);
                            assert(self.clean@ =~= self.handed_out@ + self.batch@);
                            RunStep::Flush(full)
                        } else {
                            RunStep::Continue
                        }
                    },
                    Ok(TransformResult::FilteredEmptyTag) => {
                        self.metrics.add_counts(0, 0, 0, 1);
                        self.events = Ghost(self.events@ + 1);
                        RunStep::Log(RowEvent::FilteredEmptyTag { context, record })
                    },
                    Err(error) => {
                        self.metrics.add_counts(0, 0, 1, 0);
                        self.events = Ghost(self.events@ + 1);
                        RunStep::Log(RowEvent::TransformFailure { context, record, error })
                    },
                }
            },
        };
        proof {
            lemma_record_counts(before, read, self@, step);
        }
        step
    }

    /// Count the result of the batch handed out by the last flush. Its rows
    /// move from in flight to written or failed, and each of its failures is
    /// one more event for the program to log.
    pub fn complete_flush(&mut self, result: &BatchInsertResult)
        requires
            old(self).wf(),
            result.inserted + result.failed == old(self)@.in_flight,
            result.failed == result.failures@.len(),
        ensures
            final(self).wf(),
            final(self)@ == (EtlRunView {
                in_flight: 0,
                events: old(self)@.events + result.failures@.len(),
                metrics: counted(
                    old(self)@.metrics,
                    0,
                    result.inserted as nat,
                    result.failed as nat,
                    0,
                ),
                ..old(self)@
            }),
    {
        proof {
            self.metrics.lemma_counters_fit();
        }
        self.metrics.add_counts(0, result.inserted, result.failed, 0);
        self.in_flight = 0;
        self.events = Ghost(self.events@ + result.failures@.len());
    }

    /// Hand out the last, partial batch at the end of the input, if it holds
    /// any record.
    pub fn take_final_batch(&mut self) -> (rows: Option<Vec<PreparedRecord>>)
        requires
            old(self).wf(),
            old(self)@.in_flight == 0,
        ensures
            final(self).wf(),
            old(self)@.batch.len() == 0 ==> rows is None && final(self)@ == old(self)@,
            old(self)@.batch.len() > 0 ==> (rows matches Some(rows) && rows@ == old(self)@.batch
                && final(self)@ == (EtlRunView {
                batch: Seq::empty(),
                in_flight: old(self)@.batch.len(),
                handed_out: old(self)@.handed_out + old(self)@.batch,
                ..old(self)@
            })),
    {
        if self.batch.len() == 0 {
            None
        } else {
            let mut rows: Vec<PreparedRecord> = Vec::new();
            std::mem::swap(&mut rows, &mut self.batch);
            self.in_flight = rows.len();
            self.handed_out = Ghost(self.handed_out@ + rows@);
            assert(self.clean@ =~= self.handed_out@ + self.batch@);
            Some(rows)
        }
    }

    /// End the run: freeze the elapsed time and return the counters. Every
    /// record read is then counted exactly once as written, failed or
    /// filtered.
    pub fn finish(self) -> (m: RunMetrics)
        requires
            self.wf(),
            self@.batch.len() == 0,
            self@.in_flight == 0,
        ensures
            m@.finished,
            m@.total_records == self@.metrics.total_records,
            m@.successful_rows == self@.metrics.successful_rows,
            m@.failed_rows == self@.metrics.failed_rows,
            m@.filtered_empty_tags == self@.metrics.filtered_empty_tags,
            m@.total_records == m@.successful_rows + m@.failed_rows + m@.filtered_empty_tags,
            self@.handed_out == self@.clean,
            self@.events == m@.failed_rows + m@.filtered_empty_tags,
    {
        let mut metrics = self.metrics;
        metrics.finish();
        metrics
    }
}

/// Handling one record counts it once in `total_records` and never as
/// written: a clean record waits in the batch until its flush is reported.
/// A record that could not be read or parsed counts as failed. So does a
/// record whose value is NaN or infinite (all exponent bits set), whatever
/// its tag, and one with a finite value and a non-empty normalized tag whose
/// timestamp does not parse. The filtered count grows, by one, exactly when
/// the value is finite and the normalized tag is empty, and a failure never
/// touches it. A step that logs an event comes exactly with a failed or a
/// filtered count, and the event is named `failed_row` exactly when the
/// record counted as failed, `filtered_empty_tag` exactly when it counted as
/// filtered.
pub proof fn lemma_record_counts(
    before: EtlRunView,
    record: RecordReadResult,
    after: EtlRunView,
    step: RunStep,
)
    requires
        handles_record(before, record, after, step),
    ensures
        after.metrics.total_records == before.metrics.total_records + 1,
        after.metrics.successful_rows == before.metrics.successful_rows,
        record is Err ==> after.metrics.failed_rows == before.metrics.failed_rows + 1
            && after.metrics.filtered_empty_tags == before.metrics.filtered_empty_tags
            && step matches RunStep::Log(RowEvent::ParseFailure(_)),
        record matches Ok(input) ==> (input.record.value_bits % 0x8000_0000_0000_0000
            >= 0x7FF0_0000_0000_0000 ==> after.metrics.failed_rows == before.metrics.failed_rows
            + 1 && after.metrics.filtered_empty_tags == before.metrics.filtered_empty_tags
            && step matches RunStep::Log(
            RowEvent::TransformFailure { error: TransformError::NonFiniteValue { .. }, .. },
        )),
        record matches Ok(input) ==> ((input.record.value_bits % 0x8000_0000_0000_0000
            < 0x7FF0_0000_0000_0000 && normalized_tag(input.record.tag@).len() > 0
            && rfc3339_unix_seconds(input.record.timestamp@) is None) ==> after.metrics.failed_rows
            == before.metrics.failed_rows + 1 && after.metrics.filtered_empty_tags
            == before.metrics.filtered_empty_tags && step matches RunStep::Log(
            RowEvent::TransformFailure { error: TransformError::InvalidTimestamp { .. }, .. },
        )),
        (after.metrics.filtered_empty_tags == before.metrics.filtered_empty_tags + 1) <==> (
        record matches Ok(input) && input.record.value_bits % 0x8000_0000_0000_0000
            < 0x7FF0_0000_0000_0000 && normalized_tag(input.record.tag@).len() == 0),
        after.metrics.filtered_empty_tags == before.metrics.filtered_empty_tags
            || after.metrics.filtered_empty_tags == before.metrics.filtered_empty_tags + 1,
        after.metrics.failed_rows == before.metrics.failed_rows || after.metrics.failed_rows
            == before.metrics.failed_rows + 1,
        !(after.metrics.failed_rows == before.metrics.failed_rows + 1
            && after.metrics.filtered_empty_tags == before.metrics.filtered_empty_tags + 1),
        (step is Log) <==> (after.metrics.failed_rows == before.metrics.failed_rows + 1
            || after.metrics.filtered_empty_tags == before.metrics.filtered_empty_tags + 1),
        step matches RunStep::Log(event) ==> ((event.event_chars() == "failed_row"@) <==> (
        after.metrics.failed_rows == before.metrics.failed_rows + 1)) && ((event.event_chars()
            == "filtered_empty_tag"@) <==> (after.metrics.filtered_empty_tags
            == before.metrics.filtered_empty_tags + 1)),
{
    if let RunStep::Log(event) = step {
        lemma_event_names(event);
    }
}

/// Every record read so far is counted exactly once: as written, failed,
/// filtered, waiting in the batch, or in flight; and the clean records are
/// exactly those handed out for insertion followed by those still waiting,
/// in input order.
pub proof fn lemma_every_record_accounted_once(run: &EtlRun)
    requires
        run.wf(),
    ensures
        run@.metrics.total_records == run@.metrics.successful_rows + run@.metrics.failed_rows
            + run@.metrics.filtered_empty_tags + run@.batch.len() + run@.in_flight,
        run@.clean == run@.handed_out + run@.batch,
        run@.batch.len() < run@.batch_size,
{
}

/// The run hands the program exactly one event to log per failed or
/// filtered record: as many events as the failed and filtered counters
/// together.
pub proof fn lemma_one_event_per_failed_or_filtered_record(run: &EtlRun)
    requires
        run.wf(),
    ensures
        run@.events == run@.metrics.failed_rows + run@.metrics.filtered_empty_tags,
{
}

/// Once the last partial batch has been handed out, every clean record of
/// the run has been handed out for insertion exactly once, in input order.
pub proof fn lemma_clean_records_handed_out_in_order(run: &EtlRun)
    requires
        run.wf(),
        run@.batch.len() == 0,
    ensures
        run@.handed_out == run@.clean,
{
    assert(run@.handed_out + run@.batch =~= run@.handed_out);
}

} // verus!
