//! Runtime counters of one ETL run and their summary.
//!
//! Metrics are aggregate-only; row-level details go to the event log. The
//! summary's counter lines are rendered here; its duration and throughput
//! lines are floating point and are rendered by the program.

use std::time::{Duration, Instant};

use vstd::prelude::*;

use crate::text::{decimal_chars, push_decimal};

verus! {

/// Points in time are carried through the library unchanged.
#[verifier::external_type_specification]
#[verifier::external_body]
pub struct ExInstant(Instant);

/// `Instant::now`: reads the clock; nothing is claimed of the result.
#[verifier::external_body]
fn clock_now() -> Instant {
    Instant::now()
}

/// `Instant::elapsed`: reads the clock; nothing is claimed of the result.
#[verifier::external_body]
fn time_since(start: &Instant) -> Duration {
    start.elapsed()
}

/// Runtime counters collected during one ETL run.
///
/// Once [`finish`](Self::finish) has been called the elapsed duration is
/// frozen, so later calls to [`elapsed`](Self::elapsed) or
/// [`summary`](Self::summary) describe the completed run rather than the
/// wall-clock time since the struct was created.
#[derive(Debug)]
pub struct RunMetrics {
    started_at: Instant,
    completed_in: Option<Duration>,
    /// Number of physical input records read.
    pub total_records: usize,
    /// Number of rows inserted into SQLite.
    pub successful_rows: usize,
    /// Number of malformed, invalid, or database-rejected rows.
    pub failed_rows: usize,
    /// Number of otherwise valid rows skipped because their tag normalized to empty.
    pub filtered_empty_tags: usize,
}

/// The counter lines of the summary: records read, rows written, failed
/// rows and filtered empty tags, one per line.
pub open spec fn summary_chars(total: nat, successful: nat, failed: nat, filtered: nat) -> Seq<
    char,
> {
    "Total records processed: "@ + decimal_chars(total) + "\nSuccessful rows written: "@
        + decimal_chars(successful) + "\nFailed rows: "@ + decimal_chars(failed)
        + "\nFiltered empty tags: "@ + decimal_chars(filtered)
}

/// The mathematical content of [`RunMetrics`].
pub struct MetricsView {
    pub total_records: nat,
    pub successful_rows: nat,
    pub failed_rows: nat,
    pub filtered_empty_tags: nat,
    /// Whether the elapsed duration has been frozen by `finish`.
    pub finished: bool,
    /// The frozen elapsed duration, meaningful when `finished`.
    pub frozen_elapsed: Duration,
}

impl View for RunMetrics {
    type V = MetricsView;

    open spec fn view(&self) -> MetricsView {
        self.metrics_view()
    }
}

impl RunMetrics {
    /// The counters and the frozen duration of these metrics.
    pub closed spec fn metrics_view(&self) -> MetricsView {
        MetricsView {
            total_records: self.total_records as nat,
            successful_rows: self.successful_rows as nat,
            failed_rows: self.failed_rows as nat,
            filtered_empty_tags: self.filtered_empty_tags as nat,
            finished: self.completed_in is Some,
            frozen_elapsed: self.completed_in->0,
        }
    }

    /// Start a new metrics timer with zeroed counters.
    pub fn start() -> (m: Self)
        ensures
            m@.total_records == 0,
            m@.successful_rows == 0,
            m@.failed_rows == 0,
            m@.filtered_empty_tags == 0,
            !m@.finished,
    {
        RunMetrics {
            started_at: clock_now(),
            completed_in: None,
            total_records: 0,
            successful_rows: 0,
            failed_rows: 0,
            filtered_empty_tags: 0,
        }
    }

    /// Each counter fits in a `usize`.
    pub proof fn lemma_counters_fit(&self)
        ensures
            self@.total_records <= usize::MAX,
            self@.successful_rows <= usize::MAX,
            self@.failed_rows <= usize::MAX,
            self@.filtered_empty_tags <= usize::MAX,
    {
    }

    /// Add to the counters; the timer is untouched.
    pub(crate) fn add_counts(
        &mut self,
        total: usize,
        successful: usize,
        failed: usize,
        filtered: usize,
    )
        requires
            old(self)@.total_records + total <= usize::MAX,
            old(self)@.successful_rows + successful <= usize::MAX,
            old(self)@.failed_rows + failed <= usize::MAX,
            old(self)@.filtered_empty_tags + filtered <= usize::MAX,
        ensures
            final(self)@ == (MetricsView {
                total_records: old(self)@.total_records + total as nat,
                successful_rows: old(self)@.successful_rows + successful as nat,
                failed_rows: old(self)@.failed_rows + failed as nat,
                filtered_empty_tags: old(self)@.filtered_empty_tags + filtered as nat,
                ..old(self)@
            }),
    {
        self.total_records = self.total_records + total;
        self.successful_rows = self.successful_rows + successful;
        self.failed_rows = self.failed_rows + failed;
        self.filtered_empty_tags = self.filtered_empty_tags + filtered;
    }

    /// Wall-clock time since the run started, or the frozen duration once
    /// the run has finished.
    pub fn elapsed(&self) -> (d: Duration)
        ensures
            self@.finished ==> d == self@.frozen_elapsed,
    {
        match self.completed_in {
            Some(d) => d,
            None => time_since(&self.started_at),
        }
    }

    /// Freeze the elapsed duration at the end of a run. A second call keeps
    /// the duration frozen by the first.
    pub fn finish(&mut self)
        ensures
            final(self)@.finished,
            old(self)@.finished ==> final(self)@.frozen_elapsed == old(self)@.frozen_elapsed,
            final(self)@.total_records == old(self)@.total_records,
            final(self)@.successful_rows == old(self)@.successful_rows,
            final(self)@.failed_rows == old(self)@.failed_rows,
            final(self)@.filtered_empty_tags == old(self)@.filtered_empty_tags,
    {
        if self.completed_in.is_none() {
            self.completed_in = Some(time_since(&self.started_at));
        }
    }

    /// The counter lines of the summary printed at the end of a run. The
    /// program appends the duration and throughput lines, which are floating
    /// point.
    pub fn summary(&self) -> (s: String)
        ensures
            s@ == summary_chars(
                self@.total_records,
                self@.successful_rows,
                self@.failed_rows,
                self@.filtered_empty_tags,
            ),
    {
        let mut s = String::from_str("Total records processed: ");
        push_decimal(&mut s, self.total_records as u128);
        s.append("\nSuccessful rows written: ");
        push_decimal(&mut s, self.successful_rows as u128);
        s.append("\nFailed rows: ");
        push_decimal(&mut s, self.failed_rows as u128);
        s.append("\nFiltered empty tags: ");
        push_decimal(&mut s, self.filtered_empty_tags as u128);
        assert(s@ =~= summary_chars(
            self@.total_records,
            self@.successful_rows,
            self@.failed_rows,
            self@.filtered_empty_tags,
        ));
        s
    }

    /// Number of physical input records read.
    pub fn total(&self) -> (n: usize)
        ensures
            n == self@.total_records,
    {
        self.total_records
    }

    /// Number of rows inserted into SQLite.
    pub fn successful(&self) -> (n: usize)
        ensures
            n == self@.successful_rows,
    {
        self.successful_rows
    }

    /// Number of malformed, invalid, or database-rejected rows.
    pub fn failed(&self) -> (n: usize)
        ensures
            n == self@.failed_rows,
    {
        self.failed_rows
    }

    /// Number of rows skipped because their tag normalized to empty.
    pub fn filtered(&self) -> (n: usize)
        ensures
            n == self@.filtered_empty_tags,
    {
        self.filtered_empty_tags
    }
}

} // verus!
