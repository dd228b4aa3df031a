use std::time::{Duration, Instant};

use noda_interview::metrics::RunMetrics;

#[test]
fn formats_summary_with_all_counters() {
    let mut metrics = RunMetrics::start();
    metrics.total_records = 3;
    metrics.successful_rows = 1;
    metrics.failed_rows = 1;
    metrics.filtered_empty_tags = 1;

    let summary = metrics.summary();

    assert!(summary.contains("Total records processed: 3"));
    assert!(summary.contains("Successful rows written: 1"));
    assert!(summary.contains("Failed rows: 1"));
    assert!(summary.contains("Filtered empty tags: 1"));
}

#[test]
fn finished_metrics_keep_stable_elapsed_time() {
    let mut metrics = RunMetrics::start();
    metrics.finish();
    let elapsed = metrics.elapsed();

    let wait = Instant::now();
    while wait.elapsed() < Duration::from_millis(5) {}

    assert_eq!(metrics.elapsed(), elapsed);
}

#[test]
fn finishing_twice_keeps_the_first_duration() {
    let mut metrics = RunMetrics::start();
    metrics.finish();
    let first = metrics.elapsed();
    let wait = Instant::now();
    while wait.elapsed() < Duration::from_millis(2) {}
    metrics.finish();

    assert_eq!(metrics.elapsed(), first);
}

#[test]
fn new_metrics_start_at_zero() {
    let metrics = RunMetrics::start();
    assert_eq!(metrics.total_records, 0);
    assert_eq!(metrics.successful_rows, 0);
    assert_eq!(metrics.failed_rows, 0);
    assert_eq!(metrics.filtered_empty_tags, 0);
}

#[test]
fn summary_lists_the_four_counters_in_order() {
    let mut metrics = RunMetrics::start();
    metrics.total_records = 1000011;
    metrics.successful_rows = 685619;
    metrics.failed_rows = 247928;
    metrics.filtered_empty_tags = 66464;
    assert_eq!(
        metrics.summary(),
        "Total records processed: 1000011\nSuccessful rows written: 685619\nFailed rows: 247928\nFiltered empty tags: 66464"
    );
    assert_eq!(metrics.total(), 1000011);
    assert_eq!(metrics.successful(), 685619);
    assert_eq!(metrics.failed(), 247928);
    assert_eq!(metrics.filtered(), 66464);
}

#[test]
fn summary_of_new_metrics_shows_zeros() {
    assert_eq!(
        RunMetrics::start().summary(),
        "Total records processed: 0\nSuccessful rows written: 0\nFailed rows: 0\nFiltered empty tags: 0"
    );
}
