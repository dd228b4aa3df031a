use noda_interview::cli::InputFormat;
use noda_interview::db::{BatchInsert, InsertOutcome};
use noda_interview::event_log::RowEvent;
use noda_interview::input::{parsed_row, unreadable_row, RecordReadResult};
use noda_interview::model::{PreparedRecord, RawEntry, RawRecord};
use noda_interview::pipeline::{ConfigError, EtlRun, RunStep};

fn csv_row(row_number: usize, id: &str, timestamp: &str, value: f64, tag: &str) -> RecordReadResult {
    let raw = RawEntry::Fields(vec![
        id.to_string(),
        timestamp.to_string(),
        value.to_string(),
        tag.to_string(),
    ]);
    let record = RawRecord {
        id: id.to_string(),
        timestamp: timestamp.to_string(),
        value_bits: value.to_bits(),
        tag: tag.to_string(),
    };
    parsed_row(InputFormat::Csv, row_number, raw, Some(record), "input.csv")
}

/// Insert a flushed batch against a table that refuses ids it already holds.
fn flush(run: &mut EtlRun, rows: Vec<PreparedRecord>, stored: &mut Vec<String>) -> Vec<RowEvent> {
    let mut insert = BatchInsert::new(rows);
    while let Some(clean) = insert.next_record() {
        let outcome = if stored.contains(&clean.id) {
            InsertOutcome::ConstraintViolation("UNIQUE constraint failed: metrics.id".to_string())
        } else {
            stored.push(clean.id.clone());
            InsertOutcome::Inserted
        };
        insert.record_outcome(outcome).unwrap();
    }
    let result = insert.finish();
    run.complete_flush(&result);
    result.failures.into_iter().map(RowEvent::DatabaseFailure).collect()
}

#[test]
fn refuses_a_zero_batch_size() {
    let error = EtlRun::new(0).err().unwrap();
    assert_eq!(error, ConfigError::ZeroBatchSize);
    assert_eq!(error.message(), "--batch-size must be greater than 0");
}

#[test]
fn counts_every_record_once_across_flushes() {
    let mut run = EtlRun::new(2).unwrap();
    let mut stored = Vec::new();
    let mut events = Vec::new();
    let rows = vec![
        csv_row(1, "ok", "2026-05-11T00:00:00Z", 1.5, " Prod "),
        csv_row(2, "empty", "2026-05-11T00:00:01Z", 2.0, "   "),
        csv_row(3, "bad-time", "not-a-date", 3.0, "prod"),
        csv_row(4, "dup", "2026-05-11T00:00:03Z", 4.0, "prod"),
        csv_row(5, "dup", "2026-05-11T00:00:04Z", 5.0, "prod"),
    ];
    let mut flushes = 0;
    for row in rows {
        match run.handle_record(row) {
            RunStep::Continue => {}
            RunStep::Log(event) => events.push(event),
            RunStep::Flush(batch) => {
                flushes += 1;
                assert_eq!(batch.len(), 2);
                events.extend(flush(&mut run, batch, &mut stored));
            }
        }
    }
    if let Some(batch) = run.take_final_batch() {
        assert_eq!(batch.len(), 1);
        events.extend(flush(&mut run, batch, &mut stored));
    }
    assert!(run.take_final_batch().is_none());
    let metrics = run.finish();

    assert_eq!(flushes, 1);
    assert_eq!(metrics.total_records, 5);
    assert_eq!(metrics.successful_rows, 2);
    assert_eq!(metrics.failed_rows, 2);
    assert_eq!(metrics.filtered_empty_tags, 1);
    assert_eq!(stored, vec!["ok".to_string(), "dup".to_string()]);

    assert_eq!(events.len(), 3);
    assert_eq!(events.len(), metrics.failed_rows + metrics.filtered_empty_tags);
    assert_eq!(events[0].event_name(), "filtered_empty_tag");
    assert_eq!(events[0].stage(), "transform");
    assert_eq!(events[0].reason(), "tag is empty after trimming whitespace");
    match &events[0] {
        RowEvent::FilteredEmptyTag { context, record } => {
            assert_eq!(record.id, "empty");
            assert_eq!(context.row_number, 2);
        }
        other => panic!("unexpected {:?}", other),
    }
    assert_eq!(events[1].event_name(), "failed_row");
    assert_eq!(events[1].stage(), "transform");
    assert_eq!(events[1].reason(), "invalid timestamp for id bad-time");
    assert_eq!(events[2].event_name(), "failed_row");
    assert_eq!(events[2].stage(), "database");
    match &events[2] {
        RowEvent::DatabaseFailure(failure) => {
            assert_eq!(failure.record.id, "dup");
            assert_eq!(failure.context.row_number, 5);
            assert_eq!(
                failure.context.raw,
                RawEntry::Fields(vec![
                    "dup".to_string(),
                    "2026-05-11T00:00:04Z".to_string(),
                    "5".to_string(),
                    "prod".to_string(),
                ])
            );
        }
        other => panic!("unexpected {:?}", other),
    }
}

#[test]
fn malformed_rows_count_as_failed_and_processing_continues() {
    let mut run = EtlRun::new(1).unwrap();
    let mut stored = Vec::new();
    let rows = vec![
        csv_row(1, "ok-1", "2026-05-11T00:00:00Z", 1.5, "prod"),
        parsed_row(
            InputFormat::Ndjson,
            2,
            RawEntry::Line("{not valid json}".to_string()),
            None,
            "input.ndjson",
        ),
        unreadable_row(InputFormat::Ndjson, 3, "input.ndjson"),
        csv_row(4, "ok-2", "2026-05-11T00:00:02Z", -1.0, " Beta "),
    ];
    let mut logged = Vec::new();
    for row in rows {
        match run.handle_record(row) {
            RunStep::Continue => {}
            RunStep::Log(event) => logged.push(event),
            RunStep::Flush(batch) => {
                assert_eq!(batch.len(), 1);
                assert!(flush(&mut run, batch, &mut stored).is_empty());
            }
        }
    }
    assert!(run.take_final_batch().is_none());
    let metrics = run.finish();
    assert_eq!(metrics.total_records, 4);
    assert_eq!(metrics.successful_rows, 2);
    assert_eq!(metrics.failed_rows, 2);
    assert_eq!(logged.len(), 2);
    assert_eq!(logged.len(), metrics.failed_rows + metrics.filtered_empty_tags);
    assert_eq!(logged[0].stage(), "parse");
    assert_eq!(logged[0].reason(), "failed to parse NDJSON record 2 in input.ndjson");
    assert_eq!(logged[1].reason(), "failed to read NDJSON input line in input.ndjson");
}

#[test]
fn clean_records_wait_in_the_batch_until_it_is_full() {
    let mut run = EtlRun::new(3).unwrap();
    for n in 1..=2 {
        let step = run.handle_record(csv_row(n, &format!("id-{}", n), "2026-05-11T00:00:00Z", 1.0, "a"));
        assert!(matches!(step, RunStep::Continue));
    }
    assert_eq!(run.metrics().total_records, 2);
    let step = run.handle_record(csv_row(3, "id-3", "2026-05-11T00:00:00Z", 1.0, "a"));
    match step {
        RunStep::Flush(batch) => {
            let ids: Vec<&str> = batch.iter().map(|p| p.record.id.as_str()).collect();
            assert_eq!(ids, vec!["id-1", "id-2", "id-3"]);
            let rows: Vec<usize> = batch.iter().map(|p| p.context.row_number).collect();
            assert_eq!(rows, vec![1, 2, 3]);
            let mut stored = Vec::new();
            flush(&mut run, batch, &mut stored);
        }
        other => panic!("unexpected {:?}", other),
    }
    assert!(run.take_final_batch().is_none());
    assert_eq!(run.finish().successful_rows, 3);
}
