use noda_interview::cli::InputFormat;
use noda_interview::input::{parsed_row, record_context, unreadable_row};
use noda_interview::model::{RawEntry, RawRecord};

#[test]
fn keeps_the_row_context_of_parsed_records() {
    let record = RawRecord {
        id: "a".to_string(),
        timestamp: "t".to_string(),
        value_bits: 1.0f64.to_bits(),
        tag: "x".to_string(),
    };
    let input = parsed_row(
        InputFormat::Ndjson,
        7,
        RawEntry::Line("{}".to_string()),
        Some(record.clone()),
        "in.ndjson",
    )
    .unwrap();
    assert_eq!(input.record, record);
    assert_eq!(input.context.row_number, 7);
    assert_eq!(input.context.format, "ndjson");
    assert_eq!(input.context.raw, RawEntry::Line("{}".to_string()));
}

#[test]
fn parse_failures_keep_the_raw_entry() {
    let failure = parsed_row(
        InputFormat::Csv,
        12,
        RawEntry::Fields(vec!["bad".to_string()]),
        None,
        "data/in.csv",
    )
    .unwrap_err();
    let context = failure.context.unwrap();
    assert_eq!(context.row_number, 12);
    assert_eq!(context.format, "csv");
    assert_eq!(context.raw, RawEntry::Fields(vec!["bad".to_string()]));
    assert_eq!(failure.reason, "failed to parse CSV record 12 in data/in.csv");
}

#[test]
fn read_failures_have_no_raw_entry() {
    let failure = unreadable_row(InputFormat::Csv, 3, "in.csv").unwrap_err();
    let context = failure.context.unwrap();
    assert_eq!(context.row_number, 3);
    assert_eq!(context.raw, RawEntry::Missing);
    assert_eq!(failure.reason, "failed to read CSV record in in.csv");
}

#[test]
fn labels_formats_in_lowercase() {
    assert_eq!(InputFormat::Csv.label(), "csv");
    assert_eq!(InputFormat::Ndjson.label(), "ndjson");
    assert_eq!(record_context(InputFormat::Csv, 1, RawEntry::Missing).format, "csv");
}
