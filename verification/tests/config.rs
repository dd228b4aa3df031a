use std::path::PathBuf;

use noda_interview::cli::{Args, InputFormat};
use noda_interview::{EtlConfig, DEFAULT_BATCH_SIZE};

#[test]
fn new_config_uses_default_batch_size_and_no_log() {
    let config = EtlConfig::new("in.csv", InputFormat::Csv, PathBuf::from("db.sqlite"));
    assert_eq!(config.input, PathBuf::from("in.csv"));
    assert_eq!(config.format, InputFormat::Csv);
    assert_eq!(config.db, PathBuf::from("db.sqlite"));
    assert_eq!(config.batch_size, 1000);
    assert_eq!(DEFAULT_BATCH_SIZE, 1000);
    assert!(config.log_file.is_none());
}

#[test]
fn builders_override_one_field_each() {
    let input = PathBuf::from("in.ndjson");
    let log = PathBuf::from("events.jsonl");
    let config = EtlConfig::new(&input, InputFormat::Ndjson, "m.sqlite")
        .with_batch_size(1)
        .with_log_file(&log);
    assert_eq!(config.batch_size, 1);
    assert_eq!(config.log_file, Some(log));
    assert_eq!(config.input, input);
    assert_eq!(config.db, PathBuf::from("m.sqlite"));
    assert_eq!(config.format, InputFormat::Ndjson);
}

#[test]
fn config_from_args_copies_every_option() {
    let args = Args {
        input: PathBuf::from("a.csv"),
        format: InputFormat::Csv,
        db: PathBuf::from("b.sqlite"),
        batch_size: 7,
        log_file: Some(PathBuf::from("c.jsonl")),
    };
    let config = EtlConfig::from(&args);
    assert_eq!(config.input, args.input);
    assert_eq!(config.format, args.format);
    assert_eq!(config.db, args.db);
    assert_eq!(config.batch_size, 7);
    assert_eq!(config.log_file, args.log_file);
}
