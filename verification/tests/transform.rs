use noda_interview::model::{CleanRecord, RawRecord};
use noda_interview::transform::{
    normalize_tag, resolve_transform, transform_record, value_is_finite, value_is_positive,
    TransformError, TransformResult,
};

fn raw_record() -> RawRecord {
    RawRecord {
        id: "event-1".to_string(),
        timestamp: "2026-05-11T12:30:00Z".to_string(),
        value_bits: 42.5f64.to_bits(),
        tag: " Prod ".to_string(),
    }
}

#[test]
fn transforms_valid_record() {
    let result = transform_record(raw_record()).unwrap();

    assert_eq!(
        result,
        TransformResult::Clean(CleanRecord {
            id: "event-1".to_string(),
            timestamp: 1_778_502_600,
            value_bits: 42.5f64.to_bits(),
            tag: "prod".to_string(),
            positive: true,
        })
    );
}

#[test]
fn filters_empty_tags_after_trim() {
    let mut record = raw_record();
    record.tag = "  ".to_string();

    assert_eq!(
        transform_record(record).unwrap(),
        TransformResult::FilteredEmptyTag
    );
}

#[test]
fn rejects_non_finite_values() {
    let mut record = raw_record();
    record.value_bits = f64::INFINITY.to_bits();

    assert!(transform_record(record).is_err());
}

#[test]
fn rejects_nan_and_negative_infinity_before_looking_at_the_tag() {
    for value in [f64::NAN, f64::NEG_INFINITY] {
        let mut record = raw_record();
        record.value_bits = value.to_bits();
        record.tag = "   ".to_string();
        record.timestamp = "not-a-date".to_string();

        assert_eq!(
            transform_record(record),
            Err(TransformError::NonFiniteValue { id: "event-1".to_string() })
        );
    }
}

#[test]
fn rejects_invalid_timestamps_with_the_record_id() {
    let mut record = raw_record();
    record.timestamp = "not-a-date".to_string();

    let error = transform_record(record).unwrap_err();
    assert_eq!(error, TransformError::InvalidTimestamp { id: "event-1".to_string() });
    assert_eq!(error.message(), "invalid timestamp for id event-1");
}

#[test]
fn empty_tag_is_filtered_even_when_the_timestamp_is_invalid() {
    let mut record = raw_record();
    record.tag = "\t \u{3000}".to_string();
    record.timestamp = "not-a-date".to_string();

    assert_eq!(transform_record(record).unwrap(), TransformResult::FilteredEmptyTag);
}

#[test]
fn non_finite_message_names_the_record() {
    let error = TransformError::NonFiniteValue { id: "abc".to_string() };
    assert_eq!(error.message(), "value must be finite for id abc");
}

#[test]
fn converts_offset_timestamps_to_epoch_seconds() {
    let mut record = raw_record();
    record.timestamp = "2026-05-11T14:30:00+02:00".to_string();

    match transform_record(record).unwrap() {
        TransformResult::Clean(clean) => assert_eq!(clean.timestamp, 1_778_502_600),
        other => panic!("unexpected {:?}", other),
    }
}

#[test]
fn positive_means_strictly_greater_than_zero() {
    assert!(value_is_positive(1.5f64.to_bits()));
    assert!(value_is_positive(f64::MIN_POSITIVE.to_bits()));
    assert!(value_is_positive(f64::INFINITY.to_bits()));
    assert!(!value_is_positive(0.0f64.to_bits()));
    assert!(!value_is_positive((-0.0f64).to_bits()));
    assert!(!value_is_positive((-1.0f64).to_bits()));
    assert!(!value_is_positive(f64::NAN.to_bits()));
}

#[test]
fn finite_matches_the_standard_library() {
    for value in [0.0, -0.0, 1.0, -1.0e300, f64::MAX, f64::MIN, f64::MIN_POSITIVE, f64::INFINITY, f64::NEG_INFINITY, f64::NAN] {
        assert_eq!(value_is_finite(value.to_bits()), value.is_finite());
        assert_eq!(value_is_positive(value.to_bits()), value > 0.0);
    }
}

#[test]
fn negative_values_are_clean_but_not_positive() {
    let mut record = raw_record();
    record.value_bits = (-1.0f64).to_bits();
    record.tag = " Beta ".to_string();

    match transform_record(record).unwrap() {
        TransformResult::Clean(clean) => {
            assert_eq!(clean.tag, "beta");
            assert!(!clean.positive);
        }
        other => panic!("unexpected {:?}", other),
    }
}

#[test]
fn normalizes_tags_by_trimming_and_lowercasing() {
    assert_eq!(normalize_tag("  MiXeD Case \n"), "mixed case");
    assert_eq!(normalize_tag("\u{2003}Ärger\u{00A0}"), "ärger");
    assert_eq!(normalize_tag("inner  space"), "inner  space");
    assert_eq!(normalize_tag(""), "");
}

#[test]
fn resolve_transform_uses_the_given_tag_and_timestamp() {
    let record = raw_record();
    assert_eq!(
        resolve_transform(record, "given".to_string(), Some(7)),
        Ok(TransformResult::Clean(CleanRecord {
            id: "event-1".to_string(),
            timestamp: 7,
            value_bits: 42.5f64.to_bits(),
            tag: "given".to_string(),
            positive: true,
        }))
    );
    assert_eq!(
        resolve_transform(raw_record(), "given".to_string(), None),
        Err(TransformError::InvalidTimestamp { id: "event-1".to_string() })
    );
    assert_eq!(
        resolve_transform(raw_record(), String::new(), None),
        Ok(TransformResult::FilteredEmptyTag)
    );
}

#[test]
fn blank_tags_are_filtered_whatever_their_whitespace() {
    for tag in ["", " ", "\u{2028}\t", "\u{85}\u{A0}\u{3000}"] {
        let mut record = raw_record();
        record.tag = tag.to_string();
        assert_eq!(transform_record(record).unwrap(), TransformResult::FilteredEmptyTag);
    }
}
