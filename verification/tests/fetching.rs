// Timestamp extraction from status bodies: error taxonomy and success cases.

use health_check::fetch::{extract_timestamp, FetchError, Timestamp};

#[test]
fn non_json_body_is_parse_error() {
    assert_eq!(extract_timestamp("not json"), Err(FetchError::ParseError));
    assert_eq!(extract_timestamp(""), Err(FetchError::ParseError));
    assert_eq!(extract_timestamp("{\"timestamp\": 5"), Err(FetchError::ParseError));
}

#[test]
fn missing_timestamp_field_is_schema_error() {
    assert_eq!(extract_timestamp("{\"foo\": 1}"), Err(FetchError::SchemaError));
    assert_eq!(extract_timestamp("{}"), Err(FetchError::SchemaError));
    assert_eq!(extract_timestamp("[1, 2, 3]"), Err(FetchError::SchemaError));
    assert_eq!(extract_timestamp("null"), Err(FetchError::SchemaError));
}

#[test]
fn non_integer_timestamp_is_schema_error() {
    assert_eq!(extract_timestamp("{\"timestamp\": \"soon\"}"), Err(FetchError::SchemaError));
    assert_eq!(extract_timestamp("{\"timestamp\": 1.5}"), Err(FetchError::SchemaError));
    assert_eq!(extract_timestamp("{\"timestamp\": null}"), Err(FetchError::SchemaError));
    // Too large for a 64-bit signed integer.
    assert_eq!(
        extract_timestamp("{\"timestamp\": 99999999999999999999}"),
        Err(FetchError::SchemaError)
    );
}

#[test]
fn out_of_range_instant_is_schema_error() {
    // Representable as an i64 but not as a point in time.
    let body = format!("{{\"timestamp\": {}}}", i64::MAX);
    assert_eq!(extract_timestamp(&body), Err(FetchError::SchemaError));
    let body = format!("{{\"timestamp\": {}}}", i64::MIN);
    assert_eq!(extract_timestamp(&body), Err(FetchError::SchemaError));
}

#[test]
fn valid_body_yields_timestamp() {
    let body = "{\"timestamp\": 1700000000000, \"other\": \"x\"}";
    assert_eq!(extract_timestamp(body), Ok(Timestamp { millis: 1_700_000_000_000 }));
    assert_eq!(extract_timestamp("{\"timestamp\": 0}"), Ok(Timestamp { millis: 0 }));
    assert_eq!(extract_timestamp("{\"timestamp\": -1000}"), Ok(Timestamp { millis: -1000 }));
}
