use chrono::Timelike;
use logtint::decode::{decode_line, process_line};
use logtint::record::{DecodeError, LogLevel, level_from_token};

/// The local wall-clock reading chrono gives for an RFC 3339 timestamp.
fn expected_local_hms(ts: &str) -> (u8, u8, u8) {
    let local = chrono::DateTime::parse_from_rfc3339(ts)
        .unwrap()
        .with_timezone(&chrono::Local);
    (local.hour() as u8, local.minute() as u8, local.second() as u8)
}

#[test]
fn decodes_well_formed_line() {
    let line = r#"{"time": "2024-01-01T10:30:00+00:00", "level": "INFO", "message": "started", "extra": {"pid": 1234}}"#;
    let rec = decode_line(line).expect("well-formed line must decode");
    assert_eq!(rec.level, LogLevel::Info);
    assert_eq!(rec.message, "started");
    assert_eq!(rec.extra_text, r#"{"pid":1234}"#);
    let (h, m, s) = expected_local_hms("2024-01-01T10:30:00+00:00");
    assert_eq!(rec.time.hour, h);
    assert_eq!(rec.time.minute, m);
    assert_eq!(rec.time.second, s);
    assert!(rec.time.hour < 24 && rec.time.minute < 60 && rec.time.second < 60);
}

#[test]
fn round_trip_extra_value() {
    let line = r#"{"time":"2024-01-01T10:30:00+00:00","level":"INFO","message":"m","extra":{"a":[1,2,{"b":null}],"c":"x"}}"#;
    let rec = decode_line(line).expect("well-formed line must decode");
    let reparsed: serde_json::Value = serde_json::from_str(&rec.extra_text).unwrap();
    let whole_line: serde_json::Value = serde_json::from_str(line).unwrap();
    assert_eq!(reparsed, whole_line["extra"]);
    assert_eq!(serde_json::to_string(&reparsed).unwrap(), rec.extra_text);
}

#[test]
fn recognizes_the_four_level_tokens() {
    assert_eq!(level_from_token("DEBUG"), Some(LogLevel::Debug));
    assert_eq!(level_from_token("INFO"), Some(LogLevel::Info));
    assert_eq!(level_from_token("WARNING"), Some(LogLevel::Warning));
    assert_eq!(level_from_token("ERROR"), Some(LogLevel::Error));
    assert_eq!(level_from_token("CRITICAL"), None);
    assert_eq!(level_from_token("info"), None);
    assert_eq!(level_from_token(""), None);
}

#[test]
fn malformed_json_is_classified() {
    assert_eq!(decode_line(r#"{"time":"#).unwrap_err(), DecodeError::MalformedJson);
    assert_eq!(decode_line("").unwrap_err(), DecodeError::MalformedJson);
    assert!(process_line(r#"{"time":"#).is_err());
}

#[test]
fn missing_message_is_a_schema_mismatch() {
    let line = r#"{"time":"2024-01-01T10:30:00+00:00","level":"INFO","extra":null}"#;
    assert_eq!(decode_line(line).unwrap_err(), DecodeError::SchemaMismatch);
}

#[test]
fn unrecognized_level_is_a_schema_mismatch() {
    let line = r#"{"time":"2024-01-01T10:30:00+00:00","level":"CRITICAL","message":"m","extra":null}"#;
    assert_eq!(decode_line(line).unwrap_err(), DecodeError::SchemaMismatch);
}

#[test]
fn missing_extra_is_a_schema_mismatch() {
    let line = r#"{"time":"2024-01-01T10:30:00+00:00","level":"INFO","message":"m"}"#;
    assert_eq!(decode_line(line).unwrap_err(), DecodeError::SchemaMismatch);
}

#[test]
fn unparseable_time_is_a_schema_mismatch() {
    let line = r#"{"time":"yesterday","level":"INFO","message":"m","extra":null}"#;
    assert_eq!(decode_line(line).unwrap_err(), DecodeError::SchemaMismatch);
}

#[test]
fn mistyped_message_is_a_schema_mismatch() {
    let line = r#"{"time":"2024-01-01T10:30:00+00:00","level":"INFO","message":7,"extra":null}"#;
    assert_eq!(decode_line(line).unwrap_err(), DecodeError::SchemaMismatch);
}

#[test]
fn null_extra_keeps_its_literal_text() {
    let line = r#"{"time":"2024-01-01T10:30:00+00:00","level":"DEBUG","message":"m","extra":null}"#;
    let rec = decode_line(line).expect("well-formed line must decode");
    assert_eq!(rec.extra_text, "null");
}

#[test]
fn round_trip_full_precision_float_extra() {
    let line = r#"{"time":"2024-01-01T10:30:00+00:00","level":"INFO","message":"m","extra":1.2345678901234567e-300}"#;
    let rec = decode_line(line).expect("well-formed line must decode");
    let reparsed: serde_json::Value = serde_json::from_str(&rec.extra_text).unwrap();
    assert_eq!(serde_json::to_string(&reparsed).unwrap(), rec.extra_text);
}
