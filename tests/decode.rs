use janus_sqlite_events::{decode, decode_fields, DecodeError, RawEvent, Timestamp, MAX_UTC_SECS};

fn raw(text: &str) -> RawEvent {
    RawEvent { json: Some(text.to_string()) }
}

fn rendered(t: &Timestamp) -> String {
    chrono::DateTime::from_timestamp(t.secs, t.nanos)
        .unwrap()
        .format("%Y-%m-%dT%H:%M:%S%.6fZ")
        .to_string()
}

#[test]
fn sample_event_decodes() {
    let e = decode(raw(r#"{"type": 16, "timestamp": 1500000000000000, "event": {"foo": "bar"}}"#)).unwrap();
    assert_eq!(e.kind, 16);
    assert_eq!(e.timestamp, Timestamp { secs: 1_500_000_000, nanos: 0 });
    assert_eq!(rendered(&e.timestamp), "2017-07-14T02:40:00.000000Z");
    assert_eq!(e.event, r#"{"foo":"bar"}"#);
}

#[test]
fn missing_payload_is_rejected() {
    assert!(matches!(decode(RawEvent { json: None }), Err(DecodeError::MissingPayload)));
}

#[test]
fn malformed_payloads_are_rejected() {
    for text in [
        "not json",
        r#"{"timestamp": 1, "event": {}}"#,
        r#"{"type": 1, "event": {}}"#,
        r#"{"type": 1, "timestamp": 1}"#,
        r#"{"type": "x", "timestamp": 1, "event": {}}"#,
        r#"{"type": 4294967296, "timestamp": 1, "event": {}}"#,
        r#"{"type": 1, "timestamp": -5, "event": {}}"#,
        "[1, 2, 3]",
    ] {
        assert!(matches!(decode(raw(text)), Err(DecodeError::MalformedPayload)), "{}", text);
    }
}

#[test]
fn out_of_range_timestamp_is_rejected() {
    let text = format!(r#"{{"type": 1, "timestamp": {}, "event": null}}"#, u64::MAX);
    assert!(matches!(decode(raw(&text)), Err(DecodeError::InvalidTimestamp(v)) if v == u64::MAX));
}

#[test]
fn extra_fields_are_ignored_and_microseconds_kept() {
    let e = decode(raw(r#"{"type": 4294967295, "timestamp": 1500000123456789, "event": [1,"a"], "emitter": "x"}"#))
        .unwrap();
    assert_eq!(e.kind, u32::MAX);
    assert_eq!(e.timestamp, Timestamp { secs: 1_500_000_123, nanos: 456_789_000 });
    assert_eq!(e.timestamp.micros(), 1_500_000_123_456_789);
    assert_eq!(rendered(&e.timestamp), "2017-07-14T02:42:03.456789Z");
    assert_eq!(e.event, r#"[1,"a"]"#);
}

#[test]
fn micros_round_trip() {
    for m in [0u64, 1, 999_999, 1_000_000, 1_500_000_000_000_000, 253_402_300_799_999_999] {
        let t = Timestamp::from_micros(m).unwrap();
        assert_eq!(t.micros(), m);
    }
    assert_eq!(Timestamp::from_micros(u64::MAX), Err(u64::MAX));
}

#[test]
fn fields_decide_the_event() {
    let e = decode_fields(Some(7), Some(2_000_001), Some("{}".to_string())).unwrap();
    assert_eq!(e.kind, 7);
    assert_eq!(e.timestamp, Timestamp { secs: 2, nanos: 1000 });
    assert_eq!(e.event, "{}");
    assert!(matches!(decode_fields(None, Some(1), Some("1".to_string())), Err(DecodeError::MalformedPayload)));
    assert!(matches!(decode_fields(Some(1), None, Some("1".to_string())), Err(DecodeError::MalformedPayload)));
    assert!(matches!(decode_fields(Some(1), Some(1), None), Err(DecodeError::MalformedPayload)));
}

#[test]
fn range_ends_with_chrono_latest_year() {
    let last = (MAX_UTC_SECS as u64 + 1) * 1_000_000 - 1;
    let t = Timestamp::from_micros(last).unwrap();
    assert_eq!(t, Timestamp { secs: MAX_UTC_SECS, nanos: 999_999_000 });
    assert_eq!(t.micros(), last);
    assert_eq!(rendered(&t), "+262142-12-31T23:59:59.999999Z");
    assert_eq!(Timestamp::from_micros(last + 1), Err(last + 1));
}

#[test]
fn out_of_range_fields_give_invalid_timestamp() {
    let past = (MAX_UTC_SECS as u64 + 1) * 1_000_000;
    let r = decode_fields(Some(3), Some(past), Some("null".to_string()));
    assert!(matches!(r, Err(DecodeError::InvalidTimestamp(v)) if v == past));
    let e = decode_fields(Some(3), Some(42), Some("null".to_string())).unwrap();
    assert_eq!(e.timestamp, Timestamp { secs: 0, nanos: 42_000 });
}
