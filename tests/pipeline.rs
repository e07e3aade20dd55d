use std::io::Read;

use status_relay::{
    build_response, compress_message, encode_event, finish_batch, get_queue_name,
    message_properties, plan_batch, prepare_delivery, queue_bindings, serialize_event,
    validate_batch, BatchOutcome, Config, ConnectionManager, Delivery, ErrorData,
    PublishError, StatusEvent, TrackData,
};

fn event(state: &str, updated_at: &str, tx_id: &str) -> StatusEvent {
    StatusEvent {
        state: state.to_string(),
        error: None,
        track_data: None,
        updated_at: updated_at.to_string(),
        tx_id: tx_id.to_string(),
        email: None,
        channel_id: None,
        channel: None,
    }
}

fn system_event(tx_id: &str, is_system: bool) -> StatusEvent {
    let mut e = event("ok", "t", tx_id);
    e.track_data = Some(TrackData { priority: None, is_system });
    e
}

fn gunzip(bytes: &[u8]) -> String {
    let mut decoder = flate2::read::GzDecoder::new(bytes);
    let mut out = String::new();
    decoder.read_to_string(&mut out).unwrap();
    out
}

fn publish_all_ok(deliveries: &Vec<Delivery>) -> Vec<Result<(), PublishError>> {
    deliveries.iter().map(|_| Ok(())).collect()
}

#[test]
fn validate_accepts_complete_event() {
    assert!(event("ok", "t", "a").validate().is_ok());
}

#[test]
fn validate_reports_state_first() {
    assert_eq!(event("", "", "").validate(), Err("field 'state' is required".to_string()));
}

#[test]
fn validate_reports_updated_at() {
    assert_eq!(event("ok", "", "").validate(), Err("field 'updatedAt' is required".to_string()));
}

#[test]
fn validate_reports_tx_id() {
    assert_eq!(event("ok", "t", "").validate(), Err("field 'txId' is required".to_string()));
}

#[test]
fn system_flag_needs_track_data() {
    assert!(!event("ok", "t", "a").is_system_event());
    assert!(!system_event("a", false).is_system_event());
    assert!(system_event("a", true).is_system_event());
}

#[test]
fn queue_names_by_flag() {
    assert_eq!(get_queue_name(false), "rust-axum");
    assert_eq!(get_queue_name(true), "system-rust-axum");
}

#[test]
fn routing_ignores_other_fields() {
    let mut a = system_event("a", true);
    a.email = Some("x@y".to_string());
    a.track_data = Some(TrackData { priority: Some(9), is_system: true });
    let b = system_event("b", true);
    assert_eq!(prepare_delivery(&a).routing_key, "system-rust-axum");
    assert_eq!(prepare_delivery(&b).routing_key, "system-rust-axum");
    assert_eq!(prepare_delivery(&system_event("c", false)).routing_key, "rust-axum");
    assert_eq!(prepare_delivery(&event("ok", "t", "d")).routing_key, "rust-axum");
}

#[test]
fn serialize_minimal_event() {
    let json = serialize_event(&event("ok", "t", "a"));
    assert_eq!(json, r#"{"state":"ok","updatedAt":"t","txId":"a"}"#);
}

#[test]
fn serialize_full_event_keeps_field_order() {
    let e = StatusEvent {
        state: "done".to_string(),
        error: Some(ErrorData { code: Some("E1".to_string()), message: Some("boom".to_string()) }),
        track_data: Some(TrackData { priority: Some(-42), is_system: true }),
        updated_at: "2024-01-01".to_string(),
        tx_id: "tx".to_string(),
        email: Some("a@b.c".to_string()),
        channel_id: Some("c1".to_string()),
        channel: Some("sms".to_string()),
    };
    let json = serialize_event(&e);
    assert_eq!(
        json,
        r#"{"state":"done","error":{"code":"E1","message":"boom"},"trackData":{"priority":-42,"is_system":true},"updatedAt":"2024-01-01","txId":"tx","email":"a@b.c","channel_id":"c1","channel":"sms"}"#
    );
}

#[test]
fn serialize_partial_optional_objects() {
    let mut e = event("s", "u", "x");
    e.error = Some(ErrorData { code: None, message: Some("m".to_string()) });
    e.track_data = Some(TrackData { priority: None, is_system: false });
    assert_eq!(
        serialize_event(&e),
        r#"{"state":"s","error":{"message":"m"},"trackData":{"is_system":false},"updatedAt":"u","txId":"x"}"#
    );
    e.error = Some(ErrorData { code: None, message: None });
    e.track_data = Some(TrackData { priority: Some(2147483647), is_system: false });
    assert_eq!(
        serialize_event(&e),
        r#"{"state":"s","error":{},"trackData":{"priority":2147483647,"is_system":false},"updatedAt":"u","txId":"x"}"#
    );
    e.error = Some(ErrorData { code: Some("c".to_string()), message: None });
    e.track_data = Some(TrackData { priority: Some(-2147483648), is_system: true });
    assert_eq!(
        serialize_event(&e),
        r#"{"state":"s","error":{"code":"c"},"trackData":{"priority":-2147483648,"is_system":true},"updatedAt":"u","txId":"x"}"#
    );
}

#[test]
fn serialize_escapes_strings() {
    let json = serialize_event(&event("say \"hi\"\n", "t\\", "a"));
    assert_eq!(json, r#"{"state":"say \"hi\"\n","updatedAt":"t\\","txId":"a"}"#);
}

#[test]
fn compressed_payload_round_trips() {
    let e = system_event("rt", true);
    let payload = encode_event(&e);
    assert_ne!(payload, serialize_event(&e).into_bytes());
    assert_eq!(payload[0], 0x1f);
    assert_eq!(payload[1], 0x8b);
    assert_eq!(gunzip(&payload), serialize_event(&e));
}

#[test]
fn compression_is_deterministic() {
    let a = compress_message("hello hello hello").unwrap();
    let b = compress_message("hello hello hello").unwrap();
    assert_eq!(a, b);
    assert_eq!(gunzip(&a), "hello hello hello");
}

#[test]
fn empty_batch_is_rejected() {
    let events: Vec<StatusEvent> = Vec::new();
    assert!(matches!(plan_batch(&events), Err(BatchOutcome::EmptyBatch)));
    assert!(matches!(validate_batch(&events), Err(BatchOutcome::EmptyBatch)));
    let r = build_response(&BatchOutcome::EmptyBatch);
    assert_eq!(r.status, 400);
    assert_eq!(r.body, r#"{"error":"Request body must contain at least one event"}"#);
}

#[test]
fn empty_state_fails_validation() {
    let events = vec![event("", "t", "a")];
    match plan_batch(&events) {
        Err(BatchOutcome::ValidationFailed { index, reason }) => {
            assert_eq!(index, 0);
            assert_eq!(reason, "field 'state' is required");
        }
        _ => panic!("expected a validation failure"),
    }
}

#[test]
fn one_invalid_event_rejects_whole_batch() {
    let events = vec![event("ok", "t", "a"), event("ok", "t", "b"), event("ok", "", "c"), event("", "t", "d")];
    let outcome = match plan_batch(&events) {
        Err(o) => o,
        Ok(_) => panic!("no delivery may be prepared"),
    };
    match &outcome {
        BatchOutcome::ValidationFailed { index, reason } => {
            assert_eq!(*index, 2);
            assert_eq!(reason, "field 'updatedAt' is required");
        }
        _ => panic!("expected a validation failure"),
    }
    let r = build_response(&outcome);
    assert_eq!(r.status, 400);
    assert_eq!(r.body, r#"{"error":"Validation failed: field 'updatedAt' is required"}"#);
}

#[test]
fn single_valid_event_succeeds() {
    let events = vec![event("ok", "t", "a")];
    let deliveries = plan_batch(&events).unwrap();
    assert_eq!(deliveries.len(), 1);
    assert_eq!(deliveries[0].tx_id, "a");
    let outcome = finish_batch(&deliveries, &publish_all_ok(&deliveries));
    assert!(matches!(outcome, BatchOutcome::FullSuccess { processed: 1 }));
    let r = build_response(&outcome);
    assert_eq!(r.status, 200);
    assert_eq!(r.body, r#"{"status":"SUCCESS","processed":1}"#);
}

#[test]
fn all_published_is_full_success() {
    let events: Vec<StatusEvent> = (0..12).map(|i| system_event(&format!("t{}", i), i % 3 == 0)).collect();
    let deliveries = plan_batch(&events).unwrap();
    let outcome = finish_batch(&deliveries, &publish_all_ok(&deliveries));
    assert!(matches!(outcome, BatchOutcome::FullSuccess { processed: 12 }));
    assert_eq!(build_response(&outcome).body, r#"{"status":"SUCCESS","processed":12}"#);
}

#[test]
fn second_publish_failing_is_partial() {
    let events = vec![event("ok", "t", "a"), event("ok", "t", "b")];
    let deliveries = plan_batch(&events).unwrap();
    let results = vec![Ok(()), Err(PublishError::Transport("connection reset".to_string()))];
    let outcome = finish_batch(&deliveries, &results);
    match &outcome {
        BatchOutcome::PartialFailure { processed, errors } => {
            assert_eq!(*processed, 1);
            assert_eq!(errors.len(), 1);
            assert_eq!(errors[0].event, "b");
            assert_eq!(errors[0].error, "connection reset");
        }
        _ => panic!("expected a partial failure"),
    }
    let r = build_response(&outcome);
    assert_eq!(r.status, 400);
    assert_eq!(
        r.body,
        r#"{"status":"PARTIAL_SUCCESS","processed":1,"errors":[{"event":"b","error":"connection reset"}]}"#
    );
}

#[test]
fn publish_before_init_fails_every_event() {
    let manager: ConnectionManager<u32> = ConnectionManager::new();
    let events = vec![event("ok", "t", "a"), event("ok", "t", "b"), event("ok", "t", "c")];
    let deliveries = plan_batch(&events).unwrap();
    let results: Vec<Result<(), PublishError>> =
        deliveries.iter().map(|_| manager.channel().map(|_| ())).collect();
    let outcome = finish_batch(&deliveries, &results);
    match &outcome {
        BatchOutcome::PartialFailure { processed, errors } => {
            assert_eq!(*processed, 0);
            let ids: Vec<&str> = errors.iter().map(|e| e.event.as_str()).collect();
            assert_eq!(ids, vec!["a", "b", "c"]);
            assert!(errors.iter().all(|e| e.error == "Channel not initialized"));
        }
        _ => panic!("expected a partial failure"),
    }
    assert_eq!(
        build_response(&outcome).body,
        r#"{"status":"PARTIAL_SUCCESS","processed":0,"errors":[{"event":"a","error":"Channel not initialized"},{"event":"b","error":"Channel not initialized"},{"event":"c","error":"Channel not initialized"}]}"#
    );
}

#[test]
fn publish_failures_are_recorded_in_order_and_counts_balance() {
    let events = vec![event("ok", "t", "a"), event("ok", "t", "b"), event("ok", "t", "c")];
    let deliveries = plan_batch(&events).unwrap();
    let results = vec![
        Err(PublishError::Transport("stream broke".to_string())),
        Ok(()),
        Err(PublishError::NotInitialized),
    ];
    match finish_batch(&deliveries, &results) {
        BatchOutcome::PartialFailure { processed, errors } => {
            assert_eq!(processed + errors.len(), 3);
            assert_eq!(processed, 1);
            assert_eq!(errors[0].event, "a");
            assert_eq!(errors[0].error, "stream broke");
            assert_eq!(errors[1].event, "c");
            assert_eq!(errors[1].error, "Channel not initialized");
        }
        _ => panic!("expected a partial failure"),
    }
}

#[test]
fn control_characters_use_unicode_escapes() {
    let json = serialize_event(&event("a\u{1}b\u{1f}\u{8}\u{c}\r\t", "/", "\u{e9}"));
    assert_eq!(json, "{\"state\":\"a\\u0001b\\u001f\\b\\f\\r\\t\",\"updatedAt\":\"/\",\"txId\":\"\u{e9}\"}");
}

#[test]
fn response_escapes_reasons() {
    let outcome = BatchOutcome::PartialFailure {
        processed: 0,
        errors: vec![status_relay::EventError { event: "q\"1".to_string(), error: "bad\tthing".to_string() }],
    };
    assert_eq!(
        build_response(&outcome).body,
        r#"{"status":"PARTIAL_SUCCESS","processed":0,"errors":[{"event":"q\"1","error":"bad\tthing"}]}"#
    );
}

#[test]
fn connection_lifecycle() {
    let mut m: ConnectionManager<String> = ConnectionManager::new();
    assert!(!m.is_connected());
    assert!(matches!(m.channel(), Err(PublishError::NotInitialized)));
    assert!(m.begin_close().is_none());
    m.init("chan".to_string());
    assert!(m.is_connected());
    assert_eq!(m.channel().unwrap(), "chan");
    assert_eq!(m.begin_close(), Some("chan".to_string()));
    assert!(!m.is_connected());
    assert!(m.begin_close().is_none());
    assert!(matches!(m.channel(), Err(PublishError::NotInitialized)));
}

#[test]
fn publish_error_messages() {
    assert_eq!(PublishError::NotInitialized.message(), "Channel not initialized");
    assert_eq!(PublishError::Transport("x".to_string()).message(), "x");
}

#[test]
fn topology_binds_each_queue_by_its_name() {
    let b = queue_bindings();
    assert_eq!(b.len(), 2);
    assert_eq!(b[0].queue, "rust-axum");
    assert_eq!(b[1].queue, "system-rust-axum");
    for q in b.iter() {
        assert_eq!(q.routing_key, q.queue);
        assert_eq!(q.exchange, "rust-axum");
    }
    let p = message_properties();
    assert_eq!(p.content_type, "application/json");
    assert_eq!(p.content_encoding, "gzip");
    assert_eq!(p.delivery_mode, 2);
}

#[test]
fn config_requires_broker_url() {
    let c = Config::from_values(None, Some("amqp://h".to_string())).unwrap();
    assert_eq!(c.socket_path, "/tmp/rust_axum/app.sock");
    assert_eq!(c.rabbitmq_url, "amqp://h");
    let c = Config::from_values(Some("/run/s.sock".to_string()), Some("amqp://h".to_string())).unwrap();
    assert_eq!(c.socket_path, "/run/s.sock");
    assert_eq!(
        Config::from_values(Some("/run/s.sock".to_string()), None).unwrap_err(),
        "DSN__RABBITMQ environment variable is required"
    );
}
