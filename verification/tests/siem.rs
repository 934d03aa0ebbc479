use mipsorcu::siem::buffer::{
    compact_records, compaction_temp_name, is_rotated_buffer_file, latest_states, next_rotated_buffer_name,
    next_rotated_sequence, parse_u32, pending_batch, pending_record, sent_record, total_size_bytes, utc_yyyymmdd,
    CapacityStep, DeliveryStatus, LocalSiemFallbackBuffer, LocalSiemFallbackRecord,
};
use mipsorcu::siem::dummy::{FailingSiemSink, InMemorySiemSink};
use mipsorcu::siem::event::{SiemEvent, SiemEventParts};
use mipsorcu::siem::otlp::{
    otlp_event_attributes, otlp_http_failure_code, otlp_scope_name, otlp_severity_text,
    source_event_at_to_unix_nano, splunk_http_failure_code, OtlpAttributeValue,
};
use mipsorcu::siem::forwarder::{sink_error_code, RetryDecision, SiemForwarderStatus, SiemRetryPolicy};
use mipsorcu::siem::sink::{validate_batch_size, SiemExporterKind, SiemSinkError, SIEM_MAX_BATCH_SIZE};

fn event(id: &str) -> SiemEvent {
    SiemEvent::new(SiemEventParts {
        event_id: id.to_owned(),
        event_type: "secret.read".to_owned(),
        result: "success".to_owned(),
        request_id: "req-1".to_owned(),
        actor_user_id: None,
        actor_device_id: None,
        target_secret_id: None,
        key_version: Some(1),
        source_event_at: "2026-01-01T00:00:00Z".to_owned(),
        metadata: "{}".to_owned(),
    })
}

fn ids(events: &[SiemEvent]) -> Vec<String> {
    events.iter().map(|e| e.event_id().to_owned()).collect()
}

fn history() -> Vec<LocalSiemFallbackRecord> {
    vec![
        pending_record(&event("a")),
        pending_record(&event("b")),
        sent_record(&event("a")),
        pending_record(&event("c")),
        pending_record(&event("a")),
        sent_record(&event("b")),
    ]
}

#[test]
fn latest_record_of_each_event_wins() {
    let states = latest_states(&history());
    let summary: Vec<(String, DeliveryStatus)> =
        states.iter().map(|s| (s.event_id.clone(), s.status)).collect();
    assert_eq!(
        summary,
        vec![
            ("a".to_owned(), DeliveryStatus::Pending),
            ("b".to_owned(), DeliveryStatus::Sent),
            ("c".to_owned(), DeliveryStatus::Pending),
        ]
    );
}

#[test]
fn pending_batch_respects_limit_and_order() {
    let records = history();
    assert_eq!(ids(&pending_batch(&records, 10)), vec!["a".to_owned(), "c".to_owned()]);
    assert_eq!(ids(&pending_batch(&records, 1)), vec!["a".to_owned()]);
    assert!(pending_batch(&records, 0).is_empty());
}

#[test]
fn sent_event_is_not_pending() {
    let records = vec![pending_record(&event("x")), sent_record(&event("x"))];
    assert!(pending_batch(&records, 5).is_empty());
}

#[test]
fn compaction_keeps_exactly_the_pending_events() {
    let records = history();
    let compacted = compact_records(&records);
    let summary: Vec<(String, DeliveryStatus)> =
        compacted.iter().map(|r| (r.event_id.clone(), r.status)).collect();
    assert_eq!(
        summary,
        vec![("a".to_owned(), DeliveryStatus::Pending), ("c".to_owned(), DeliveryStatus::Pending)]
    );
    assert_eq!(ids(&pending_batch(&compacted, 10)), ids(&pending_batch(&records, 10)));
}

#[test]
fn buffer_capacity_steps() {
    let buffer = LocalSiemFallbackBuffer::with_limits("/tmp/siem.jsonl".to_owned(), 10, 100);
    assert_eq!(buffer.remaining_bytes(30), 70);
    assert_eq!(buffer.remaining_bytes(130), 0);
    assert!(buffer.has_capacity_unlocked(60, 40));
    assert!(!buffer.has_capacity_unlocked(60, 41));
    assert!(!buffer.has_capacity_unlocked(u64::MAX, 1));
    assert_eq!(buffer.ensure_capacity_unlocked(60, 40, false), CapacityStep::Proceed);
    assert_eq!(buffer.ensure_capacity_unlocked(60, 41, false), CapacityStep::CompactThenRecheck);
    assert_eq!(
        buffer.ensure_capacity_unlocked(60, 41, true),
        CapacityStep::Exceeded { total_size_bytes: 60, total_max_bytes: 100 }
    );
    assert!(buffer.rotate_needed(Some(10)));
    assert!(!buffer.rotate_needed(Some(9)));
    assert!(!buffer.rotate_needed(None));
    let defaults = LocalSiemFallbackBuffer::with_config("p".to_owned(), 5);
    assert_eq!(defaults.max_bytes(), 5);
    assert_eq!(defaults.total_max_bytes(), 5);
    assert_eq!(defaults.path(), "p");
}

#[test]
fn buffer_file_names() {
    assert!(is_rotated_buffer_file(Some("siem-buffer-20260101-0001.jsonl")));
    assert!(!is_rotated_buffer_file(Some("siem-buffer-current.jsonl")));
    assert!(!is_rotated_buffer_file(Some("other.jsonl")));
    assert!(!is_rotated_buffer_file(None));
    assert_eq!(compaction_temp_name(Some("buf.jsonl")), "buf.jsonl.compact.tmp");
    assert_eq!(compaction_temp_name(None), "siem-buffer-current.jsonl.compact.tmp");
    assert_eq!(utc_yyyymmdd(2026, 3, 7), "20260307");
    assert_eq!(next_rotated_buffer_name("20260307", 12), "siem-buffer-20260307-0012.jsonl");
    assert_eq!(next_rotated_buffer_name("20260307", 123456), "siem-buffer-20260307-123456.jsonl");
}

#[test]
fn rotated_sequence_follows_the_largest_of_the_day() {
    let names = vec![
        "siem-buffer-20260307-0003.jsonl".to_owned(),
        "siem-buffer-20260307-0011.jsonl".to_owned(),
        "siem-buffer-20260306-0042.jsonl".to_owned(),
        "siem-buffer-20260307-xx.jsonl".to_owned(),
        "siem-buffer-current.jsonl".to_owned(),
    ];
    assert_eq!(next_rotated_sequence(&names, "20260307"), 12);
    assert_eq!(next_rotated_sequence(&[], "20260307"), 1);
    let full = vec![format!("siem-buffer-20260307-{}.jsonl", u32::MAX)];
    assert_eq!(next_rotated_sequence(&full, "20260307"), u32::MAX);
}

#[test]
fn parse_u32_matches_std() {
    for text in ["0", "+7", "0042", "4294967295", "4294967296", "", "+", "-1", "1a", " 1"] {
        assert_eq!(parse_u32(text), text.parse::<u32>().ok(), "input {text:?}");
    }
}

#[test]
fn total_size_sums_or_overflows() {
    assert_eq!(total_size_bytes(&[1, 2, 3]), Some(6));
    assert_eq!(total_size_bytes(&[]), Some(0));
    assert_eq!(total_size_bytes(&[u64::MAX, 1]), None);
}

#[test]
fn retry_policy_doubles_and_gives_up() {
    let policy = SiemRetryPolicy::for_test(3, 100, 250);
    assert_eq!(
        policy.after_failed_attempt(1, 100),
        RetryDecision::Retry { pause_ms: 100, next_attempt: 2, next_delay_ms: 200 }
    );
    assert_eq!(
        policy.after_failed_attempt(2, 200),
        RetryDecision::Retry { pause_ms: 200, next_attempt: 3, next_delay_ms: 250 }
    );
    assert_eq!(policy.after_failed_attempt(3, 250), RetryDecision::GiveUp);
    assert_eq!(SiemRetryPolicy::no_retry().after_failed_attempt(1, 0), RetryDecision::GiveUp);
    let zero = SiemRetryPolicy::for_test(0, 1, 1);
    assert_eq!(zero.after_failed_attempt(1, 1), RetryDecision::GiveUp);
    let saturating = SiemRetryPolicy::for_test(5, 0, u64::MAX);
    assert_eq!(
        saturating.after_failed_attempt(1, u64::MAX),
        RetryDecision::Retry { pause_ms: u64::MAX, next_attempt: 2, next_delay_ms: u64::MAX }
    );
}

#[test]
fn forwarder_status_tracks_first_failure() {
    let mut status = SiemForwarderStatus::new();
    assert_eq!(status.failure_since(), None);
    status.record_failure(1_000);
    status.record_failure(5_000);
    assert_eq!(status.failure_since(), Some(1_000));
    assert!(status.is_long_failure(3_001, 2_000));
    assert!(!status.is_long_failure(3_000, 2_000));
    assert!(!status.is_long_failure(3_000, u128::MAX));
    status.clear();
    assert_eq!(status.failure_since(), None);
    assert!(!status.is_long_failure(10_000, 0));
}

#[test]
fn sinks_receive_or_fail() {
    let mut sink = InMemorySiemSink::new();
    let receipt = sink.send_batch(&[event("a"), event("b")]).ok().unwrap();
    assert_eq!(receipt.batch_size(), 2);
    assert_eq!(receipt.exporter_kind(), SiemExporterKind::InMemory);
    assert_eq!(ids(&sink.events()), vec!["a".to_owned(), "b".to_owned()]);
    let too_many: Vec<SiemEvent> = (0..=SIEM_MAX_BATCH_SIZE).map(|i| event(&i.to_string())).collect();
    assert!(sink.send_batch(&too_many).is_err());
    assert_eq!(sink.event_count(), 2);

    let failing = FailingSiemSink::new("siem_down".to_owned());
    match failing.send_batch(&[event("a")]) {
        Err(error) => {
            assert_eq!(error.to_display_string(), "siem backend failed: siem_down");
            assert_eq!(sink_error_code(&error), "siem_down");
        }
        Ok(_) => panic!("failing sink accepted a batch"),
    }
}

#[test]
fn sink_error_codes_and_batch_limit() {
    let other = SiemSinkError::BackendFailed { code: "timeout".to_owned() };
    assert_eq!(sink_error_code(&other), "siem_backend_failed");
    let invalid = SiemSinkError::InvalidResponse { reason: "bad" };
    assert_eq!(sink_error_code(&invalid), "siem_invalid_response");
    assert_eq!(invalid.to_display_string(), "siem invalid response: bad");
    assert!(validate_batch_size(SIEM_MAX_BATCH_SIZE).is_ok());
    match validate_batch_size(SIEM_MAX_BATCH_SIZE + 1) {
        Err(SiemSinkError::InvalidResponse { reason }) => assert_eq!(reason, "siem_batch_size_exceeded"),
        _ => panic!("oversized batch accepted"),
    }
    assert_eq!(SiemExporterKind::SplunkHec.as_str(), "splunk_hec");
}

#[test]
fn otlp_records_follow_the_event() {
    assert_eq!(otlp_severity_text("success"), "INFO");
    assert_eq!(otlp_severity_text("failure"), "ERROR");
    assert_eq!(otlp_scope_name(), "mipsorcu.audit");

    let plain = event("a");
    let keys: Vec<&str> = otlp_event_attributes(&plain).iter().map(|a| a.key).collect();
    assert_eq!(
        keys,
        vec!["event.id", "event.type", "event.result", "event.request_id", "event.source_event_at", "event.key_version"]
    );
    let attributes = otlp_event_attributes(&plain);
    assert!(matches!(&attributes[0].value, OtlpAttributeValue::StringValue(id) if id == "a"));
    assert!(matches!(attributes[5].value, OtlpAttributeValue::IntValue(1)));

    let full = SiemEvent::new(SiemEventParts {
        event_id: "b".to_owned(),
        event_type: "secret.read".to_owned(),
        result: "failure".to_owned(),
        request_id: "req-2".to_owned(),
        actor_user_id: Some("user".to_owned()),
        actor_device_id: None,
        target_secret_id: Some("secret".to_owned()),
        key_version: None,
        source_event_at: "2026-01-01T00:00:00Z".to_owned(),
        metadata: "{}".to_owned(),
    });
    let keys: Vec<&str> = otlp_event_attributes(&full).iter().map(|a| a.key).collect();
    assert_eq!(
        keys,
        vec![
            "event.id",
            "event.type",
            "event.result",
            "event.request_id",
            "event.source_event_at",
            "event.actor_user_id",
            "event.target_secret_id",
        ]
    );

    assert_eq!(source_event_at_to_unix_nano("2026-01-01T00:00:00Z"), "1767225600000000000");
    assert_eq!(source_event_at_to_unix_nano("2026-01-01T00:00:00.5Z"), "1767225600500000000");
    assert_eq!(source_event_at_to_unix_nano("1969-12-31T23:59:59Z"), "-1000000000");
    assert_eq!(source_event_at_to_unix_nano("not a time"), "0");
    assert_eq!(otlp_http_failure_code(503), "siem_otlp_http_503");
    assert_eq!(splunk_http_failure_code(401), "siem_splunk_http_401");
}
