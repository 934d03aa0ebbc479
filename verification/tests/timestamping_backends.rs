use der::Decode;
use mipsorcu::ledger::DigestHash;
use mipsorcu::timestamping::dummy::{FailingTimestampingService, InMemoryTimestampingService};
use mipsorcu::timestamping::rfc3161::{
    ParseOutcome, build_timestamp_request, classify_request_error, http_status_error, make_nonce,
    parse_timestamp_response, verify_token_against_hash,
};
use mipsorcu::timestamping::sender::{
    RetryCursor, RetryDecision, RetryingTimestampingService, TimestampingRetryPolicy, after_failure,
    backoff_delay, decide_next, start_retry,
};
use mipsorcu::timestamping::service::{
    TimestampVerification, TimestampVerificationFailureKind, TimestampingProviderKind,
    TimestampingServiceError, TimestampingToken, TimestampingTokenHash,
};

fn hash(byte: u8) -> DigestHash {
    DigestHash::from_bytes([byte; 32])
}

#[test]
fn token_rejects_empty_and_oversized() {
    match TimestampingToken::new(Vec::new()) {
        Err(TimestampingServiceError::InvalidResponse { reason }) => {
            assert_eq!(reason, "timestamping token must not be empty")
        }
        other => panic!("unexpected {other:?}"),
    }
    match TimestampingToken::new(vec![0u8; 4 * 1024 * 1024 + 1]) {
        Err(TimestampingServiceError::InvalidResponse { reason }) => {
            assert_eq!(reason, "timestamping token exceeds maximum allowed length")
        }
        other => panic!("unexpected {other:?}"),
    }
    let token = TimestampingToken::new(vec![0u8; 4 * 1024 * 1024]).unwrap();
    assert_eq!(token.len(), 4 * 1024 * 1024);
    assert!(!token.is_empty());
}

#[test]
fn token_hash_is_sha3_256_in_lower_hex() {
    let token = TimestampingToken::new(Vec::from(&b"abc"[..])).unwrap();
    let hash = TimestampingTokenHash::from_token(&token);
    assert_eq!(
        hash.to_hex(),
        "3a985da74fe225b2045c172d6bd390bd855f086e3e9d525b46bfe24511431532"
    );
    assert_eq!(hash.as_bytes()[0], 0x3a);
}

#[test]
fn labels_and_display() {
    assert_eq!(TimestampingProviderKind::LocalDummy.as_str(), "local_dummy");
    assert_eq!(TimestampingProviderKind::Rfc3161.as_str(), "rfc3161");
    assert_eq!(TimestampVerificationFailureKind::Malformed.as_str(), "malformed");
    assert_eq!(TimestampVerificationFailureKind::NotGranted.as_str(), "not_granted");
    assert_eq!(TimestampVerificationFailureKind::ImprintMismatch.as_str(), "imprint_mismatch");
    assert_eq!(TimestampVerificationFailureKind::SignatureInvalid.as_str(), "signature_invalid");
    let error = TimestampingServiceError::BackendFailed { code: "x".to_owned() };
    assert_eq!(error.to_display_string(), "timestamping backend failed: x");
    let error = TimestampingServiceError::InvalidResponse { reason: "y" };
    assert_eq!(error.to_display_string(), "timestamping invalid response: y");
}

#[test]
fn dummy_requests_are_idempotent() {
    let mut service = InMemoryTimestampingService::new();
    assert_eq!(service.issued_count(), 0);
    let first = service.request_timestamp(&hash(7)).unwrap();
    let second = service.request_timestamp(&hash(7)).unwrap();
    assert_eq!(first, second);
    assert_eq!(service.issued_count(), 1);
    let mut expected = Vec::from(&b"DUMMY-TST-V1:"[..]);
    expected.extend_from_slice(&[7u8; 32]);
    assert_eq!(first.as_bytes(), expected.as_slice());
    assert_eq!(service.token_for(&hash(7)).unwrap(), first);
    assert!(service.token_for(&hash(8)).is_none());
    service.request_timestamp(&hash(8)).unwrap();
    assert_eq!(service.issued_count(), 2);
}

#[test]
fn dummy_verification_accepts_only_the_dummy_token_of_the_hash() {
    let mut service = InMemoryTimestampingService::new();
    let token = service.request_timestamp(&hash(3)).unwrap();
    match service.verify_timestamp(&token, &hash(3)) {
        TimestampVerification::Valid(meta) => {
            assert_eq!(meta.tsa_serial_hex, "");
            assert_eq!(meta.gen_time, None);
        }
        other => panic!("unexpected {other:?}"),
    }
    let fresh = InMemoryTimestampingService::new();
    assert!(matches!(fresh.verify_timestamp(&token, &hash(3)), TimestampVerification::Valid(_)));
    assert_eq!(
        service.verify_timestamp(&token, &hash(4)),
        TimestampVerification::Invalid { failure_kind: TimestampVerificationFailureKind::ImprintMismatch }
    );
}

#[test]
fn failing_service_reports_its_code() {
    let service = FailingTimestampingService::new("tsa_down");
    match service.request_timestamp(&hash(1)) {
        Err(TimestampingServiceError::BackendFailed { code }) => assert_eq!(code, "tsa_down"),
        other => panic!("unexpected {other:?}"),
    }
}

#[test]
fn backoff_doubles_and_saturates() {
    assert_eq!(backoff_delay(2_000_000_000, 0), 2_000_000_000);
    assert_eq!(backoff_delay(2_000_000_000, 1), 4_000_000_000);
    assert_eq!(backoff_delay(2_000_000_000, 3), 16_000_000_000);
    assert_eq!(backoff_delay(2_000_000_000, 40), u64::MAX);
    assert_eq!(backoff_delay(1, 64), u64::MAX);
    assert_eq!(backoff_delay(0, 64), 0);
    assert_eq!(backoff_delay(u128::from(u64::MAX) + 1, 0), u64::MAX);
}

#[test]
fn default_policy_and_service() {
    let policy = TimestampingRetryPolicy::default();
    assert_eq!(policy.max_attempts_per_url, 3);
    assert_eq!(policy.base_delay_nanos, 2_000_000_000);
    assert_eq!(policy.max_total_nanos, 600_000_000_000);
    let service = RetryingTimestampingService::new(vec![1u8, 2, 3], policy);
    assert_eq!(service.backend_count(), 3);
    assert_eq!(service.backend(2), Some(&3));
    assert_eq!(service.backend(3), None);
}

#[test]
fn retry_state_machine_walks_backends() {
    match start_retry(0) {
        Err(TimestampingServiceError::BackendFailed { code }) => {
            assert_eq!(code, "rfc3161_no_tsa_url_configured")
        }
        other => panic!("unexpected {other:?}"),
    }
    let cursor = start_retry(2).unwrap();
    match decide_next(&cursor, 2, 2, false) {
        RetryDecision::Request { tsa_index, attempt } => assert_eq!((tsa_index, attempt), (0, 0)),
        other => panic!("unexpected {other:?}"),
    }
    let cursor = RetryCursor { tsa_index: 0, attempt: 0, last_error: None };
    let error = TimestampingServiceError::BackendFailed { code: "e1".to_owned() };
    let next = after_failure(cursor, error, 2, 1_000, 2_000_000_000);
    assert_eq!(next.sleep_nanos, Some(1_000));
    assert_eq!((next.cursor.tsa_index, next.cursor.attempt), (0, 1));
    let error = TimestampingServiceError::BackendFailed { code: "e2".to_owned() };
    let next = after_failure(next.cursor, error, 2, 1_000, 2_000_000_000);
    assert_eq!(next.sleep_nanos, None);
    assert_eq!((next.cursor.tsa_index, next.cursor.attempt), (1, 0));
    match decide_next(&next.cursor, 2, 2, true) {
        RetryDecision::GiveUp(TimestampingServiceError::BackendFailed { code }) => assert_eq!(code, "e2"),
        other => panic!("unexpected {other:?}"),
    }
    let cursor = RetryCursor { tsa_index: 2, attempt: 0, last_error: None };
    match decide_next(&cursor, 2, 2, false) {
        RetryDecision::GiveUp(TimestampingServiceError::BackendFailed { code }) => {
            assert_eq!(code, "rfc3161_all_tsa_failed")
        }
        other => panic!("unexpected {other:?}"),
    }
    let cursor = RetryCursor { tsa_index: 0, attempt: 0, last_error: None };
    match decide_next(&cursor, 2, 2, true) {
        RetryDecision::GiveUp(TimestampingServiceError::BackendFailed { code }) => {
            assert_eq!(code, "rfc3161_retry_deadline_exceeded")
        }
        other => panic!("unexpected {other:?}"),
    }
}

#[test]
fn nonce_first_byte_is_positive_minimal() {
    for _ in 0..32 {
        let nonce = make_nonce().unwrap();
        assert!(nonce[0] >= 1 && nonce[0] <= 0x7f);
    }
}

#[test]
fn request_encodes_hash_nonce_and_cert_req() {
    let digest = hash(0xab);
    let nonce = [0x11u8; 16];
    let der_bytes = build_timestamp_request(&digest, &nonce).unwrap();
    let request = x509_tsp::TimeStampReq::from_der(&der_bytes).unwrap();
    assert_eq!(request.message_imprint.hashed_message.as_bytes(), &[0xab; 32]);
    assert_eq!(
        request.message_imprint.hash_algorithm.oid.to_string(),
        "2.16.840.1.101.3.4.2.8"
    );
    assert_eq!(request.nonce.unwrap().as_bytes(), &nonce);
    assert!(request.cert_req);
}

#[test]
fn garbage_tokens_are_malformed() {
    assert_eq!(parse_timestamp_response(&[1, 2, 3]), ParseOutcome::Malformed);
    let token = TimestampingToken::new(vec![0x30, 0x00]).unwrap();
    assert_eq!(
        verify_token_against_hash(&token, &hash(1)),
        TimestampVerification::Invalid { failure_kind: TimestampVerificationFailureKind::Malformed }
    );
}

#[test]
fn request_error_codes() {
    assert_eq!(classify_request_error(true, true, true), "rfc3161_request_timeout");
    assert_eq!(classify_request_error(false, true, true), "rfc3161_connect_failed");
    assert_eq!(classify_request_error(false, false, true), "rfc3161_response_read_failed");
    assert_eq!(classify_request_error(false, false, false), "rfc3161_request_failed");
    match http_status_error(503) {
        TimestampingServiceError::BackendFailed { code } => assert_eq!(code, "rfc3161_http_status_503"),
        other => panic!("unexpected {other:?}"),
    }
}
