use mipsorcu::server::use_cases::request_timestamping_for_digest::{
    RequestTimestampingError, TimestampingStep, after_backend_response, backend_error_code,
    finish_timestamping,
};
use mipsorcu::timestamping::service::{TimestampingServiceError, TimestampingToken};

#[test]
fn error_as_error_code_backend_failed_returns_dynamic_code() {
    let error = RequestTimestampingError::BackendFailed {
        code: "boom".to_owned(),
    };
    assert_eq!(error.as_error_code(), "boom");
}

#[test]
fn error_as_error_code_ledger_append_failed_returns_static_code() {
    let error = RequestTimestampingError::LedgerAppendFailed {
        code: "digest_timestamped_append_failed",
    };
    assert_eq!(error.as_error_code(), "digest_timestamped_append_failed");
}

#[test]
fn error_display_includes_backend_failed_code() {
    let error = RequestTimestampingError::BackendFailed {
        code: "network".to_owned(),
    };
    assert_eq!(error.to_display_string(), "timestamping backend failed: network");
}

#[test]
fn error_display_includes_ledger_append_failed_code() {
    let error = RequestTimestampingError::LedgerAppendFailed {
        code: "digest_timestamped_append_failed",
    };
    assert_eq!(
        error.to_display_string(),
        "timestamping ledger append failed: digest_timestamped_append_failed"
    );
}

#[test]
fn backend_error_code_maps_backend_failed_to_default() {
    let error = TimestampingServiceError::BackendFailed {
        code: "network".to_owned(),
    };
    assert_eq!(
        backend_error_code(&error),
        "digest_timestamping_backend_failed"
    );
}

#[test]
fn backend_error_code_passes_through_digest_timestamping_prefix() {
    let error = TimestampingServiceError::BackendFailed {
        code: "digest_timestamping_rate_limited".to_owned(),
    };
    assert_eq!(
        backend_error_code(&error),
        "digest_timestamping_rate_limited"
    );
}

#[test]
fn backend_error_code_maps_invalid_response() {
    let error = TimestampingServiceError::InvalidResponse {
        reason: "empty token",
    };
    assert_eq!(
        backend_error_code(&error),
        "digest_timestamping_invalid_response"
    );
}

#[test]
fn backend_failure_step_carries_mapped_code() {
    let step = after_backend_response(Err(TimestampingServiceError::BackendFailed {
        code: "timeout".to_owned(),
    }));
    match step {
        TimestampingStep::Failed { error_code } => {
            assert_eq!(error_code, "digest_timestamping_backend_failed")
        }
        TimestampingStep::Obtained { .. } => panic!("expected a failure"),
    }
}

#[test]
fn obtained_token_is_hashed_with_sha3_256() {
    let token = TimestampingToken::new(b"abc".to_vec()).unwrap();
    match after_backend_response(Ok(token)) {
        TimestampingStep::Obtained { token, token_hash } => {
            assert_eq!(token.as_bytes(), b"abc");
            assert_eq!(
                token_hash.to_hex(),
                "3a985da74fe225b2045c172d6bd390bd855f086e3e9d525b46bfe24511431532"
            );
        }
        TimestampingStep::Failed { .. } => panic!("expected a token"),
    }
}

#[test]
fn ledger_append_failure_keeps_code() {
    let token = TimestampingToken::new(vec![1u8]).unwrap();
    let result = finish_timestamping(token, Err("digest_timestamped_append_failed"));
    assert_eq!(
        result.unwrap_err(),
        RequestTimestampingError::LedgerAppendFailed {
            code: "digest_timestamped_append_failed"
        }
    );
    let token = TimestampingToken::new(vec![2u8, 3]).unwrap();
    let result = finish_timestamping(token, Ok(()));
    assert_eq!(result.unwrap().as_bytes(), &[2u8, 3]);
}
