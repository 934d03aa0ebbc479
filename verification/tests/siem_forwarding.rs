use mipsorcu::audit::{AuditAppendError, AuditRecordError, AuditRecordOutcome, LocalAuditStoreError};
use mipsorcu::server::siem_forwarding::{
    FailureAuditLogLevel, FailureAuditRecordEffect, failure_audit_log_line,
    failure_audit_marks_readiness, failure_audit_record_effect, forward_failure_sink_error_code,
};
use mipsorcu::siem::forwarder::SiemForwardOutcome;

fn primary_and_fallback_failed_result() -> Result<AuditRecordOutcome, AuditRecordError> {
    Err(AuditRecordError::PrimaryAndFallbackFailed {
        append_error: AuditAppendError::ExternalDependencyFailed { code: "test" },
        store_error: LocalAuditStoreError::LockPoisoned,
    })
}

#[test]
fn forward_failure_sink_error_code_is_none_for_direct_success() {
    assert_eq!(
        forward_failure_sink_error_code(&SiemForwardOutcome::SentDirect),
        None
    );
}

#[test]
fn forward_failure_sink_error_code_extracts_buffered_error() {
    let outcome = SiemForwardOutcome::Buffered {
        sink_error_code: "sink_failed".to_owned(),
    };

    assert_eq!(
        forward_failure_sink_error_code(&outcome),
        Some("sink_failed")
    );
}

#[test]
fn forward_failure_sink_error_code_extracts_buffering_failed_error() {
    let outcome = SiemForwardOutcome::BufferingFailed {
        sink_error_code: "buffer_failed".to_owned(),
    };

    assert_eq!(
        forward_failure_sink_error_code(&outcome),
        Some("buffer_failed")
    );
}

#[test]
fn failure_audit_record_effect_classifies_success_and_error_paths() {
    assert_eq!(
        failure_audit_record_effect(&Ok(AuditRecordOutcome::PrimarySucceeded)),
        FailureAuditRecordEffect::PrimarySucceeded
    );
    assert_eq!(
        failure_audit_record_effect(&Ok(AuditRecordOutcome::FallbackSucceeded)),
        FailureAuditRecordEffect::FallbackSucceeded
    );
    assert_eq!(
        failure_audit_record_effect(&primary_and_fallback_failed_result()),
        FailureAuditRecordEffect::BothFailed
    );
    assert_eq!(
        failure_audit_record_effect(&Err(AuditRecordError::IdempotencyConflict)),
        FailureAuditRecordEffect::UnexpectedError
    );
}

#[test]
fn only_primary_and_fallback_failure_marks_readiness_failure() {
    assert!(
        FailureAuditRecordEffect::BothFailed.marks_readiness_failure(),
        "both_failed must mark readiness degraded"
    );
    assert!(
        !FailureAuditRecordEffect::UnexpectedError.marks_readiness_failure(),
        "unexpected audit errors are logged but do not mean fallback also failed"
    );
}

#[test]
fn audit_record_outcome_labels() {
    assert_eq!(FailureAuditRecordEffect::PrimarySucceeded.audit_record_outcome(), "primary_succeeded");
    assert_eq!(FailureAuditRecordEffect::FallbackSucceeded.audit_record_outcome(), "fallback_succeeded");
    assert_eq!(FailureAuditRecordEffect::BothFailed.audit_record_outcome(), "both_failed");
    assert_eq!(FailureAuditRecordEffect::UnexpectedError.audit_record_outcome(), "unexpected_error");
}

#[test]
fn readiness_marked_when_event_build_fails_or_both_stores_fail() {
    assert!(failure_audit_marks_readiness(false, &Ok(AuditRecordOutcome::PrimarySucceeded)));
    assert!(failure_audit_marks_readiness(true, &primary_and_fallback_failed_result()));
    assert!(!failure_audit_marks_readiness(true, &Ok(AuditRecordOutcome::FallbackSucceeded)));
    assert!(!failure_audit_marks_readiness(true, &Err(AuditRecordError::IdempotencyConflict)));
}

#[test]
fn failure_audit_log_line_levels_and_messages() {
    let line = failure_audit_log_line(FailureAuditRecordEffect::FallbackSucceeded, false);
    assert_eq!(line.level, FailureAuditLogLevel::Warn);
    assert_eq!(line.message, "SIEM forward failure audit recorded to local fallback");
    let line = failure_audit_log_line(FailureAuditRecordEffect::BothFailed, true);
    assert_eq!(line.level, FailureAuditLogLevel::Error);
    assert_eq!(line.message, "SIEM forward failure audit recording failed");
    assert!(!line.classification_mismatch);
    let line = failure_audit_log_line(FailureAuditRecordEffect::UnexpectedError, false);
    assert!(line.classification_mismatch);
    assert_eq!(line.message, "SIEM forward failure audit classification mismatch");
}
