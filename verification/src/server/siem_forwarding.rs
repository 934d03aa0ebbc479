use vstd::prelude::*;

use crate::audit::{AuditRecordError, AuditRecordOutcome};
use crate::siem::forwarder::SiemForwardOutcome;

verus! {

/// What the attempt to record a `siem_forward_failure` audit event led to.
#[derive(PartialEq, Eq, Structural, Clone, Copy, Debug)]
pub enum FailureAuditRecordEffect {
    PrimarySucceeded,
    FallbackSucceeded,
    BothFailed,
    UnexpectedError,
}

/// The `audit_record_outcome` field written to the log for an effect.
pub open spec fn audit_record_outcome_text(effect: FailureAuditRecordEffect) -> Seq<char> {
    match effect {
        FailureAuditRecordEffect::PrimarySucceeded => "primary_succeeded"@,
        FailureAuditRecordEffect::FallbackSucceeded => "fallback_succeeded"@,
        FailureAuditRecordEffect::BothFailed => "both_failed"@,
        FailureAuditRecordEffect::UnexpectedError => "unexpected_error"@,
    }
}

impl FailureAuditRecordEffect {
    pub fn audit_record_outcome(self) -> (text: &'static str)
        ensures
            text@ == audit_record_outcome_text(self),
    {
        match self {
            FailureAuditRecordEffect::PrimarySucceeded => "primary_succeeded",
            FailureAuditRecordEffect::FallbackSucceeded => "fallback_succeeded",
            FailureAuditRecordEffect::BothFailed => "both_failed",
            FailureAuditRecordEffect::UnexpectedError => "unexpected_error",
        }
    }

    /// Only a failure of both the primary store and the fallback degrades
    /// readiness; any other error is logged and nothing more.
    pub fn marks_readiness_failure(self) -> (marks: bool)
        ensures
            marks == (self == FailureAuditRecordEffect::BothFailed),
    {
        match self {
            FailureAuditRecordEffect::BothFailed => true,
            _ => false,
        }
    }
}

/// The sink error code that a failed forward reports, or `None` when the
/// sink accepted the batch directly.
pub fn forward_failure_sink_error_code(outcome: &SiemForwardOutcome) -> (code: Option<&str>)
    ensures
        match *outcome {
            SiemForwardOutcome::SentDirect => code is None,
            SiemForwardOutcome::Buffered { sink_error_code } => code matches Some(c)
                && c@ == sink_error_code@,
            SiemForwardOutcome::BufferingFailed { sink_error_code } => code matches Some(c)
                && c@ == sink_error_code@,
        },
{
    match outcome {
        SiemForwardOutcome::SentDirect => None,
        SiemForwardOutcome::Buffered { sink_error_code } => Some(sink_error_code.as_str()),
        SiemForwardOutcome::BufferingFailed { sink_error_code } => Some(sink_error_code.as_str()),
    }
}

/// The effect that the result of recording a failure audit event has.
pub open spec fn record_effect(
    result: Result<AuditRecordOutcome, AuditRecordError>,
) -> FailureAuditRecordEffect {
    match result {
        Ok(AuditRecordOutcome::PrimarySucceeded) => FailureAuditRecordEffect::PrimarySucceeded,
        Ok(AuditRecordOutcome::FallbackSucceeded) => FailureAuditRecordEffect::FallbackSucceeded,
        Err(AuditRecordError::PrimaryAndFallbackFailed { .. }) => FailureAuditRecordEffect::BothFailed,
        Err(_) => FailureAuditRecordEffect::UnexpectedError,
    }
}

pub fn failure_audit_record_effect(
    result: &Result<AuditRecordOutcome, AuditRecordError>,
) -> (effect: FailureAuditRecordEffect)
    ensures
        effect == record_effect(*result),
{
    match result {
        Ok(AuditRecordOutcome::PrimarySucceeded) => FailureAuditRecordEffect::PrimarySucceeded,
        Ok(AuditRecordOutcome::FallbackSucceeded) => FailureAuditRecordEffect::FallbackSucceeded,
        Err(AuditRecordError::PrimaryAndFallbackFailed { .. }) => FailureAuditRecordEffect::BothFailed,
        Err(_) => FailureAuditRecordEffect::UnexpectedError,
    }
}

/// Severity of the log line written after a failure audit attempt.
#[derive(PartialEq, Eq, Structural, Clone, Copy, Debug)]
pub enum FailureAuditLogLevel {
    Warn,
    Error,
}

/// The log line written after trying to record a forward failure: its
/// level, its message, and whether it flags a classification mismatch
/// (an error effect whose result was in fact `Ok`).
pub struct FailureAuditLogLine {
    pub level: FailureAuditLogLevel,
    pub message: &'static str,
    pub classification_mismatch: bool,
}

pub open spec fn log_message_text(effect: FailureAuditRecordEffect, result_is_err: bool) -> Seq<char> {
    match effect {
        FailureAuditRecordEffect::PrimarySucceeded => "SIEM forward failure audit recorded"@,
        FailureAuditRecordEffect::FallbackSucceeded => "SIEM forward failure audit recorded to local fallback"@,
        _ => if result_is_err {
            "SIEM forward failure audit recording failed"@
        } else {
            "SIEM forward failure audit classification mismatch"@
        },
    }
}

/// Chooses the log line for the result of recording a forward failure.
pub fn failure_audit_log_line(effect: FailureAuditRecordEffect, result_is_err: bool) -> (line: FailureAuditLogLine)
    ensures
        line.message@ == log_message_text(effect, result_is_err),
        (line.level == FailureAuditLogLevel::Warn) == (effect == FailureAuditRecordEffect::PrimarySucceeded
            || effect == FailureAuditRecordEffect::FallbackSucceeded),
        line.classification_mismatch == (!result_is_err && (effect == FailureAuditRecordEffect::BothFailed
            || effect == FailureAuditRecordEffect::UnexpectedError)),
{
    match effect {
        FailureAuditRecordEffect::PrimarySucceeded => FailureAuditLogLine {
            level: FailureAuditLogLevel::Warn,
            message: "SIEM forward failure audit recorded",
            classification_mismatch: false,
        },
        FailureAuditRecordEffect::FallbackSucceeded => FailureAuditLogLine {
            level: FailureAuditLogLevel::Warn,
            message: "SIEM forward failure audit recorded to local fallback",
            classification_mismatch: false,
        },
        _ => if result_is_err {
            FailureAuditLogLine {
                level: FailureAuditLogLevel::Error,
                message: "SIEM forward failure audit recording failed",
                classification_mismatch: false,
            }
        } else {
            FailureAuditLogLine {
                level: FailureAuditLogLevel::Error,
                message: "SIEM forward failure audit classification mismatch",
                classification_mismatch: true,
            }
        },
    }
}

/// Readiness is marked degraded after a failure audit attempt exactly when
/// the audit event could not be built, or when both audit stores failed.
pub fn failure_audit_marks_readiness(
    built: bool,
    result: &Result<AuditRecordOutcome, AuditRecordError>,
) -> (marks: bool)
    ensures
        marks == (!built || result matches Err(AuditRecordError::PrimaryAndFallbackFailed { .. })),
{
    if !built {
        return true;
    }
    failure_audit_record_effect(result).marks_readiness_failure()
}

} // verus!
