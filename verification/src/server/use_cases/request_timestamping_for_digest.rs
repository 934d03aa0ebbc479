use vstd::prelude::*;
use vstd::string::*;

use crate::text::{has_prefix, starts_with};
use crate::timestamping::service::{
    TimestampingServiceError, TimestampingToken, TimestampingTokenHash, sha3_256,
};

verus! {

/// Why a digest timestamping request failed.
#[derive(Debug, Clone, PartialEq, Eq)]
pub enum RequestTimestampingError {
    /// The backend gave no token (the main failure).
    BackendFailed { code: String },
    /// The token was obtained but the ledger append failed afterwards.
    LedgerAppendFailed { code: &'static str },
}

pub open spec fn request_error_code(error: RequestTimestampingError) -> Seq<char> {
    match error {
        RequestTimestampingError::BackendFailed { code } => code@,
        RequestTimestampingError::LedgerAppendFailed { code } => code@,
    }
}

pub open spec fn request_error_display(error: RequestTimestampingError) -> Seq<char> {
    match error {
        RequestTimestampingError::BackendFailed { code } => "timestamping backend failed: "@ + code@,
        RequestTimestampingError::LedgerAppendFailed { code } => "timestamping ledger append failed: "@
            + code@,
    }
}

impl RequestTimestampingError {
    pub fn as_error_code(&self) -> (code: &str)
        ensures
            code@ == request_error_code(*self),
    {
        match self {
            RequestTimestampingError::BackendFailed { code } => code.as_str(),
            RequestTimestampingError::LedgerAppendFailed { code } => code,
        }
    }

    /// The human-readable description of the error.
    pub fn to_display_string(&self) -> (text: String)
        ensures
            text@ == request_error_display(*self),
    {
        match self {
            RequestTimestampingError::BackendFailed { code } => {
                let mut out = String::from_str("timestamping backend failed: ");
                out.append(code.as_str());
                out
            },
            RequestTimestampingError::LedgerAppendFailed { code } => {
                let mut out = String::from_str("timestamping ledger append failed: ");
                out.append(code);
                out
            },
        }
    }
}

/// The audit error code for a backend error: a backend code that starts with
/// `digest_timestamping_` is passed through, any other backend code becomes
/// `digest_timestamping_backend_failed`, and an invalid response becomes
/// `digest_timestamping_invalid_response`, so that no unknown text reaches
/// the logs or the audit trail.
pub open spec fn backend_error_code_text(error: TimestampingServiceError) -> Seq<char> {
    match error {
        TimestampingServiceError::BackendFailed { code } => if has_prefix(
            code@,
            "digest_timestamping_"@,
        ) {
            code@
        } else {
            "digest_timestamping_backend_failed"@
        },
        TimestampingServiceError::InvalidResponse { .. } => "digest_timestamping_invalid_response"@,
    }
}

pub fn backend_error_code(error: &TimestampingServiceError) -> (code: String)
    ensures
        code@ == backend_error_code_text(*error),
{
    match error {
        TimestampingServiceError::BackendFailed { code } => {
            if starts_with(code.as_str(), "digest_timestamping_") {
                code.clone()
            } else {
                "digest_timestamping_backend_failed".to_string()
            }
        },
        TimestampingServiceError::InvalidResponse { .. } => {
            "digest_timestamping_invalid_response".to_string()
        },
    }
}

/// What follows the backend's answer to a timestamp request.
pub enum TimestampingStep {
    /// No token: record the failure audit with `error_code` and return
    /// `BackendFailed` with that code.
    Failed { error_code: String },
    /// A token: append the `digest_timestamped` ledger entry carrying the
    /// token's hash, then record the success audit.
    Obtained { token: TimestampingToken, token_hash: TimestampingTokenHash },
}

/// Decides the step after the backend answered.
pub fn after_backend_response(
    response: Result<TimestampingToken, TimestampingServiceError>,
) -> (step: TimestampingStep)
    ensures
        match response {
            Err(e) => step matches TimestampingStep::Failed { error_code } && error_code@
                == backend_error_code_text(e),
            Ok(t) => step matches TimestampingStep::Obtained { token, token_hash } && token@
                == t@ && token_hash@ == sha3_256(t@),
        },
{
    match response {
        Err(error) => TimestampingStep::Failed { error_code: backend_error_code(&error) },
        Ok(token) => {
            let token_hash = TimestampingTokenHash::from_token(&token);
            TimestampingStep::Obtained { token, token_hash }
        },
    }
}

/// The request's result once the ledger append has run: the token when the
/// entry was appended, else `LedgerAppendFailed` with the append's code (the
/// token was still obtained and the success audit still recorded).
pub fn finish_timestamping(
    token: TimestampingToken,
    ledger_result: Result<(), &'static str>,
) -> (result: Result<TimestampingToken, RequestTimestampingError>)
    ensures
        match ledger_result {
            Ok(()) => result matches Ok(t) && t@ == token@,
            Err(code) => result matches Err(RequestTimestampingError::LedgerAppendFailed { code: c })
                && c@ == code@,
        },
{
    match ledger_result {
        Ok(()) => Ok(token),
        Err(code) => Err(RequestTimestampingError::LedgerAppendFailed { code }),
    }
}

/// Where a timestamp request for a digest stands.
pub enum TimestampingStage {
    Start,
    /// The backend was asked for a token for the digest hash.
    AwaitToken,
    /// The `digest_timestamped` ledger entry for the token is being appended.
    AwaitLedger { token: TimestampingToken, token_hash: TimestampingTokenHash },
    /// The success audit is being recorded; the ledger append gave `ledger`.
    AwaitSuccessAudit { token: TimestampingToken, ledger: Result<(), &'static str> },
    /// The failure audit is being recorded for a backend failure with `code`.
    AwaitFailureAudit { code: String },
    Done,
}

/// The outcome of the outside work of the previous step.
pub enum TimestampingEvent {
    Begin,
    TokenReceived(Result<TimestampingToken, TimestampingServiceError>),
    LedgerAppended(Result<(), &'static str>),
    AuditRecorded,
}

/// What the caller must do next.
pub enum TimestampingAction {
    RequestTimestamp,
    /// Append the ledger entry that records the token's hash.
    AppendLedgerEntry { token_hash: TimestampingTokenHash },
    /// Record the success audit with the token's hash.
    RecordSuccessAudit { token_hash: TimestampingTokenHash },
    RecordFailureAudit { code: String },
    Finish(Result<TimestampingToken, RequestTimestampingError>),
}

pub open spec fn timestamping_event_fits(stage: TimestampingStage, event: TimestampingEvent) -> bool {
    match stage {
        TimestampingStage::Start => event is Begin,
        TimestampingStage::AwaitToken => event is TokenReceived,
        TimestampingStage::AwaitLedger { .. } => event is LedgerAppended,
        TimestampingStage::AwaitSuccessAudit { .. } => event is AuditRecorded,
        TimestampingStage::AwaitFailureAudit { .. } => event is AuditRecorded,
        TimestampingStage::Done => false,
    }
}

/// The steps of a timestamp request: ask the backend for a token; without
/// one, audit the failure and return `BackendFailed` with its code. With a
/// token, append the ledger entry carrying its SHA3-256 hash, record the
/// success audit whatever the append gave, and return the token, or
/// `LedgerAppendFailed` when the append failed.
pub fn next_timestamping_step(stage: TimestampingStage, event: TimestampingEvent) -> (step: (
    TimestampingStage,
    TimestampingAction,
))
    requires
        timestamping_event_fits(stage, event),
    ensures
        stage is Start ==> step.0 is AwaitToken && step.1 is RequestTimestamp,
        stage is AwaitToken ==> match event {
            TimestampingEvent::TokenReceived(Err(e)) => (step.0 matches TimestampingStage::AwaitFailureAudit { code }
                && code@ == backend_error_code_text(e)) && (step.1 matches TimestampingAction::RecordFailureAudit {
                code,
            } && code@ == backend_error_code_text(e)),
            TimestampingEvent::TokenReceived(Ok(t)) => (step.0 matches TimestampingStage::AwaitLedger {
                token,
                token_hash,
            } && token@ == t@ && token_hash@ == sha3_256(t@)) && step.1 == (TimestampingAction::AppendLedgerEntry {
                token_hash: step.0->token_hash,
            }),
            _ => false,
        },
        stage matches TimestampingStage::AwaitLedger { token, token_hash } ==> match event {
            TimestampingEvent::LedgerAppended(r) => (step.0 matches TimestampingStage::AwaitSuccessAudit {
                token: t,
                ledger,
            } && t@ == token@ && ledger == r) && step.1 == (TimestampingAction::RecordSuccessAudit { token_hash }),
            _ => false,
        },
        stage matches TimestampingStage::AwaitSuccessAudit { token, ledger } ==> (step.0 is Done && match ledger {
            Ok(()) => step.1 matches TimestampingAction::Finish(Ok(t)) && t@ == token@,
            Err(code) => step.1 matches TimestampingAction::Finish(
                Err(RequestTimestampingError::LedgerAppendFailed { code: c }),
            ) && c@ == code@,
        }),
        stage matches TimestampingStage::AwaitFailureAudit { code } ==> (step.1 matches TimestampingAction::Finish(
            Err(RequestTimestampingError::BackendFailed { code: c }),
        ) && c@ == code@ && step.0 is Done),
{
    match stage {
        TimestampingStage::Start => (TimestampingStage::AwaitToken, TimestampingAction::RequestTimestamp),
        TimestampingStage::AwaitToken => match event {
            TimestampingEvent::TokenReceived(response) => match after_backend_response(response) {
                TimestampingStep::Failed { error_code } => {
                    let again = error_code.clone();
                    (
                        TimestampingStage::AwaitFailureAudit { code: error_code },
                        TimestampingAction::RecordFailureAudit { code: again },
                    )
                },
                TimestampingStep::Obtained { token, token_hash } => (
                    TimestampingStage::AwaitLedger { token, token_hash },
                    TimestampingAction::AppendLedgerEntry { token_hash },
                ),
            },
            _ => (TimestampingStage::Done, TimestampingAction::RequestTimestamp),
        },
        TimestampingStage::AwaitLedger { token, token_hash } => match event {
            TimestampingEvent::LedgerAppended(ledger) => (
                TimestampingStage::AwaitSuccessAudit { token, ledger },
                TimestampingAction::RecordSuccessAudit { token_hash },
            ),
            _ => (TimestampingStage::Done, TimestampingAction::RequestTimestamp),
        },
        TimestampingStage::AwaitSuccessAudit { token, ledger } => (
            TimestampingStage::Done,
            TimestampingAction::Finish(finish_timestamping(token, ledger)),
        ),
        TimestampingStage::AwaitFailureAudit { code } => (
            TimestampingStage::Done,
            TimestampingAction::Finish(Err(RequestTimestampingError::BackendFailed { code })),
        ),
        TimestampingStage::Done => (TimestampingStage::Done, TimestampingAction::RequestTimestamp),
    }
}

} // verus!
