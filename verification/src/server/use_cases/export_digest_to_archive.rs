use vstd::prelude::*;
use vstd::string::*;

use crate::text::{has_prefix, starts_with};

verus! {

/// Errors of an archive backend.
#[derive(Debug, Clone, PartialEq, Eq)]
pub enum ArchiveBackendError {
    /// The object key was refused.
    InvalidKey { reason: &'static str },
    /// The export package could not be serialised.
    SerializationFailed(String),
    /// The backend failed, with its own code.
    BackendFailed { code: String },
    /// Local I/O failed.
    IoError(String),
}

/// What reading back an exported object found.
#[derive(Debug, Clone, Copy, PartialEq, Eq, Structural)]
pub enum ArchiveVerifyOutcome {
    /// The stored object matches the package.
    Valid,
    /// No object is stored under the key.
    NotFound,
    /// The stored object differs from the package (never repaired automatically).
    ContentMismatch,
}

/// Why exporting a digest to the archive failed.
#[derive(Debug, Clone, PartialEq, Eq)]
pub enum ExportDigestToArchiveError {
    /// The archive PUT (or its check) failed: nothing usable was stored.
    BackendFailed { code: String },
    /// The archive holds the digest but the ledger append failed afterwards.
    LedgerAppendFailed { code: &'static str },
}

pub open spec fn export_error_code(error: ExportDigestToArchiveError) -> Seq<char> {
    match error {
        ExportDigestToArchiveError::BackendFailed { code } => code@,
        ExportDigestToArchiveError::LedgerAppendFailed { code } => code@,
    }
}

pub open spec fn export_error_display(error: ExportDigestToArchiveError) -> Seq<char> {
    match error {
        ExportDigestToArchiveError::BackendFailed { code } => "archive backend failed: "@ + code@,
        ExportDigestToArchiveError::LedgerAppendFailed { code } => "archive ledger append failed: "@
            + code@,
    }
}

impl ExportDigestToArchiveError {
    pub fn as_error_code(&self) -> (code: &str)
        ensures
            code@ == export_error_code(*self),
    {
        match self {
            ExportDigestToArchiveError::BackendFailed { code } => code.as_str(),
            ExportDigestToArchiveError::LedgerAppendFailed { code } => code,
        }
    }

    /// The human-readable description of the error.
    pub fn to_display_string(&self) -> (text: String)
        ensures
            text@ == export_error_display(*self),
    {
        match self {
            ExportDigestToArchiveError::BackendFailed { code } => {
                let mut out = String::from_str("archive backend failed: ");
                out.append(code.as_str());
                out
            },
            ExportDigestToArchiveError::LedgerAppendFailed { code } => {
                let mut out = String::from_str("archive ledger append failed: ");
                out.append(code);
                out
            },
        }
    }
}

/// The audit error code for an archive backend error: a backend code that
/// starts with `archive_export_` is passed through; anything else becomes a
/// fixed code.
pub open spec fn archive_error_code_text(error: ArchiveBackendError) -> Seq<char> {
    match error {
        ArchiveBackendError::InvalidKey { .. } => "archive_export_invalid_key"@,
        ArchiveBackendError::SerializationFailed(_) => "archive_export_serialization_failed"@,
        ArchiveBackendError::BackendFailed { code } => if has_prefix(code@, "archive_export_"@) {
            code@
        } else {
            "archive_export_backend_failed"@
        },
        ArchiveBackendError::IoError(_) => "archive_export_io_error"@,
    }
}

pub fn archive_backend_error_code(error: &ArchiveBackendError) -> (code: String)
    ensures
        code@ == archive_error_code_text(*error),
{
    match error {
        ArchiveBackendError::InvalidKey { .. } => "archive_export_invalid_key".to_string(),
        ArchiveBackendError::SerializationFailed(_) => {
            "archive_export_serialization_failed".to_string()
        },
        ArchiveBackendError::BackendFailed { code } => {
            if starts_with(code.as_str(), "archive_export_") {
                code.clone()
            } else {
                "archive_export_backend_failed".to_string()
            }
        },
        ArchiveBackendError::IoError(_) => "archive_export_io_error".to_string(),
    }
}

/// The failure code after the PUT and its read-back, or `None` when the
/// stored object was found valid and the export goes on to the ledger.
/// A failure is audited and returned as `BackendFailed` with this code.
pub open spec fn export_failure_code(
    put: Result<(), ArchiveBackendError>,
    verify: Result<ArchiveVerifyOutcome, ArchiveBackendError>,
) -> Option<Seq<char>> {
    match put {
        Err(e) => Some(archive_error_code_text(e)),
        Ok(()) => match verify {
            Ok(ArchiveVerifyOutcome::Valid) => None,
            Ok(ArchiveVerifyOutcome::NotFound) => Some("archive_export_not_found"@),
            Ok(ArchiveVerifyOutcome::ContentMismatch) => Some("archive_export_content_mismatch"@),
            Err(e) => Some(archive_error_code_text(e)),
        },
    }
}

/// The failure code after a failed PUT (the read-back is then not made).
pub fn put_failure_code(put: &Result<(), ArchiveBackendError>) -> (code: Option<String>)
    ensures
        match *put {
            Ok(()) => code is None,
            Err(e) => code matches Some(c) && c@ == archive_error_code_text(e),
        },
{
    match put {
        Ok(()) => None,
        Err(error) => Some(archive_backend_error_code(error)),
    }
}

/// The failure code after the read-back of a stored object.
pub fn verify_failure_code(verify: &Result<ArchiveVerifyOutcome, ArchiveBackendError>) -> (code: Option<String>)
    ensures
        match export_failure_code(Ok(()), *verify) {
            None => code is None,
            Some(expected) => code matches Some(c) && c@ == expected,
        },
{
    match verify {
        Ok(ArchiveVerifyOutcome::Valid) => None,
        Ok(ArchiveVerifyOutcome::NotFound) => Some("archive_export_not_found".to_string()),
        Ok(ArchiveVerifyOutcome::ContentMismatch) => Some("archive_export_content_mismatch".to_string()),
        Err(error) => Some(archive_backend_error_code(error)),
    }
}

/// The export's result once the ledger append has run: the object key when
/// the entry was appended, else `LedgerAppendFailed` (the archive still holds
/// the digest and the success audit is still recorded).
pub fn finish_export(key: String, ledger_result: Result<(), &'static str>) -> (result: Result<
    String,
    ExportDigestToArchiveError,
>)
    ensures
        match ledger_result {
            Ok(()) => result matches Ok(k) && k@ == key@,
            Err(code) => result matches Err(ExportDigestToArchiveError::LedgerAppendFailed { code: c })
                && c@ == code@,
        },
{
    match ledger_result {
        Ok(()) => Ok(key),
        Err(code) => Err(ExportDigestToArchiveError::LedgerAppendFailed { code }),
    }
}

/// Where an archive export stands: each stage waits for the outcome of the
/// outside work that the previous step asked for.
pub enum ArchiveExportStage {
    /// Nothing done yet.
    Start,
    /// The package was handed to the backend's PUT.
    AwaitPut,
    /// The stored object is being read back and compared.
    AwaitVerify,
    /// The `archive_exported` ledger entry is being appended.
    AwaitLedger,
    /// The success audit is being recorded; the ledger append gave `ledger`.
    AwaitSuccessAudit { ledger: Result<(), &'static str> },
    /// The failure audit is being recorded for a failure with `code`.
    AwaitFailureAudit { code: String },
    /// The export has finished.
    Done,
}

/// The outcome of the outside work of the previous step.
pub enum ArchiveExportEvent {
    Begin,
    PutFinished(Result<(), ArchiveBackendError>),
    VerifyFinished(Result<ArchiveVerifyOutcome, ArchiveBackendError>),
    LedgerFinished(Result<(), &'static str>),
    AuditRecorded,
}

/// What the caller must do next.
pub enum ArchiveExportAction {
    PutObject,
    VerifyObject,
    AppendLedgerEntry,
    RecordSuccessAudit,
    RecordFailureAudit { code: String },
    /// Return the object key.
    FinishOk,
    FinishErr(ExportDigestToArchiveError),
}

/// Whether `event` is the outcome that `stage` waits for.
pub open spec fn export_event_fits(stage: ArchiveExportStage, event: ArchiveExportEvent) -> bool {
    match stage {
        ArchiveExportStage::Start => event is Begin,
        ArchiveExportStage::AwaitPut => event is PutFinished,
        ArchiveExportStage::AwaitVerify => event is VerifyFinished,
        ArchiveExportStage::AwaitLedger => event is LedgerFinished,
        ArchiveExportStage::AwaitSuccessAudit { .. } => event is AuditRecorded,
        ArchiveExportStage::AwaitFailureAudit { .. } => event is AuditRecorded,
        ArchiveExportStage::Done => false,
    }
}

/// A failure with `code`: its audit is recorded next.
pub open spec fn goes_to_failure_audit(step: (ArchiveExportStage, ArchiveExportAction), code: Seq<char>) -> bool {
    &&& step.0 matches ArchiveExportStage::AwaitFailureAudit { code: c } && c@ == code
    &&& step.1 matches ArchiveExportAction::RecordFailureAudit { code: c } && c@ == code
}

/// The export's steps: PUT the package, read it back, append the ledger
/// entry, record the success audit, and return the key, or
/// `LedgerAppendFailed` when the append failed (the archive still holds the
/// digest). A failed PUT or read-back (also an object not found or differing)
/// is audited as a failure and returned as `BackendFailed` with its code;
/// nothing is repaired.
pub fn next_export_step(stage: ArchiveExportStage, event: ArchiveExportEvent) -> (step: (
    ArchiveExportStage,
    ArchiveExportAction,
))
    requires
        export_event_fits(stage, event),
    ensures
        stage is Start ==> step.0 is AwaitPut && step.1 is PutObject,
        stage is AwaitPut ==> match event {
            ArchiveExportEvent::PutFinished(Ok(())) => step.0 is AwaitVerify && step.1 is VerifyObject,
            ArchiveExportEvent::PutFinished(Err(e)) => goes_to_failure_audit(step, archive_error_code_text(e)),
            _ => false,
        },
        stage is AwaitVerify ==> match event {
            ArchiveExportEvent::VerifyFinished(v) => match export_failure_code(Ok(()), v) {
                None => step.0 is AwaitLedger && step.1 is AppendLedgerEntry,
                Some(code) => goes_to_failure_audit(step, code),
            },
            _ => false,
        },
        stage is AwaitLedger ==> match event {
            ArchiveExportEvent::LedgerFinished(r) => step.0 == (ArchiveExportStage::AwaitSuccessAudit { ledger: r })
                && step.1 is RecordSuccessAudit,
            _ => false,
        },
        stage matches ArchiveExportStage::AwaitSuccessAudit { ledger } ==> (step.0 is Done && match ledger {
            Ok(()) => step.1 is FinishOk,
            Err(code) => step.1 == ArchiveExportAction::FinishErr(
                ExportDigestToArchiveError::LedgerAppendFailed { code },
            ),
        }),
        stage matches ArchiveExportStage::AwaitFailureAudit { code } ==> (step.1 matches ArchiveExportAction::FinishErr(
            ExportDigestToArchiveError::BackendFailed { code: c },
        ) && c@ == code@ && step.0 is Done),
{
    match stage {
        ArchiveExportStage::Start => (ArchiveExportStage::AwaitPut, ArchiveExportAction::PutObject),
        ArchiveExportStage::AwaitPut => match event {
            ArchiveExportEvent::PutFinished(put) => match put_failure_code(&put) {
                None => (ArchiveExportStage::AwaitVerify, ArchiveExportAction::VerifyObject),
                Some(code) => {
                    let again = code.clone();
                    (ArchiveExportStage::AwaitFailureAudit { code }, ArchiveExportAction::RecordFailureAudit { code: again })
                },
            },
            _ => (ArchiveExportStage::Done, ArchiveExportAction::FinishOk),
        },
        ArchiveExportStage::AwaitVerify => match event {
            ArchiveExportEvent::VerifyFinished(verify) => match verify_failure_code(&verify) {
                None => (ArchiveExportStage::AwaitLedger, ArchiveExportAction::AppendLedgerEntry),
                Some(code) => {
                    let again = code.clone();
                    (ArchiveExportStage::AwaitFailureAudit { code }, ArchiveExportAction::RecordFailureAudit { code: again })
                },
            },
            _ => (ArchiveExportStage::Done, ArchiveExportAction::FinishOk),
        },
        ArchiveExportStage::AwaitLedger => match event {
            ArchiveExportEvent::LedgerFinished(ledger) => (
                ArchiveExportStage::AwaitSuccessAudit { ledger },
                ArchiveExportAction::RecordSuccessAudit,
            ),
            _ => (ArchiveExportStage::Done, ArchiveExportAction::FinishOk),
        },
        ArchiveExportStage::AwaitSuccessAudit { ledger } => match ledger {
            Ok(()) => (ArchiveExportStage::Done, ArchiveExportAction::FinishOk),
            Err(code) => (
                ArchiveExportStage::Done,
                ArchiveExportAction::FinishErr(ExportDigestToArchiveError::LedgerAppendFailed { code }),
            ),
        },
        ArchiveExportStage::AwaitFailureAudit { code } => (
            ArchiveExportStage::Done,
            ArchiveExportAction::FinishErr(ExportDigestToArchiveError::BackendFailed { code }),
        ),
        ArchiveExportStage::Done => (ArchiveExportStage::Done, ArchiveExportAction::FinishOk),
    }
}

} // verus!
