use vstd::prelude::*;
use vstd::string::*;

use crate::ledger::{DigestHash, MonthlyDigestPeriod};
use crate::timestamping::service::sha3_256;

verus! {

/// Input of monthly digest generation.
#[derive(Debug, Clone)]
pub struct GenerateMonthlyDigestInput {
    /// Target month.
    pub period: MonthlyDigestPeriod,
    /// Generation time (RFC 3339), chosen by the server.
    pub generated_at: String,
    /// Request id of the run (canonical UUID text).
    pub request_id: String,
}

/// Why monthly digest generation failed. A failure to record the failure
/// audit is only logged, never returned.
#[derive(Debug, Clone, PartialEq, Eq)]
pub enum GenerateMonthlyDigestError {
    /// A digest for the same month exists already.
    DuplicateDigest,
    /// The month has no ledger entries.
    NoEntriesForPeriod,
    /// A Supabase RPC (duplicate check or range fetch) failed.
    FetchFailed { code: &'static str },
    /// Building or signing the digest failed.
    BuildFailed { code: String },
    /// Appending the ledger entry failed.
    AppendFailed { code: &'static str },
}

pub open spec fn generate_error_code(error: GenerateMonthlyDigestError) -> Seq<char> {
    match error {
        GenerateMonthlyDigestError::DuplicateDigest => "monthly_digest_duplicate"@,
        GenerateMonthlyDigestError::NoEntriesForPeriod => "monthly_digest_no_entries"@,
        GenerateMonthlyDigestError::FetchFailed { code } => code@,
        GenerateMonthlyDigestError::BuildFailed { code } => code@,
        GenerateMonthlyDigestError::AppendFailed { code } => code@,
    }
}

pub open spec fn generate_error_display(error: GenerateMonthlyDigestError) -> Seq<char> {
    match error {
        GenerateMonthlyDigestError::DuplicateDigest => "monthly digest already exists for this period"@,
        GenerateMonthlyDigestError::NoEntriesForPeriod => "no ledger entries found for the target period"@,
        GenerateMonthlyDigestError::FetchFailed { code } => "monthly digest fetch failed: "@ + code@,
        GenerateMonthlyDigestError::BuildFailed { code } => "monthly digest build failed: "@ + code@,
        GenerateMonthlyDigestError::AppendFailed { code } => "monthly digest ledger append failed: "@
            + code@,
    }
}

impl GenerateMonthlyDigestError {
    pub fn as_error_code(&self) -> (code: &str)
        ensures
            code@ == generate_error_code(*self),
    {
        match self {
            GenerateMonthlyDigestError::DuplicateDigest => "monthly_digest_duplicate",
            GenerateMonthlyDigestError::NoEntriesForPeriod => "monthly_digest_no_entries",
            GenerateMonthlyDigestError::FetchFailed { code } => code,
            GenerateMonthlyDigestError::BuildFailed { code } => code.as_str(),
            GenerateMonthlyDigestError::AppendFailed { code } => code,
        }
    }

    /// The human-readable description of the error.
    pub fn to_display_string(&self) -> (text: String)
        ensures
            text@ == generate_error_display(*self),
    {
        match self {
            GenerateMonthlyDigestError::DuplicateDigest => {
                String::from_str("monthly digest already exists for this period")
            },
            GenerateMonthlyDigestError::NoEntriesForPeriod => {
                String::from_str("no ledger entries found for the target period")
            },
            GenerateMonthlyDigestError::FetchFailed { code } => {
                let mut out = String::from_str("monthly digest fetch failed: ");
                out.append(code);
                out
            },
            GenerateMonthlyDigestError::BuildFailed { code } => {
                let mut out = String::from_str("monthly digest build failed: ");
                out.append(code.as_str());
                out
            },
            GenerateMonthlyDigestError::AppendFailed { code } => {
                let mut out = String::from_str("monthly digest ledger append failed: ");
                out.append(code);
                out
            },
        }
    }
}

/// The first step of generation: a failed duplicate check or an existing
/// digest stops it; otherwise the month's range is fetched next.
pub fn after_duplicate_check<E>(checked: Result<bool, E>) -> (next: Result<(), GenerateMonthlyDigestError>)
    ensures
        match checked {
            Err(_) => next matches Err(GenerateMonthlyDigestError::FetchFailed { code }) && code@
                == "monthly_digest_duplicate_check_failed"@,
            Ok(true) => next == Err::<(), GenerateMonthlyDigestError>(
                GenerateMonthlyDigestError::DuplicateDigest,
            ),
            Ok(false) => next is Ok,
        },
{
    match checked {
        Err(_) => Err(
            GenerateMonthlyDigestError::FetchFailed { code: "monthly_digest_duplicate_check_failed" },
        ),
        Ok(true) => Err(GenerateMonthlyDigestError::DuplicateDigest),
        Ok(false) => Ok(()),
    }
}

/// The range fetch: a month without entries or a failed fetch stops
/// generation; otherwise the range is used to build the digest.
pub fn after_range_fetch<R, E>(fetched: Result<Option<R>, E>) -> (range: Result<R, GenerateMonthlyDigestError>)
    ensures
        match fetched {
            Err(_) => range matches Err(GenerateMonthlyDigestError::FetchFailed { code }) && code@
                == "monthly_digest_range_fetch_failed"@,
            Ok(None) => range matches Err(GenerateMonthlyDigestError::NoEntriesForPeriod),
            Ok(Some(r)) => range == Ok::<R, GenerateMonthlyDigestError>(r),
        },
{
    match fetched {
        Err(_) => Err(
            GenerateMonthlyDigestError::FetchFailed { code: "monthly_digest_range_fetch_failed" },
        ),
        Ok(None) => Err(GenerateMonthlyDigestError::NoEntriesForPeriod),
        Ok(Some(range)) => Ok(range),
    }
}

/// Where a digest generation stands: each stage waits for the outcome of the
/// outside work that the previous step asked for.
pub enum GenerateStage {
    Start,
    AwaitDuplicateCheck,
    AwaitRange,
    /// The canonical form of the month's range is being built.
    AwaitCanonicalForm,
    /// The canonical form, whose digest hash is `digest_hash`, is being signed.
    AwaitSignature { digest_hash: DigestHash },
    /// The `monthly_digest` ledger entry is being appended.
    AwaitAppend { digest_hash: DigestHash },
    Done,
}

/// The outcome of the outside work of the previous step.
pub enum GenerateEvent {
    Begin,
    /// Whether a digest of the month exists already, or `Err` when the check failed.
    DuplicateChecked(Result<bool, ()>),
    /// Whether the month has a ledger range, or `Err` when the fetch failed.
    RangeFetched(Result<bool, ()>),
    /// The canonical form's bytes, or the builder's error text.
    CanonicalFormBuilt(Result<Vec<u8>, String>),
    /// Whether signing succeeded, or the signer's error text.
    Signed(Result<(), String>),
    /// Whether the ledger append succeeded, or its error code.
    Appended(Result<(), &'static str>),
}

/// What the caller must do next.
pub enum GenerateAction {
    CheckDuplicate,
    FetchRange,
    BuildCanonicalForm,
    SignCanonicalForm,
    AppendLedgerEntry,
    /// Return the signed digest, whose hash is `digest_hash`.
    FinishOk { digest_hash: DigestHash },
    FinishErr(GenerateMonthlyDigestError),
}

pub open spec fn generate_event_fits(stage: GenerateStage, event: GenerateEvent) -> bool {
    match stage {
        GenerateStage::Start => event is Begin,
        GenerateStage::AwaitDuplicateCheck => event is DuplicateChecked,
        GenerateStage::AwaitRange => event is RangeFetched,
        GenerateStage::AwaitCanonicalForm => event is CanonicalFormBuilt,
        GenerateStage::AwaitSignature { .. } => event is Signed,
        GenerateStage::AwaitAppend { .. } => event is Appended,
        GenerateStage::Done => false,
    }
}

/// Generation ends with `error`.
pub open spec fn generate_fails(step: (GenerateStage, GenerateAction), error: GenerateMonthlyDigestError) -> bool {
    step.0 is Done && step.1 == GenerateAction::FinishErr(error)
}

/// Generation ends with a fetch failure carrying `code`.
pub open spec fn generate_fetch_fails(step: (GenerateStage, GenerateAction), code: Seq<char>) -> bool {
    &&& step.0 is Done
    &&& step.1 matches GenerateAction::FinishErr(GenerateMonthlyDigestError::FetchFailed { code: c }) && c@ == code
}

/// Generation ends with a build failure carrying `code`.
pub open spec fn generate_build_fails(step: (GenerateStage, GenerateAction), code: Seq<char>) -> bool {
    &&& step.0 is Done
    &&& step.1 matches GenerateAction::FinishErr(GenerateMonthlyDigestError::BuildFailed { code: c }) && c@ == code
}

/// The steps of monthly digest generation: refuse a month that has a digest,
/// fetch the month's range (a month without entries is refused), build the
/// canonical form, hash it with SHA3-256, sign it, append the ledger entry,
/// and return the digest. Any failure ends generation with its error.
pub fn next_generate_step(stage: GenerateStage, event: GenerateEvent) -> (step: (GenerateStage, GenerateAction))
    requires
        generate_event_fits(stage, event),
    ensures
        stage is Start ==> step.0 is AwaitDuplicateCheck && step.1 is CheckDuplicate,
        stage is AwaitDuplicateCheck ==> match event {
            GenerateEvent::DuplicateChecked(Err(())) => generate_fetch_fails(step, "monthly_digest_duplicate_check_failed"@),
            GenerateEvent::DuplicateChecked(Ok(true)) => generate_fails(step, GenerateMonthlyDigestError::DuplicateDigest),
            GenerateEvent::DuplicateChecked(Ok(false)) => step.0 is AwaitRange && step.1 is FetchRange,
            _ => false,
        },
        stage is AwaitRange ==> match event {
            GenerateEvent::RangeFetched(Err(())) => generate_fetch_fails(step, "monthly_digest_range_fetch_failed"@),
            GenerateEvent::RangeFetched(Ok(false)) => generate_fails(step, GenerateMonthlyDigestError::NoEntriesForPeriod),
            GenerateEvent::RangeFetched(Ok(true)) => step.0 is AwaitCanonicalForm && step.1 is BuildCanonicalForm,
            _ => false,
        },
        stage is AwaitCanonicalForm ==> match event {
            GenerateEvent::CanonicalFormBuilt(Err(code)) => generate_build_fails(step, code@),
            GenerateEvent::CanonicalFormBuilt(Ok(bytes)) => (step.0 matches GenerateStage::AwaitSignature { digest_hash }
                && digest_hash@ == sha3_256(bytes@)) && step.1 is SignCanonicalForm,
            _ => false,
        },
        stage matches GenerateStage::AwaitSignature { digest_hash } ==> match event {
            GenerateEvent::Signed(Err(code)) => generate_build_fails(step, code@),
            GenerateEvent::Signed(Ok(())) => step.0 == (GenerateStage::AwaitAppend { digest_hash })
                && step.1 is AppendLedgerEntry,
            _ => false,
        },
        stage matches GenerateStage::AwaitAppend { digest_hash } ==> match event {
            GenerateEvent::Appended(Err(code)) => generate_fails(step, GenerateMonthlyDigestError::AppendFailed { code }),
            GenerateEvent::Appended(Ok(())) => step.0 is Done && step.1 == (GenerateAction::FinishOk { digest_hash }),
            _ => false,
        },
{
    match stage {
        GenerateStage::Start => (GenerateStage::AwaitDuplicateCheck, GenerateAction::CheckDuplicate),
        GenerateStage::AwaitDuplicateCheck => match event {
            GenerateEvent::DuplicateChecked(checked) => match after_duplicate_check(checked) {
                Ok(()) => (GenerateStage::AwaitRange, GenerateAction::FetchRange),
                Err(error) => (GenerateStage::Done, GenerateAction::FinishErr(error)),
            },
            _ => (GenerateStage::Done, GenerateAction::CheckDuplicate),
        },
        GenerateStage::AwaitRange => match event {
            GenerateEvent::RangeFetched(fetched) => {
                let found: Result<Option<()>, ()> = match fetched {
                    Err(()) => Err(()),
                    Ok(true) => Ok(Some(())),
                    Ok(false) => Ok(None),
                };
                match after_range_fetch(found) {
                    Ok(()) => (GenerateStage::AwaitCanonicalForm, GenerateAction::BuildCanonicalForm),
                    Err(error) => (GenerateStage::Done, GenerateAction::FinishErr(error)),
                }
            },
            _ => (GenerateStage::Done, GenerateAction::CheckDuplicate),
        },
        GenerateStage::AwaitCanonicalForm => match event {
            GenerateEvent::CanonicalFormBuilt(Err(code)) => (
                GenerateStage::Done,
                GenerateAction::FinishErr(GenerateMonthlyDigestError::BuildFailed { code }),
            ),
            GenerateEvent::CanonicalFormBuilt(Ok(bytes)) => {
                let digest_hash = DigestHash::from_canonical_bytes(bytes.as_slice());
                (GenerateStage::AwaitSignature { digest_hash }, GenerateAction::SignCanonicalForm)
            },
            _ => (GenerateStage::Done, GenerateAction::CheckDuplicate),
        },
        GenerateStage::AwaitSignature { digest_hash } => match event {
            GenerateEvent::Signed(Err(code)) => (
                GenerateStage::Done,
                GenerateAction::FinishErr(GenerateMonthlyDigestError::BuildFailed { code }),
            ),
            GenerateEvent::Signed(Ok(())) => (GenerateStage::AwaitAppend { digest_hash }, GenerateAction::AppendLedgerEntry),
            _ => (GenerateStage::Done, GenerateAction::CheckDuplicate),
        },
        GenerateStage::AwaitAppend { digest_hash } => match event {
            GenerateEvent::Appended(Err(code)) => (
                GenerateStage::Done,
                GenerateAction::FinishErr(GenerateMonthlyDigestError::AppendFailed { code }),
            ),
            GenerateEvent::Appended(Ok(())) => (GenerateStage::Done, GenerateAction::FinishOk { digest_hash }),
            _ => (GenerateStage::Done, GenerateAction::CheckDuplicate),
        },
        GenerateStage::Done => (GenerateStage::Done, GenerateAction::CheckDuplicate),
    }
}

} // verus!
