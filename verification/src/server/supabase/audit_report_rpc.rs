use vstd::prelude::*;

verus! {

/// Hash chain verification part of the audit report.
#[derive(Debug, Clone, PartialEq, Eq)]
pub struct HashChainVerificationSummary {
    pub checked_count: u64,
    pub detail: Option<String>,
    pub valid: bool,
}

/// One integrity check run in the report period.
#[derive(Debug, Clone, PartialEq, Eq)]
pub struct IntegrityCheckReportItem {
    pub checked_audit_event_count: u64,
    pub checked_secret_count: u64,
    pub checked_secret_version_count: u64,
    pub duration_ms: u64,
    pub occurred_at: String,
    pub result: String,
    pub trigger: Option<String>,
    pub violation_count: u64,
}

/// One monthly digest recorded in the report period.
#[derive(Debug, Clone, PartialEq, Eq)]
pub struct MonthlyDigestReportItem {
    pub digest_hash: String,
    pub end_sequence_no: u64,
    pub entry_count: u64,
    pub sequence_no: u64,
    pub start_sequence_no: u64,
    pub target_year_month: String,
}

/// One restore test run in the report period.
#[derive(Debug, Clone, PartialEq, Eq)]
pub struct RestoreTestReportItem {
    pub duration_ms: u64,
    pub occurred_at: String,
    pub result: String,
    pub sample_count: u64,
    pub trigger: Option<String>,
}

/// A signature key version and its status.
#[derive(Debug, Clone, PartialEq, Eq)]
pub struct SignatureKeyVersionReportItem {
    pub key_version: u32,
    pub status: String,
}

/// One verification failure in the report period.
#[derive(Debug, Clone, PartialEq, Eq)]
pub struct VerificationFailureReportItem {
    pub code: String,
    pub occurred_at: String,
    pub sequence_no: Option<u64>,
    pub source: String,
}

/// The audit report for a period, as the database summarises it.
#[derive(Debug, Clone, PartialEq, Eq)]
pub struct AuditReportSummary {
    pub audit_event_count: u64,
    pub hash_chain_verification: HashChainVerificationSummary,
    pub integrity_checks: Vec<IntegrityCheckReportItem>,
    pub ledger_entry_count: u64,
    pub monthly_digests: Vec<MonthlyDigestReportItem>,
    pub period_end: String,
    pub period_start: String,
    pub restore_tests: Vec<RestoreTestReportItem>,
    pub secret_count: u64,
    pub sequence_end: Option<u64>,
    pub sequence_start: Option<u64>,
    pub signature_key_versions: Vec<SignatureKeyVersionReportItem>,
    pub verification_failures: Vec<VerificationFailureReportItem>,
}

} // verus!
