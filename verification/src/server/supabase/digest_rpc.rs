use vstd::prelude::*;

use super::{
    LEDGER_HASH_LENGTH, SupabaseRpcError, fixed_bytea_of_text, parse_count, parse_fixed_bytea,
    parse_key_version, parse_sequence_no, response_contains_marker, response_names_marker,
};

verus! {

/// Summary of a recorded monthly digest: non-secret metadata only.
#[derive(Debug, Clone, PartialEq, Eq)]
pub struct MonthlyDigestSummary {
    /// Target month, `YYYY-MM`.
    pub target_year_month: String,
    pub start_sequence_no: u64,
    pub end_sequence_no: u64,
    pub entry_count: u64,
    pub signature_key_version: u32,
    /// Generation time (RFC 3339, UTC).
    pub digest_generated_at: String,
}

/// One row of the digest list RPC.
#[derive(Debug, Clone, PartialEq, Eq)]
pub struct MonthlyDigestSummaryResponse {
    pub target_year_month: String,
    pub start_sequence_no: i64,
    pub end_sequence_no: i64,
    pub entry_count: i64,
    pub signature_key_version: i32,
    pub digest_generated_at: String,
}

pub open spec fn digest_summary_failure(r: MonthlyDigestSummaryResponse) -> Option<Seq<char>> {
    if r.start_sequence_no < 1 {
        Some("digest list RPC returned invalid start_sequence_no"@)
    } else if r.end_sequence_no < 1 {
        Some("digest list RPC returned invalid end_sequence_no"@)
    } else if r.entry_count < 0 {
        Some("digest list RPC returned negative entry_count"@)
    } else if r.signature_key_version < 1 {
        Some("digest list RPC returned invalid signature_key_version"@)
    } else {
        None
    }
}

impl MonthlyDigestSummary {
    /// Reads a row of the digest list RPC; the first malformed field is reported.
    pub fn try_from_response(r: MonthlyDigestSummaryResponse) -> (summary: Result<Self, SupabaseRpcError>)
        ensures
            match digest_summary_failure(r) {
                Some(message) => summary matches Err(SupabaseRpcError::InvalidResponse(m)) && m@
                    == message,
                None => summary matches Ok(s) && s.target_year_month@ == r.target_year_month@
                    && s.start_sequence_no == r.start_sequence_no && s.end_sequence_no
                    == r.end_sequence_no && s.entry_count == r.entry_count
                    && s.signature_key_version == r.signature_key_version
                    && s.digest_generated_at@ == r.digest_generated_at@,
            },
    {
        let start_sequence_no = match parse_sequence_no(r.start_sequence_no) {
            Some(n) => n,
            None => {
                return Err(
                    SupabaseRpcError::InvalidResponse(
                        "digest list RPC returned invalid start_sequence_no".to_string(),
                    ),
                );
            },
        };
        let end_sequence_no = match parse_sequence_no(r.end_sequence_no) {
            Some(n) => n,
            None => {
                return Err(
                    SupabaseRpcError::InvalidResponse(
                        "digest list RPC returned invalid end_sequence_no".to_string(),
                    ),
                );
            },
        };
        let entry_count = match parse_count(r.entry_count) {
            Some(n) => n,
            None => {
                return Err(
                    SupabaseRpcError::InvalidResponse(
                        "digest list RPC returned negative entry_count".to_string(),
                    ),
                );
            },
        };
        let signature_key_version = match parse_key_version(r.signature_key_version) {
            Some(v) => v,
            None => {
                return Err(
                    SupabaseRpcError::InvalidResponse(
                        "digest list RPC returned invalid signature_key_version".to_string(),
                    ),
                );
            },
        };
        Ok(
            MonthlyDigestSummary {
                target_year_month: r.target_year_month,
                start_sequence_no,
                end_sequence_no,
                entry_count,
                signature_key_version,
                digest_generated_at: r.digest_generated_at,
            },
        )
    }
}

/// The ledger range of a month.
#[derive(Debug, Clone, PartialEq, Eq)]
pub struct LedgerRangeForMonth {
    pub start_sequence_no: u64,
    pub end_sequence_no: u64,
    /// Hash of the month's first entry.
    pub start_entry_hash: Vec<u8>,
    /// Hash of the month's last entry.
    pub end_entry_hash: Vec<u8>,
    /// Number of entries (never 0).
    pub entry_count: u64,
}

/// One row of the ledger range RPC.
#[derive(Debug, Clone, PartialEq, Eq)]
pub struct LedgerRangeResponse {
    pub start_sequence_no: i64,
    pub end_sequence_no: i64,
    pub start_entry_hash: String,
    pub end_entry_hash: String,
    pub entry_count: i64,
}

pub open spec fn range_failure(r: LedgerRangeResponse) -> Option<Seq<char>> {
    if r.start_sequence_no < 1 {
        Some("ledger range RPC returned invalid start_sequence_no"@)
    } else if r.end_sequence_no < 1 {
        Some("ledger range RPC returned invalid end_sequence_no"@)
    } else if fixed_bytea_of_text(r.start_entry_hash@, LEDGER_HASH_LENGTH as nat) is None {
        Some("ledger range RPC returned invalid start_entry_hash"@)
    } else if fixed_bytea_of_text(r.end_entry_hash@, LEDGER_HASH_LENGTH as nat) is None {
        Some("ledger range RPC returned invalid end_entry_hash"@)
    } else if r.entry_count < 0 {
        Some("ledger range RPC returned negative entry_count"@)
    } else if r.entry_count == 0 {
        Some("ledger range RPC returned entry_count=0 but a row was present"@)
    } else {
        None
    }
}

impl LedgerRangeForMonth {
    /// Reads a row of the ledger range RPC; a present row must count at least one entry.
    pub fn try_from_response(r: LedgerRangeResponse) -> (range: Result<Self, SupabaseRpcError>)
        ensures
            match range_failure(r) {
                Some(message) => range matches Err(SupabaseRpcError::InvalidResponse(m)) && m@
                    == message,
                None => range matches Ok(g) && g.start_sequence_no == r.start_sequence_no
                    && g.end_sequence_no == r.end_sequence_no && Some(g.start_entry_hash@)
                    == fixed_bytea_of_text(r.start_entry_hash@, LEDGER_HASH_LENGTH as nat) && Some(
                    g.end_entry_hash@,
                ) == fixed_bytea_of_text(r.end_entry_hash@, LEDGER_HASH_LENGTH as nat)
                    && g.entry_count == r.entry_count && g.entry_count > 0,
            },
    {
        let start_sequence_no = match parse_sequence_no(r.start_sequence_no) {
            Some(n) => n,
            None => {
                return Err(
                    SupabaseRpcError::InvalidResponse(
                        "ledger range RPC returned invalid start_sequence_no".to_string(),
                    ),
                );
            },
        };
        let end_sequence_no = match parse_sequence_no(r.end_sequence_no) {
            Some(n) => n,
            None => {
                return Err(
                    SupabaseRpcError::InvalidResponse(
                        "ledger range RPC returned invalid end_sequence_no".to_string(),
                    ),
                );
            },
        };
        let start_entry_hash = match parse_fixed_bytea(r.start_entry_hash.as_str(), LEDGER_HASH_LENGTH) {
            Some(h) => h,
            None => {
                return Err(
                    SupabaseRpcError::InvalidResponse(
                        "ledger range RPC returned invalid start_entry_hash".to_string(),
                    ),
                );
            },
        };
        let end_entry_hash = match parse_fixed_bytea(r.end_entry_hash.as_str(), LEDGER_HASH_LENGTH) {
            Some(h) => h,
            None => {
                return Err(
                    SupabaseRpcError::InvalidResponse(
                        "ledger range RPC returned invalid end_entry_hash".to_string(),
                    ),
                );
            },
        };
        let entry_count = match parse_count(r.entry_count) {
            Some(n) => n,
            None => {
                return Err(
                    SupabaseRpcError::InvalidResponse(
                        "ledger range RPC returned negative entry_count".to_string(),
                    ),
                );
            },
        };
        if entry_count == 0 {
            return Err(
                SupabaseRpcError::InvalidResponse(
                    "ledger range RPC returned entry_count=0 but a row was present".to_string(),
                ),
            );
        }
        Ok(LedgerRangeForMonth { start_sequence_no, end_sequence_no, start_entry_hash, end_entry_hash, entry_count })
    }
}

/// Why a digest RPC was refused.
#[derive(Debug, Clone, Copy, PartialEq, Eq, Structural)]
pub enum DigestRpcError {
    InvalidRpcInput,
    DuplicateDigest,
    FetchFailed,
}

impl DigestRpcError {
    pub fn as_error_code(self) -> (code: &'static str)
        ensures
            code@ == match self {
                DigestRpcError::InvalidRpcInput => "monthly_digest_invalid_rpc_input"@,
                DigestRpcError::DuplicateDigest => "monthly_digest_already_exists"@,
                DigestRpcError::FetchFailed => "monthly_digest_fetch_failed"@,
            },
    {
        match self {
            DigestRpcError::InvalidRpcInput => "monthly_digest_invalid_rpc_input",
            DigestRpcError::DuplicateDigest => "monthly_digest_already_exists",
            DigestRpcError::FetchFailed => "monthly_digest_fetch_failed",
        }
    }
}

pub open spec fn digest_rpc_error_of(error: SupabaseRpcError) -> DigestRpcError {
    match error {
        SupabaseRpcError::NonSuccessStatus { body, .. } => {
            if response_names_marker(body@, "monthly_digest_already_exists"@) {
                DigestRpcError::DuplicateDigest
            } else if response_names_marker(body@, "invalid_rpc_input"@) || response_names_marker(
                body@,
                "invalid_year_month_format"@,
            ) {
                DigestRpcError::InvalidRpcInput
            } else {
                DigestRpcError::FetchFailed
            }
        },
        _ => DigestRpcError::FetchFailed,
    }
}

pub fn classify_digest_rpc_error(error: &SupabaseRpcError) -> (classified: DigestRpcError)
    ensures
        classified == digest_rpc_error_of(*error),
{
    let body = match error {
        SupabaseRpcError::NonSuccessStatus { body, .. } => body.as_str(),
        _ => {
            return DigestRpcError::FetchFailed;
        },
    };
    if response_contains_marker(body, "monthly_digest_already_exists") {
        DigestRpcError::DuplicateDigest
    } else if response_contains_marker(body, "invalid_rpc_input") || response_contains_marker(
        body,
        "invalid_year_month_format",
    ) {
        DigestRpcError::InvalidRpcInput
    } else {
        DigestRpcError::FetchFailed
    }
}

} // verus!
