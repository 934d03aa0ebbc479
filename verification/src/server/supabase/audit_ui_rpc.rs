use vstd::prelude::*;
use vstd::string::*;

use super::SupabaseRpcError;
use crate::encoding::bytea_marker;
use crate::text::{has_prefix, strip_prefix};

verus! {

/// A secret as the auditor UI lists it (no secret material).
#[derive(Debug, Clone, PartialEq, Eq)]
pub struct AuditUiSecretInventoryRow {
    pub secret_id: String,
    pub owner_user_id: String,
    pub classification: String,
    pub current_version_id: Option<String>,
    pub secret_created_at: String,
    pub secret_updated_at: String,
}

/// The state of a ledger chain as the auditor UI shows it.
#[derive(Debug, Clone, PartialEq, Eq)]
pub struct AuditUiIntegrityStatusRow {
    pub chain_id: String,
    pub last_sequence_no: i64,
    pub last_entry_hash: String,
    pub chain_state_updated_at: String,
}

/// A recorded verification failure.
#[derive(Debug, Clone, PartialEq, Eq)]
pub struct AuditUiVerificationFailureRow {
    pub code: String,
    pub occurred_at: String,
    pub sequence_no: Option<i64>,
    pub source: String,
}

/// Result of the database's hash chain verification over a range.
#[derive(Debug, Clone, PartialEq, Eq)]
pub struct AuditUiHashChainVerification {
    pub chain_valid: bool,
    pub entries_checked: u64,
    pub first_gap_sequence_no: Option<u64>,
    pub first_gap_detail: Option<String>,
    pub first_hash_mismatch_sequence_no: Option<u64>,
    pub first_hash_mismatch_detail: Option<String>,
    pub chain_head_sequence_no: Option<u64>,
    /// The chain head's entry hash as hex digits, without the `bytea` marker.
    pub chain_head_entry_hash: Option<String>,
}

/// One row of the hash chain verification RPC.
#[derive(Debug, Clone, PartialEq, Eq)]
pub struct AuditUiHashChainVerificationResponse {
    pub chain_valid: bool,
    pub entries_checked: i64,
    pub first_gap_sequence_no: Option<i64>,
    pub first_gap_detail: Option<String>,
    pub first_hash_mismatch_sequence_no: Option<i64>,
    pub first_hash_mismatch_detail: Option<String>,
    pub chain_head_sequence_no: Option<i64>,
    pub chain_head_entry_hash: Option<String>,
}

/// Filters and page of the audit event listing.
#[derive(Debug, Clone, PartialEq, Eq)]
pub struct AuditUiAuditEventsParams {
    pub p_limit: u32,
    pub p_offset: u32,
    pub p_period_start: Option<String>,
    pub p_period_end: Option<String>,
    pub p_action: Option<String>,
    pub p_result: Option<String>,
}

/// Filters and page of the ledger entry listing.
#[derive(Debug, Clone, PartialEq, Eq)]
pub struct AuditUiLedgerEntriesParams {
    pub p_limit: u32,
    pub p_offset: u32,
    pub p_start_sequence_no: Option<i64>,
    pub p_end_sequence_no: Option<i64>,
    pub p_entry_type: Option<String>,
    pub p_result: Option<String>,
}

/// Period and page of the verification failure listing.
#[derive(Debug, Clone, PartialEq, Eq)]
pub struct AuditUiVerificationFailuresParams {
    pub p_limit: u32,
    pub p_offset: u32,
    pub p_period_start: String,
    pub p_period_end: String,
}

/// A page of a listing.
#[derive(Debug, Clone, Copy, PartialEq, Eq, Structural)]
pub struct PageRpcParams {
    pub p_limit: u32,
    pub p_offset: u32,
}

impl PageRpcParams {
    pub fn new(limit: u32, offset: u32) -> (params: Self)
        ensures
            params.p_limit == limit,
            params.p_offset == offset,
    {
        PageRpcParams { p_limit: limit, p_offset: offset }
    }
}

/// A sequence number bound as the RPC takes it (a signed 64-bit number).
pub fn sequence_to_i64(value: Option<u64>) -> (converted: Result<Option<i64>, SupabaseRpcError>)
    ensures
        match value {
            None => converted == Ok::<Option<i64>, SupabaseRpcError>(None),
            Some(v) => if v <= i64::MAX {
                converted == Ok::<Option<i64>, SupabaseRpcError>(Some(v as i64))
            } else {
                converted matches Err(SupabaseRpcError::InvalidResponse(m)) && m@
                    == "sequence_no is outside i64 range"@
            },
        },
{
    match value {
        None => Ok(None),
        Some(v) => if v <= 9223372036854775807u64 {
            Ok(Some(v as i64))
        } else {
            Err(SupabaseRpcError::InvalidResponse("sequence_no is outside i64 range".to_string()))
        },
    }
}

/// A count or sequence number that the RPC returns and that must not be negative.
pub fn i64_to_u64(value: i64, field: &str) -> (converted: Result<u64, SupabaseRpcError>)
    ensures
        value >= 0 ==> converted == Ok::<u64, SupabaseRpcError>(value as u64),
        value < 0 ==> (converted matches Err(SupabaseRpcError::InvalidResponse(m)) && m@ == field@
            + " returned a negative value"@),
{
    if value >= 0 {
        Ok(value as u64)
    } else {
        let mut message = field.to_string();
        message.append(" returned a negative value");
        Err(SupabaseRpcError::InvalidResponse(message))
    }
}

pub fn optional_i64_to_u64(value: Option<i64>, field: &str) -> (converted: Result<
    Option<u64>,
    SupabaseRpcError,
>)
    ensures
        match value {
            None => converted == Ok::<Option<u64>, SupabaseRpcError>(None),
            Some(v) => if v >= 0 {
                converted == Ok::<Option<u64>, SupabaseRpcError>(Some(v as u64))
            } else {
                converted matches Err(SupabaseRpcError::InvalidResponse(m)) && m@ == field@
                    + " returned a negative value"@
            },
        },
{
    match value {
        None => Ok(None),
        Some(v) => match i64_to_u64(v, field) {
            Ok(u) => Ok(Some(u)),
            Err(e) => Err(e),
        },
    }
}

/// The text with a leading `bytea` marker removed, when it has one.
pub open spec fn without_bytea_marker(text: Seq<char>) -> Seq<char> {
    if has_prefix(text, bytea_marker()) {
        text.subrange(2, text.len() as int)
    } else {
        text
    }
}

pub fn strip_bytea_prefix(value: &str) -> (stripped: String)
    ensures
        stripped@ == without_bytea_marker(value@),
{
    proof {
        reveal_strlit("\\x");
        assert("\\x"@ =~= bytea_marker());
    }
    match strip_prefix(value, "\\x") {
        Some(rest) => rest,
        None => value.to_string(),
    }
}

pub open spec fn nonneg(v: Option<i64>) -> bool {
    v matches Some(x) ==> x >= 0
}

pub open spec fn to_u64_opt(v: Option<i64>) -> Option<u64> {
    match v {
        Some(x) => Some(x as u64),
        None => None,
    }
}

impl AuditUiHashChainVerification {
    /// Reads a verification row; counts and sequence numbers must not be
    /// negative (the first negative field is reported).
    pub fn try_from_response(row: AuditUiHashChainVerificationResponse) -> (verification: Result<
        Self,
        SupabaseRpcError,
    >)
        ensures
            (row.entries_checked >= 0 && nonneg(row.first_gap_sequence_no) && nonneg(
                row.first_hash_mismatch_sequence_no,
            ) && nonneg(row.chain_head_sequence_no)) ==> (verification matches Ok(v)
                && v.chain_valid == row.chain_valid && v.entries_checked == row.entries_checked
                && v.first_gap_sequence_no == to_u64_opt(row.first_gap_sequence_no)
                && v.first_gap_detail == row.first_gap_detail && v.first_hash_mismatch_sequence_no
                == to_u64_opt(row.first_hash_mismatch_sequence_no) && v.first_hash_mismatch_detail
                == row.first_hash_mismatch_detail && v.chain_head_sequence_no == to_u64_opt(
                row.chain_head_sequence_no,
            ) && (match row.chain_head_entry_hash {
                None => v.chain_head_entry_hash is None,
                Some(h) => v.chain_head_entry_hash matches Some(s) && s@ == without_bytea_marker(
                    h@,
                ),
            })),
            row.entries_checked < 0 ==> (verification matches Err(SupabaseRpcError::InvalidResponse(m))
                && m@ == "entries_checked returned a negative value"@),
            (row.entries_checked >= 0 && !nonneg(row.first_gap_sequence_no)) ==> (verification matches Err(
                SupabaseRpcError::InvalidResponse(m),
            ) && m@ == "first_gap_sequence_no returned a negative value"@),
            (row.entries_checked >= 0 && nonneg(row.first_gap_sequence_no) && !nonneg(
                row.first_hash_mismatch_sequence_no,
            )) ==> (verification matches Err(SupabaseRpcError::InvalidResponse(m)) && m@
                == "first_hash_mismatch_sequence_no returned a negative value"@),
            (row.entries_checked >= 0 && nonneg(row.first_gap_sequence_no) && nonneg(
                row.first_hash_mismatch_sequence_no,
            ) && !nonneg(row.chain_head_sequence_no)) ==> (verification matches Err(
                SupabaseRpcError::InvalidResponse(m),
            ) && m@ == "chain_head_sequence_no returned a negative value"@),
    {
        proof {
            reveal_strlit(" returned a negative value");
            reveal_strlit("entries_checked");
            reveal_strlit("entries_checked returned a negative value");
            reveal_strlit("first_gap_sequence_no");
            reveal_strlit("first_gap_sequence_no returned a negative value");
            reveal_strlit("first_hash_mismatch_sequence_no");
            reveal_strlit("first_hash_mismatch_sequence_no returned a negative value");
            reveal_strlit("chain_head_sequence_no");
            reveal_strlit("chain_head_sequence_no returned a negative value");
        }
        let entries_checked = match i64_to_u64(row.entries_checked, "entries_checked") {
            Ok(v) => v,
            Err(e) => {
                return Err(e);
            },
        };
        let first_gap_sequence_no = match optional_i64_to_u64(
            row.first_gap_sequence_no,
            "first_gap_sequence_no",
        ) {
            Ok(v) => v,
            Err(e) => {
                return Err(e);
            },
        };
        let first_hash_mismatch_sequence_no = match optional_i64_to_u64(
            row.first_hash_mismatch_sequence_no,
            "first_hash_mismatch_sequence_no",
        ) {
            Ok(v) => v,
            Err(e) => {
                return Err(e);
            },
        };
        let chain_head_sequence_no = match optional_i64_to_u64(
            row.chain_head_sequence_no,
            "chain_head_sequence_no",
        ) {
            Ok(v) => v,
            Err(e) => {
                return Err(e);
            },
        };
        let chain_head_entry_hash = match &row.chain_head_entry_hash {
            None => None,
            Some(hash) => Some(strip_bytea_prefix(hash.as_str())),
        };
        Ok(
            AuditUiHashChainVerification {
                chain_valid: row.chain_valid,
                entries_checked,
                first_gap_sequence_no,
                first_gap_detail: row.first_gap_detail,
                first_hash_mismatch_sequence_no,
                first_hash_mismatch_detail: row.first_hash_mismatch_detail,
                chain_head_sequence_no,
                chain_head_entry_hash,
            },
        )
    }
}

} // verus!
