use vstd::prelude::*;

use super::{
    LEDGER_HASH_LENGTH, LEDGER_PUBLIC_KEY_LENGTH, LEDGER_SIGNATURE_LENGTH, SupabaseRpcError,
    bytea_bytes_of_text, fixed_bytea_of_text, parse_count, parse_fixed_bytea, parse_sequence_no,
    response_contains_marker, response_names_marker,
};
use crate::encoding::{bytea_marker, decode_bytea_hex};
use crate::ledger::{MonthlyDigestPeriod, is_period_text, period_of_text};
use crate::siem::otlp::{parse_rfc3339, rfc3339_instant};
use crate::text::{has_prefix, starts_with};

verus! {

/// Everything digest verification needs, fetched in one RPC.
#[derive(Debug, Clone, PartialEq, Eq)]
pub struct MonthlyDigestVerificationMaterials {
    pub start_sequence_no: u64,
    pub end_sequence_no: u64,
    pub stored_entry_count: u64,
    /// The stored digest hash: 64 lower-case hex digits, no `\x` marker.
    pub stored_digest_hash: String,
    pub target_year_month: MonthlyDigestPeriod,
    pub digest_generated_at: String,
    pub signature: Vec<u8>,
    pub signature_key_version: u32,
    /// The signing public key, `None` when none is registered for the version.
    pub public_key: Option<Vec<u8>>,
    pub start_entry_hash: Vec<u8>,
    pub end_entry_hash: Vec<u8>,
}

/// One row of the digest verification RPC.
#[derive(Debug, Clone, PartialEq, Eq)]
pub struct DigestForVerificationResponse {
    pub start_sequence_no: i64,
    pub end_sequence_no: i64,
    pub stored_entry_count: i64,
    pub stored_digest_hash: String,
    pub target_year_month: String,
    pub digest_generated_at: String,
    pub signature: String,
    pub signature_key_version: i32,
    pub public_key: Option<String>,
    pub start_entry_hash: String,
    pub end_entry_hash: String,
}

/// Why a registered public key is unusable, if it is.
pub open spec fn public_key_failure(public_key: Option<String>) -> Option<Seq<char>> {
    match public_key {
        None => None,
        Some(text) => public_key_text_failure(text@),
    }
}

pub open spec fn public_key_text_failure(text: Seq<char>) -> Option<Seq<char>> {
    if !has_prefix(text, bytea_marker()) {
        Some("digest verification RPC returned public_key without \\x prefix"@)
    } else if bytea_bytes_of_text(text) is None {
        Some("digest verification RPC returned invalid public_key hex"@)
    } else if bytea_bytes_of_text(text).unwrap().len() != LEDGER_PUBLIC_KEY_LENGTH {
        Some("digest verification RPC returned invalid Ed25519 public_key"@)
    } else {
        None
    }
}

/// The first malformed field of a verification row, in reading order. The
/// generation time must be RFC 3339 text.
pub open spec fn materials_failure(r: DigestForVerificationResponse) -> Option<Seq<char>> {
    if r.start_sequence_no < 1 {
        Some("digest verification RPC returned invalid start_sequence_no"@)
    } else if r.end_sequence_no < 1 {
        Some("digest verification RPC returned invalid end_sequence_no"@)
    } else if r.stored_entry_count < 0 {
        Some("digest verification RPC returned negative stored_entry_count"@)
    } else if r.stored_entry_count == 0 {
        Some("digest verification RPC returned stored_entry_count=0"@)
    } else if !is_period_text(r.target_year_month@) {
        Some("digest verification RPC returned invalid target_year_month"@)
    } else if rfc3339_instant(r.digest_generated_at@) is None {
        Some("digest verification RPC returned invalid digest_generated_at"@)
    } else if fixed_bytea_of_text(r.signature@, LEDGER_SIGNATURE_LENGTH as nat) is None {
        Some("digest verification RPC returned invalid signature"@)
    } else if r.signature_key_version == 0 {
        Some("digest verification RPC returned invalid signature_key_version"@)
    } else if public_key_failure(r.public_key) is Some {
        public_key_failure(r.public_key)
    } else if fixed_bytea_of_text(r.start_entry_hash@, LEDGER_HASH_LENGTH as nat) is None {
        Some("digest verification RPC returned invalid start_entry_hash"@)
    } else if fixed_bytea_of_text(r.end_entry_hash@, LEDGER_HASH_LENGTH as nat) is None {
        Some("digest verification RPC returned invalid end_entry_hash"@)
    } else {
        None
    }
}

fn invalid(message: &str) -> (error: SupabaseRpcError)
    ensures
        error matches SupabaseRpcError::InvalidResponse(m) && m@ == message@,
{
    SupabaseRpcError::InvalidResponse(message.to_string())
}

fn decode_public_key(text: &str) -> (key: Result<Vec<u8>, SupabaseRpcError>)
    ensures
        match public_key_text_failure(text@) {
            Some(message) => key matches Err(SupabaseRpcError::InvalidResponse(m)) && m@ == message,
            None => key matches Ok(k) && Some(k@) == bytea_bytes_of_text(text@),
        },
{
    proof {
        reveal_strlit("\\x");
        assert("\\x"@ =~= bytea_marker());
    }
    if !starts_with(text, "\\x") {
        return Err(invalid("digest verification RPC returned public_key without \\x prefix"));
    }
    match decode_bytea_hex(text) {
        None => Err(invalid("digest verification RPC returned invalid public_key hex")),
        Some(bytes) => if bytes.len() != LEDGER_PUBLIC_KEY_LENGTH {
            Err(invalid("digest verification RPC returned invalid Ed25519 public_key"))
        } else {
            Ok(bytes)
        },
    }
}

impl MonthlyDigestVerificationMaterials {
    /// Reads a verification row; the first malformed field is reported.
    pub fn try_from_response(r: DigestForVerificationResponse) -> (materials: Result<Self, SupabaseRpcError>)
        ensures
            match materials_failure(r) {
                Some(message) => materials matches Err(SupabaseRpcError::InvalidResponse(m)) && m@
                    == message,
                None => materials matches Ok(m) && m.start_sequence_no == r.start_sequence_no
                    && m.end_sequence_no == r.end_sequence_no && m.stored_entry_count
                    == r.stored_entry_count && m.stored_digest_hash@ == r.stored_digest_hash@
                    && m.target_year_month == period_of_text(r.target_year_month@)
                    && m.digest_generated_at@ == r.digest_generated_at@ && Some(m.signature@)
                    == fixed_bytea_of_text(r.signature@, LEDGER_SIGNATURE_LENGTH as nat)
                    && m.signature_key_version == r.signature_key_version as u32 && (match r.public_key {
                    None => m.public_key is None,
                    Some(text) => m.public_key matches Some(k) && Some(k@) == bytea_bytes_of_text(
                        text@,
                    ),
                }) && Some(m.start_entry_hash@) == fixed_bytea_of_text(
                    r.start_entry_hash@,
                    LEDGER_HASH_LENGTH as nat,
                ) && Some(m.end_entry_hash@) == fixed_bytea_of_text(
                    r.end_entry_hash@,
                    LEDGER_HASH_LENGTH as nat,
                ),
            },
    {
        let start_sequence_no = match parse_sequence_no(r.start_sequence_no) {
            Some(n) => n,
            None => {
                return Err(invalid("digest verification RPC returned invalid start_sequence_no"));
            },
        };
        let end_sequence_no = match parse_sequence_no(r.end_sequence_no) {
            Some(n) => n,
            None => {
                return Err(invalid("digest verification RPC returned invalid end_sequence_no"));
            },
        };
        let stored_entry_count = match parse_count(r.stored_entry_count) {
            Some(n) => n,
            None => {
                return Err(invalid("digest verification RPC returned negative stored_entry_count"));
            },
        };
        if stored_entry_count == 0 {
            return Err(invalid("digest verification RPC returned stored_entry_count=0"));
        }
        let target_year_month = match MonthlyDigestPeriod::parse(r.target_year_month.as_str()) {
            Ok(p) => p,
            Err(_) => {
                return Err(invalid("digest verification RPC returned invalid target_year_month"));
            },
        };
        if parse_rfc3339(r.digest_generated_at.as_str()).is_none() {
            return Err(invalid("digest verification RPC returned invalid digest_generated_at"));
        }
        let signature = match parse_fixed_bytea(r.signature.as_str(), LEDGER_SIGNATURE_LENGTH) {
            Some(s) => s,
            None => {
                return Err(invalid("digest verification RPC returned invalid signature"));
            },
        };
        let raw_key_version: i32 = r.signature_key_version;
        assert((raw_key_version as u32 == 0) <==> (raw_key_version == 0)) by (bit_vector);
        let signature_key_version = raw_key_version as u32;
        if signature_key_version == 0 {
            return Err(invalid("digest verification RPC returned invalid signature_key_version"));
        }
        let public_key = match &r.public_key {
            None => None,
            Some(text) => {
                match decode_public_key(text.as_str()) {
                    Ok(k) => Some(k),
                    Err(e) => {
                        return Err(e);
                    },
                }
            },
        };
        let start_entry_hash = match parse_fixed_bytea(r.start_entry_hash.as_str(), LEDGER_HASH_LENGTH) {
            Some(h) => h,
            None => {
                return Err(invalid("digest verification RPC returned invalid start_entry_hash"));
            },
        };
        let end_entry_hash = match parse_fixed_bytea(r.end_entry_hash.as_str(), LEDGER_HASH_LENGTH) {
            Some(h) => h,
            None => {
                return Err(invalid("digest verification RPC returned invalid end_entry_hash"));
            },
        };
        Ok(
            MonthlyDigestVerificationMaterials {
                start_sequence_no,
                end_sequence_no,
                stored_entry_count,
                stored_digest_hash: r.stored_digest_hash,
                target_year_month,
                digest_generated_at: r.digest_generated_at,
                signature,
                signature_key_version,
                public_key,
                start_entry_hash,
                end_entry_hash,
            },
        )
    }
}

/// Why the digest verification RPC was refused.
#[derive(Debug, Clone, Copy, PartialEq, Eq, Structural)]
pub enum VerifyDigestRpcError {
    InvalidRpcInput,
    FetchFailed,
}

impl VerifyDigestRpcError {
    pub fn as_error_code(self) -> (code: &'static str)
        ensures
            code@ == match self {
                VerifyDigestRpcError::InvalidRpcInput => "monthly_digest_verify_invalid_rpc_input"@,
                VerifyDigestRpcError::FetchFailed => "monthly_digest_verify_fetch_failed"@,
            },
    {
        match self {
            VerifyDigestRpcError::InvalidRpcInput => "monthly_digest_verify_invalid_rpc_input",
            VerifyDigestRpcError::FetchFailed => "monthly_digest_verify_fetch_failed",
        }
    }
}

pub fn classify_verify_digest_rpc_error(error: &SupabaseRpcError) -> (classified: VerifyDigestRpcError)
    ensures
        classified == (if error matches SupabaseRpcError::NonSuccessStatus { body, .. }
            && response_names_marker(body@, "invalid_rpc_input"@) {
            VerifyDigestRpcError::InvalidRpcInput
        } else {
            VerifyDigestRpcError::FetchFailed
        }),
{
    match error {
        SupabaseRpcError::NonSuccessStatus { body, .. } => {
            if response_contains_marker(body.as_str(), "invalid_rpc_input") {
                VerifyDigestRpcError::InvalidRpcInput
            } else {
                VerifyDigestRpcError::FetchFailed
            }
        },
        _ => VerifyDigestRpcError::FetchFailed,
    }
}

} // verus!
