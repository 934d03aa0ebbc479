use vstd::prelude::*;

use super::{SupabaseRpcError, response_contains_marker, response_names_marker};
use crate::encoding::decode_bytea_hex;
use crate::server::supabase::bytea_bytes_of_text;
use crate::text::has_prefix;
use crate::encoding::bytea_marker;

verus! {

/// Parameters of the alias delete RPC.
#[derive(Debug, Clone, PartialEq, Eq)]
pub struct DeleteSecretAliasParams {
    pub p_request_id: String,
    pub p_secret_alias_id: String,
    pub p_owner_user_id: String,
    pub p_source_event_at: String,
}

/// Parameters of the alias list RPC (one page).
#[derive(Debug, Clone, PartialEq, Eq)]
pub struct ListSecretAliasesParams {
    pub p_request_id: String,
    pub p_owner_user_id: String,
    pub p_limit: u32,
    pub p_offset: u32,
}

/// Why an alias RPC was refused.
#[derive(Debug, Clone, Copy, PartialEq, Eq, Structural)]
pub enum SecretAliasRpcError {
    AliasConflict,
    InvalidInput,
    OwnerMismatch,
    AliasNotFound,
    SecretNotFound,
    Failed,
}

/// The first marker, in a fixed order, that a refused alias RPC names.
pub open spec fn alias_rpc_error_of(error: SupabaseRpcError) -> SecretAliasRpcError {
    match error {
        SupabaseRpcError::NonSuccessStatus { body, .. } => {
            let b = body@;
            if response_names_marker(b, "alias_conflict"@) {
                SecretAliasRpcError::AliasConflict
            } else if response_names_marker(b, "invalid_rpc_input"@) {
                SecretAliasRpcError::InvalidInput
            } else if response_names_marker(b, "owner_mismatch"@) {
                SecretAliasRpcError::OwnerMismatch
            } else if response_names_marker(b, "alias_not_found"@) {
                SecretAliasRpcError::AliasNotFound
            } else if response_names_marker(b, "secret_not_found"@) {
                SecretAliasRpcError::SecretNotFound
            } else {
                SecretAliasRpcError::Failed
            }
        },
        _ => SecretAliasRpcError::Failed,
    }
}

pub fn classify_secret_alias_rpc_error(error: &SupabaseRpcError) -> (classified: SecretAliasRpcError)
    ensures
        classified == alias_rpc_error_of(*error),
{
    let body = match error {
        SupabaseRpcError::NonSuccessStatus { body, .. } => body.as_str(),
        _ => {
            return SecretAliasRpcError::Failed;
        },
    };
    if response_contains_marker(body, "alias_conflict") {
        SecretAliasRpcError::AliasConflict
    } else if response_contains_marker(body, "invalid_rpc_input") {
        SecretAliasRpcError::InvalidInput
    } else if response_contains_marker(body, "owner_mismatch") {
        SecretAliasRpcError::OwnerMismatch
    } else if response_contains_marker(body, "alias_not_found") {
        SecretAliasRpcError::AliasNotFound
    } else if response_contains_marker(body, "secret_not_found") {
        SecretAliasRpcError::SecretNotFound
    } else {
        SecretAliasRpcError::Failed
    }
}

/// Reads `bytea` hex text returned by an alias RPC.
pub fn decode_bytea(value: &str) -> (bytes: Result<Vec<u8>, SupabaseRpcError>)
    ensures
        match bytea_bytes_of_text(value@) {
            Some(b) => bytes matches Ok(v) && v@ == b,
            None => bytes matches Err(SupabaseRpcError::InvalidResponse(message)) && message@ == (
            if has_prefix(value@, bytea_marker()) {
                "bytea value is invalid"@
            } else {
                "bytea value is not hex encoded"@
            }),
        },
{
    match decode_bytea_hex(value) {
        Some(bytes) => Ok(bytes),
        None => {
            proof {
                reveal_strlit("\\x");
                assert("\\x"@ =~= bytea_marker());
            }
            if crate::text::starts_with(value, "\\x") {
                Err(SupabaseRpcError::InvalidResponse("bytea value is invalid".to_string()))
            } else {
                Err(SupabaseRpcError::InvalidResponse("bytea value is not hex encoded".to_string()))
            }
        },
    }
}

} // verus!
