use vstd::prelude::*;

use super::{
    LEDGER_PUBLIC_KEY_LENGTH, SupabaseRpcError, bytea_bytes_of_text, parse_key_version,
    response_contains_marker, response_names_marker,
};
use crate::encoding::{bytea_marker, decode_bytea_hex};
use crate::text::{has_prefix, starts_with, str_eq};

verus! {

/// A registered ledger signing public key and its lifecycle.
#[derive(Debug, Clone, PartialEq, Eq)]
pub struct LedgerSigningPublicKeyStatus {
    pub key_version: u32,
    /// The Ed25519 public key (32 bytes).
    pub public_key: Vec<u8>,
    pub public_key_fingerprint: String,
    pub algorithm: String,
    pub status: String,
    pub created_at: String,
    pub activated_at: Option<String>,
    pub retired_at: Option<String>,
}

/// One row of the public key status RPC.
#[derive(Debug, Clone, PartialEq, Eq)]
pub struct LedgerSigningPublicKeyStatusResponse {
    pub key_version: i32,
    pub public_key: String,
    pub public_key_fingerprint: String,
    pub algorithm: String,
    pub status: String,
    pub created_at: String,
    pub activated_at: Option<String>,
    pub retired_at: Option<String>,
}

/// The first malformed field of a public key status row.
pub open spec fn key_status_failure(r: LedgerSigningPublicKeyStatusResponse) -> Option<Seq<char>> {
    if r.key_version < 1 {
        Some("ledger signing public key status returned invalid key_version"@)
    } else if !has_prefix(r.public_key@, bytea_marker()) {
        Some("ledger signing public key status returned public_key without bytea prefix"@)
    } else if bytea_bytes_of_text(r.public_key@) is None {
        Some("ledger signing public key status returned invalid public_key hex"@)
    } else if bytea_bytes_of_text(r.public_key@).unwrap().len() != LEDGER_PUBLIC_KEY_LENGTH {
        Some("ledger signing public key status returned invalid public_key"@)
    } else if r.algorithm@ != "ed25519"@ {
        Some("ledger signing public key status returned invalid algorithm"@)
    } else {
        None
    }
}

fn invalid(message: &str) -> (error: SupabaseRpcError)
    ensures
        error matches SupabaseRpcError::InvalidResponse(m) && m@ == message@,
{
    SupabaseRpcError::InvalidResponse(message.to_string())
}

impl LedgerSigningPublicKeyStatus {
    /// Reads a public key status row: a positive key version, a 32-byte key in
    /// `bytea` hex, and the `ed25519` algorithm.
    pub fn try_from_response(r: LedgerSigningPublicKeyStatusResponse) -> (status: Result<Self, SupabaseRpcError>)
        ensures
            match key_status_failure(r) {
                Some(message) => status matches Err(SupabaseRpcError::InvalidResponse(m)) && m@
                    == message,
                None => status matches Ok(s) && s.key_version == r.key_version && Some(
                    s.public_key@,
                ) == bytea_bytes_of_text(r.public_key@) && s.public_key_fingerprint@
                    == r.public_key_fingerprint@ && s.algorithm@ == r.algorithm@ && s.status@
                    == r.status@ && s.created_at@ == r.created_at@ && s.activated_at
                    == r.activated_at && s.retired_at == r.retired_at,
            },
    {
        proof {
            reveal_strlit("\\x");
            assert("\\x"@ =~= bytea_marker());
        }
        let key_version = match parse_key_version(r.key_version) {
            Some(v) => v,
            None => {
                return Err(invalid("ledger signing public key status returned invalid key_version"));
            },
        };
        if !starts_with(r.public_key.as_str(), "\\x") {
            return Err(
                invalid("ledger signing public key status returned public_key without bytea prefix"),
            );
        }
        let public_key = match decode_bytea_hex(r.public_key.as_str()) {
            Some(bytes) => bytes,
            None => {
                return Err(invalid("ledger signing public key status returned invalid public_key hex"));
            },
        };
        if public_key.len() != LEDGER_PUBLIC_KEY_LENGTH {
            return Err(invalid("ledger signing public key status returned invalid public_key"));
        }
        if !str_eq(r.algorithm.as_str(), "ed25519") {
            return Err(invalid("ledger signing public key status returned invalid algorithm"));
        }
        Ok(
            LedgerSigningPublicKeyStatus {
                key_version,
                public_key,
                public_key_fingerprint: r.public_key_fingerprint,
                algorithm: r.algorithm,
                status: r.status,
                created_at: r.created_at,
                activated_at: r.activated_at,
                retired_at: r.retired_at,
            },
        )
    }
}

/// One row of the public key registration RPC (the fields the outcome reads).
#[derive(Debug, Clone, PartialEq, Eq)]
pub struct RegisterLedgerSigningPublicKeyResponse {
    pub out_key_version: i32,
    pub replayed: bool,
}

/// Result of registering a signing public key; `replayed` when the same key
/// was registered before.
#[derive(Debug, Clone, Copy, PartialEq, Eq, Structural)]
pub struct RegisterLedgerSigningPublicKeyOutcome {
    replayed: bool,
}

impl RegisterLedgerSigningPublicKeyOutcome {
    pub closed spec fn spec_replayed(self) -> bool {
        self.replayed
    }

    /// Reads a registration row: the returned key version must be positive.
    pub fn try_from_response(r: RegisterLedgerSigningPublicKeyResponse) -> (outcome: Result<Self, SupabaseRpcError>)
        ensures
            r.out_key_version > 0 ==> (outcome matches Ok(o) && o.spec_replayed() == r.replayed),
            r.out_key_version <= 0 ==> (outcome matches Err(SupabaseRpcError::InvalidResponse(m))
                && m@ == "register ledger signing public key RPC returned invalid out_key_version"@),
    {
        if r.out_key_version <= 0 {
            return Err(
                invalid("register ledger signing public key RPC returned invalid out_key_version"),
            );
        }
        Ok(RegisterLedgerSigningPublicKeyOutcome { replayed: r.replayed })
    }

    pub fn replayed(&self) -> (replayed: bool)
        ensures
            replayed == self.spec_replayed(),
    {
        self.replayed
    }
}

/// Why registering a signing public key was refused.
#[derive(Debug, Clone, Copy, PartialEq, Eq, Structural)]
pub enum RegisterPublicKeyError {
    Conflict,
    Retired,
    InvalidRpcInput,
    RegisterFailed,
}

impl RegisterPublicKeyError {
    pub fn as_error_code(self) -> (code: &'static str)
        ensures
            code@ == match self {
                RegisterPublicKeyError::Conflict => "ledger_signing_public_key_conflict"@,
                RegisterPublicKeyError::Retired => "ledger_signing_public_key_retired"@,
                RegisterPublicKeyError::InvalidRpcInput => "invalid_rpc_input"@,
                RegisterPublicKeyError::RegisterFailed => "ledger_public_key_register_failed"@,
            },
    {
        match self {
            RegisterPublicKeyError::Conflict => "ledger_signing_public_key_conflict",
            RegisterPublicKeyError::Retired => "ledger_signing_public_key_retired",
            RegisterPublicKeyError::InvalidRpcInput => "invalid_rpc_input",
            RegisterPublicKeyError::RegisterFailed => "ledger_public_key_register_failed",
        }
    }
}

pub open spec fn register_error_of(error: SupabaseRpcError) -> RegisterPublicKeyError {
    match error {
        SupabaseRpcError::NonSuccessStatus { body, .. } => {
            if response_names_marker(body@, "ledger_signing_public_key_conflict"@) {
                RegisterPublicKeyError::Conflict
            } else if response_names_marker(body@, "ledger_signing_public_key_retired"@) {
                RegisterPublicKeyError::Retired
            } else if response_names_marker(body@, "invalid_rpc_input"@) {
                RegisterPublicKeyError::InvalidRpcInput
            } else {
                RegisterPublicKeyError::RegisterFailed
            }
        },
        _ => RegisterPublicKeyError::RegisterFailed,
    }
}

pub fn classify_register_public_key_error(error: &SupabaseRpcError) -> (classified: RegisterPublicKeyError)
    ensures
        classified == register_error_of(*error),
{
    let body = match error {
        SupabaseRpcError::NonSuccessStatus { body, .. } => body.as_str(),
        _ => {
            return RegisterPublicKeyError::RegisterFailed;
        },
    };
    if response_contains_marker(body, "ledger_signing_public_key_conflict") {
        RegisterPublicKeyError::Conflict
    } else if response_contains_marker(body, "ledger_signing_public_key_retired") {
        RegisterPublicKeyError::Retired
    } else if response_contains_marker(body, "invalid_rpc_input") {
        RegisterPublicKeyError::InvalidRpcInput
    } else {
        RegisterPublicKeyError::RegisterFailed
    }
}

} // verus!
