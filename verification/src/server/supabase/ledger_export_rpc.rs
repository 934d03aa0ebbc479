use vstd::prelude::*;
use vstd::string::*;

use super::{
    LEDGER_HASH_LENGTH, LEDGER_PUBLIC_KEY_LENGTH, LEDGER_SIGNATURE_LENGTH, SupabaseRpcError,
    bytea_bytes_of_text, fixed_bytea_of_text, parse_fixed_bytea, parse_sequence_no,
    response_contains_marker, response_names_marker,
};
use crate::encoding::decode_bytea_hex;
use crate::text::str_eq;

verus! {

/// `serde_json::Value`, declared as an opaque type: a ledger entry's JSON
/// payload is carried through without being read.
#[verifier::external_type_specification]
#[verifier::external_body]
pub struct ExJsonValue(serde_json::Value);

/// One exported ledger entry with what verifying it needs: the entry's
/// fields, its hashes and signature, and the signing public key registered
/// for its key version, if any.
#[derive(Debug)]
pub struct LedgerVerificationMaterialRow {
    pub ledger_entry_id: String,
    pub sequence_no: u64,
    pub entry_hash: Vec<u8>,
    pub previous_entry_hash: Vec<u8>,
    pub signature: Vec<u8>,
    pub signature_key_version: u32,
    pub entry_type: String,
    pub source_event_at: String,
    pub request_id: String,
    pub source_event_id: Option<String>,
    pub target_secret_id: Option<String>,
    pub target_secret_version_id: Option<String>,
    pub actor_user_id: Option<String>,
    pub actor_device_id: Option<String>,
    pub result: String,
    pub error_code: Option<String>,
    pub payload: serde_json::Value,
    pub canonicalization_version: i32,
    pub hash_algorithm: String,
    pub signature_algorithm: String,
    pub pk_key_version: Option<i32>,
    pub pk_public_key: Option<String>,
    pub pk_algorithm: Option<String>,
    pub pk_status: Option<String>,
}

/// One row of the ledger export RPC, every column as the database sent it.
#[derive(Debug)]
pub struct LedgerVerificationMaterialResponse {
    pub ledger_entry_id: String,
    pub sequence_no: i64,
    pub entry_hash: Option<String>,
    pub previous_entry_hash: Option<String>,
    pub signature: Option<String>,
    pub signature_key_version: Option<i32>,
    pub entry_type: Option<String>,
    pub source_event_at: Option<String>,
    pub request_id: Option<String>,
    pub source_event_id: Option<String>,
    pub target_secret_id: Option<String>,
    pub target_secret_version_id: Option<String>,
    pub actor_user_id: Option<String>,
    pub actor_device_id: Option<String>,
    pub result: Option<String>,
    pub error_code: Option<String>,
    pub payload: Option<serde_json::Value>,
    pub canonicalization_version: Option<i32>,
    pub hash_algorithm: Option<String>,
    pub signature_algorithm: Option<String>,
    pub pk_key_version: Option<i32>,
    pub pk_public_key: Option<String>,
    pub pk_algorithm: Option<String>,
    pub pk_status: Option<String>,
}

pub open spec fn prefixed(what: Seq<char>) -> Seq<char> {
    "export ledger verification materials RPC returned "@ + what
}

/// Why a fixed-length binary column is unusable: missing or malformed.
pub open spec fn binary_column_failure(column: Option<String>, len: nat, name: Seq<char>) -> Option<
    Seq<char>,
> {
    match column {
        None => Some(prefixed("null "@ + name)),
        Some(text) => if fixed_bytea_of_text(text@, len) is None {
            Some(prefixed("invalid "@ + name))
        } else {
            None
        },
    }
}

/// The first malformed column of an export row, in reading order.
pub open spec fn material_failure(r: LedgerVerificationMaterialResponse) -> Option<Seq<char>> {
    if r.sequence_no < 1 {
        Some(prefixed("invalid sequence_no"@))
    } else if binary_column_failure(r.entry_hash, LEDGER_HASH_LENGTH as nat, "entry_hash"@) is Some {
        binary_column_failure(r.entry_hash, LEDGER_HASH_LENGTH as nat, "entry_hash"@)
    } else if binary_column_failure(
        r.previous_entry_hash,
        LEDGER_HASH_LENGTH as nat,
        "previous_entry_hash"@,
    ) is Some {
        binary_column_failure(r.previous_entry_hash, LEDGER_HASH_LENGTH as nat, "previous_entry_hash"@)
    } else if binary_column_failure(r.signature, LEDGER_SIGNATURE_LENGTH as nat, "signature"@) is Some {
        binary_column_failure(r.signature, LEDGER_SIGNATURE_LENGTH as nat, "signature"@)
    } else if r.signature_key_version is None {
        Some(prefixed("null signature_key_version"@))
    } else if r.signature_key_version.unwrap() == 0 {
        Some(prefixed("invalid signature_key_version"@))
    } else if r.entry_type is None {
        Some(prefixed("null entry_type"@))
    } else if r.source_event_at is None {
        Some(prefixed("null source_event_at"@))
    } else if r.request_id is None {
        Some(prefixed("null request_id"@))
    } else if r.result is None {
        Some(prefixed("null result"@))
    } else if r.payload is None {
        Some(prefixed("null payload"@))
    } else if r.canonicalization_version is None {
        Some(prefixed("null canonicalization_version"@))
    } else if r.hash_algorithm is None {
        Some(prefixed("null hash_algorithm"@))
    } else if r.signature_algorithm is None {
        Some(prefixed("null signature_algorithm"@))
    } else if r.pk_public_key is Some && r.pk_key_version is None {
        Some(prefixed("pk_public_key without pk_key_version"@))
    } else {
        None
    }
}

fn invalid(message: &str) -> (error: SupabaseRpcError)
    ensures
        error matches SupabaseRpcError::InvalidResponse(m) && m@ == message@,
{
    SupabaseRpcError::InvalidResponse(message.to_string())
}

fn binary_column(
    column: &Option<String>,
    len: usize,
    null_message: &str,
    invalid_message: &str,
) -> (bytes: Result<Vec<u8>, SupabaseRpcError>)
    ensures
        match *column {
            None => bytes matches Err(SupabaseRpcError::InvalidResponse(m)) && m@ == null_message@,
            Some(text) => match fixed_bytea_of_text(text@, len as nat) {
                None => bytes matches Err(SupabaseRpcError::InvalidResponse(m)) && m@
                    == invalid_message@,
                Some(b) => bytes matches Ok(v) && v@ == b,
            },
        },
{
    match column {
        None => Err(invalid(null_message)),
        Some(text) => match parse_fixed_bytea(text.as_str(), len) {
            Some(bytes) => Ok(bytes),
            None => Err(invalid(invalid_message)),
        },
    }
}

/// Why a verifying key could not be restored from an export row.
#[derive(Debug, Clone, Copy, PartialEq, Eq, Structural)]
pub enum LedgerKeyRestoreError {
    /// The key's algorithm or status is missing or not accepted, or its bytes
    /// are not a 32-byte key.
    InvalidVerificationKey,
    /// The key's version is not a valid version number.
    InvalidSignatureKeyVersion,
    /// The key belongs to another version than the entry's signature.
    SignatureKeyVersionMismatch { expected: u32, actual: u32 },
}

/// A restored verifying key: its version and its public key bytes.
#[derive(Debug, Clone, PartialEq, Eq)]
pub struct RestoredVerifyingKey {
    pub key_version: u32,
    pub public_key: Vec<u8>,
}

/// What restoring a row's verifying key gives: no key when the row carries
/// none; an error when the key is there but unusable (fail closed).
pub open spec fn key_restore_of(row: LedgerVerificationMaterialRow) -> Result<
    Option<(u32, Seq<u8>)>,
    LedgerKeyRestoreError,
> {
    if row.pk_key_version is None || row.pk_public_key is None {
        Ok(None)
    } else if row.pk_algorithm is None || row.pk_status is None {
        Err(LedgerKeyRestoreError::InvalidVerificationKey)
    } else if row.pk_algorithm.unwrap()@ != "ed25519"@ {
        Err(LedgerKeyRestoreError::InvalidVerificationKey)
    } else if row.pk_status.unwrap()@ != "active"@ && row.pk_status.unwrap()@ != "retired"@ {
        Err(LedgerKeyRestoreError::InvalidVerificationKey)
    } else if row.pk_key_version.unwrap() as u32 == 0 {
        Err(LedgerKeyRestoreError::InvalidSignatureKeyVersion)
    } else if row.pk_key_version.unwrap() as u32 != row.signature_key_version {
        Err(
            LedgerKeyRestoreError::SignatureKeyVersionMismatch {
                expected: row.signature_key_version,
                actual: row.pk_key_version.unwrap() as u32,
            },
        )
    } else if bytea_bytes_of_text(row.pk_public_key.unwrap()@) is None {
        Err(LedgerKeyRestoreError::InvalidVerificationKey)
    } else if bytea_bytes_of_text(row.pk_public_key.unwrap()@).unwrap().len() != LEDGER_PUBLIC_KEY_LENGTH {
        Err(LedgerKeyRestoreError::InvalidVerificationKey)
    } else {
        Ok(Some((row.pk_key_version.unwrap() as u32, bytea_bytes_of_text(row.pk_public_key.unwrap()@).unwrap())))
    }
}

impl LedgerVerificationMaterialRow {
    /// Reads an export row: every required column must be present, hashes and
    /// the signature well formed, the key version valid, and a public key
    /// must come with its version. The first malformed column is reported.
    pub fn try_from_response(r: LedgerVerificationMaterialResponse) -> (row: Result<Self, SupabaseRpcError>)
        ensures
            match material_failure(r) {
                Some(message) => row matches Err(SupabaseRpcError::InvalidResponse(m)) && m@
                    == message,
                None => row matches Ok(w) && w.ledger_entry_id@ == r.ledger_entry_id@
                    && w.sequence_no == r.sequence_no && Some(w.entry_hash@) == fixed_bytea_of_text(
                    r.entry_hash.unwrap()@,
                    LEDGER_HASH_LENGTH as nat,
                ) && Some(w.previous_entry_hash@) == fixed_bytea_of_text(
                    r.previous_entry_hash.unwrap()@,
                    LEDGER_HASH_LENGTH as nat,
                ) && Some(w.signature@) == fixed_bytea_of_text(
                    r.signature.unwrap()@,
                    LEDGER_SIGNATURE_LENGTH as nat,
                ) && w.signature_key_version == r.signature_key_version.unwrap() as u32
                    && w.entry_type == r.entry_type.unwrap() && w.source_event_at
                    == r.source_event_at.unwrap() && w.request_id == r.request_id.unwrap()
                    && w.source_event_id == r.source_event_id && w.target_secret_id
                    == r.target_secret_id && w.target_secret_version_id
                    == r.target_secret_version_id && w.actor_user_id == r.actor_user_id
                    && w.actor_device_id == r.actor_device_id && w.result == r.result.unwrap()
                    && w.error_code == r.error_code && w.payload == r.payload.unwrap()
                    && w.canonicalization_version == r.canonicalization_version.unwrap()
                    && w.hash_algorithm == r.hash_algorithm.unwrap() && w.signature_algorithm
                    == r.signature_algorithm.unwrap() && w.pk_key_version == r.pk_key_version
                    && w.pk_public_key == r.pk_public_key && w.pk_algorithm == r.pk_algorithm
                    && w.pk_status == r.pk_status,
            },
    {
        proof {
            reveal_strlit("export ledger verification materials RPC returned ");
            reveal_strlit("null ");
            reveal_strlit("invalid ");
            reveal_strlit("entry_hash");
            reveal_strlit("previous_entry_hash");
            reveal_strlit("signature");
            reveal_strlit("export ledger verification materials RPC returned null entry_hash");
            reveal_strlit("export ledger verification materials RPC returned invalid entry_hash");
            reveal_strlit("export ledger verification materials RPC returned null previous_entry_hash");
            reveal_strlit("export ledger verification materials RPC returned invalid previous_entry_hash");
            reveal_strlit("export ledger verification materials RPC returned null signature");
            reveal_strlit("export ledger verification materials RPC returned invalid signature");
            reveal_strlit("invalid sequence_no");
            reveal_strlit("export ledger verification materials RPC returned invalid sequence_no");
            reveal_strlit("null signature_key_version");
            reveal_strlit("export ledger verification materials RPC returned null signature_key_version");
            reveal_strlit("invalid signature_key_version");
            reveal_strlit("export ledger verification materials RPC returned invalid signature_key_version");
            reveal_strlit("null entry_type");
            reveal_strlit("export ledger verification materials RPC returned null entry_type");
            reveal_strlit("null source_event_at");
            reveal_strlit("export ledger verification materials RPC returned null source_event_at");
            reveal_strlit("null request_id");
            reveal_strlit("export ledger verification materials RPC returned null request_id");
            reveal_strlit("null result");
            reveal_strlit("export ledger verification materials RPC returned null result");
            reveal_strlit("null payload");
            reveal_strlit("export ledger verification materials RPC returned null payload");
            reveal_strlit("null canonicalization_version");
            reveal_strlit("export ledger verification materials RPC returned null canonicalization_version");
            reveal_strlit("null hash_algorithm");
            reveal_strlit("export ledger verification materials RPC returned null hash_algorithm");
            reveal_strlit("null signature_algorithm");
            reveal_strlit("export ledger verification materials RPC returned null signature_algorithm");
            reveal_strlit("pk_public_key without pk_key_version");
            reveal_strlit("export ledger verification materials RPC returned pk_public_key without pk_key_version");
        }
        let sequence_no = match parse_sequence_no(r.sequence_no) {
            Some(n) => n,
            None => {
                return Err(invalid("export ledger verification materials RPC returned invalid sequence_no"));
            },
        };
        let entry_hash = match binary_column(
            &r.entry_hash,
            LEDGER_HASH_LENGTH,
            "export ledger verification materials RPC returned null entry_hash",
            "export ledger verification materials RPC returned invalid entry_hash",
        ) {
            Ok(b) => b,
            Err(e) => {
                return Err(e);
            },
        };
        let previous_entry_hash = match binary_column(
            &r.previous_entry_hash,
            LEDGER_HASH_LENGTH,
            "export ledger verification materials RPC returned null previous_entry_hash",
            "export ledger verification materials RPC returned invalid previous_entry_hash",
        ) {
            Ok(b) => b,
            Err(e) => {
                return Err(e);
            },
        };
        let signature = match binary_column(
            &r.signature,
            LEDGER_SIGNATURE_LENGTH,
            "export ledger verification materials RPC returned null signature",
            "export ledger verification materials RPC returned invalid signature",
        ) {
            Ok(b) => b,
            Err(e) => {
                return Err(e);
            },
        };
        let signature_key_version: u32 = match r.signature_key_version {
            None => {
                return Err(invalid("export ledger verification materials RPC returned null signature_key_version"));
            },
            Some(raw) => {
                assert((raw as u32 == 0) <==> (raw == 0)) by (bit_vector);
                let version = raw as u32;
                if version == 0 {
                    return Err(invalid("export ledger verification materials RPC returned invalid signature_key_version"));
                }
                version
            },
        };
        let entry_type = match r.entry_type {
            Some(v) => v,
            None => {
                return Err(invalid("export ledger verification materials RPC returned null entry_type"));
            },
        };
        let source_event_at = match r.source_event_at {
            Some(v) => v,
            None => {
                return Err(invalid("export ledger verification materials RPC returned null source_event_at"));
            },
        };
        let request_id = match r.request_id {
            Some(v) => v,
            None => {
                return Err(invalid("export ledger verification materials RPC returned null request_id"));
            },
        };
        let result = match r.result {
            Some(v) => v,
            None => {
                return Err(invalid("export ledger verification materials RPC returned null result"));
            },
        };
        let payload = match r.payload {
            Some(v) => v,
            None => {
                return Err(invalid("export ledger verification materials RPC returned null payload"));
            },
        };
        let canonicalization_version = match r.canonicalization_version {
            Some(v) => v,
            None => {
                return Err(invalid("export ledger verification materials RPC returned null canonicalization_version"));
            },
        };
        let hash_algorithm = match r.hash_algorithm {
            Some(v) => v,
            None => {
                return Err(invalid("export ledger verification materials RPC returned null hash_algorithm"));
            },
        };
        let signature_algorithm = match r.signature_algorithm {
            Some(v) => v,
            None => {
                return Err(invalid("export ledger verification materials RPC returned null signature_algorithm"));
            },
        };
        if r.pk_public_key.is_some() && r.pk_key_version.is_none() {
            return Err(invalid("export ledger verification materials RPC returned pk_public_key without pk_key_version"));
        }
        Ok(
            LedgerVerificationMaterialRow {
                ledger_entry_id: r.ledger_entry_id,
                sequence_no,
                entry_hash,
                previous_entry_hash,
                signature,
                signature_key_version,
                entry_type,
                source_event_at,
                request_id,
                source_event_id: r.source_event_id,
                target_secret_id: r.target_secret_id,
                target_secret_version_id: r.target_secret_version_id,
                actor_user_id: r.actor_user_id,
                actor_device_id: r.actor_device_id,
                result,
                error_code: r.error_code,
                payload,
                canonicalization_version,
                hash_algorithm,
                signature_algorithm,
                pk_key_version: r.pk_key_version,
                pk_public_key: r.pk_public_key,
                pk_algorithm: r.pk_algorithm,
                pk_status: r.pk_status,
            },
        )
    }

    /// Restores the row's verifying key (see `key_restore_of`); active and
    /// retired keys are both accepted.
    pub fn try_restore_verifying_key(&self) -> (key: Result<Option<RestoredVerifyingKey>, LedgerKeyRestoreError>)
        ensures
            match key_restore_of(*self) {
                Ok(None) => key matches Ok(None),
                Ok(Some((version, bytes))) => key matches Ok(Some(k)) && k.key_version == version
                    && k.public_key@ == bytes,
                Err(e) => key == Err::<Option<RestoredVerifyingKey>, LedgerKeyRestoreError>(e),
            },
    {
        let pk_key_version = match self.pk_key_version {
            Some(v) => v,
            None => {
                return Ok(None);
            },
        };
        let pk_public_key = match &self.pk_public_key {
            Some(k) => k,
            None => {
                return Ok(None);
            },
        };
        let pk_algorithm = match &self.pk_algorithm {
            Some(a) => a,
            None => {
                return Err(LedgerKeyRestoreError::InvalidVerificationKey);
            },
        };
        let pk_status = match &self.pk_status {
            Some(s) => s,
            None => {
                return Err(LedgerKeyRestoreError::InvalidVerificationKey);
            },
        };
        if !str_eq(pk_algorithm.as_str(), "ed25519") {
            return Err(LedgerKeyRestoreError::InvalidVerificationKey);
        }
        if !str_eq(pk_status.as_str(), "active") && !str_eq(pk_status.as_str(), "retired") {
            return Err(LedgerKeyRestoreError::InvalidVerificationKey);
        }
        let key_version = pk_key_version as u32;
        if key_version == 0 {
            return Err(LedgerKeyRestoreError::InvalidSignatureKeyVersion);
        }
        if key_version != self.signature_key_version {
            return Err(
                LedgerKeyRestoreError::SignatureKeyVersionMismatch {
                    expected: self.signature_key_version,
                    actual: key_version,
                },
            );
        }
        let public_key = match decode_bytea_hex(pk_public_key.as_str()) {
            Some(bytes) => bytes,
            None => {
                return Err(LedgerKeyRestoreError::InvalidVerificationKey);
            },
        };
        if public_key.len() != LEDGER_PUBLIC_KEY_LENGTH {
            return Err(LedgerKeyRestoreError::InvalidVerificationKey);
        }
        Ok(Some(RestoredVerifyingKey { key_version, public_key }))
    }
}

/// Why the ledger export RPC was refused.
#[derive(Debug, Clone, Copy, PartialEq, Eq, Structural)]
pub enum ExportLedgerError {
    InvalidRpcInput,
    ExportFailed,
}

impl ExportLedgerError {
    pub fn as_error_code(self) -> (code: &'static str)
        ensures
            code@ == match self {
                ExportLedgerError::InvalidRpcInput => "ledger_export_invalid_rpc_input"@,
                ExportLedgerError::ExportFailed => "ledger_export_failed"@,
            },
    {
        match self {
            ExportLedgerError::InvalidRpcInput => "ledger_export_invalid_rpc_input",
            ExportLedgerError::ExportFailed => "ledger_export_failed",
        }
    }
}

pub fn classify_export_ledger_error(error: &SupabaseRpcError) -> (classified: ExportLedgerError)
    ensures
        classified == (if error matches SupabaseRpcError::NonSuccessStatus { body, .. }
            && response_names_marker(body@, "invalid_rpc_input"@) {
            ExportLedgerError::InvalidRpcInput
        } else {
            ExportLedgerError::ExportFailed
        }),
{
    match error {
        SupabaseRpcError::NonSuccessStatus { body, .. } => {
            if response_contains_marker(body.as_str(), "invalid_rpc_input") {
                ExportLedgerError::InvalidRpcInput
            } else {
                ExportLedgerError::ExportFailed
            }
        },
        _ => ExportLedgerError::ExportFailed,
    }
}

} // verus!
