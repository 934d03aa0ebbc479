pub mod alias_rpc;
pub mod audit_report_rpc;
pub mod audit_ui_rpc;
pub mod digest_rpc;
pub mod incident_rpc;
pub mod ledger_export_rpc;
pub mod ledger_public_key_rpc;
pub mod verify_digest_rpc;

use vstd::prelude::*;
use vstd::string::*;

use crate::audit::AuditAppendError;
use crate::encoding::{decode_bytea_hex, hex_decodable, hex_decoded, bytea_marker};
use crate::server::scheduler::LedgerChainHead;
use crate::text::{contains_text, has_prefix, push_decimal, seq_contains_text, decimal_text};

verus! {

/// Failure of a Supabase RPC.
#[derive(Debug, Clone, PartialEq, Eq)]
pub enum SupabaseRpcError {
    /// The request did not reach Supabase; the text describes the transport error.
    Network(String),
    /// Supabase answered with a non-success status and this body.
    NonSuccessStatus { status: u16, body: String },
    /// The answer could not be read.
    InvalidResponse(String),
    /// The RPC returned no rows.
    EmptyResult,
}

/// Length in bytes of the UTF-8 encoding of a text held in memory.
pub open spec fn utf8_len(text: Seq<char>) -> nat {
    (vstd::utf8::encode_utf8(text).len() as usize) as nat
}

pub open spec fn rpc_error_display(error: SupabaseRpcError) -> Seq<char> {
    match error {
        SupabaseRpcError::Network(text) => "supabase network error: "@ + text@,
        SupabaseRpcError::NonSuccessStatus { status, body } => "supabase returned status "@
            + decimal_text(status as nat) + " with response body length "@ + decimal_text(
            body@.len() as nat,
        ),
        SupabaseRpcError::InvalidResponse(message) => "supabase invalid response: "@ + message@,
        SupabaseRpcError::EmptyResult => "supabase RPC returned no rows"@,
    }
}

impl SupabaseRpcError {
    /// The HTTP status Supabase answered with, for a non-success status.
    pub fn upstream_status(&self) -> (status: Option<u16>)
        ensures
            match *self {
                SupabaseRpcError::NonSuccessStatus { status: s, .. } => status == Some(s),
                _ => status is None,
            },
    {
        match self {
            SupabaseRpcError::NonSuccessStatus { status, .. } => Some(*status),
            _ => None,
        }
    }

    /// The description written to logs: a response body is reported by its
    /// length in bytes only, never by its content.
    pub fn to_display_string(&self) -> (text: String)
        ensures
            match *self {
                SupabaseRpcError::NonSuccessStatus { status, body } => text@ == "supabase returned status "@
                    + decimal_text(status as nat) + " with response body length "@ + decimal_text(
                    utf8_len(body@),
                ),
                _ => text@ == rpc_error_display(*self),
            },
    {
        match self {
            SupabaseRpcError::Network(error) => {
                let mut out = String::from_str("supabase network error: ");
                out.append(error.as_str());
                out
            },
            SupabaseRpcError::NonSuccessStatus { status, body } => {
                let mut out = String::from_str("supabase returned status ");
                push_decimal(&mut out, *status as u64);
                out.append(" with response body length ");
                let len = body.as_str().len();
                assert(len as nat == utf8_len(body@));
                push_decimal(&mut out, len as u64);
                assert(out@ =~= "supabase returned status "@ + decimal_text(*status as nat)
                    + " with response body length "@ + decimal_text(len as nat));
                out
            },
            SupabaseRpcError::InvalidResponse(message) => {
                let mut out = String::from_str("supabase invalid response: ");
                out.append(message.as_str());
                out
            },
            SupabaseRpcError::EmptyResult => String::from_str("supabase RPC returned no rows"),
        }
    }
}

/// The string under the top-level key `field` of the JSON text `body`:
/// `None` when `body` is not JSON, `Some(None)` when it is JSON but holds no
/// string under that key. Parsing JSON is left to `serde_json`.
pub uninterp spec fn json_top_level_string(body: Seq<char>, field: Seq<char>) -> Option<Option<Seq<char>>>;

pub open spec fn optional_text_view(found: Option<Option<String>>) -> Option<Option<Seq<char>>> {
    match found {
        None => None,
        Some(None) => Some(None),
        Some(Some(text)) => Some(Some(text@)),
    }
}

/// Reads a top-level string field of a JSON text through
/// `serde_json::from_str::<serde_json::Value>`, then `Value::get` and
/// `Value::as_str`. The result is named by `json_top_level_string`.
#[verifier::external_body]
fn json_string_field(body: &str, field: &str) -> (found: Option<Option<String>>)
    ensures
        optional_text_view(found) == json_top_level_string(body@, field@),
{
    match serde_json::from_str::<serde_json::Value>(body) {
        Err(_) => None,
        Ok(value) => Some(value.get(field).and_then(serde_json::Value::as_str).map(str::to_string)),
    }
}

pub open spec fn field_holds(field: Option<Option<Seq<char>>>, marker: Seq<char>) -> bool {
    field matches Some(Some(text)) && seq_contains_text(text, marker)
}

/// Whether an error body names `marker`: in its `message`, `details` or
/// `hint` string when the body is JSON, anywhere in the body when it is not.
pub open spec fn body_names_marker(
    body: Seq<char>,
    marker: Seq<char>,
    message: Option<Option<Seq<char>>>,
    details: Option<Option<Seq<char>>>,
    hint: Option<Option<Seq<char>>>,
) -> bool {
    match message {
        None => seq_contains_text(body, marker),
        Some(_) => field_holds(message, marker) || field_holds(details, marker) || field_holds(
            hint,
            marker,
        ),
    }
}

fn field_contains(field: &Option<Option<String>>, marker: &str) -> (found: bool)
    ensures
        found == field_holds(optional_text_view(*field), marker@),
{
    match field {
        Some(Some(text)) => contains_text(text.as_str(), marker),
        _ => false,
    }
}

/// Decides from the three fields read from a body whether it names `marker`.
pub fn marker_in_fields(
    body: &str,
    marker: &str,
    message: &Option<Option<String>>,
    details: &Option<Option<String>>,
    hint: &Option<Option<String>>,
) -> (found: bool)
    ensures
        found == body_names_marker(
            body@,
            marker@,
            optional_text_view(*message),
            optional_text_view(*details),
            optional_text_view(*hint),
        ),
{
    match message {
        None => contains_text(body, marker),
        Some(_) => field_contains(message, marker) || field_contains(details, marker)
            || field_contains(hint, marker),
    }
}

pub open spec fn response_names_marker(body: Seq<char>, marker: Seq<char>) -> bool {
    body_names_marker(
        body,
        marker,
        json_top_level_string(body, "message"@),
        json_top_level_string(body, "details"@),
        json_top_level_string(body, "hint"@),
    )
}

/// Whether a Supabase error body names `marker` (see `body_names_marker`).
pub fn response_contains_marker(body: &str, marker: &str) -> (found: bool)
    ensures
        found == response_names_marker(body@, marker@),
{
    let message = json_string_field(body, "message");
    let details = json_string_field(body, "details");
    let hint = json_string_field(body, "hint");
    marker_in_fields(body, marker, &message, &details, &hint)
}

/// Why the database refused a ledger append.
#[derive(Debug, Clone, Copy, PartialEq, Eq, Structural)]
pub enum LedgerAppendRpcFailure {
    EntryIdConflict,
    EntryHashConflict,
    SequenceMismatch,
    PreviousHashMismatch,
    PayloadSchemaViolation,
    ChainStateMissing,
    InvalidRpcInput,
    AppendFailed,
}

pub open spec fn ledger_failure_code(failure: LedgerAppendRpcFailure) -> Seq<char> {
    match failure {
        LedgerAppendRpcFailure::EntryIdConflict => "ledger_entry_id_conflict"@,
        LedgerAppendRpcFailure::EntryHashConflict => "ledger_entry_hash_conflict"@,
        LedgerAppendRpcFailure::SequenceMismatch => "ledger_sequence_mismatch"@,
        LedgerAppendRpcFailure::PreviousHashMismatch => "ledger_previous_hash_mismatch"@,
        LedgerAppendRpcFailure::PayloadSchemaViolation => "ledger_payload_schema_violation"@,
        LedgerAppendRpcFailure::ChainStateMissing => "ledger_chain_state_mismatch"@,
        LedgerAppendRpcFailure::InvalidRpcInput => "ledger_append_failed"@,
        LedgerAppendRpcFailure::AppendFailed => "ledger_append_failed"@,
    }
}

impl LedgerAppendRpcFailure {
    pub fn as_error_code(self) -> (code: &'static str)
        ensures
            code@ == ledger_failure_code(self),
    {
        match self {
            LedgerAppendRpcFailure::EntryIdConflict => "ledger_entry_id_conflict",
            LedgerAppendRpcFailure::EntryHashConflict => "ledger_entry_hash_conflict",
            LedgerAppendRpcFailure::SequenceMismatch => "ledger_sequence_mismatch",
            LedgerAppendRpcFailure::PreviousHashMismatch => "ledger_previous_hash_mismatch",
            LedgerAppendRpcFailure::PayloadSchemaViolation => "ledger_payload_schema_violation",
            LedgerAppendRpcFailure::ChainStateMissing => "ledger_chain_state_mismatch",
            LedgerAppendRpcFailure::InvalidRpcInput => "ledger_append_failed",
            LedgerAppendRpcFailure::AppendFailed => "ledger_append_failed",
        }
    }
}

/// Classifies a refused ledger append by the first marker its error body
/// names, in a fixed order; anything else is a plain append failure.
pub open spec fn ledger_append_failure_of(error: SupabaseRpcError) -> LedgerAppendRpcFailure {
    match error {
        SupabaseRpcError::NonSuccessStatus { body, .. } => {
            let b = body@;
            if response_names_marker(b, "ledger_entry_id_conflict"@) {
                LedgerAppendRpcFailure::EntryIdConflict
            } else if response_names_marker(b, "ledger_entry_hash_conflict"@) {
                LedgerAppendRpcFailure::EntryHashConflict
            } else if response_names_marker(b, "ledger_sequence_mismatch"@) {
                LedgerAppendRpcFailure::SequenceMismatch
            } else if response_names_marker(b, "ledger_previous_hash_mismatch"@) {
                LedgerAppendRpcFailure::PreviousHashMismatch
            } else if response_names_marker(b, "ledger_payload_schema_violation"@)
                || response_names_marker(b, "ledger_entries_payload_valid"@)
                || response_names_marker(b, "ledger_payload_is_valid"@) {
                LedgerAppendRpcFailure::PayloadSchemaViolation
            } else if response_names_marker(b, "ledger_chain_state_missing"@) {
                LedgerAppendRpcFailure::ChainStateMissing
            } else if response_names_marker(b, "invalid_rpc_input"@) {
                LedgerAppendRpcFailure::InvalidRpcInput
            } else {
                LedgerAppendRpcFailure::AppendFailed
            }
        },
        _ => LedgerAppendRpcFailure::AppendFailed,
    }
}

pub fn classify_append_ledger_error(error: &SupabaseRpcError) -> (failure: LedgerAppendRpcFailure)
    ensures
        failure == ledger_append_failure_of(*error),
{
    let body = match error {
        SupabaseRpcError::NonSuccessStatus { body, .. } => body.as_str(),
        _ => {
            return LedgerAppendRpcFailure::AppendFailed;
        },
    };
    if response_contains_marker(body, "ledger_entry_id_conflict") {
        LedgerAppendRpcFailure::EntryIdConflict
    } else if response_contains_marker(body, "ledger_entry_hash_conflict") {
        LedgerAppendRpcFailure::EntryHashConflict
    } else if response_contains_marker(body, "ledger_sequence_mismatch") {
        LedgerAppendRpcFailure::SequenceMismatch
    } else if response_contains_marker(body, "ledger_previous_hash_mismatch") {
        LedgerAppendRpcFailure::PreviousHashMismatch
    } else if response_contains_marker(body, "ledger_payload_schema_violation")
        || response_contains_marker(body, "ledger_entries_payload_valid")
        || response_contains_marker(body, "ledger_payload_is_valid") {
        LedgerAppendRpcFailure::PayloadSchemaViolation
    } else if response_contains_marker(body, "ledger_chain_state_missing") {
        LedgerAppendRpcFailure::ChainStateMissing
    } else if response_contains_marker(body, "invalid_rpc_input") {
        LedgerAppendRpcFailure::InvalidRpcInput
    } else {
        LedgerAppendRpcFailure::AppendFailed
    }
}

/// HTTP status of a conflict.
pub const HTTP_STATUS_CONFLICT: u16 = 409;

/// Classifies a refused audit append: a conflict whose body names
/// `audit_event_id_conflict` is an idempotency conflict (the same event id
/// with other content); every other failure is an external dependency failure.
pub fn classify_append_audit_error(error: &SupabaseRpcError) -> (classified: AuditAppendError)
    ensures
        (error matches SupabaseRpcError::NonSuccessStatus { status, body } && status
            == HTTP_STATUS_CONFLICT && response_names_marker(body@, "audit_event_id_conflict"@))
            ==> classified is IdempotencyConflict,
        !(error matches SupabaseRpcError::NonSuccessStatus { status, body } && status
            == HTTP_STATUS_CONFLICT && response_names_marker(body@, "audit_event_id_conflict"@))
            ==> (classified matches AuditAppendError::ExternalDependencyFailed { code } && code@
            == "supabase_rpc_failed"@),
{
    match error {
        SupabaseRpcError::NonSuccessStatus { status, body } => {
            if *status == HTTP_STATUS_CONFLICT && response_contains_marker(
                body.as_str(),
                "audit_event_id_conflict",
            ) {
                return AuditAppendError::IdempotencyConflict;
            }
        },
        _ => {},
    }
    AuditAppendError::ExternalDependencyFailed { code: "supabase_rpc_failed" }
}

/// Counts of each kind of violation found by the integrity check.
#[derive(Debug, Clone, Copy, PartialEq, Eq, Structural)]
pub struct IntegrityCheckViolationSummary {
    pub current_version_invalid: u64,
    pub version_invalid: u64,
    pub retention_exceeded: u64,
    pub ciphertext_empty: u64,
    pub encrypted_data_key_empty: u64,
    pub nonce_length_invalid: u64,
    pub algorithm_invalid: u64,
    pub nonce_duplicate: u64,
    pub aad_keys_invalid: u64,
    pub aad_row_mismatch: u64,
    pub created_at_mismatch: u64,
    pub audit_action_invalid: u64,
    pub audit_result_invalid: u64,
    pub audit_metadata_not_object: u64,
    pub audit_metadata_forbidden_key: u64,
    pub audit_source_event_at_invalid: u64,
}

impl IntegrityCheckViolationSummary {
    pub open spec fn is_zero(self) -> bool {
        &&& self.current_version_invalid == 0
        &&& self.version_invalid == 0
        &&& self.retention_exceeded == 0
        &&& self.ciphertext_empty == 0
        &&& self.encrypted_data_key_empty == 0
        &&& self.nonce_length_invalid == 0
        &&& self.algorithm_invalid == 0
        &&& self.nonce_duplicate == 0
        &&& self.aad_keys_invalid == 0
        &&& self.aad_row_mismatch == 0
        &&& self.created_at_mismatch == 0
        &&& self.audit_action_invalid == 0
        &&& self.audit_result_invalid == 0
        &&& self.audit_metadata_not_object == 0
        &&& self.audit_metadata_forbidden_key == 0
        &&& self.audit_source_event_at_invalid == 0
    }

    /// No violation of any kind.
    pub fn zero() -> (summary: Self)
        ensures
            summary.is_zero(),
    {
        IntegrityCheckViolationSummary {
            current_version_invalid: 0,
            version_invalid: 0,
            retention_exceeded: 0,
            ciphertext_empty: 0,
            encrypted_data_key_empty: 0,
            nonce_length_invalid: 0,
            algorithm_invalid: 0,
            nonce_duplicate: 0,
            aad_keys_invalid: 0,
            aad_row_mismatch: 0,
            created_at_mismatch: 0,
            audit_action_invalid: 0,
            audit_result_invalid: 0,
            audit_metadata_not_object: 0,
            audit_metadata_forbidden_key: 0,
            audit_source_event_at_invalid: 0,
        }
    }
}

/// Result of the database integrity check.
#[derive(Debug, Clone, Copy, PartialEq, Eq, Structural)]
pub struct IntegrityCheckSummary {
    pub checked_secret_count: u64,
    pub checked_secret_version_count: u64,
    pub checked_audit_event_count: u64,
    pub violation_count: u64,
    pub violation_summary: IntegrityCheckViolationSummary,
}

impl IntegrityCheckSummary {
    /// Nothing checked and nothing found.
    pub fn zero() -> (summary: Self)
        ensures
            summary.checked_secret_count == 0,
            summary.checked_secret_version_count == 0,
            summary.checked_audit_event_count == 0,
            summary.violation_count == 0,
            summary.violation_summary.is_zero(),
    {
        IntegrityCheckSummary {
            checked_secret_count: 0,
            checked_secret_version_count: 0,
            checked_audit_event_count: 0,
            violation_count: 0,
            violation_summary: IntegrityCheckViolationSummary::zero(),
        }
    }
}

/// The `secrets` columns joined to a secret version read.
#[derive(Debug, Clone, PartialEq, Eq)]
pub struct SecretReadJoin {
    pub current_version_id: String,
    pub owner_user_id: String,
    pub classification: String,
}

/// A secret version whose data key is still wrapped with an old key version.
#[derive(Debug, Clone, PartialEq, Eq)]
pub struct KeyRotationBatchRow {
    pub id: String,
    pub secret_id: String,
    pub version: i32,
    pub encrypted_data_key: String,
    pub key_version: i32,
}

/// A rewrapped data key to store for a secret version.
#[derive(Debug, Clone, PartialEq, Eq)]
pub struct KeyRotationApplyRow {
    pub id: String,
    pub encrypted_data_key: String,
}

/// How many secret versions still use a key version.
#[derive(Debug, Clone, Copy, PartialEq, Eq, Structural)]
pub struct KeyRotationStatus {
    pub key_version: i32,
    pub remaining_count: i64,
}

/// Result of applying one batch of key rotation.
#[derive(Debug, Clone, Copy, PartialEq, Eq, Structural)]
pub struct KeyRotationApplyOutcome {
    pub processed_count: i64,
    pub remaining_count: i64,
}

/// Result of completing a key rotation.
#[derive(Debug, Clone, Copy, PartialEq, Eq, Structural)]
pub struct KeyRotationCompleteOutcome {
    pub remaining_count: i64,
}

/// Byte length of a ledger hash (SHA-256).
pub const LEDGER_HASH_LENGTH: usize = 32;

/// Ledger hash bytes read from `bytea` hex text, when the text is well formed
/// and holds exactly one hash.
pub open spec fn ledger_hash_of_text(text: Seq<char>) -> Option<Seq<u8>> {
    if has_prefix(text, bytea_marker()) && hex_decodable(text.subrange(2, text.len() as int))
        && hex_decoded(text.subrange(2, text.len() as int)).len() == LEDGER_HASH_LENGTH {
        Some(hex_decoded(text.subrange(2, text.len() as int)))
    } else {
        None
    }
}

/// Reads a ledger hash written as `bytea` hex text.
pub fn parse_ledger_hash(text: &str) -> (hash: Option<Vec<u8>>)
    ensures
        match ledger_hash_of_text(text@) {
            None => hash is None,
            Some(h) => hash matches Some(b) && b@ == h,
        },
{
    match decode_bytea_hex(text) {
        None => None,
        Some(bytes) => if bytes.len() == LEDGER_HASH_LENGTH {
            Some(bytes)
        } else {
            None
        },
    }
}

/// One row returned by the ledger append RPC.
#[derive(Debug, Clone, PartialEq, Eq)]
pub struct AppendLedgerEntryResponse {
    pub ledger_entry_id: String,
    pub sequence_no: i64,
    pub entry_hash: String,
    pub chain_last_sequence_no: i64,
    pub chain_last_entry_hash: String,
    pub replayed: bool,
}

/// The appended entry and the chain head after the append; `replayed` when
/// the same entry had been appended before and nothing new was written.
#[derive(Debug)]
pub struct AppendLedgerEntryOutcome {
    ledger_entry_id: String,
    sequence_no: u64,
    entry_hash: Vec<u8>,
    chain_head: LedgerChainHead,
    replayed: bool,
}

/// Whether a row of the append RPC is well formed: a positive sequence
/// number, a non-negative chain head and two 32-byte hashes.
pub open spec fn append_response_valid(response: AppendLedgerEntryResponse) -> bool {
    &&& response.sequence_no >= 1
    &&& ledger_hash_of_text(response.entry_hash@) is Some
    &&& ledger_hash_of_text(response.chain_last_entry_hash@) is Some
    &&& response.chain_last_sequence_no >= 0
}

impl AppendLedgerEntryOutcome {
    pub closed spec fn spec_ledger_entry_id(&self) -> Seq<char> {
        self.ledger_entry_id@
    }

    pub closed spec fn spec_sequence_no(&self) -> u64 {
        self.sequence_no
    }

    pub closed spec fn spec_entry_hash(&self) -> Seq<u8> {
        self.entry_hash@
    }

    pub closed spec fn spec_chain_head(&self) -> (u64, Seq<u8>) {
        (self.chain_head.last_sequence_no, self.chain_head.last_entry_hash@)
    }

    pub closed spec fn spec_replayed(&self) -> bool {
        self.replayed
    }

    /// Reads a row of the append RPC; the first malformed field is reported.
    pub fn try_from_response(response: AppendLedgerEntryResponse) -> (outcome: Result<Self, SupabaseRpcError>)
        ensures
            append_response_valid(response) ==> (outcome matches Ok(o)
                && o.spec_ledger_entry_id() == response.ledger_entry_id@
                && o.spec_sequence_no() == response.sequence_no
                && Some(o.spec_entry_hash()) == ledger_hash_of_text(response.entry_hash@)
                && o.spec_chain_head().0 == response.chain_last_sequence_no
                && Some(o.spec_chain_head().1) == ledger_hash_of_text(response.chain_last_entry_hash@)
                && o.spec_replayed() == response.replayed),
            !append_response_valid(response) ==> (outcome matches Err(
                SupabaseRpcError::InvalidResponse(message),
            ) && message@ == (if response.sequence_no < 1 {
                "ledger RPC returned invalid sequence_no"@
            } else if ledger_hash_of_text(response.entry_hash@) is None {
                "ledger RPC returned invalid entry_hash"@
            } else if ledger_hash_of_text(response.chain_last_entry_hash@) is None {
                "ledger RPC returned invalid chain_last_entry_hash"@
            } else {
                "ledger RPC returned invalid chain_last_sequence_no"@
            })),
    {
        if response.sequence_no < 1 {
            return Err(
                SupabaseRpcError::InvalidResponse(
                    "ledger RPC returned invalid sequence_no".to_string(),
                ),
            );
        }
        let entry_hash = match parse_ledger_hash(response.entry_hash.as_str()) {
            Some(hash) => hash,
            None => {
                return Err(
                    SupabaseRpcError::InvalidResponse(
                        "ledger RPC returned invalid entry_hash".to_string(),
                    ),
                );
            },
        };
        let chain_last_entry_hash = match parse_ledger_hash(response.chain_last_entry_hash.as_str()) {
            Some(hash) => hash,
            None => {
                return Err(
                    SupabaseRpcError::InvalidResponse(
                        "ledger RPC returned invalid chain_last_entry_hash".to_string(),
                    ),
                );
            },
        };
        if response.chain_last_sequence_no < 0 {
            return Err(
                SupabaseRpcError::InvalidResponse(
                    "ledger RPC returned invalid chain_last_sequence_no".to_string(),
                ),
            );
        }
        Ok(
            AppendLedgerEntryOutcome {
                ledger_entry_id: response.ledger_entry_id,
                sequence_no: response.sequence_no as u64,
                entry_hash,
                chain_head: LedgerChainHead {
                    last_sequence_no: response.chain_last_sequence_no as u64,
                    last_entry_hash: chain_last_entry_hash,
                },
                replayed: response.replayed,
            },
        )
    }

    pub fn ledger_entry_id(&self) -> (id: &str)
        ensures
            id@ == self.spec_ledger_entry_id(),
    {
        self.ledger_entry_id.as_str()
    }

    pub fn sequence_no(&self) -> (sequence_no: u64)
        ensures
            sequence_no == self.spec_sequence_no(),
    {
        self.sequence_no
    }

    pub fn entry_hash(&self) -> (hash: &[u8])
        ensures
            hash@ == self.spec_entry_hash(),
    {
        self.entry_hash.as_slice()
    }

    pub fn chain_head(&self) -> (head: &LedgerChainHead)
        ensures
            (head.last_sequence_no, head.last_entry_hash@) == self.spec_chain_head(),
    {
        &self.chain_head
    }

    pub fn replayed(&self) -> (replayed: bool)
        ensures
            replayed == self.spec_replayed(),
    {
        self.replayed
    }
}

/// One row returned by the secret version write RPC.
#[derive(Debug, Clone, PartialEq, Eq)]
pub struct WriteSecretVersionResponse {
    pub secret_id: String,
    pub secret_version_id: String,
    pub version: i32,
    pub purged_version_ids: Vec<String>,
}

/// The written secret version and the versions the retention limit purged.
#[derive(Debug)]
pub struct WriteSecretVersionOutcome {
    secret_id: String,
    secret_version_id: String,
    version: u32,
    purged_version_ids: Vec<String>,
}

impl WriteSecretVersionOutcome {
    pub closed spec fn spec_secret_id(&self) -> Seq<char> {
        self.secret_id@
    }

    pub closed spec fn spec_secret_version_id(&self) -> Seq<char> {
        self.secret_version_id@
    }

    pub closed spec fn spec_version(&self) -> u32 {
        self.version
    }

    pub closed spec fn spec_purged_version_ids(&self) -> Seq<String> {
        self.purged_version_ids@
    }

    /// Reads a row of the write RPC: the version must be a positive number.
    pub fn try_from_response(response: WriteSecretVersionResponse) -> (outcome: Result<Self, SupabaseRpcError>)
        ensures
            response.version >= 1 ==> (outcome matches Ok(o) && o.spec_secret_id()
                == response.secret_id@ && o.spec_secret_version_id() == response.secret_version_id@
                && o.spec_version() == response.version && o.spec_purged_version_ids()
                == response.purged_version_ids@),
            response.version < 1 ==> (outcome matches Err(SupabaseRpcError::InvalidResponse(message))
                && message@ == "write RPC returned invalid version"@),
    {
        if response.version < 1 {
            return Err(
                SupabaseRpcError::InvalidResponse("write RPC returned invalid version".to_string()),
            );
        }
        Ok(
            WriteSecretVersionOutcome {
                secret_id: response.secret_id,
                secret_version_id: response.secret_version_id,
                version: response.version as u32,
                purged_version_ids: response.purged_version_ids,
            },
        )
    }

    pub fn secret_id(&self) -> (id: &str)
        ensures
            id@ == self.spec_secret_id(),
    {
        self.secret_id.as_str()
    }

    pub fn secret_version_id(&self) -> (id: &str)
        ensures
            id@ == self.spec_secret_version_id(),
    {
        self.secret_version_id.as_str()
    }

    pub fn version(&self) -> (version: u32)
        ensures
            version == self.spec_version(),
    {
        self.version
    }

    pub fn purged_version_ids(&self) -> (ids: &[String])
        ensures
            ids@ == self.spec_purged_version_ids(),
    {
        self.purged_version_ids.as_slice()
    }
}

/// The URL of a Supabase RPC.
pub fn rpc_url(base_url: &str, rpc_name: &str) -> (url: String)
    ensures
        url@ == base_url@ + "/rest/v1/rpc/"@ + rpc_name@,
{
    let mut url = base_url.to_string();
    url.append("/rest/v1/rpc/");
    url.append(rpc_name);
    url
}

/// Byte length of a ledger signature (Ed25519).
pub const LEDGER_SIGNATURE_LENGTH: usize = 64;

/// Byte length of a ledger signing public key (Ed25519).
pub const LEDGER_PUBLIC_KEY_LENGTH: usize = 32;

/// The bytes of `bytea` hex text, when well formed.
pub open spec fn bytea_bytes_of_text(text: Seq<char>) -> Option<Seq<u8>> {
    if has_prefix(text, bytea_marker()) && hex_decodable(text.subrange(2, text.len() as int)) {
        Some(hex_decoded(text.subrange(2, text.len() as int)))
    } else {
        None
    }
}

/// Bytes of `bytea` hex text of exactly `len` bytes.
pub open spec fn fixed_bytea_of_text(text: Seq<char>, len: nat) -> Option<Seq<u8>> {
    match bytea_bytes_of_text(text) {
        Some(b) => if b.len() == len {
            Some(b)
        } else {
            None
        },
        None => None,
    }
}

/// Reads `bytea` hex text that must hold exactly `len` bytes.
pub fn parse_fixed_bytea(text: &str, len: usize) -> (bytes: Option<Vec<u8>>)
    ensures
        match fixed_bytea_of_text(text@, len as nat) {
            None => bytes is None,
            Some(b) => bytes matches Some(v) && v@ == b,
        },
{
    match decode_bytea_hex(text) {
        None => None,
        Some(bytes) => if bytes.len() == len {
            Some(bytes)
        } else {
            None
        },
    }
}

/// A ledger sequence number read from the database: at least 1.
pub fn parse_sequence_no(raw: i64) -> (sequence_no: Option<u64>)
    ensures
        raw >= 1 ==> sequence_no == Some(raw as u64),
        raw < 1 ==> sequence_no is None,
{
    if raw >= 1 {
        Some(raw as u64)
    } else {
        None
    }
}

/// A signature key version read from the database: at least 1.
pub fn parse_key_version(raw: i32) -> (key_version: Option<u32>)
    ensures
        raw >= 1 ==> key_version == Some(raw as u32),
        raw < 1 ==> key_version is None,
{
    if raw >= 1 {
        Some(raw as u32)
    } else {
        None
    }
}

/// A count read from the database: not negative.
pub fn parse_count(raw: i64) -> (count: Option<u64>)
    ensures
        raw >= 0 ==> count == Some(raw as u64),
        raw < 0 ==> count is None,
{
    if raw >= 0 {
        Some(raw as u64)
    } else {
        None
    }
}

/// Whether an HTTP status is a success (2xx).
pub open spec fn is_success_status(status: u16) -> bool {
    200 <= status <= 299
}

/// What follows a readiness probe made without an API key.
#[derive(Debug, Clone, Copy, PartialEq, Eq, Structural)]
pub enum ReadinessProbeStep {
    /// Supabase answered with success: ready.
    Ready,
    /// Supabase asked for credentials (401 or 403): probe again with the publishable key.
    RetryWithPublishableKey,
    /// Any other answer or a transport error: not ready.
    NotReady,
}

/// Decides from the first probe's status (`None` for a transport error).
pub fn readiness_first_probe(status: Option<u16>) -> (step: ReadinessProbeStep)
    ensures
        match status {
            Some(s) => if is_success_status(s) {
                step == ReadinessProbeStep::Ready
            } else if s == 401 || s == 403 {
                step == ReadinessProbeStep::RetryWithPublishableKey
            } else {
                step == ReadinessProbeStep::NotReady
            },
            None => step == ReadinessProbeStep::NotReady,
        },
{
    match status {
        Some(s) => if 200 <= s && s <= 299 {
            ReadinessProbeStep::Ready
        } else if s == 401 || s == 403 {
            ReadinessProbeStep::RetryWithPublishableKey
        } else {
            ReadinessProbeStep::NotReady
        },
        None => ReadinessProbeStep::NotReady,
    }
}

/// Readiness after the probe with the publishable key: ready only on success.
pub fn readiness_second_probe(status: Option<u16>) -> (ready: bool)
    ensures
        ready == (status matches Some(s) && is_success_status(s)),
{
    match status {
        Some(s) => 200 <= s && s <= 299,
        None => false,
    }
}

} // verus!
