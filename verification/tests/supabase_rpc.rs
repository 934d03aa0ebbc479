use mipsorcu::audit::AuditAppendError;
use mipsorcu::encoding::{decode_bytea_hex, encode_bytea};
use mipsorcu::server::supabase::alias_rpc::{SecretAliasRpcError, classify_secret_alias_rpc_error, decode_bytea};
use mipsorcu::server::supabase::audit_ui_rpc::{
    AuditUiHashChainVerificationResponse, AuditUiHashChainVerification, PageRpcParams,
    i64_to_u64, sequence_to_i64, strip_bytea_prefix,
};
use mipsorcu::server::supabase::digest_rpc::{
    DigestRpcError, LedgerRangeForMonth, LedgerRangeResponse, MonthlyDigestSummary,
    MonthlyDigestSummaryResponse, classify_digest_rpc_error,
};
use mipsorcu::server::supabase::incident_rpc::{IncidentRecordOutcome, RecordIncidentResponse};
use mipsorcu::server::use_cases::verify_monthly_digest::{after_chain_export, restore_chain, VerifyMonthlyDigestError};
use mipsorcu::server::supabase::ledger_export_rpc::{
    ExportLedgerError, LedgerKeyRestoreError, LedgerVerificationMaterialResponse,
    LedgerVerificationMaterialRow, classify_export_ledger_error,
};
use mipsorcu::server::supabase::ledger_public_key_rpc::{
    LedgerSigningPublicKeyStatus, LedgerSigningPublicKeyStatusResponse, RegisterLedgerSigningPublicKeyOutcome,
    RegisterLedgerSigningPublicKeyResponse, RegisterPublicKeyError, classify_register_public_key_error,
};
use mipsorcu::server::supabase::verify_digest_rpc::{
    DigestForVerificationResponse, MonthlyDigestVerificationMaterials, VerifyDigestRpcError,
    classify_verify_digest_rpc_error,
};
use mipsorcu::server::supabase::{
    AppendLedgerEntryOutcome, AppendLedgerEntryResponse, IntegrityCheckSummary,
    IntegrityCheckViolationSummary, LedgerAppendRpcFailure, ReadinessProbeStep, SupabaseRpcError,
    WriteSecretVersionOutcome, WriteSecretVersionResponse, classify_append_audit_error,
    classify_append_ledger_error, readiness_first_probe, readiness_second_probe,
    response_contains_marker, rpc_url,
};

fn status(status: u16, body: &str) -> SupabaseRpcError {
    SupabaseRpcError::NonSuccessStatus { status, body: body.to_owned() }
}

fn hash_text(byte: u8) -> String {
    encode_bytea(&[byte; 32])
}

#[test]
fn rpc_error_display_reports_body_length_in_bytes() {
    assert_eq!(
        status(500, "é!").to_display_string(),
        "supabase returned status 500 with response body length 3"
    );
    assert_eq!(
        SupabaseRpcError::InvalidResponse("bad".to_owned()).to_display_string(),
        "supabase invalid response: bad"
    );
    assert_eq!(SupabaseRpcError::EmptyResult.to_display_string(), "supabase RPC returned no rows");
    assert_eq!(
        SupabaseRpcError::Network("down".to_owned()).to_display_string(),
        "supabase network error: down"
    );
    assert_eq!(status(404, "").upstream_status(), Some(404));
    assert_eq!(SupabaseRpcError::EmptyResult.upstream_status(), None);
}

#[test]
fn markers_are_read_from_json_fields_or_raw_text() {
    assert!(response_contains_marker(r#"{"message":"x alias_conflict y"}"#, "alias_conflict"));
    assert!(response_contains_marker(r#"{"hint":"owner_mismatch"}"#, "owner_mismatch"));
    assert!(!response_contains_marker(r#"{"code":"alias_conflict"}"#, "alias_conflict"));
    assert!(!response_contains_marker(r#"["alias_conflict"]"#, "alias_conflict"));
    assert!(response_contains_marker("plain alias_conflict text", "alias_conflict"));
    assert!(!response_contains_marker("plain text", "alias_conflict"));
}

#[test]
fn ledger_append_failures_follow_marker_order() {
    let cases = [
        ("ledger_entry_id_conflict", LedgerAppendRpcFailure::EntryIdConflict, "ledger_entry_id_conflict"),
        ("ledger_entry_hash_conflict", LedgerAppendRpcFailure::EntryHashConflict, "ledger_entry_hash_conflict"),
        ("ledger_sequence_mismatch", LedgerAppendRpcFailure::SequenceMismatch, "ledger_sequence_mismatch"),
        ("ledger_previous_hash_mismatch", LedgerAppendRpcFailure::PreviousHashMismatch, "ledger_previous_hash_mismatch"),
        ("ledger_payload_is_valid", LedgerAppendRpcFailure::PayloadSchemaViolation, "ledger_payload_schema_violation"),
        ("ledger_chain_state_missing", LedgerAppendRpcFailure::ChainStateMissing, "ledger_chain_state_mismatch"),
        ("invalid_rpc_input", LedgerAppendRpcFailure::InvalidRpcInput, "ledger_append_failed"),
        ("other", LedgerAppendRpcFailure::AppendFailed, "ledger_append_failed"),
    ];
    for (marker, expected, code) in cases {
        let failure = classify_append_ledger_error(&status(400, marker));
        assert_eq!(failure, expected);
        assert_eq!(failure.as_error_code(), code);
    }
    assert_eq!(
        classify_append_ledger_error(&SupabaseRpcError::EmptyResult),
        LedgerAppendRpcFailure::AppendFailed
    );
    assert_eq!(
        classify_append_ledger_error(&status(400, "ledger_sequence_mismatch ledger_entry_id_conflict")),
        LedgerAppendRpcFailure::EntryIdConflict
    );
}

#[test]
fn audit_append_conflict_needs_status_and_marker() {
    assert!(matches!(
        classify_append_audit_error(&status(409, "audit_event_id_conflict")),
        AuditAppendError::IdempotencyConflict
    ));
    assert!(matches!(
        classify_append_audit_error(&status(400, "audit_event_id_conflict")),
        AuditAppendError::ExternalDependencyFailed { code: "supabase_rpc_failed" }
    ));
    assert!(matches!(
        classify_append_audit_error(&SupabaseRpcError::EmptyResult),
        AuditAppendError::ExternalDependencyFailed { code: "supabase_rpc_failed" }
    ));
}

#[test]
fn other_rpc_error_classifications() {
    assert_eq!(classify_secret_alias_rpc_error(&status(409, "alias_conflict")), SecretAliasRpcError::AliasConflict);
    assert_eq!(classify_secret_alias_rpc_error(&status(400, "secret_not_found")), SecretAliasRpcError::SecretNotFound);
    assert_eq!(classify_secret_alias_rpc_error(&SupabaseRpcError::EmptyResult), SecretAliasRpcError::Failed);
    assert_eq!(classify_digest_rpc_error(&status(400, "invalid_year_month_format")), DigestRpcError::InvalidRpcInput);
    assert_eq!(classify_digest_rpc_error(&status(409, "monthly_digest_already_exists")), DigestRpcError::DuplicateDigest);
    assert_eq!(DigestRpcError::FetchFailed.as_error_code(), "monthly_digest_fetch_failed");
    assert_eq!(classify_export_ledger_error(&status(400, "invalid_rpc_input")), ExportLedgerError::InvalidRpcInput);
    assert_eq!(ExportLedgerError::ExportFailed.as_error_code(), "ledger_export_failed");
    assert_eq!(
        classify_register_public_key_error(&status(409, "ledger_signing_public_key_retired")),
        RegisterPublicKeyError::Retired
    );
    assert_eq!(RegisterPublicKeyError::RegisterFailed.as_error_code(), "ledger_public_key_register_failed");
    assert_eq!(classify_verify_digest_rpc_error(&status(500, "x")), VerifyDigestRpcError::FetchFailed);
    assert_eq!(
        VerifyDigestRpcError::InvalidRpcInput.as_error_code(),
        "monthly_digest_verify_invalid_rpc_input"
    );
}

#[test]
fn bytea_roundtrip_and_errors() {
    let text = encode_bytea(&[0x00, 0xab, 0xff]);
    assert_eq!(text, "\\x00abff");
    assert_eq!(decode_bytea_hex(&text), Some(vec![0x00, 0xab, 0xff]));
    assert_eq!(decode_bytea_hex("\\xABcd"), Some(vec![0xab, 0xcd]));
    assert_eq!(decode_bytea_hex("00ab"), None);
    assert_eq!(decode_bytea_hex("\\xabc"), None);
    match decode_bytea("00") {
        Err(SupabaseRpcError::InvalidResponse(m)) => assert_eq!(m, "bytea value is not hex encoded"),
        other => panic!("unexpected {other:?}"),
    }
    match decode_bytea("\\xzz") {
        Err(SupabaseRpcError::InvalidResponse(m)) => assert_eq!(m, "bytea value is invalid"),
        other => panic!("unexpected {other:?}"),
    }
    assert_eq!(strip_bytea_prefix("\\xabcd"), "abcd");
    assert_eq!(strip_bytea_prefix("abcd"), "abcd");
}

#[test]
fn zero_summaries() {
    let summary = IntegrityCheckSummary::zero();
    assert_eq!(summary.violation_count, 0);
    assert_eq!(summary.violation_summary, IntegrityCheckViolationSummary::zero());
    assert_eq!(summary.violation_summary.nonce_duplicate, 0);
}

#[test]
fn append_outcome_validates_fields() {
    let response = AppendLedgerEntryResponse {
        ledger_entry_id: "id".to_owned(),
        sequence_no: 7,
        entry_hash: hash_text(1),
        chain_last_sequence_no: 7,
        chain_last_entry_hash: hash_text(2),
        replayed: true,
    };
    let outcome = AppendLedgerEntryOutcome::try_from_response(response.clone()).unwrap();
    assert_eq!(outcome.sequence_no(), 7);
    assert_eq!(outcome.entry_hash(), &[1u8; 32]);
    assert_eq!(outcome.chain_head().last_sequence_no, 7);
    assert!(outcome.replayed());
    assert_eq!(outcome.ledger_entry_id(), "id");
    let bad = AppendLedgerEntryResponse { sequence_no: 0, ..response.clone() };
    match AppendLedgerEntryOutcome::try_from_response(bad) {
        Err(SupabaseRpcError::InvalidResponse(m)) => assert_eq!(m, "ledger RPC returned invalid sequence_no"),
        other => panic!("unexpected {other:?}"),
    }
    let bad = AppendLedgerEntryResponse { entry_hash: encode_bytea(&[1u8; 31]), ..response };
    match AppendLedgerEntryOutcome::try_from_response(bad) {
        Err(SupabaseRpcError::InvalidResponse(m)) => assert_eq!(m, "ledger RPC returned invalid entry_hash"),
        other => panic!("unexpected {other:?}"),
    }
}

#[test]
fn write_outcome_requires_positive_version() {
    let response = WriteSecretVersionResponse {
        secret_id: "s".to_owned(),
        secret_version_id: "v".to_owned(),
        version: 3,
        purged_version_ids: vec!["old".to_owned()],
    };
    let outcome = WriteSecretVersionOutcome::try_from_response(response.clone()).unwrap();
    assert_eq!(outcome.version(), 3);
    assert_eq!(outcome.purged_version_ids(), &["old".to_owned()]);
    let bad = WriteSecretVersionResponse { version: 0, ..response };
    assert_eq!(
        WriteSecretVersionOutcome::try_from_response(bad).unwrap_err(),
        SupabaseRpcError::InvalidResponse("write RPC returned invalid version".to_owned())
    );
}

#[test]
fn digest_rows_are_validated() {
    let row = MonthlyDigestSummaryResponse {
        target_year_month: "2024-05".to_owned(),
        start_sequence_no: 1,
        end_sequence_no: 9,
        entry_count: 9,
        signature_key_version: 2,
        digest_generated_at: "2024-06-01T00:00:00Z".to_owned(),
    };
    let summary = MonthlyDigestSummary::try_from_response(row.clone()).unwrap();
    assert_eq!(summary.entry_count, 9);
    let bad = MonthlyDigestSummaryResponse { entry_count: -1, ..row };
    assert_eq!(
        MonthlyDigestSummary::try_from_response(bad).unwrap_err(),
        SupabaseRpcError::InvalidResponse("digest list RPC returned negative entry_count".to_owned())
    );
    let range = LedgerRangeResponse {
        start_sequence_no: 1,
        end_sequence_no: 2,
        start_entry_hash: hash_text(1),
        end_entry_hash: hash_text(2),
        entry_count: 0,
    };
    assert_eq!(
        LedgerRangeForMonth::try_from_response(range.clone()).unwrap_err(),
        SupabaseRpcError::InvalidResponse(
            "ledger range RPC returned entry_count=0 but a row was present".to_owned()
        )
    );
    let ok = LedgerRangeForMonth::try_from_response(LedgerRangeResponse { entry_count: 2, ..range }).unwrap();
    assert_eq!(ok.end_entry_hash, vec![2u8; 32]);
}

#[test]
fn verification_materials_are_validated() {
    let row = DigestForVerificationResponse {
        start_sequence_no: 1,
        end_sequence_no: 4,
        stored_entry_count: 4,
        stored_digest_hash: "ab".repeat(32),
        target_year_month: "2024-05".to_owned(),
        digest_generated_at: "2024-06-01T00:00:00Z".to_owned(),
        signature: encode_bytea(&[9u8; 64]),
        signature_key_version: 1,
        public_key: Some(encode_bytea(&[5u8; 32])),
        start_entry_hash: hash_text(1),
        end_entry_hash: hash_text(4),
    };
    let materials = MonthlyDigestVerificationMaterials::try_from_response(row.clone()).unwrap();
    assert_eq!(materials.target_year_month.year, 2024);
    assert_eq!(materials.target_year_month.month, 5);
    assert_eq!(materials.public_key, Some(vec![5u8; 32]));
    let bad = DigestForVerificationResponse { target_year_month: "2024-13".to_owned(), ..row.clone() };
    assert_eq!(
        MonthlyDigestVerificationMaterials::try_from_response(bad).unwrap_err(),
        SupabaseRpcError::InvalidResponse(
            "digest verification RPC returned invalid target_year_month".to_owned()
        )
    );
    let bad = DigestForVerificationResponse { digest_generated_at: "June 1st".to_owned(), ..row.clone() };
    assert_eq!(
        MonthlyDigestVerificationMaterials::try_from_response(bad).unwrap_err(),
        SupabaseRpcError::InvalidResponse(
            "digest verification RPC returned invalid digest_generated_at".to_owned()
        )
    );
    let bad = DigestForVerificationResponse { public_key: Some("05".repeat(32)), ..row.clone() };
    assert_eq!(
        MonthlyDigestVerificationMaterials::try_from_response(bad).unwrap_err(),
        SupabaseRpcError::InvalidResponse(
            "digest verification RPC returned public_key without \\x prefix".to_owned()
        )
    );
    let negative = DigestForVerificationResponse { signature_key_version: -1, ..row };
    let materials = MonthlyDigestVerificationMaterials::try_from_response(negative).unwrap();
    assert_eq!(materials.signature_key_version, u32::MAX);
}

#[test]
fn public_key_status_and_registration() {
    let row = LedgerSigningPublicKeyStatusResponse {
        key_version: 1,
        public_key: encode_bytea(&[3u8; 32]),
        public_key_fingerprint: "fp".to_owned(),
        algorithm: "ed25519".to_owned(),
        status: "active".to_owned(),
        created_at: "t".to_owned(),
        activated_at: None,
        retired_at: None,
    };
    assert_eq!(
        LedgerSigningPublicKeyStatus::try_from_response(row.clone()).unwrap().public_key,
        vec![3u8; 32]
    );
    let bad = LedgerSigningPublicKeyStatusResponse { algorithm: "rsa".to_owned(), ..row };
    assert_eq!(
        LedgerSigningPublicKeyStatus::try_from_response(bad).unwrap_err(),
        SupabaseRpcError::InvalidResponse(
            "ledger signing public key status returned invalid algorithm".to_owned()
        )
    );
    let outcome = RegisterLedgerSigningPublicKeyOutcome::try_from_response(
        RegisterLedgerSigningPublicKeyResponse { out_key_version: 2, replayed: true },
    )
    .unwrap();
    assert!(outcome.replayed());
    assert!(RegisterLedgerSigningPublicKeyOutcome::try_from_response(
        RegisterLedgerSigningPublicKeyResponse { out_key_version: 0, replayed: false },
    )
    .is_err());
}

#[test]
fn incident_outcome_requires_ledger_entry_when_not_suppressed() {
    let response = RecordIncidentResponse {
        audit_event_id: "a".to_owned(),
        ledger_entry_id: None,
        suppressed: false,
    };
    assert_eq!(
        IncidentRecordOutcome::try_from_response(response.clone()).unwrap_err(),
        SupabaseRpcError::InvalidResponse(
            "incident RPC returned null ledger_entry_id for unsuppressed incident".to_owned()
        )
    );
    let suppressed = RecordIncidentResponse { suppressed: true, ..response };
    assert!(IncidentRecordOutcome::try_from_response(suppressed).unwrap().suppressed);
}

#[test]
fn audit_ui_conversions() {
    assert_eq!(PageRpcParams::new(10, 20).p_offset, 20);
    assert_eq!(sequence_to_i64(Some(5)).unwrap(), Some(5));
    assert!(sequence_to_i64(Some(u64::MAX)).is_err());
    assert_eq!(
        i64_to_u64(-1, "entries_checked").unwrap_err(),
        SupabaseRpcError::InvalidResponse("entries_checked returned a negative value".to_owned())
    );
    let row = AuditUiHashChainVerificationResponse {
        chain_valid: true,
        entries_checked: 3,
        first_gap_sequence_no: None,
        first_gap_detail: None,
        first_hash_mismatch_sequence_no: Some(-2),
        first_hash_mismatch_detail: None,
        chain_head_sequence_no: Some(3),
        chain_head_entry_hash: Some("\\xabcd".to_owned()),
    };
    assert_eq!(
        AuditUiHashChainVerification::try_from_response(row.clone()).unwrap_err(),
        SupabaseRpcError::InvalidResponse(
            "first_hash_mismatch_sequence_no returned a negative value".to_owned()
        )
    );
    let ok = AuditUiHashChainVerification::try_from_response(
        AuditUiHashChainVerificationResponse { first_hash_mismatch_sequence_no: None, ..row },
    )
    .unwrap();
    assert_eq!(ok.chain_head_entry_hash.as_deref(), Some("abcd"));
}

fn material_response() -> LedgerVerificationMaterialResponse {
    LedgerVerificationMaterialResponse {
        ledger_entry_id: "e".to_owned(),
        sequence_no: 1,
        entry_hash: Some(hash_text(1)),
        previous_entry_hash: Some(hash_text(0)),
        signature: Some(encode_bytea(&[7u8; 64])),
        signature_key_version: Some(1),
        entry_type: Some("secret_created".to_owned()),
        source_event_at: Some("t".to_owned()),
        request_id: Some("r".to_owned()),
        source_event_id: None,
        target_secret_id: None,
        target_secret_version_id: None,
        actor_user_id: None,
        actor_device_id: None,
        result: Some("success".to_owned()),
        error_code: None,
        payload: Some(serde_json::Value::Null),
        canonicalization_version: Some(1),
        hash_algorithm: Some("sha256".to_owned()),
        signature_algorithm: Some("ed25519".to_owned()),
        pk_key_version: Some(1),
        pk_public_key: Some(encode_bytea(&[4u8; 32])),
        pk_algorithm: Some("ed25519".to_owned()),
        pk_status: Some("retired".to_owned()),
    }
}

#[test]
fn export_rows_and_verifying_keys() {
    let row = LedgerVerificationMaterialRow::try_from_response(material_response()).unwrap();
    let key = row.try_restore_verifying_key().unwrap().unwrap();
    assert_eq!(key.key_version, 1);
    assert_eq!(key.public_key, vec![4u8; 32]);
    let mut response = material_response();
    response.entry_hash = None;
    match LedgerVerificationMaterialRow::try_from_response(response) {
        Err(SupabaseRpcError::InvalidResponse(m)) => {
            assert_eq!(m, "export ledger verification materials RPC returned null entry_hash")
        }
        other => panic!("unexpected {other:?}"),
    }
    let mut response = material_response();
    response.pk_key_version = None;
    match LedgerVerificationMaterialRow::try_from_response(response) {
        Err(SupabaseRpcError::InvalidResponse(m)) => assert_eq!(
            m,
            "export ledger verification materials RPC returned pk_public_key without pk_key_version"
        ),
        other => panic!("unexpected {other:?}"),
    }
    let mut response = material_response();
    response.pk_key_version = Some(2);
    let row = LedgerVerificationMaterialRow::try_from_response(response).unwrap();
    assert_eq!(
        row.try_restore_verifying_key().unwrap_err(),
        LedgerKeyRestoreError::SignatureKeyVersionMismatch { expected: 1, actual: 2 }
    );
    let mut response = material_response();
    response.pk_status = Some("pending".to_owned());
    let row = LedgerVerificationMaterialRow::try_from_response(response).unwrap();
    assert_eq!(row.try_restore_verifying_key().unwrap_err(), LedgerKeyRestoreError::InvalidVerificationKey);
    let mut response = material_response();
    response.pk_public_key = None;
    response.pk_key_version = None;
    let row = LedgerVerificationMaterialRow::try_from_response(response).unwrap();
    assert_eq!(row.try_restore_verifying_key().unwrap(), None);
}

#[test]
fn readiness_probe_steps() {
    assert_eq!(readiness_first_probe(Some(204)), ReadinessProbeStep::Ready);
    assert_eq!(readiness_first_probe(Some(401)), ReadinessProbeStep::RetryWithPublishableKey);
    assert_eq!(readiness_first_probe(Some(403)), ReadinessProbeStep::RetryWithPublishableKey);
    assert_eq!(readiness_first_probe(Some(500)), ReadinessProbeStep::NotReady);
    assert_eq!(readiness_first_probe(None), ReadinessProbeStep::NotReady);
    assert!(readiness_second_probe(Some(200)));
    assert!(!readiness_second_probe(Some(401)));
    assert_eq!(rpc_url("https://x.supabase.co", "rpc_a"), "https://x.supabase.co/rest/v1/rpc/rpc_a");
}

#[test]
fn chain_restore_keeps_entries_and_first_keys() {
    let row = |version: u32, key_byte: u8| {
        let mut response = material_response();
        response.signature_key_version = Some(version as i32);
        response.pk_key_version = Some(version as i32);
        response.pk_public_key = Some(encode_bytea(&[key_byte; 32]));
        LedgerVerificationMaterialRow::try_from_response(response).unwrap()
    };
    let rows = vec![row(1, 4), row(2, 5), row(1, 6)];
    let chain = restore_chain(&rows, vec![Ok::<u32, ()>(10), Ok(11), Ok(12)]).ok().unwrap();
    assert_eq!(chain.entries, vec![10, 11, 12]);
    let versions: Vec<u32> = chain.verification_keys.iter().map(|k| k.key_version).collect();
    assert_eq!(versions, vec![1, 2]);
    assert_eq!(chain.verification_keys[0].public_key, vec![4u8; 32]);
    assert_eq!(chain.verification_keys[1].public_key, vec![5u8; 32]);
    assert_eq!(chain.first_previous_hash, rows[0].previous_entry_hash);

    let failed = restore_chain(&rows, vec![Ok::<u32, ()>(10), Err(()), Ok(12)]);
    assert!(matches!(
        failed,
        Err(VerifyMonthlyDigestError::FetchFailed { code: "monthly_digest_chain_entry_restore_failed" })
    ));
    let mut bad_key = material_response();
    bad_key.pk_status = Some("pending".to_owned());
    let bad_rows = vec![LedgerVerificationMaterialRow::try_from_response(bad_key).unwrap()];
    assert!(matches!(
        restore_chain(&bad_rows, vec![Ok::<u32, ()>(1)]),
        Err(VerifyMonthlyDigestError::FetchFailed { code: "monthly_digest_chain_key_restore_failed" })
    ));
    assert!(matches!(
        restore_chain(&Vec::new(), Vec::<Result<u32, ()>>::new()),
        Err(VerifyMonthlyDigestError::FetchFailed { code: "monthly_digest_chain_empty" })
    ));
    assert!(matches!(
        after_chain_export::<()>(Err(())),
        Err(VerifyMonthlyDigestError::FetchFailed { code: "monthly_digest_chain_export_failed" })
    ));
    assert!(matches!(
        after_chain_export::<()>(Ok(Vec::new())),
        Err(VerifyMonthlyDigestError::FetchFailed { code: "monthly_digest_chain_empty" })
    ));
    assert_eq!(after_chain_export::<()>(Ok(rows)).ok().unwrap().len(), 3);
}
