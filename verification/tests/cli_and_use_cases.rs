use mipsorcu::ledger::MonthlyDigestPeriod;
use mipsorcu::server::runtime::{EntrypointCommand, parse_entrypoint_command};
use mipsorcu::server::scheduler::LedgerVerificationSummary;
use mipsorcu::server::signature_key::{
    PublicKeyChoice, SignatureKeyCliError, SignatureKeyCommand, parse_command, parse_format_json,
    parse_key_version_flag, parse_public_key_arg, saturating_millis, usage as signature_key_usage,
    verify_all_exit, verify_all_outcome,
};
use mipsorcu::server::state::ReadinessState;
use mipsorcu::server::timestamping::{
    ProviderSelection, StoredTokenStep, TimestampingCliError, TimestampingCommand, parse_timestamping_args,
    parse_tsa_credentials, parse_tsa_urls, select_provider, stored_token_step, usage as timestamping_usage,
    verify_exit, verify_report,
};
use mipsorcu::server::use_cases::export_digest_to_archive::{
    ArchiveBackendError, ArchiveVerifyOutcome, ExportDigestToArchiveError, archive_backend_error_code,
    finish_export, put_failure_code, verify_failure_code,
};
use mipsorcu::server::use_cases::generate_monthly_digest::{
    GenerateMonthlyDigestError, after_duplicate_check, after_range_fetch,
};
use mipsorcu::server::use_cases::verify_monthly_digest::{
    LedgerChainErrorKind, VerifyMonthlyDigestError, after_materials_fetch, check_digest_hash,
    check_end_hash, check_range_unmodified, collect_verification_keys, map_ledger_error_to_code,
};
use mipsorcu::server::use_cases::write_secret_version::{RetentionVersionSnapshot, select_purged_versions};
use mipsorcu::text::{split_on_commas, trim_text};
use mipsorcu::timestamping::service::{
    TimestampVerification, TimestampVerificationFailureKind, TimestampingServiceError, VerifiedTimestamp,
};

fn args(list: &[&str]) -> Vec<String> {
    list.iter().map(|s| s.to_string()).collect()
}

fn usage_message(error: SignatureKeyCliError) -> String {
    match error {
        SignatureKeyCliError::Usage(m) => m,
        other => panic!("unexpected {other:?}"),
    }
}

#[test]
fn signature_key_arguments() {
    assert_eq!(parse_command(&args(&["verify-all"])).unwrap(), SignatureKeyCommand::VerifyAll);
    assert_eq!(usage_message(parse_command(&args(&["nope"])).unwrap_err()), signature_key_usage());
    assert_eq!(parse_key_version_flag(&args(&["--key-version", "3"]), "--key-version").unwrap(), 3);
    assert_eq!(
        parse_key_version_flag(&args(&["--key-version", "3", "--key-version", "+4"]), "--key-version").unwrap(),
        4
    );
    assert!(parse_key_version_flag(&args(&["--key-version", "0"]), "--key-version").is_err());
    assert!(parse_key_version_flag(&args(&["--key-version", "--format"]), "--key-version").is_err());
    assert!(parse_key_version_flag(&args(&["--key-version"]), "--key-version").is_err());
    assert!(parse_format_json(&args(&["--key-version", "--format", "--format", "json"])).is_ok());
    assert!(parse_format_json(&args(&["--format", "yaml"])).is_err());
    assert!(parse_format_json(&args(&[])).is_err());
    assert!(signature_key_usage().starts_with("usage:\n  mipsorcu signature-key public-key --format json"));
}

#[test]
fn signature_key_public_key_argument() {
    assert_eq!(parse_public_key_arg(&args(&[]), 2, 2).unwrap(), PublicKeyChoice::Configured);
    assert_eq!(
        usage_message(parse_public_key_arg(&args(&[]), 3, 2).unwrap_err()),
        "key-version must match configured signing key when --public-key-hex is omitted"
    );
    let hex = "ab".repeat(32);
    assert_eq!(
        parse_public_key_arg(&args(&["--public-key-hex", &hex]), 3, 2).unwrap(),
        PublicKeyChoice::Provided(vec![0xab; 32])
    );
    let with_marker = format!("\\x{hex}");
    assert_eq!(
        parse_public_key_arg(&args(&["--public-key-hex", &with_marker]), 3, 2).unwrap(),
        PublicKeyChoice::Provided(vec![0xab; 32])
    );
    assert!(parse_public_key_arg(&args(&["--public-key-hex", "abcd"]), 3, 2).is_err());
}

#[test]
fn signature_key_verify_all_outcome() {
    let summary = LedgerVerificationSummary { valid: false, checked_count: 5, error_code: None };
    assert_eq!(verify_all_outcome(Ok(summary)), (false, 5, None));
    assert_eq!(verify_all_outcome(Err("ledger_export_failed")), (false, 0, Some("ledger_export_failed")));
    assert_eq!(
        verify_all_exit(false, None).unwrap_err(),
        SignatureKeyCliError::Ledger("ledger_signature_verification_failed".to_owned())
    );
    assert!(verify_all_exit(true, None).is_ok());
    assert_eq!(saturating_millis(u128::MAX), u64::MAX);
    assert_eq!(
        SignatureKeyCliError::Config("x".to_owned()).to_display_string(),
        "signature key config error: x"
    );
}

#[test]
fn timestamping_arguments() {
    assert_eq!(
        parse_timestamping_args(&args(&["send", "--month", "2024-05", "--format", "json"])).unwrap(),
        TimestampingCommand::Send { period: MonthlyDigestPeriod { year: 2024, month: 5 } }
    );
    assert_eq!(
        parse_timestamping_args(&args(&["--format", "json", "verify", "--month", "2023-12"])).unwrap(),
        TimestampingCommand::Verify { period: MonthlyDigestPeriod { year: 2023, month: 12 } }
    );
    let usage = TimestampingCliError::Usage(timestamping_usage());
    assert_eq!(parse_timestamping_args(&args(&["send", "send"])).unwrap_err(), usage);
    assert_eq!(parse_timestamping_args(&args(&["send", "--month", "2024-05"])).unwrap_err(), usage);
    assert_eq!(
        parse_timestamping_args(&args(&["--month", "2024-05", "--format", "json"])).unwrap_err(),
        usage
    );
    match parse_timestamping_args(&args(&["send", "--month", "2024-5", "--format", "json"])).unwrap_err() {
        TimestampingCliError::Usage(m) => assert!(m.starts_with("invalid --month: ")),
        other => panic!("unexpected {other:?}"),
    }
    assert_eq!(
        TimestampingCliError::DigestNotFound { period: "2024-05".to_owned() }.to_display_string(),
        "monthly digest not found for 2024-05 (run `mipsorcu digest generate` first)"
    );
}

#[test]
fn timestamping_configuration() {
    assert_eq!(select_provider(Some(" local_dummy ")).unwrap(), ProviderSelection::LocalDummy);
    assert_eq!(select_provider(Some("rfc3161")).unwrap(), ProviderSelection::Rfc3161);
    assert_eq!(
        select_provider(Some("  ")).unwrap_err(),
        TimestampingCliError::Config(
            "MIPSORCU_TIMESTAMPING_PROVIDER must be set to 'local_dummy' or 'rfc3161'".to_owned()
        )
    );
    assert_eq!(
        select_provider(Some("x")).unwrap_err(),
        TimestampingCliError::Config(
            "MIPSORCU_TIMESTAMPING_PROVIDER has unsupported value 'x' (expected 'local_dummy' or 'rfc3161')"
                .to_owned()
        )
    );
    assert_eq!(
        parse_tsa_urls(Some(" https://a , ,https://b,")).unwrap(),
        vec!["https://a".to_owned(), "https://b".to_owned()]
    );
    assert_eq!(
        parse_tsa_urls(Some(" , ")).unwrap_err(),
        TimestampingCliError::Config("MIPSORCU_TSA_URL did not contain any non-empty TSA URL".to_owned())
    );
    assert!(parse_tsa_urls(None).is_err());
    let credentials = parse_tsa_credentials(Some(" user "), Some(" pw ")).unwrap().unwrap();
    assert_eq!(credentials.username(), "user");
    assert_eq!(credentials.expose_password(), " pw ");
    assert!(parse_tsa_credentials(None, None).unwrap().is_none());
    assert!(parse_tsa_credentials(Some("user"), Some("")).is_err());
}

#[test]
fn timestamping_verify_reports() {
    match stored_token_step(None) {
        StoredTokenStep::NotFound(report) => {
            assert_eq!(report.verify_result, "not_found");
            assert_eq!(report.incident_code, Some("digest_timestamping_verify_not_found"));
        }
        _ => panic!("expected not found"),
    }
    match stored_token_step(Some(Vec::new())) {
        StoredTokenStep::Unusable(report) => assert_eq!(report.verify_result, "invalid"),
        _ => panic!("expected unusable"),
    }
    let report = verify_report(Ok(TimestampVerification::Valid(VerifiedTimestamp {
        tsa_serial_hex: "01".to_owned(),
        gen_time: None,
    })));
    assert_eq!(report.verify_result, "valid");
    assert_eq!(report.tsa_serial.as_deref(), Some("01"));
    let report = verify_report(Ok(TimestampVerification::Invalid {
        failure_kind: TimestampVerificationFailureKind::ImprintMismatch,
    }));
    assert_eq!(report.incident_code, Some("digest_timestamping_verify_invalid"));
    let report = verify_report(Err(TimestampingServiceError::InvalidResponse { reason: "r" }));
    assert_eq!(report.verify_result, "error");
    assert!(verify_exit("valid").is_ok());
    assert_eq!(
        verify_exit("invalid").unwrap_err(),
        TimestampingCliError::VerifyNotValid { verify_result: "invalid".to_owned() }
    );
}

#[test]
fn entrypoint_commands() {
    assert_eq!(parse_entrypoint_command(&args(&[])), EntrypointCommand::Server);
    assert_eq!(parse_entrypoint_command(&args(&["server"])), EntrypointCommand::Server);
    assert_eq!(parse_entrypoint_command(&args(&["server", "x"])), EntrypointCommand::Usage);
    let list = args(&["timestamping", "send"]);
    assert_eq!(parse_entrypoint_command(&list), EntrypointCommand::Timestamping(&list[1..]));
    assert_eq!(parse_entrypoint_command(&args(&["unknown"])), EntrypointCommand::Usage);
}

#[test]
fn readiness_state_records() {
    let mut state = ReadinessState::new();
    assert!(!state.snapshot().supabase_reachable);
    state.record_supabase_probe_result_at(true, 1_000);
    state.mark_failure_audit_both_failed_at(2_000);
    let snapshot = state.snapshot();
    assert!(snapshot.supabase_reachable);
    assert_eq!(snapshot.supabase_last_checked_at, Some(1_000));
    assert!(snapshot.supabase_is_fresh(1_500, 500));
    assert!(!snapshot.supabase_is_fresh(1_501, 500));
    assert!(snapshot.failure_audit_both_failed_recent(2_000, 0));
    assert!(!snapshot.supabase_is_fresh(1_000, u128::MAX));
    state.record_supabase_probe_result(false);
    assert!(!state.snapshot().supabase_reachable);
    assert!(state.snapshot().supabase_last_checked_at.unwrap() > 0);
}

#[test]
fn monthly_digest_steps() {
    assert_eq!(after_duplicate_check::<()>(Ok(true)), Err(GenerateMonthlyDigestError::DuplicateDigest));
    assert_eq!(
        after_duplicate_check::<()>(Err(())),
        Err(GenerateMonthlyDigestError::FetchFailed { code: "monthly_digest_duplicate_check_failed" })
    );
    assert_eq!(after_range_fetch::<u8, ()>(Ok(None)), Err(GenerateMonthlyDigestError::NoEntriesForPeriod));
    assert_eq!(GenerateMonthlyDigestError::DuplicateDigest.as_error_code(), "monthly_digest_duplicate");
    assert_eq!(
        GenerateMonthlyDigestError::BuildFailed { code: "b".to_owned() }.to_display_string(),
        "monthly digest build failed: b"
    );
    assert_eq!(after_materials_fetch::<u8, ()>(Ok(None)), Err(VerifyMonthlyDigestError::DigestNotFound));
    assert_eq!(VerifyMonthlyDigestError::RangeModifiedAfterDigest.as_error_code(), "monthly_digest_range_modified");
    assert_eq!(
        VerifyMonthlyDigestError::ChainContinuityError { ledger_error_code: "c".to_owned() }.to_display_string(),
        "chain continuity error: c"
    );
    assert_eq!(map_ledger_error_to_code(LedgerChainErrorKind::Other), "chain_verification_error");
    assert_eq!(check_end_hash(&[1, 2], &[1, 3]), Err(VerifyMonthlyDigestError::EndHashMismatch));
    assert_eq!(check_digest_hash("ab", "ab"), Ok(()));
    assert_eq!(
        check_range_unmodified::<()>(Ok(Some((5, 10))), 4, 10),
        Err(VerifyMonthlyDigestError::RangeModifiedAfterDigest)
    );
    assert_eq!(check_range_unmodified::<()>(Ok(Some((4, 10))), 4, 10), Ok(()));
    assert_eq!(
        check_range_unmodified::<()>(Ok(None), 4, 10),
        Err(VerifyMonthlyDigestError::FetchFailed { code: "monthly_digest_range_fetch_empty" })
    );
}

#[test]
fn verification_keys_keep_first_of_each_version() {
    let restored: Vec<Result<Option<(u32, &str)>, ()>> =
        vec![Ok(Some((1, "a"))), Ok(None), Ok(Some((2, "b"))), Ok(Some((1, "c")))];
    assert_eq!(collect_verification_keys(restored).unwrap(), vec![(1, "a"), (2, "b")]);
    let restored: Vec<Result<Option<(u32, &str)>, ()>> = vec![Ok(Some((1, "a"))), Err(())];
    assert_eq!(
        collect_verification_keys(restored).unwrap_err(),
        VerifyMonthlyDigestError::FetchFailed { code: "monthly_digest_chain_key_restore_failed" }
    );
}

#[test]
fn archive_export_codes() {
    assert_eq!(
        archive_backend_error_code(&ArchiveBackendError::BackendFailed { code: "archive_export_overwrite_rejected".to_owned() }),
        "archive_export_overwrite_rejected"
    );
    assert_eq!(
        archive_backend_error_code(&ArchiveBackendError::BackendFailed { code: "s3".to_owned() }),
        "archive_export_backend_failed"
    );
    assert_eq!(archive_backend_error_code(&ArchiveBackendError::IoError("x".to_owned())), "archive_export_io_error");
    assert_eq!(put_failure_code(&Ok(())), None);
    assert_eq!(verify_failure_code(&Ok(ArchiveVerifyOutcome::ContentMismatch)).as_deref(), Some("archive_export_content_mismatch"));
    assert_eq!(verify_failure_code(&Ok(ArchiveVerifyOutcome::Valid)), None);
    assert_eq!(
        finish_export("k".to_owned(), Err("archive_exported_append_failed")),
        Err(ExportDigestToArchiveError::LedgerAppendFailed { code: "archive_exported_append_failed" })
    );
    assert_eq!(
        ExportDigestToArchiveError::BackendFailed { code: "c".to_owned() }.to_display_string(),
        "archive backend failed: c"
    );
}

fn snapshot(version: u32) -> RetentionVersionSnapshot {
    RetentionVersionSnapshot { secret_version_id: format!("v{version}"), version, key_version: 1 }
}

#[test]
fn retention_purges_oldest_beyond_limit() {
    let stored = vec![snapshot(3), snapshot(1), snapshot(4), snapshot(2)];
    assert_eq!(select_purged_versions(true, stored, snapshot(5)), vec![snapshot(1)]);
    let stored = vec![snapshot(5), snapshot(2), snapshot(4), snapshot(1), snapshot(3)];
    assert_eq!(select_purged_versions(true, stored, snapshot(6)), vec![snapshot(1), snapshot(2)]);
    let stored = vec![snapshot(1), snapshot(2)];
    assert!(select_purged_versions(true, stored, snapshot(3)).is_empty());
    let stored = vec![snapshot(1), snapshot(2), snapshot(3), snapshot(4)];
    assert!(select_purged_versions(false, stored, snapshot(5)).is_empty());
}

#[test]
fn trimming_and_splitting() {
    assert_eq!(trim_text("\t a b \u{3000}"), "a b");
    assert_eq!(trim_text("   "), "");
    assert_eq!(split_on_commas("a,,b,"), vec!["a", "", "b", ""]);
    assert_eq!(split_on_commas(""), vec![""]);
}

#[test]
fn clock_readings_become_clamped_instants() {
    assert_eq!(mipsorcu::clock::instant_from_reading(None), 0);
    assert_eq!(mipsorcu::clock::instant_from_reading(Some(1_500)), 1_500);
    assert_eq!(
        mipsorcu::clock::instant_from_reading(Some(u128::MAX)),
        400_000_000_000_000_000_000
    );
    assert!(mipsorcu::clock::now_unix_nanos() > 0);
}
