use mipsorcu::server::scheduler::{
    classify_envelope_migration, classify_ledger_verification, daily_period_key, due_jobs, job_completion,
    previous_month_period, quarter_period_key, verify_chain_links, verify_hash_chain_rows, verify_signature_rows,
    EnvelopeMigrationErrorKind, JobLock, JobResult, JobRunKey, JobRunStart, LedgerChainHead, LedgerEntryLink,
    LedgerVerificationSummary, RestoredLedgerRow, ScheduledJobName, SchedulerConfig, SchedulerRuntimeState,
    SignatureRow, UtcDateTime, VerifyingKeyRestore,
};

fn hash(byte: u8) -> Vec<u8> {
    vec![byte; 32]
}

fn link(sequence_no: u64, previous: u8, own: u8) -> LedgerEntryLink {
    LedgerEntryLink {
        sequence_no,
        previous_entry_hash: hash(previous),
        entry_hash: hash(own),
        recomputed_entry_hash: hash(own),
    }
}

fn chain() -> Vec<LedgerEntryLink> {
    vec![link(1, 0, 1), link(2, 1, 2), link(3, 2, 3)]
}

fn head(last_sequence_no: u64, last: u8) -> LedgerChainHead {
    LedgerChainHead { last_sequence_no, last_entry_hash: hash(last) }
}

fn verdict(result: Result<LedgerVerificationSummary, &'static str>) -> (bool, u64, Option<&'static str>) {
    let summary = result.unwrap();
    (summary.valid, summary.checked_count, summary.error_code)
}

#[test]
fn intact_chain_verifies() {
    assert_eq!(verdict(verify_chain_links(&chain(), &head(3, 3))), (true, 3, None));
    assert_eq!(verdict(verify_chain_links(&[], &head(0, 0))), (true, 0, None));
}

#[test]
fn chain_faults_are_reported_in_order() {
    let mut gap = chain();
    gap[1].sequence_no = 5;
    assert_eq!(verdict(verify_chain_links(&gap, &head(3, 3))), (false, 3, Some("ledger_sequence_gap")));

    let mut relinked = chain();
    relinked[2].previous_entry_hash = hash(9);
    assert_eq!(
        verdict(verify_chain_links(&relinked, &head(3, 3))),
        (false, 3, Some("ledger_previous_hash_mismatch"))
    );

    let mut tampered = chain();
    tampered[0].recomputed_entry_hash = hash(7);
    assert_eq!(
        verdict(verify_chain_links(&tampered, &head(3, 3))),
        (false, 3, Some("ledger_entry_hash_mismatch"))
    );

    assert_eq!(
        verdict(verify_chain_links(&chain(), &head(4, 3))),
        (false, 3, Some("ledger_chain_head_mismatch"))
    );
    assert_eq!(
        verdict(verify_chain_links(&chain(), &head(3, 2))),
        (false, 3, Some("ledger_chain_head_mismatch"))
    );
}

#[test]
fn hash_chain_rows_stop_at_forbidden_keys_and_failed_restores() {
    let rows: Vec<RestoredLedgerRow> = chain()
        .into_iter()
        .map(|entry| RestoredLedgerRow { payload_has_forbidden_key: false, entry: Some(entry) })
        .collect();
    assert_eq!(verdict(verify_hash_chain_rows(&head(3, 3), &rows)), (true, 3, None));

    let mut forbidden: Vec<RestoredLedgerRow> = chain()
        .into_iter()
        .map(|entry| RestoredLedgerRow { payload_has_forbidden_key: false, entry: Some(entry) })
        .collect();
    forbidden[2].payload_has_forbidden_key = true;
    forbidden[1].entry = None;
    assert_eq!(verify_hash_chain_rows(&head(3, 3), &forbidden).err(), Some("ledger_entry_restore_failed"));
    forbidden[1].payload_has_forbidden_key = true;
    assert_eq!(
        verdict(verify_hash_chain_rows(&head(3, 3), &forbidden)),
        (false, 1, Some("ledger_payload_forbidden_key"))
    );
}

fn good_row() -> SignatureRow {
    SignatureRow {
        payload_has_forbidden_key: false,
        entry_restored: true,
        verifying_key: VerifyingKeyRestore::Present,
        signature_valid: true,
    }
}

#[test]
fn signature_rows_stop_at_the_first_failure() {
    assert_eq!(verdict(verify_signature_rows(&[good_row(), good_row()])), (true, 2, None));
    let invalid = SignatureRow { signature_valid: false, ..good_row() };
    assert_eq!(
        verdict(verify_signature_rows(&[good_row(), invalid, good_row()])),
        (false, 3, Some("ledger_signature_invalid"))
    );
    let missing = SignatureRow { verifying_key: VerifyingKeyRestore::Missing, ..good_row() };
    assert_eq!(
        verdict(verify_signature_rows(&[missing, invalid])),
        (false, 2, Some("ledger_signature_key_missing"))
    );
    let forbidden = SignatureRow { payload_has_forbidden_key: true, ..good_row() };
    assert_eq!(
        verdict(verify_signature_rows(&[good_row(), forbidden, missing])),
        (false, 1, Some("ledger_payload_forbidden_key"))
    );
    let failed_key = SignatureRow { verifying_key: VerifyingKeyRestore::Failed, ..good_row() };
    assert_eq!(verify_signature_rows(&[failed_key]).err(), Some("ledger_key_restore_failed"));
    let unrestored = SignatureRow { entry_restored: false, ..good_row() };
    assert_eq!(verify_signature_rows(&[unrestored]).err(), Some("ledger_entry_restore_failed"));
}

fn at(year: i32, month: u8, day: u8, hour: u8) -> UtcDateTime {
    UtcDateTime { year, month, day, hour }
}

fn config() -> SchedulerConfig {
    SchedulerConfig {
        startup_delay: std::time::Duration::from_secs(30),
        poll_interval: std::time::Duration::from_secs(3600),
        monthly_day: 1,
        monthly_hour_utc: 3,
        quarterly_hour_utc: 4,
        daily_hour_utc: 2,
        envelope_migration_batch_size: 100,
        envelope_migration_max_batches: 10,
        restore_test_sample_limit: 5,
        local_archive_dir: "/tmp/archive".to_owned(),
    }
}

#[test]
fn cadences_and_period_keys() {
    let due = due_jobs(at(2026, 4, 1, 4), &config());
    assert!(due.monthly && due.daily && due.quarterly);
    let due = due_jobs(at(2026, 5, 1, 3), &config());
    assert!(due.monthly && due.daily && !due.quarterly);
    let due = due_jobs(at(2026, 5, 2, 1), &config());
    assert!(!due.monthly && !due.daily && !due.quarterly);

    assert_eq!(daily_period_key(at(2026, 3, 7, 0)), "2026-03-07");
    assert_eq!(daily_period_key(at(-5, 3, 7, 0)), "-005-03-07");
    assert_eq!(quarter_period_key(at(2026, 8, 7, 0)), "2026-Q3");

    let previous = previous_month_period(at(2026, 1, 15, 0)).ok().unwrap();
    assert_eq!((previous.year, previous.month), (2025, 12));
    let previous = previous_month_period(at(2026, 7, 15, 0)).ok().unwrap();
    assert_eq!((previous.year, previous.month), (2026, 6));
    assert!(previous_month_period(at(0, 1, 1, 0)).is_err());
}

#[test]
fn completed_runs_are_not_restarted_and_locks_exclude_overlap() {
    let mut state = SchedulerRuntimeState::new();
    let key = |period: &str| JobRunKey { job_name: ScheduledJobName::ArchiveExport, period_key: period.to_owned() };
    assert_eq!(state.begin_job_run(&key("2026-03")), JobRunStart::Started);
    assert_eq!(state.begin_job_run(&key("2026-04")), JobRunStart::AlreadyRunning);
    state.finish_job_run(key("2026-03"), true);
    assert!(state.is_completed(&key("2026-03")));
    assert_eq!(state.begin_job_run(&key("2026-03")), JobRunStart::AlreadyCompleted);
    assert_eq!(state.begin_job_run(&key("2026-04")), JobRunStart::Started);
    state.finish_job_run(key("2026-04"), false);
    assert!(!state.is_completed(&key("2026-04")));
    assert_eq!(state.begin_job_run(&key("2026-04")), JobRunStart::Started);
    assert_eq!(ScheduledJobName::ArchiveExport.as_str(), "archive_export");

    let mut lock = JobLock::new();
    assert!(lock.try_enter());
    assert!(!lock.try_enter());
    lock.release();
    assert!(lock.try_enter());
}

#[test]
fn job_results_and_codes() {
    let ok = Ok(LedgerVerificationSummary { valid: true, checked_count: 2, error_code: None });
    assert_eq!(classify_ledger_verification(&ok, "dflt"), (JobResult::Success, None));
    let bad = Ok(LedgerVerificationSummary { valid: false, checked_count: 2, error_code: None });
    assert_eq!(classify_ledger_verification(&bad, "dflt"), (JobResult::Failure, Some("dflt")));
    assert_eq!(classify_ledger_verification(&Err("boom"), "dflt"), (JobResult::Failure, Some("boom")));
    assert_eq!(job_completion(JobResult::Success, Some("x"), "d"), Ok(()));
    assert_eq!(job_completion(JobResult::Failure, None, "d"), Err("d"));
    assert_eq!(classify_envelope_migration(Ok(0)), (JobResult::Success, None));
    assert_eq!(
        classify_envelope_migration(Ok(3)),
        (JobResult::Failure, Some("envelope_migration_partial_failure"))
    );
    assert_eq!(
        classify_envelope_migration(Err(EnvelopeMigrationErrorKind::Crypto)),
        (JobResult::Failure, Some("envelope_migration_crypto_failed"))
    );
}
