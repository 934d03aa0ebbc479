use mipsorcu::ledger::DigestHash;
use mipsorcu::server::timestamping::{next_send_step, SendAction, SendEvent, SendStage, TimestampingCliError};
use mipsorcu::server::use_cases::decrypt_secret::{
    next_decrypt_step, DecryptAction, DecryptEvent, DecryptFailure, DecryptStage,
};
use mipsorcu::server::use_cases::export_digest_to_archive::{
    next_export_step, ArchiveBackendError, ArchiveExportAction, ArchiveExportEvent, ArchiveExportStage,
    ArchiveVerifyOutcome, ExportDigestToArchiveError,
};
use mipsorcu::server::use_cases::generate_monthly_digest::{
    next_generate_step, GenerateAction, GenerateEvent, GenerateMonthlyDigestError, GenerateStage,
};
use mipsorcu::server::use_cases::write_secret_version::{
    next_rotate_step, RotateAction, RotateEvent, RotateFailure, RotateStage,
};
use mipsorcu::server::use_cases::request_timestamping_for_digest::{
    next_timestamping_step, TimestampingAction, TimestampingEvent, TimestampingStage,
};
use mipsorcu::server::use_cases::secret_alias::{
    next_alias_step, AliasAction, AliasEvent, AliasFailure, AliasOperation, AliasStage,
};
use mipsorcu::siem::forwarder::{
    next_forward_step, ForwardAction, ForwardEvent, ForwardStage, SiemForwardOutcome, SiemForwarderStatus,
    SiemRetryPolicy,
};
use mipsorcu::siem::sink::SiemSinkError;
use mipsorcu::timestamping::rfc3161::normalize_nonce;
use mipsorcu::timestamping::service::{TimestampingServiceError, TimestampingToken, TimestampingTokenHash};
use mipsorcu::timestamping::service::{TimestampVerification, VerifiedTimestamp};
use mipsorcu::server::use_cases::request_timestamping_for_digest::RequestTimestampingError;

#[test]
fn export_runs_put_verify_ledger_and_audit() {
    let (stage, action) = next_export_step(ArchiveExportStage::Start, ArchiveExportEvent::Begin);
    assert!(matches!(action, ArchiveExportAction::PutObject));
    let (stage, action) = next_export_step(stage, ArchiveExportEvent::PutFinished(Ok(())));
    assert!(matches!(action, ArchiveExportAction::VerifyObject));
    let (stage, action) = next_export_step(stage, ArchiveExportEvent::VerifyFinished(Ok(ArchiveVerifyOutcome::Valid)));
    assert!(matches!(action, ArchiveExportAction::AppendLedgerEntry));
    let (stage, action) = next_export_step(stage, ArchiveExportEvent::LedgerFinished(Err("ledger_down")));
    assert!(matches!(action, ArchiveExportAction::RecordSuccessAudit));
    let (stage, action) = next_export_step(stage, ArchiveExportEvent::AuditRecorded);
    assert!(matches!(stage, ArchiveExportStage::Done));
    assert!(matches!(
        action,
        ArchiveExportAction::FinishErr(ExportDigestToArchiveError::LedgerAppendFailed { code: "ledger_down" })
    ));
}

#[test]
fn export_failures_are_audited_then_returned() {
    let (stage, action) = next_export_step(
        ArchiveExportStage::AwaitPut,
        ArchiveExportEvent::PutFinished(Err(ArchiveBackendError::IoError("disk".to_owned()))),
    );
    assert!(matches!(&action, ArchiveExportAction::RecordFailureAudit { code } if code == "archive_export_io_error"));
    let (_, action) = next_export_step(stage, ArchiveExportEvent::AuditRecorded);
    assert!(matches!(
        action,
        ArchiveExportAction::FinishErr(ExportDigestToArchiveError::BackendFailed { code }) if code == "archive_export_io_error"
    ));
    let (_, action) = next_export_step(
        ArchiveExportStage::AwaitVerify,
        ArchiveExportEvent::VerifyFinished(Ok(ArchiveVerifyOutcome::ContentMismatch)),
    );
    assert!(matches!(&action, ArchiveExportAction::RecordFailureAudit { code } if code == "archive_export_content_mismatch"));
}

#[test]
fn generation_hashes_the_canonical_form_with_sha3_256() {
    let (stage, _) = next_generate_step(GenerateStage::Start, GenerateEvent::Begin);
    let (stage, action) = next_generate_step(stage, GenerateEvent::DuplicateChecked(Ok(false)));
    assert!(matches!(action, GenerateAction::FetchRange));
    let (stage, action) = next_generate_step(stage, GenerateEvent::RangeFetched(Ok(true)));
    assert!(matches!(action, GenerateAction::BuildCanonicalForm));
    let (stage, action) = next_generate_step(stage, GenerateEvent::CanonicalFormBuilt(Ok(Vec::new())));
    assert!(matches!(action, GenerateAction::SignCanonicalForm));
    let (stage, _) = next_generate_step(stage, GenerateEvent::Signed(Ok(())));
    let (_, action) = next_generate_step(stage, GenerateEvent::Appended(Ok(())));
    match action {
        GenerateAction::FinishOk { digest_hash } => assert_eq!(
            digest_hash.to_hex(),
            "a7ffc6f8bf1ed76651c14756a061d662f580ff4de43b49fa82d80a4b80f8434a"
        ),
        _ => panic!("generation did not finish"),
    }
    assert_eq!(DigestHash::from_canonical_bytes(b"").to_hex(), "a7ffc6f8bf1ed76651c14756a061d662f580ff4de43b49fa82d80a4b80f8434a");
}

#[test]
fn generation_failures() {
    let (_, action) = next_generate_step(GenerateStage::AwaitDuplicateCheck, GenerateEvent::DuplicateChecked(Ok(true)));
    assert!(matches!(action, GenerateAction::FinishErr(GenerateMonthlyDigestError::DuplicateDigest)));
    let (_, action) = next_generate_step(GenerateStage::AwaitDuplicateCheck, GenerateEvent::DuplicateChecked(Err(())));
    assert!(matches!(
        action,
        GenerateAction::FinishErr(GenerateMonthlyDigestError::FetchFailed { code: "monthly_digest_duplicate_check_failed" })
    ));
    let (_, action) = next_generate_step(GenerateStage::AwaitRange, GenerateEvent::RangeFetched(Ok(false)));
    assert!(matches!(action, GenerateAction::FinishErr(GenerateMonthlyDigestError::NoEntriesForPeriod)));
    let (_, action) = next_generate_step(
        GenerateStage::AwaitCanonicalForm,
        GenerateEvent::CanonicalFormBuilt(Err("bad range".to_owned())),
    );
    assert!(matches!(action, GenerateAction::FinishErr(GenerateMonthlyDigestError::BuildFailed { code }) if code == "bad range"));
    let hash = DigestHash::from_bytes([1; 32]);
    let (_, action) = next_generate_step(GenerateStage::AwaitAppend { digest_hash: hash }, GenerateEvent::Appended(Err("x")));
    assert!(matches!(action, GenerateAction::FinishErr(GenerateMonthlyDigestError::AppendFailed { code: "x" })));
}

#[test]
fn decryption_fails_closed() {
    let (stage, _) = next_decrypt_step(DecryptStage::Start, DecryptEvent::Begin);
    let (stage, action) = next_decrypt_step(stage, DecryptEvent::Resolved(false));
    assert_eq!(action, DecryptAction::RecordFailureAudit { with_target: false });
    assert_eq!(next_decrypt_step(stage, DecryptEvent::AuditRecorded(false)).1, DecryptAction::ReturnError { failed: DecryptFailure::Resolve });
    let (stage, action) = next_decrypt_step(DecryptStage::AwaitDecrypt, DecryptEvent::Decrypted(true));
    assert_eq!(action, DecryptAction::RecordSuccessAudit);
    assert_eq!(next_decrypt_step(stage, DecryptEvent::AuditRecorded(true)).1, DecryptAction::ReturnOutput);
    assert_eq!(
        next_decrypt_step(stage, DecryptEvent::AuditRecorded(false)).1,
        DecryptAction::ReturnError { failed: DecryptFailure::SuccessAudit }
    );
    assert_eq!(
        next_decrypt_step(DecryptStage::AwaitFetch, DecryptEvent::Fetched(false)),
        (DecryptStage::AwaitFailureAudit { failed: DecryptFailure::Fetch }, DecryptAction::RecordFailureAudit { with_target: true })
    );
}

#[test]
fn rotation_checks_authorization_before_submitting() {
    let mut stage = RotateStage::Start;
    let events = [
        RotateEvent::Begin,
        RotateEvent::Resolved(true),
        RotateEvent::WriteStateFetched(true),
        RotateEvent::Authorized(true),
        RotateEvent::RetentionFetched(true),
        RotateEvent::Prepared(true),
    ];
    let mut last = RotateAction::ResolveSecretRef;
    for event in events {
        let (next, action) = next_rotate_step(stage, event);
        stage = next;
        last = action;
    }
    assert_eq!(last, RotateAction::SubmitVersion);
    assert_eq!(next_rotate_step(stage, RotateEvent::Submitted), (RotateStage::Done, RotateAction::ReturnSubmitted));
    let (stage, action) = next_rotate_step(RotateStage::AwaitAuthorization, RotateEvent::Authorized(false));
    assert_eq!(action, RotateAction::RecordFailureAudit { with_target: true });
    assert_eq!(next_rotate_step(stage, RotateEvent::AuditRecorded(false)).1, RotateAction::ReturnError { failed: RotateFailure::Forbidden });
    assert_eq!(
        next_rotate_step(RotateStage::AwaitResolveFailureAudit, RotateEvent::AuditRecorded(false)).1,
        RotateAction::ReturnError { failed: RotateFailure::ResolveAudit }
    );
}

#[test]
fn send_verifies_before_requesting() {
    let (stage, _) = next_send_step(SendStage::Start, SendEvent::Begin);
    let (stage, action) = next_send_step(stage, SendEvent::DigestVerified(Err("tampered".to_owned())));
    assert!(matches!(action, SendAction::RecordVerifyFailureAudit));
    let (_, action) = next_send_step(stage, SendEvent::AuditRecorded);
    assert!(matches!(action, SendAction::FinishErr(TimestampingCliError::VerifyDigestFailed(m)) if m == "tampered"));

    let (stage, _) = next_send_step(SendStage::AwaitDigestVerification, SendEvent::DigestVerified(Ok(())));
    let (stage, action) = next_send_step(stage, SendEvent::AuditRecorded);
    assert!(matches!(action, SendAction::PrepareDigestAndProvider));
    let (stage, action) = next_send_step(stage, SendEvent::Prepared(Ok(())));
    assert!(matches!(action, SendAction::RequestTimestamp));
    let (stage, action) = next_send_step(stage, SendEvent::TimestampObtained(Ok(())));
    assert!(matches!(action, SendAction::PersistToken));
    let (stage, action) = next_send_step(stage, SendEvent::TokenPersisted(Ok(())));
    assert!(matches!(action, SendAction::SelfCheckToken));
    let valid = TimestampVerification::Valid(VerifiedTimestamp { tsa_serial_hex: "0a".to_owned(), gen_time: Some("t".to_owned()) });
    let (_, action) = next_send_step(stage, SendEvent::SelfChecked(Ok(valid)));
    assert!(matches!(
        action,
        SendAction::FinishOk { tsa_serial: Some(s), gen_time: Some(g) } if s == "0a" && g == "t"
    ));
    let (_, action) = next_send_step(
        SendStage::AwaitTimestamp,
        SendEvent::TimestampObtained(Err(RequestTimestampingError::LedgerAppendFailed { code: "ledger_x" })),
    );
    assert!(matches!(action, SendAction::FinishErr(TimestampingCliError::RequestFailed(m)) if m == "ledger_x"));
    let (_, action) = next_send_step(SendStage::AwaitTokenPersisted, SendEvent::TokenPersisted(Err("s3".to_owned())));
    assert!(matches!(action, SendAction::FinishErr(TimestampingCliError::ArchivePersistFailed(m)) if m == "s3"));
}

#[test]
fn nonce_normalization_keeps_a_positive_minimal_integer() {
    let n = normalize_nonce([0xff; 16]);
    assert_eq!(n[0], 0x7f);
    assert_eq!(&n[1..], &[0xff; 15]);
    assert_eq!(normalize_nonce([0; 16])[0], 1);
    assert_eq!(normalize_nonce([0x80; 16])[0], 1);
    assert_eq!(normalize_nonce([0x42; 16])[0], 0x43);
}

#[test]
fn timestamp_request_appends_then_audits() {
    let (stage, _) = next_timestamping_step(TimestampingStage::Start, TimestampingEvent::Begin);
    let token = TimestampingToken::new(vec![1, 2, 3]).unwrap();
    let expected_hash = TimestampingTokenHash::from_token(&token);
    let (stage, action) = next_timestamping_step(stage, TimestampingEvent::TokenReceived(Ok(token)));
    assert!(matches!(action, TimestampingAction::AppendLedgerEntry { token_hash } if token_hash == expected_hash));
    let (stage, action) = next_timestamping_step(stage, TimestampingEvent::LedgerAppended(Err("ledger_x")));
    assert!(matches!(action, TimestampingAction::RecordSuccessAudit { token_hash } if token_hash == expected_hash));
    let (_, action) = next_timestamping_step(stage, TimestampingEvent::AuditRecorded);
    assert!(matches!(
        action,
        TimestampingAction::Finish(Err(RequestTimestampingError::LedgerAppendFailed { code: "ledger_x" }))
    ));

    let (stage, action) = next_timestamping_step(
        TimestampingStage::AwaitToken,
        TimestampingEvent::TokenReceived(Err(TimestampingServiceError::InvalidResponse { reason: "r" })),
    );
    assert!(matches!(&action, TimestampingAction::RecordFailureAudit { code } if code == "digest_timestamping_invalid_response"));
    let (_, action) = next_timestamping_step(stage, TimestampingEvent::AuditRecorded);
    assert!(matches!(
        action,
        TimestampingAction::Finish(Err(RequestTimestampingError::BackendFailed { code })) if code == "digest_timestamping_invalid_response"
    ));
}

#[test]
fn forwarding_retries_then_buffers() {
    let policy = SiemRetryPolicy::for_test(2, 100, 1000);
    let mut status = SiemForwarderStatus::new();
    let failure = || SiemSinkError::BackendFailed { code: "siem_down".to_owned() };
    let (stage, action) = next_forward_step(policy, &mut status, 5, ForwardStage::Start, ForwardEvent::Begin { batch_len: 3 });
    assert!(matches!(action, ForwardAction::SendBatch { pause_ms: 0 }));
    let (stage, action) = next_forward_step(policy, &mut status, 5, stage, ForwardEvent::SendFinished(Err(failure())));
    assert!(matches!(action, ForwardAction::SendBatch { pause_ms: 100 }));
    let (stage, action) = next_forward_step(policy, &mut status, 5, stage, ForwardEvent::SendFinished(Err(failure())));
    assert!(matches!(action, ForwardAction::AppendPending));
    assert_eq!(status.failure_since(), None);
    let (_, action) = next_forward_step(policy, &mut status, 7, stage, ForwardEvent::BufferAppended(true));
    assert!(matches!(
        action,
        ForwardAction::Finish(SiemForwardOutcome::Buffered { sink_error_code }) if sink_error_code == "siem_down"
    ));
    assert_eq!(status.failure_since(), Some(7));

    let (stage, _) = next_forward_step(policy, &mut status, 9, ForwardStage::Start, ForwardEvent::Begin { batch_len: 1 });
    let (_, action) = next_forward_step(policy, &mut status, 9, stage, ForwardEvent::SendFinished(Ok(())));
    assert!(matches!(action, ForwardAction::Finish(SiemForwardOutcome::SentDirect)));
    assert_eq!(status.failure_since(), None);

    let (_, action) = next_forward_step(policy, &mut status, 9, ForwardStage::Start, ForwardEvent::Begin { batch_len: 0 });
    assert!(matches!(action, ForwardAction::Finish(SiemForwardOutcome::SentDirect)));
    let (stage, action) = next_forward_step(policy, &mut status, 9, ForwardStage::Start, ForwardEvent::Begin { batch_len: 101 });
    assert!(matches!(action, ForwardAction::AppendPending));
    let (_, action) = next_forward_step(policy, &mut status, 11, stage, ForwardEvent::BufferAppended(false));
    assert!(matches!(
        action,
        ForwardAction::Finish(SiemForwardOutcome::BufferingFailed { sink_error_code }) if sink_error_code == "siem_invalid_response"
    ));
}

#[test]
fn alias_creation_requires_the_owner() {
    let begin = |operation| AliasEvent::Begin { operation, actor: "user-1".to_owned() };
    let (stage, action) = next_alias_step(AliasStage::Start, begin(AliasOperation::Create));
    assert_eq!(action, AliasAction::FetchCurrentVersion);
    let (stage2, action) = next_alias_step(stage, AliasEvent::CurrentVersionFetched(Some("user-2".to_owned())));
    assert_eq!(action, AliasAction::RecordFailureAudit { with_target: true });
    assert_eq!(next_alias_step(stage2, AliasEvent::AuditRecorded).1, AliasAction::ReturnError { failed: AliasFailure::Forbidden });

    let (stage, _) = next_alias_step(AliasStage::Start, begin(AliasOperation::Create));
    let (stage, action) = next_alias_step(stage, AliasEvent::CurrentVersionFetched(Some("user-1".to_owned())));
    assert_eq!(action, AliasAction::PrepareAlias);
    let (stage, action) = next_alias_step(stage, AliasEvent::Done(true));
    assert_eq!(action, AliasAction::BuildParams);
    let (stage, action) = next_alias_step(stage, AliasEvent::Done(true));
    assert_eq!(action, AliasAction::CallRpc);
    assert_eq!(next_alias_step(stage, AliasEvent::Done(true)).1, AliasAction::ReturnOutput);
}

#[test]
fn alias_listing_delete_and_resolve() {
    let begin = |operation| AliasEvent::Begin { operation, actor: "u".to_owned() };
    let (stage, _) = next_alias_step(AliasStage::Start, begin(AliasOperation::List));
    let (failed, action) = next_alias_step(stage, AliasEvent::Done(false));
    assert_eq!(action, AliasAction::RecordFailureAudit { with_target: false });
    assert_eq!(next_alias_step(failed, AliasEvent::AuditRecorded).1, AliasAction::ReturnError { failed: AliasFailure::Call });
    let (stage, _) = next_alias_step(AliasStage::Start, begin(AliasOperation::List));
    let (stage, action) = next_alias_step(stage, AliasEvent::Done(true));
    assert_eq!(action, AliasAction::ParseRows);
    let (stage, action) = next_alias_step(stage, AliasEvent::Done(true));
    assert_eq!(action, AliasAction::RecordSuccessAudit);
    assert_eq!(next_alias_step(stage, AliasEvent::Done(false)).1, AliasAction::ReturnError { failed: AliasFailure::SuccessAudit });

    let (stage, _) = next_alias_step(AliasStage::Start, begin(AliasOperation::Delete));
    assert_eq!(next_alias_step(stage, AliasEvent::Done(false)).1, AliasAction::ReturnError { failed: AliasFailure::SourceEventAt });

    let (stage, _) = next_alias_step(AliasStage::Start, begin(AliasOperation::Resolve));
    let (stage, _) = next_alias_step(stage, AliasEvent::Done(true));
    assert_eq!(next_alias_step(AliasStage::AwaitResolve, AliasEvent::Resolved(Ok(false))).1, AliasAction::ReturnError { failed: AliasFailure::NotFound });
    let (stage, action) = next_alias_step(stage, AliasEvent::Resolved(Ok(true)));
    assert_eq!(action, AliasAction::DecryptResolvedRow);
    assert_eq!(
        next_alias_step(stage, AliasEvent::ResolvedAlias(Some(("a".to_owned(), "b".to_owned())))).1,
        AliasAction::ReturnError { failed: AliasFailure::AliasMismatch }
    );
}
