use vstd::prelude::*;

verus! {

/// What a successful decryption returns: the secret, the version that was
/// decrypted, and its plaintext.
#[derive(Debug)]
pub struct DecryptSecretOutput {
    secret_id: String,
    version: u32,
    plaintext: Vec<u8>,
}

impl DecryptSecretOutput {
    pub closed spec fn spec_secret_id(&self) -> Seq<char> {
        self.secret_id@
    }

    pub closed spec fn spec_version(&self) -> u32 {
        self.version
    }

    pub closed spec fn spec_plaintext(&self) -> Seq<u8> {
        self.plaintext@
    }

    pub fn new(secret_id: String, version: u32, plaintext: Vec<u8>) -> (output: Self)
        ensures
            output.spec_secret_id() == secret_id@,
            output.spec_version() == version,
            output.spec_plaintext() == plaintext@,
    {
        DecryptSecretOutput { secret_id, version, plaintext }
    }

    /// The secret's id (canonical UUID text).
    pub fn secret_id(&self) -> (id: &str)
        ensures
            id@ == self.spec_secret_id(),
    {
        self.secret_id.as_str()
    }

    pub fn version(&self) -> (version: u32)
        ensures
            version == self.spec_version(),
    {
        self.version
    }

    pub fn plaintext(&self) -> (plaintext: &[u8])
        ensures
            plaintext@ == self.spec_plaintext(),
    {
        self.plaintext.as_slice()
    }
}

/// The step of a decryption that failed.
#[derive(Debug, Clone, Copy, PartialEq, Eq, Structural)]
pub enum DecryptFailure {
    /// The secret reference (id or alias) could not be resolved.
    Resolve,
    /// The current version could not be read.
    Fetch,
    /// The current version could not be decrypted.
    Decrypt,
    /// The success audit could not be recorded.
    SuccessAudit,
}

/// Where a decryption stands.
#[derive(Debug, Clone, Copy, PartialEq, Eq, Structural)]
pub enum DecryptStage {
    Start,
    AwaitResolve,
    AwaitFetch,
    AwaitDecrypt,
    AwaitSuccessAudit,
    /// The failure audit of `failed` is being recorded.
    AwaitFailureAudit { failed: DecryptFailure },
    Done,
}

/// The outcome of the outside work of the previous step: whether it succeeded.
#[derive(Debug, Clone, Copy, PartialEq, Eq, Structural)]
pub enum DecryptEvent {
    Begin,
    Resolved(bool),
    Fetched(bool),
    Decrypted(bool),
    AuditRecorded(bool),
}

/// What the caller must do next.
#[derive(Debug, Clone, Copy, PartialEq, Eq, Structural)]
pub enum DecryptAction {
    ResolveSecretRef,
    FetchCurrentVersion,
    DecryptCurrentVersion,
    RecordSuccessAudit,
    /// Record the failure audit, naming the secret when it was resolved.
    RecordFailureAudit { with_target: bool },
    /// Return the decrypted secret.
    ReturnOutput,
    /// Return the error of the step that failed.
    ReturnError { failed: DecryptFailure },
}

pub open spec fn decrypt_event_fits(stage: DecryptStage, event: DecryptEvent) -> bool {
    match stage {
        DecryptStage::Start => event is Begin,
        DecryptStage::AwaitResolve => event is Resolved,
        DecryptStage::AwaitFetch => event is Fetched,
        DecryptStage::AwaitDecrypt => event is Decrypted,
        DecryptStage::AwaitSuccessAudit => event is AuditRecorded,
        DecryptStage::AwaitFailureAudit { .. } => event is AuditRecorded,
        DecryptStage::Done => false,
    }
}

/// The next step of a decryption. Decryption fails closed: a failure of
/// resolving, reading or decrypting is audited (with the secret once it is
/// known) and returned, whatever the audit gives; the plaintext is returned
/// only after its success audit was recorded, and a failed success audit is
/// returned as the error.
pub open spec fn decrypt_step(stage: DecryptStage, event: DecryptEvent) -> (DecryptStage, DecryptAction) {
    match (stage, event) {
        (DecryptStage::Start, _) => (DecryptStage::AwaitResolve, DecryptAction::ResolveSecretRef),
        (DecryptStage::AwaitResolve, DecryptEvent::Resolved(true)) => (DecryptStage::AwaitFetch, DecryptAction::FetchCurrentVersion),
        (DecryptStage::AwaitResolve, _) => (
            DecryptStage::AwaitFailureAudit { failed: DecryptFailure::Resolve },
            DecryptAction::RecordFailureAudit { with_target: false },
        ),
        (DecryptStage::AwaitFetch, DecryptEvent::Fetched(true)) => (DecryptStage::AwaitDecrypt, DecryptAction::DecryptCurrentVersion),
        (DecryptStage::AwaitFetch, _) => (
            DecryptStage::AwaitFailureAudit { failed: DecryptFailure::Fetch },
            DecryptAction::RecordFailureAudit { with_target: true },
        ),
        (DecryptStage::AwaitDecrypt, DecryptEvent::Decrypted(true)) => (DecryptStage::AwaitSuccessAudit, DecryptAction::RecordSuccessAudit),
        (DecryptStage::AwaitDecrypt, _) => (
            DecryptStage::AwaitFailureAudit { failed: DecryptFailure::Decrypt },
            DecryptAction::RecordFailureAudit { with_target: true },
        ),
        (DecryptStage::AwaitSuccessAudit, DecryptEvent::AuditRecorded(true)) => (DecryptStage::Done, DecryptAction::ReturnOutput),
        (DecryptStage::AwaitSuccessAudit, _) => (
            DecryptStage::Done,
            DecryptAction::ReturnError { failed: DecryptFailure::SuccessAudit },
        ),
        (DecryptStage::AwaitFailureAudit { failed }, _) => (DecryptStage::Done, DecryptAction::ReturnError { failed }),
        (DecryptStage::Done, _) => (DecryptStage::Done, DecryptAction::ReturnError { failed: DecryptFailure::Resolve }),
    }
}

/// What fail-closed decryption asks of one step: a failed resolve, read or
/// decryption is followed by its failure audit (naming the secret once it is
/// resolved); the error of such a step is returned only from its audit
/// stage; the plaintext only after the success audit was recorded.
pub open spec fn decrypt_failure_audited(
    stage: DecryptStage,
    event: DecryptEvent,
    step: (DecryptStage, DecryptAction),
) -> bool {
    &&& (stage is AwaitResolve && event == DecryptEvent::Resolved(false)) ==> step == (
        DecryptStage::AwaitFailureAudit { failed: DecryptFailure::Resolve },
        DecryptAction::RecordFailureAudit { with_target: false },
    )
    &&& (stage is AwaitFetch && event == DecryptEvent::Fetched(false)) ==> step == (
        DecryptStage::AwaitFailureAudit { failed: DecryptFailure::Fetch },
        DecryptAction::RecordFailureAudit { with_target: true },
    )
    &&& (stage is AwaitDecrypt && event == DecryptEvent::Decrypted(false)) ==> step == (
        DecryptStage::AwaitFailureAudit { failed: DecryptFailure::Decrypt },
        DecryptAction::RecordFailureAudit { with_target: true },
    )
    &&& (step.1 matches DecryptAction::ReturnError { failed } && failed != DecryptFailure::SuccessAudit) ==> stage
        == (DecryptStage::AwaitFailureAudit { failed: step.1->failed })
    &&& step.1 is ReturnOutput ==> (stage is AwaitSuccessAudit && event == DecryptEvent::AuditRecorded(true))
}

/// Law: every step of a decryption is fail-closed in the sense of
/// [`decrypt_failure_audited`].
pub proof fn lemma_decrypt_failures_are_audited(stage: DecryptStage, event: DecryptEvent)
    requires
        decrypt_event_fits(stage, event),
    ensures
        decrypt_failure_audited(stage, event, decrypt_step(stage, event)),
{
}

/// Takes one step of a decryption: see [`decrypt_step`].
pub fn next_decrypt_step(stage: DecryptStage, event: DecryptEvent) -> (step: (DecryptStage, DecryptAction))
    requires
        decrypt_event_fits(stage, event),
    ensures
        step == decrypt_step(stage, event),
        decrypt_failure_audited(stage, event, step),
{
    match (stage, event) {
        (DecryptStage::Start, _) => (DecryptStage::AwaitResolve, DecryptAction::ResolveSecretRef),
        (DecryptStage::AwaitResolve, DecryptEvent::Resolved(true)) => (DecryptStage::AwaitFetch, DecryptAction::FetchCurrentVersion),
        (DecryptStage::AwaitResolve, _) => (
            DecryptStage::AwaitFailureAudit { failed: DecryptFailure::Resolve },
            DecryptAction::RecordFailureAudit { with_target: false },
        ),
        (DecryptStage::AwaitFetch, DecryptEvent::Fetched(true)) => (DecryptStage::AwaitDecrypt, DecryptAction::DecryptCurrentVersion),
        (DecryptStage::AwaitFetch, _) => (
            DecryptStage::AwaitFailureAudit { failed: DecryptFailure::Fetch },
            DecryptAction::RecordFailureAudit { with_target: true },
        ),
        (DecryptStage::AwaitDecrypt, DecryptEvent::Decrypted(true)) => (DecryptStage::AwaitSuccessAudit, DecryptAction::RecordSuccessAudit),
        (DecryptStage::AwaitDecrypt, _) => (
            DecryptStage::AwaitFailureAudit { failed: DecryptFailure::Decrypt },
            DecryptAction::RecordFailureAudit { with_target: true },
        ),
        (DecryptStage::AwaitSuccessAudit, DecryptEvent::AuditRecorded(true)) => (DecryptStage::Done, DecryptAction::ReturnOutput),
        (DecryptStage::AwaitSuccessAudit, _) => (
            DecryptStage::Done,
            DecryptAction::ReturnError { failed: DecryptFailure::SuccessAudit },
        ),
        (DecryptStage::AwaitFailureAudit { failed }, _) => (DecryptStage::Done, DecryptAction::ReturnError { failed }),
        (DecryptStage::Done, _) => (DecryptStage::Done, DecryptAction::ReturnError { failed: DecryptFailure::Resolve }),
    }
}

/// Law: decryption fails closed. Whatever the outcomes of its outside
/// steps, the plaintext is returned only from the success-audit stage after
/// that audit was recorded.
pub proof fn lemma_plaintext_only_after_success_audit(stage: DecryptStage, event: DecryptEvent)
    requires
        decrypt_event_fits(stage, event),
        decrypt_step(stage, event).1 is ReturnOutput,
    ensures
        stage is AwaitSuccessAudit,
        event == DecryptEvent::AuditRecorded(true),
{
}

} // verus!
