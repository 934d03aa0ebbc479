use vstd::prelude::*;

use crate::text::str_eq;

verus! {

/// What creating a secret alias returns.
#[derive(Debug)]
pub struct CreateSecretAliasOutput {
    secret_alias_id: String,
    secret_id: String,
}

impl CreateSecretAliasOutput {
    pub closed spec fn spec_secret_alias_id(&self) -> Seq<char> {
        self.secret_alias_id@
    }

    pub closed spec fn spec_secret_id(&self) -> Seq<char> {
        self.secret_id@
    }

    pub fn new(secret_alias_id: String, secret_id: String) -> (output: Self)
        ensures
            output.spec_secret_alias_id() == secret_alias_id@,
            output.spec_secret_id() == secret_id@,
    {
        CreateSecretAliasOutput { secret_alias_id, secret_id }
    }

    pub fn secret_alias_id(&self) -> (id: &str)
        ensures
            id@ == self.spec_secret_alias_id(),
    {
        self.secret_alias_id.as_str()
    }

    pub fn secret_id(&self) -> (id: &str)
        ensures
            id@ == self.spec_secret_id(),
    {
        self.secret_id.as_str()
    }
}

/// What updating a secret alias returns.
#[derive(Debug)]
pub struct UpdateSecretAliasOutput {
    secret_alias_id: String,
}

impl UpdateSecretAliasOutput {
    pub closed spec fn spec_secret_alias_id(&self) -> Seq<char> {
        self.secret_alias_id@
    }

    pub fn new(secret_alias_id: String) -> (output: Self)
        ensures
            output.spec_secret_alias_id() == secret_alias_id@,
    {
        UpdateSecretAliasOutput { secret_alias_id }
    }

    pub fn secret_alias_id(&self) -> (id: &str)
        ensures
            id@ == self.spec_secret_alias_id(),
    {
        self.secret_alias_id.as_str()
    }
}

/// The step of an alias use case that failed.
#[derive(Debug, Clone, Copy, PartialEq, Eq, Structural)]
pub enum AliasFailure {
    /// The secret's current version could not be read.
    FetchCurrentVersion,
    /// The caller does not own the secret (answered `Forbidden`).
    Forbidden,
    /// The alias could not be encrypted and fingerprinted.
    Prepare,
    /// The RPC parameters could not be built.
    BuildParams,
    /// The alias RPC failed.
    Call,
    /// The alias to update could not be found for the caller.
    GetForUpdate,
    /// No event time could be taken.
    SourceEventAt,
    /// A listed alias row could not be read or decrypted.
    ParseRows,
    /// The success audit of the listing could not be recorded.
    SuccessAudit,
    /// The lookup fingerprint could not be computed.
    Fingerprint,
    /// No alias of the caller has this fingerprint (answered `NotFound`).
    NotFound,
    /// The resolved alias row could not be read or decrypted.
    ParseRow,
    /// The decrypted alias differs from the requested one (an integrity violation).
    AliasMismatch,
}

/// Where an alias use case stands.
pub enum AliasStage {
    Start,
    /// Creating: the secret's current version is being read for the caller `actor`.
    AwaitCurrentVersion { actor: String },
    /// Updating: the alias is being looked up for the caller.
    AwaitAliasForUpdate,
    /// The alias is being encrypted and fingerprinted for `operation`.
    AwaitPrepare { operation: AliasOperation },
    /// The RPC parameters are being built for `operation`.
    AwaitParams { operation: AliasOperation },
    /// The alias RPC of `operation` is under way.
    AwaitCall { operation: AliasOperation },
    /// Deleting: the event time is being taken.
    AwaitSourceEventAt,
    /// Listing: the listed rows are being read.
    AwaitRowsParsed,
    AwaitSuccessAudit,
    /// Resolving: the lookup fingerprint is being computed.
    AwaitFingerprint,
    /// Resolving: the alias row for the fingerprint is being looked up.
    AwaitResolve,
    /// Resolving: the found row is being decrypted.
    AwaitResolvedAlias,
    /// The failure audit of `failed` is being recorded.
    AwaitFailureAudit { failed: AliasFailure },
    Done,
}

/// Which alias use case runs.
#[derive(Debug, Clone, Copy, PartialEq, Eq, Structural)]
pub enum AliasOperation {
    Create,
    Update,
    Delete,
    List,
    Resolve,
}

/// The outcome of the outside work of the previous step.
pub enum AliasEvent {
    /// The use case `operation` begins for the caller `actor`.
    Begin { operation: AliasOperation, actor: String },
    /// The secret's owner, or `None` when the read failed.
    CurrentVersionFetched(Option<String>),
    /// Whether the step succeeded.
    Done(bool),
    /// The resolve lookup: `Err` when it failed, `Ok(false)` when no row matched.
    Resolved(Result<bool, ()>),
    /// The decrypted alias of the resolved row and the requested alias, or
    /// `None` when the row could not be read.
    ResolvedAlias(Option<(String, String)>),
    AuditRecorded,
}

/// What the caller must do next.
#[derive(Debug, Clone, Copy, PartialEq, Eq, Structural)]
pub enum AliasAction {
    FetchCurrentVersion,
    GetAliasForUpdate,
    PrepareAlias,
    BuildParams,
    CallRpc,
    TakeSourceEventAt,
    ParseRows,
    RecordSuccessAudit,
    ComputeFingerprint,
    ResolveByFingerprint,
    DecryptResolvedRow,
    /// Record the failure audit, naming the secret when it is known.
    RecordFailureAudit { with_target: bool },
    ReturnOutput,
    ReturnError { failed: AliasFailure },
}

pub open spec fn alias_event_fits(stage: AliasStage, event: AliasEvent) -> bool {
    match stage {
        AliasStage::Start => event is Begin,
        AliasStage::AwaitCurrentVersion { .. } => event is CurrentVersionFetched,
        AliasStage::AwaitResolve => event is Resolved,
        AliasStage::AwaitResolvedAlias => event is ResolvedAlias,
        AliasStage::AwaitFailureAudit { .. } => event is AuditRecorded,
        AliasStage::Done => false,
        _ => event is Done,
    }
}

/// A failure of `failed`, audited next.
pub open spec fn alias_audited(step: (AliasStage, AliasAction), failed: AliasFailure, with_target: bool) -> bool {
    step.0 == (AliasStage::AwaitFailureAudit { failed }) && step.1 == (AliasAction::RecordFailureAudit { with_target })
}

/// A failure of `failed`, returned at once without an audit.
pub open spec fn alias_returns_error(step: (AliasStage, AliasAction), failed: AliasFailure) -> bool {
    step.0 is Done && step.1 == (AliasAction::ReturnError { failed })
}

/// Whether a failure of `operation`'s RPC is audited naming the secret:
/// creating and updating know it, deleting and listing do not.
pub open spec fn call_failure_names_secret(operation: AliasOperation) -> bool {
    operation == AliasOperation::Create || operation == AliasOperation::Update
}

/// Whether the outside step reported success.
pub open spec fn succeeded(event: AliasEvent) -> bool {
    event == AliasEvent::Done(true)
}

/// The steps of the alias use cases.
///
/// - Create: read the secret's current version; only its owner may add an
///   alias (else `Forbidden`); prepare the alias, build the parameters and
///   call the RPC. Each failure is audited, naming the secret.
/// - Update: look the alias up for the caller (a failure is audited without
///   a secret), then prepare, build and call, each failure audited with it.
/// - Delete: take the event time (a failure is returned at once), then call;
///   a failed call is audited without a secret.
/// - List: call (a failure is audited without a secret), read the rows (a failure is returned
///   at once), record the success audit (a failure is returned).
/// - Resolve: compute the fingerprint, look it up (no row is `NotFound`),
///   decrypt the row and refuse a decrypted alias that differs from the one
///   requested; no failure is audited.
pub fn next_alias_step(stage: AliasStage, event: AliasEvent) -> (step: (AliasStage, AliasAction))
    requires
        alias_event_fits(stage, event),
    ensures
        stage is Start ==> match event {
            AliasEvent::Begin { operation, actor } => match operation {
                AliasOperation::Create => (step.0 matches AliasStage::AwaitCurrentVersion { actor: a } && a@ == actor@)
                    && step.1 == AliasAction::FetchCurrentVersion,
                AliasOperation::Update => step.0 is AwaitAliasForUpdate && step.1 == AliasAction::GetAliasForUpdate,
                AliasOperation::Delete => step.0 is AwaitSourceEventAt && step.1 == AliasAction::TakeSourceEventAt,
                AliasOperation::List => step.0 == (AliasStage::AwaitCall { operation: AliasOperation::List })
                    && step.1 == AliasAction::CallRpc,
                AliasOperation::Resolve => step.0 is AwaitFingerprint && step.1 == AliasAction::ComputeFingerprint,
            },
            _ => false,
        },
        stage matches AliasStage::AwaitCurrentVersion { actor } ==> match event {
            AliasEvent::CurrentVersionFetched(None) => alias_audited(step, AliasFailure::FetchCurrentVersion, true),
            AliasEvent::CurrentVersionFetched(Some(owner)) => if owner@ == actor@ {
                step.0 == (AliasStage::AwaitPrepare { operation: AliasOperation::Create }) && step.1
                    == AliasAction::PrepareAlias
            } else {
                alias_audited(step, AliasFailure::Forbidden, true)
            },
            _ => false,
        },
        stage is AwaitAliasForUpdate ==> if succeeded(event) {
            step.0 == (AliasStage::AwaitPrepare { operation: AliasOperation::Update }) && step.1
                == AliasAction::PrepareAlias
        } else {
            alias_audited(step, AliasFailure::GetForUpdate, false)
        },
        stage matches AliasStage::AwaitPrepare { operation } ==> if succeeded(event) {
            step.0 == (AliasStage::AwaitParams { operation }) && step.1 == AliasAction::BuildParams
        } else {
            alias_audited(step, AliasFailure::Prepare, true)
        },
        stage matches AliasStage::AwaitParams { operation } ==> if succeeded(event) {
            step.0 == (AliasStage::AwaitCall { operation }) && step.1 == AliasAction::CallRpc
        } else {
            alias_audited(step, AliasFailure::BuildParams, true)
        },
        stage is AwaitSourceEventAt ==> if succeeded(event) {
            step.0 == (AliasStage::AwaitCall { operation: AliasOperation::Delete }) && step.1 == AliasAction::CallRpc
        } else {
            alias_returns_error(step, AliasFailure::SourceEventAt)
        },
        stage matches AliasStage::AwaitCall { operation } ==> if succeeded(event) {
            if operation == AliasOperation::List {
                step.0 is AwaitRowsParsed && step.1 == AliasAction::ParseRows
            } else {
                step.0 is Done && step.1 == AliasAction::ReturnOutput
            }
        } else {
            alias_audited(step, AliasFailure::Call, call_failure_names_secret(operation))
        },
        stage is AwaitRowsParsed ==> if succeeded(event) {
            step.0 is AwaitSuccessAudit && step.1 == AliasAction::RecordSuccessAudit
        } else {
            alias_returns_error(step, AliasFailure::ParseRows)
        },
        stage is AwaitSuccessAudit ==> if succeeded(event) {
            step.0 is Done && step.1 == AliasAction::ReturnOutput
        } else {
            alias_returns_error(step, AliasFailure::SuccessAudit)
        },
        stage is AwaitFingerprint ==> if succeeded(event) {
            step.0 is AwaitResolve && step.1 == AliasAction::ResolveByFingerprint
        } else {
            alias_returns_error(step, AliasFailure::Fingerprint)
        },
        stage is AwaitResolve ==> match event {
            AliasEvent::Resolved(Err(())) => alias_returns_error(step, AliasFailure::Call),
            AliasEvent::Resolved(Ok(false)) => alias_returns_error(step, AliasFailure::NotFound),
            AliasEvent::Resolved(Ok(true)) => step.0 is AwaitResolvedAlias && step.1 == AliasAction::DecryptResolvedRow,
            _ => false,
        },
        stage is AwaitResolvedAlias ==> match event {
            AliasEvent::ResolvedAlias(None) => alias_returns_error(step, AliasFailure::ParseRow),
            AliasEvent::ResolvedAlias(Some((decrypted, requested))) => if decrypted@ == requested@ {
                step.0 is Done && step.1 == AliasAction::ReturnOutput
            } else {
                alias_returns_error(step, AliasFailure::AliasMismatch)
            },
            _ => false,
        },
        stage matches AliasStage::AwaitFailureAudit { failed } ==> alias_returns_error(step, failed),
{
    match stage {
        AliasStage::Start => match event {
            AliasEvent::Begin { operation, actor } => match operation {
                AliasOperation::Create => (AliasStage::AwaitCurrentVersion { actor }, AliasAction::FetchCurrentVersion),
                AliasOperation::Update => (AliasStage::AwaitAliasForUpdate, AliasAction::GetAliasForUpdate),
                AliasOperation::Delete => (AliasStage::AwaitSourceEventAt, AliasAction::TakeSourceEventAt),
                AliasOperation::List => (AliasStage::AwaitCall { operation: AliasOperation::List }, AliasAction::CallRpc),
                AliasOperation::Resolve => (AliasStage::AwaitFingerprint, AliasAction::ComputeFingerprint),
            },
            _ => (AliasStage::Done, AliasAction::ReturnOutput),
        },
        AliasStage::AwaitCurrentVersion { actor } => match event {
            AliasEvent::CurrentVersionFetched(None) => (
                AliasStage::AwaitFailureAudit { failed: AliasFailure::FetchCurrentVersion },
                AliasAction::RecordFailureAudit { with_target: true },
            ),
            AliasEvent::CurrentVersionFetched(Some(owner)) => if str_eq(owner.as_str(), actor.as_str()) {
                (AliasStage::AwaitPrepare { operation: AliasOperation::Create }, AliasAction::PrepareAlias)
            } else {
                (
                    AliasStage::AwaitFailureAudit { failed: AliasFailure::Forbidden },
                    AliasAction::RecordFailureAudit { with_target: true },
                )
            },
            _ => (AliasStage::Done, AliasAction::ReturnOutput),
        },
        AliasStage::AwaitResolve => match event {
            AliasEvent::Resolved(Err(())) => (AliasStage::Done, AliasAction::ReturnError { failed: AliasFailure::Call }),
            AliasEvent::Resolved(Ok(false)) => (AliasStage::Done, AliasAction::ReturnError { failed: AliasFailure::NotFound }),
            AliasEvent::Resolved(Ok(true)) => (AliasStage::AwaitResolvedAlias, AliasAction::DecryptResolvedRow),
            _ => (AliasStage::Done, AliasAction::ReturnOutput),
        },
        AliasStage::AwaitResolvedAlias => match event {
            AliasEvent::ResolvedAlias(None) => (AliasStage::Done, AliasAction::ReturnError { failed: AliasFailure::ParseRow }),
            AliasEvent::ResolvedAlias(Some((decrypted, requested))) => if str_eq(decrypted.as_str(), requested.as_str()) {
                (AliasStage::Done, AliasAction::ReturnOutput)
            } else {
                (AliasStage::Done, AliasAction::ReturnError { failed: AliasFailure::AliasMismatch })
            },
            _ => (AliasStage::Done, AliasAction::ReturnOutput),
        },
        AliasStage::AwaitFailureAudit { failed } => (AliasStage::Done, AliasAction::ReturnError { failed }),
        AliasStage::Done => (AliasStage::Done, AliasAction::ReturnOutput),
        other => {
            let ok = match event {
                AliasEvent::Done(true) => true,
                _ => false,
            };
            match other {
                AliasStage::AwaitAliasForUpdate => if ok {
                    (AliasStage::AwaitPrepare { operation: AliasOperation::Update }, AliasAction::PrepareAlias)
                } else {
                    (
                        AliasStage::AwaitFailureAudit { failed: AliasFailure::GetForUpdate },
                        AliasAction::RecordFailureAudit { with_target: false },
                    )
                },
                AliasStage::AwaitPrepare { operation } => if ok {
                    (AliasStage::AwaitParams { operation }, AliasAction::BuildParams)
                } else {
                    (
                        AliasStage::AwaitFailureAudit { failed: AliasFailure::Prepare },
                        AliasAction::RecordFailureAudit { with_target: true },
                    )
                },
                AliasStage::AwaitParams { operation } => if ok {
                    (AliasStage::AwaitCall { operation }, AliasAction::CallRpc)
                } else {
                    (
                        AliasStage::AwaitFailureAudit { failed: AliasFailure::BuildParams },
                        AliasAction::RecordFailureAudit { with_target: true },
                    )
                },
                AliasStage::AwaitSourceEventAt => if ok {
                    (AliasStage::AwaitCall { operation: AliasOperation::Delete }, AliasAction::CallRpc)
                } else {
                    (AliasStage::Done, AliasAction::ReturnError { failed: AliasFailure::SourceEventAt })
                },
                AliasStage::AwaitCall { operation } => if ok {
                    match operation {
                        AliasOperation::List => (AliasStage::AwaitRowsParsed, AliasAction::ParseRows),
                        _ => (AliasStage::Done, AliasAction::ReturnOutput),
                    }
                } else {
                    let with_target = match operation {
                        AliasOperation::Create => true,
                        AliasOperation::Update => true,
                        _ => false,
                    };
                    (
                        AliasStage::AwaitFailureAudit { failed: AliasFailure::Call },
                        AliasAction::RecordFailureAudit { with_target },
                    )
                },
                AliasStage::AwaitRowsParsed => if ok {
                    (AliasStage::AwaitSuccessAudit, AliasAction::RecordSuccessAudit)
                } else {
                    (AliasStage::Done, AliasAction::ReturnError { failed: AliasFailure::ParseRows })
                },
                AliasStage::AwaitSuccessAudit => if ok {
                    (AliasStage::Done, AliasAction::ReturnOutput)
                } else {
                    (AliasStage::Done, AliasAction::ReturnError { failed: AliasFailure::SuccessAudit })
                },
                _ => if ok {
                    (AliasStage::AwaitResolve, AliasAction::ResolveByFingerprint)
                } else {
                    (AliasStage::Done, AliasAction::ReturnError { failed: AliasFailure::Fingerprint })
                },
            }
        },
    }
}

} // verus!
