use vstd::prelude::*;

verus! {

/// Which store kept an audit record.
#[derive(PartialEq, Eq, Structural, Clone, Copy, Debug)]
pub enum AuditRecordOutcome {
    /// The primary (remote) audit store accepted the record.
    PrimarySucceeded,
    /// The primary store failed and the local fallback store kept the record.
    FallbackSucceeded,
}

/// Why the primary audit store refused an append.
#[derive(Clone, Copy, Debug)]
pub enum AuditAppendError {
    /// An external dependency (the database) failed, with a stable code.
    ExternalDependencyFailed { code: &'static str },
    /// The same request was already recorded with different content.
    IdempotencyConflict,
}

/// Why the local fallback audit store refused a record.
#[derive(PartialEq, Eq, Structural, Clone, Copy, Debug)]
pub enum LocalAuditStoreError {
    /// The store's lock was poisoned by a panicking writer.
    LockPoisoned,
    /// The store file could not be written.
    Io,
}

/// Why recording an audit event failed.
#[derive(Clone, Copy, Debug)]
pub enum AuditRecordError {
    /// Neither the primary store nor the local fallback kept the record.
    PrimaryAndFallbackFailed { append_error: AuditAppendError, store_error: LocalAuditStoreError },
    /// The same request was already recorded with different content.
    IdempotencyConflict,
}

} // verus!
