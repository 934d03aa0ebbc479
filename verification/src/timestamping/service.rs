use vstd::prelude::*;
use vstd::string::*;

use crate::encoding::{hex_encode, hex_lower};

verus! {

/// Shortest accepted timestamping token: an empty token is refused.
pub const TIMESTAMPING_TOKEN_MIN_LENGTH: usize = 1;

/// Longest accepted timestamping token (4 MiB), room for tokens that carry
/// several intermediate certificates.
pub const TIMESTAMPING_TOKEN_MAX_LENGTH: usize = 4194304;

/// Whether a token of `len` bytes is accepted.
pub open spec fn token_length_ok(len: int) -> bool {
    TIMESTAMPING_TOKEN_MIN_LENGTH <= len <= TIMESTAMPING_TOKEN_MAX_LENGTH
}

/// Errors of a timestamping backend.
#[derive(Debug, Clone, PartialEq, Eq)]
pub enum TimestampingServiceError {
    /// An I/O, network or protocol operation of the backend failed.
    BackendFailed { code: String },
    /// The backend answered with something unusable (empty token, bad format).
    InvalidResponse { reason: &'static str },
}

pub open spec fn service_error_display(error: TimestampingServiceError) -> Seq<char> {
    match error {
        TimestampingServiceError::BackendFailed { code } => "timestamping backend failed: "@ + code@,
        TimestampingServiceError::InvalidResponse { reason } => "timestamping invalid response: "@ + reason@,
    }
}

impl TimestampingServiceError {
    /// The human-readable description of the error.
    pub fn to_display_string(&self) -> (text: String)
        ensures
            text@ == service_error_display(*self),
    {
        match self {
            TimestampingServiceError::BackendFailed { code } => {
                let mut out = String::from_str("timestamping backend failed: ");
                out.append(code.as_str());
                out
            },
            TimestampingServiceError::InvalidResponse { reason } => {
                let mut out = String::from_str("timestamping invalid response: ");
                out.append(reason);
                out
            },
        }
    }

    /// A copy of the error.
    pub fn duplicate(&self) -> (copy: Self)
        ensures
            copy == *self,
    {
        match self {
            TimestampingServiceError::BackendFailed { code } => {
                TimestampingServiceError::BackendFailed { code: code.clone() }
            },
            TimestampingServiceError::InvalidResponse { reason } => {
                TimestampingServiceError::InvalidResponse { reason }
            },
        }
    }
}

/// The opaque bytes a timestamping service returned: for RFC 3161, the whole
/// DER-encoded `TimeStampResp`. Between 1 byte and 4 MiB long.
#[derive(Debug, PartialEq, Eq)]
pub struct TimestampingToken(Vec<u8>);

impl View for TimestampingToken {
    type V = Seq<u8>;

    closed spec fn view(&self) -> Seq<u8> {
        self.0@
    }
}

impl TimestampingToken {
    #[verifier::type_invariant]
    spec fn length_in_bounds(self) -> bool {
        token_length_ok(self.0@.len() as int)
    }

    /// Builds a token; an empty token or one over the length limit is refused.
    pub fn new(bytes: Vec<u8>) -> (token: Result<Self, TimestampingServiceError>)
        ensures
            bytes@.len() < TIMESTAMPING_TOKEN_MIN_LENGTH ==> (token matches Err(
                TimestampingServiceError::InvalidResponse { reason },
            ) && reason@ == "timestamping token must not be empty"@),
            bytes@.len() > TIMESTAMPING_TOKEN_MAX_LENGTH ==> (token matches Err(
                TimestampingServiceError::InvalidResponse { reason },
            ) && reason@ == "timestamping token exceeds maximum allowed length"@),
            token_length_ok(bytes@.len() as int) ==> (token matches Ok(t) && t@ == bytes@),
    {
        if bytes.len() < TIMESTAMPING_TOKEN_MIN_LENGTH {
            return Err(
                TimestampingServiceError::InvalidResponse {
                    reason: "timestamping token must not be empty",
                },
            );
        }
        if bytes.len() > TIMESTAMPING_TOKEN_MAX_LENGTH {
            return Err(
                TimestampingServiceError::InvalidResponse {
                    reason: "timestamping token exceeds maximum allowed length",
                },
            );
        }
        Ok(TimestampingToken(bytes))
    }

    pub fn as_bytes(&self) -> (bytes: &[u8])
        ensures
            bytes@ == self@,
    {
        self.0.as_slice()
    }

    pub fn len(&self) -> (len: usize)
        ensures
            len == self@.len(),
            token_length_ok(len as int),
    {
        proof {
            use_type_invariant(self);
        }
        self.0.len()
    }

    /// Always false: a token is never empty.
    pub fn is_empty(&self) -> (empty: bool)
        ensures
            empty == (self@.len() == 0),
            !empty,
    {
        proof {
            use_type_invariant(self);
        }
        self.0.len() == 0
    }

    /// A copy of the token.
    pub fn duplicate(&self) -> (copy: Self)
        ensures
            copy@ == self@,
    {
        proof {
            use_type_invariant(self);
        }
        TimestampingToken(vstd::slice::slice_to_vec(self.0.as_slice()))
    }
}

/// The SHA3-256 hash of a byte string. The hash function is computed by the
/// `sha3` crate; nothing here states its value.
pub uninterp spec fn sha3_256(data: Seq<u8>) -> Seq<u8>;

/// SHA3-256 of `data`, through `sha3::Digest::digest` on `sha3::Sha3_256`.
/// The result is named by `sha3_256`.
#[verifier::external_body]
pub(crate) fn sha3_256_digest(data: &[u8]) -> (hash: [u8; 32])
    ensures
        hash@ == sha3_256(data@),
{
    <sha3::Sha3_256 as sha3::Digest>::digest(data).into()
}

/// The SHA3-256 hash of a timestamping token (32 bytes): the correlation id
/// recorded in the ledger and the audit metadata instead of the token.
#[derive(Debug, Clone, Copy, PartialEq, Eq, Hash)]
pub struct TimestampingTokenHash([u8; 32]);

impl View for TimestampingTokenHash {
    type V = Seq<u8>;

    closed spec fn view(&self) -> Seq<u8> {
        self.0@
    }
}

impl TimestampingTokenHash {
    /// Hashes the token's bytes with SHA3-256.
    pub fn from_token(token: &TimestampingToken) -> (hash: Self)
        ensures
            hash@ == sha3_256(token@),
    {
        TimestampingTokenHash(sha3_256_digest(token.as_bytes()))
    }

    pub fn as_bytes(&self) -> (bytes: &[u8; 32])
        ensures
            bytes@ == self@,
    {
        &self.0
    }

    /// Lower-case hexadecimal text of the hash (64 characters).
    pub fn to_hex(self) -> (text: String)
        ensures
            text@ == hex_lower(self@),
    {
        hex_encode(self.0.as_slice())
    }
}

/// Kind of timestamping backend, for display and logs.
#[derive(Debug, Clone, Copy, PartialEq, Eq, Structural, Hash)]
pub enum TimestampingProviderKind {
    /// In-memory backend for tests.
    LocalDummy,
    /// RFC 3161 time-stamping authority.
    Rfc3161,
}

impl TimestampingProviderKind {
    pub fn as_str(self) -> (label: &'static str)
        ensures
            label@ == match self {
                TimestampingProviderKind::LocalDummy => "local_dummy"@,
                TimestampingProviderKind::Rfc3161 => "rfc3161"@,
            },
    {
        match self {
            TimestampingProviderKind::LocalDummy => "local_dummy",
            TimestampingProviderKind::Rfc3161 => "rfc3161",
        }
    }
}

/// Why a stored token did not verify.
#[derive(Debug, Clone, Copy, PartialEq, Eq, Structural, Hash)]
pub enum TimestampVerificationFailureKind {
    /// The token is not an RFC 3161 `TimeStampResp` carrying a time-stamp token.
    Malformed,
    /// The PKI status is neither granted nor granted with modifications.
    NotGranted,
    /// The message imprint (algorithm or hash) differs from the expected hash.
    ImprintMismatch,
    /// The TSA signature is invalid for its certificate chain.
    SignatureInvalid,
}

impl TimestampVerificationFailureKind {
    pub fn as_str(self) -> (label: &'static str)
        ensures
            label@ == match self {
                TimestampVerificationFailureKind::Malformed => "malformed"@,
                TimestampVerificationFailureKind::NotGranted => "not_granted"@,
                TimestampVerificationFailureKind::ImprintMismatch => "imprint_mismatch"@,
                TimestampVerificationFailureKind::SignatureInvalid => "signature_invalid"@,
            },
    {
        match self {
            TimestampVerificationFailureKind::Malformed => "malformed",
            TimestampVerificationFailureKind::NotGranted => "not_granted",
            TimestampVerificationFailureKind::ImprintMismatch => "imprint_mismatch",
            TimestampVerificationFailureKind::SignatureInvalid => "signature_invalid",
        }
    }
}

/// Non-secret facts of a verified timestamp, for CLI output and logs only.
#[derive(Debug, Clone, PartialEq, Eq)]
pub struct VerifiedTimestamp {
    /// Serial number of the time-stamp token, lower-case hexadecimal.
    pub tsa_serial_hex: String,
    /// The TSA's generation time (RFC 3339), when the backend reports one.
    pub gen_time: Option<String>,
}

impl Default for VerifiedTimestamp {
    fn default() -> (verified: Self)
        ensures
            verified.tsa_serial_hex@ == Seq::<char>::empty(),
            verified.gen_time is None,
    {
        VerifiedTimestamp { tsa_serial_hex: String::new(), gen_time: None }
    }
}

/// Result of verifying a stored token against an expected hash.
#[derive(Debug, Clone, PartialEq, Eq)]
pub enum TimestampVerification {
    /// The token is valid for the expected hash.
    Valid(VerifiedTimestamp),
    /// The token did not verify.
    Invalid { failure_kind: TimestampVerificationFailureKind },
}

} // verus!
