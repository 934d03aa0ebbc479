use vstd::prelude::*;

use super::service::{
    TimestampVerification, TimestampVerificationFailureKind, TimestampingServiceError,
    TimestampingToken, VerifiedTimestamp, token_length_ok,
};
use crate::ledger::DigestHash;
use crate::text::bytes_eq;

verus! {

/// The fixed prefix of every dummy token (`DUMMY-TST-V1:` in ASCII), so that
/// a dummy token is never mistaken for an RFC 3161 token.
pub open spec fn dummy_token_prefix() -> Seq<u8> {
    seq![68u8, 85, 77, 77, 89, 45, 84, 83, 84, 45, 86, 49, 58]
}

/// The token the dummy backend issues for a digest hash: the prefix followed
/// by the hash bytes.
pub open spec fn dummy_token_bytes(hash: Seq<u8>) -> Seq<u8> {
    dummy_token_prefix() + hash
}

/// The issued hashes after a request for `hash`: unchanged when the hash was
/// issued before, else with `hash` appended.
pub open spec fn issue_key(keys: Seq<Seq<u8>>, hash: Seq<u8>) -> Seq<Seq<u8>> {
    if keys.contains(hash) {
        keys
    } else {
        keys.push(hash)
    }
}

fn build_dummy_token(digest_hash: &DigestHash) -> (token: Result<TimestampingToken, TimestampingServiceError>)
    ensures
        token matches Ok(t) && t@ == dummy_token_bytes(digest_hash@),
{
    let mut bytes: Vec<u8> = vec![68u8, 85, 77, 77, 89, 45, 84, 83, 84, 45, 86, 49, 58];
    assert(bytes@ =~= dummy_token_prefix());
    bytes.extend_from_slice(digest_hash.as_bytes().as_slice());
    assert(bytes@ =~= dummy_token_bytes(digest_hash@));
    TimestampingToken::new(bytes)
}

/// In-memory timestamping backend for tests and development, never for
/// production: it has none of the legal weight of a time-stamping authority.
/// A hash requested again gets the same token.
#[derive(Debug)]
pub struct InMemoryTimestampingService {
    issued: Vec<([u8; 32], TimestampingToken)>,
}

impl InMemoryTimestampingService {
    /// The hashes issued so far, in the order of their first request.
    pub closed spec fn issued_keys(&self) -> Seq<Seq<u8>> {
        self.issued@.map_values(|entry: ([u8; 32], TimestampingToken)| entry.0@)
    }

    /// Issued hashes are distinct and each maps to its dummy token.
    pub closed spec fn wf(&self) -> bool {
        &&& forall|i: int, j: int|
            0 <= i < j < self.issued@.len() ==> self.issued@[i].0@ != self.issued@[j].0@
        &&& forall|i: int|
            0 <= i < self.issued@.len() ==> #[trigger] self.issued@[i].1@ == dummy_token_bytes(
                self.issued@[i].0@,
            )
    }

    pub fn new() -> (service: Self)
        ensures
            service.wf(),
            service.issued_keys() == Seq::<Seq<u8>>::empty(),
    {
        let service = InMemoryTimestampingService { issued: Vec::new() };
        assert(service.issued_keys() =~= Seq::<Seq<u8>>::empty());
        service
    }

    /// Number of tokens issued so far.
    pub fn issued_count(&self) -> (count: usize)
        ensures
            count == self.issued_keys().len(),
    {
        self.issued.len()
    }

    fn position_of(&self, digest_hash: &DigestHash) -> (pos: Option<usize>)
        ensures
            match pos {
                Some(i) => i < self.issued@.len() && self.issued@[i as int].0@ == digest_hash@,
                None => !self.issued_keys().contains(digest_hash@),
            },
    {
        let mut i: usize = 0;
        while i < self.issued.len()
            invariant
                i <= self.issued@.len(),
                forall|j: int| 0 <= j < i ==> self.issued@[j].0@ != digest_hash@,
            decreases self.issued@.len() - i,
        {
            if bytes_eq(self.issued[i].0.as_slice(), digest_hash.as_bytes().as_slice()) {
                return Some(i);
            }
            i = i + 1;
        }
        proof {
            if self.issued_keys().contains(digest_hash@) {
                let k = choose|k: int| 0 <= k < self.issued_keys().len() && self.issued_keys()[k] == digest_hash@;
                assert(self.issued@[k].0@ == digest_hash@);
            }
        }
        None
    }

    /// The token issued for `digest_hash`, if it was requested before.
    pub fn token_for(&self, digest_hash: &DigestHash) -> (token: Option<TimestampingToken>)
        requires
            self.wf(),
        ensures
            self.issued_keys().contains(digest_hash@) ==> (token matches Some(t) && t@
                == dummy_token_bytes(digest_hash@)),
            !self.issued_keys().contains(digest_hash@) ==> token is None,
    {
        match self.position_of(digest_hash) {
            Some(i) => {
                assert(self.issued_keys()[i as int] == digest_hash@);
                Some(self.issued[i].1.duplicate())
            },
            None => None,
        }
    }

    /// Issues the dummy token for `digest_hash`; a hash requested before gets
    /// the token it got then, and nothing new is recorded.
    pub fn request_timestamp(&mut self, digest_hash: &DigestHash) -> (token: Result<
        TimestampingToken,
        TimestampingServiceError,
    >)
        requires
            old(self).wf(),
        ensures
            final(self).wf(),
            token matches Ok(t) && t@ == dummy_token_bytes(digest_hash@),
            final(self).issued_keys() == issue_key(old(self).issued_keys(), digest_hash@),
    {
        match self.position_of(digest_hash) {
            Some(i) => {
                assert(self.issued_keys()[i as int] == digest_hash@);
                Ok(self.issued[i].1.duplicate())
            },
            None => {
                let token = build_dummy_token(digest_hash)?;
                let stored = token.duplicate();
                let key: [u8; 32] = *digest_hash.as_bytes();
                let ghost before = self.issued@;
                assert forall|j: int| 0 <= j < before.len() implies before[j].0@ != key@ by {
                    assert(old(self).issued_keys()[j] == before[j].0@);
                }
                self.issued.push((key, stored));
                assert(self.issued_keys() =~= issue_key(old(self).issued_keys(), digest_hash@)) by {
                    assert(self.issued@ == before.push((key, stored)));
                }
                Ok(token)
            },
        }
    }
}

impl InMemoryTimestampingService {
    /// Verifies a token offline, with no state: valid (with no serial and no
    /// time to report) exactly when it is the dummy token of the hash; any
    /// other token does not match the hash.
    pub fn verify_timestamp(&self, token: &TimestampingToken, expected_hash: &DigestHash) -> (verification: TimestampVerification)
        ensures
            token@ == dummy_token_bytes(expected_hash@) ==> (verification matches TimestampVerification::Valid(meta)
                && meta.tsa_serial_hex@ == Seq::<char>::empty() && meta.gen_time is None),
            token@ != dummy_token_bytes(expected_hash@) ==> verification == (TimestampVerification::Invalid {
                failure_kind: TimestampVerificationFailureKind::ImprintMismatch,
            }),
    {
        let expected = build_dummy_token(expected_hash);
        match expected {
            Ok(expected) => if bytes_eq(expected.as_bytes(), token.as_bytes()) {
                TimestampVerification::Valid(VerifiedTimestamp::default())
            } else {
                TimestampVerification::Invalid {
                    failure_kind: TimestampVerificationFailureKind::ImprintMismatch,
                }
            },
            Err(_) => TimestampVerification::Invalid {
                failure_kind: TimestampVerificationFailureKind::ImprintMismatch,
            },
        }
    }
}

/// Requesting the same hash twice changes nothing the second time: the
/// issued hashes stay as they were, so the count does not grow, and the
/// token (a function of the hash alone) is the same.
pub proof fn lemma_request_idempotent(keys: Seq<Seq<u8>>, hash: Seq<u8>)
    ensures
        issue_key(issue_key(keys, hash), hash) == issue_key(keys, hash),
        issue_key(keys, hash).contains(hash),
        issue_key(keys, hash).len() <= keys.len() + 1,
{
    if !keys.contains(hash) {
        assert(keys.push(hash)[keys.len() as int] == hash);
    }
}

/// Test backend that always fails with `BackendFailed` and its code.
#[derive(Debug, Clone)]
pub struct FailingTimestampingService {
    code: String,
}

impl FailingTimestampingService {
    pub closed spec fn failure_code(&self) -> Seq<char> {
        self.code@
    }

    pub fn new(code: &str) -> (service: Self)
        ensures
            service.failure_code() == code@,
    {
        FailingTimestampingService { code: code.to_string() }
    }

    /// Always fails, whatever the hash.
    pub fn request_timestamp(&self, digest_hash: &DigestHash) -> (token: Result<
        TimestampingToken,
        TimestampingServiceError,
    >)
        ensures
            token matches Err(TimestampingServiceError::BackendFailed { code }) && code@
                == self.failure_code(),
    {
        Err(TimestampingServiceError::BackendFailed { code: self.code.clone() })
    }
}

} // verus!
