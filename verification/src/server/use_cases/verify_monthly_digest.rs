use vstd::prelude::*;
use vstd::string::*;

use crate::ledger::MonthlyDigestPeriod;
use crate::server::supabase::ledger_export_rpc::{
    key_restore_of, LedgerKeyRestoreError, LedgerVerificationMaterialRow, RestoredVerifyingKey,
};
use crate::text::str_eq;

verus! {

/// Input of monthly digest verification.
#[derive(Debug, Clone)]
pub struct VerifyMonthlyDigestInput {
    pub period: MonthlyDigestPeriod,
    /// Request id of the run (canonical UUID text).
    pub request_id: String,
}

/// Why a monthly digest did not verify. Verification fails closed: whatever
/// is unknown is a failure.
#[derive(Debug, Clone, PartialEq, Eq)]
pub enum VerifyMonthlyDigestError {
    DigestNotFound,
    FetchFailed { code: &'static str },
    ChainContinuityError { ledger_error_code: String },
    EndHashMismatch,
    UnknownSignatureKey,
    DigestHashMismatch,
    DigestSignatureInvalid,
    RangeModifiedAfterDigest,
}

pub open spec fn verify_error_code(error: VerifyMonthlyDigestError) -> Seq<char> {
    match error {
        VerifyMonthlyDigestError::DigestNotFound => "monthly_digest_not_found"@,
        VerifyMonthlyDigestError::FetchFailed { code } => code@,
        VerifyMonthlyDigestError::ChainContinuityError { .. } => "monthly_digest_chain_continuity_error"@,
        VerifyMonthlyDigestError::EndHashMismatch => "monthly_digest_end_hash_mismatch"@,
        VerifyMonthlyDigestError::UnknownSignatureKey => "monthly_digest_unknown_signature_key"@,
        VerifyMonthlyDigestError::DigestHashMismatch => "monthly_digest_hash_mismatch"@,
        VerifyMonthlyDigestError::DigestSignatureInvalid => "monthly_digest_signature_invalid"@,
        VerifyMonthlyDigestError::RangeModifiedAfterDigest => "monthly_digest_range_modified"@,
    }
}

pub open spec fn verify_error_display(error: VerifyMonthlyDigestError) -> Seq<char> {
    match error {
        VerifyMonthlyDigestError::DigestNotFound => "monthly digest not found for this period"@,
        VerifyMonthlyDigestError::FetchFailed { code } => "fetch failed: "@ + code@,
        VerifyMonthlyDigestError::ChainContinuityError { ledger_error_code } => "chain continuity error: "@
            + ledger_error_code@,
        VerifyMonthlyDigestError::EndHashMismatch => "chain end hash does not match digest end_entry_hash"@,
        VerifyMonthlyDigestError::UnknownSignatureKey => "signing public key not registered for this key version"@,
        VerifyMonthlyDigestError::DigestHashMismatch => "recomputed digest hash does not match stored hash"@,
        VerifyMonthlyDigestError::DigestSignatureInvalid => "digest Ed25519 signature is invalid"@,
        VerifyMonthlyDigestError::RangeModifiedAfterDigest => "ledger range was modified after digest was generated"@,
    }
}

impl VerifyMonthlyDigestError {
    pub fn as_error_code(&self) -> (code: &str)
        ensures
            code@ == verify_error_code(*self),
    {
        match self {
            VerifyMonthlyDigestError::DigestNotFound => "monthly_digest_not_found",
            VerifyMonthlyDigestError::FetchFailed { code } => code,
            VerifyMonthlyDigestError::ChainContinuityError { .. } => "monthly_digest_chain_continuity_error",
            VerifyMonthlyDigestError::EndHashMismatch => "monthly_digest_end_hash_mismatch",
            VerifyMonthlyDigestError::UnknownSignatureKey => "monthly_digest_unknown_signature_key",
            VerifyMonthlyDigestError::DigestHashMismatch => "monthly_digest_hash_mismatch",
            VerifyMonthlyDigestError::DigestSignatureInvalid => "monthly_digest_signature_invalid",
            VerifyMonthlyDigestError::RangeModifiedAfterDigest => "monthly_digest_range_modified",
        }
    }

    /// The human-readable description of the error.
    pub fn to_display_string(&self) -> (text: String)
        ensures
            text@ == verify_error_display(*self),
    {
        match self {
            VerifyMonthlyDigestError::DigestNotFound => {
                String::from_str("monthly digest not found for this period")
            },
            VerifyMonthlyDigestError::FetchFailed { code } => {
                let mut out = String::from_str("fetch failed: ");
                out.append(code);
                out
            },
            VerifyMonthlyDigestError::ChainContinuityError { ledger_error_code } => {
                let mut out = String::from_str("chain continuity error: ");
                out.append(ledger_error_code.as_str());
                out
            },
            VerifyMonthlyDigestError::EndHashMismatch => {
                String::from_str("chain end hash does not match digest end_entry_hash")
            },
            VerifyMonthlyDigestError::UnknownSignatureKey => {
                String::from_str("signing public key not registered for this key version")
            },
            VerifyMonthlyDigestError::DigestHashMismatch => {
                String::from_str("recomputed digest hash does not match stored hash")
            },
            VerifyMonthlyDigestError::DigestSignatureInvalid => {
                String::from_str("digest Ed25519 signature is invalid")
            },
            VerifyMonthlyDigestError::RangeModifiedAfterDigest => {
                String::from_str("ledger range was modified after digest was generated")
            },
        }
    }
}

/// What a successful verification reports.
#[derive(Debug, Clone, Copy, PartialEq, Eq, Structural)]
pub struct VerifiedMonthlyDigestInfo {
    pub start_sequence_no: u64,
    pub end_sequence_no: u64,
    pub entry_count: u64,
}

/// Kind of ledger chain error, as far as the digest check reports it.
#[derive(Debug, Clone, Copy, PartialEq, Eq, Structural)]
pub enum LedgerChainErrorKind {
    SequenceGap,
    PreviousHashMismatch,
    HashMismatch,
    SignatureInvalid,
    UnknownSignatureKey,
    Other,
}

pub open spec fn chain_error_code_text(kind: LedgerChainErrorKind) -> Seq<char> {
    match kind {
        LedgerChainErrorKind::SequenceGap => "chain_sequence_gap"@,
        LedgerChainErrorKind::PreviousHashMismatch => "chain_previous_hash_mismatch"@,
        LedgerChainErrorKind::HashMismatch => "chain_entry_hash_mismatch"@,
        LedgerChainErrorKind::SignatureInvalid => "chain_signature_invalid"@,
        LedgerChainErrorKind::UnknownSignatureKey => "chain_unknown_signature_key"@,
        LedgerChainErrorKind::Other => "chain_verification_error"@,
    }
}

/// The code reported for a broken chain.
pub fn map_ledger_error_to_code(kind: LedgerChainErrorKind) -> (code: &'static str)
    ensures
        code@ == chain_error_code_text(kind),
{
    match kind {
        LedgerChainErrorKind::SequenceGap => "chain_sequence_gap",
        LedgerChainErrorKind::PreviousHashMismatch => "chain_previous_hash_mismatch",
        LedgerChainErrorKind::HashMismatch => "chain_entry_hash_mismatch",
        LedgerChainErrorKind::SignatureInvalid => "chain_signature_invalid",
        LedgerChainErrorKind::UnknownSignatureKey => "chain_unknown_signature_key",
        LedgerChainErrorKind::Other => "chain_verification_error",
    }
}

/// Step 1: the digest's verification materials; a missing digest or a
/// failed fetch ends the verification.
pub fn after_materials_fetch<M, E>(fetched: Result<Option<M>, E>) -> (materials: Result<M, VerifyMonthlyDigestError>)
    ensures
        match fetched {
            Err(_) => materials matches Err(VerifyMonthlyDigestError::FetchFailed { code }) && code@
                == "monthly_digest_verify_materials_fetch_failed"@,
            Ok(None) => materials matches Err(VerifyMonthlyDigestError::DigestNotFound),
            Ok(Some(m)) => materials == Ok::<M, VerifyMonthlyDigestError>(m),
        },
{
    match fetched {
        Err(_) => Err(
            VerifyMonthlyDigestError::FetchFailed { code: "monthly_digest_verify_materials_fetch_failed" },
        ),
        Ok(None) => Err(VerifyMonthlyDigestError::DigestNotFound),
        Ok(Some(m)) => Ok(m),
    }
}

/// Key versions in order of first appearance, each once.
pub open spec fn first_versions(versions: Seq<u32>) -> Seq<u32>
    decreases versions.len(),
{
    if versions.len() == 0 {
        seq![]
    } else {
        let before = first_versions(versions.drop_last());
        if before.contains(versions.last()) {
            before
        } else {
            before.push(versions.last())
        }
    }
}

/// The key version that row `j` carries, if any.
pub open spec fn version_at<K, E>(rows: Seq<Result<Option<(u32, K)>, E>>, j: int) -> Option<u32> {
    match rows[j] {
        Ok(Some(entry)) => Some(entry.0),
        _ => None,
    }
}

/// Row `i` carries `key`, and no row before it carries the same version.
pub open spec fn first_of_version<K, E>(rows: Seq<Result<Option<(u32, K)>, E>>, i: int, key: (u32, K)) -> bool {
    &&& 0 <= i < rows.len()
    &&& rows[i] == Ok::<Option<(u32, K)>, E>(Some(key))
    &&& forall|j: int| 0 <= j < i ==> version_at(rows, j) != Some(key.0)
}

/// Some row before `n` is the first to carry `key`'s version, and carries `key`.
pub open spec fn first_before<K, E>(rows: Seq<Result<Option<(u32, K)>, E>>, n: int, key: (u32, K)) -> bool {
    exists|i: int| i < n && #[trigger] first_of_version(rows, i, key)
}

/// The restored verifying keys of the exported rows, `(key version, key)`
/// for rows that carry one: the first key of each version is kept, later
/// ones are dropped; a row whose key cannot be restored ends verification.
pub fn collect_verification_keys<K, E>(restored: Vec<Result<Option<(u32, K)>, E>>) -> (keys: Result<
    Vec<(u32, K)>,
    VerifyMonthlyDigestError,
>)
    ensures
        (exists|i: int| 0 <= i < restored@.len() && restored@[i] is Err) ==> (keys matches Err(
            VerifyMonthlyDigestError::FetchFailed { code },
        ) && code@ == "monthly_digest_chain_key_restore_failed"@),
        (forall|i: int| 0 <= i < restored@.len() ==> !(restored@[i] is Err)) ==> (keys matches Ok(
            ks,
        ) && ks@.map_values(|k: (u32, K)| k.0) == first_versions(present_versions(restored@))),
        keys matches Ok(ks) ==> forall|k: int| 0 <= k < ks@.len() ==> first_before(
            restored@,
            restored@.len() as int,
            #[trigger] ks@[k],
        ),
{
    let mut keys: Vec<(u32, K)> = Vec::new();
    let mut rest = restored;
    let ghost all = rest@;
    let ghost mut done: int = 0;
    while rest.len() > 0
        invariant
            0 <= done <= all.len(),
            all == restored@,
            rest@ == all.subrange(done, all.len() as int),
            forall|i: int| 0 <= i < done ==> !(all[i] is Err),
            keys@.map_values(|k: (u32, K)| k.0) == first_versions(present_versions(all.subrange(0, done))),
            forall|k: int| 0 <= k < keys@.len() ==> first_before(all, done, #[trigger] keys@[k]),
            forall|j: int| 0 <= j < done && #[trigger] version_at(all, j) is Some ==> exists|k: int|
                0 <= k < keys@.len() && keys@[k].0 == version_at(all, j)->0,
        decreases rest@.len(),
    {
        let item = rest.remove(0);
        assert(item == all[done]);
        let ghost prefix = all.subrange(0, done);
        let ghost next_prefix = all.subrange(0, done + 1);
        assert(next_prefix.drop_last() =~= prefix);
        assert(next_prefix.last() == item);
        let ghost pv = present_versions(prefix);
        let ghost old_keys = keys@;
        match item {
            Err(_) => {
                assert(all[done] is Err);
                return Err(
                    VerifyMonthlyDigestError::FetchFailed { code: "monthly_digest_chain_key_restore_failed" },
                );
            },
            Ok(None) => {
                assert(present_versions(next_prefix) == pv);
                assert(version_at(all, done) is None);
            },
            Ok(Some((version, key))) => {
                assert(present_versions(next_prefix) == pv.push(version));
                assert(pv.push(version).drop_last() =~= pv);
                assert(pv.push(version).last() == version);
                assert(version_at(all, done) == Some(version));
                let mut seen = false;
                let mut j: usize = 0;
                while j < keys.len()
                    invariant
                        j <= keys@.len(),
                        seen == (exists|k: int| 0 <= k < j && keys@[k].0 == version),
                    decreases keys@.len() - j,
                {
                    if keys[j].0 == version {
                        seen = true;
                    }
                    j = j + 1;
                }
                let ghost before = keys@.map_values(|k: (u32, K)| k.0);
                assert(seen == before.contains(version)) by {
                    if seen {
                        let k = choose|k: int| 0 <= k < keys@.len() && keys@[k].0 == version;
                        assert(before[k] == version);
                    }
                }
                if !seen {
                    keys.push((version, key));
                    assert(keys@.map_values(|k: (u32, K)| k.0) =~= before.push(version));
                    assert forall|k: int| 0 <= k < keys@.len() implies first_before(all, done + 1, #[trigger] keys@[k]) by {
                        if k < old_keys.len() {
                            assert(keys@[k] == old_keys[k]);
                            assert(first_before(all, done, old_keys[k]));
                            let i = choose|i: int| i < done && #[trigger] first_of_version(all, i, old_keys[k]);
                            assert(first_of_version(all, i, keys@[k]));
                        } else {
                            assert forall|jj: int| 0 <= jj < done implies version_at(all, jj) != Some(keys@[k].0) by {
                                if version_at(all, jj) == Some(version) {
                                    assert(version_at(all, jj) is Some);
                                }
                            }
                            assert(first_of_version(all, done, keys@[k]));
                            assert(first_before(all, done + 1, keys@[k]));
                        }
                    }
                    assert forall|jj: int| 0 <= jj < done + 1 && #[trigger] version_at(all, jj) is Some implies exists|k: int|
                        0 <= k < keys@.len() && keys@[k].0 == version_at(all, jj)->0 by {
                        if jj < done {
                            let k = choose|k: int| 0 <= k < old_keys.len() && old_keys[k].0 == version_at(all, jj)->0;
                            assert(keys@[k] == old_keys[k]);
                        } else {
                            assert(keys@[old_keys.len() as int].0 == version);
                        }
                    }
                } else {
                    assert forall|jj: int| 0 <= jj < done + 1 && #[trigger] version_at(all, jj) is Some implies exists|k: int|
                        0 <= k < keys@.len() && keys@[k].0 == version_at(all, jj)->0 by {
                        if jj == done {
                            let k = choose|k: int| 0 <= k < keys@.len() && keys@[k].0 == version;
                        }
                    }
                }
            },
        }
        proof {
            assert forall|k: int| 0 <= k < keys@.len() implies first_before(all, done + 1, #[trigger] keys@[k]) by {
                if k < old_keys.len() && keys@[k] == old_keys[k] {
                    assert(first_before(all, done, old_keys[k]));
                    let i = choose|i: int| i < done && #[trigger] first_of_version(all, i, old_keys[k]);
                    assert(first_of_version(all, i, keys@[k]));
                }
            }
            done = done + 1;
        }
    }
    assert(all.subrange(0, done) =~= all);
    assert forall|k: int| 0 <= k < keys@.len() implies first_before(restored@, restored@.len() as int, #[trigger] keys@[k]) by {
        assert(first_before(all, done, keys@[k]));
    }
    Ok(keys)
}

/// Key versions of the rows that carry a key, in row order.
pub open spec fn present_versions<K, E>(rows: Seq<Result<Option<(u32, K)>, E>>) -> Seq<u32>
    decreases rows.len(),
{
    if rows.len() == 0 {
        seq![]
    } else {
        let before = present_versions(rows.drop_last());
        match rows.last() {
            Ok(Some(entry)) => before.push(entry.0),
            _ => before,
        }
    }
}

/// Step 4: the chain's last hash must equal the digest's end entry hash.
pub fn check_end_hash(last_entry_hash: &[u8], end_entry_hash: &[u8]) -> (checked: Result<(), VerifyMonthlyDigestError>)
    ensures
        checked is Ok <==> last_entry_hash@ == end_entry_hash@,
        checked is Err ==> checked == Err::<(), VerifyMonthlyDigestError>(
            VerifyMonthlyDigestError::EndHashMismatch,
        ),
{
    if crate::text::bytes_eq(last_entry_hash, end_entry_hash) {
        Ok(())
    } else {
        Err(VerifyMonthlyDigestError::EndHashMismatch)
    }
}

/// Step 6: the recomputed digest hash (hex) must equal the stored one.
pub fn check_digest_hash(computed_hex: &str, stored_hex: &str) -> (checked: Result<(), VerifyMonthlyDigestError>)
    ensures
        checked is Ok <==> computed_hex@ == stored_hex@,
        checked is Err ==> checked == Err::<(), VerifyMonthlyDigestError>(
            VerifyMonthlyDigestError::DigestHashMismatch,
        ),
{
    if str_eq(computed_hex, stored_hex) {
        Ok(())
    } else {
        Err(VerifyMonthlyDigestError::DigestHashMismatch)
    }
}

/// Whether the month's ledger grew after the digest was made: more entries
/// or a later end sequence number than the digest recorded.
pub open spec fn range_modified(
    current_entry_count: u64,
    current_end_sequence_no: u64,
    stored_entry_count: u64,
    stored_end_sequence_no: u64,
) -> bool {
    current_entry_count > stored_entry_count || current_end_sequence_no > stored_end_sequence_no
}

/// Step 8: compares the current range of the month, `(entry count, end
/// sequence number)`, with the digest's.
pub fn check_range_unmodified<E>(
    current: Result<Option<(u64, u64)>, E>,
    stored_entry_count: u64,
    stored_end_sequence_no: u64,
) -> (checked: Result<(), VerifyMonthlyDigestError>)
    ensures
        match current {
            Err(_) => checked matches Err(VerifyMonthlyDigestError::FetchFailed { code }) && code@
                == "monthly_digest_range_fetch_failed"@,
            Ok(None) => checked matches Err(VerifyMonthlyDigestError::FetchFailed { code }) && code@
                == "monthly_digest_range_fetch_empty"@,
            Ok(Some((count, end))) => if range_modified(
                count,
                end,
                stored_entry_count,
                stored_end_sequence_no,
            ) {
                checked matches Err(VerifyMonthlyDigestError::RangeModifiedAfterDigest)
            } else {
                checked is Ok
            },
        },
        checked is Ok ==> (current matches Ok(Some((count, end))) && count <= stored_entry_count && end
            <= stored_end_sequence_no),
{
    match current {
        Err(_) => Err(VerifyMonthlyDigestError::FetchFailed { code: "monthly_digest_range_fetch_failed" }),
        Ok(None) => Err(VerifyMonthlyDigestError::FetchFailed { code: "monthly_digest_range_fetch_empty" }),
        Ok(Some((count, end))) => {
            if count > stored_entry_count || end > stored_end_sequence_no {
                Err(VerifyMonthlyDigestError::RangeModifiedAfterDigest)
            } else {
                Ok(())
            }
        },
    }
}

/// The rows of the chain export of the digest's range: a failed export or an
/// empty one ends the verification.
pub fn after_chain_export<E>(exported: Result<Vec<LedgerVerificationMaterialRow>, E>) -> (rows: Result<
    Vec<LedgerVerificationMaterialRow>,
    VerifyMonthlyDigestError,
>)
    ensures
        match exported {
            Err(_) => rows matches Err(VerifyMonthlyDigestError::FetchFailed { code }) && code@
                == "monthly_digest_chain_export_failed"@,
            Ok(r) => if r@.len() == 0 {
                rows matches Err(VerifyMonthlyDigestError::FetchFailed { code }) && code@
                    == "monthly_digest_chain_empty"@
            } else {
                rows == Ok::<Vec<LedgerVerificationMaterialRow>, VerifyMonthlyDigestError>(r)
            },
        },
{
    match exported {
        Err(_) => Err(VerifyMonthlyDigestError::FetchFailed { code: "monthly_digest_chain_export_failed" }),
        Ok(r) => if r.len() == 0 {
            Err(VerifyMonthlyDigestError::FetchFailed { code: "monthly_digest_chain_empty" })
        } else {
            Ok(r)
        },
    }
}

/// Key versions of the rows that carry a usable key, in row order.
pub open spec fn row_key_versions(rows: Seq<LedgerVerificationMaterialRow>) -> Seq<u32>
    decreases rows.len(),
{
    if rows.len() == 0 {
        seq![]
    } else {
        let before = row_key_versions(rows.drop_last());
        match key_restore_of(rows.last()) {
            Ok(Some(k)) => before.push(k.0),
            _ => before,
        }
    }
}

/// The key version whose usable key row `j` carries, if any.
pub open spec fn row_version_at(rows: Seq<LedgerVerificationMaterialRow>, j: int) -> Option<u32> {
    match key_restore_of(rows[j]) {
        Ok(Some(k)) => Some(k.0),
        _ => None,
    }
}

/// `key` is the key restored from the first row that carries its version.
pub open spec fn first_row_key(rows: Seq<LedgerVerificationMaterialRow>, key: RestoredVerifyingKey) -> bool {
    exists|i: int|
        #![trigger key_restore_of(rows[i])]
        0 <= i < rows.len() && key_restore_of(rows[i]) == Ok::<Option<(u32, Seq<u8>)>, LedgerKeyRestoreError>(
            Some((key.key_version, key.public_key@)),
        ) && forall|j: int| 0 <= j < i ==> row_version_at(rows, j) != Some(key.key_version)
}

/// A restored chain: its entries in row order, the first verifying key of
/// each key version, and the previous-entry hash of its first entry.
pub struct RestoredChain<Entry> {
    pub entries: Vec<Entry>,
    pub verification_keys: Vec<RestoredVerifyingKey>,
    pub first_previous_hash: Vec<u8>,
}

/// Whether `keys` holds the restored key results of `rows`, one each.
pub open spec fn keys_of_rows(
    keys: Seq<Result<Option<(u32, RestoredVerifyingKey)>, LedgerKeyRestoreError>>,
    rows: Seq<LedgerVerificationMaterialRow>,
) -> bool {
    &&& keys.len() == rows.len()
    &&& forall|i: int| 0 <= i < rows.len() ==> match #[trigger] key_restore_of(rows[i]) {
        Ok(None) => keys[i] matches Ok(None),
        Ok(Some((version, bytes))) => keys[i] matches Ok(Some(k)) && k.0 == version && k.1.key_version == version
            && k.1.public_key@ == bytes,
        Err(e) => keys[i] == Err::<Option<(u32, RestoredVerifyingKey)>, LedgerKeyRestoreError>(e),
    }
}

proof fn lemma_key_versions_agree(
    keys: Seq<Result<Option<(u32, RestoredVerifyingKey)>, LedgerKeyRestoreError>>,
    rows: Seq<LedgerVerificationMaterialRow>,
)
    requires
        keys_of_rows(keys, rows),
    ensures
        present_versions(keys) == row_key_versions(rows),
        (exists|i: int| 0 <= i < keys.len() && keys[i] is Err) <==> (exists|i: int|
            0 <= i < rows.len() && key_restore_of(rows[i]) is Err),
    decreases rows.len(),
{
    if rows.len() > 0 {
        let n = rows.len() - 1;
        assert(keys_of_rows(keys.drop_last(), rows.drop_last())) by {
            assert forall|i: int| 0 <= i < n implies match #[trigger] key_restore_of(rows.drop_last()[i]) {
                Ok(None) => keys.drop_last()[i] matches Ok(None),
                Ok(Some((version, bytes))) => keys.drop_last()[i] matches Ok(Some(k)) && k.0 == version
                    && k.1.key_version == version && k.1.public_key@ == bytes,
                Err(e) => keys.drop_last()[i] == Err::<Option<(u32, RestoredVerifyingKey)>, LedgerKeyRestoreError>(e),
            } by {
                assert(rows.drop_last()[i] == rows[i]);
                assert(key_restore_of(rows[i]) == key_restore_of(rows.drop_last()[i]));
            }
        }
        lemma_key_versions_agree(keys.drop_last(), rows.drop_last());
        assert(key_restore_of(rows[n]) == key_restore_of(rows.last()));
        if exists|i: int| 0 <= i < keys.len() && keys[i] is Err {
            let i = choose|i: int| 0 <= i < keys.len() && keys[i] is Err;
            assert(key_restore_of(rows[i]) is Err);
        }
        if exists|i: int| 0 <= i < rows.len() && key_restore_of(rows[i]) is Err {
            let i = choose|i: int| 0 <= i < rows.len() && key_restore_of(rows[i]) is Err;
            assert(keys[i] is Err);
        }
    }
}

/// Restores the chain of the exported rows: the entries restored from the
/// rows (one result per row, in row order) and the rows' verifying keys.
/// Verification fails closed: no rows, an entry that could not be restored,
/// or a key that could not be restored ends it.
pub fn restore_chain<Entry, EntryErr>(
    rows: &Vec<LedgerVerificationMaterialRow>,
    restored_entries: Vec<Result<Entry, EntryErr>>,
) -> (chain: Result<RestoredChain<Entry>, VerifyMonthlyDigestError>)
    requires
        restored_entries@.len() == rows@.len(),
    ensures
        rows@.len() == 0 ==> (chain matches Err(VerifyMonthlyDigestError::FetchFailed { code }) && code@
            == "monthly_digest_chain_empty"@),
        rows@.len() > 0 && (exists|i: int| 0 <= i < restored_entries@.len() && restored_entries@[i] is Err)
            ==> (chain matches Err(VerifyMonthlyDigestError::FetchFailed { code }) && code@
            == "monthly_digest_chain_entry_restore_failed"@),
        rows@.len() > 0 && (forall|i: int| 0 <= i < restored_entries@.len() ==> restored_entries@[i] is Ok)
            && (exists|i: int| 0 <= i < rows@.len() && key_restore_of(rows@[i]) is Err)
            ==> (chain matches Err(VerifyMonthlyDigestError::FetchFailed { code }) && code@
            == "monthly_digest_chain_key_restore_failed"@),
        rows@.len() > 0 && (forall|i: int| 0 <= i < restored_entries@.len() ==> restored_entries@[i] is Ok)
            && (forall|i: int| 0 <= i < rows@.len() ==> key_restore_of(rows@[i]) is Ok) ==> (chain matches Ok(c)
            && c.entries@.len() == rows@.len()
            && (forall|i: int| 0 <= i < rows@.len() ==> restored_entries@[i] == Ok::<Entry, EntryErr>(
                #[trigger] c.entries@[i],
            ))
            && c.verification_keys@.map_values(|k: RestoredVerifyingKey| k.key_version) == first_versions(
                row_key_versions(rows@),
            )
            && (forall|k: int| 0 <= k < c.verification_keys@.len() ==> first_row_key(
                rows@,
                #[trigger] c.verification_keys@[k],
            ))
            && c.first_previous_hash@ == rows@[0].previous_entry_hash@),
{
    if rows.len() == 0 {
        return Err(VerifyMonthlyDigestError::FetchFailed { code: "monthly_digest_chain_empty" });
    }
    let ghost all = restored_entries@;
    let mut entries: Vec<Entry> = Vec::new();
    let mut rest = restored_entries;
    let ghost mut done: int = 0;
    while rest.len() > 0
        invariant
            0 <= done <= all.len(),
            all.len() == rows@.len(),
            all == restored_entries@,
            rows@.len() > 0,
            rest@ == all.subrange(done, all.len() as int),
            entries@.len() == done,
            forall|i: int| 0 <= i < done ==> all[i] == Ok::<Entry, EntryErr>(#[trigger] entries@[i]),
        decreases rest@.len(),
    {
        let item = rest.remove(0);
        assert(item == all[done]);
        match item {
            Ok(entry) => {
                entries.push(entry);
            },
            Err(_) => {
                return Err(
                    VerifyMonthlyDigestError::FetchFailed { code: "monthly_digest_chain_entry_restore_failed" },
                );
            },
        }
        proof {
            done = done + 1;
        }
    }
    assert forall|i: int| 0 <= i < all.len() implies all[i] is Ok by {
        assert(all[i] == Ok::<Entry, EntryErr>(entries@[i]));
    }
    let mut key_results: Vec<Result<Option<(u32, RestoredVerifyingKey)>, LedgerKeyRestoreError>> = Vec::new();
    let mut j: usize = 0;
    while j < rows.len()
        invariant
            j <= rows@.len(),
            keys_of_rows(key_results@, rows@.subrange(0, j as int)),
        decreases rows@.len() - j,
    {
        let restored = match rows[j].try_restore_verifying_key() {
            Ok(None) => Ok(None),
            Ok(Some(k)) => Ok(Some((k.key_version, k))),
            Err(e) => Err(e),
        };
        let ghost before = key_results@;
        key_results.push(restored);
        assert forall|i: int| 0 <= i < j + 1 implies match #[trigger] key_restore_of(rows@.subrange(0, j + 1)[i]) {
            Ok(None) => key_results@[i] matches Ok(None),
            Ok(Some((version, bytes))) => key_results@[i] matches Ok(Some(k)) && k.0 == version
                && k.1.key_version == version && k.1.public_key@ == bytes,
            Err(e) => key_results@[i] == Err::<Option<(u32, RestoredVerifyingKey)>, LedgerKeyRestoreError>(e),
        } by {
            if i < j {
                assert(rows@.subrange(0, j + 1)[i] == rows@.subrange(0, j as int)[i]);
                assert(key_results@[i] == before[i]);
            } else {
                assert(rows@.subrange(0, j + 1)[i] == rows@[j as int]);
            }
        }
        j = j + 1;
    }
    assert(rows@.subrange(0, rows@.len() as int) =~= rows@);
    proof { lemma_key_versions_agree(key_results@, rows@); }
    let collected = collect_verification_keys(key_results);
    match collected {
        Err(e) => Err(e),
        Ok(pairs) => {
            let mut verification_keys: Vec<RestoredVerifyingKey> = Vec::new();
            let ghost versions = pairs@.map_values(|k: (u32, RestoredVerifyingKey)| k.0);
            let mut rest_pairs = pairs;
            let ghost all_pairs = rest_pairs@;
            let ghost mut taken: int = 0;
            let ghost kr = key_results@;
            assert forall|p: int| 0 <= p < all_pairs.len() implies all_pairs[p].0 == (#[trigger] all_pairs[p]).1.key_version by {
                let i = choose|i: int| 0 <= i < kr.len()
                    && kr[i] == Ok::<Option<(u32, RestoredVerifyingKey)>, LedgerKeyRestoreError>(Some(all_pairs[p]));
                match key_restore_of(rows@[i]) {
                    Ok(None) => {},
                    Ok(Some(_)) => {},
                    Err(_) => {},
                }
            }
            assert forall|p: int| 0 <= p < all_pairs.len() implies first_row_key(rows@, (#[trigger] all_pairs[p]).1) by {
                assert(first_before(kr, kr.len() as int, all_pairs[p]));
                let i = choose|i: int| i < kr.len() && #[trigger] first_of_version(kr, i, all_pairs[p]);
                match key_restore_of(rows@[i]) {
                    Ok(None) => {},
                    Ok(Some(_)) => {},
                    Err(_) => {},
                }
                assert forall|j: int| 0 <= j < i implies row_version_at(rows@, j) != Some(all_pairs[p].1.key_version) by {
                    assert(version_at(kr, j) != Some(all_pairs[p].0));
                    match key_restore_of(rows@[j]) {
                        Ok(None) => {},
                        Ok(Some(_)) => {},
                        Err(_) => {},
                    }
                }
            }
            while rest_pairs.len() > 0
                invariant
                    forall|p: int| 0 <= p < all_pairs.len() ==> first_row_key(rows@, (#[trigger] all_pairs[p]).1),
                    0 <= taken <= all_pairs.len(),
                    rest_pairs@ == all_pairs.subrange(taken, all_pairs.len() as int),
                    verification_keys@.len() == taken,
                    forall|i: int| 0 <= i < taken ==> #[trigger] verification_keys@[i] == all_pairs[i].1,
                decreases rest_pairs@.len(),
            {
                let pair = rest_pairs.remove(0);
                assert(pair == all_pairs[taken]);
                verification_keys.push(pair.1);
                proof {
                    taken = taken + 1;
                }
            }
            assert(verification_keys@.map_values(|k: RestoredVerifyingKey| k.key_version) =~= versions);
            Ok(RestoredChain { entries, verification_keys, first_previous_hash: rows[0].previous_entry_hash.clone() })
        },
    }
}

} // verus!
