use vstd::prelude::*;

use vstd::string::*;

use crate::ledger::{lemma_padded_digits_roundtrip, pow10, MonthlyDigestPeriod, PeriodError};
use crate::text::decimal_value;
use crate::text::{bytes_eq, digit_char, padded_digits, push_padded_digits, str_eq};

verus! {

/// Byte length of a ledger entry hash.
pub const LEDGER_HASH_LENGTH: usize = 32;

/// The hash that the first ledger entry links back to: the genesis chain head's hash.
pub open spec fn genesis_hash() -> Seq<u8> {
    Seq::new(32, |i: int| 0u8)
}

/// What chain verification reads of one restored ledger entry.
///
/// `recomputed_entry_hash` is the entry hash computed afresh from the entry's
/// canonical form; `entry_hash` is the hash stored with the entry.
pub struct LedgerEntryLink {
    pub sequence_no: u64,
    pub previous_entry_hash: Vec<u8>,
    pub entry_hash: Vec<u8>,
    pub recomputed_entry_hash: Vec<u8>,
}

/// Mathematical view of a [`LedgerEntryLink`].
pub struct LedgerEntryLinkView {
    pub sequence_no: nat,
    pub previous_entry_hash: Seq<u8>,
    pub entry_hash: Seq<u8>,
    pub recomputed_entry_hash: Seq<u8>,
}

impl View for LedgerEntryLink {
    type V = LedgerEntryLinkView;

    open spec fn view(&self) -> LedgerEntryLinkView {
        LedgerEntryLinkView {
            sequence_no: self.sequence_no as nat,
            previous_entry_hash: self.previous_entry_hash@,
            entry_hash: self.entry_hash@,
            recomputed_entry_hash: self.recomputed_entry_hash@,
        }
    }
}

/// The last sequence number and entry hash of a ledger chain.
#[derive(Debug)]
pub struct LedgerChainHead {
    pub last_sequence_no: u64,
    pub last_entry_hash: Vec<u8>,
}

/// Why a ledger chain failed verification.
#[derive(Debug, Clone, Copy, PartialEq, Eq, Structural)]
pub enum ChainFault {
    SequenceGap,
    PreviousHashMismatch,
    EntryHashMismatch,
    ChainHeadMismatch,
}

/// Stable error code of a chain fault.
pub open spec fn chain_fault_code(fault: ChainFault) -> Seq<char> {
    match fault {
        ChainFault::SequenceGap => "ledger_sequence_gap"@,
        ChainFault::PreviousHashMismatch => "ledger_previous_hash_mismatch"@,
        ChainFault::EntryHashMismatch => "ledger_entry_hash_mismatch"@,
        ChainFault::ChainHeadMismatch => "ledger_chain_head_mismatch"@,
    }
}

/// Views of a slice of entry links.
pub open spec fn link_views(entries: Seq<LedgerEntryLink>) -> Seq<LedgerEntryLinkView> {
    entries.map_values(|e: LedgerEntryLink| e@)
}

/// The hash that entry `j` must link back to.
pub open spec fn expected_previous_hash(entries: Seq<LedgerEntryLinkView>, j: int) -> Seq<u8> {
    if j == 0 {
        genesis_hash()
    } else {
        entries[j - 1].entry_hash
    }
}

/// The fault of entry `j` on its own, checked in the order sequence, link, self-hash.
pub open spec fn entry_fault(entries: Seq<LedgerEntryLinkView>, j: int) -> Option<ChainFault> {
    if entries[j].sequence_no != j + 1 {
        Some(ChainFault::SequenceGap)
    } else if entries[j].previous_entry_hash != expected_previous_hash(entries, j) {
        Some(ChainFault::PreviousHashMismatch)
    } else if entries[j].recomputed_entry_hash != entries[j].entry_hash {
        Some(ChainFault::EntryHashMismatch)
    } else {
        None
    }
}

/// The fault of the first faulty entry at or after position `i`.
pub open spec fn scan_fault(entries: Seq<LedgerEntryLinkView>, i: int) -> Option<ChainFault>
    decreases entries.len() - i,
{
    if i < 0 || i >= entries.len() {
        None
    } else if entry_fault(entries, i) is Some {
        entry_fault(entries, i)
    } else {
        scan_fault(entries, i + 1)
    }
}

/// Sequence number of the last entry, or of genesis for an empty chain.
pub open spec fn tail_sequence_no(entries: Seq<LedgerEntryLinkView>) -> nat {
    if entries.len() == 0 { 0 } else { entries.last().sequence_no }
}

/// Hash of the last entry, or genesis for an empty chain.
pub open spec fn tail_hash(entries: Seq<LedgerEntryLinkView>) -> Seq<u8> {
    if entries.len() == 0 { genesis_hash() } else { entries.last().entry_hash }
}

/// The verdict of chain verification: the first fault found, or none.
pub open spec fn chain_verdict(
    entries: Seq<LedgerEntryLinkView>,
    head_sequence_no: nat,
    head_hash: Seq<u8>,
) -> Option<ChainFault> {
    match scan_fault(entries, 0) {
        Some(fault) => Some(fault),
        None => if tail_sequence_no(entries) != head_sequence_no || tail_hash(entries) != head_hash {
            Some(ChainFault::ChainHeadMismatch)
        } else {
            None
        },
    }
}

/// Every entry is numbered from one without gaps, links to its predecessor
/// (genesis for the first), and carries the hash of its own content.
pub open spec fn well_linked(entries: Seq<LedgerEntryLinkView>) -> bool {
    forall|j: int| 0 <= j < entries.len() ==> {
        &&& (#[trigger] entries[j]).sequence_no == j + 1
        &&& entries[j].previous_entry_hash == expected_previous_hash(entries, j)
        &&& entries[j].recomputed_entry_hash == entries[j].entry_hash
    }
}

/// Result of a full ledger verification run.
#[derive(Debug, Clone, Copy)]
pub struct LedgerVerificationSummary {
    pub valid: bool,
    pub checked_count: u64,
    pub error_code: Option<&'static str>,
}

/// A count as `u64`, saturating at `u64::MAX`.
pub open spec fn saturating_count(len: int) -> u64 {
    if len > u64::MAX as int { u64::MAX } else { len as u64 }
}

/// Number of entries as `u64`, saturating at `u64::MAX`.
pub fn entry_count(len: usize) -> (count: u64)
    ensures
        count == saturating_count(len as int),
{
    if len as u128 > u64::MAX as u128 {
        u64::MAX
    } else {
        len as u64
    }
}

fn chain_fault_as_code(fault: ChainFault) -> (code: &'static str)
    ensures
        code@ == chain_fault_code(fault),
{
    match fault {
        ChainFault::SequenceGap => "ledger_sequence_gap",
        ChainFault::PreviousHashMismatch => "ledger_previous_hash_mismatch",
        ChainFault::EntryHashMismatch => "ledger_entry_hash_mismatch",
        ChainFault::ChainHeadMismatch => "ledger_chain_head_mismatch",
    }
}

fn genesis_hash_bytes() -> (hash: Vec<u8>)
    ensures
        hash@ == genesis_hash(),
{
    let mut hash: Vec<u8> = Vec::new();
    let mut i: usize = 0;
    while i < LEDGER_HASH_LENGTH
        invariant
            i <= LEDGER_HASH_LENGTH,
            hash@.len() == i,
            forall|j: int| 0 <= j < i ==> hash@[j] == 0u8,
        decreases LEDGER_HASH_LENGTH - i,
    {
        hash.push(0u8);
        i = i + 1;
    }
    assert(hash@ =~= genesis_hash());
    hash
}

fn summary_for(fault: Option<ChainFault>, len: usize) -> (summary: LedgerVerificationSummary)
    ensures
        summary.valid == (fault is None),
        summary.checked_count == saturating_count(len as int),
        match fault {
            Some(f) => summary.error_code matches Some(code) && code@ == chain_fault_code(f),
            None => summary.error_code is None,
        },
{
    match fault {
        Some(f) => LedgerVerificationSummary {
            valid: false,
            checked_count: entry_count(len),
            error_code: Some(chain_fault_as_code(f)),
        },
        None => LedgerVerificationSummary {
            valid: true,
            checked_count: entry_count(len),
            error_code: None,
        },
    }
}

fn copy_link(entry: &LedgerEntryLink) -> (copy: LedgerEntryLink)
    ensures
        copy@ == entry@,
{
    let copy = LedgerEntryLink {
        sequence_no: entry.sequence_no,
        previous_entry_hash: entry.previous_entry_hash.clone(),
        entry_hash: entry.entry_hash.clone(),
        recomputed_entry_hash: entry.recomputed_entry_hash.clone(),
    };
    assert(copy.previous_entry_hash@ =~= entry.previous_entry_hash@);
    assert(copy.entry_hash@ =~= entry.entry_hash@);
    assert(copy.recomputed_entry_hash@ =~= entry.recomputed_entry_hash@);
    copy
}

/// Verifies the hash chain of restored ledger entries against the chain head.
///
/// Entries must continue the chain from genesis: sequence numbers 1, 2, ...,
/// each previous-entry hash equal to the predecessor's entry hash, each stored
/// hash equal to the recomputed one, and the last entry equal to the head.
/// The first fault found is reported; nothing is repaired.
pub fn verify_chain_links(
    entries: &[LedgerEntryLink],
    chain_head: &LedgerChainHead,
) -> (result: Result<LedgerVerificationSummary, &'static str>)
    ensures
        result matches Ok(summary) && {
            let verdict = chain_verdict(
                link_views(entries@),
                chain_head.last_sequence_no as nat,
                chain_head.last_entry_hash@,
            );
            &&& summary.valid == (verdict is None)
            &&& summary.checked_count == saturating_count(entries@.len() as int)
            &&& match verdict {
                Some(f) => summary.error_code matches Some(code) && code@ == chain_fault_code(f),
                None => summary.error_code is None,
            }
        },
        result matches Ok(summary) && (summary.valid <==> {
            &&& well_linked(link_views(entries@))
            &&& tail_sequence_no(link_views(entries@)) == chain_head.last_sequence_no as nat
            &&& tail_hash(link_views(entries@)) == chain_head.last_entry_hash@
        }),
{
    proof {
        lemma_chain_verdict_valid_iff(
            link_views(entries@),
            chain_head.last_sequence_no as nat,
            chain_head.last_entry_hash@,
        );
    }
    let ghost views = link_views(entries@);
    let mut previous_sequence_no: u64 = 0;
    let mut previous_hash = genesis_hash_bytes();
    let mut i: usize = 0;
    while i < entries.len()
        invariant
            views == link_views(entries@),
            i <= entries@.len(),
            previous_sequence_no as int == i as int,
            previous_hash@ == expected_previous_hash(views, i as int),
            views.len() == entries@.len(),
            i > 0 ==> previous_hash@ == views[i - 1].entry_hash,
            i > 0 ==> views[i - 1].sequence_no == previous_sequence_no as nat,
            scan_fault(views, 0) == scan_fault(views, i as int),
        decreases entries@.len() - i,
    {
        let entry = &entries[i];
        assert(views[i as int] == entry@);
        let expected_sequence_no = match previous_sequence_no.checked_add(1) {
            Some(next) => next,
            None => {
                return Err("ledger_sequence_overflow");
            },
        };
        if entry.sequence_no != expected_sequence_no {
            assert(entry_fault(views, i as int) == Some(ChainFault::SequenceGap));
            return Ok(summary_for(Some(ChainFault::SequenceGap), entries.len()));
        }
        if !bytes_eq(entry.previous_entry_hash.as_slice(), previous_hash.as_slice()) {
            assert(entry_fault(views, i as int) == Some(ChainFault::PreviousHashMismatch));
            return Ok(summary_for(Some(ChainFault::PreviousHashMismatch), entries.len()));
        }
        if !bytes_eq(entry.recomputed_entry_hash.as_slice(), entry.entry_hash.as_slice()) {
            assert(entry_fault(views, i as int) == Some(ChainFault::EntryHashMismatch));
            return Ok(summary_for(Some(ChainFault::EntryHashMismatch), entries.len()));
        }
        assert(entry_fault(views, i as int) is None);
        previous_sequence_no = entry.sequence_no;
        previous_hash = entry.entry_hash.clone();
        i = i + 1;
    }
    assert(scan_fault(views, i as int) is None);
    let head_matches = previous_sequence_no == chain_head.last_sequence_no
        && bytes_eq(previous_hash.as_slice(), chain_head.last_entry_hash.as_slice());
    assert(tail_sequence_no(views) == previous_sequence_no as nat);
    assert(tail_hash(views) == previous_hash@);
    if !head_matches {
        return Ok(summary_for(Some(ChainFault::ChainHeadMismatch), entries.len()));
    }
    Ok(summary_for(None, entries.len()))
}

/// No entry at or after `i` is faulty exactly when the scan from `i` finds nothing.
proof fn lemma_scan_fault_none(entries: Seq<LedgerEntryLinkView>, i: int)
    requires
        0 <= i <= entries.len(),
    ensures
        scan_fault(entries, i) is None <==> (forall|j: int| i <= j < entries.len() ==> #[trigger] entry_fault(entries, j) is None),
    decreases entries.len() - i,
{
    if i < entries.len() {
        lemma_scan_fault_none(entries, i + 1);
        if scan_fault(entries, i) is None {
            assert forall|j: int| i <= j < entries.len() implies #[trigger] entry_fault(entries, j) is None by {
                if j > i {
                    assert(entry_fault(entries, j) is None);
                }
            }
        }
    }
}

/// Chain verification succeeds exactly when the entries form a well-linked chain
/// from genesis whose last entry (genesis itself when empty) equals the head.
pub proof fn lemma_chain_verdict_valid_iff(
    entries: Seq<LedgerEntryLinkView>,
    head_sequence_no: nat,
    head_hash: Seq<u8>,
)
    ensures
        chain_verdict(entries, head_sequence_no, head_hash) is None <==> {
            &&& well_linked(entries)
            &&& tail_sequence_no(entries) == head_sequence_no
            &&& tail_hash(entries) == head_hash
        },
{
    lemma_scan_fault_none(entries, 0);
    if well_linked(entries) {
        assert forall|j: int| 0 <= j < entries.len() implies #[trigger] entry_fault(entries, j) is None by {
            assert(entries[j].sequence_no == j + 1);
        }
    }
    if scan_fault(entries, 0) is None {
        assert forall|j: int| 0 <= j < entries.len() implies {
            &&& (#[trigger] entries[j]).sequence_no == j + 1
            &&& entries[j].previous_entry_hash == expected_previous_hash(entries, j)
            &&& entries[j].recomputed_entry_hash == entries[j].entry_hash
        } by {
            assert(entry_fault(entries, j) is None);
        }
    }
}

/// Lemma: a well-linked chain stays well-linked when an entry that continues it
/// is appended, and the appended entry becomes the chain's tail.
pub proof fn lemma_well_linked_push(entries: Seq<LedgerEntryLinkView>, next: LedgerEntryLinkView)
    requires
        well_linked(entries),
        next.sequence_no == entries.len() + 1,
        next.previous_entry_hash == tail_hash(entries),
        next.recomputed_entry_hash == next.entry_hash,
    ensures
        well_linked(entries.push(next)),
        tail_sequence_no(entries.push(next)) == next.sequence_no,
        tail_hash(entries.push(next)) == next.entry_hash,
{
    let extended = entries.push(next);
    assert forall|j: int| 0 <= j < extended.len() implies {
        &&& (#[trigger] extended[j]).sequence_no == j + 1
        &&& extended[j].previous_entry_hash == expected_previous_hash(extended, j)
        &&& extended[j].recomputed_entry_hash == extended[j].entry_hash
    } by {
        if j < entries.len() {
            assert(extended[j] == entries[j]);
            if j > 0 {
                assert(extended[j - 1] == entries[j - 1]);
            }
        }
    }
}

/// What full-ledger verification reads of one exported row: whether its payload
/// holds a forbidden key, and the entry restored from it (`None` when the row
/// could not be restored).
pub struct RestoredLedgerRow {
    pub payload_has_forbidden_key: bool,
    pub entry: Option<LedgerEntryLink>,
}

/// How many rows from position `i` on come before the first row with a
/// forbidden key or a failed restore.
pub open spec fn rows_usable_from(rows: Seq<RestoredLedgerRow>, i: int) -> bool
    decreases rows.len() - i,
{
    if i < 0 || i >= rows.len() {
        true
    } else if rows[i].payload_has_forbidden_key || rows[i].entry is None {
        false
    } else {
        rows_usable_from(rows, i + 1)
    }
}

/// Outcome of restoring rows from position `i` on: `Ok(None)` when all restore,
/// `Ok(Some(k))` when row `k` is the first bad one and holds a forbidden key,
/// `Err(k)` when row `k` is the first bad one and failed to restore.
pub open spec fn first_bad_row(rows: Seq<RestoredLedgerRow>, i: int) -> Result<Option<int>, int>
    decreases rows.len() - i,
{
    if i < 0 || i >= rows.len() {
        Ok(None)
    } else if rows[i].payload_has_forbidden_key {
        Ok(Some(i))
    } else if rows[i].entry is None {
        Err(i)
    } else {
        first_bad_row(rows, i + 1)
    }
}

/// Entries restored from the rows.
pub open spec fn restored_entries(rows: Seq<RestoredLedgerRow>) -> Seq<LedgerEntryLinkView> {
    rows.map_values(|r: RestoredLedgerRow| r.entry.unwrap()@)
}

/// When no row from `i` on is bad, every such row is restored and carries no
/// forbidden key.
proof fn lemma_no_bad_row(rows: Seq<RestoredLedgerRow>, i: int)
    requires
        0 <= i,
    ensures
        first_bad_row(rows, i) == Ok::<Option<int>, int>(None) ==> forall|j: int| i <= j < rows.len() ==> (
            #[trigger] rows[j]).entry is Some && !rows[j].payload_has_forbidden_key,
    decreases rows.len() - i,
{
    if i < rows.len() {
        lemma_no_bad_row(rows, i + 1);
    }
}

/// Restores entries from exported rows and verifies their hash chain.
///
/// A row whose payload holds a forbidden key stops verification with an invalid
/// summary counting the rows restored before it; a row that cannot be restored
/// is an error. Otherwise the restored entries are verified as a chain.
pub fn verify_hash_chain_rows(
    chain_head: &LedgerChainHead,
    rows: &[RestoredLedgerRow],
) -> (result: Result<LedgerVerificationSummary, &'static str>)
    ensures
        match first_bad_row(rows@, 0) {
            Ok(Some(k)) => result matches Ok(summary) && {
                &&& !summary.valid
                &&& summary.checked_count == saturating_count(k)
                &&& summary.error_code matches Some(code) && code@ == "ledger_payload_forbidden_key"@
            },
            Err(_) => result matches Err(code) && code@ == "ledger_entry_restore_failed"@,
            Ok(None) => result matches Ok(summary) && {
                let verdict = chain_verdict(
                    restored_entries(rows@),
                    chain_head.last_sequence_no as nat,
                    chain_head.last_entry_hash@,
                );
                &&& summary.valid == (verdict is None)
                &&& summary.checked_count == saturating_count(rows@.len() as int)
                &&& match verdict {
                    Some(f) => summary.error_code matches Some(code) && code@ == chain_fault_code(f),
                    None => summary.error_code is None,
                }
            },
        },
        (result matches Ok(summary) && summary.valid) ==> {
            &&& forall|j: int| 0 <= j < rows@.len() ==> (#[trigger] rows@[j]).entry is Some
                && !rows@[j].payload_has_forbidden_key
            &&& well_linked(restored_entries(rows@))
            &&& tail_sequence_no(restored_entries(rows@)) == chain_head.last_sequence_no as nat
            &&& tail_hash(restored_entries(rows@)) == chain_head.last_entry_hash@
        },
{
    proof {
        lemma_no_bad_row(rows@, 0);
        lemma_chain_verdict_valid_iff(
            restored_entries(rows@),
            chain_head.last_sequence_no as nat,
            chain_head.last_entry_hash@,
        );
    }
    let mut entries: Vec<LedgerEntryLink> = Vec::new();
    let mut i: usize = 0;
    while i < rows.len()
        invariant
            i <= rows@.len(),
            entries@.len() == i,
            first_bad_row(rows@, 0) == first_bad_row(rows@, i as int),
            forall|j: int| 0 <= j < i ==> (#[trigger] rows@[j]).entry is Some,
            forall|j: int| 0 <= j < i ==> (#[trigger] entries@[j])@ == rows@[j].entry.unwrap()@,
        decreases rows@.len() - i,
    {
        let row = &rows[i];
        if row.payload_has_forbidden_key {
            proof { reveal_strlit("ledger_payload_forbidden_key"); }
            return Ok(LedgerVerificationSummary {
                valid: false,
                checked_count: entry_count(entries.len()),
                error_code: Some("ledger_payload_forbidden_key"),
            });
        }
        let ghost old_entries = entries@;
        if row.entry.is_none() {
            proof { reveal_strlit("ledger_entry_restore_failed"); }
            return Err("ledger_entry_restore_failed");
        }
        let copy = copy_link(row.entry.as_ref().unwrap());
        entries.push(copy);
        proof {
            assert(entries@[i as int]@ == rows@[i as int].entry.unwrap()@);
            assert forall|j: int| 0 <= j < i + 1 implies (#[trigger] entries@[j])@ == rows@[j].entry.unwrap()@ by {
                if j < i {
                    assert(entries@[j] == old_entries[j]);
                    assert(old_entries[j]@ == rows@[j].entry.unwrap()@);
                }
            }
        }
        i = i + 1;
    }
    assert(link_views(entries@) =~= restored_entries(rows@));
    verify_chain_links(entries.as_slice(), chain_head)
}

/// Outcome of restoring a row's verifying key.
#[derive(Debug, Clone, Copy, PartialEq, Eq, Structural)]
pub enum VerifyingKeyRestore {
    Failed,
    Missing,
    Present,
}

/// What signature verification reads of one exported row: whether its payload
/// holds a forbidden key, whether its entry could be restored, the outcome of
/// restoring its verifying key, and whether its signature verifies under it.
#[derive(Debug, Clone, Copy, PartialEq, Eq, Structural)]
pub struct SignatureRow {
    pub payload_has_forbidden_key: bool,
    pub entry_restored: bool,
    pub verifying_key: VerifyingKeyRestore,
    pub signature_valid: bool,
}

/// Outcome of signature verification from row `i` on, with `i` rows already
/// checked: `Ok((valid, checked_count, error_code))` or `Err(error_code)`.
pub open spec fn signature_outcome_from(rows: Seq<SignatureRow>, i: int) -> Result<(bool, u64, Option<Seq<char>>), Seq<char>>
    decreases rows.len() - i,
{
    if i < 0 || i >= rows.len() {
        Ok((true, saturating_count(rows.len() as int), None))
    } else if rows[i].payload_has_forbidden_key {
        Ok((false, saturating_count(i), Some("ledger_payload_forbidden_key"@)))
    } else if !rows[i].entry_restored {
        Err("ledger_entry_restore_failed"@)
    } else if rows[i].verifying_key == VerifyingKeyRestore::Failed {
        Err("ledger_key_restore_failed"@)
    } else if rows[i].verifying_key == VerifyingKeyRestore::Missing {
        Ok((false, saturating_count(rows.len() as int), Some("ledger_signature_key_missing"@)))
    } else if !rows[i].signature_valid {
        Ok((false, saturating_count(rows.len() as int), Some("ledger_signature_invalid"@)))
    } else {
        signature_outcome_from(rows, i + 1)
    }
}

/// Every row carries a restored entry, no forbidden payload key, a present
/// verifying key and a valid signature.
pub open spec fn all_rows_verify(rows: Seq<SignatureRow>, from: int) -> bool {
    forall|j: int| from <= j < rows.len() ==> {
        &&& !(#[trigger] rows[j]).payload_has_forbidden_key
        &&& rows[j].entry_restored
        &&& rows[j].verifying_key == VerifyingKeyRestore::Present
        &&& rows[j].signature_valid
    }
}

/// Law: signature verification reports a valid ledger only when every row,
/// the first included, has a restored entry, no forbidden payload key, a
/// present key and a signature that verifies; a single invalid signature
/// (with nothing before it stopping verification) makes the ledger invalid.
pub proof fn lemma_valid_signatures_cover_every_row(rows: Seq<SignatureRow>, i: int)
    requires
        0 <= i,
    ensures
        signature_outcome_from(rows, i) matches Ok((valid, _, _)) && valid ==> all_rows_verify(rows, i),
    decreases rows.len() - i,
{
    if i < rows.len() {
        lemma_valid_signatures_cover_every_row(rows, i + 1);
    }
}

/// Verifies the signature of every exported row, in order, stopping at the first
/// row that fails.
pub fn verify_signature_rows(rows: &[SignatureRow]) -> (result: Result<LedgerVerificationSummary, &'static str>)
    ensures
        (result matches Ok(summary) && summary.valid) ==> all_rows_verify(rows@, 0),
        match signature_outcome_from(rows@, 0) {
            Ok((valid, count, code)) => result matches Ok(summary) && {
                &&& summary.valid == valid
                &&& summary.checked_count == count
                &&& match code {
                    Some(c) => summary.error_code matches Some(e) && e@ == c,
                    None => summary.error_code is None,
                }
            },
            Err(c) => result matches Err(e) && e@ == c,
        },
{
    proof {
        reveal_strlit("ledger_payload_forbidden_key");
        reveal_strlit("ledger_entry_restore_failed");
        reveal_strlit("ledger_key_restore_failed");
        reveal_strlit("ledger_signature_key_missing");
        reveal_strlit("ledger_signature_invalid");
        lemma_valid_signatures_cover_every_row(rows@, 0);
    }
    let mut checked_count: u64 = 0;
    let mut i: usize = 0;
    while i < rows.len()
        invariant
            i <= rows@.len(),
            checked_count as int == i as int,
            signature_outcome_from(rows@, 0) == signature_outcome_from(rows@, i as int),
        decreases rows@.len() - i,
    {
        let row = rows[i];
        if row.payload_has_forbidden_key {
            return Ok(LedgerVerificationSummary {
                valid: false,
                checked_count,
                error_code: Some("ledger_payload_forbidden_key"),
            });
        }
        if !row.entry_restored {
            return Err("ledger_entry_restore_failed");
        }
        match row.verifying_key {
            VerifyingKeyRestore::Failed => {
                return Err("ledger_key_restore_failed");
            },
            VerifyingKeyRestore::Missing => {
                return Ok(LedgerVerificationSummary {
                    valid: false,
                    checked_count: entry_count(rows.len()),
                    error_code: Some("ledger_signature_key_missing"),
                });
            },
            VerifyingKeyRestore::Present => {},
        }
        if !row.signature_valid {
            return Ok(LedgerVerificationSummary {
                valid: false,
                checked_count: entry_count(rows.len()),
                error_code: Some("ledger_signature_invalid"),
            });
        }
        checked_count = checked_count + 1;
        i = i + 1;
    }
    Ok(LedgerVerificationSummary { valid: true, checked_count: entry_count(rows.len()), error_code: None })
}

/// A UTC calendar instant at hour resolution, as the scheduler reads the clock.
#[derive(Debug, Clone, Copy, PartialEq, Eq, Structural)]
pub struct UtcDateTime {
    pub year: i32,
    pub month: u8,
    pub day: u8,
    pub hour: u8,
}

impl UtcDateTime {
    /// Years from -9999 to 9999, months 1 to 12, days 1 to 31, hours 0 to 23.
    pub open spec fn wf(self) -> bool {
        &&& -9999 <= self.year <= 9999
        &&& 1 <= self.month <= 12
        &&& 1 <= self.day <= 31
        &&& self.hour <= 23
    }
}

/// Scheduler settings: when each cadence fires and how its jobs are sized.
#[derive(Debug)]
pub struct SchedulerConfig {
    pub startup_delay: std::time::Duration,
    pub poll_interval: std::time::Duration,
    pub monthly_day: u8,
    pub monthly_hour_utc: u8,
    pub quarterly_hour_utc: u8,
    pub daily_hour_utc: u8,
    pub envelope_migration_batch_size: u32,
    pub envelope_migration_max_batches: u32,
    pub restore_test_sample_limit: u32,
    pub local_archive_dir: String,
}

/// Monthly jobs are due on the configured day from the configured hour on.
pub fn monthly_due(now: UtcDateTime, monthly_day: u8, monthly_hour_utc: u8) -> (due: bool)
    ensures
        due == (now.day == monthly_day && now.hour >= monthly_hour_utc),
{
    now.day == monthly_day && now.hour >= monthly_hour_utc
}

/// The months that open a quarter.
pub open spec fn is_quarter_start_month(month: u8) -> bool {
    month == 1 || month == 4 || month == 7 || month == 10
}

/// Quarterly jobs are due on the monthly day of a quarter's first month, from the configured hour on.
pub fn quarterly_due(now: UtcDateTime, monthly_day: u8, quarterly_hour_utc: u8) -> (due: bool)
    ensures
        due == (is_quarter_start_month(now.month) && now.day == monthly_day && now.hour >= quarterly_hour_utc),
{
    (now.month == 1 || now.month == 4 || now.month == 7 || now.month == 10)
        && now.day == monthly_day
        && now.hour >= quarterly_hour_utc
}

/// Daily jobs are due from the configured hour on.
pub fn daily_due(now: UtcDateTime, daily_hour_utc: u8) -> (due: bool)
    ensures
        due == (now.hour >= daily_hour_utc),
{
    now.hour >= daily_hour_utc
}

/// A year written with at least four characters: zero padded, with a leading
/// minus sign for years before year zero.
pub open spec fn year_text(year: int) -> Seq<char> {
    if year >= 0 {
        padded_digits(year as nat, 4)
    } else if -year >= 1000 {
        seq!['-'] + padded_digits((-year) as nat, 4)
    } else {
        seq!['-'] + padded_digits((-year) as nat, 3)
    }
}

fn push_year(out: &mut String, year: i32)
    requires
        -9999 <= year <= 9999,
    ensures
        final(out)@ == old(out)@ + year_text(year as int),
{
    proof { reveal_strlit("-"); }
    if year >= 0 {
        push_padded_digits(out, year as u64, 4);
    } else {
        out.append("-");
        let magnitude = (0 - year) as u64;
        if magnitude >= 1000 {
            push_padded_digits(out, magnitude, 4);
        } else {
            push_padded_digits(out, magnitude, 3);
        }
        assert(out@ =~= old(out)@ + year_text(year as int));
    }
}

/// The `YYYY-MM-DD` key of the day of `now`.
pub open spec fn daily_key_text(now: UtcDateTime) -> Seq<char> {
    year_text(now.year as int) + seq!['-'] + padded_digits(now.month as nat, 2) + seq!['-']
        + padded_digits(now.day as nat, 2)
}

proof fn lemma_padded_len(n: nat, width: nat)
    ensures
        padded_digits(n, width).len() == width,
    decreases width,
{
    if width > 0 {
        lemma_padded_len(n / 10, (width - 1) as nat);
    }
}

/// The key that identifies the day of `now` among daily job runs.
pub fn daily_period_key(now: UtcDateTime) -> (key: String)
    requires
        now.wf(),
    ensures
        key@ == daily_key_text(now),
        key@.len() >= 10,
        key@.subrange(key@.len() - 6, key@.len() - 3) == seq!['-'] + padded_digits(now.month as nat, 2),
        decimal_value(key@.subrange(key@.len() - 5, key@.len() - 3)) == now.month,
        key@[key@.len() - 3] == '-',
        decimal_value(key@.subrange(key@.len() - 2, key@.len() as int)) == now.day,
{
    proof { reveal_strlit("-"); }
    let mut out = String::new();
    push_year(&mut out, now.year);
    out.append("-");
    push_padded_digits(&mut out, now.month as u64, 2);
    out.append("-");
    push_padded_digits(&mut out, now.day as u64, 2);
    assert(out@ =~= daily_key_text(now));
    proof {
        let k = out@;
        let y = year_text(now.year as int);
        assert(pow10(2) == 100) by {
            reveal_with_fuel(pow10, 3);
        }
        lemma_padded_digits_roundtrip(now.month as nat, 2);
        lemma_padded_digits_roundtrip(now.day as nat, 2);
        let magnitude: nat = if now.year >= 0 { now.year as nat } else { (-now.year) as nat };
        lemma_padded_len(magnitude, 4);
        lemma_padded_len(magnitude, 3);
        assert(y.len() >= 4);
        assert(k.subrange(k.len() - 5, k.len() - 3) =~= padded_digits(now.month as nat, 2));
        assert(k.subrange(k.len() - 2, k.len() as int) =~= padded_digits(now.day as nat, 2));
        assert(k.subrange(k.len() - 6, k.len() - 3) =~= seq!['-'] + padded_digits(now.month as nat, 2));
    }
    out
}

/// The quarter (1 to 4) that a month falls in.
pub open spec fn quarter_of(month: u8) -> nat {
    if month <= 3 { 1 } else if month <= 6 { 2 } else if month <= 9 { 3 } else { 4 }
}

/// The `YYYY-Qn` key of the quarter of `now`.
pub open spec fn quarter_key_text(now: UtcDateTime) -> Seq<char> {
    year_text(now.year as int) + seq!['-', 'Q'] + padded_digits(quarter_of(now.month), 1)
}

/// Law: the quarter of a month is `(month - 1) / 3 + 1`, so every month of
/// a quarter falls in the same quarter as the quarter's first month.
pub proof fn lemma_quarter_of_month(month: u8)
    requires
        1 <= month <= 12,
    ensures
        quarter_of(month) == (month - 1) / 3 + 1,
        1 <= quarter_of(month) <= 4,
        quarter_of(month) == quarter_of((3 * ((month - 1) / 3) + 1) as u8),
{
}

/// The key that identifies the quarter of `now` among quarterly job runs.
pub fn quarter_period_key(now: UtcDateTime) -> (key: String)
    requires
        now.wf(),
    ensures
        key@ == quarter_key_text(now),
        key@ == year_text(now.year as int) + seq!['-', 'Q', digit_char((now.month - 1) / 3 + 1)],
{
    proof { reveal_strlit("-Q"); }
    let quarter: u64 = if now.month <= 3 {
        1
    } else if now.month <= 6 {
        2
    } else if now.month <= 9 {
        3
    } else {
        4
    };
    let mut out = String::new();
    push_year(&mut out, now.year);
    out.append("-Q");
    push_padded_digits(&mut out, quarter, 1);
    assert(out@ =~= quarter_key_text(now));
    proof {
        lemma_quarter_of_month(now.month);
        let q = quarter_of(now.month);
        assert(padded_digits(q, 1) =~= seq![digit_char((now.month - 1) / 3 + 1)]) by {
            assert(padded_digits(q / 10, 0) =~= Seq::<char>::empty());
        }
        assert(out@ =~= year_text(now.year as int) + seq!['-', 'Q', digit_char((now.month - 1) / 3 + 1)]);
    }
    out
}

/// The calendar month before the month of `now`, as (year, month).
pub open spec fn previous_month(now: UtcDateTime) -> (int, int) {
    if now.month == 1 { (now.year - 1, 12) } else { (now.year as int, now.month - 1) }
}

/// The digest period of the month before `now`.
///
/// A period's year has four digits, so a previous month before year zero has no period.
pub fn previous_month_period(now: UtcDateTime) -> (period: Result<MonthlyDigestPeriod, PeriodError>)
    requires
        now.wf(),
    ensures
        previous_month(now).0 >= 0 ==> (period matches Ok(p) && p.wf()
            && p.year as int == previous_month(now).0 && p.month as int == previous_month(now).1),
        previous_month(now).0 < 0 ==> period matches Err(PeriodError::InvalidFormat),
{
    let mut year: i32 = now.year;
    let mut month: u8 = now.month - 1;
    if month == 0 {
        year = year - 1;
        month = 12;
    }
    if year < 0 {
        return Err(PeriodError::InvalidFormat);
    }
    Ok(MonthlyDigestPeriod { year: year as u16, month })
}

/// Which cadences of jobs are due at `now`.
#[derive(Debug, Clone, Copy, PartialEq, Eq, Structural)]
pub struct DueJobs {
    pub monthly: bool,
    pub daily: bool,
    pub quarterly: bool,
}

/// Decides which job cadences are due at `now` under `config`.
pub fn due_jobs(now: UtcDateTime, config: &SchedulerConfig) -> (due: DueJobs)
    ensures
        due.monthly == (now.day == config.monthly_day && now.hour >= config.monthly_hour_utc),
        due.daily == (now.hour >= config.daily_hour_utc),
        due.quarterly == (is_quarter_start_month(now.month) && now.day == config.monthly_day
            && now.hour >= config.quarterly_hour_utc),
{
    DueJobs {
        monthly: monthly_due(now, config.monthly_day, config.monthly_hour_utc),
        daily: daily_due(now, config.daily_hour_utc),
        quarterly: quarterly_due(now, config.monthly_day, config.quarterly_hour_utc),
    }
}

/// The jobs that the scheduler runs.
#[derive(Debug, Clone, Copy, PartialEq, Eq, Structural)]
pub enum ScheduledJobName {
    LedgerHashChainFullVerify,
    LedgerSignatureFullVerify,
    MonthlyDigestGenerate,
    ArchiveExport,
    MonthlyTimestampingObtain,
    DailyEnvelopeLazyMigration,
    RestoreTest,
    SignatureKeyReviewReminder,
    AuditorPermissionReviewReminder,
}

/// Stable name of a scheduled job.
pub open spec fn job_name_text(job: ScheduledJobName) -> Seq<char> {
    match job {
        ScheduledJobName::LedgerHashChainFullVerify => "ledger_hash_chain_full_verify"@,
        ScheduledJobName::LedgerSignatureFullVerify => "ledger_signature_full_verify"@,
        ScheduledJobName::MonthlyDigestGenerate => "monthly_digest_generate"@,
        ScheduledJobName::ArchiveExport => "archive_export"@,
        ScheduledJobName::MonthlyTimestampingObtain => "monthly_timestamping_obtain"@,
        ScheduledJobName::DailyEnvelopeLazyMigration => "daily_envelope_lazy_migration"@,
        ScheduledJobName::RestoreTest => "restore_test"@,
        ScheduledJobName::SignatureKeyReviewReminder => "signature_key_review_reminder"@,
        ScheduledJobName::AuditorPermissionReviewReminder => "auditor_permission_review_reminder"@,
    }
}

impl ScheduledJobName {
    /// Stable name of the job, used in audit metadata and logs.
    pub fn as_str(self) -> (name: &'static str)
        ensures
            name@ == job_name_text(self),
    {
        match self {
            ScheduledJobName::LedgerHashChainFullVerify => "ledger_hash_chain_full_verify",
            ScheduledJobName::LedgerSignatureFullVerify => "ledger_signature_full_verify",
            ScheduledJobName::MonthlyDigestGenerate => "monthly_digest_generate",
            ScheduledJobName::ArchiveExport => "archive_export",
            ScheduledJobName::MonthlyTimestampingObtain => "monthly_timestamping_obtain",
            ScheduledJobName::DailyEnvelopeLazyMigration => "daily_envelope_lazy_migration",
            ScheduledJobName::RestoreTest => "restore_test",
            ScheduledJobName::SignatureKeyReviewReminder => "signature_key_review_reminder",
            ScheduledJobName::AuditorPermissionReviewReminder => "auditor_permission_review_reminder",
        }
    }
}

/// One run of a job in one period.
pub struct JobRunKey {
    pub job_name: ScheduledJobName,
    pub period_key: String,
}

/// Guard that keeps two runs of one job from overlapping.
#[derive(Debug)]
pub struct JobLock {
    running: bool,
}

impl JobLock {
    pub closed spec fn is_running(&self) -> bool {
        self.running
    }

    /// A lock that nobody holds.
    pub fn new() -> (lock: Self)
        ensures
            !lock.is_running(),
    {
        JobLock { running: false }
    }

    /// Takes the lock if nobody holds it; returns whether it was taken.
    pub fn try_enter(&mut self) -> (entered: bool)
        ensures
            entered == !old(self).is_running(),
            final(self).is_running(),
    {
        if self.running {
            false
        } else {
            self.running = true;
            true
        }
    }

    /// Releases the lock.
    pub fn release(&mut self)
        ensures
            !final(self).is_running(),
    {
        self.running = false;
    }
}

/// Position of a job's lock among the scheduler's locks.
pub open spec fn job_index(job: ScheduledJobName) -> int {
    match job {
        ScheduledJobName::LedgerHashChainFullVerify => 0,
        ScheduledJobName::LedgerSignatureFullVerify => 1,
        ScheduledJobName::MonthlyDigestGenerate => 2,
        ScheduledJobName::ArchiveExport => 3,
        ScheduledJobName::MonthlyTimestampingObtain => 4,
        ScheduledJobName::DailyEnvelopeLazyMigration => 5,
        ScheduledJobName::RestoreTest => 6,
        ScheduledJobName::SignatureKeyReviewReminder => 7,
        ScheduledJobName::AuditorPermissionReviewReminder => 8,
    }
}

fn job_slot(job: ScheduledJobName) -> (slot: usize)
    ensures
        slot as int == job_index(job),
        slot < 9,
{
    match job {
        ScheduledJobName::LedgerHashChainFullVerify => 0,
        ScheduledJobName::LedgerSignatureFullVerify => 1,
        ScheduledJobName::MonthlyDigestGenerate => 2,
        ScheduledJobName::ArchiveExport => 3,
        ScheduledJobName::MonthlyTimestampingObtain => 4,
        ScheduledJobName::DailyEnvelopeLazyMigration => 5,
        ScheduledJobName::RestoreTest => 6,
        ScheduledJobName::SignatureKeyReviewReminder => 7,
        ScheduledJobName::AuditorPermissionReviewReminder => 8,
    }
}

proof fn lemma_job_index_injective(a: ScheduledJobName, b: ScheduledJobName)
    ensures
        job_index(a) == job_index(b) <==> a == b,
{
}

/// What the scheduler remembers across polls: completed runs and one lock per job.
pub struct SchedulerRuntimeState {
    completed: Vec<JobRunKey>,
    locks: [JobLock; 9],
}

/// How an attempt to start a job run was answered.
#[derive(Debug, Clone, Copy, PartialEq, Eq, Structural)]
pub enum JobRunStart {
    /// The run already completed in this period; nothing is run.
    AlreadyCompleted,
    /// Another run of the same job is in progress; this one is skipped.
    AlreadyRunning,
    /// The run may proceed; the job's lock is held.
    Started,
}

impl SchedulerRuntimeState {
    /// The job runs that completed, as (job, period key) pairs.
    pub closed spec fn completed_runs(&self) -> Set<(ScheduledJobName, Seq<char>)> {
        Set::new(|k: (ScheduledJobName, Seq<char>)| exists|i: int| 0 <= i < self.completed@.len()
            && self.completed@[i].job_name == k.0 && #[trigger] self.completed@[i].period_key@ == k.1)
    }

    /// The lock that guards `job`.
    pub closed spec fn spec_lock_for(&self, job: ScheduledJobName) -> JobLock {
        self.locks@[job_index(job)]
    }

    /// Whether a run of `job` is in progress.
    pub open spec fn running(&self, job: ScheduledJobName) -> bool {
        self.spec_lock_for(job).is_running()
    }

    /// A state with no completed runs and no job running.
    pub fn new() -> (state: Self)
        ensures
            state.completed_runs() == Set::<(ScheduledJobName, Seq<char>)>::empty(),
            forall|job: ScheduledJobName| !state.running(job),
    {
        let locks = [
            JobLock::new(), JobLock::new(), JobLock::new(), JobLock::new(), JobLock::new(),
            JobLock::new(), JobLock::new(), JobLock::new(), JobLock::new(),
        ];
        let state = SchedulerRuntimeState { completed: Vec::new(), locks };
        assert(state.completed_runs() =~= Set::<(ScheduledJobName, Seq<char>)>::empty());
        assert forall|job: ScheduledJobName| !state.running(job) by {
            assert(0 <= job_index(job) < 9);
        }
        state
    }

    /// The lock that guards `job`.
    pub fn lock_for(&self, job_name: ScheduledJobName) -> (lock: &JobLock)
        ensures
            *lock == self.spec_lock_for(job_name),
    {
        &self.locks[job_slot(job_name)]
    }

    /// Whether the run `key` already completed.
    pub fn is_completed(&self, key: &JobRunKey) -> (done: bool)
        ensures
            done == self.completed_runs().contains((key.job_name, key.period_key@)),
    {
        let mut i: usize = 0;
        while i < self.completed.len()
            invariant
                i <= self.completed@.len(),
                forall|j: int| 0 <= j < i ==> !(self.completed@[j].job_name == key.job_name
                    && #[trigger] self.completed@[j].period_key@ == key.period_key@),
            decreases self.completed@.len() - i,
        {
            let entry = &self.completed[i];
            if entry.job_name == key.job_name && str_eq(entry.period_key.as_str(), key.period_key.as_str()) {
                assert(self.completed_runs().contains((key.job_name, key.period_key@)));
                return true;
            }
            i = i + 1;
        }
        assert(!self.completed_runs().contains((key.job_name, key.period_key@)));
        false
    }

    fn set_running(&mut self, job_name: ScheduledJobName, running: bool)
        ensures
            final(self).completed_runs() == old(self).completed_runs(),
            final(self).running(job_name) == running,
            forall|other: ScheduledJobName| other != job_name ==> final(self).running(other) == old(self).running(other),
    {
        let slot = job_slot(job_name);
        let ghost completed_before = self.completed@;
        let ghost locks_before = self.locks@;
        self.locks[slot] = JobLock { running };
        assert(self.completed@ == completed_before);
        assert(self.completed_runs() =~= old(self).completed_runs());
        assert forall|other: ScheduledJobName| other != job_name implies self.running(other) == old(self).running(other) by {
            lemma_job_index_injective(other, job_name);
            assert(self.locks@[job_index(other)] == locks_before[job_index(other)]);
        }
    }

    /// Decides whether the run `key` may start, taking the job's lock when it may.
    ///
    /// A run that already completed in its period is not run again; a run of a
    /// job whose lock is held is skipped.
    pub fn begin_job_run(&mut self, key: &JobRunKey) -> (start: JobRunStart)
        ensures
            start == begin_outcome(*old(self), key.job_name, key.period_key@),
            old(self).completed_runs().contains((key.job_name, key.period_key@)) ==> {
                &&& start == JobRunStart::AlreadyCompleted
                &&& final(self).completed_runs() == old(self).completed_runs()
                &&& forall|job: ScheduledJobName| final(self).running(job) == old(self).running(job)
            },
            !old(self).completed_runs().contains((key.job_name, key.period_key@)) && old(self).running(key.job_name) ==> {
                &&& start == JobRunStart::AlreadyRunning
                &&& final(self).completed_runs() == old(self).completed_runs()
                &&& forall|job: ScheduledJobName| final(self).running(job) == old(self).running(job)
            },
            !old(self).completed_runs().contains((key.job_name, key.period_key@)) && !old(self).running(key.job_name) ==> {
                &&& start == JobRunStart::Started
                &&& final(self).completed_runs() == old(self).completed_runs()
                &&& final(self).running(key.job_name)
                &&& forall|job: ScheduledJobName| job != key.job_name ==> final(self).running(job) == old(self).running(job)
            },
    {
        if self.is_completed(key) {
            return JobRunStart::AlreadyCompleted;
        }
        let slot = job_slot(key.job_name);
        if self.locks[slot].running {
            return JobRunStart::AlreadyRunning;
        }
        self.set_running(key.job_name, true);
        JobRunStart::Started
    }

    /// Records the end of a started run: releases the job's lock, and remembers
    /// the run as completed when it succeeded.
    pub fn finish_job_run(&mut self, key: JobRunKey, succeeded: bool)
        ensures
            !final(self).running(key.job_name),
            forall|job: ScheduledJobName| job != key.job_name ==> final(self).running(job) == old(self).running(job),
            succeeded ==> final(self).completed_runs() == old(self).completed_runs().insert((key.job_name, key.period_key@)),
            !succeeded ==> final(self).completed_runs() == old(self).completed_runs(),
    {
        let ghost before = self.completed_runs();
        self.set_running(key.job_name, false);
        if succeeded {
            let ghost key_view = (key.job_name, key.period_key@);
            let ghost old_completed = self.completed@;
            let ghost locks_before = self.locks@;
            self.completed.push(key);
            assert(self.locks@ == locks_before);
            assert(self.completed_runs() =~= before.insert(key_view)) by {
                assert forall|k: (ScheduledJobName, Seq<char>)| self.completed_runs().contains(k) <==> before.insert(key_view).contains(k) by {
                    if before.contains(k) {
                        let i = choose|i: int| 0 <= i < old_completed.len()
                            && old_completed[i].job_name == k.0 && #[trigger] old_completed[i].period_key@ == k.1;
                        assert(self.completed@[i] == old_completed[i]);
                    }
                    if k == key_view {
                        assert(self.completed@[old_completed.len() as int].period_key@ == k.1);
                    }
                    if self.completed_runs().contains(k) {
                        let i = choose|i: int| 0 <= i < self.completed@.len()
                            && self.completed@[i].job_name == k.0 && #[trigger] self.completed@[i].period_key@ == k.1;
                        if i < old_completed.len() {
                            assert(old_completed[i] == self.completed@[i]);
                        }
                    }
                }
            }
        }
    }
}

/// How an attempt to start the run of `job` in `period` is answered in `state`.
pub open spec fn begin_outcome(state: SchedulerRuntimeState, job: ScheduledJobName, period: Seq<char>) -> JobRunStart {
    if state.completed_runs().contains((job, period)) {
        JobRunStart::AlreadyCompleted
    } else if state.running(job) {
        JobRunStart::AlreadyRunning
    } else {
        JobRunStart::Started
    }
}

/// Law: a job run that succeeded is never started again in the same period,
/// and every run completed before stays completed.
pub proof fn lemma_completed_run_not_restarted(
    before: SchedulerRuntimeState,
    after: SchedulerRuntimeState,
    job: ScheduledJobName,
    period: Seq<char>,
)
    requires
        after.completed_runs() == before.completed_runs().insert((job, period)),
    ensures
        begin_outcome(after, job, period) == JobRunStart::AlreadyCompleted,
        forall|run: (ScheduledJobName, Seq<char>)| before.completed_runs().contains(run)
            ==> begin_outcome(after, run.0, run.1) == JobRunStart::AlreadyCompleted,
{
}

/// Law: while a run of a job holds its lock, no other run of that job starts:
/// an attempt for any period not yet completed is answered `AlreadyRunning`.
pub proof fn lemma_running_job_not_started_twice(
    before: SchedulerRuntimeState,
    after: SchedulerRuntimeState,
    job: ScheduledJobName,
    period: Seq<char>,
    other_period: Seq<char>,
)
    requires
        begin_outcome(before, job, period) == JobRunStart::Started,
        after.completed_runs() == before.completed_runs(),
        after.running(job),
        !after.completed_runs().contains((job, other_period)),
    ensures
        begin_outcome(after, job, other_period) == JobRunStart::AlreadyRunning,
{
}

/// Outcome of an audit-recorded scheduler job.
#[derive(Debug, Clone, Copy, PartialEq, Eq, Structural)]
pub enum JobResult {
    Success,
    Failure,
}

/// Result and error code that a ledger verification outcome is recorded with.
///
/// A valid summary is a success; an invalid one a failure with its own code, or
/// `default_code` when it has none; an error a failure with the error's code.
pub fn classify_ledger_verification(
    outcome: &Result<LedgerVerificationSummary, &'static str>,
    default_code: &'static str,
) -> (classified: (JobResult, Option<&'static str>))
    ensures
        match outcome {
            Ok(summary) => if summary.valid {
                classified == (JobResult::Success, None::<&'static str>)
            } else {
                classified.0 == JobResult::Failure && classified.1 == match summary.error_code {
                    Some(code) => Some(code),
                    None => Some(default_code),
                }
            },
            Err(code) => classified == (JobResult::Failure, Some(*code)),
        },
{
    match outcome {
        Ok(summary) => {
            if summary.valid {
                (JobResult::Success, None)
            } else {
                match summary.error_code {
                    Some(code) => (JobResult::Failure, Some(code)),
                    None => (JobResult::Failure, Some(default_code)),
                }
            }
        },
        Err(code) => (JobResult::Failure, Some(*code)),
    }
}

/// The value a job returns after its result has been recorded: success, or the
/// failure's code (`default_code` when it has none).
pub fn job_completion(
    result: JobResult,
    error_code: Option<&'static str>,
    default_code: &'static str,
) -> (done: Result<(), &'static str>)
    ensures
        result == JobResult::Success ==> done is Ok,
        result == JobResult::Failure ==> done == Err::<(), &'static str>(match error_code {
            Some(code) => code,
            None => default_code,
        }),
{
    match result {
        JobResult::Success => Ok(()),
        JobResult::Failure => match error_code {
            Some(code) => Err(code),
            None => Err(default_code),
        },
    }
}

/// Why a scheduled envelope migration failed as a whole.
#[derive(Debug, Clone, Copy, PartialEq, Eq, Structural)]
pub enum EnvelopeMigrationErrorKind {
    Config,
    Supabase,
    Audit,
    Crypto,
    Usage,
}

/// Stable error code of an envelope migration failure.
pub fn map_envelope_migration_error(error: EnvelopeMigrationErrorKind) -> (code: &'static str)
    ensures
        code@ == match error {
            EnvelopeMigrationErrorKind::Config => "envelope_migration_config_invalid"@,
            EnvelopeMigrationErrorKind::Supabase => "envelope_migration_supabase_failed"@,
            EnvelopeMigrationErrorKind::Audit => "envelope_migration_audit_failed"@,
            EnvelopeMigrationErrorKind::Crypto => "envelope_migration_crypto_failed"@,
            EnvelopeMigrationErrorKind::Usage => "envelope_migration_failed"@,
        },
{
    match error {
        EnvelopeMigrationErrorKind::Config => "envelope_migration_config_invalid",
        EnvelopeMigrationErrorKind::Supabase => "envelope_migration_supabase_failed",
        EnvelopeMigrationErrorKind::Audit => "envelope_migration_audit_failed",
        EnvelopeMigrationErrorKind::Crypto => "envelope_migration_crypto_failed",
        EnvelopeMigrationErrorKind::Usage => "envelope_migration_failed",
    }
}

/// Result and error code of a daily envelope migration run, from its failure
/// count or its error.
pub fn classify_envelope_migration(
    outcome: Result<u64, EnvelopeMigrationErrorKind>,
) -> (classified: (JobResult, Option<&'static str>))
    ensures
        match outcome {
            Ok(failure_count) => if failure_count == 0 {
                classified == (JobResult::Success, None::<&'static str>)
            } else {
                classified.0 == JobResult::Failure && (classified.1 matches Some(code)
                    && code@ == "envelope_migration_partial_failure"@)
            },
            Err(kind) => classified.0 == JobResult::Failure && (classified.1 matches Some(code)
                && code@ == map_envelope_migration_error_text(kind)),
        },
{
    proof { reveal_strlit("envelope_migration_partial_failure"); }
    match outcome {
        Ok(failure_count) => {
            if failure_count == 0 {
                (JobResult::Success, None)
            } else {
                (JobResult::Failure, Some("envelope_migration_partial_failure"))
            }
        },
        Err(kind) => (JobResult::Failure, Some(map_envelope_migration_error(kind))),
    }
}

/// Stable error code of an envelope migration failure, as text.
pub open spec fn map_envelope_migration_error_text(error: EnvelopeMigrationErrorKind) -> Seq<char> {
    match error {
        EnvelopeMigrationErrorKind::Config => "envelope_migration_config_invalid"@,
        EnvelopeMigrationErrorKind::Supabase => "envelope_migration_supabase_failed"@,
        EnvelopeMigrationErrorKind::Audit => "envelope_migration_audit_failed"@,
        EnvelopeMigrationErrorKind::Crypto => "envelope_migration_crypto_failed"@,
        EnvelopeMigrationErrorKind::Usage => "envelope_migration_failed"@,
    }
}

} // verus!
