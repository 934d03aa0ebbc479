use vstd::prelude::*;
use vstd::string::*;

use super::event::{SiemEvent, SiemEventView};
use crate::text::{
    all_digits, decimal_value, ends_with, has_prefix, has_suffix, push_zero_padded, zero_padded,
    starts_with, str_eq,
};

verus! {

/// Default size at which the current buffer file is rotated.
pub const DEFAULT_SIEM_BUFFER_MAX_BYTES: u64 = 104857600;

/// Default limit on the size of all buffer files together.
pub const DEFAULT_SIEM_BUFFER_TOTAL_MAX_BYTES: u64 = 104857600;

/// Delivery state of a buffered event.
#[derive(Debug, Clone, Copy, PartialEq, Eq, Structural)]
pub enum DeliveryStatus {
    Pending,
    Sent,
}

/// One line of the buffer: the latest known delivery state of an event.
pub struct LocalSiemFallbackRecord {
    pub event_id: String,
    pub status: DeliveryStatus,
    pub event: SiemEvent,
}

/// Mathematical view of a buffer record.
pub struct RecordView {
    pub event_id: Seq<char>,
    pub status: DeliveryStatus,
    pub event: SiemEventView,
}

impl View for LocalSiemFallbackRecord {
    type V = RecordView;

    open spec fn view(&self) -> RecordView {
        RecordView { event_id: self.event_id@, status: self.status, event: self.event@ }
    }
}

/// The latest state of one event id after replaying the buffer.
pub struct LatestState {
    pub event_id: String,
    pub status: DeliveryStatus,
    pub event: SiemEvent,
}

impl View for LatestState {
    type V = RecordView;

    open spec fn view(&self) -> RecordView {
        RecordView { event_id: self.event_id@, status: self.status, event: self.event@ }
    }
}

/// Views of replayed states.
pub open spec fn state_views(states: Seq<LatestState>) -> Seq<RecordView> {
    states.map_values(|s: LatestState| s@)
}

/// Views of buffer records.
pub open spec fn record_views(records: Seq<LocalSiemFallbackRecord>) -> Seq<RecordView> {
    records.map_values(|r: LocalSiemFallbackRecord| r@)
}

/// Views of events.
pub open spec fn event_views(events: Seq<SiemEvent>) -> Seq<SiemEventView> {
    events.map_values(|e: SiemEvent| e@)
}

/// Position of the state of `id` among `states`, if any.
pub open spec fn state_position(states: Seq<RecordView>, id: Seq<char>) -> Option<int>
    decreases states.len(),
{
    if states.len() == 0 {
        None
    } else {
        match state_position(states.drop_last(), id) {
            Some(k) => Some(k),
            None => if states.last().event_id == id { Some(states.len() - 1) } else { None },
        }
    }
}

/// Applies one record to the replayed states: it replaces the state of its
/// event id in place, or is appended when the id is new.
pub open spec fn apply_record(states: Seq<RecordView>, record: RecordView) -> Seq<RecordView> {
    match state_position(states, record.event_id) {
        Some(k) => states.update(k, record),
        None => states.push(record),
    }
}

/// Replays the records in file order: one state per event id, in order of the
/// id's first appearance, holding the id's last record.
pub open spec fn replay(records: Seq<RecordView>) -> Seq<RecordView>
    decreases records.len(),
{
    if records.len() == 0 {
        Seq::empty()
    } else {
        apply_record(replay(records.drop_last()), records.last())
    }
}

/// Events of the pending states, in state order.
pub open spec fn pending_of(states: Seq<RecordView>) -> Seq<SiemEventView>
    decreases states.len(),
{
    if states.len() == 0 {
        Seq::empty()
    } else if states.last().status == DeliveryStatus::Pending {
        pending_of(states.drop_last()).push(states.last().event)
    } else {
        pending_of(states.drop_last())
    }
}

/// The events still pending after replaying `records`.
pub open spec fn pending_events_of(records: Seq<RecordView>) -> Seq<SiemEventView> {
    pending_of(replay(records))
}

/// No two states share an event id.
pub open spec fn ids_distinct(states: Seq<RecordView>) -> bool {
    forall|i: int, j: int| 0 <= i < j < states.len() ==> states[i].event_id != states[j].event_id
}

proof fn lemma_state_position(states: Seq<RecordView>, id: Seq<char>)
    ensures
        match state_position(states, id) {
            Some(k) => 0 <= k < states.len() && states[k].event_id == id
                && forall|j: int| 0 <= j < k ==> states[j].event_id != id,
            None => forall|j: int| 0 <= j < states.len() ==> states[j].event_id != id,
        },
    decreases states.len(),
{
    if states.len() > 0 {
        lemma_state_position(states.drop_last(), id);
        match state_position(states.drop_last(), id) {
            Some(k) => {
                assert(states[k] == states.drop_last()[k]);
                assert forall|j: int| 0 <= j < k implies states[j].event_id != id by {
                    assert(states[j] == states.drop_last()[j]);
                }
            },
            None => {
                assert forall|j: int| 0 <= j < states.len() - 1 implies states[j].event_id != id by {
                    assert(states[j] == states.drop_last()[j]);
                }
            },
        }
    }
}

proof fn lemma_replay_distinct(records: Seq<RecordView>)
    ensures
        ids_distinct(replay(records)),
    decreases records.len(),
{
    if records.len() > 0 {
        lemma_replay_distinct(records.drop_last());
        let prev = replay(records.drop_last());
        let r = records.last();
        lemma_state_position(prev, r.event_id);
        let next = replay(records);
        assert(next == apply_record(prev, r));
        match state_position(prev, r.event_id) {
            Some(k) => {
                assert forall|i: int, j: int| 0 <= i < j < next.len() implies next[i].event_id != next[j].event_id by {
                    if i == k {
                        assert(next[i].event_id == prev[k].event_id);
                    }
                    if j == k {
                        assert(next[j].event_id == prev[k].event_id);
                    }
                }
            },
            None => {},
        }
    }
}

/// Where a record ends up among the states after it is applied.
proof fn lemma_apply_record_effect(states: Seq<RecordView>, record: RecordView)
    requires
        ids_distinct(states),
    ensures
        ids_distinct(apply_record(states, record)),
        state_position(apply_record(states, record), record.event_id) is Some,
        ({
            let next = apply_record(states, record);
            let k = state_position(next, record.event_id).unwrap();
            &&& next[k] == record
            &&& forall|j: int| 0 <= j < next.len() && j != k ==> next[j].event_id != record.event_id
        }),
{
    lemma_state_position(states, record.event_id);
    let next = apply_record(states, record);
    lemma_state_position(next, record.event_id);
    match state_position(states, record.event_id) {
        Some(k) => {
            assert(next[k] == record);
            assert forall|i: int, j: int| 0 <= i < j < next.len() implies next[i].event_id != next[j].event_id by {
                if i == k {
                    assert(next[i].event_id == states[k].event_id);
                }
                if j == k {
                    assert(next[j].event_id == states[k].event_id);
                }
            }
        },
        None => {
            assert(next[states.len() as int] == record);
        },
    }
    let k = state_position(next, record.event_id).unwrap();
    assert forall|j: int| 0 <= j < next.len() && j != k implies next[j].event_id != record.event_id by {
        if next[j].event_id == record.event_id {
            assert(next[k].event_id == record.event_id);
        }
    }
}

/// Law: after a record is appended for an event id, the replayed state of that
/// id is exactly that record, and the id occurs once.
pub proof fn lemma_latest_record_wins(records: Seq<RecordView>, record: RecordView)
    ensures
        ({
            let states = replay(records.push(record));
            &&& ids_distinct(states)
            &&& exists|k: int| 0 <= k < states.len() && states[k] == record
                && forall|j: int| 0 <= j < states.len() && j != k ==> #[trigger] states[j].event_id != record.event_id
        }),
{
    lemma_replay_distinct(records);
    assert(records.push(record).drop_last() =~= records);
    lemma_apply_record_effect(replay(records), record);
    let states = replay(records.push(record));
    assert(states == apply_record(replay(records), record));
    lemma_state_position(states, record.event_id);
    let k = state_position(states, record.event_id).unwrap();
    assert(0 <= k < states.len() && states[k] == record);
}

/// A sent record for an event id leaves no pending event with that id.
pub proof fn lemma_sent_event_not_pending(records: Seq<RecordView>, record: RecordView)
    requires
        record.status == DeliveryStatus::Sent,
    ensures
        forall|i: int| 0 <= i < replay(records.push(record)).len()
            && #[trigger] replay(records.push(record))[i].event_id == record.event_id
            ==> replay(records.push(record))[i].status == DeliveryStatus::Sent,
{
    lemma_latest_record_wins(records, record);
}

/// Events pending after replay, paired with their event ids.
pub open spec fn pending_states(states: Seq<RecordView>) -> Seq<RecordView>
    decreases states.len(),
{
    if states.len() == 0 {
        Seq::empty()
    } else if states.last().status == DeliveryStatus::Pending {
        pending_states(states.drop_last()).push(states.last())
    } else {
        pending_states(states.drop_last())
    }
}

proof fn lemma_pending_states_distinct(states: Seq<RecordView>)
    requires
        ids_distinct(states),
    ensures
        ids_distinct(pending_states(states)),
        forall|i: int| 0 <= i < pending_states(states).len() ==>
            (#[trigger] pending_states(states)[i]).status == DeliveryStatus::Pending
            && exists|j: int| 0 <= j < states.len() && states[j] == pending_states(states)[i],
    decreases states.len(),
{
    if states.len() > 0 {
        let prev = states.drop_last();
        assert(ids_distinct(prev)) by {
            assert forall|i: int, j: int| 0 <= i < j < prev.len() implies prev[i].event_id != prev[j].event_id by {
                assert(prev[i] == states[i] && prev[j] == states[j]);
            }
        }
        lemma_pending_states_distinct(prev);
        let ps = pending_states(states);
        let pp = pending_states(prev);
        assert forall|i: int| 0 <= i < pp.len() implies
            exists|j: int| 0 <= j < states.len() && states[j] == (#[trigger] pp[i]) by {
            let j = choose|j: int| 0 <= j < prev.len() && prev[j] == pp[i];
            assert(states[j] == prev[j]);
        }
        if states.last().status == DeliveryStatus::Pending {
            assert forall|i: int| 0 <= i < ps.len() implies
                (#[trigger] ps[i]).status == DeliveryStatus::Pending
                && exists|j: int| 0 <= j < states.len() && states[j] == ps[i] by {
                if i < pp.len() {
                    assert(ps[i] == pp[i]);
                } else {
                    assert(states[states.len() - 1] == ps[i]);
                }
            }
            assert forall|i: int, j: int| 0 <= i < j < ps.len() implies ps[i].event_id != ps[j].event_id by {
                if j == pp.len() {
                    assert(ps[i] == pp[i]);
                    let k = choose|k: int| 0 <= k < prev.len() && prev[k] == pp[i];
                    assert(states[k] == prev[k]);
                    assert(states[states.len() - 1] == ps[j]);
                } else {
                    assert(ps[i] == pp[i] && ps[j] == pp[j]);
                }
            }
        }
    }
}

/// Records that carry the given states, one record per state.
pub open spec fn records_of_states(states: Seq<RecordView>) -> Seq<RecordView> {
    states
}

proof fn lemma_replay_distinct_records(records: Seq<RecordView>)
    requires
        ids_distinct(records),
    ensures
        replay(records) == records,
    decreases records.len(),
{
    if records.len() > 0 {
        let prev = records.drop_last();
        assert(ids_distinct(prev)) by {
            assert forall|i: int, j: int| 0 <= i < j < prev.len() implies prev[i].event_id != prev[j].event_id by {
                assert(prev[i] == records[i] && prev[j] == records[j]);
            }
        }
        lemma_replay_distinct_records(prev);
        lemma_state_position(prev, records.last().event_id);
        assert forall|j: int| 0 <= j < prev.len() implies prev[j].event_id != records.last().event_id by {
            assert(prev[j] == records[j]);
        }
        assert(state_position(prev, records.last().event_id) is None);
        assert(prev.push(records.last()) =~= records);
    }
}

proof fn lemma_pending_of_states(states: Seq<RecordView>)
    ensures
        pending_of(states) == pending_states(states).map_values(|r: RecordView| r.event),
    decreases states.len(),
{
    if states.len() > 0 {
        lemma_pending_of_states(states.drop_last());
        let prev_map = pending_states(states.drop_last()).map_values(|r: RecordView| r.event);
        if states.last().status == DeliveryStatus::Pending {
            assert(pending_states(states).map_values(|r: RecordView| r.event)
                =~= prev_map.push(states.last().event));
        }
    }
}

proof fn lemma_pending_states_all_pending(states: Seq<RecordView>)
    requires
        forall|i: int| 0 <= i < states.len() ==> (#[trigger] states[i]).status == DeliveryStatus::Pending,
    ensures
        pending_states(states) == states,
    decreases states.len(),
{
    if states.len() > 0 {
        let prev = states.drop_last();
        assert forall|i: int| 0 <= i < prev.len() implies (#[trigger] prev[i]).status == DeliveryStatus::Pending by {
            assert(prev[i] == states[i]);
        }
        lemma_pending_states_all_pending(prev);
        assert(prev.push(states.last()) =~= states);
    }
}

/// Law: compaction keeps exactly the pending events, in the same order.
///
/// Replaying the compacted records (one pending record per pending event id)
/// yields the same pending events as replaying the original records.
pub proof fn lemma_compaction_preserves_pending(records: Seq<RecordView>)
    ensures
        pending_events_of(pending_states(replay(records))) == pending_events_of(records),
{
    lemma_replay_distinct(records);
    let states = replay(records);
    lemma_pending_states_distinct(states);
    let compacted = pending_states(states);
    lemma_replay_distinct_records(compacted);
    lemma_pending_states_all_pending(compacted);
    lemma_pending_of_states(compacted);
    lemma_pending_of_states(states);
}

fn copy_state(state: &LatestState) -> (copy: LatestState)
    ensures
        copy@ == state@,
{
    LatestState { event_id: state.event_id.clone(), status: state.status, event: state.event.copy() }
}

fn state_from_record(record: &LocalSiemFallbackRecord) -> (state: LatestState)
    ensures
        state@ == record@,
{
    LatestState { event_id: record.event_id.clone(), status: record.status, event: record.event.copy() }
}

/// Position of the state of `id`, if any.
fn find_state(states: &Vec<LatestState>, id: &str) -> (pos: Option<usize>)
    ensures
        match state_position(state_views(states@), id@) {
            Some(k) => pos == Some(k as usize),
            None => pos is None,
        },
{
    let ghost views = state_views(states@);
    proof { lemma_state_position(views, id@); }
    let mut i: usize = 0;
    while i < states.len()
        invariant
            views == state_views(states@),
            views.len() == states@.len(),
            i <= states@.len(),
            forall|j: int| 0 <= j < i ==> views[j].event_id != id@,
            match state_position(views, id@) {
                Some(k) => 0 <= k < views.len() && views[k].event_id == id@
                    && forall|j: int| 0 <= j < k ==> views[j].event_id != id@,
                None => forall|j: int| 0 <= j < views.len() ==> views[j].event_id != id@,
            },
        decreases states@.len() - i,
    {
        if str_eq(states[i].event_id.as_str(), id) {
            assert(views[i as int].event_id == id@);
            proof {
                match state_position(views, id@) {
                    Some(k) => {
                        if k < i {
                            assert(views[k].event_id != id@);
                        }
                        if k > i {
                            assert(views[i as int].event_id != id@);
                        }
                    },
                    None => {
                        assert(views[i as int].event_id != id@);
                    },
                }
            }
            return Some(i);
        }
        i = i + 1;
    }
    None
}

/// Replays buffer records into the latest state of each event id, in order of
/// each id's first appearance.
pub fn latest_states(records: &[LocalSiemFallbackRecord]) -> (states: Vec<LatestState>)
    ensures
        state_views(states@) == replay(record_views(records@)),
{
    let ghost all = record_views(records@);
    let mut states: Vec<LatestState> = Vec::new();
    let mut i: usize = 0;
    while i < records.len()
        invariant
            all == record_views(records@),
            i <= records@.len(),
            state_views(states@) == replay(all.subrange(0, i as int)),
        decreases records@.len() - i,
    {
        let record = &records[i];
        let ghost before = state_views(states@);
        assert(all.subrange(0, i + 1).drop_last() =~= all.subrange(0, i as int));
        assert(all.subrange(0, i + 1).last() == record@);
        assert(replay(all.subrange(0, i + 1)) == apply_record(replay(all.subrange(0, i as int)), record@));
        let state = state_from_record(record);
        proof { lemma_state_position(before, record@.event_id); }
        let _count = states.len();
        assert(before.len() == states@.len());
        match find_state(&states, record.event_id.as_str()) {
            Some(k) => {
                assert(state_position(before, record@.event_id) == Some(k as int));
                states.set(k, state);
                assert(state_views(states@) =~= before.update(k as int, record@));
                assert(apply_record(before, record@) == before.update(k as int, record@));
            },
            None => {
                assert(state_position(before, record@.event_id) is None);
                states.push(state);
                assert(state_views(states@) =~= before.push(record@));
                assert(apply_record(before, record@) == before.push(record@));
            },
        }
        i = i + 1;
    }
    assert(all.subrange(0, records@.len() as int) =~= all);
    states
}

/// Pending events after replay, at most `limit` of them, in state order.
pub open spec fn pending_prefix(records: Seq<RecordView>, limit: int) -> Seq<SiemEventView> {
    let pending = pending_events_of(records);
    if limit < pending.len() { pending.subrange(0, limit) } else { pending }
}

proof fn lemma_pending_of_push(states: Seq<RecordView>, n: int)
    requires
        0 <= n < states.len(),
    ensures
        pending_of(states.subrange(0, n + 1)) == if states[n].status == DeliveryStatus::Pending {
            pending_of(states.subrange(0, n)).push(states[n].event)
        } else {
            pending_of(states.subrange(0, n))
        },
{
    assert(states.subrange(0, n + 1).drop_last() =~= states.subrange(0, n));
}

/// The events still pending in the buffer, at most `limit` of them, in order of
/// each event id's first appearance.
pub fn pending_batch(records: &[LocalSiemFallbackRecord], limit: usize) -> (batch: Vec<SiemEvent>)
    ensures
        event_views(batch@) == pending_prefix(record_views(records@), limit as int),
{
    let ghost all = record_views(records@);
    if limit == 0 {
        let empty: Vec<SiemEvent> = Vec::new();
        assert(event_views(empty@) =~= pending_prefix(all, 0));
        return empty;
    }
    let states = latest_states(records);
    let ghost views = state_views(states@);
    let mut pending: Vec<SiemEvent> = Vec::new();
    let mut i: usize = 0;
    while i < states.len()
        invariant
            views == state_views(states@),
            views == replay(all),
            all == record_views(records@),
            limit > 0,
            i <= states@.len(),
            pending@.len() < limit,
            event_views(pending@) == pending_of(views.subrange(0, i as int)),
        decreases states@.len() - i,
    {
        proof { lemma_pending_of_push(views, i as int); }
        let ghost before = event_views(pending@);
        if states[i].status == DeliveryStatus::Pending {
            pending.push(states[i].event.copy());
            assert(event_views(pending@) =~= before.push(views[i as int].event));
            if pending.len() >= limit {
                proof {
                    lemma_pending_of_prefix_monotone(views, i + 1);
                }
                assert(pending_prefix(all, limit as int) =~= event_views(pending@));
                return pending;
            }
        }
        i = i + 1;
    }
    assert(views.subrange(0, states@.len() as int) =~= views);
    pending
}

proof fn lemma_pending_of_prefix_monotone(states: Seq<RecordView>, n: int)
    requires
        0 <= n <= states.len(),
    ensures
        pending_of(states.subrange(0, n)).len() <= pending_of(states).len(),
        pending_of(states).subrange(0, pending_of(states.subrange(0, n)).len() as int) == pending_of(states.subrange(0, n)),
    decreases states.len() - n,
{
    if n < states.len() {
        lemma_pending_of_prefix_monotone(states, n + 1);
        lemma_pending_of_push(states, n);
        let a = pending_of(states.subrange(0, n));
        let b = pending_of(states.subrange(0, n + 1));
        let all = pending_of(states);
        assert(all.subrange(0, b.len() as int).subrange(0, a.len() as int) =~= all.subrange(0, a.len() as int));
        if states[n].status == DeliveryStatus::Pending {
            assert(b.subrange(0, a.len() as int) =~= a);
        }
    } else {
        assert(states.subrange(0, n) =~= states);
    }
}

/// Records that hold only the pending states, one each, in state order.
pub fn compact_records(records: &[LocalSiemFallbackRecord]) -> (compacted: Vec<LocalSiemFallbackRecord>)
    ensures
        record_views(compacted@) == pending_states(replay(record_views(records@))),
{
    let states = latest_states(records);
    let ghost views = state_views(states@);
    let mut out: Vec<LocalSiemFallbackRecord> = Vec::new();
    let mut i: usize = 0;
    while i < states.len()
        invariant
            views == state_views(states@),
            views == replay(record_views(records@)),
            i <= states@.len(),
            record_views(out@) == pending_states(views.subrange(0, i as int)),
        decreases states@.len() - i,
    {
        assert(views.subrange(0, i + 1).drop_last() =~= views.subrange(0, i as int));
        let ghost before = record_views(out@);
        if states[i].status == DeliveryStatus::Pending {
            let state = copy_state(&states[i]);
            out.push(LocalSiemFallbackRecord { event_id: state.event_id, status: DeliveryStatus::Pending, event: state.event });
            assert(record_views(out@) =~= before.push(views[i as int]));
        }
        i = i + 1;
    }
    assert(views.subrange(0, states@.len() as int) =~= views);
    out
}

/// A record that marks `event` pending.
pub fn pending_record(event: &SiemEvent) -> (record: LocalSiemFallbackRecord)
    ensures
        record@ == (RecordView { event_id: event@.event_id, status: DeliveryStatus::Pending, event: event@ }),
{
    LocalSiemFallbackRecord {
        event_id: event.event_id().to_owned(),
        status: DeliveryStatus::Pending,
        event: event.copy(),
    }
}

/// A record that marks `event` sent.
pub fn sent_record(event: &SiemEvent) -> (record: LocalSiemFallbackRecord)
    ensures
        record@ == (RecordView { event_id: event@.event_id, status: DeliveryStatus::Sent, event: event@ }),
{
    LocalSiemFallbackRecord {
        event_id: event.event_id().to_owned(),
        status: DeliveryStatus::Sent,
        event: event.copy(),
    }
}

/// Errors of the local SIEM buffer.
pub enum LocalSiemBufferError {
    /// A file operation failed; the message describes it.
    Io(String),
    /// A record could not be encoded or decoded; the message describes it.
    Serialization(String),
    /// Appending would exceed the buffer's total size limit even after compaction.
    CapacityExceeded { total_size_bytes: u64, total_max_bytes: u64 },
    /// The buffer's lock was poisoned.
    LockPoisoned,
}

/// Local append-only buffer of SIEM events whose delivery failed: where it
/// lives and how large it may grow.
pub struct LocalSiemFallbackBuffer {
    path: String,
    max_bytes: u64,
    total_max_bytes: u64,
}

impl LocalSiemFallbackBuffer {
    pub closed spec fn spec_path(&self) -> Seq<char> {
        self.path@
    }

    pub closed spec fn spec_max_bytes(&self) -> u64 {
        self.max_bytes
    }

    pub closed spec fn spec_total_max_bytes(&self) -> u64 {
        self.total_max_bytes
    }

    /// A buffer at `path` with the default limits.
    pub fn new(path: String) -> (buffer: Self)
        ensures
            buffer.spec_path() == path@,
            buffer.spec_max_bytes() == DEFAULT_SIEM_BUFFER_MAX_BYTES,
            buffer.spec_total_max_bytes() == DEFAULT_SIEM_BUFFER_TOTAL_MAX_BYTES,
    {
        Self::with_limits(path, DEFAULT_SIEM_BUFFER_MAX_BYTES, DEFAULT_SIEM_BUFFER_TOTAL_MAX_BYTES)
    }

    /// A buffer at `path` whose rotation size and total limit are both `max_bytes`.
    pub fn with_config(path: String, max_bytes: u64) -> (buffer: Self)
        ensures
            buffer.spec_path() == path@,
            buffer.spec_max_bytes() == max_bytes,
            buffer.spec_total_max_bytes() == max_bytes,
    {
        Self::with_limits(path, max_bytes, max_bytes)
    }

    /// A buffer at `path` with the given rotation size and total limit.
    pub fn with_limits(path: String, max_bytes: u64, total_max_bytes: u64) -> (buffer: Self)
        ensures
            buffer.spec_path() == path@,
            buffer.spec_max_bytes() == max_bytes,
            buffer.spec_total_max_bytes() == total_max_bytes,
    {
        LocalSiemFallbackBuffer { path, max_bytes, total_max_bytes }
    }

    pub fn path(&self) -> (path: &str)
        ensures
            path@ == self.spec_path(),
    {
        self.path.as_str()
    }

    pub fn max_bytes(&self) -> (n: u64)
        ensures
            n == self.spec_max_bytes(),
    {
        self.max_bytes
    }

    pub fn total_max_bytes(&self) -> (n: u64)
        ensures
            n == self.spec_total_max_bytes(),
    {
        self.total_max_bytes
    }

    /// Room left under the total limit when the buffer files hold `total_size` bytes.
    pub fn remaining_bytes(&self, total_size: u64) -> (remaining: u64)
        ensures
            remaining == if total_size >= self.spec_total_max_bytes() { 0 } else { (self.spec_total_max_bytes() - total_size) as u64 },
    {
        self.total_max_bytes.saturating_sub(total_size)
    }

    /// Whether `additional_bytes` more fit under the total limit when the buffer
    /// files hold `total_size` bytes (the sum saturating at `u64::MAX`).
    pub fn has_capacity_unlocked(&self, total_size: u64, additional_bytes: u64) -> (fits: bool)
        ensures
            fits == (saturating_sum(total_size, additional_bytes) <= self.spec_total_max_bytes()),
    {
        total_size.saturating_add(additional_bytes) <= self.total_max_bytes
    }

    /// Decides what an append of `additional_bytes` needs, given the current
    /// total size and whether the buffer was just compacted.
    ///
    /// An append that fits proceeds. One that does not fit first compacts the
    /// buffer and checks again; if it still does not fit it is refused. So an
    /// append that proceeds never takes the buffer past its total limit.
    pub fn ensure_capacity_unlocked(&self, total_size: u64, additional_bytes: u64, compacted: bool) -> (step: CapacityStep)
        ensures
            saturating_sum(total_size, additional_bytes) <= self.spec_total_max_bytes() ==> step == CapacityStep::Proceed,
            saturating_sum(total_size, additional_bytes) > self.spec_total_max_bytes() && !compacted ==> step == CapacityStep::CompactThenRecheck,
            saturating_sum(total_size, additional_bytes) > self.spec_total_max_bytes() && compacted ==> step == (CapacityStep::Exceeded {
                total_size_bytes: total_size,
                total_max_bytes: self.spec_total_max_bytes(),
            }),
            step is Proceed ==> saturating_sum(total_size, additional_bytes) <= self.spec_total_max_bytes(),
    {
        if self.has_capacity_unlocked(total_size, additional_bytes) {
            CapacityStep::Proceed
        } else if !compacted {
            CapacityStep::CompactThenRecheck
        } else {
            CapacityStep::Exceeded { total_size_bytes: total_size, total_max_bytes: self.total_max_bytes }
        }
    }

    /// Whether the current buffer file must be rotated before an append: it
    /// exists as a file and has reached the rotation size.
    pub fn rotate_needed(&self, current_file_len: Option<u64>) -> (rotate: bool)
        ensures
            rotate == (current_file_len matches Some(len) && len >= self.spec_max_bytes()),
    {
        match current_file_len {
            Some(len) => len >= self.max_bytes,
            None => false,
        }
    }
}

/// `a + b`, saturating at `u64::MAX`.
pub open spec fn saturating_sum(a: u64, b: u64) -> u64 {
    if a + b > u64::MAX { u64::MAX } else { (a + b) as u64 }
}

/// What an append needs before it may write.
#[derive(Debug, Clone, Copy, PartialEq, Eq, Structural)]
pub enum CapacityStep {
    Proceed,
    CompactThenRecheck,
    Exceeded { total_size_bytes: u64, total_max_bytes: u64 },
}

/// Sum of the first `n` sizes.
pub open spec fn size_sum(sizes: Seq<u64>, n: int) -> int
    decreases n,
{
    if n <= 0 { 0 } else { size_sum(sizes, n - 1) + sizes[n - 1] }
}

/// Total size of the buffer files, or `None` when it does not fit in `u64`.
pub fn total_size_bytes(file_sizes: &[u64]) -> (total: Option<u64>)
    ensures
        size_sum(file_sizes@, file_sizes@.len() as int) <= u64::MAX ==> total == Some(size_sum(file_sizes@, file_sizes@.len() as int) as u64),
        size_sum(file_sizes@, file_sizes@.len() as int) > u64::MAX ==> total is None,
{
    let mut total: u64 = 0;
    let mut i: usize = 0;
    while i < file_sizes.len()
        invariant
            i <= file_sizes@.len(),
            total as int == size_sum(file_sizes@, i as int),
        decreases file_sizes@.len() - i,
    {
        match total.checked_add(file_sizes[i]) {
            Some(next) => { total = next; },
            None => {
                proof { lemma_size_sum_monotone(file_sizes@, i + 1, file_sizes@.len() as int); }
                return None;
            },
        }
        i = i + 1;
    }
    Some(total)
}

proof fn lemma_size_sum_monotone(sizes: Seq<u64>, a: int, b: int)
    requires
        0 <= a <= b <= sizes.len(),
    ensures
        size_sum(sizes, a) <= size_sum(sizes, b),
    decreases b - a,
{
    if a < b {
        lemma_size_sum_monotone(sizes, a, b - 1);
    }
}

/// Name prefix of rotated buffer files.
pub open spec fn rotated_prefix() -> Seq<char> {
    "siem-buffer-"@
}

/// Name suffix of buffer files.
pub open spec fn buffer_suffix() -> Seq<char> {
    ".jsonl"@
}

/// Name of the current buffer file.
pub open spec fn current_buffer_name() -> Seq<char> {
    "siem-buffer-current.jsonl"@
}

/// Whether a file name belongs to a rotated buffer file: it has the buffer's
/// prefix and suffix and is not the current file.
pub fn is_rotated_buffer_file(file_name: Option<&str>) -> (rotated: bool)
    ensures
        rotated == (file_name matches Some(name) && has_prefix(name@, rotated_prefix())
            && has_suffix(name@, buffer_suffix()) && name@ != current_buffer_name()),
{
    proof {
        reveal_strlit("siem-buffer-");
        reveal_strlit(".jsonl");
        reveal_strlit("siem-buffer-current.jsonl");
    }
    match file_name {
        None => false,
        Some(name) => starts_with(name, "siem-buffer-") && ends_with(name, ".jsonl")
            && !str_eq(name, "siem-buffer-current.jsonl"),
    }
}

/// Name of the temporary file that compaction writes before replacing the current file.
pub fn compaction_temp_name(current_file_name: Option<&str>) -> (name: String)
    ensures
        name@ == match current_file_name {
            Some(n) => n@ + ".compact.tmp"@,
            None => current_buffer_name() + ".compact.tmp"@,
        },
{
    proof {
        reveal_strlit("siem-buffer-current.jsonl");
    }
    let mut out = match current_file_name {
        Some(n) => String::from_str(n),
        None => String::from_str("siem-buffer-current.jsonl"),
    };
    out.append(".compact.tmp");
    out
}

/// `YYYYMMDD` text of a calendar day with a non-negative year.
pub open spec fn yyyymmdd_text(year: u32, month: u8, day: u8) -> Seq<char> {
    zero_padded(year as nat, 4) + zero_padded(month as nat, 2) + zero_padded(day as nat, 2)
}

/// `YYYYMMDD` text of a calendar day, used to name rotated files.
pub fn utc_yyyymmdd(year: u32, month: u8, day: u8) -> (text: String)
    ensures
        text@ == yyyymmdd_text(year, month, day),
{
    let mut out = String::new();
    push_zero_padded(&mut out, year as u64, 4);
    push_zero_padded(&mut out, month as u64, 2);
    push_zero_padded(&mut out, day as u64, 2);
    assert(out@ =~= yyyymmdd_text(year, month, day));
    out
}

/// Name of the rotated file with the given date and sequence number.
pub open spec fn rotated_file_name(date: Seq<char>, sequence: u32) -> Seq<char> {
    rotated_prefix() + date + seq!['-'] + zero_padded(sequence as nat, 4) + buffer_suffix()
}

/// Name of the rotated file with the given date and sequence number (the
/// number zero padded to at least four digits).
pub fn next_rotated_buffer_name(date: &str, sequence: u32) -> (name: String)
    ensures
        name@ == rotated_file_name(date@, sequence),
{
    proof {
        reveal_strlit("siem-buffer-");
        reveal_strlit("-");
        reveal_strlit(".jsonl");
    }
    let mut out = String::from_str("siem-buffer-");
    out.append(date);
    out.append("-");
    push_zero_padded(&mut out, sequence as u64, 4);
    out.append(".jsonl");
    assert(out@ =~= rotated_file_name(date@, sequence));
    out
}

/// The text that `str::parse::<u32>` accepts: an optional `+` then one or
/// more digits whose value fits in `u32`.
pub open spec fn u32_text_value(s: Seq<char>) -> Option<u32> {
    let digits = if s.len() > 0 && s[0] == '+' { s.subrange(1, s.len() as int) } else { s };
    if digits.len() > 0 && all_digits(digits) && decimal_value(digits) <= u32::MAX {
        Some(decimal_value(digits) as u32)
    } else {
        None
    }
}

/// Reads a decimal `u32` the way `str::parse::<u32>` does.
pub fn parse_u32(text: &str) -> (value: Option<u32>)
    ensures
        value == u32_text_value(text@),
{
    let len = text.unicode_len();
    let start: usize = if len > 0 && text.get_char(0) == '+' { 1 } else { 0 };
    let ghost digits = text@.subrange(start as int, len as int);
    assert(digits == if text@.len() > 0 && text@[0] == '+' { text@.subrange(1, text@.len() as int) } else { text@ }) by {
        if start == 0 {
            assert(text@.subrange(0, len as int) =~= text@);
        }
    }
    if start >= len {
        return None;
    }
    let mut value: u64 = 0;
    let mut i: usize = start;
    while i < len
        invariant
            start <= i <= len,
            len == text@.len(),
            digits == text@.subrange(start as int, len as int),
            digits == if text@.len() > 0 && text@[0] == '+' { text@.subrange(1, text@.len() as int) } else { text@ },
            all_digits(text@.subrange(start as int, i as int)),
            value as nat == decimal_value(text@.subrange(start as int, i as int)),
            value <= u32::MAX,
        decreases len - i,
    {
        let c = text.get_char(i);
        let ghost prefix = text@.subrange(start as int, i as int);
        let ghost next = text@.subrange(start as int, i + 1);
        assert(next.drop_last() =~= prefix);
        if c < '0' || c > '9' {
            proof {
                assert(digits[i - start] == text@[i as int]);
                assert(!all_digits(digits));
            }
            return None;
        }
        let d = (c as u32 - '0' as u32) as u64;
        value = value * 10 + d;
        assert(all_digits(next)) by {
            assert forall|k: int| 0 <= k < next.len() implies '0' <= #[trigger] next[k] <= '9' by {
                if k < prefix.len() {
                    assert(next[k] == prefix[k]);
                }
            }
        }
        if value > u32::MAX as u64 {
            proof {
                if all_digits(digits) {
                    assert(digits.subrange(0, i + 1 - start) =~= next);
                    lemma_decimal_value_prefix_bound(digits, (i + 1 - start) as int);
                }
            }
            return None;
        }
        i = i + 1;
    }
    Some(value as u32)
}

proof fn lemma_decimal_value_prefix_bound(s: Seq<char>, n: int)
    requires
        0 < n <= s.len(),
        all_digits(s),
    ensures
        decimal_value(s.subrange(0, n)) <= decimal_value(s),
    decreases s.len() - n,
{
    if n < s.len() {
        let t = s.drop_last();
        assert(all_digits(t)) by {
            assert forall|k: int| 0 <= k < t.len() implies '0' <= #[trigger] t[k] <= '9' by {
                assert(t[k] == s[k]);
            }
        }
        lemma_decimal_value_prefix_bound(t, n);
        assert(t.subrange(0, n) =~= s.subrange(0, n));
        assert('0' <= s[s.len() - 1] <= '9');
    } else {
        assert(s.subrange(0, n) =~= s);
    }
}

/// The sequence number a rotated file name carries for `date`, if any.
pub open spec fn rotated_sequence_of(name: Seq<char>, date: Seq<char>) -> Option<u32> {
    let prefix = rotated_prefix() + date + seq!['-'];
    if has_prefix(name, prefix) && has_suffix(name, buffer_suffix()) && prefix.len() <= name.len() - buffer_suffix().len() {
        u32_text_value(name.subrange(prefix.len() as int, name.len() - buffer_suffix().len()))
    } else {
        None
    }
}

/// Largest sequence number among the names for `date`, or zero.
pub open spec fn max_rotated_sequence(names: Seq<Seq<char>>, date: Seq<char>) -> u32
    decreases names.len(),
{
    if names.len() == 0 {
        0
    } else {
        let rest = max_rotated_sequence(names.drop_last(), date);
        match rotated_sequence_of(names.last(), date) {
            Some(n) => if n > rest { n } else { rest },
            None => rest,
        }
    }
}

/// Law: the largest sequence number of the day bounds every rotated name of
/// that date, and it is either zero or the sequence number of one of them.
pub proof fn lemma_max_rotated_sequence_is_maximum(names: Seq<Seq<char>>, date: Seq<char>)
    ensures
        forall|i: int| 0 <= i < names.len() ==> (#[trigger] rotated_sequence_of(names[i], date) matches Some(n)
            ==> n <= max_rotated_sequence(names, date)),
        max_rotated_sequence(names, date) == 0 || exists|i: int| 0 <= i < names.len()
            && #[trigger] rotated_sequence_of(names[i], date) == Some(max_rotated_sequence(names, date)),
    decreases names.len(),
{
    if names.len() > 0 {
        let rest = names.drop_last();
        lemma_max_rotated_sequence_is_maximum(rest, date);
        assert forall|i: int| 0 <= i < names.len() implies (#[trigger] rotated_sequence_of(names[i], date) matches Some(n)
            ==> n <= max_rotated_sequence(names, date)) by {
            if i < names.len() - 1 {
                assert(names[i] == rest[i]);
                assert(rotated_sequence_of(rest[i], date) == rotated_sequence_of(names[i], date));
            }
        }
        if max_rotated_sequence(names, date) != 0 {
            if max_rotated_sequence(names, date) == max_rotated_sequence(rest, date) {
                let i = choose|i: int| 0 <= i < rest.len()
                    && #[trigger] rotated_sequence_of(rest[i], date) == Some(max_rotated_sequence(rest, date));
                assert(names[i] == rest[i]);
            } else {
                assert(rotated_sequence_of(names[names.len() - 1], date) == Some(max_rotated_sequence(names, date)));
            }
        }
    }
}

/// Views of file names.
pub open spec fn name_views(names: Seq<String>) -> Seq<Seq<char>> {
    names.map_values(|n: String| n@)
}

/// Sequence number for the next rotated file of `date`: one more than the
/// largest among existing names of that date, saturating at `u32::MAX`.
pub fn next_rotated_sequence(existing_names: &[String], date: &str) -> (sequence: u32)
    ensures
        sequence == if max_rotated_sequence(name_views(existing_names@), date@) == u32::MAX {
            u32::MAX
        } else {
            (max_rotated_sequence(name_views(existing_names@), date@) + 1) as u32
        },
        forall|i: int| 0 <= i < existing_names@.len() ==> (#[trigger] rotated_sequence_of(existing_names@[i]@, date@)
            matches Some(n) ==> (n < sequence || sequence == u32::MAX)),
        sequence >= 1,
        sequence == 1 || sequence == u32::MAX || exists|i: int| 0 <= i < existing_names@.len()
            && #[trigger] rotated_sequence_of(existing_names@[i]@, date@) == Some((sequence - 1) as u32),
{
    proof {
        reveal_strlit("siem-buffer-");
        reveal_strlit("-");
        reveal_strlit(".jsonl");
    }
    let ghost all = name_views(existing_names@);
    let mut prefix = String::from_str("siem-buffer-");
    prefix.append(date);
    prefix.append("-");
    let suffix_len: usize = 6;
    let prefix_len = prefix.as_str().unicode_len();
    let mut max_sequence: u32 = 0;
    let mut i: usize = 0;
    while i < existing_names.len()
        invariant
            all == name_views(existing_names@),
            i <= existing_names@.len(),
            prefix@ == rotated_prefix() + date@ + seq!['-'],
            prefix_len == prefix@.len(),
            suffix_len == buffer_suffix().len(),
            max_sequence == max_rotated_sequence(all.subrange(0, i as int), date@),
        decreases existing_names@.len() - i,
    {
        let name = existing_names[i].as_str();
        assert(all.subrange(0, i + 1).drop_last() =~= all.subrange(0, i as int));
        assert(all.subrange(0, i + 1).last() == name@);
        if starts_with(name, prefix.as_str()) && ends_with(name, ".jsonl") {
            let name_len = name.unicode_len();
            if prefix_len <= name_len - suffix_len {
                let middle = name.substring_char(prefix_len, name_len - suffix_len);
                match parse_u32(middle) {
                    Some(sequence) => {
                        if sequence > max_sequence {
                            max_sequence = sequence;
                        }
                    },
                    None => {},
                }
            }
        }
        i = i + 1;
    }
    assert(all.subrange(0, existing_names@.len() as int) =~= all);
    let sequence = max_sequence.saturating_add(1);
    proof {
        let names = name_views(existing_names@);
        lemma_max_rotated_sequence_is_maximum(names, date@);
        assert forall|i: int| 0 <= i < existing_names@.len() implies (#[trigger] rotated_sequence_of(
            existing_names@[i]@,
            date@,
        ) matches Some(n) ==> (n < sequence || sequence == u32::MAX)) by {
            assert(names[i] == existing_names@[i]@);
            assert(rotated_sequence_of(names[i], date@) == rotated_sequence_of(existing_names@[i]@, date@));
        }
        if sequence != 1 && sequence != u32::MAX {
            let i = choose|i: int| 0 <= i < names.len()
                && #[trigger] rotated_sequence_of(names[i], date@) == Some(max_rotated_sequence(names, date@));
            assert(names[i] == existing_names@[i]@);
        }
    }
    sequence
}

} // verus!
