use vstd::prelude::*;

use crate::clock::now_unix_nanos;
use crate::siem::forwarder::{compare_elapsed, elapsed_at_most, valid_instant};

verus! {

/// What the readiness probe reports. Instants are nanoseconds from the Unix
/// epoch; ages are nanoseconds.
#[derive(Debug, Clone, Copy, PartialEq, Eq, Structural)]
pub struct ReadinessSnapshot {
    pub supabase_reachable: bool,
    pub supabase_last_checked_at: Option<i128>,
    pub failure_audit_both_failed_last_at: Option<i128>,
}

/// Whether `timestamp` is set and no older than `max_age_nanos` at `now`.
pub open spec fn within_age(timestamp: Option<i128>, now: i128, max_age_nanos: u128) -> bool {
    match timestamp {
        None => false,
        Some(t) => elapsed_at_most(t, now, max_age_nanos),
    }
}

pub open spec fn optional_instant_valid(timestamp: Option<i128>) -> bool {
    timestamp matches Some(t) ==> valid_instant(t)
}

fn is_timestamp_within_age(timestamp: Option<i128>, now: i128, max_age_nanos: u128) -> (within: bool)
    requires
        optional_instant_valid(timestamp),
        valid_instant(now),
    ensures
        within == within_age(timestamp, now, max_age_nanos),
{
    match timestamp {
        None => false,
        Some(t) => compare_elapsed(t, now, max_age_nanos, false),
    }
}

impl ReadinessSnapshot {
    /// The instants in the snapshot are representable.
    pub open spec fn wf(&self) -> bool {
        optional_instant_valid(self.supabase_last_checked_at)
            && optional_instant_valid(self.failure_audit_both_failed_last_at)
    }

    /// Whether the last Supabase probe is no older than `max_age_nanos`.
    pub fn supabase_is_fresh(&self, now: i128, max_age_nanos: u128) -> (fresh: bool)
        requires
            self.wf(),
            valid_instant(now),
        ensures
            fresh == within_age(self.supabase_last_checked_at, now, max_age_nanos),
    {
        is_timestamp_within_age(self.supabase_last_checked_at, now, max_age_nanos)
    }

    /// Whether both failure-audit stores failed within the last `ttl_nanos`.
    pub fn failure_audit_both_failed_recent(&self, now: i128, ttl_nanos: u128) -> (recent: bool)
        requires
            self.wf(),
            valid_instant(now),
        ensures
            recent == within_age(self.failure_audit_both_failed_last_at, now, ttl_nanos),
    {
        is_timestamp_within_age(self.failure_audit_both_failed_last_at, now, ttl_nanos)
    }
}

impl Default for ReadinessSnapshot {
    fn default() -> (snapshot: Self)
        ensures
            !snapshot.supabase_reachable,
            snapshot.supabase_last_checked_at is None,
            snapshot.failure_audit_both_failed_last_at is None,
    {
        ReadinessSnapshot {
            supabase_reachable: false,
            supabase_last_checked_at: None,
            failure_audit_both_failed_last_at: None,
        }
    }
}

/// Readiness facts that the health endpoint reports. The server shares one
/// value behind a lock; each method here is one update of it.
#[derive(Debug, Clone, Copy)]
pub struct ReadinessState {
    supabase_reachable: bool,
    supabase_last_checked_at: Option<i128>,
    failure_audit_both_failed_last_at: Option<i128>,
}

impl ReadinessState {
    /// The facts the state holds.
    pub closed spec fn view_snapshot(&self) -> ReadinessSnapshot {
        ReadinessSnapshot {
            supabase_reachable: self.supabase_reachable,
            supabase_last_checked_at: self.supabase_last_checked_at,
            failure_audit_both_failed_last_at: self.failure_audit_both_failed_last_at,
        }
    }

    /// Nothing probed and no audit failure seen yet.
    pub fn new() -> (state: Self)
        ensures
            state.view_snapshot() == (ReadinessSnapshot {
                supabase_reachable: false,
                supabase_last_checked_at: None,
                failure_audit_both_failed_last_at: None,
            }),
    {
        ReadinessState {
            supabase_reachable: false,
            supabase_last_checked_at: None,
            failure_audit_both_failed_last_at: None,
        }
    }

    /// A copy of the current facts.
    pub fn snapshot(&self) -> (snapshot: ReadinessSnapshot)
        ensures
            snapshot == self.view_snapshot(),
    {
        ReadinessSnapshot {
            supabase_reachable: self.supabase_reachable,
            supabase_last_checked_at: self.supabase_last_checked_at,
            failure_audit_both_failed_last_at: self.failure_audit_both_failed_last_at,
        }
    }

    /// Records the result of a Supabase probe made now.
    pub fn record_supabase_probe_result(&mut self, reachable: bool)
        ensures
            final(self).view_snapshot().supabase_reachable == reachable,
            final(self).view_snapshot().supabase_last_checked_at matches Some(t) && valid_instant(t),
            final(self).view_snapshot().failure_audit_both_failed_last_at
                == old(self).view_snapshot().failure_audit_both_failed_last_at,
    {
        let now = now_unix_nanos();
        self.record_supabase_probe_result_at(reachable, now);
    }

    /// Records the result of a Supabase probe made at `checked_at`.
    pub fn record_supabase_probe_result_at(&mut self, reachable: bool, checked_at: i128)
        ensures
            final(self).view_snapshot() == (ReadinessSnapshot {
                supabase_reachable: reachable,
                supabase_last_checked_at: Some(checked_at),
                ..old(self).view_snapshot()
            }),
    {
        self.supabase_reachable = reachable;
        self.supabase_last_checked_at = Some(checked_at);
    }

    /// Records that both failure-audit stores failed just now.
    pub fn mark_failure_audit_both_failed(&mut self)
        ensures
            final(self).view_snapshot().failure_audit_both_failed_last_at matches Some(t) && valid_instant(t),
            final(self).view_snapshot().supabase_reachable == old(self).view_snapshot().supabase_reachable,
            final(self).view_snapshot().supabase_last_checked_at
                == old(self).view_snapshot().supabase_last_checked_at,
    {
        let now = now_unix_nanos();
        self.mark_failure_audit_both_failed_at(now);
    }

    /// Records that both failure-audit stores failed at `occurred_at`.
    pub fn mark_failure_audit_both_failed_at(&mut self, occurred_at: i128)
        ensures
            final(self).view_snapshot() == (ReadinessSnapshot {
                failure_audit_both_failed_last_at: Some(occurred_at),
                ..old(self).view_snapshot()
            }),
    {
        self.failure_audit_both_failed_last_at = Some(occurred_at);
    }
}

impl Default for ReadinessState {
    fn default() -> (state: Self)
        ensures
            state.view_snapshot() == (ReadinessSnapshot {
                supabase_reachable: false,
                supabase_last_checked_at: None,
                failure_audit_both_failed_last_at: None,
            }),
    {
        ReadinessState::new()
    }
}

/// A probe recorded at `t` is fresh at `t` for any age that a signed
/// duration can hold, and stops being fresh once more than `max_age_nanos`
/// has passed.
pub proof fn lemma_probe_fresh_until_max_age(t: i128, now: i128, max_age_nanos: u128)
    requires
        valid_instant(t),
        valid_instant(now),
        max_age_nanos <= crate::siem::forwarder::max_signed_duration_nanos(),
    ensures
        within_age(Some(t), t, max_age_nanos),
        within_age(Some(t), now, max_age_nanos) == (now - t <= max_age_nanos),
{
}

} // verus!
