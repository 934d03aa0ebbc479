use vstd::prelude::*;

verus! {

/// What writing a secret version (create or rotate) returns.
#[derive(Debug)]
pub struct WriteSecretVersionOutput {
    secret_id: String,
    version: u32,
    secret_version_id: String,
}

impl WriteSecretVersionOutput {
    pub closed spec fn spec_secret_id(&self) -> Seq<char> {
        self.secret_id@
    }

    pub closed spec fn spec_version(&self) -> u32 {
        self.version
    }

    pub closed spec fn spec_secret_version_id(&self) -> Seq<char> {
        self.secret_version_id@
    }

    pub fn new(secret_id: String, version: u32, secret_version_id: String) -> (output: Self)
        ensures
            output.spec_secret_id() == secret_id@,
            output.spec_version() == version,
            output.spec_secret_version_id() == secret_version_id@,
    {
        WriteSecretVersionOutput { secret_id, version, secret_version_id }
    }

    pub fn secret_id(&self) -> (id: &str)
        ensures
            id@ == self.spec_secret_id(),
    {
        self.secret_id.as_str()
    }

    pub fn version(&self) -> (version: u32)
        ensures
            version == self.spec_version(),
    {
        self.version
    }

    pub fn secret_version_id(&self) -> (id: &str)
        ensures
            id@ == self.spec_secret_version_id(),
    {
        self.secret_version_id.as_str()
    }
}


/// Number of versions of a secret that are kept; older ones are purged.
pub const SECRET_VERSION_RETENTION_LIMIT: usize = 4;

/// A version of a secret as the retention rule sees it.
#[derive(Debug, Clone, PartialEq, Eq)]
pub struct RetentionVersionSnapshot {
    pub secret_version_id: String,
    pub version: u32,
    pub key_version: u32,
}

/// Whether position `p` comes before position `q` when versions are listed
/// newest first (ties in list order).
pub open spec fn newer_first(all: Seq<RetentionVersionSnapshot>, q: int, p: int) -> bool {
    all[q].version > all[p].version || (all[q].version == all[p].version && q < p)
}

/// How many of the first `upto` versions come before position `p` newest first.
pub open spec fn rank_prefix(all: Seq<RetentionVersionSnapshot>, p: int, upto: int) -> nat
    decreases upto,
{
    if upto <= 0 {
        0
    } else {
        rank_prefix(all, p, upto - 1) + if newer_first(all, upto - 1, p) {
            1nat
        } else {
            0nat
        }
    }
}

/// Position of `p` in the newest-first listing.
pub open spec fn rank(all: Seq<RetentionVersionSnapshot>, p: int) -> nat {
    rank_prefix(all, p, all.len() as int)
}

/// A version is purged when the retention limit's worth of versions come
/// before it newest first.
pub open spec fn purged(all: Seq<RetentionVersionSnapshot>, p: int) -> bool {
    0 <= p < all.len() && rank(all, p) >= SECRET_VERSION_RETENTION_LIMIT
}

/// Order of the purge list: oldest version first, ties in list order.
pub open spec fn older_first(all: Seq<RetentionVersionSnapshot>, p: int, q: int) -> bool {
    all[p].version < all[q].version || (all[p].version == all[q].version && p < q)
}

/// `positions` lists exactly the purged positions, oldest first.
pub open spec fn purge_listing(all: Seq<RetentionVersionSnapshot>, positions: Seq<int>) -> bool {
    &&& forall|k: int| 0 <= k < positions.len() ==> purged(all, #[trigger] positions[k])
    &&& forall|k: int, l: int| 0 <= k < l < positions.len() ==> older_first(all, positions[k], positions[l])
    &&& forall|p: int| purged(all, p) ==> positions.contains(p)
}

proof fn lemma_positions_bounded(a: Seq<RetentionVersionSnapshot>, positions: Seq<int>, n: int)
    requires
        0 <= n,
        forall|k: int| 0 <= k < positions.len() ==> 0 <= #[trigger] positions[k] < n,
        forall|k: int, l: int| 0 <= k < l < positions.len() ==> older_first(a, positions[k], positions[l]),
    ensures
        positions.len() <= n,
{
    assert(positions.no_duplicates()) by {
        assert forall|k: int, l: int| 0 <= k < positions.len() && 0 <= l < positions.len() && k != l
            implies positions[k] != positions[l] by {
            if k < l {
                assert(older_first(a, positions[k], positions[l]));
            } else {
                assert(older_first(a, positions[l], positions[k]));
            }
        }
    }
    positions.unique_seq_to_set();
    vstd::set_lib::lemma_int_range(0, n);
    assert(positions.to_set().subset_of(vstd::set_lib::set_int_range(0, n)));
    vstd::set_lib::lemma_len_subset(positions.to_set(), vstd::set_lib::set_int_range(0, n));
}

fn count_newer(all: &Vec<RetentionVersionSnapshot>, p: usize) -> (count: usize)
    requires
        p < all@.len(),
    ensures
        count == rank(all@, p as int),
{
    let mut count: usize = 0;
    let mut q: usize = 0;
    while q < all.len()
        invariant
            p < all@.len(),
            q <= all@.len(),
            count == rank_prefix(all@, p as int, q as int),
            count <= q,
        decreases all@.len() - q,
    {
        if all[q].version > all[p].version || (all[q].version == all[p].version && q < p) {
            count = count + 1;
        }
        q = q + 1;
    }
    count
}

fn copy_snapshot(s: &RetentionVersionSnapshot) -> (copy: RetentionVersionSnapshot)
    ensures
        copy == *s,
{
    RetentionVersionSnapshot {
        secret_version_id: s.secret_version_id.clone(),
        version: s.version,
        key_version: s.key_version,
    }
}

/// The versions a rotation purges: the stored versions and the new one,
/// minus the newest `SECRET_VERSION_RETENTION_LIMIT` (ties kept in list
/// order), oldest first. Creating a secret purges nothing.
pub fn select_purged_versions(
    is_rotate: bool,
    stored: Vec<RetentionVersionSnapshot>,
    new_version: RetentionVersionSnapshot,
) -> (purge: Vec<RetentionVersionSnapshot>)
    requires
        stored@.len() < usize::MAX,
    ensures
        !is_rotate ==> purge@.len() == 0,
        is_rotate ==> purge@.len() == excess_versions((stored@.len() + 1) as nat),
        is_rotate ==> exists|positions: Seq<int>| #![auto]
            purge_listing(stored@.push(new_version), positions) && positions.len() == purge@.len()
                && forall|k: int| 0 <= k < positions.len() ==> purge@[k] == stored@.push(
                new_version,
            )[positions[k]],
{
    if !is_rotate {
        return Vec::new();
    }
    let mut all = stored;
    all.push(new_version);
    let ghost a = all@;
    let n = all.len();
    let mut purge: Vec<RetentionVersionSnapshot> = Vec::new();
    let ghost mut positions: Seq<int> = Seq::empty();
    let mut last: Option<usize> = None;
    let mut done = false;
    while !done
        invariant
            all@ == a,
            n == a.len(),
            positions.len() == purge@.len(),
            positions.len() <= n,
            forall|k: int| 0 <= k < positions.len() ==> purge@[k] == a[#[trigger] positions[k]],
            forall|k: int| 0 <= k < positions.len() ==> purged(a, #[trigger] positions[k]),
            forall|k: int, l: int| 0 <= k < l < positions.len() ==> older_first(a, positions[k], positions[l]),
            last is None <==> positions.len() == 0,
            last matches Some(lp) ==> lp < n && positions.last() == lp as int,
            forall|p: int| #![trigger purged(a, p)] purged(a, p) && (last matches Some(lp) ==> (older_first(a, p, lp as int) || p == lp as int)) && last is Some
                ==> positions.contains(p),
            done ==> forall|p: int| purged(a, p) ==> positions.contains(p),
        decreases n - positions.len(), if done { 0int } else { 1int },
    {
        let mut best: Option<usize> = None;
        let mut p: usize = 0;
        while p < n
            invariant
                all@ == a,
                n == a.len(),
                p <= n,
                last matches Some(lp) ==> lp < n,
                best matches Some(b) ==> b < p && purged(a, b as int) && (last matches Some(lp) ==> older_first(a, lp as int, b as int)),
                forall|q: int| 0 <= q < p && purged(a, q) && (last matches Some(lp) ==> older_first(a, lp as int, q))
                    ==> (best matches Some(b) && (q == b || older_first(a, b as int, q))),
            decreases n - p,
        {
            let c = count_newer(&all, p);
            if c >= SECRET_VERSION_RETENTION_LIMIT {
                let after_last = match last {
                    None => true,
                    Some(lp) => all[lp].version < all[p].version || (all[lp].version == all[p].version && lp < p),
                };
                if after_last {
                    let better = match best {
                        None => true,
                        Some(b) => all[p].version < all[b].version || (all[p].version == all[b].version && p < b),
                    };
                    if better {
                        best = Some(p);
                    }
                }
            }
            p = p + 1;
        }
        match best {
            None => {
                done = true;
                proof {
                    assert forall|q: int| purged(a, q) implies positions.contains(q) by {
                        if positions.len() == 0 {
                        } else {
                            let lp = last.unwrap() as int;
                            if !(older_first(a, q, lp) || q == lp) {
                                assert(older_first(a, lp, q));
                            }
                        }
                    }
                }
            },
            Some(b) => {
                proof {
                    let np = positions.push(b as int);
                    assert forall|k: int, l: int| 0 <= k < l < np.len() implies older_first(a, np[k], np[l]) by {
                        if l == np.len() - 1 && k < positions.len() - 1 {
                            assert(older_first(a, positions[k], positions.last()));
                        }
                    }
                    assert forall|k: int| 0 <= k < np.len() implies 0 <= #[trigger] np[k] < n by {
                        if k < positions.len() {
                            assert(purged(a, positions[k]));
                        }
                    }
                    lemma_positions_bounded(a, np, n as int);
                }
                purge.push(copy_snapshot(&all[b]));
                let ghost old_positions = positions;
                proof {
                    positions = positions.push(b as int);
                    assert forall|q: int| purged(a, q) && (older_first(a, q, b as int) || q == b as int)
                        implies positions.contains(q) by {
                        if q == b as int {
                            assert(positions[positions.len() - 1] == q);
                        } else {
                            match last {
                                None => {
                                    assert(q == b || older_first(a, b as int, q));
                                },
                                Some(lp) => {
                                    if older_first(a, q, lp as int) || q == lp as int {
                                        assert(old_positions.contains(q));
                                        let k = choose|k: int| 0 <= k < old_positions.len() && old_positions[k] == q;
                                        assert(positions[k] == q);
                                    } else {
                                        assert(older_first(a, lp as int, q));
                                        assert(q == b || older_first(a, b as int, q));
                                    }
                                },
                            }
                        }
                    }
                }
                last = Some(b);
            },
        }
    }
    proof {
        assert(purge_listing(a, positions));
        assert(positions.no_duplicates()) by {
            assert forall|k: int, l: int| 0 <= k < positions.len() && 0 <= l < positions.len() && k != l
                implies positions[k] != positions[l] by {
                if k < l {
                    assert(older_first(a, positions[k], positions[l]));
                } else {
                    assert(older_first(a, positions[l], positions[k]));
                }
            }
        }
        positions.unique_seq_to_set();
        assert(positions.to_set() =~= purged_positions(a));
        lemma_purge_count(a);
    }
    purge
}

proof fn lemma_rank_dominates(a: Seq<RetentionVersionSnapshot>, p: int, q: int, upto: int)
    requires
        0 <= p < a.len(),
        0 <= q < a.len(),
        upto <= a.len(),
        newer_first(a, p, q),
        forall|r: int| 0 <= r < a.len() && #[trigger] newer_first(a, r, p) ==> newer_first(a, r, q),
    ensures
        rank_prefix(a, q, upto) >= rank_prefix(a, p, upto) + (if 0 <= p < upto { 1int } else { 0int }),
    decreases upto,
{
    if upto > 0 {
        lemma_rank_dominates(a, p, q, upto - 1);
    }
}

proof fn lemma_rank_prefix_bound(a: Seq<RetentionVersionSnapshot>, p: int, upto: int)
    requires
        0 <= p < a.len(),
        0 <= upto <= a.len(),
    ensures
        rank_prefix(a, p, upto) + (if p < upto { 1int } else { 0int }) <= upto,
    decreases upto,
{
    if upto > 0 {
        lemma_rank_prefix_bound(a, p, upto - 1);
    }
}

/// The positions that a rotation over `a` purges.
pub open spec fn purged_positions(a: Seq<RetentionVersionSnapshot>) -> Set<int> {
    Set::new(|p: int| purged(a, p))
}

/// How many of `n` versions are beyond the retention limit.
pub open spec fn excess_versions(n: nat) -> nat {
    if n > SECRET_VERSION_RETENTION_LIMIT { (n - SECRET_VERSION_RETENTION_LIMIT) as nat } else { 0 }
}

/// Law: retention purges all but the newest `SECRET_VERSION_RETENTION_LIMIT`
/// versions, so exactly the versions beyond the limit are purged.
pub proof fn lemma_purge_count(a: Seq<RetentionVersionSnapshot>)
    ensures
        purged_positions(a).finite(),
        purged_positions(a).len() == excess_versions(a.len()),
{
    let n = a.len() as int;
    let all = vstd::set_lib::set_int_range(0, n);
    let f = |p: int| rank(a, p) as int;
    vstd::set_lib::lemma_int_range(0, n);
    assert forall|p: int| 0 <= p < n implies 0 <= #[trigger] rank(a, p) < n by {
        lemma_rank_prefix_bound(a, p, n);
    }
    assert forall|p: int, q: int| all.contains(p) && all.contains(q) && #[trigger] f(p) == #[trigger] f(q)
        implies p == q by {
        if p != q {
            if newer_first(a, p, q) {
                assert forall|r: int| 0 <= r < a.len() && #[trigger] newer_first(a, r, p)
                    implies newer_first(a, r, q) by {}
                lemma_rank_dominates(a, p, q, n);
            } else {
                assert(newer_first(a, q, p));
                assert forall|r: int| 0 <= r < a.len() && #[trigger] newer_first(a, r, q)
                    implies newer_first(a, r, p) by {}
                lemma_rank_dominates(a, q, p, n);
            }
        }
    }
    let image = all.map(f);
    vstd::set_lib::lemma_map_size(all, image, f);
    assert(image.subset_of(all));
    vstd::set_lib::lemma_subset_equality(image, all);
    let purged_set = purged_positions(a);
    assert(purged_set.subset_of(all));
    vstd::set_lib::lemma_len_subset(purged_set, all);
    if n > SECRET_VERSION_RETENTION_LIMIT {
        let high = vstd::set_lib::set_int_range(SECRET_VERSION_RETENTION_LIMIT as int, n);
        vstd::set_lib::lemma_int_range(SECRET_VERSION_RETENTION_LIMIT as int, n);
        assert forall|k: int| high.contains(k) implies #[trigger] purged_set.map(f).contains(k) by {
            assert(image.contains(k));
            let p = choose|p: int| all.contains(p) && f(p) == k;
            assert(purged_set.contains(p));
        }
        assert(purged_set.map(f) =~= high);
        vstd::set_lib::lemma_map_size(purged_set, high, f);
    } else {
        assert(purged_set =~= Set::<int>::empty());
    }
}

/// Law: retention keeps the newest versions. A version that is kept is at
/// least as new as any version that is purged.
pub proof fn lemma_kept_versions_are_newest(a: Seq<RetentionVersionSnapshot>, p: int, q: int)
    requires
        purged(a, p),
        0 <= q < a.len(),
        !purged(a, q),
    ensures
        a[q].version >= a[p].version,
{
    if a[q].version < a[p].version {
        assert forall|r: int| 0 <= r < a.len() && #[trigger] newer_first(a, r, p) implies newer_first(a, r, q) by {}
        lemma_rank_dominates(a, p, q, a.len() as int);
    }
}

/// The step of a rotation that failed.
#[derive(Debug, Clone, Copy, PartialEq, Eq, Structural)]
pub enum RotateFailure {
    /// The secret reference (id or alias) could not be resolved.
    Resolve,
    /// Recording the audit of a failed resolution failed too.
    ResolveAudit,
    /// The secret's current write state could not be read.
    FetchWriteState,
    /// The caller may not write a version of this secret (answered `Forbidden`).
    Forbidden,
    /// The retention snapshot could not be read.
    FetchRetention,
    /// The new version could not be prepared (encrypted).
    Prepare,
}

/// Where a rotation stands.
#[derive(Debug, Clone, Copy, PartialEq, Eq, Structural)]
pub enum RotateStage {
    Start,
    AwaitResolve,
    AwaitWriteState,
    AwaitAuthorization,
    AwaitRetention,
    AwaitPrepare,
    AwaitSubmit,
    /// The audit of a failed resolution is being recorded.
    AwaitResolveFailureAudit,
    /// The failure audit of `failed` is being recorded.
    AwaitFailureAudit { failed: RotateFailure },
    Done,
}

/// The outcome of the outside work of the previous step: whether it succeeded.
#[derive(Debug, Clone, Copy, PartialEq, Eq, Structural)]
pub enum RotateEvent {
    Begin,
    Resolved(bool),
    WriteStateFetched(bool),
    Authorized(bool),
    RetentionFetched(bool),
    Prepared(bool),
    /// The prepared version was submitted; the submission gives the result.
    Submitted,
    AuditRecorded(bool),
}

/// What the caller must do next.
#[derive(Debug, Clone, Copy, PartialEq, Eq, Structural)]
pub enum RotateAction {
    ResolveSecretRef,
    FetchWriteState,
    AuthorizeWrite,
    FetchRetentionSnapshot,
    PrepareVersion,
    /// Submit the prepared version with the retention snapshot; the purged
    /// versions are those of `select_purged_versions`.
    SubmitVersion,
    /// Record the failure audit, naming the secret when it was resolved.
    RecordFailureAudit { with_target: bool },
    /// Return what the submission returned.
    ReturnSubmitted,
    /// Return the error of the step that failed.
    ReturnError { failed: RotateFailure },
}

pub open spec fn rotate_event_fits(stage: RotateStage, event: RotateEvent) -> bool {
    match stage {
        RotateStage::Start => event is Begin,
        RotateStage::AwaitResolve => event is Resolved,
        RotateStage::AwaitWriteState => event is WriteStateFetched,
        RotateStage::AwaitAuthorization => event is Authorized,
        RotateStage::AwaitRetention => event is RetentionFetched,
        RotateStage::AwaitPrepare => event is Prepared,
        RotateStage::AwaitSubmit => event is Submitted,
        RotateStage::AwaitResolveFailureAudit => event is AuditRecorded,
        RotateStage::AwaitFailureAudit { .. } => event is AuditRecorded,
        RotateStage::Done => false,
    }
}

/// A failure of `failed`: its audit, naming the secret, is recorded next.
pub open spec fn rotate_audited(failed: RotateFailure) -> (RotateStage, RotateAction) {
    (RotateStage::AwaitFailureAudit { failed }, RotateAction::RecordFailureAudit { with_target: true })
}

/// The next step of a rotation: resolve the secret, read its write state,
/// check that the caller may write it, read the retention snapshot, prepare
/// the new version and submit it. A failed step is audited and its error
/// returned (a failed audit is only logged), except that a failure to audit a
/// failed resolution is itself returned.
pub open spec fn rotate_step(stage: RotateStage, event: RotateEvent) -> (RotateStage, RotateAction) {
    match (stage, event) {
        (RotateStage::Start, _) => (RotateStage::AwaitResolve, RotateAction::ResolveSecretRef),
        (RotateStage::AwaitResolve, RotateEvent::Resolved(true)) => (RotateStage::AwaitWriteState, RotateAction::FetchWriteState),
        (RotateStage::AwaitResolve, _) => (
            RotateStage::AwaitResolveFailureAudit,
            RotateAction::RecordFailureAudit { with_target: false },
        ),
        (RotateStage::AwaitWriteState, RotateEvent::WriteStateFetched(true)) => (
            RotateStage::AwaitAuthorization,
            RotateAction::AuthorizeWrite,
        ),
        (RotateStage::AwaitWriteState, _) => rotate_audited(RotateFailure::FetchWriteState),
        (RotateStage::AwaitAuthorization, RotateEvent::Authorized(true)) => (
            RotateStage::AwaitRetention,
            RotateAction::FetchRetentionSnapshot,
        ),
        (RotateStage::AwaitAuthorization, _) => rotate_audited(RotateFailure::Forbidden),
        (RotateStage::AwaitRetention, RotateEvent::RetentionFetched(true)) => (RotateStage::AwaitPrepare, RotateAction::PrepareVersion),
        (RotateStage::AwaitRetention, _) => rotate_audited(RotateFailure::FetchRetention),
        (RotateStage::AwaitPrepare, RotateEvent::Prepared(true)) => (RotateStage::AwaitSubmit, RotateAction::SubmitVersion),
        (RotateStage::AwaitPrepare, _) => rotate_audited(RotateFailure::Prepare),
        (RotateStage::AwaitSubmit, _) => (RotateStage::Done, RotateAction::ReturnSubmitted),
        (RotateStage::AwaitResolveFailureAudit, RotateEvent::AuditRecorded(true)) => (
            RotateStage::Done,
            RotateAction::ReturnError { failed: RotateFailure::Resolve },
        ),
        (RotateStage::AwaitResolveFailureAudit, _) => (
            RotateStage::Done,
            RotateAction::ReturnError { failed: RotateFailure::ResolveAudit },
        ),
        (RotateStage::AwaitFailureAudit { failed }, _) => (RotateStage::Done, RotateAction::ReturnError { failed }),
        (RotateStage::Done, _) => (RotateStage::Done, RotateAction::ReturnError { failed: RotateFailure::Resolve }),
    }
}

/// What one step of a rotation owes: a failed read, authorization,
/// retention read or preparation is followed by its failure audit naming the
/// secret; a failed resolution by an audit without it; the error of such a
/// step is returned only from its audit stage; a version is submitted only
/// once it was prepared.
pub open spec fn rotate_failure_audited(
    stage: RotateStage,
    event: RotateEvent,
    step: (RotateStage, RotateAction),
) -> bool {
    &&& (stage is AwaitResolve && event == RotateEvent::Resolved(false)) ==> step == (
        RotateStage::AwaitResolveFailureAudit,
        RotateAction::RecordFailureAudit { with_target: false },
    )
    &&& (stage is AwaitWriteState && event == RotateEvent::WriteStateFetched(false)) ==> step == (
        RotateStage::AwaitFailureAudit { failed: RotateFailure::FetchWriteState },
        RotateAction::RecordFailureAudit { with_target: true },
    )
    &&& (stage is AwaitAuthorization && event == RotateEvent::Authorized(false)) ==> step == (
        RotateStage::AwaitFailureAudit { failed: RotateFailure::Forbidden },
        RotateAction::RecordFailureAudit { with_target: true },
    )
    &&& (stage is AwaitRetention && event == RotateEvent::RetentionFetched(false)) ==> step == (
        RotateStage::AwaitFailureAudit { failed: RotateFailure::FetchRetention },
        RotateAction::RecordFailureAudit { with_target: true },
    )
    &&& (stage is AwaitPrepare && event == RotateEvent::Prepared(false)) ==> step == (
        RotateStage::AwaitFailureAudit { failed: RotateFailure::Prepare },
        RotateAction::RecordFailureAudit { with_target: true },
    )
    &&& step.1 is ReturnError ==> (stage == (RotateStage::AwaitFailureAudit { failed: step.1->failed })
        || stage is AwaitResolveFailureAudit)
    &&& step.1 is SubmitVersion ==> (stage is AwaitPrepare && event == RotateEvent::Prepared(true))
}

/// Law: every step of a rotation keeps the obligations of
/// [`rotate_failure_audited`].
pub proof fn lemma_rotate_failures_are_audited(stage: RotateStage, event: RotateEvent)
    requires
        rotate_event_fits(stage, event),
    ensures
        rotate_failure_audited(stage, event, rotate_step(stage, event)),
{
}

/// Takes one step of a rotation: see [`rotate_step`].
pub fn next_rotate_step(stage: RotateStage, event: RotateEvent) -> (step: (RotateStage, RotateAction))
    requires
        rotate_event_fits(stage, event),
    ensures
        step == rotate_step(stage, event),
        rotate_failure_audited(stage, event, step),
{
    let audited = |failed: RotateFailure| -> (r: (RotateStage, RotateAction))
        ensures
            r == rotate_audited(failed),
        { (RotateStage::AwaitFailureAudit { failed }, RotateAction::RecordFailureAudit { with_target: true }) };
    match (stage, event) {
        (RotateStage::Start, _) => (RotateStage::AwaitResolve, RotateAction::ResolveSecretRef),
        (RotateStage::AwaitResolve, RotateEvent::Resolved(true)) => (RotateStage::AwaitWriteState, RotateAction::FetchWriteState),
        (RotateStage::AwaitResolve, _) => (
            RotateStage::AwaitResolveFailureAudit,
            RotateAction::RecordFailureAudit { with_target: false },
        ),
        (RotateStage::AwaitWriteState, RotateEvent::WriteStateFetched(true)) => (
            RotateStage::AwaitAuthorization,
            RotateAction::AuthorizeWrite,
        ),
        (RotateStage::AwaitWriteState, _) => audited(RotateFailure::FetchWriteState),
        (RotateStage::AwaitAuthorization, RotateEvent::Authorized(true)) => (
            RotateStage::AwaitRetention,
            RotateAction::FetchRetentionSnapshot,
        ),
        (RotateStage::AwaitAuthorization, _) => audited(RotateFailure::Forbidden),
        (RotateStage::AwaitRetention, RotateEvent::RetentionFetched(true)) => (RotateStage::AwaitPrepare, RotateAction::PrepareVersion),
        (RotateStage::AwaitRetention, _) => audited(RotateFailure::FetchRetention),
        (RotateStage::AwaitPrepare, RotateEvent::Prepared(true)) => (RotateStage::AwaitSubmit, RotateAction::SubmitVersion),
        (RotateStage::AwaitPrepare, _) => audited(RotateFailure::Prepare),
        (RotateStage::AwaitSubmit, _) => (RotateStage::Done, RotateAction::ReturnSubmitted),
        (RotateStage::AwaitResolveFailureAudit, RotateEvent::AuditRecorded(true)) => (
            RotateStage::Done,
            RotateAction::ReturnError { failed: RotateFailure::Resolve },
        ),
        (RotateStage::AwaitResolveFailureAudit, _) => (
            RotateStage::Done,
            RotateAction::ReturnError { failed: RotateFailure::ResolveAudit },
        ),
        (RotateStage::AwaitFailureAudit { failed }, _) => (RotateStage::Done, RotateAction::ReturnError { failed }),
        (RotateStage::Done, _) => (RotateStage::Done, RotateAction::ReturnError { failed: RotateFailure::Resolve }),
    }
}

/// Law: a rotation only moves forward on success. The version is submitted
/// only once it was prepared; preparation is reached only after the
/// retention snapshot was read, that only after the caller was authorized,
/// and authorization only after the write state was read.
pub proof fn lemma_rotation_advances_only_on_success(stage: RotateStage, event: RotateEvent)
    requires
        rotate_event_fits(stage, event),
    ensures
        rotate_step(stage, event).1 is SubmitVersion ==> stage is AwaitPrepare && event == RotateEvent::Prepared(true),
        rotate_step(stage, event).0 is AwaitPrepare ==> stage is AwaitRetention && event
            == RotateEvent::RetentionFetched(true),
        rotate_step(stage, event).0 is AwaitRetention ==> stage is AwaitAuthorization && event
            == RotateEvent::Authorized(true),
        rotate_step(stage, event).0 is AwaitAuthorization ==> stage is AwaitWriteState && event
            == RotateEvent::WriteStateFetched(true),
{
}

} // verus!
