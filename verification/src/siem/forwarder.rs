use vstd::prelude::*;
use vstd::string::*;

use super::sink::{SiemSinkError, SIEM_MAX_BATCH_SIZE};
use crate::text::{has_prefix, starts_with};

verus! {

/// Default number of send attempts per batch.
pub const DEFAULT_SIEM_RETRY_MAX_ATTEMPTS: u8 = 3;

/// Default delay before the first retry, in milliseconds.
pub const DEFAULT_SIEM_RETRY_INITIAL_DELAY_MS: u64 = 1000;

/// Default cap on the delay between retries, in milliseconds.
pub const DEFAULT_SIEM_RETRY_MAX_DELAY_MS: u64 = 60000;

/// How a forward ended. Deliberately not a `Result`: a SIEM failure never
/// fails the operation that produced the event.
pub enum SiemForwardOutcome {
    /// The sink accepted the batch directly.
    SentDirect,
    /// The sink failed; the batch was kept in the local buffer for resending.
    Buffered { sink_error_code: String },
    /// The sink failed and the local buffer could not keep the batch either.
    BufferingFailed { sink_error_code: String },
}

impl SiemForwardOutcome {
    /// The sink accepted the batch directly.
    pub fn is_direct_success(&self) -> (direct: bool)
        ensures
            direct == (self is SentDirect),
    {
        match self {
            SiemForwardOutcome::SentDirect => true,
            _ => false,
        }
    }
}

/// Result of resending a batch of buffered events.
#[derive(Debug, Clone, Copy, PartialEq, Eq, Structural)]
pub struct SiemResendSummary {
    pub attempted: usize,
    pub sent: usize,
    pub failed: usize,
}

impl SiemResendSummary {
    /// Nothing was attempted.
    pub fn empty() -> (summary: Self)
        ensures
            summary == (SiemResendSummary { attempted: 0, sent: 0, failed: 0 }),
    {
        SiemResendSummary { attempted: 0, sent: 0, failed: 0 }
    }
}

/// How often, and with what pauses, a failed send is retried.
#[derive(Debug, Clone, Copy, PartialEq, Eq, Structural)]
pub struct SiemRetryPolicy {
    pub max_attempts: u8,
    pub initial_delay_ms: u64,
    pub max_delay_ms: u64,
}

impl SiemRetryPolicy {
    /// Three attempts, starting one second apart, with pauses capped at one minute.
    pub fn production_default() -> (policy: Self)
        ensures
            policy == (SiemRetryPolicy {
                max_attempts: DEFAULT_SIEM_RETRY_MAX_ATTEMPTS,
                initial_delay_ms: DEFAULT_SIEM_RETRY_INITIAL_DELAY_MS,
                max_delay_ms: DEFAULT_SIEM_RETRY_MAX_DELAY_MS,
            }),
    {
        SiemRetryPolicy {
            max_attempts: DEFAULT_SIEM_RETRY_MAX_ATTEMPTS,
            initial_delay_ms: DEFAULT_SIEM_RETRY_INITIAL_DELAY_MS,
            max_delay_ms: DEFAULT_SIEM_RETRY_MAX_DELAY_MS,
        }
    }

    /// A single attempt, no pauses.
    pub fn no_retry() -> (policy: Self)
        ensures
            policy == (SiemRetryPolicy { max_attempts: 1, initial_delay_ms: 0, max_delay_ms: 0 }),
    {
        SiemRetryPolicy { max_attempts: 1, initial_delay_ms: 0, max_delay_ms: 0 }
    }

    /// A policy with the given attempts and pauses.
    pub fn for_test(max_attempts: u8, initial_delay_ms: u64, max_delay_ms: u64) -> (policy: Self)
        ensures
            policy == (SiemRetryPolicy { max_attempts, initial_delay_ms, max_delay_ms }),
    {
        SiemRetryPolicy { max_attempts, initial_delay_ms, max_delay_ms }
    }

    pub fn max_attempts(self) -> (n: u8)
        ensures
            n == self.max_attempts,
    {
        self.max_attempts
    }

    /// The number of attempts actually made: at least one.
    pub open spec fn effective_attempts(self) -> u8 {
        if self.max_attempts == 0 { 1 } else { self.max_attempts }
    }

    /// What follows a failed attempt number `attempt` whose pause before the
    /// next attempt would be `delay_ms`: see [`Self::after_failed_attempt`].
    pub open spec fn retry_decision(self, attempt: u8, delay_ms: u64) -> RetryDecision {
        if attempt >= self.effective_attempts() {
            RetryDecision::GiveUp
        } else {
            RetryDecision::Retry {
                pause_ms: delay_ms,
                next_attempt: (attempt + 1) as u8,
                next_delay_ms: if 2 * delay_ms > u64::MAX {
                    if u64::MAX < self.max_delay_ms { u64::MAX } else { self.max_delay_ms }
                } else if 2 * delay_ms < self.max_delay_ms {
                    (2 * delay_ms) as u64
                } else {
                    self.max_delay_ms
                },
            }
        }
    }

    /// Decides what follows a failed attempt number `attempt` (counted from 1)
    /// whose pause before the next attempt would be `delay_ms`.
    ///
    /// The last allowed attempt gives up. Otherwise the next attempt follows a
    /// pause of `delay_ms`, and the pause after it doubles (saturating), capped
    /// at the policy's maximum.
    pub fn after_failed_attempt(self, attempt: u8, delay_ms: u64) -> (decision: RetryDecision)
        ensures
            decision == self.retry_decision(attempt, delay_ms),
            attempt >= self.effective_attempts() ==> decision == RetryDecision::GiveUp,
            attempt < self.effective_attempts() ==> decision == (RetryDecision::Retry {
                pause_ms: delay_ms,
                next_attempt: (attempt + 1) as u8,
                next_delay_ms: if 2 * delay_ms > u64::MAX {
                    if u64::MAX < self.max_delay_ms { u64::MAX } else { self.max_delay_ms }
                } else if 2 * delay_ms < self.max_delay_ms {
                    (2 * delay_ms) as u64
                } else {
                    self.max_delay_ms
                },
            }),
    {
        let max_attempts = if self.max_attempts == 0 { 1 } else { self.max_attempts };
        if attempt >= max_attempts {
            return RetryDecision::GiveUp;
        }
        let doubled = if delay_ms > u64::MAX / 2 { u64::MAX } else { delay_ms * 2 };
        let next_delay_ms = if doubled < self.max_delay_ms { doubled } else { self.max_delay_ms };
        RetryDecision::Retry { pause_ms: delay_ms, next_attempt: attempt + 1, next_delay_ms }
    }
}

impl Default for SiemRetryPolicy {
    fn default() -> (policy: Self)
        ensures
            policy == (SiemRetryPolicy {
                max_attempts: DEFAULT_SIEM_RETRY_MAX_ATTEMPTS,
                initial_delay_ms: DEFAULT_SIEM_RETRY_INITIAL_DELAY_MS,
                max_delay_ms: DEFAULT_SIEM_RETRY_MAX_DELAY_MS,
            }),
    {
        Self::production_default()
    }
}

/// What follows a failed send attempt.
#[derive(Debug, Clone, Copy, PartialEq, Eq, Structural)]
pub enum RetryDecision {
    GiveUp,
    Retry { pause_ms: u64, next_attempt: u8, next_delay_ms: u64 },
}

/// Law: a send is attempted at most `effective_attempts` times, and every pause
/// after the first is at most the policy's maximum delay.
pub proof fn lemma_retry_bounded(policy: SiemRetryPolicy, attempt: u8, delay_ms: u64)
    requires
        1 <= attempt,
    ensures
        ({
            let next_delay = if 2 * delay_ms > u64::MAX {
                if u64::MAX < policy.max_delay_ms { u64::MAX } else { policy.max_delay_ms }
            } else if 2 * delay_ms < policy.max_delay_ms {
                (2 * delay_ms) as u64
            } else {
                policy.max_delay_ms
            };
            &&& next_delay <= policy.max_delay_ms
            &&& attempt < policy.effective_attempts() ==> attempt + 1 <= policy.effective_attempts()
        }),
{
}

/// Earliest representable instant, in nanoseconds from the Unix epoch.
pub const MIN_INSTANT_NANOS: i128 = -400000000000000000000;

/// Latest representable instant, in nanoseconds from the Unix epoch.
pub const MAX_INSTANT_NANOS: i128 = 400000000000000000000;

/// An instant within the representable calendar range (about ±9999 years).
pub open spec fn valid_instant(t: i128) -> bool {
    MIN_INSTANT_NANOS <= t <= MAX_INSTANT_NANOS
}

/// Largest duration, in nanoseconds, that a signed-seconds duration can hold.
pub open spec fn max_signed_duration_nanos() -> int {
    (i64::MAX as int) * 1_000_000_000 + 999_999_999
}

/// Whether the time from `since` to `now` exceeds `threshold_nanos`
/// (false when the threshold exceeds what a signed duration can hold).
pub open spec fn elapsed_beyond(since: i128, now: i128, threshold_nanos: u128) -> bool {
    threshold_nanos <= max_signed_duration_nanos() && now - since > threshold_nanos
}

/// Whether the time from `since` to `now` is at most `max_age_nanos`
/// (false when the limit exceeds what a signed duration can hold).
pub open spec fn elapsed_at_most(since: i128, now: i128, max_age_nanos: u128) -> bool {
    max_age_nanos <= max_signed_duration_nanos() && now - since <= max_age_nanos
}

/// Compares the time from `since` to `now` with `limit_nanos`: false when
/// the limit exceeds a signed duration, else whether the elapsed time
/// exceeds (`beyond`) or is at most (`!beyond`) the limit.
pub fn compare_elapsed(since: i128, now: i128, limit_nanos: u128, beyond: bool) -> (verdict: bool)
    requires
        valid_instant(since),
        valid_instant(now),
    ensures
        beyond ==> verdict == elapsed_beyond(since, now, limit_nanos),
        !beyond ==> verdict == elapsed_at_most(since, now, limit_nanos),
{
    if limit_nanos > 9223372036854775807999999999u128 {
        return false;
    }
    let elapsed = now - since;
    let limit = limit_nanos as i128;
    if beyond {
        elapsed > limit
    } else {
        elapsed <= limit
    }
}

/// Continuous-failure state of SIEM forwarding, for health checks.
#[derive(Debug, Clone, Copy)]
pub struct SiemForwarderStatus {
    failure_since: Option<i128>,
}

impl SiemForwarderStatus {
    pub closed spec fn spec_failure_since(&self) -> Option<i128> {
        self.failure_since
    }

    /// Instants held by the status are representable.
    pub open spec fn wf(&self) -> bool {
        self.spec_failure_since() matches Some(t) ==> valid_instant(t)
    }

    /// No failure recorded.
    pub fn new() -> (status: Self)
        ensures
            status.spec_failure_since() is None,
    {
        SiemForwarderStatus { failure_since: None }
    }

    /// When the current run of failures began, if forwarding is failing.
    pub fn failure_since(&self) -> (since: Option<i128>)
        ensures
            since == self.spec_failure_since(),
    {
        self.failure_since
    }

    /// Whether, at `now`, forwarding has been failing for longer than `threshold_nanos`.
    pub fn is_long_failure(&self, now: i128, threshold_nanos: u128) -> (long: bool)
        requires
            self.wf(),
            valid_instant(now),
        ensures
            long == (self.spec_failure_since() matches Some(since) && elapsed_beyond(since, now, threshold_nanos)),
    {
        match self.failure_since {
            None => false,
            Some(since) => compare_elapsed(since, now, threshold_nanos, true),
        }
    }

    /// Records a failure at `now`; the start of a run of failures is kept.
    pub fn record_failure(&mut self, now: i128)
        ensures
            final(self).spec_failure_since() == match old(self).spec_failure_since() {
                Some(since) => Some(since),
                None => Some(now),
            },
    {
        if self.failure_since.is_none() {
            self.failure_since = Some(now);
        }
    }

    /// Forgets the failure state after a success.
    pub fn clear(&mut self)
        ensures
            final(self).spec_failure_since() is None,
    {
        self.failure_since = None;
    }
}

/// Stable audit error code for a sink error: a backend code with the `siem_`
/// prefix is kept, any other backend code becomes `siem_backend_failed`, and an
/// invalid response becomes `siem_invalid_response`.
pub fn sink_error_code(error: &SiemSinkError) -> (code: String)
    ensures
        code@ == match error {
            SiemSinkError::BackendFailed { code } => if has_prefix(code@, "siem_"@) { code@ } else { "siem_backend_failed"@ },
            SiemSinkError::InvalidResponse { .. } => "siem_invalid_response"@,
        },
{
    match error {
        SiemSinkError::BackendFailed { code } => {
            if starts_with(code.as_str(), "siem_") {
                code.clone()
            } else {
                String::from_str("siem_backend_failed")
            }
        },
        SiemSinkError::InvalidResponse { .. } => String::from_str("siem_invalid_response"),
    }
}

/// What forwarding a batch of `batch_len` events starts with.
#[derive(Debug, Clone, Copy, PartialEq, Eq, Structural)]
pub enum ForwardPlan {
    /// Nothing to send: the forward counts as sent directly.
    NothingToSend,
    /// The batch is too large: it goes straight to failure handling.
    RejectOversized,
    /// The batch is sent, with retries.
    Send,
}

/// Decides how a batch of `batch_len` events is forwarded.
pub fn plan_forward(batch_len: usize) -> (plan: ForwardPlan)
    ensures
        batch_len == 0 ==> plan == ForwardPlan::NothingToSend,
        0 < batch_len <= SIEM_MAX_BATCH_SIZE ==> plan == ForwardPlan::Send,
        batch_len > SIEM_MAX_BATCH_SIZE ==> plan == ForwardPlan::RejectOversized,
{
    if batch_len == 0 {
        ForwardPlan::NothingToSend
    } else if batch_len > SIEM_MAX_BATCH_SIZE {
        ForwardPlan::RejectOversized
    } else {
        ForwardPlan::Send
    }
}

/// Outcome of a forward whose send failed with `error`, given whether the batch
/// was kept in the local buffer; the failure is recorded in `status` at `now`.
pub fn failed_forward_outcome(
    status: &mut SiemForwarderStatus,
    error: &SiemSinkError,
    buffered: bool,
    now: i128,
) -> (outcome: SiemForwardOutcome)
    ensures
        final(status).spec_failure_since() == match old(status).spec_failure_since() {
            Some(since) => Some(since),
            None => Some(now),
        },
        buffered ==> (outcome matches SiemForwardOutcome::Buffered { sink_error_code }
            && sink_error_code@ == sink_error_code_text(*error)),
        !buffered ==> (outcome matches SiemForwardOutcome::BufferingFailed { sink_error_code }
            && sink_error_code@ == sink_error_code_text(*error)),
{
    let code = sink_error_code(error);
    status.record_failure(now);
    if buffered {
        SiemForwardOutcome::Buffered { sink_error_code: code }
    } else {
        SiemForwardOutcome::BufferingFailed { sink_error_code: code }
    }
}

/// Stable audit error code for a sink error, as text.
pub open spec fn sink_error_code_text(error: SiemSinkError) -> Seq<char> {
    match error {
        SiemSinkError::BackendFailed { code } => if has_prefix(code@, "siem_"@) { code@ } else { "siem_backend_failed"@ },
        SiemSinkError::InvalidResponse { .. } => "siem_invalid_response"@,
    }
}

/// Outcome of a forward whose send succeeded; the failure state is cleared.
pub fn successful_forward_outcome(status: &mut SiemForwarderStatus) -> (outcome: SiemForwardOutcome)
    ensures
        outcome is SentDirect,
        final(status).spec_failure_since() is None,
{
    status.clear();
    SiemForwardOutcome::SentDirect
}

/// Number of `true` values among the first `n` results.
pub open spec fn count_true(results: Seq<bool>, n: int) -> int
    decreases n,
{
    if n <= 0 { 0 } else { count_true(results, n - 1) + if results[n - 1] { 1int } else { 0int } }
}

/// Summary of a resend whose batch of `attempted` events the sink accepted,
/// given whether each event was then marked sent in the buffer. When every
/// event was marked, the failure state is cleared.
pub fn resend_summary_after_send(
    status: &mut SiemForwarderStatus,
    attempted: usize,
    marked: &[bool],
) -> (summary: SiemResendSummary)
    requires
        marked@.len() == attempted,
    ensures
        summary.attempted == attempted,
        summary.sent as int == count_true(marked@, attempted as int),
        summary.failed as int == attempted - count_true(marked@, attempted as int),
        summary.failed == 0 && attempted > 0 ==> final(status).spec_failure_since() is None,
        !(summary.failed == 0 && attempted > 0) ==> final(status).spec_failure_since() == old(status).spec_failure_since(),
{
    let mut sent: usize = 0;
    let mut failed: usize = 0;
    let mut i: usize = 0;
    while i < marked.len()
        invariant
            i <= marked@.len(),
            marked@.len() == attempted,
            sent as int == count_true(marked@, i as int),
            sent + failed == i,
        decreases marked@.len() - i,
    {
        if marked[i] {
            sent = sent + 1;
        } else {
            failed = failed + 1;
        }
        i = i + 1;
    }
    if failed == 0 && attempted > 0 {
        status.clear();
    }
    SiemResendSummary { attempted, sent, failed }
}

/// Summary of a resend whose batch of `attempted` events the sink refused:
/// every event stays pending.
pub fn resend_summary_after_send_failure(attempted: usize) -> (summary: SiemResendSummary)
    ensures
        summary == (SiemResendSummary { attempted, sent: 0, failed: attempted }),
{
    SiemResendSummary { attempted, sent: 0, failed: attempted }
}

/// Where forwarding a batch stands.
pub enum ForwardStage {
    Start,
    /// Send attempt `attempt` (counted from 1) is under way; the pause before
    /// the next attempt would be `delay_ms`.
    AwaitSend { attempt: u8, delay_ms: u64 },
    /// The batch failed with `error` and is being appended to the local buffer.
    AwaitBuffering { error: SiemSinkError },
    Done,
}

/// The outcome of the outside work of the previous step.
pub enum ForwardEvent {
    /// Forwarding of a batch of `batch_len` events begins.
    Begin { batch_len: usize },
    SendFinished(Result<(), SiemSinkError>),
    /// Whether every event of the batch was appended to the buffer.
    BufferAppended(bool),
}

/// What the caller must do next.
pub enum ForwardAction {
    /// Send the batch after a pause of `pause_ms` (none when zero).
    SendBatch { pause_ms: u64 },
    /// Append every event of the batch to the local buffer as pending.
    AppendPending,
    Finish(SiemForwardOutcome),
}

pub open spec fn forward_event_fits(stage: ForwardStage, event: ForwardEvent) -> bool {
    match stage {
        ForwardStage::Start => event is Begin,
        ForwardStage::AwaitSend { .. } => event is SendFinished,
        ForwardStage::AwaitBuffering { .. } => event is BufferAppended,
        ForwardStage::Done => false,
    }
}

/// A stage reachable under `policy`: a send attempt is numbered from 1 up to
/// the policy's number of attempts.
pub open spec fn forward_stage_wf(policy: SiemRetryPolicy, stage: ForwardStage) -> bool {
    stage matches ForwardStage::AwaitSend { attempt, .. } ==> 1 <= attempt <= policy.effective_attempts()
}

/// The steps of forwarding a batch under `policy`: an empty batch counts as
/// sent; an oversized one goes straight to the buffer; otherwise the batch
/// is sent, and a failed attempt is retried after the policy's pause until
/// the last attempt. A success clears the failure state and ends as
/// `SentDirect`; a final failure records the failure at `now` and appends
/// the batch to the buffer, ending as `Buffered` or `BufferingFailed` with
/// the failure's stable code.
pub fn next_forward_step(
    policy: SiemRetryPolicy,
    status: &mut SiemForwarderStatus,
    now: i128,
    stage: ForwardStage,
    event: ForwardEvent,
) -> (step: (ForwardStage, ForwardAction))
    requires
        forward_event_fits(stage, event),
        forward_stage_wf(policy, stage),
    ensures
        forward_stage_wf(policy, step.0),
        !(event is SendFinished && event->SendFinished_0 is Ok) && !(event is BufferAppended)
            ==> final(status).spec_failure_since() == old(status).spec_failure_since(),
        stage is Start ==> match event {
            ForwardEvent::Begin { batch_len } => if batch_len == 0 {
                step.0 is Done && step.1 matches ForwardAction::Finish(SiemForwardOutcome::SentDirect)
            } else if batch_len > SIEM_MAX_BATCH_SIZE {
                (step.0 matches ForwardStage::AwaitBuffering { error: SiemSinkError::InvalidResponse { reason } }
                    && reason@ == "siem_batch_size_exceeded"@) && step.1 is AppendPending
            } else {
                step.0 == (ForwardStage::AwaitSend { attempt: 1, delay_ms: policy.initial_delay_ms })
                    && step.1 == (ForwardAction::SendBatch { pause_ms: 0 })
            },
            _ => false,
        },
        stage matches ForwardStage::AwaitSend { attempt, delay_ms } ==> match event {
            ForwardEvent::SendFinished(Ok(())) => step.0 is Done && final(status).spec_failure_since() is None
                && step.1 matches ForwardAction::Finish(SiemForwardOutcome::SentDirect),
            ForwardEvent::SendFinished(Err(e)) => match policy.retry_decision(attempt, delay_ms) {
                RetryDecision::GiveUp => step.0 == (ForwardStage::AwaitBuffering { error: e }) && step.1 is AppendPending,
                RetryDecision::Retry { pause_ms, next_attempt, next_delay_ms } => step.0 == (ForwardStage::AwaitSend {
                    attempt: next_attempt,
                    delay_ms: next_delay_ms,
                }) && step.1 == (ForwardAction::SendBatch { pause_ms }),
            },
            _ => false,
        },
        stage matches ForwardStage::AwaitBuffering { error } ==> match event {
            ForwardEvent::BufferAppended(buffered) => {
                &&& step.0 is Done
                &&& final(status).spec_failure_since() == match old(status).spec_failure_since() {
                    Some(since) => Some(since),
                    None => Some(now),
                }
                &&& buffered ==> (step.1 matches ForwardAction::Finish(SiemForwardOutcome::Buffered { sink_error_code })
                    && sink_error_code@ == sink_error_code_text(error))
                &&& !buffered ==> (step.1 matches ForwardAction::Finish(
                    SiemForwardOutcome::BufferingFailed { sink_error_code },
                ) && sink_error_code@ == sink_error_code_text(error))
            },
            _ => false,
        },
{
    match stage {
        ForwardStage::Start => match event {
            ForwardEvent::Begin { batch_len } => match plan_forward(batch_len) {
                ForwardPlan::NothingToSend => (ForwardStage::Done, ForwardAction::Finish(SiemForwardOutcome::SentDirect)),
                ForwardPlan::RejectOversized => {
                    proof { reveal_strlit("siem_batch_size_exceeded"); }
                    (
                        ForwardStage::AwaitBuffering {
                            error: SiemSinkError::InvalidResponse { reason: "siem_batch_size_exceeded" },
                        },
                        ForwardAction::AppendPending,
                    )
                },
                ForwardPlan::Send => (
                    ForwardStage::AwaitSend { attempt: 1, delay_ms: policy.initial_delay_ms },
                    ForwardAction::SendBatch { pause_ms: 0 },
                ),
            },
            _ => (ForwardStage::Done, ForwardAction::AppendPending),
        },
        ForwardStage::AwaitSend { attempt, delay_ms } => match event {
            ForwardEvent::SendFinished(Ok(())) => {
                let outcome = successful_forward_outcome(status);
                (ForwardStage::Done, ForwardAction::Finish(outcome))
            },
            ForwardEvent::SendFinished(Err(error)) => match policy.after_failed_attempt(attempt, delay_ms) {
                RetryDecision::GiveUp => (ForwardStage::AwaitBuffering { error }, ForwardAction::AppendPending),
                RetryDecision::Retry { pause_ms, next_attempt, next_delay_ms } => (
                    ForwardStage::AwaitSend { attempt: next_attempt, delay_ms: next_delay_ms },
                    ForwardAction::SendBatch { pause_ms },
                ),
            },
            _ => (ForwardStage::Done, ForwardAction::AppendPending),
        },
        ForwardStage::AwaitBuffering { error } => match event {
            ForwardEvent::BufferAppended(buffered) => {
                let outcome = failed_forward_outcome(status, &error, buffered, now);
                (ForwardStage::Done, ForwardAction::Finish(outcome))
            },
            _ => (ForwardStage::Done, ForwardAction::AppendPending),
        },
        ForwardStage::Done => (ForwardStage::Done, ForwardAction::AppendPending),
    }
}

} // verus!
