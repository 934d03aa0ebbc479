use vstd::prelude::*;
use vstd::arithmetic::power2::pow2;

use super::service::TimestampingServiceError;

verus! {

/// Retry and fallback policy across the configured time-stamping authorities.
#[derive(Debug, Clone, Copy, PartialEq, Eq, Structural)]
pub struct TimestampingRetryPolicy {
    /// Attempts per TSA URL.
    pub max_attempts_per_url: u32,
    /// Initial delay of the exponential backoff, in nanoseconds.
    pub base_delay_nanos: u128,
    /// Cap on the total time across all URLs and attempts, in nanoseconds.
    pub max_total_nanos: u128,
}

impl Default for TimestampingRetryPolicy {
    /// Three attempts per URL, a two-second base delay and ten minutes in all.
    fn default() -> (policy: Self)
        ensures
            policy.max_attempts_per_url == 3,
            policy.base_delay_nanos == 2_000_000_000,
            policy.max_total_nanos == 600_000_000_000,
    {
        TimestampingRetryPolicy {
            max_attempts_per_url: 3,
            base_delay_nanos: 2_000_000_000,
            max_total_nanos: 600_000_000_000,
        }
    }
}

/// Tries the backends one after the other (never in parallel), each with
/// exponential backoff, until one issues a token.
#[derive(Debug)]
pub struct RetryingTimestampingService<S> {
    backends: Vec<S>,
    policy: TimestampingRetryPolicy,
}

impl<S> RetryingTimestampingService<S> {
    pub closed spec fn spec_backends(&self) -> Seq<S> {
        self.backends@
    }

    pub closed spec fn spec_policy(&self) -> TimestampingRetryPolicy {
        self.policy
    }

    /// `backends` are in fallback order, the first preferred.
    pub fn new(backends: Vec<S>, policy: TimestampingRetryPolicy) -> (service: Self)
        ensures
            service.spec_backends() == backends@,
            service.spec_policy() == policy,
    {
        RetryingTimestampingService { backends, policy }
    }

    /// Number of backends, one per configured TSA URL.
    pub fn backend_count(&self) -> (count: usize)
        ensures
            count == self.spec_backends().len(),
    {
        self.backends.len()
    }

    /// The backend at `index` in fallback order.
    pub fn backend(&self, index: usize) -> (backend: Option<&S>)
        ensures
            index < self.spec_backends().len() ==> backend == Some(&self.spec_backends()[index as int]),
            index >= self.spec_backends().len() ==> backend is None,
    {
        if index < self.backends.len() {
            Some(&self.backends[index])
        } else {
            None
        }
    }

    pub fn policy(&self) -> (policy: TimestampingRetryPolicy)
        ensures
            policy == self.spec_policy(),
    {
        self.policy
    }
}

/// The backoff multiplier `2^attempt`, saturated to `u64::MAX` once the
/// shift leaves the 64-bit range.
pub open spec fn backoff_multiplier(attempt: u32) -> int {
    if attempt < 64 {
        pow2(attempt as nat) as int
    } else {
        u64::MAX as int
    }
}

/// The delay before the retry after `attempt` (counted from 0):
/// `base * 2^attempt` nanoseconds, saturated to `u64::MAX`.
pub open spec fn backoff_nanos(base_nanos: u128, attempt: u32) -> int {
    if base_nanos > u64::MAX {
        u64::MAX as int
    } else if base_nanos * backoff_multiplier(attempt) > u64::MAX {
        u64::MAX as int
    } else {
        base_nanos * backoff_multiplier(attempt)
    }
}

/// The backoff delay, never longer than the time left before the deadline.
pub open spec fn capped_backoff_nanos(base_nanos: u128, attempt: u32, remaining_nanos: u128) -> int {
    if backoff_nanos(base_nanos, attempt) <= remaining_nanos {
        backoff_nanos(base_nanos, attempt)
    } else {
        remaining_nanos as int
    }
}

/// `base * 2^attempt` nanoseconds, saturating on overflow.
pub fn backoff_delay(base_nanos: u128, attempt: u32) -> (delay_nanos: u64)
    ensures
        delay_nanos == backoff_nanos(base_nanos, attempt),
{
    let multiplier: u64 = if attempt < 64 {
        proof {
            vstd::bits::lemma_u64_pow2_no_overflow(attempt as nat);
            vstd::bits::lemma_u64_shl_is_mul(1, attempt as u64);
        }
        1u64 << (attempt as u64)
    } else {
        u64::MAX
    };
    if base_nanos > 18446744073709551615u128 {
        return u64::MAX;
    }
    let base = base_nanos as u64;
    match base.checked_mul(multiplier) {
        Some(nanos) => nanos,
        None => u64::MAX,
    }
}

/// Where a timestamp request stands: the backend and attempt to try next,
/// and the last error seen.
#[derive(Debug)]
pub struct RetryCursor {
    pub tsa_index: usize,
    pub attempt: u32,
    pub last_error: Option<TimestampingServiceError>,
}

/// What to do next with a timestamp request.
#[derive(Debug)]
pub enum RetryDecision {
    /// Send attempt `attempt` to backend `tsa_index`.
    Request { tsa_index: usize, attempt: u32 },
    /// Stop with this error.
    GiveUp(TimestampingServiceError),
}

/// The cursor after a failed attempt, and how long to sleep before the next
/// one (`None` when moving on to the next backend at once).
#[derive(Debug)]
pub struct RetryAfterFailure {
    pub cursor: RetryCursor,
    pub sleep_nanos: Option<u64>,
}

/// Position of a cursor in the sequence of all attempts.
pub open spec fn retry_rank(cursor: RetryCursor, max_attempts: u32) -> int {
    cursor.tsa_index * max_attempts + cursor.attempt
}

pub open spec fn backend_failed_with(error: TimestampingServiceError, code: Seq<char>) -> bool {
    error matches TimestampingServiceError::BackendFailed { code: c } && c@ == code
}

/// The error reported when the request stops: the last backend error, or
/// `fallback_code` when no attempt was made.
pub open spec fn final_error(
    last_error: Option<TimestampingServiceError>,
    error: TimestampingServiceError,
    fallback_code: Seq<char>,
) -> bool {
    match last_error {
        Some(last) => error == last,
        None => backend_failed_with(error, fallback_code),
    }
}

fn last_error_or(last_error: &Option<TimestampingServiceError>, fallback_code: &str) -> (error: TimestampingServiceError)
    ensures
        final_error(*last_error, error, fallback_code@),
{
    match last_error {
        Some(error) => error.duplicate(),
        None => TimestampingServiceError::BackendFailed { code: fallback_code.to_string() },
    }
}

/// Starts a request over `backend_count` backends; with none configured the
/// request fails at once.
pub fn start_retry(backend_count: usize) -> (cursor: Result<RetryCursor, TimestampingServiceError>)
    ensures
        backend_count == 0 ==> (cursor matches Err(e) && backend_failed_with(
            e,
            "rfc3161_no_tsa_url_configured"@,
        )),
        backend_count > 0 ==> (cursor matches Ok(c) && c.tsa_index == 0 && c.attempt == 0
            && c.last_error is None),
{
    if backend_count == 0 {
        return Err(
            TimestampingServiceError::BackendFailed {
                code: "rfc3161_no_tsa_url_configured".to_string(),
            },
        );
    }
    Ok(RetryCursor { tsa_index: 0, attempt: 0, last_error: None })
}

/// Decides the next step: give up once every backend has had its attempts
/// (or none are allowed), give up when the deadline has passed, else send
/// the attempt the cursor points at.
pub fn decide_next(
    cursor: &RetryCursor,
    backend_count: usize,
    max_attempts: u32,
    deadline_passed: bool,
) -> (decision: RetryDecision)
    ensures
        (cursor.tsa_index >= backend_count || max_attempts == 0) ==> (decision matches RetryDecision::GiveUp(
            e,
        ) && final_error(cursor.last_error, e, "rfc3161_all_tsa_failed"@)),
        (cursor.tsa_index < backend_count && max_attempts > 0 && deadline_passed) ==> (
        decision matches RetryDecision::GiveUp(e) && final_error(
            cursor.last_error,
            e,
            "rfc3161_retry_deadline_exceeded"@,
        )),
        (cursor.tsa_index < backend_count && max_attempts > 0 && !deadline_passed) ==> decision
            == (RetryDecision::Request { tsa_index: cursor.tsa_index, attempt: cursor.attempt }),
{
    if cursor.tsa_index >= backend_count || max_attempts == 0 {
        return RetryDecision::GiveUp(last_error_or(&cursor.last_error, "rfc3161_all_tsa_failed"));
    }
    if deadline_passed {
        return RetryDecision::GiveUp(
            last_error_or(&cursor.last_error, "rfc3161_retry_deadline_exceeded"),
        );
    }
    RetryDecision::Request { tsa_index: cursor.tsa_index, attempt: cursor.attempt }
}

/// Records a failed attempt: retry the same backend after the backoff delay
/// (never longer than the time left), or move on to the next backend when
/// its attempts are used up or no time is left.
pub fn after_failure(
    cursor: RetryCursor,
    error: TimestampingServiceError,
    max_attempts: u32,
    remaining_nanos: u128,
    base_delay_nanos: u128,
) -> (next: RetryAfterFailure)
    requires
        cursor.attempt < max_attempts,
        cursor.tsa_index < usize::MAX,
    ensures
        next.cursor.last_error == Some(error),
        retry_rank(next.cursor, max_attempts) > retry_rank(cursor, max_attempts),
        next.cursor.attempt < max_attempts,
        (cursor.attempt + 1 >= max_attempts || remaining_nanos == 0) ==> (next.cursor.tsa_index
            == cursor.tsa_index + 1 && next.cursor.attempt == 0 && next.sleep_nanos is None),
        (cursor.attempt + 1 < max_attempts && remaining_nanos > 0) ==> (next.cursor.tsa_index
            == cursor.tsa_index && next.cursor.attempt == cursor.attempt + 1 && next.sleep_nanos
            == Some(capped_backoff_nanos(base_delay_nanos, cursor.attempt, remaining_nanos) as u64)),
{
    let is_last_attempt = cursor.attempt + 1 >= max_attempts;
    if is_last_attempt || remaining_nanos == 0 {
        let next_cursor = RetryCursor {
            tsa_index: cursor.tsa_index + 1,
            attempt: 0,
            last_error: Some(error),
        };
        assert(retry_rank(next_cursor, max_attempts) > retry_rank(cursor, max_attempts)) by (nonlinear_arith)
            requires
                next_cursor.tsa_index == cursor.tsa_index + 1,
                next_cursor.attempt == 0,
                cursor.attempt < max_attempts,
        ;
        return RetryAfterFailure { cursor: next_cursor, sleep_nanos: None };
    }
    let delay = backoff_delay(base_delay_nanos, cursor.attempt);
    let sleep: u64 = if (delay as u128) <= remaining_nanos {
        delay
    } else {
        remaining_nanos as u64
    };
    RetryAfterFailure {
        cursor: RetryCursor {
            tsa_index: cursor.tsa_index,
            attempt: cursor.attempt + 1,
            last_error: Some(error),
        },
        sleep_nanos: Some(sleep),
    }
}

/// A request is sent only for a cursor inside the grid of backends and
/// attempts, and each failure moves the cursor strictly forward, so a
/// request makes at most `backend_count * max_attempts` attempts.
pub proof fn lemma_attempts_bounded(cursor: RetryCursor, backend_count: usize, max_attempts: u32)
    requires
        cursor.tsa_index < backend_count,
        cursor.attempt < max_attempts,
    ensures
        0 <= retry_rank(cursor, max_attempts) < backend_count * max_attempts,
{
    assert(0 <= retry_rank(cursor, max_attempts) < backend_count * max_attempts) by (nonlinear_arith)
        requires
            cursor.tsa_index < backend_count,
            cursor.attempt < max_attempts,
            retry_rank(cursor, max_attempts) == cursor.tsa_index * max_attempts + cursor.attempt,
    ;
}

} // verus!
