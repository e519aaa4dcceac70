//! The retry engine: the decisions around one guarded operation.
//!
//! The operation itself (a signed request, its transport, the wait between
//! two attempts) is the caller's. The engine decides. `RetryAttempt::begin`
//! asks the quota governor and admits the operation or refuses it. After
//! each invocation the caller reports the outcome: `on_success` counts the
//! call against the quota, `on_failure` either grants another attempt after
//! a wait or gives up.
//!
//! A failure classified as rate limiting waits as long as any other
//! retryable failure. A signing failure is never retried.

use crate::backoff::backoff_secs;
use crate::backoff::backoff_with_jitter;
use crate::backoff::draw_jitter;
use crate::backoff::exponential_delay;
use crate::backoff::MAX_JITTER;
use crate::clock::utc_now;
use crate::clock::CalendarMonth;
use crate::rate_limiter::QuotaExceeded;
use crate::rate_limiter::QuotaKind;
use crate::rate_limiter::QuotaState;
use crate::rate_limiter::RateLimiter;
use vstd::prelude::*;

verus! {

/// What went wrong in one invocation, as far as the engine needs to know.
#[derive(Clone, Copy, Debug, PartialEq, Eq, Structural)]
pub enum FailureKind {
    /// The service answered that its own rate limit was hit.
    RateLimited,
    /// Any other failure of the transport or of reading the answer.
    Transient,
    /// The request could not be signed: a matter of configuration.
    Signing,
}

impl FailureKind {
    /// Whether another attempt can help.
    pub open spec fn retryable(self) -> bool {
        self != FailureKind::Signing
    }

    /// Whether another attempt can help.
    pub fn is_retryable(&self) -> (yes: bool)
        ensures
            yes == self.retryable(),
    {
        match self {
            FailureKind::Signing => false,
            _ => true,
        }
    }
}

/// Whether the rate-limit mark, the digits `429`, stands in `message` at
/// position `at`.
pub open spec fn rate_limit_mark_at(message: Seq<char>, at: int) -> bool {
    &&& 0 <= at
    &&& at + 3 <= message.len()
    &&& message[at] == '4'
    &&& message[at + 1] == '2'
    &&& message[at + 2] == '9'
}

/// Whether `message` carries the rate-limit mark anywhere.
pub open spec fn mentions_rate_limit(message: Seq<char>) -> bool {
    exists|at: int| rate_limit_mark_at(message, at)
}

/// The kind of a failure of the transport, told from the text of its error:
/// rate limiting where the text carries the status 429, transient
/// otherwise.
pub fn classify_error(message: &str) -> (kind: FailureKind)
    ensures
        kind == if mentions_rate_limit(message@) {
            FailureKind::RateLimited
        } else {
            FailureKind::Transient
        },
{
    // `matched` is the number of leading digits of the mark that end at the
    // position read so far.
    let mut matched: u8 = 0;
    let mut found = false;
    for c in it: message.chars()
        invariant
            it.seq() == message@,
            found <==> exists|at: int| rate_limit_mark_at(message@, at) && at + 3 <= it.index(),
            matched <= 2,
            matched == 2 <==> it.index() >= 2 && message@[it.index() - 2] == '4'
                && message@[it.index() - 1] == '2',
            matched == 1 <==> it.index() >= 1 && message@[it.index() - 1] == '4',
    {
        if matched == 2 && c == '9' {
            assert(rate_limit_mark_at(message@, it.index() - 2));
            found = true;
        }
        if c == '4' {
            matched = 1;
        } else if matched == 1 && c == '2' {
            matched = 2;
        } else {
            matched = 0;
        }
    }
    if found {
        FailureKind::RateLimited
    } else {
        FailureKind::Transient
    }
}

/// Why a guarded operation ended without a result. `E` is the caller's own
/// error type.
#[derive(Debug)]
pub enum RetryError<E> {
    /// The quota governor refused the operation before it was invoked.
    QuotaExceeded(QuotaExceeded),
    /// The request could not be signed; the operation was not retried.
    Signing(E),
    /// The attempt budget is spent. `last_error` is the error of the last
    /// invocation, or `None` where the budget allowed no invocation at all.
    MaxRetriesExceeded { attempts: u32, last_error: Option<E> },
}

/// The mathematical state of one guarded operation.
pub struct AttemptView {
    /// The number of the invocation now due, counted from 0: as many
    /// invocations have been made and have failed.
    pub attempt_number: nat,
    pub max_attempts: nat,
    pub kind: QuotaKind,
    pub last_error: Option<FailureKind>,
}

impl AttemptView {
    /// The state in which the first invocation is due.
    pub open spec fn fresh(max_attempts: nat, kind: QuotaKind) -> AttemptView {
        AttemptView { attempt_number: 0, max_attempts, kind, last_error: None }
    }

    /// An invocation is due only within the budget.
    pub open spec fn wf(self) -> bool {
        self.attempt_number < self.max_attempts
    }

    /// Whether the invocation now due is the last that the budget allows.
    pub open spec fn is_last(self) -> bool {
        self.attempt_number + 1 == self.max_attempts
    }

    /// The state after the invocation now due has failed with `failure` and
    /// another has been granted.
    pub open spec fn after_failure(self, failure: FailureKind) -> AttemptView {
        AttemptView {
            attempt_number: self.attempt_number + 1,
            last_error: Some(failure),
            ..self
        }
    }

    /// The state after the failures `failures`, in that order, each followed
    /// by another attempt.
    pub open spec fn after_failures(self, failures: Seq<FailureKind>) -> AttemptView
        decreases failures.len(),
    {
        if failures.len() == 0 {
            self
        } else {
            self.after_failures(failures.drop_last()).after_failure(failures.last())
        }
    }
}

/// What the quota governor and the budget say to an operation of `kind`
/// with `max_attempts` attempts, the governor being in state `quota`: `None`
/// where it is admitted. The read side is asked first, the write side only
/// for a write, the budget last.
pub open spec fn refusal<E>(quota: QuotaState, kind: QuotaKind, max_attempts: nat) -> Option<
    RetryError<E>,
> {
    if quota.read_gate() is Err {
        Some(RetryError::QuotaExceeded(QuotaExceeded { kind: QuotaKind::Read }))
    } else if kind == QuotaKind::Write && quota.write_gate() is Err {
        Some(RetryError::QuotaExceeded(QuotaExceeded { kind: QuotaKind::Write }))
    } else if max_attempts == 0 {
        Some(RetryError::MaxRetriesExceeded { attempts: 0, last_error: None })
    } else {
        None
    }
}

/// The count on the side `kind` of the quota.
pub open spec fn count_of(quota: QuotaState, kind: QuotaKind) -> nat {
    match kind {
        QuotaKind::Read => quota.read_count,
        QuotaKind::Write => quota.write_count,
    }
}

/// The state of the quota after a successful operation of `kind`.
pub open spec fn counted(quota: QuotaState, kind: QuotaKind) -> QuotaState {
    match kind {
        QuotaKind::Read => quota.after_reads(1),
        QuotaKind::Write => quota.after_writes(1),
    }
}

/// One guarded operation between two invocations. It exists from the
/// admission of the operation to its success or its last failure, and it
/// cannot be copied: reporting an outcome uses it up, so that one admission
/// is reported once.
#[derive(Debug)]
pub struct RetryAttempt {
    attempt_number: u32,
    max_attempts: u32,
    kind: QuotaKind,
    last_error: Option<FailureKind>,
}

/// What follows a failed invocation.
#[derive(Debug)]
pub enum RetryStep<E> {
    /// Wait `delay_secs` seconds, then invoke the operation again and
    /// report to `next`.
    Retry { next: RetryAttempt, delay_secs: u64 },
    /// Do not invoke the operation again.
    GiveUp(RetryError<E>),
}

impl View for RetryAttempt {
    type V = AttemptView;

    closed spec fn view(&self) -> AttemptView {
        AttemptView {
            attempt_number: self.attempt_number as nat,
            max_attempts: self.max_attempts as nat,
            kind: self.kind,
            last_error: self.last_error,
        }
    }
}

impl RetryAttempt {
    #[verifier::type_invariant]
    spec fn within_budget(self) -> bool {
        self.attempt_number < self.max_attempts
    }

    /// Admission, at the month `now`. The governor's gate runs first, with
    /// the month rollover it may bring; its refusal ends the operation at
    /// once. A write is then held against the write ceiling. A budget of no
    /// attempts is refused last. Otherwise the first invocation is due.
    pub fn begin_at<E>(
        limiter: &mut RateLimiter,
        kind: QuotaKind,
        max_attempts: u32,
        now: CalendarMonth,
    ) -> (admitted: Result<RetryAttempt, RetryError<E>>)
        ensures
            final(limiter)@ == old(limiter)@.rolled_over(now),
            match admitted {
                Ok(attempt) => refusal::<E>(final(limiter)@, kind, max_attempts as nat) is None
                    && attempt@ == AttemptView::fresh(max_attempts as nat, kind),
                Err(e) => refusal::<E>(final(limiter)@, kind, max_attempts as nat) == Some(e),
            },
    {
        match limiter.check_and_update_limits_at(now) {
            Err(exceeded) => {
                return Err(RetryError::QuotaExceeded(exceeded));
            },
            Ok(()) => {},
        }
        match kind {
            QuotaKind::Write => {
                match limiter.check_write_limit() {
                    Err(exceeded) => {
                        return Err(RetryError::QuotaExceeded(exceeded));
                    },
                    Ok(()) => {},
                }
            },
            QuotaKind::Read => {},
        }
        if max_attempts == 0 {
            return Err(RetryError::MaxRetriesExceeded { attempts: 0, last_error: None });
        }
        Ok(RetryAttempt { attempt_number: 0, max_attempts, kind, last_error: None })
    }

    /// Admission, at the month that the system clock shows. Whatever that
    /// month is, the governor is rolled over to it and the answer is the one
    /// `begin_at` gives for it.
    pub fn begin<E>(limiter: &mut RateLimiter, kind: QuotaKind, max_attempts: u32) -> (admitted:
        Result<RetryAttempt, RetryError<E>>)
        ensures
            exists|now: CalendarMonth| #[trigger]
                old(limiter)@.rolled_over(now) == final(limiter)@ && 1 <= now.month <= 12,
            match admitted {
                Ok(attempt) => refusal::<E>(final(limiter)@, kind, max_attempts as nat) is None
                    && attempt@ == AttemptView::fresh(max_attempts as nat, kind),
                Err(e) => refusal::<E>(final(limiter)@, kind, max_attempts as nat) == Some(e),
            },
    {
        let now = utc_now();
        let admitted = Self::begin_at(limiter, kind, max_attempts, now.month);
        assert(old(limiter)@.rolled_over(now.month) == limiter@ && 1 <= now.month.month <= 12);
        admitted
    }

    /// The number of the invocation now due, counted from 0.
    pub fn attempt_number(&self) -> (n: u32)
        ensures
            n == self@.attempt_number,
            self@.wf(),
    {
        proof {
            use_type_invariant(self);
        }
        self.attempt_number
    }

    /// The budget of invocations.
    pub fn max_attempts(&self) -> (n: u32)
        ensures
            n == self@.max_attempts,
    {
        self.max_attempts
    }

    /// The side of the quota that a success is counted against.
    pub fn kind(&self) -> (kind: QuotaKind)
        ensures
            kind == self@.kind,
    {
        self.kind
    }

    /// The kind of the failure that came before this attempt, if any.
    pub fn last_error(&self) -> (last: Option<FailureKind>)
        ensures
            last == self@.last_error,
    {
        self.last_error
    }

    /// The invocation now due has succeeded: the call is counted against
    /// its side of the quota.
    pub fn on_success(self, limiter: &mut RateLimiter)
        requires
            count_of(old(limiter)@, self@.kind) < u32::MAX,
        ensures
            final(limiter)@ == counted(old(limiter)@, self@.kind),
    {
        match self.kind {
            QuotaKind::Read => limiter.increment_read(),
            QuotaKind::Write => limiter.increment_write(),
        }
    }

    /// The invocation now due has succeeded: the call is counted against
    /// its side of the quota, unless that count stands at the largest
    /// number it can hold, where it is left. Says whether it was counted.
    pub fn record_success(self, limiter: &mut RateLimiter) -> (was_counted: bool)
        ensures
            was_counted == (count_of(old(limiter)@, self@.kind) < u32::MAX),
            was_counted ==> final(limiter)@ == counted(old(limiter)@, self@.kind),
            !was_counted ==> final(limiter)@ == old(limiter)@,
    {
        let count = match self.kind {
            QuotaKind::Read => limiter.read_count(),
            QuotaKind::Write => limiter.write_count(),
        };
        if count < u32::MAX {
            self.on_success(limiter);
            true
        } else {
            false
        }
    }

    /// The invocation now due has failed with `error`, classified as
    /// `failure`, and the jitter drawn for the wait is `jitter`.
    ///
    /// A signing failure ends the operation with that error. Any other
    /// failure of the last invocation in the budget ends it with
    /// `MaxRetriesExceeded`, which carries the error and the number of
    /// invocations made. Any other failure before that grants the next
    /// invocation, after the backoff for the attempt that failed.
    pub fn on_failure_with_jitter<E>(self, failure: FailureKind, error: E, jitter: u64) -> (step:
        RetryStep<E>)
        requires
            jitter <= MAX_JITTER,
        ensures
            step is Retry <==> failure.retryable() && !self@.is_last(),
            step matches RetryStep::Retry { next, delay_secs } ==> next@ == self@.after_failure(
                failure,
            ) && next@.wf() && delay_secs == backoff_secs(self@.attempt_number, jitter as nat),
            !failure.retryable() ==> step == RetryStep::GiveUp(RetryError::Signing(error)),
            failure.retryable() && self@.is_last() ==> step == RetryStep::GiveUp(
                RetryError::MaxRetriesExceeded {
                    attempts: self@.max_attempts as u32,
                    last_error: Some(error),
                },
            ),
    {
        proof {
            use_type_invariant(&self);
        }
        if !failure.is_retryable() {
            return RetryStep::GiveUp(RetryError::Signing(error));
        }
        if self.attempt_number == self.max_attempts - 1 {
            return RetryStep::GiveUp(
                RetryError::MaxRetriesExceeded {
                    attempts: self.max_attempts,
                    last_error: Some(error),
                },
            );
        }
        let delay_secs = backoff_with_jitter(self.attempt_number, jitter);
        let next = RetryAttempt {
            attempt_number: self.attempt_number + 1,
            max_attempts: self.max_attempts,
            kind: self.kind,
            last_error: Some(failure),
        };
        RetryStep::Retry { next, delay_secs }
    }

    /// The invocation now due has failed with `error`, classified as
    /// `failure`. As `on_failure_with_jitter`, with a jitter of at most
    /// `MAX_JITTER` seconds drawn here.
    pub fn on_failure<E>(self, failure: FailureKind, error: E) -> (step: RetryStep<E>)
        ensures
            step is Retry <==> failure.retryable() && !self@.is_last(),
            step matches RetryStep::Retry { next, delay_secs } ==> next@ == self@.after_failure(
                failure,
            ) && next@.wf() && exponential_delay(self@.attempt_number) <= delay_secs
                <= exponential_delay(self@.attempt_number) + MAX_JITTER,
            !failure.retryable() ==> step == RetryStep::GiveUp(RetryError::Signing(error)),
            failure.retryable() && self@.is_last() ==> step == RetryStep::GiveUp(
                RetryError::MaxRetriesExceeded {
                    attempts: self@.max_attempts as u32,
                    last_error: Some(error),
                },
            ),
    {
        self.on_failure_with_jitter(failure, error, draw_jitter())
    }
}

/// The attempt budget. An operation admitted with a budget of `max_attempts`
/// that keeps failing with retryable failures is invoked exactly
/// `max_attempts` times: after `k` failures, `k` below the budget,
/// invocation number `k` is due and within the budget, and it is the last
/// one exactly when `k` is `max_attempts - 1`, where a further failure ends
/// the operation. A budget of zero admits no invocation.
pub proof fn lemma_attempt_budget(max_attempts: nat, kind: QuotaKind, failures: Seq<FailureKind>)
    requires
        failures.len() < max_attempts,
    ensures
        AttemptView::fresh(max_attempts, kind).after_failures(failures).attempt_number
            == failures.len(),
        AttemptView::fresh(max_attempts, kind).after_failures(failures).max_attempts
            == max_attempts,
        AttemptView::fresh(max_attempts, kind).after_failures(failures).kind == kind,
        AttemptView::fresh(max_attempts, kind).after_failures(failures).wf(),
        AttemptView::fresh(max_attempts, kind).after_failures(failures).is_last()
            <==> failures.len() + 1 == max_attempts,
    decreases failures.len(),
{
    if failures.len() > 0 {
        lemma_attempt_budget(max_attempts, kind, failures.drop_last());
    }
}

/// The quota is never exceeded through the engine. From a state within its
/// ceilings, whatever the month of the check, the success of an operation
/// that was let through leaves both counts within their ceilings; and a
/// failure leaves the quota as it was, since it is never handed to
/// `on_failure`.
pub proof fn lemma_quota_not_exceeded<E>(
    quota: QuotaState,
    now: CalendarMonth,
    kind: QuotaKind,
    max_attempts: nat,
)
    requires
        quota.within_ceilings(),
        refusal::<E>(quota.rolled_over(now), kind, max_attempts) is None,
    ensures
        quota.rolled_over(now).within_ceilings(),
        counted(quota.rolled_over(now), kind).within_ceilings(),
        count_of(quota.rolled_over(now), kind) < match kind {
            QuotaKind::Read => quota.read_ceiling,
            QuotaKind::Write => quota.write_ceiling,
        },
{
}

/// No budget, no invocation: whatever the quota, a budget of zero is
/// refused.
pub proof fn lemma_zero_budget_refused<E>(quota: QuotaState, kind: QuotaKind)
    ensures
        refusal::<E>(quota, kind, 0) is Some,
        quota.read_gate() is Ok && (kind == QuotaKind::Write ==> quota.write_gate() is Ok)
            ==> refusal::<E>(quota, kind, 0) == Some(
            RetryError::<E>::MaxRetriesExceeded { attempts: 0, last_error: None },
        ),
{
}

} // verus!
