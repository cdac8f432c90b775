//! Retrying of an operation that offers its attempts one after the other.
use crate::backoff::{RetryDurations, ScheduleView};
use crate::codes::{covers, is_covered, Code, ErrorCode};
use crate::config::{Retry, RetryView};
use crate::duration::{Duration, MAX_NANOS};
use crate::error::{
    ended_abruptly, ended_abruptly_text, on_attempt, on_attempt_text, result_view, Error, ErrorView,
};
use crate::step::{ProgressView, Step, Verdict};
use std::sync::Arc;
use vstd::prelude::*;

verus! {

/// The number of the last attempt that can be counted.
pub const MAX_ATTEMPT: u32 = 2_147_483_647;

/// What one attempt of an operation came to.
#[derive(Debug, PartialEq, Eq)]
pub enum RetryResult<T> {
    /// The operation succeeded.
    Success(T),
    /// The attempt failed, and another one may succeed.
    Retry(Error),
    /// The operation failed for good.
    Failure(Error),
}

/// A class used to retry a job with a sleep function in between each retry.
pub struct Retrier<S, J> {
    sleep_fn: Arc<S>,
    jitter_fn: Arc<J>,
    config: Retry,
}

/// How far a retry loop has come.
pub struct RetryProgress<'a, J> {
    durations: RetryDurations<'a, J>,
    attempt: u32,
}

impl<'a, J> View for RetryProgress<'a, J> {
    type V = ProgressView;

    open spec fn view(&self) -> ProgressView {
        ProgressView { schedule: self.durations()@, attempt: self.attempts_made() }
    }
}

impl<'a, J> RetryProgress<'a, J> {
    /// The pauses that are left.
    pub closed spec fn durations(self) -> RetryDurations<'a, J> {
        self.durations
    }

    /// The attempts made.
    pub closed spec fn attempts_made(self) -> nat {
        self.attempt as nat
    }

    /// The attempts made.
    pub fn attempt(&self) -> (attempt: u32)
        ensures
            attempt == self@.attempt,
    {
        self.attempt
    }
}

/// Whether an error with this status is temporary where no configuration says
/// otherwise.
pub open spec fn is_temporary(code: Code) -> bool {
    !(code is InvalidArgument || code is FailedPrecondition || code is OutOfRange
        || code is Unimplemented || code is NotFound || code is AlreadyExists
        || code is PermissionDenied || code is Unauthenticated)
}

/// Whether an attempt that failed with this status is worth another one: never
/// after a success, else by the listed error codes, and where none are listed if
/// the status is temporary.
pub open spec fn retries(listed: Option<Seq<ErrorCode>>, code: Code) -> bool {
    &&& code !is Success
    &&& match listed {
        Some(codes) => covers(codes, code),
        None => is_temporary(code),
    }
}

/// What the loop decides on what the next attempt came to. `None` says that the
/// operation offers no more attempts.
pub open spec fn verdict<T>(
    config: RetryView,
    progress: ProgressView,
    polled: Option<RetryResult<T>>,
) -> Verdict<T> {
    let attempt = progress.attempt + 1;
    match polled {
        None => Verdict::Return(
            Err(ErrorView::new(Code::Internal, ended_abruptly_text(attempt))),
        ),
        Some(RetryResult::Success(value)) => Verdict::Return(Ok(value)),
        Some(RetryResult::Failure(error)) => Verdict::Return(
            Err(error@.append(on_attempt_text(attempt))),
        ),
        Some(RetryResult::Retry(error)) => if !retries(config.retry_on_errors, error.code) {
            Verdict::Return(Err(error@))
        } else if progress.schedule.remaining == 0 {
            Verdict::Return(Err(error@.append(on_attempt_text(attempt))))
        } else {
            Verdict::Wait(progress.schedule.next_delay())
        },
    }
}

/// Whether the attempt can be counted and the delay that it may call for is
/// within the range of [`Duration`].
pub open spec fn has_room<T>(
    config: RetryView,
    progress: ProgressView,
    polled: Option<RetryResult<T>>,
) -> bool {
    &&& progress.attempt < MAX_ATTEMPT
    &&& verdict(config, progress, polled) matches Verdict::Wait(delay) ==> delay <= MAX_NANOS
}

impl<S, J> Retrier<S, J> {
    /// The function that waits.
    pub closed spec fn sleep_fn(self) -> S {
        *self.sleep_fn
    }

    /// The function that varies the pauses.
    pub closed spec fn jitter_fn(self) -> J {
        *self.jitter_fn
    }

    /// The configuration.
    pub closed spec fn config(self) -> RetryView {
        self.config@
    }

    /// A retrier that waits with `sleep_fn`, for pauses varied by `jitter_fn`.
    pub fn new(sleep_fn: Arc<S>, jitter_fn: Arc<J>, config: Retry) -> (retrier: Self)
        ensures
            retrier.sleep_fn() == *sleep_fn,
            retrier.jitter_fn() == *jitter_fn,
            retrier.config() == config@,
    {
        Retrier { sleep_fn, jitter_fn, config }
    }

    /// Returns true only if the error code should be interpreted as temporary.
    pub fn should_retry(&self, code: &Code) -> (retry: bool)
        ensures
            retry == retries(self.config().retry_on_errors, *code),
    {
        if *code == Code::Success {
            false
        } else if let Some(retry_codes) = &self.config.retry_on_errors {
            is_covered(retry_codes, code)
        } else {
            match code {
                Code::InvalidArgument => false,
                Code::FailedPrecondition => false,
                Code::OutOfRange => false,
                Code::Unimplemented => false,
                Code::NotFound => false,
                Code::AlreadyExists => false,
                Code::PermissionDenied => false,
                Code::Unauthenticated => false,
                Code::Cancelled => true,
                Code::Unknown => true,
                Code::DeadlineExceeded => true,
                Code::ResourceExhausted => true,
                Code::Aborted => true,
                Code::Internal => true,
                Code::Unavailable => true,
                Code::DataLoss => true,
                _ => true,
            }
        }
    }

    /// The pauses between the attempts. There is one for each retry, so an
    /// operation is attempted once more than that.
    pub fn get_retry_config(&self) -> (durations: RetryDurations<'_, J>)
        ensures
            durations@ == ScheduleView::start(self.config()),
            durations.jitter_fn() == self.jitter_fn(),
    {
        RetryDurations::new(&self.config, &*self.jitter_fn)
    }

    /// The state of a retry loop before its first attempt.
    pub fn start(&self) -> (progress: RetryProgress<'_, J>)
        ensures
            progress@ == ProgressView::start(self.config()),
            progress.durations().jitter_fn() == self.jitter_fn(),
    {
        RetryProgress { durations: self.get_retry_config(), attempt: 0 }
    }

    /// Whether [`Retrier::retry`] can take this step: the attempt can be counted
    /// and the delay that it may call for is within the range of [`Duration`].
    pub fn has_room<T>(
        &self,
        progress: &RetryProgress<'_, J>,
        polled: &Option<RetryResult<T>>,
    ) -> (room: bool)
        ensures
            room == has_room(self.config(), progress@, *polled),
    {
        progress.attempt < MAX_ATTEMPT && match polled {
            Some(RetryResult::Retry(error)) => !self.should_retry(&error.code)
                || progress.durations.has_room(),
            _ => true,
        }
    }
}

impl<S, J, Fut> Retrier<S, J> where S: Fn(Duration) -> Fut, J: Fn(Duration) -> Duration {
    /// Whether `wait` may be the wait for the next pause.
    pub open spec fn may_sleep(self, durations: RetryDurations<'_, J>, wait: Fut) -> bool {
        exists|pause: Duration|
            durations.may_pause(pause) && #[trigger] call_ensures(self.sleep_fn(), (pause,), wait)
    }

    /// One round of the retry loop: takes what the next attempt came to, or `None`
    /// where the operation offers no more attempts, and says what to do.
    pub fn retry<T>(
        &self,
        progress: &mut RetryProgress<'_, J>,
        polled: Option<RetryResult<T>>,
    ) -> (step: Step<T, Fut>)
        requires
            has_room(self.config(), old(progress)@, polled),
            forall|delay: Duration|
                call_requires(old(progress).durations().jitter_fn(), (delay,)),
            forall|pause: Duration| call_requires(self.sleep_fn(), (pause,)),
        ensures
            verdict(self.config(), old(progress)@, polled) matches Verdict::Return(result) ==> {
                step matches Step::Done(r) && result_view(r) == result
            },
            verdict(self.config(), old(progress)@, polled) is Wait ==> {
                step matches Step::Sleep(wait) && self.may_sleep(old(progress).durations(), wait)
            },
            final(progress)@ == old(progress)@.advanced(
                verdict(self.config(), old(progress)@, polled),
            ),
            final(progress).durations().jitter_fn() == old(progress).durations().jitter_fn(),
    {
        let ghost sleep_fn = self.sleep_fn();
        let ghost before = progress.durations();
        progress.attempt = progress.attempt + 1;
        match polled {
            None => Step::Done(
                Err(Error::new(Code::Internal, ended_abruptly(progress.attempt))),
            ),
            Some(RetryResult::Success(value)) => Step::Done(Ok(value)),
            Some(RetryResult::Failure(error)) => Step::Done(
                Err(error.append(on_attempt(progress.attempt))),
            ),
            Some(RetryResult::Retry(error)) => {
                if !self.should_retry(&error.code) {
                    return Step::Done(Err(error));
                }
                match progress.durations.next() {
                    Some(pause) => {
                        assert(sleep_fn == *self.sleep_fn);
                        let wait = (*self.sleep_fn)(pause);
                        assert(self.may_sleep(before, wait));
                        Step::Sleep(wait)
                    },
                    None => Step::Done(Err(error.append(on_attempt(progress.attempt)))),
                }
            },
        }
    }
}

impl<S, J> Clone for Retrier<S, J> {
    fn clone(&self) -> (copy: Self)
        ensures
            copy.sleep_fn() == self.sleep_fn(),
            copy.jitter_fn() == self.jitter_fn(),
            copy.config() == self.config(),
    {
        Retrier {
            sleep_fn: self.sleep_fn.clone(),
            jitter_fn: self.jitter_fn.clone(),
            config: self.config.clone(),
        }
    }
}

} // verus!
