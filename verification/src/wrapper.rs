//! A store whose operations are retried.
use crate::backoff::{BackoffDurations, ScheduleView};
use crate::codes::{covers, is_covered, Code, ErrorCode};
use crate::config::{Retry, RetryView};
use crate::duration::{Duration, MAX_NANOS};
use crate::error::{result_view, Error};
use crate::hooks::{RetryJitterFn, RetrySleepFn};
use crate::step::{Step, Verdict};
use std::sync::Arc;
use vstd::prelude::*;

verus! {

/// A failed attempt of a store operation.
pub struct Failure {
    /// What went wrong.
    pub error: Error,
    /// Whether the status of the error rules out that another attempt succeeds.
    pub unrecoverable: bool,
}

/// Whether a failed attempt is worth another one: the configuration lists its
/// status, or the status is that of an error from which an operation can
/// recover.
pub open spec fn retries(listed: Option<Seq<ErrorCode>>, failure: Failure) -> bool {
    ||| listed matches Some(codes) && covers(codes, failure.error.code)
    ||| !(failure.error.code is Success || failure.unrecoverable)
}

/// What the loop decides on the outcome of an attempt.
pub open spec fn verdict<U>(
    config: RetryView,
    schedule: ScheduleView,
    outcome: Result<U, Failure>,
) -> Verdict<U> {
    match outcome {
        Ok(value) => Verdict::Return(Ok(value)),
        Err(failure) => if retries(config.retry_on_errors, failure) && schedule.remaining > 0 {
            Verdict::Wait(schedule.next_delay())
        } else {
            Verdict::Return(Err(failure.error@))
        },
    }
}

/// Whether the delay that an outcome may call for is within the range of
/// [`Duration`].
pub open spec fn has_room<U>(
    config: RetryView,
    schedule: ScheduleView,
    outcome: Result<U, Failure>,
) -> bool {
    verdict(config, schedule, outcome) matches Verdict::Wait(delay) ==> delay <= MAX_NANOS
}

/// A store of type `D` whose operations are retried.
pub struct RetryWrapper<S, J, D> {
    inner: Arc<D>,
    config: Retry,
    sleep_fn: S,
    jitter_fn: J,
}

impl<S, J, D> RetryWrapper<S, J, D> {
    /// The store.
    pub closed spec fn inner(self) -> D {
        *self.inner
    }

    /// The configuration.
    pub closed spec fn config(self) -> RetryView {
        self.config@
    }

    /// What waits between attempts.
    pub closed spec fn sleep_fn(self) -> S {
        self.sleep_fn
    }

    /// What varies the pauses.
    pub closed spec fn jitter_fn(self) -> J {
        self.jitter_fn
    }

    /// A store whose operations are retried after waiting with `sleep_fn`, for
    /// pauses varied by `jitter_fn`.
    pub fn new_with_fns(config: Retry, store: D, sleep_fn: S, jitter_fn: J) -> (wrapper: Self)
        ensures
            wrapper.inner() == store,
            wrapper.config() == config@,
            wrapper.sleep_fn() == sleep_fn,
            wrapper.jitter_fn() == jitter_fn,
    {
        RetryWrapper { inner: Arc::new(store), config, sleep_fn, jitter_fn }
    }

    /// A store whose operations are retried, with the usual ways to wait and to
    /// vary the pauses.
    pub fn new(config: Retry, store: D) -> (wrapper: Self) where S: Default, J: Default
        ensures
            wrapper.inner() == store,
            wrapper.config() == config@,
            call_ensures(S::default, (), wrapper.sleep_fn()),
            call_ensures(J::default, (), wrapper.jitter_fn()),
    {
        Self::new_with_fns(config, store, S::default(), J::default())
    }

    /// The store whose operations are retried.
    pub fn store(&self) -> (store: &Arc<D>)
        ensures
            **store == self.inner(),
    {
        &self.inner
    }

    /// Whether a failed attempt is worth another one.
    pub fn should_retry(&self, failure: &Failure) -> (retry: bool)
        ensures
            retry == retries(self.config().retry_on_errors, *failure),
    {
        let listed: bool = match &self.config.retry_on_errors {
            Some(errors) => is_covered(errors, &failure.error.code),
            None => false,
        };
        listed || !(failure.error.code == Code::Success || failure.unrecoverable)
    }

    /// The pauses between the attempts, one for each retry.
    pub fn backoff_durations(&self) -> (durations: BackoffDurations<'_, J>)
        ensures
            durations@ == ScheduleView::start(self.config()),
            durations.jitter_fn() == self.jitter_fn(),
            durations.jitter_amt() == self.config().jitter,
    {
        BackoffDurations::new(&self.config, &self.jitter_fn)
    }

    /// Whether [`RetryWrapper::retry`] can take this step: the delay that the
    /// outcome may call for is within the range of [`Duration`].
    pub fn has_room<U>(
        &self,
        durations: &BackoffDurations<'_, J>,
        outcome: &Result<U, Failure>,
    ) -> (room: bool)
        ensures
            room == has_room(self.config(), durations@, *outcome),
    {
        match outcome {
            Ok(_) => true,
            Err(failure) => self.has_room_after(durations, failure),
        }
    }

    /// Whether the delay that a failed attempt may call for is within the range of
    /// [`Duration`].
    pub fn has_room_after(&self, durations: &BackoffDurations<'_, J>, failure: &Failure) -> (room:
        bool)
        ensures
            room == (retries(self.config().retry_on_errors, *failure) ==> durations@.has_room()),
    {
        !self.should_retry(failure) || durations.has_room()
    }
}

impl<S: RetrySleepFn, J: RetryJitterFn, D> RetryWrapper<S, J, D> {
    /// Whether `wait` may be the wait for the next pause.
    pub open spec fn may_sleep(self, durations: BackoffDurations<'_, J>, wait: S::Fut) -> bool {
        exists|pause: Duration|
            {
                &&& durations.may_pause(pause)
                &&& #[trigger] self.sleep_fn().gives(pause, wait)
                &&& call_ensures(S::sleep, (&self.sleep_fn(), pause), wait)
            }
    }

    /// Whether any delay can be varied and any pause waited for.
    pub open spec fn can_wait(self, durations: BackoffDurations<'_, J>) -> bool {
        &&& durations.takes_any_delay()
        &&& forall|pause: Duration| #[trigger] self.sleep_fn().accepts(pause)
    }

    /// One round of the retry loop: takes the outcome of an attempt and says what
    /// to do.
    pub fn retry<U>(
        &self,
        durations: &mut BackoffDurations<'_, J>,
        outcome: Result<U, Failure>,
    ) -> (step: Step<U, S::Fut>)
        requires
            has_room(self.config(), old(durations)@, outcome),
            self.can_wait(*old(durations)),
        ensures
            verdict(self.config(), old(durations)@, outcome) matches Verdict::Return(result) ==> {
                step matches Step::Done(r) && result_view(r) == result
            },
            verdict(self.config(), old(durations)@, outcome) is Wait ==> {
                step matches Step::Sleep(wait) && self.may_sleep(*old(durations), wait)
            },
            final(durations)@ == old(durations)@.after(
                verdict(self.config(), old(durations)@, outcome),
            ),
            final(durations).jitter_fn() == old(durations).jitter_fn(),
            final(durations).jitter_amt() == old(durations).jitter_amt(),
    {
        let ghost before = *durations;
        match outcome {
            Ok(value) => Step::Done(Ok(value)),
            Err(failure) => {
                if !self.should_retry(&failure) {
                    return Step::Done(Err(failure.error));
                }
                match durations.next() {
                    Some(pause) => {
                        assert(self.sleep_fn().accepts(pause));
                        let wait = self.sleep_fn.sleep(pause);
                        assert(self.sleep_fn().gives(pause, wait));
                        assert(self.may_sleep(before, wait));
                        Step::Sleep(wait)
                    },
                    None => Step::Done(Err(failure.error)),
                }
            },
        }
    }
}

} // verus!
