//! What a user of the retry logic supplies: a way to wait and a way to vary the
//! pauses.
use crate::config::JitterAmount;
use crate::duration::Duration;
use core::future::Future;
use vstd::prelude::*;

verus! {

/// Waits between two attempts.
pub trait RetrySleepFn {
    /// Completes when the wait is over.
    type Fut: Future<Output = ()> + Send;

    /// Whether it can wait for this duration. Unless an impl says otherwise, it can
    /// wait for any.
    open spec fn accepts(&self, duration: Duration) -> bool {
        true
    }

    /// What an impl says of its wait for this duration.
    open spec fn gives(&self, duration: Duration, wait: Self::Fut) -> bool {
        true
    }

    /// A wait of the given duration.
    fn sleep(&self, duration: Duration) -> (wait: Self::Fut)
        requires
            self.accepts(duration),
        ensures
            self.gives(duration, wait),
    ;
}

/// A function from durations to waits waits by being called.
impl<F, Fut> RetrySleepFn for F where F: Fn(Duration) -> Fut, Fut: Future<Output = ()> + Send {
    type Fut = Fut;

    open spec fn accepts(&self, duration: Duration) -> bool {
        call_requires(*self, (duration,))
    }

    open spec fn gives(&self, duration: Duration, wait: Fut) -> bool {
        call_ensures(*self, (duration,), wait)
    }

    fn sleep(&self, duration: Duration) -> (wait: Fut) {
        (*self)(duration)
    }
}

/// Varies the pauses, so that many callers that fail together do not all come
/// back together.
pub trait RetryJitterFn {
    /// Whether it can vary this delay by this amount. Unless an impl says otherwise,
    /// it can vary any by any.
    open spec fn accepts(&self, delay: Duration, jitter_amt: JitterAmount) -> bool {
        true
    }

    /// What an impl says of the pause that it makes of this delay and this amount.
    open spec fn gives(&self, delay: Duration, jitter_amt: JitterAmount, pause: Duration) -> bool {
        true
    }

    /// The pause to make where `delay` was calculated and may stray by
    /// `jitter_amt`.
    fn jitter(&self, delay: Duration, jitter_amt: JitterAmount) -> (pause: Duration)
        requires
            self.accepts(delay, jitter_amt),
        ensures
            self.gives(delay, jitter_amt, pause),
    ;
}

/// A function of a delay and an amount varies the pauses by being called.
impl<F> RetryJitterFn for F where F: Fn(Duration, JitterAmount) -> Duration {
    open spec fn accepts(&self, delay: Duration, jitter_amt: JitterAmount) -> bool {
        call_requires(*self, (delay, jitter_amt))
    }

    open spec fn gives(&self, delay: Duration, jitter_amt: JitterAmount, pause: Duration) -> bool {
        call_ensures(*self, (delay, jitter_amt), pause)
    }

    fn jitter(&self, delay: Duration, jitter_amt: JitterAmount) -> (pause: Duration) {
        (*self)(delay, jitter_amt)
    }
}

/// A function waits for the durations that it can be called with, and its waits
/// are what it returns.
pub proof fn law_function_sleeps_by_call<F, Fut>(f: F, duration: Duration, wait: Fut) where
    F: Fn(Duration) -> Fut,
    Fut: Future<Output = ()> + Send,

    ensures
        RetrySleepFn::accepts(&f, duration) == call_requires(f, (duration,)),
        RetrySleepFn::gives(&f, duration, wait) == call_ensures(f, (duration,), wait),
{
}

/// A function varies the delays that it can be called with, and the pauses that
/// it makes of them are what it returns.
pub proof fn law_function_jitters_by_call<F>(
    f: F,
    delay: Duration,
    jitter_amt: JitterAmount,
    pause: Duration,
) where F: Fn(Duration, JitterAmount) -> Duration
    ensures
        RetryJitterFn::accepts(&f, delay, jitter_amt) == call_requires(f, (delay, jitter_amt)),
        RetryJitterFn::gives(&f, delay, jitter_amt, pause) == call_ensures(
            f,
            (delay, jitter_amt),
            pause,
        ),
{
}

/// Waiting with a function is calling it: what comes of the wait is what the function
/// returns for the duration.
pub proof fn law_waiting_calls_the_function<F, Fut>(f: F, duration: Duration, wait: Fut) where
    F: Fn(Duration) -> Fut,
    Fut: Future<Output = ()> + Send,

    requires
        call_ensures(<F as RetrySleepFn>::sleep, (&f, duration), wait),
    ensures
        call_ensures(f, (duration,), wait),
{
}

/// Varying a pause with a function is calling it: the pause is what the function
/// returns for the delay and the amount.
pub proof fn law_varying_calls_the_function<F>(
    f: F,
    delay: Duration,
    jitter_amt: JitterAmount,
    pause: Duration,
) where F: Fn(Duration, JitterAmount) -> Duration
    requires
        call_ensures(<F as RetryJitterFn>::jitter, (&f, delay, jitter_amt), pause),
    ensures
        call_ensures(f, (delay, jitter_amt), pause),
{
}

} // verus!
