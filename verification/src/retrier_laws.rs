//! What holds of a whole run of a [`Retrier`](crate::retrier::Retrier), however
//! its attempts turn out.
use crate::backoff::RetryDurations;
use crate::backoff_laws::lemma_retry_durations_give;
use crate::codes::{covers, law_list_covers_what_it_holds, status_of, Code, ErrorCode};
use crate::config::{law_view_shows_the_settings, Retry, RetryView};
use crate::duration::{Duration, NANOS_PER_MILLI};
use crate::error::{
    decimal, ended_abruptly_text, law_view_shows_the_messages, on_attempt_text, ErrorView,
};
use crate::retrier::{is_temporary, retries, verdict, Retrier, RetryProgress, RetryResult};
use crate::runs::{
    after_retries, asks_again, lemma_delays_double, lemma_run_is_bounded,
    lemma_run_returns_after_retries, lemma_schedule_after_retries, run, Run,
};
use crate::step::{ProgressView, Step, Verdict};
use std::sync::Arc;
use vstd::arithmetic::power2::pow2;
use vstd::prelude::*;

verus! {

/// How a retrier with this configuration decides.
pub open spec fn decider<T>(config: RetryView) -> spec_fn(
    ProgressView,
    Option<RetryResult<T>>,
) -> Verdict<T> {
    |progress: ProgressView, polled: Option<RetryResult<T>>| verdict(config, progress, polled)
}

/// The run of a retrier whose attempts come to `polls`.
pub open spec fn retrier_run<T>(config: RetryView, polls: Seq<Option<RetryResult<T>>>) -> Run<T> {
    run(decider(config), ProgressView::start(config), polls)
}

/// Whether an attempt failed in a way that is worth another one.
pub open spec fn is_retryable<T>(config: RetryView, polled: Option<RetryResult<T>>) -> bool {
    polled matches Some(RetryResult::Retry(error)) && retries(config.retry_on_errors, error.code)
}

/// What comes back of an attempt that is not retried, or can no longer be.
pub open spec fn final_result<T>(
    config: RetryView,
    polled: Option<RetryResult<T>>,
    attempt: nat,
) -> Result<T, ErrorView> {
    match polled {
        None => Err(ErrorView::new(Code::Internal, ended_abruptly_text(attempt))),
        Some(RetryResult::Success(value)) => Ok(value),
        Some(RetryResult::Failure(error)) => Err(error@.append(on_attempt_text(attempt))),
        Some(RetryResult::Retry(error)) => if retries(config.retry_on_errors, error.code) {
            Err(error@.append(on_attempt_text(attempt)))
        } else {
            Err(error@)
        },
    }
}

/// The first attempt that is not to be retried ends the run with its own
/// outcome, unless the retries were used up before: a success as it came, an
/// error that is not worth a retry as it came, an error that was reported as
/// final with the number of the attempt, and an operation that offers no more
/// attempts with an internal error. Before it, the run waited once for each
/// attempt.
pub proof fn law_first_settled_attempt_decides<T>(
    config: RetryView,
    polls: Seq<Option<RetryResult<T>>>,
    k: nat,
)
    requires
        k <= config.max_retries,
        k < polls.len(),
        forall|i: int| 0 <= i < k ==> is_retryable(config, #[trigger] polls[i]),
        !is_retryable(config, polls[k as int]),
    ensures
        retrier_run(config, polls).waits.len() == k,
        retrier_run(config, polls).result == Some(
            final_result(config, polls[k as int], k + 1),
        ),
{
    let decide = decider::<T>(config);
    assert forall|i: int| 0 <= i < k implies asks_again(decide, #[trigger] polls[i]) by {
        assert(is_retryable(config, polls[i]));
    }
    lemma_run_returns_after_retries(decide, ProgressView::start(config), polls, k);
}

/// When every attempt is worth another one, the run makes one attempt more than
/// there are retries and then returns the error of the last attempt, with the
/// number of that attempt.
pub proof fn law_exhausted_run_returns_last_error<T>(
    config: RetryView,
    polls: Seq<Option<RetryResult<T>>>,
)
    requires
        config.max_retries < polls.len(),
        forall|i: int| 0 <= i <= config.max_retries ==> is_retryable(config, #[trigger] polls[i]),
    ensures
        retrier_run(config, polls).waits.len() == config.max_retries,
        polls[config.max_retries as int] matches Some(RetryResult::Retry(error)) && retrier_run(
            config,
            polls,
        ).result == Some(
            Err::<T, ErrorView>(error@.append(on_attempt_text(config.max_retries + 1))),
        ),
{
    let k = config.max_retries;
    let decide = decider::<T>(config);
    assert(is_retryable(config, polls[k as int]));
    assert forall|i: int| 0 <= i < k implies asks_again(decide, #[trigger] polls[i]) by {
        assert(is_retryable(config, polls[i]));
    }
    lemma_run_returns_after_retries(decide, ProgressView::start(config), polls, k);
}

/// A run makes at most one attempt more than there are retries: it has returned
/// by then, and has waited at most once for each retry.
pub proof fn law_attempts_are_bounded<T>(config: RetryView, polls: Seq<Option<RetryResult<T>>>)
    ensures
        retrier_run(config, polls).waits.len() <= config.max_retries,
        config.max_retries < polls.len() ==> retrier_run(config, polls).result is Some,
{
    lemma_run_is_bounded(decider::<T>(config), ProgressView::start(config), polls);
}

/// The delays double: the first is twice the configured one, and each of the
/// others twice the one before it.
pub proof fn law_delays_double<T>(config: RetryView, polls: Seq<Option<RetryResult<T>>>)
    ensures
        forall|i: int|
            #![trigger retrier_run(config, polls).waits[i]]
            0 <= i < retrier_run(config, polls).waits.len() ==> retrier_run(config, polls).waits[i]
                == config.delay * (NANOS_PER_MILLI as nat) * pow2((i + 1) as nat),
{
    assert forall|i: int|
        #![trigger retrier_run(config, polls).waits[i]]
        0 <= i < retrier_run(config, polls).waits.len() implies retrier_run(config, polls).waits[i]
        == config.delay * (NANOS_PER_MILLI as nat) * pow2((i + 1) as nat) by {
        lemma_delays_double(decider::<T>(config), ProgressView::start(config), polls, i);
    }
}

/// Listed error codes replace the defaults: with a list, only what it covers is
/// retried, and with an empty one nothing is. A success is never retried.
pub proof fn law_listed_codes_replace_defaults(listed: Seq<ErrorCode>, code: Code)
    ensures
        retries(Some(listed), code) <==> code !is Success && covers(listed, code),
        retries(None, code) <==> code !is Success && is_temporary(code),
        !retries(Some(seq![]), code),
{
    assert(forall|e: ErrorCode| !(#[trigger] Seq::<ErrorCode>::empty().contains(e)));
}

/// A retrier retries on a listed error code, and where none are listed unless the
/// status says that another attempt would fail too. It never retries on success. A
/// copy of a retrier decides like the retrier.
pub proof fn law_retrier_retries_on_listed_or_temporary<S, J>(
    sleep_fn: Arc<S>,
    jitter_fn: Arc<J>,
    config: Retry,
    made: Retrier<S, J>,
    retrier: Retrier<S, J>,
    code: Code,
    retry: bool,
)
    requires
        call_ensures(Retrier::<S, J>::new, (sleep_fn, jitter_fn, config), made),
        retrier == made || call_ensures(Retrier::<S, J>::clone, (&made,), retrier),
        call_ensures(Retrier::<S, J>::should_retry, (&retrier, &code), retry),
    ensures
        code is Success ==> !retry,
        code !is Success ==> match config.retry_on_errors {
            Some(listed) => retry <==> exists|i: int|
                0 <= i < listed@.len() && status_of(#[trigger] listed@[i]) == code,
            None => retry <==> !(code is InvalidArgument || code is FailedPrecondition
                || code is OutOfRange || code is Unimplemented || code is NotFound
                || code is AlreadyExists || code is PermissionDenied || code is Unauthenticated),
        },
        call_requires(Retrier::<S, J>::new, (sleep_fn, jitter_fn, config)),
        call_requires(Retrier::<S, J>::clone, (&made,)),
        call_requires(Retrier::<S, J>::should_retry, (&retrier, &code)),
{
    lemma_retries_on_listed_or_temporary(config, code);
}

proof fn lemma_retries_on_listed_or_temporary(config: Retry, code: Code)
    ensures
        code is Success ==> !retries(config@.retry_on_errors, code),
        code !is Success ==> match config.retry_on_errors {
            Some(listed) => retries(config@.retry_on_errors, code) <==> exists|i: int|
                0 <= i < listed@.len() && status_of(#[trigger] listed@[i]) == code,
            None => retries(config@.retry_on_errors, code) <==> !(code is InvalidArgument
                || code is FailedPrecondition || code is OutOfRange || code is Unimplemented
                || code is NotFound || code is AlreadyExists || code is PermissionDenied
                || code is Unauthenticated),
        },
{
    law_view_shows_the_settings(config);
    if config.retry_on_errors is Some {
        let listed = config.retry_on_errors->0@;
        law_list_covers_what_it_holds(listed, ErrorCode::Unknown, code);
        if exists|i: int| 0 <= i < listed.len() && status_of(#[trigger] listed[i]) == code {
            let i = choose|i: int| 0 <= i < listed.len() && status_of(#[trigger] listed[i]) == code;
            law_list_covers_what_it_holds(listed, listed[i], code);
        }
    }
}

proof fn lemma_run_stands_at<'a, S, J, Fut, T>(
    config: Retry,
    retrier: Retrier<S, J>,
    progress: RetryProgress<'a, J>,
    calls: Seq<&mut RetryProgress<'a, J>>,
    polls: Seq<Option<RetryResult<T>>>,
    steps: Seq<Step<T, Fut>>,
    k: int,
) where S: Fn(Duration) -> Fut, J: Fn(Duration) -> Duration
    requires
        retrier.config() == config@,
        call_ensures(Retrier::<S, J>::start, (&retrier,), progress),
        0 <= k < calls.len() == polls.len() == steps.len(),
        *calls[0] == progress,
        forall|j: int|
            0 < j < calls.len() ==> *(#[trigger] calls[j]) == *final(calls[j - 1]),
        forall|j: int|
            0 <= j < calls.len() ==> call_ensures(
                Retrier::<S, J>::retry::<T>,
                (&retrier, #[trigger] calls[j], polls[j]),
                steps[j],
            ),
        forall|j: int| 0 <= j < k ==> #[trigger] steps[j] is Sleep,
    ensures
        k <= config.max_retries,
        calls[k]@ == after_retries(ProgressView::start(config@), k as nat),
        calls[k].durations().jitter_fn() == retrier.jitter_fn(),
    decreases k,
{
    let start = ProgressView::start(config@);
    law_view_shows_the_settings(config);
    lemma_schedule_after_retries(start, 0);
    if k > 0 {
        lemma_run_stands_at(config, retrier, progress, calls, polls, steps, k - 1);
        lemma_schedule_after_retries(start, (k - 1) as nat);
        assert(call_ensures(
            Retrier::<S, J>::retry::<T>,
            (&retrier, calls[k - 1], polls[k - 1]),
            steps[k - 1],
        ));
        assert(steps[k - 1] is Sleep);
        assert(*calls[k] == *final(calls[k - 1]));
    }
}

/// What a retrier makes of its attempts, from the first on, for as long as it goes
/// on waiting. An attempt that succeeds is returned with its value. One that failed
/// for good is returned with its error, which gets the number of the attempt as a
/// message, and an operation that offers no more attempts gives an internal error.
/// An error that may be retried is returned as it is where it is not worth a retry,
/// and with the number of the attempt where no retry is left. Otherwise the retrier
/// waits with its sleep function, for what its jitter function returns for the
/// configured delay, doubled once for each attempt so far.
#[verifier::rlimit(50)]
pub proof fn law_retrier_answers_each_attempt<'a, S, J, Fut, T>(
    sleep_fn: Arc<S>,
    jitter_fn: Arc<J>,
    config: Retry,
    made: Retrier<S, J>,
    retrier: Retrier<S, J>,
    progress: RetryProgress<'a, J>,
    calls: Seq<&mut RetryProgress<'a, J>>,
    polls: Seq<Option<RetryResult<T>>>,
    steps: Seq<Step<T, Fut>>,
    k: int,
) where S: Fn(Duration) -> Fut, J: Fn(Duration) -> Duration
    requires
        call_ensures(Retrier::<S, J>::new, (sleep_fn, jitter_fn, config), made),
        retrier == made || call_ensures(Retrier::<S, J>::clone, (&made,), retrier),
        call_ensures(Retrier::<S, J>::start, (&retrier,), progress),
        0 <= k < calls.len() == polls.len() == steps.len(),
        *calls[0] == progress,
        forall|j: int|
            0 < j < calls.len() ==> *(#[trigger] calls[j]) == *final(calls[j - 1]),
        forall|j: int|
            0 <= j < calls.len() ==> call_ensures(
                Retrier::<S, J>::retry::<T>,
                (&retrier, #[trigger] calls[j], polls[j]),
                steps[j],
            ),
        forall|j: int| 0 <= j < k ==> #[trigger] steps[j] is Sleep,
    ensures
        k <= config.max_retries,
        match polls[k] {
            None => {
                &&& steps[k] matches Step::Done(Err(error))
                &&& error.code is Internal
                &&& error.messages@.len() == 1
                &&& error.messages@[0]@ == "Retry stream ended abruptly on attempt "@ + decimal(
                    (k + 1) as nat,
                )
            },
            Some(RetryResult::Success(value)) => steps[k] == Step::<T, Fut>::Done(Ok(value)),
            Some(RetryResult::Failure(failed)) => {
                &&& steps[k] matches Step::Done(Err(error))
                &&& error.code == failed.code
                &&& error.messages@.map_values(|m: String| m@) == failed.messages@.map_values(
                    |m: String| m@,
                ).push("On attempt "@ + decimal((k + 1) as nat))
            },
            Some(RetryResult::Retry(failed)) => {
                let again = failed.code !is Success && match config.retry_on_errors {
                    Some(listed) => exists|i: int|
                        0 <= i < listed@.len() && status_of(#[trigger] listed@[i]) == failed.code,
                    None => !(failed.code is InvalidArgument || failed.code is FailedPrecondition
                        || failed.code is OutOfRange || failed.code is Unimplemented
                        || failed.code is NotFound || failed.code is AlreadyExists
                        || failed.code is PermissionDenied || failed.code is Unauthenticated),
                };
                &&& again && k < config.max_retries ==> {
                    &&& steps[k] matches Step::Sleep(wait)
                    &&& exists|delay: Duration, pause: Duration|
                        {
                            &&& delay@ == config.delay * 1_000_000 * pow2((k + 1) as nat)
                            &&& #[trigger] call_ensures(*jitter_fn, (delay,), pause)
                            &&& #[trigger] call_ensures(*sleep_fn, (pause,), wait)
                        }
                }
                &&& again && k == config.max_retries ==> {
                    &&& steps[k] matches Step::Done(Err(error))
                    &&& error.code == failed.code
                    &&& error.messages@.map_values(|m: String| m@) == failed.messages@.map_values(
                        |m: String| m@,
                    ).push("On attempt "@ + decimal((k + 1) as nat))
                }
                &&& !again ==> {
                    &&& steps[k] matches Step::Done(Err(error))
                    &&& error.code == failed.code
                    &&& error.messages@.map_values(|m: String| m@) == failed.messages@.map_values(
                        |m: String| m@,
                    )
                }
            },
        },
{
    lemma_run_stands_at(config, retrier, progress, calls, polls, steps, k);
    lemma_schedule_after_retries(ProgressView::start(config@), k as nat);
    law_view_shows_the_settings(config);
    assert(call_ensures(
        Retrier::<S, J>::retry::<T>,
        (&retrier, calls[k], polls[k]),
        steps[k],
    ));
    if let Step::Done(Err(error)) = steps[k] {
        law_view_shows_the_messages(error);
    }
    if let Some(RetryResult::Retry(failed)) = polls[k] {
        lemma_retries_on_listed_or_temporary(config, failed.code);
    }
}

/// A retrier counts its attempts, and can take up the next one as long as it can be
/// counted and the delay that it calls for, if it calls for one, is within the
/// range of a duration.
#[verifier::rlimit(50)]
pub proof fn law_retrier_can_take_up_the_next_attempt<'a, S, J, Fut, T>(
    sleep_fn: Arc<S>,
    jitter_fn: Arc<J>,
    config: Retry,
    made: Retrier<S, J>,
    retrier: Retrier<S, J>,
    progress: RetryProgress<'a, J>,
    calls: Seq<&mut RetryProgress<'a, J>>,
    polls: Seq<Option<RetryResult<T>>>,
    steps: Seq<Step<T, Fut>>,
    k: int,
) where S: Fn(Duration) -> Fut, J: Fn(Duration) -> Duration
    requires
        call_ensures(Retrier::<S, J>::new, (sleep_fn, jitter_fn, config), made),
        retrier == made || call_ensures(Retrier::<S, J>::clone, (&made,), retrier),
        call_ensures(Retrier::<S, J>::start, (&retrier,), progress),
        0 <= k < calls.len() == polls.len() == steps.len(),
        *calls[0] == progress,
        forall|j: int|
            0 < j < calls.len() ==> *(#[trigger] calls[j]) == *final(calls[j - 1]),
        forall|j: int|
            0 <= j < calls.len() ==> call_ensures(
                Retrier::<S, J>::retry::<T>,
                (&retrier, #[trigger] calls[j], polls[j]),
                steps[j],
            ),
        forall|j: int| 0 <= j < k ==> #[trigger] steps[j] is Sleep,
    ensures
        forall|count: u32|
            call_ensures(RetryProgress::<'a, J>::attempt, (&*calls[k],), count) ==> count == k,
        forall|count: u32|
            call_ensures(RetryProgress::<'a, J>::attempt, (&*final(calls[k]),), count) ==> count
                == k + 1,
        call_requires(Retrier::<S, J>::start, (&retrier,)),
        ({
            let waits = polls[k] matches Some(RetryResult::Retry(failed)) && k < config.max_retries
                && failed.code !is Success && match config.retry_on_errors {
                Some(listed) => exists|i: int|
                    0 <= i < listed@.len() && status_of(#[trigger] listed@[i]) == failed.code,
                None => !(failed.code is InvalidArgument || failed.code is FailedPrecondition
                    || failed.code is OutOfRange || failed.code is Unimplemented
                    || failed.code is NotFound || failed.code is AlreadyExists
                    || failed.code is PermissionDenied || failed.code is Unauthenticated),
            };
            let in_range = k < 2_147_483_647 && (waits ==> config.delay * 1_000_000 * pow2(
                (k + 1) as nat,
            ) <= 18_446_744_073_709_551_615_999_999_999);
            &&& forall|room: bool|
                call_ensures(
                    Retrier::<S, J>::has_room::<T>,
                    (&retrier, &*calls[k], &polls[k]),
                    room,
                ) ==> (room <==> in_range)
            &&& in_range && (forall|delay: Duration| call_requires(*jitter_fn, (delay,))) && (
            forall|pause: Duration| call_requires(*sleep_fn, (pause,))) ==> call_requires(
                Retrier::<S, J>::retry::<T>,
                (&retrier, calls[k], polls[k]),
            )
        }),
{
    lemma_run_stands_at(config, retrier, progress, calls, polls, steps, k);
    lemma_schedule_after_retries(ProgressView::start(config@), k as nat);
    law_view_shows_the_settings(config);
    assert(call_ensures(
        Retrier::<S, J>::retry::<T>,
        (&retrier, calls[k], polls[k]),
        steps[k],
    ));
    if let Some(RetryResult::Retry(failed)) = polls[k] {
        lemma_retries_on_listed_or_temporary(config, failed.code);
    }
}

/// The pauses of a retrier: one for each retry and then no more, the `i`-th being
/// what the jitter function returns for the configured delay, doubled `i` times.
pub proof fn law_retrier_pauses_are_varied_delays<'a, S, J: Fn(Duration) -> Duration>(
    sleep_fn: Arc<S>,
    jitter_fn: Arc<J>,
    config: Retry,
    made: Retrier<S, J>,
    retrier: Retrier<S, J>,
    durations: RetryDurations<'a, J>,
    calls: Seq<&mut RetryDurations<'a, J>>,
    pauses: Seq<Option<Duration>>,
    i: int,
)
    requires
        call_ensures(Retrier::<S, J>::new, (sleep_fn, jitter_fn, config), made),
        retrier == made || call_ensures(Retrier::<S, J>::clone, (&made,), retrier),
        call_ensures(Retrier::<S, J>::get_retry_config, (&retrier,), durations),
        0 <= i < calls.len() == pauses.len(),
        *calls[0] == durations,
        forall|j: int|
            0 < j < calls.len() ==> *(#[trigger] calls[j]) == *final(calls[j - 1]),
        forall|j: int|
            0 <= j < calls.len() ==> call_ensures(
                RetryDurations::<'a, J>::next,
                (#[trigger] calls[j],),
                pauses[j],
            ),
    ensures
        pauses[i] is Some <==> i < config.max_retries,
        pauses[i] matches Some(pause) ==> exists|delay: Duration|
            {
                &&& delay@ == config.delay * 1_000_000 * pow2((i + 1) as nat)
                &&& #[trigger] call_ensures(*jitter_fn, (delay,), pause)
            },
{
    lemma_retry_durations_give(config, calls, pauses, i);
}

} // verus!
