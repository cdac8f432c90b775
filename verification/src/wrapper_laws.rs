//! What holds of a whole run of a
//! [`RetryWrapper`](crate::wrapper::RetryWrapper), however its attempts turn out.
use crate::backoff::BackoffDurations;
use crate::backoff_laws::lemma_backoff_durations_give;
use crate::codes::{
    covers, law_error_codes_are_distinct, law_list_covers_what_it_holds, status_of, Code, ErrorCode,
};
use crate::config::{law_view_shows_the_settings, Retry, RetryView};
use crate::duration::{Duration, NANOS_PER_MILLI};
use crate::error::ErrorView;
use crate::hooks::{RetryJitterFn, RetrySleepFn};
use crate::runs::{
    after_retries, asks_again, lemma_delays_double, lemma_run_is_bounded,
    lemma_run_returns_after_retries, lemma_schedule_after_retries, run, Run,
};
use crate::step::{ProgressView, Step, Verdict};
use crate::wrapper::{retries, verdict, Failure, RetryWrapper};
use std::sync::Arc;
use vstd::arithmetic::power2::{lemma_pow2_unfold, pow2};
use vstd::prelude::*;

verus! {

/// How a wrapper with this configuration decides.
pub open spec fn decider<U>(config: RetryView) -> spec_fn(
    ProgressView,
    Result<U, Failure>,
) -> Verdict<U> {
    |progress: ProgressView, outcome: Result<U, Failure>|
        verdict(config, progress.schedule, outcome)
}

/// The run of an operation whose attempts come to `outcomes`.
pub open spec fn wrapper_run<U>(config: RetryView, outcomes: Seq<Result<U, Failure>>) -> Run<U> {
    run(decider(config), ProgressView::start(config), outcomes)
}

/// Whether an attempt failed in a way that is worth another one.
pub open spec fn is_retryable<U>(config: RetryView, outcome: Result<U, Failure>) -> bool {
    outcome matches Err(failure) && retries(config.retry_on_errors, failure)
}

/// What comes back of an attempt that is not retried, or can no longer be: its
/// own value or its own error.
pub open spec fn final_result<U>(outcome: Result<U, Failure>) -> Result<U, ErrorView> {
    match outcome {
        Ok(value) => Ok(value),
        Err(failure) => Err(failure.error@),
    }
}

/// The first attempt that is not to be retried ends the run with its own
/// outcome, and when the retries are used up the attempt after the last retry
/// does. Before it, the run waited once for each attempt.
pub proof fn law_last_attempt_decides<U>(
    config: RetryView,
    outcomes: Seq<Result<U, Failure>>,
    k: nat,
)
    requires
        k <= config.max_retries,
        k < outcomes.len(),
        forall|i: int| 0 <= i < k ==> is_retryable(config, #[trigger] outcomes[i]),
        !is_retryable(config, outcomes[k as int]) || k == config.max_retries,
    ensures
        wrapper_run(config, outcomes).waits.len() == k,
        wrapper_run(config, outcomes).result == Some(final_result(outcomes[k as int])),
{
    let decide = decider::<U>(config);
    assert forall|i: int| 0 <= i < k implies asks_again(decide, #[trigger] outcomes[i]) by {
        assert(is_retryable(config, outcomes[i]));
    }
    lemma_run_returns_after_retries(decide, ProgressView::start(config), outcomes, k);
}

/// A run makes at most one attempt more than there are retries: it has returned
/// by then, and has waited at most once for each retry.
pub proof fn law_attempts_are_bounded<U>(config: RetryView, outcomes: Seq<Result<U, Failure>>)
    ensures
        wrapper_run(config, outcomes).waits.len() <= config.max_retries,
        config.max_retries < outcomes.len() ==> wrapper_run(config, outcomes).result is Some,
{
    lemma_run_is_bounded(decider::<U>(config), ProgressView::start(config), outcomes);
}

/// The delays double: the first is twice the configured one, and each of the
/// others twice the one before it.
pub proof fn law_delays_double<U>(config: RetryView, outcomes: Seq<Result<U, Failure>>)
    ensures
        forall|i: int|
            #![trigger wrapper_run(config, outcomes).waits[i]]
            0 <= i < wrapper_run(config, outcomes).waits.len() ==> wrapper_run(
                config,
                outcomes,
            ).waits[i] == config.delay * (NANOS_PER_MILLI as nat) * pow2((i + 1) as nat),
{
    assert forall|i: int|
        #![trigger wrapper_run(config, outcomes).waits[i]]
        0 <= i < wrapper_run(config, outcomes).waits.len() implies wrapper_run(
        config,
        outcomes,
    ).waits[i] == config.delay * (NANOS_PER_MILLI as nat) * pow2((i + 1) as nat) by {
        lemma_delays_double(decider::<U>(config), ProgressView::start(config), outcomes, i);
    }
}

/// Listed error codes add to what is retried anyway: a list never keeps a
/// failure from being retried, and what it covers is retried whether or not an
/// operation can recover from it.
pub proof fn law_listed_codes_add_to_defaults(listed: Seq<ErrorCode>, failure: Failure)
    ensures
        retries(None, failure) ==> retries(Some(listed), failure),
        covers(listed, failure.error.code) ==> retries(Some(listed), failure),
        !covers(listed, failure.error.code) ==> retries(Some(listed), failure) == retries(
            None,
            failure,
        ),
{
}

/// Without listed codes, a failure is retried exactly when its status is not that of
/// a success and does not rule out that another attempt succeeds. With listed codes,
/// it is also retried when one of them stands for its status; success is listed as
/// `Unknown`.
pub proof fn law_recoverable_and_listed_failures_are_retried(config: Retry, failure: Failure)
    ensures
        retries(None, failure) <==> failure.error.code !is Success && !failure.unrecoverable,
        retries(config@.retry_on_errors, failure) <==> {
            ||| failure.error.code !is Success && !failure.unrecoverable
            ||| {
                &&& config.retry_on_errors matches Some(listed)
                &&& exists|i: int|
                    {
                        &&& 0 <= i < listed@.len()
                        &&& status_of(#[trigger] listed@[i]) == failure.error.code || (
                        failure.error.code is Success && listed@[i] is Unknown)
                    }
            }
        },
{
    let code = failure.error.code;
    law_view_shows_the_settings(config);
    if config.retry_on_errors is Some {
        let listed = config.retry_on_errors->0@;
        law_list_covers_what_it_holds(listed, ErrorCode::Unknown, code);
        if covers(listed, code) && code is Success {
            let i = choose|i: int| 0 <= i < listed.len() && listed[i] == ErrorCode::Unknown;
            assert(listed[i] is Unknown);
            assert(status_of(listed[i]) == Code::Unknown);
        }
        if exists|i: int|
            {
                &&& 0 <= i < listed.len()
                &&& status_of(#[trigger] listed[i]) == code || (code is Success
                    && listed[i] is Unknown)
            } {
            let i = choose|i: int|
                {
                    &&& 0 <= i < listed.len()
                    &&& status_of(#[trigger] listed[i]) == code || (code is Success
                        && listed[i] is Unknown)
                };
            law_list_covers_what_it_holds(listed, listed[i], code);
            law_error_codes_are_distinct(listed[i], ErrorCode::Unknown);
            if code is Success {
                assert(listed[i] == ErrorCode::Unknown);
            }
        }
    }
}

/// A wrapper has the store, the configuration and the hooks that it was made with.
pub proof fn law_wrapper_has_what_it_was_made_with<S, J, D>(
    config: Retry,
    store: D,
    sleep_fn: S,
    jitter_fn: J,
    wrapper: RetryWrapper<S, J, D>,
)
    requires
        call_ensures(
            RetryWrapper::<S, J, D>::new_with_fns,
            (config, store, sleep_fn, jitter_fn),
            wrapper,
        ),
    ensures
        wrapper.config() == config@,
        wrapper.sleep_fn() == sleep_fn,
        wrapper.jitter_fn() == jitter_fn,
        call_requires(
            RetryWrapper::<S, J, D>::new_with_fns,
            (config, store, sleep_fn, jitter_fn),
        ),
        forall|inner: &Arc<D>|
            call_ensures(RetryWrapper::<S, J, D>::store, (&wrapper,), inner) ==> **inner == store,
{
}

/// A wrapper that is made without hooks has those that the defaults return.
pub proof fn law_wrapper_has_the_default_hooks<S: Default, J: Default, D>(
    config: Retry,
    store: D,
    wrapper: RetryWrapper<S, J, D>,
)
    requires
        call_ensures(RetryWrapper::<S, J, D>::new, (config, store), wrapper),
    ensures
        wrapper.config() == config@,
        call_ensures(S::default, (), wrapper.sleep_fn()),
        call_ensures(J::default, (), wrapper.jitter_fn()),
        forall|inner: &Arc<D>|
            call_ensures(RetryWrapper::<S, J, D>::store, (&wrapper,), inner) ==> **inner == store,
{
}

/// A wrapper retries on a failure exactly when its status is not that of a success
/// and does not rule out that another attempt succeeds, or when a listed error code
/// stands for its status; success is listed as `Unknown`.
pub proof fn law_wrapper_retries_on_recoverable_or_listed<S, J, D>(
    config: Retry,
    wrapper: RetryWrapper<S, J, D>,
    failure: Failure,
    retry: bool,
)
    requires
        wrapper.config() == config@,
        call_ensures(RetryWrapper::<S, J, D>::should_retry, (&wrapper, &failure), retry),
    ensures
        retry <==> {
            ||| failure.error.code !is Success && !failure.unrecoverable
            ||| {
                &&& config.retry_on_errors matches Some(listed)
                &&& exists|i: int|
                    {
                        &&& 0 <= i < listed@.len()
                        &&& status_of(#[trigger] listed@[i]) == failure.error.code || (
                        failure.error.code is Success && listed@[i] is Unknown)
                    }
            }
        },
        call_requires(RetryWrapper::<S, J, D>::should_retry, (&wrapper, &failure)),
{
    law_recoverable_and_listed_failures_are_retried(config, failure);
}

/// A wait of an operation that has made `k` retries is one of the sleep function,
/// for what the jitter function makes of the configured delay, doubled once for
/// each retry and once more.
pub proof fn lemma_wait_after_retries<S: RetrySleepFn, J: RetryJitterFn, D>(
    config: Retry,
    wrapper: RetryWrapper<S, J, D>,
    durations: BackoffDurations<'_, J>,
    k: nat,
    wait: S::Fut,
)
    requires
        durations@ == after_retries(ProgressView::start(config@), k).schedule,
        durations.jitter_amt() == config.jitter,
        durations.jitter_fn() == wrapper.jitter_fn(),
        wrapper.may_sleep(durations, wait),
    ensures
        exists|delay: Duration, pause: Duration|
            {
                &&& delay@ == config.delay * 1_000_000 * pow2(k + 1)
                &&& #[trigger] wrapper.jitter_fn().gives(delay, config.jitter, pause)
                &&& call_ensures(J::jitter, (&wrapper.jitter_fn(), delay, config.jitter), pause)
                &&& #[trigger] wrapper.sleep_fn().gives(pause, wait)
                &&& call_ensures(S::sleep, (&wrapper.sleep_fn(), pause), wait)
            },
{
    law_view_shows_the_settings(config);
    lemma_delay_after_retries(config, k);
    let pause = choose|pause: Duration|
        {
            &&& durations.may_pause(pause)
            &&& #[trigger] wrapper.sleep_fn().gives(pause, wait)
            &&& call_ensures(S::sleep, (&wrapper.sleep_fn(), pause), wait)
        };
    let delay = choose|delay: Duration|
        {
            &&& delay@ == durations@.next_delay()
            &&& #[trigger] durations.jitter_fn().gives(delay, durations.jitter_amt(), pause)
            &&& call_ensures(
                J::jitter,
                (&durations.jitter_fn(), delay, durations.jitter_amt()),
                pause,
            )
        };
    assert(wrapper.jitter_fn().gives(delay, config.jitter, pause));
}

/// The delay that is due after `k` retries.
pub proof fn lemma_delay_after_retries(config: Retry, k: nat)
    ensures
        after_retries(ProgressView::start(config@), k).schedule.next_delay() == config.delay
            * 1_000_000 * pow2(k + 1),
        after_retries(ProgressView::start(config@), k).schedule.remaining == (config.max_retries
            - k) as nat,
{
    law_view_shows_the_settings(config);
    let base: nat = config@.delay * 1_000_000;
    lemma_pow2_unfold(k + 1);
    assert(2 * (base * pow2(k)) == base * (2 * pow2(k))) by (nonlinear_arith);
}

proof fn lemma_run_stands_at<'a, S: RetrySleepFn, J: RetryJitterFn, D, U>(
    config: Retry,
    wrapper: RetryWrapper<S, J, D>,
    durations: BackoffDurations<'a, J>,
    calls: Seq<&mut BackoffDurations<'a, J>>,
    outcomes: Seq<Result<U, Failure>>,
    steps: Seq<Step<U, S::Fut>>,
    k: int,
)
    requires
        wrapper.config() == config@,
        call_ensures(RetryWrapper::<S, J, D>::backoff_durations, (&wrapper,), durations),
        0 <= k < calls.len() == outcomes.len() == steps.len(),
        *calls[0] == durations,
        forall|j: int|
            0 < j < calls.len() ==> *(#[trigger] calls[j]) == *final(calls[j - 1]),
        forall|j: int|
            0 <= j < calls.len() ==> call_ensures(
                RetryWrapper::<S, J, D>::retry::<U>,
                (&wrapper, #[trigger] calls[j], outcomes[j]),
                steps[j],
            ),
        forall|j: int| 0 <= j < k ==> #[trigger] steps[j] is Sleep,
    ensures
        k <= config.max_retries,
        calls[k]@ == after_retries(ProgressView::start(config@), k as nat).schedule,
        calls[k].jitter_fn() == wrapper.jitter_fn(),
        calls[k].jitter_amt() == config.jitter,
    decreases k,
{
    let start = ProgressView::start(config@);
    law_view_shows_the_settings(config);
    lemma_schedule_after_retries(start, 0);
    if k > 0 {
        lemma_run_stands_at(config, wrapper, durations, calls, outcomes, steps, k - 1);
        lemma_schedule_after_retries(start, (k - 1) as nat);
        assert(call_ensures(
            RetryWrapper::<S, J, D>::retry::<U>,
            (&wrapper, calls[k - 1], outcomes[k - 1]),
            steps[k - 1],
        ));
        assert(steps[k - 1] is Sleep);
        assert(*calls[k] == *final(calls[k - 1]));
    }
}

/// What a wrapper makes of the attempts of an operation, from the first on, for as
/// long as it goes on waiting. An attempt that succeeds is returned with its value.
/// One that failed is returned with its error as it is, where it is not worth a
/// retry or none is left. Otherwise the wrapper waits with its sleep function, for
/// what its jitter function makes of the configured amount and of the configured
/// delay, doubled once for each attempt so far.
#[verifier::rlimit(50)]
pub proof fn law_wrapper_answers_each_attempt<'a, S: RetrySleepFn, J: RetryJitterFn, D, U>(
    config: Retry,
    wrapper: RetryWrapper<S, J, D>,
    durations: BackoffDurations<'a, J>,
    calls: Seq<&mut BackoffDurations<'a, J>>,
    outcomes: Seq<Result<U, Failure>>,
    steps: Seq<Step<U, S::Fut>>,
    k: int,
)
    requires
        wrapper.config() == config@,
        call_ensures(RetryWrapper::<S, J, D>::backoff_durations, (&wrapper,), durations),
        0 <= k < calls.len() == outcomes.len() == steps.len(),
        *calls[0] == durations,
        forall|j: int|
            0 < j < calls.len() ==> *(#[trigger] calls[j]) == *final(calls[j - 1]),
        forall|j: int|
            0 <= j < calls.len() ==> call_ensures(
                RetryWrapper::<S, J, D>::retry::<U>,
                (&wrapper, #[trigger] calls[j], outcomes[j]),
                steps[j],
            ),
        forall|j: int| 0 <= j < k ==> #[trigger] steps[j] is Sleep,
    ensures
        k <= config.max_retries,
        match outcomes[k] {
            Ok(value) => steps[k] == Step::<U, S::Fut>::Done(Ok(value)),
            Err(failure) => {
                let again = {
                    ||| failure.error.code !is Success && !failure.unrecoverable
                    ||| {
                        &&& config.retry_on_errors matches Some(listed)
                        &&& exists|i: int|
                            {
                                &&& 0 <= i < listed@.len()
                                &&& status_of(#[trigger] listed@[i]) == failure.error.code || (
                                failure.error.code is Success && listed@[i] is Unknown)
                            }
                    }
                };
                &&& again && k < config.max_retries ==> {
                    &&& steps[k] matches Step::Sleep(wait)
                    &&& exists|delay: Duration, pause: Duration|
                        {
                            &&& delay@ == config.delay * 1_000_000 * pow2((k + 1) as nat)
                            &&& #[trigger] wrapper.jitter_fn().gives(delay, config.jitter, pause)
                            &&& call_ensures(
                                J::jitter,
                                (&wrapper.jitter_fn(), delay, config.jitter),
                                pause,
                            )
                            &&& #[trigger] wrapper.sleep_fn().gives(pause, wait)
                            &&& call_ensures(S::sleep, (&wrapper.sleep_fn(), pause), wait)
                        }
                }
                &&& !again || k == config.max_retries ==> {
                    &&& steps[k] matches Step::Done(Err(error))
                    &&& error.code == failure.error.code
                    &&& error.messages@.map_values(|m: String| m@)
                        == failure.error.messages@.map_values(|m: String| m@)
                }
            },
        },
{
    lemma_run_stands_at(config, wrapper, durations, calls, outcomes, steps, k);
    lemma_delay_after_retries(config, k as nat);
    assert(call_ensures(
        RetryWrapper::<S, J, D>::retry::<U>,
        (&wrapper, calls[k], outcomes[k]),
        steps[k],
    ));
    if let Err(failure) = outcomes[k] {
        law_recoverable_and_listed_failures_are_retried(config, failure);
        if let Step::Sleep(wait) = steps[k] {
            lemma_wait_after_retries(config, wrapper, *calls[k], k as nat, wait);
        }
    }
}

/// The pauses of an operation count the retries, and the next attempt can be taken
/// up as long as the delay that it calls for, if it calls for one, is within the
/// range of a duration.
#[verifier::rlimit(50)]
pub proof fn law_wrapper_can_take_up_the_next_attempt<
    'a,
    S: RetrySleepFn,
    J: RetryJitterFn,
    D,
    U,
>(
    config: Retry,
    wrapper: RetryWrapper<S, J, D>,
    durations: BackoffDurations<'a, J>,
    calls: Seq<&mut BackoffDurations<'a, J>>,
    outcomes: Seq<Result<U, Failure>>,
    steps: Seq<Step<U, S::Fut>>,
    k: int,
)
    requires
        wrapper.config() == config@,
        call_ensures(RetryWrapper::<S, J, D>::backoff_durations, (&wrapper,), durations),
        0 <= k < calls.len() == outcomes.len() == steps.len(),
        *calls[0] == durations,
        forall|j: int|
            0 < j < calls.len() ==> *(#[trigger] calls[j]) == *final(calls[j - 1]),
        forall|j: int|
            0 <= j < calls.len() ==> call_ensures(
                RetryWrapper::<S, J, D>::retry::<U>,
                (&wrapper, #[trigger] calls[j], outcomes[j]),
                steps[j],
            ),
        forall|j: int| 0 <= j < k ==> #[trigger] steps[j] is Sleep,
    ensures
        forall|count: usize|
            call_ensures(BackoffDurations::<'a, J>::retries_made, (&*calls[k],), count) ==> count
                == k,
        forall|count: usize|
            call_ensures(BackoffDurations::<'a, J>::retries_made, (&*final(calls[k]),), count)
                ==> count == if steps[k] is Sleep {
                k + 1
            } else {
                k
            },
        call_requires(RetryWrapper::<S, J, D>::backoff_durations, (&wrapper,)),
        ({
            let waits = outcomes[k] matches Err(failure) && k < config.max_retries && {
                ||| failure.error.code !is Success && !failure.unrecoverable
                ||| {
                    &&& config.retry_on_errors matches Some(listed)
                    &&& exists|i: int|
                        {
                            &&& 0 <= i < listed@.len()
                            &&& status_of(#[trigger] listed@[i]) == failure.error.code || (
                            failure.error.code is Success && listed@[i] is Unknown)
                        }
                }
            };
            let in_range = waits ==> config.delay * 1_000_000 * pow2((k + 1) as nat)
                <= 18_446_744_073_709_551_615_999_999_999;
            &&& forall|room: bool|
                call_ensures(
                    RetryWrapper::<S, J, D>::has_room::<U>,
                    (&wrapper, &*calls[k], &outcomes[k]),
                    room,
                ) ==> (room <==> in_range)
            &&& forall|room: bool|
                call_ensures(
                    RetryWrapper::<S, J, D>::has_room_after,
                    (&wrapper, &*calls[k], &outcomes[k]->Err_0),
                    room,
                ) && outcomes[k] is Err ==> (room <==> in_range)
            &&& in_range && (forall|delay: Duration| #[trigger]
                wrapper.jitter_fn().accepts(delay, config.jitter)) && (forall|pause: Duration|
             #[trigger]
                wrapper.sleep_fn().accepts(pause)) ==> call_requires(
                RetryWrapper::<S, J, D>::retry::<U>,
                (&wrapper, calls[k], outcomes[k]),
            )
        }),
{
    lemma_run_stands_at(config, wrapper, durations, calls, outcomes, steps, k);
    lemma_delay_after_retries(config, k as nat);
    law_view_shows_the_settings(config);
    assert(call_ensures(
        RetryWrapper::<S, J, D>::retry::<U>,
        (&wrapper, calls[k], outcomes[k]),
        steps[k],
    ));
    if let Err(failure) = outcomes[k] {
        law_recoverable_and_listed_failures_are_retried(config, failure);
    }
    if (forall|delay: Duration| #[trigger] wrapper.jitter_fn().accepts(delay, config.jitter)) && (
    forall|pause: Duration| #[trigger] wrapper.sleep_fn().accepts(pause)) {
        assert(wrapper.can_wait(*calls[k]));
    }
}

/// The pauses of a wrapper: one for each retry and then no more, the `i`-th being
/// what the jitter function makes of the configured amount and of the configured
/// delay, doubled `i` times.
pub proof fn law_wrapper_pauses_are_varied_delays<'a, S, J: RetryJitterFn, D>(
    config: Retry,
    wrapper: RetryWrapper<S, J, D>,
    durations: BackoffDurations<'a, J>,
    calls: Seq<&mut BackoffDurations<'a, J>>,
    pauses: Seq<Option<Duration>>,
    i: int,
)
    requires
        wrapper.config() == config@,
        call_ensures(RetryWrapper::<S, J, D>::backoff_durations, (&wrapper,), durations),
        0 <= i < calls.len() == pauses.len(),
        *calls[0] == durations,
        forall|j: int|
            0 < j < calls.len() ==> *(#[trigger] calls[j]) == *final(calls[j - 1]),
        forall|j: int|
            0 <= j < calls.len() ==> call_ensures(
                BackoffDurations::<'a, J>::next,
                (#[trigger] calls[j],),
                pauses[j],
            ),
    ensures
        pauses[i] is Some <==> i < config.max_retries,
        pauses[i] matches Some(pause) ==> exists|delay: Duration|
            {
                &&& delay@ == config.delay * 1_000_000 * pow2((i + 1) as nat)
                &&& #[trigger] wrapper.jitter_fn().gives(delay, config.jitter, pause)
                &&& call_ensures(J::jitter, (&wrapper.jitter_fn(), delay, config.jitter), pause)
            },
{
    law_view_shows_the_settings(config);
    lemma_backoff_durations_give(config, calls, pauses, i);
}

} // verus!
