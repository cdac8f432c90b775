//! What the calls of a whole operation that consumes a stream come to, one after
//! the other.
use crate::backoff::BackoffDurations;
use crate::chunk::{
    bytes_content, contents, law_chunks_with_bytes_stay, law_contents_keep_their_places,
    law_data_joins_the_chunks, law_empty_chunks_hold_no_data, non_empty,
};
use crate::codes::status_of;
use crate::config::{law_view_shows_the_settings, Retry};
use crate::duration::Duration;
use crate::hooks::{RetryJitterFn, RetrySleepFn};
use crate::runs::{after_retries, lemma_schedule_after_retries};
use crate::step::ProgressView;
use crate::upload::{ReaderEvent, ReaderPhase, ReaderRetry, ReaderStep};
use crate::wrapper::RetryWrapper;
use crate::wrapper_laws::{
    law_recoverable_and_listed_failures_are_retried, lemma_delay_after_retries,
    lemma_wait_after_retries,
};
use bytes::Bytes;
use vstd::arithmetic::power2::pow2;
use vstd::prelude::*;

verus! {

proof fn lemma_filter_map_last<A, B>(s: Seq<A>, f: spec_fn(A) -> Option<B>, k: int)
    requires
        0 <= k < s.len(),
    ensures
        s.take(0).filter_map(f) == Seq::<B>::empty(),
        s.take(k + 1).filter_map(f) == match f(s[k]) {
            Some(b) => s.take(k).filter_map(f).push(b),
            None => s.take(k).filter_map(f),
        },
{
    assert(s.take(k + 1).drop_last() =~= s.take(k));
    if let Some(b) = f(s[k]) {
        assert(s.take(k + 1).filter_map(f) =~= s.take(k).filter_map(f).push(b));
    }
}

proof fn lemma_given_at<'a, 'r, S: RetrySleepFn, J: RetryJitterFn, D, U, R>(
    wrapper: RetryWrapper<S, J, D>,
    reader: &'r mut R,
    state: ReaderRetry<'a, 'r, J, R>,
    accesses: Seq<&mut ReaderRetry<'a, 'r, J, R>>,
    sources: Seq<&mut R>,
    calls: Seq<&mut ReaderRetry<'a, 'r, J, R>>,
    events: Seq<ReaderEvent<U>>,
    steps: Seq<ReaderStep<U, S::Fut>>,
    brings: spec_fn(ReaderEvent<U>) -> Option<Seq<u8>>,
    keeps: spec_fn(ReaderEvent<U>) -> Option<Seq<u8>>,
    k: int,
)
    requires
        call_ensures(
            RetryWrapper::<S, J, D>::start_with_reader::<R>,
            (&wrapper, reader),
            state,
        ),
        0 <= k < calls.len() == events.len() == steps.len(),
        *calls[0] == state,
        forall|j: int|
            0 < j < calls.len() ==> *(#[trigger] calls[j]) == *final(calls[j - 1]) || {
                &&& *accesses[j] == *final(calls[j - 1])
                &&& call_ensures(
                    ReaderRetry::<'a, 'r, J, R>::source,
                    (accesses[j],),
                    sources[j],
                )
                &&& *calls[j] == *final(accesses[j])
            },
        forall|j: int|
            0 <= j < calls.len() ==> call_ensures(
                RetryWrapper::<S, J, D>::retry_with_reader::<U, R>,
                (&wrapper, #[trigger] calls[j], events[j]),
                steps[j],
            ),
        forall|e: ReaderEvent<U>|
            #[trigger] brings(e) == match e {
                ReaderEvent::Chunk(chunk) => Some(bytes_content(chunk)),
                _ => None,
            },
        forall|e: ReaderEvent<U>|
            #[trigger] keeps(e) == match e {
                ReaderEvent::Chunk(chunk) => if bytes_content(chunk).len() > 0 {
                    Some(bytes_content(chunk))
                } else {
                    None
                },
                _ => None,
            },
    ensures
        calls[k]@.given == events.take(k).filter_map(brings),
        non_empty(calls[k]@.given) == events.take(k).filter_map(keeps),
    decreases k,
{
    if k == 0 {
        lemma_filter_map_last(events, brings, 0);
        lemma_filter_map_last(events, keeps, 0);
        law_chunks_with_bytes_stay(seq![], seq![]);
    } else {
        lemma_given_at(
            wrapper,
            reader,
            state,
            accesses,
            sources,
            calls,
            events,
            steps,
            brings,
            keeps,
            k - 1,
        );
        assert(call_ensures(
            RetryWrapper::<S, J, D>::retry_with_reader::<U, R>,
            (&wrapper, calls[k - 1], events[k - 1]),
            steps[k - 1],
        ));
        assert(*calls[k] == *final(calls[k - 1]) || *calls[k] == *final(accesses[k]));
        lemma_filter_map_last(events, brings, k - 1);
        lemma_filter_map_last(events, keeps, k - 1);
        if let ReaderEvent::Chunk(chunk) = events[k - 1] {
            law_chunks_with_bytes_stay(calls[k - 1]@.given, bytes_content(chunk));
        }
    }
}

/// Every attempt of an operation is sent all the data that the source has given out,
/// to whichever attempt it was. When an attempt begins, it is sent the chunks of all
/// the attempts before it, each with its bytes, in the order in which the source gave
/// them out and without the empty ones. Joined, that is all that was given out. From
/// then on, it is sent each chunk that the source gives out.
#[verifier::rlimit(50)]
pub proof fn law_each_attempt_is_sent_all_data<
    'a,
    'r,
    S: RetrySleepFn,
    J: RetryJitterFn,
    D,
    U,
    R,
>(
    wrapper: RetryWrapper<S, J, D>,
    reader: &'r mut R,
    state: ReaderRetry<'a, 'r, J, R>,
    accesses: Seq<&mut ReaderRetry<'a, 'r, J, R>>,
    sources: Seq<&mut R>,
    calls: Seq<&mut ReaderRetry<'a, 'r, J, R>>,
    events: Seq<ReaderEvent<U>>,
    steps: Seq<ReaderStep<U, S::Fut>>,
    k: int,
)
    requires
        call_ensures(
            RetryWrapper::<S, J, D>::start_with_reader::<R>,
            (&wrapper, reader),
            state,
        ),
        0 <= k < calls.len() == events.len() == steps.len(),
        *calls[0] == state,
        forall|j: int|
            0 < j < calls.len() ==> *(#[trigger] calls[j]) == *final(calls[j - 1]) || {
                &&& *accesses[j] == *final(calls[j - 1])
                &&& call_ensures(
                    ReaderRetry::<'a, 'r, J, R>::source,
                    (accesses[j],),
                    sources[j],
                )
                &&& *calls[j] == *final(accesses[j])
            },
        forall|j: int|
            0 <= j < calls.len() ==> call_ensures(
                RetryWrapper::<S, J, D>::retry_with_reader::<U, R>,
                (&wrapper, #[trigger] calls[j], events[j]),
                steps[j],
            ),
    ensures
        events[k] is Begin ==> {
            let earlier = events.take(k).filter_map(
                |e: ReaderEvent<U>|
                    match e {
                        ReaderEvent::Chunk(chunk) => if bytes_content(chunk).len() > 0 {
                            Some(bytes_content(chunk))
                        } else {
                            None
                        },
                        _ => None,
                    },
            );
            &&& steps[k] matches ReaderStep::Replay(chunks)
            &&& chunks@.len() == earlier.len()
            &&& forall|i: int|
                0 <= i < chunks@.len() ==> bytes_content(#[trigger] chunks@[i]) == earlier[i]
        },
        events[k] is Begin ==> {
            &&& steps[k] matches ReaderStep::Replay(chunks)
            &&& chunks@.map_values(|chunk: Bytes| bytes_content(chunk)).flatten() == events.take(
                k,
            ).filter_map(
                |e: ReaderEvent<U>|
                    match e {
                        ReaderEvent::Chunk(chunk) => Some(bytes_content(chunk)),
                        _ => None,
                    },
            ).flatten()
        },
        events[k] matches ReaderEvent::Chunk(chunk) ==> {
            &&& steps[k] matches ReaderStep::Forward(forwarded)
            &&& bytes_content(forwarded) == bytes_content(chunk)
        },
{
    let brings = |e: ReaderEvent<U>|
        match e {
            ReaderEvent::Chunk(chunk) => Some(bytes_content(chunk)),
            _ => None,
        };
    let keeps = |e: ReaderEvent<U>|
        match e {
            ReaderEvent::Chunk(chunk) => if bytes_content(chunk).len() > 0 {
                Some(bytes_content(chunk))
            } else {
                None
            },
            _ => None,
        };
    lemma_given_at(
        wrapper,
        reader,
        state,
        accesses,
        sources,
        calls,
        events,
        steps,
        brings,
        keeps,
        k,
    );
    assert(call_ensures(
        RetryWrapper::<S, J, D>::retry_with_reader::<U, R>,
        (&wrapper, calls[k], events[k]),
        steps[k],
    ));
    let given = calls[k]@.given;
    if let ReaderStep::Replay(chunks) = steps[k] {
        law_contents_keep_their_places(chunks@);
        assert(contents(chunks@) =~= chunks@.map_values(|chunk: Bytes| bytes_content(chunk)));
        law_empty_chunks_hold_no_data(given);
        law_data_joins_the_chunks(given);
        law_data_joins_the_chunks(non_empty(given));
    }
    if let ReaderEvent::Chunk(chunk) = events[k] {
        if let ReaderStep::Forward(forwarded) = steps[k] {
            assert(seq![bytes_content(forwarded)][0] == seq![bytes_content(chunk)][0]);
        }
    }
}

proof fn lemma_schedule_of_calls<'a, 'r, S: RetrySleepFn, J: RetryJitterFn, D, U, R>(
    config: Retry,
    wrapper: RetryWrapper<S, J, D>,
    reader: &'r mut R,
    state: ReaderRetry<'a, 'r, J, R>,
    accesses: Seq<&mut ReaderRetry<'a, 'r, J, R>>,
    sources: Seq<&mut R>,
    calls: Seq<&mut ReaderRetry<'a, 'r, J, R>>,
    events: Seq<ReaderEvent<U>>,
    steps: Seq<ReaderStep<U, S::Fut>>,
    sleeps: spec_fn(ReaderStep<U, S::Fut>) -> bool,
    k: int,
)
    requires
        wrapper.config() == config@,
        call_ensures(
            RetryWrapper::<S, J, D>::start_with_reader::<R>,
            (&wrapper, reader),
            state,
        ),
        0 <= k < calls.len() == events.len() == steps.len(),
        *calls[0] == state,
        forall|j: int|
            0 < j < calls.len() ==> *(#[trigger] calls[j]) == *final(calls[j - 1]) || {
                &&& *accesses[j] == *final(calls[j - 1])
                &&& call_ensures(
                    ReaderRetry::<'a, 'r, J, R>::source,
                    (accesses[j],),
                    sources[j],
                )
                &&& *calls[j] == *final(accesses[j])
            },
        forall|j: int|
            0 <= j < calls.len() ==> call_ensures(
                RetryWrapper::<S, J, D>::retry_with_reader::<U, R>,
                (&wrapper, #[trigger] calls[j], events[j]),
                steps[j],
            ),
        forall|s: ReaderStep<U, S::Fut>| #[trigger] sleeps(s) == (s is Sleep),
    ensures
        steps.take(k).filter(sleeps).len() <= config.max_retries,
        calls[k]@.schedule == after_retries(
            ProgressView::start(config@),
            steps.take(k).filter(sleeps).len(),
        ).schedule,
        calls[k].durations().jitter_fn() == wrapper.jitter_fn(),
        calls[k].durations().jitter_amt() == config.jitter,
    decreases k,
{
    let start = ProgressView::start(config@);
    reveal(Seq::filter);
    law_view_shows_the_settings(config);
    lemma_schedule_after_retries(start, 0);
    if k > 0 {
        lemma_schedule_of_calls(
            config,
            wrapper,
            reader,
            state,
            accesses,
            sources,
            calls,
            events,
            steps,
            sleeps,
            k - 1,
        );
        lemma_schedule_after_retries(start, steps.take(k - 1).filter(sleeps).len());
        assert(call_ensures(
            RetryWrapper::<S, J, D>::retry_with_reader::<U, R>,
            (&wrapper, calls[k - 1], events[k - 1]),
            steps[k - 1],
        ));
        assert(*calls[k] == *final(calls[k - 1]) || *calls[k] == *final(accesses[k]));
        assert(steps.take(k).drop_last() =~= steps.take(k - 1));
        assert(steps.take(k).last() == steps[k - 1]);
        assert(sleeps(steps[k - 1]) == (steps[k - 1] is Sleep));
    }
}

/// What comes of an attempt of an operation that has waited `waits` times so far,
/// which is never more often than there are retries. One that succeeds is returned
/// with its value. One that failed is returned with its error as it is, where it is
/// not worth a retry or none is left. Otherwise the operation waits with the sleep
/// function, for what the jitter function makes of the configured amount and of the
/// configured delay, doubled once for each wait so far and once more.
#[verifier::rlimit(50)]
pub proof fn law_upload_answers_each_attempt<
    'a,
    'r,
    S: RetrySleepFn,
    J: RetryJitterFn,
    D,
    U,
    R,
>(
    config: Retry,
    wrapper: RetryWrapper<S, J, D>,
    reader: &'r mut R,
    state: ReaderRetry<'a, 'r, J, R>,
    accesses: Seq<&mut ReaderRetry<'a, 'r, J, R>>,
    sources: Seq<&mut R>,
    calls: Seq<&mut ReaderRetry<'a, 'r, J, R>>,
    events: Seq<ReaderEvent<U>>,
    steps: Seq<ReaderStep<U, S::Fut>>,
    k: int,
    waits: nat,
)
    requires
        wrapper.config() == config@,
        call_ensures(
            RetryWrapper::<S, J, D>::start_with_reader::<R>,
            (&wrapper, reader),
            state,
        ),
        0 <= k < calls.len() == events.len() == steps.len(),
        *calls[0] == state,
        forall|j: int|
            0 < j < calls.len() ==> *(#[trigger] calls[j]) == *final(calls[j - 1]) || {
                &&& *accesses[j] == *final(calls[j - 1])
                &&& call_ensures(
                    ReaderRetry::<'a, 'r, J, R>::source,
                    (accesses[j],),
                    sources[j],
                )
                &&& *calls[j] == *final(accesses[j])
            },
        forall|j: int|
            0 <= j < calls.len() ==> call_ensures(
                RetryWrapper::<S, J, D>::retry_with_reader::<U, R>,
                (&wrapper, #[trigger] calls[j], events[j]),
                steps[j],
            ),
        waits == steps.take(k).filter(|s: ReaderStep<U, S::Fut>| s is Sleep).len(),
    ensures
        waits <= config.max_retries,
        events[k] matches ReaderEvent::Finished(outcome) ==> match outcome {
            Ok(value) => steps[k] == ReaderStep::<U, S::Fut>::Done(Ok(value)),
            Err(failure) => {
                let again = {
                    ||| failure.error.code !is Success && !failure.unrecoverable
                    ||| {
                        &&& config.retry_on_errors matches Some(listed)
                        &&& exists|i: int|
                            {
                                &&& 0 <= i < listed@.len()
                                &&& status_of(#[trigger] listed@[i]) == failure.error.code || (
                                failure.error.code is Success && listed@[i] is Unknown)
                            }
                    }
                };
                &&& again && waits < config.max_retries ==> {
                    &&& steps[k] matches ReaderStep::Sleep(wait)
                    &&& exists|delay: Duration, pause: Duration|
                        {
                            &&& delay@ == config.delay * 1_000_000 * pow2(waits + 1)
                            &&& #[trigger] wrapper.jitter_fn().gives(delay, config.jitter, pause)
                            &&& call_ensures(
                                J::jitter,
                                (&wrapper.jitter_fn(), delay, config.jitter),
                                pause,
                            )
                            &&& #[trigger] wrapper.sleep_fn().gives(pause, wait)
                            &&& call_ensures(S::sleep, (&wrapper.sleep_fn(), pause), wait)
                        }
                }
                &&& !again || waits == config.max_retries ==> {
                    &&& steps[k] matches ReaderStep::Done(Err(error))
                    &&& error.code == failure.error.code
                    &&& error.messages@.map_values(|m: String| m@)
                        == failure.error.messages@.map_values(|m: String| m@)
                }
            },
        },
{
    let sleeps = |s: ReaderStep<U, S::Fut>| s is Sleep;
    lemma_schedule_of_calls(
        config,
        wrapper,
        reader,
        state,
        accesses,
        sources,
        calls,
        events,
        steps,
        sleeps,
        k,
    );
    lemma_delay_after_retries(config, waits);
    assert(call_ensures(
        RetryWrapper::<S, J, D>::retry_with_reader::<U, R>,
        (&wrapper, calls[k], events[k]),
        steps[k],
    ));
    if let ReaderEvent::Finished(Err(failure)) = events[k] {
        law_recoverable_and_listed_failures_are_retried(config, failure);
        if let ReaderStep::Sleep(wait) = steps[k] {
            lemma_wait_after_retries(config, wrapper, calls[k].durations(), waits, wait);
        }
    }
}

/// An operation can take up what happens next: first an attempt begins, after each
/// wait another one does, and in between come chunks and the end of the attempt.
/// Only the delay that a failed attempt calls for, if it calls for one, has to be
/// within the range of a duration. After its result it takes up nothing any more.
#[verifier::rlimit(50)]
pub proof fn law_upload_can_take_up_what_happens_next<
    'a,
    'r,
    S: RetrySleepFn,
    J: RetryJitterFn,
    D,
    U,
    R,
>(
    config: Retry,
    wrapper: RetryWrapper<S, J, D>,
    reader: &'r mut R,
    state: ReaderRetry<'a, 'r, J, R>,
    accesses: Seq<&mut ReaderRetry<'a, 'r, J, R>>,
    sources: Seq<&mut R>,
    calls: Seq<&mut ReaderRetry<'a, 'r, J, R>>,
    events: Seq<ReaderEvent<U>>,
    steps: Seq<ReaderStep<U, S::Fut>>,
    next: &mut ReaderRetry<'a, 'r, J, R>,
    event: ReaderEvent<U>,
    k: int,
    waits: nat,
)
    requires
        wrapper.config() == config@,
        call_ensures(
            RetryWrapper::<S, J, D>::start_with_reader::<R>,
            (&wrapper, reader),
            state,
        ),
        0 <= k < calls.len() == events.len() == steps.len(),
        *calls[0] == state,
        forall|j: int|
            0 < j < calls.len() ==> *(#[trigger] calls[j]) == *final(calls[j - 1]) || {
                &&& *accesses[j] == *final(calls[j - 1])
                &&& call_ensures(
                    ReaderRetry::<'a, 'r, J, R>::source,
                    (accesses[j],),
                    sources[j],
                )
                &&& *calls[j] == *final(accesses[j])
            },
        forall|j: int|
            0 <= j < calls.len() ==> call_ensures(
                RetryWrapper::<S, J, D>::retry_with_reader::<U, R>,
                (&wrapper, #[trigger] calls[j], events[j]),
                steps[j],
            ),
        events[0] is Begin,
        forall|j: int|
            0 < j < events.len() ==> match steps[j - 1] {
                ReaderStep::Replay(_) => #[trigger] events[j] !is Begin,
                ReaderStep::Forward(_) => events[j] !is Begin,
                ReaderStep::Sleep(_) => events[j] is Begin,
                ReaderStep::Done(_) => false,
            },
        k == calls.len() - 1,
        *old(next) == *final(calls[k]),
        waits == steps.filter(|s: ReaderStep<U, S::Fut>| s is Sleep).len(),
    ensures
        forall|phase: ReaderPhase|
            call_ensures(
                ReaderRetry::<'a, 'r, J, R>::phase,
                (&*old(next),),
                phase,
            ) ==> match steps[k] {
                ReaderStep::Replay(_) => phase is Running,
                ReaderStep::Forward(_) => phase is Running,
                ReaderStep::Sleep(_) => phase is Ready,
                ReaderStep::Done(_) => phase is Ended,
            },
        forall|pauses: &BackoffDurations<'a, J>, count: usize|
            call_ensures(ReaderRetry::<'a, 'r, J, R>::pauses, (&*old(next),), pauses)
                && call_ensures(BackoffDurations::<'a, J>::retries_made, (pauses,), count)
                ==> count == waits,
        ({
            let fits = match steps[k] {
                ReaderStep::Replay(_) => event !is Begin,
                ReaderStep::Forward(_) => event !is Begin,
                ReaderStep::Sleep(_) => event is Begin,
                ReaderStep::Done(_) => false,
            };
            let in_range = match event {
                ReaderEvent::Finished(Err(failure)) => waits < config.max_retries && {
                    ||| failure.error.code !is Success && !failure.unrecoverable
                    ||| {
                        &&& config.retry_on_errors matches Some(listed)
                        &&& exists|i: int|
                            {
                                &&& 0 <= i < listed@.len()
                                &&& status_of(#[trigger] listed@[i]) == failure.error.code || (
                                failure.error.code is Success && listed@[i] is Unknown)
                            }
                    }
                } ==> config.delay * 1_000_000 * pow2(waits + 1)
                    <= 18_446_744_073_709_551_615_999_999_999,
                _ => true,
            };
            &&& forall|room: bool|
                call_ensures(
                    RetryWrapper::<S, J, D>::reader_has_room::<U, R>,
                    (&wrapper, &*old(next), &event),
                    room,
                ) ==> (room <==> fits && in_range)
            &&& fits && in_range && (forall|delay: Duration| #[trigger]
                wrapper.jitter_fn().accepts(delay, config.jitter)) && (forall|pause: Duration|
             #[trigger]
                wrapper.sleep_fn().accepts(pause)) ==> call_requires(
                RetryWrapper::<S, J, D>::retry_with_reader::<U, R>,
                (&wrapper, next, event),
            )
        }),
{
    let sleeps = |s: ReaderStep<U, S::Fut>| s is Sleep;
    lemma_schedule_of_calls(
        config,
        wrapper,
        reader,
        state,
        accesses,
        sources,
        calls,
        events,
        steps,
        sleeps,
        k,
    );
    lemma_phase_of_calls(
        wrapper,
        reader,
        state,
        accesses,
        sources,
        calls,
        events,
        steps,
        k,
    );
    reveal(Seq::filter);
    assert(steps.drop_last() =~= steps.take(k));
    lemma_schedule_after_retries(
        ProgressView::start(config@),
        steps.take(k).filter(sleeps).len(),
    );
    lemma_delay_after_retries(config, waits);
    assert(call_ensures(
        RetryWrapper::<S, J, D>::retry_with_reader::<U, R>,
        (&wrapper, calls[k], events[k]),
        steps[k],
    ));
    assert(old(next)@.schedule == after_retries(ProgressView::start(config@), waits).schedule);
    law_view_shows_the_settings(config);
    if let ReaderEvent::Finished(Err(failure)) = event {
        law_recoverable_and_listed_failures_are_retried(config, failure);
    }
    if (forall|delay: Duration| #[trigger] wrapper.jitter_fn().accepts(delay, config.jitter)) && (
    forall|pause: Duration| #[trigger] wrapper.sleep_fn().accepts(pause)) {
        assert(wrapper.can_wait(old(next).durations()));
    }
}

proof fn lemma_phase_of_calls<'a, 'r, S: RetrySleepFn, J: RetryJitterFn, D, U, R>(
    wrapper: RetryWrapper<S, J, D>,
    reader: &'r mut R,
    state: ReaderRetry<'a, 'r, J, R>,
    accesses: Seq<&mut ReaderRetry<'a, 'r, J, R>>,
    sources: Seq<&mut R>,
    calls: Seq<&mut ReaderRetry<'a, 'r, J, R>>,
    events: Seq<ReaderEvent<U>>,
    steps: Seq<ReaderStep<U, S::Fut>>,
    k: int,
)
    requires
        call_ensures(
            RetryWrapper::<S, J, D>::start_with_reader::<R>,
            (&wrapper, reader),
            state,
        ),
        0 <= k < calls.len() == events.len() == steps.len(),
        *calls[0] == state,
        forall|j: int|
            0 < j < calls.len() ==> *(#[trigger] calls[j]) == *final(calls[j - 1]) || {
                &&& *accesses[j] == *final(calls[j - 1])
                &&& call_ensures(
                    ReaderRetry::<'a, 'r, J, R>::source,
                    (accesses[j],),
                    sources[j],
                )
                &&& *calls[j] == *final(accesses[j])
            },
        forall|j: int|
            0 <= j < calls.len() ==> call_ensures(
                RetryWrapper::<S, J, D>::retry_with_reader::<U, R>,
                (&wrapper, #[trigger] calls[j], events[j]),
                steps[j],
            ),
        events[0] is Begin,
        forall|j: int|
            0 < j < events.len() ==> match steps[j - 1] {
                ReaderStep::Replay(_) => #[trigger] events[j] !is Begin,
                ReaderStep::Forward(_) => events[j] !is Begin,
                ReaderStep::Sleep(_) => events[j] is Begin,
                ReaderStep::Done(_) => false,
            },
    ensures
        calls[k]@.phase == if k == 0 {
            ReaderPhase::Ready
        } else {
            match steps[k - 1] {
                ReaderStep::Replay(_) => ReaderPhase::Running,
                ReaderStep::Forward(_) => ReaderPhase::Running,
                ReaderStep::Sleep(_) => ReaderPhase::Ready,
                ReaderStep::Done(_) => ReaderPhase::Ended,
            }
        },
    decreases k,
{
    if k > 0 {
        lemma_phase_of_calls(
            wrapper,
            reader,
            state,
            accesses,
            sources,
            calls,
            events,
            steps,
            k - 1,
        );
        assert(call_ensures(
            RetryWrapper::<S, J, D>::retry_with_reader::<U, R>,
            (&wrapper, calls[k - 1], events[k - 1]),
            steps[k - 1],
        ));
        assert(*calls[k] == *final(calls[k - 1]) || *calls[k] == *final(accesses[k]));
    }
}

/// An operation on a source begins with an attempt, and takes up nothing else before.
/// Its source is the one that it was given.
pub proof fn law_upload_starts_with_an_attempt<
    'a,
    'r,
    S: RetrySleepFn,
    J: RetryJitterFn,
    D,
    U,
    R,
>(
    wrapper: RetryWrapper<S, J, D>,
    reader: &'r mut R,
    state: ReaderRetry<'a, 'r, J, R>,
    next: &mut ReaderRetry<'a, 'r, J, R>,
    event: ReaderEvent<U>,
)
    requires
        call_ensures(
            RetryWrapper::<S, J, D>::start_with_reader::<R>,
            (&wrapper, reader),
            state,
        ),
        *old(next) == state,
    ensures
        forall|phase: ReaderPhase|
            call_ensures(ReaderRetry::<'a, 'r, J, R>::phase, (&state,), phase) ==> phase is Ready,
        forall|room: bool|
            call_ensures(
                RetryWrapper::<S, J, D>::reader_has_room::<U, R>,
                (&wrapper, &state, &event),
                room,
            ) ==> (room <==> event is Begin),
        event is Begin && (forall|delay: Duration| #[trigger]
            wrapper.jitter_fn().accepts(delay, wrapper.config().jitter)) && (forall|
            pause: Duration,
        | #[trigger] wrapper.sleep_fn().accepts(pause)) ==> call_requires(
            RetryWrapper::<S, J, D>::retry_with_reader::<U, R>,
            (&wrapper, next, event),
        ),
        forall|source: &mut R|
            call_ensures(ReaderRetry::<'a, 'r, J, R>::source, (next,), source) ==> *source == *old(
                reader,
            ),
{
    if (forall|delay: Duration| #[trigger]
        wrapper.jitter_fn().accepts(delay, wrapper.config().jitter)) && (forall|pause: Duration|
     #[trigger]
        wrapper.sleep_fn().accepts(pause)) {
        assert(wrapper.can_wait(state.durations()));
    }
}

} // verus!
