//! What the calls of a whole operation on a file come to, one after the other.
use crate::backoff::BackoffDurations;
use crate::codes::status_of;
use crate::config::{law_view_shows_the_settings, Retry};
use crate::duration::Duration;
use crate::file::{FileEvent, FilePart, FilePhase, FileRetry, FileStep};
use crate::hooks::{RetryJitterFn, RetrySleepFn};
use crate::runs::{after_retries, lemma_schedule_after_retries};
use crate::step::ProgressView;
use crate::wrapper::{Failure, RetryWrapper};
use crate::wrapper_laws::{
    law_recoverable_and_listed_failures_are_retried, lemma_delay_after_retries,
    lemma_wait_after_retries,
};
use vstd::arithmetic::power2::pow2;
use vstd::prelude::*;

verus! {

/// What an operation that has taken this step waits for.
spec fn phase_after<U, Fut>(step: FileStep<U, Fut>, part: FilePart) -> FilePhase {
    match step {
        FileStep::GetReader => FilePhase::AttemptReader(part),
        FileStep::GetPosition => FilePhase::Position { limit: part.limit },
        FileStep::Close => FilePhase::Close(part),
        FileStep::Open { read_limit: _ } => FilePhase::Open(part),
        FileStep::Seek(_) => FilePhase::Seek(part),
        FileStep::Attempt { limit: _ } => FilePhase::Attempt(part),
        FileStep::Sleep(_) => FilePhase::Pause(part),
        FileStep::Done(_) => FilePhase::Ended,
    }
}

/// The part that a file was set to when it was handed in, as the events tell it.
spec fn part_told<U>(events: Seq<FileEvent<U>>) -> FilePart {
    FilePart { start: events[1]->Position_0, limit: events[0]->limit }
}

proof fn lemma_phase_of_calls<'a, S: RetrySleepFn, J: RetryJitterFn, D, U>(
    config: Retry,
    wrapper: RetryWrapper<S, J, D>,
    state: FileRetry<'a, J>,
    calls: Seq<&mut FileRetry<'a, J>>,
    events: Seq<FileEvent<U>>,
    steps: Seq<FileStep<U, S::Fut>>,
    k: int,
)
    requires
        wrapper.config() == config@,
        call_ensures(RetryWrapper::<S, J, D>::start_with_file, (&wrapper,), state),
        0 <= k < calls.len() == events.len() == steps.len(),
        *calls[0] == state,
        forall|j: int|
            0 < j < calls.len() ==> *(#[trigger] calls[j]) == *final(calls[j - 1]),
        forall|j: int|
            0 <= j < calls.len() ==> call_ensures(
                RetryWrapper::<S, J, D>::retry_with_file::<U>,
                (&wrapper, #[trigger] calls[j], events[j]),
                steps[j],
            ),
        events[0] is ReaderReady || events[0] is Failed,
        forall|j: int|
            0 < j < events.len() ==> match steps[j - 1] {
                FileStep::GetReader => #[trigger] events[j] is ReaderReady || events[j] is Failed,
                FileStep::GetPosition => events[j] is Position || events[j] is Failed,
                FileStep::Close => events[j] is Closed || events[j] is Failed,
                FileStep::Open { read_limit: _ } => events[j] is Opened || events[j] is Failed,
                FileStep::Seek(offset) => events[j] == FileEvent::<U>::Sought(offset)
                    || events[j] is Failed,
                FileStep::Attempt { limit: _ } => events[j] is Finished,
                FileStep::Sleep(_) => events[j] is Woke,
                FileStep::Done(_) => false,
            },
    ensures
        k == 0 ==> calls[k]@.phase is Reader,
        k > 0 ==> calls[k]@.phase == phase_after(steps[k - 1], part_told(events)),
        k > 0 ==> (steps[k - 1] is GetPosition <==> k == 1 && events[0] is ReaderReady),
        k > 0 ==> (steps[k - 1] is Close <==> k == 2 && events[1] is Position),
        k > 0 && steps[k - 1] !is Done ==> events[0] is ReaderReady,
        k > 1 && steps[k - 1] !is Done ==> events[1] is Position,
        k > 2 && steps[k - 1] !is Done ==> events[2] is Closed,
    decreases k,
{
    if k > 0 {
        lemma_phase_of_calls(config, wrapper, state, calls, events, steps, k - 1);
        assert(call_ensures(
            RetryWrapper::<S, J, D>::retry_with_file::<U>,
            (&wrapper, calls[k - 1], events[k - 1]),
            steps[k - 1],
        ));
        assert(*calls[k] == *final(calls[k - 1]));
    }
}

/// Every attempt of an operation reads the part of the file that it was set to when
/// it was handed in. First the reader, its limit and its position are taken and the
/// file is closed. For each attempt the file is opened again without a limit, its
/// reader is taken, brought to where the first one stood and limited to what the
/// first one was limited to. A failure before the file is closed is returned, with a
/// note on where it came up.
#[verifier::rlimit(50)]
pub proof fn law_each_attempt_reads_the_same_part<'a, S: RetrySleepFn, J: RetryJitterFn, D, U>(
    config: Retry,
    wrapper: RetryWrapper<S, J, D>,
    state: FileRetry<'a, J>,
    calls: Seq<&mut FileRetry<'a, J>>,
    events: Seq<FileEvent<U>>,
    steps: Seq<FileStep<U, S::Fut>>,
    k: int,
)
    requires
        wrapper.config() == config@,
        call_ensures(RetryWrapper::<S, J, D>::start_with_file, (&wrapper,), state),
        0 <= k < calls.len() == events.len() == steps.len(),
        *calls[0] == state,
        forall|j: int|
            0 < j < calls.len() ==> *(#[trigger] calls[j]) == *final(calls[j - 1]),
        forall|j: int|
            0 <= j < calls.len() ==> call_ensures(
                RetryWrapper::<S, J, D>::retry_with_file::<U>,
                (&wrapper, #[trigger] calls[j], events[j]),
                steps[j],
            ),
        events[0] is ReaderReady || events[0] is Failed,
        forall|j: int|
            0 < j < events.len() ==> match steps[j - 1] {
                FileStep::GetReader => #[trigger] events[j] is ReaderReady || events[j] is Failed,
                FileStep::GetPosition => events[j] is Position || events[j] is Failed,
                FileStep::Close => events[j] is Closed || events[j] is Failed,
                FileStep::Open { read_limit: _ } => events[j] is Opened || events[j] is Failed,
                FileStep::Seek(offset) => events[j] == FileEvent::<U>::Sought(offset)
                    || events[j] is Failed,
                FileStep::Attempt { limit: _ } => events[j] is Finished,
                FileStep::Sleep(_) => events[j] is Woke,
                FileStep::Done(_) => false,
            },
    ensures
        match events[k] {
            FileEvent::ReaderReady { limit: _ } => if k == 0 {
                steps[k] is GetPosition
            } else {
                &&& events[1] matches FileEvent::Position(start)
                &&& steps[k] == FileStep::<U, S::Fut>::Seek(start)
            },
            FileEvent::Position(_) => k == 1 && steps[k] is Close,
            FileEvent::Closed => k == 2 && steps[k] == (FileStep::<U, S::Fut>::Open {
                read_limit: u64::MAX,
            }),
            FileEvent::Woke => steps[k] == (FileStep::<U, S::Fut>::Open { read_limit: u64::MAX }),
            FileEvent::Opened => steps[k] is GetReader,
            FileEvent::Sought(_) => {
                &&& events[0] matches FileEvent::ReaderReady { limit }
                &&& steps[k] == (FileStep::<U, S::Fut>::Attempt { limit })
            },
            FileEvent::Failed(failure) => k <= 2 ==> {
                &&& steps[k] matches FileStep::Done(Err(error))
                &&& error.code == failure.error.code
                &&& error.messages@.map_values(|m: String| m@)
                    == failure.error.messages@.map_values(|m: String| m@).push(
                    "in RetryWrapper::retry_with_file"@,
                )
            },
            FileEvent::Finished(_) => true,
        },
{
    lemma_phase_of_calls(config, wrapper, state, calls, events, steps, k);
    assert(call_ensures(
        RetryWrapper::<S, J, D>::retry_with_file::<U>,
        (&wrapper, calls[k], events[k]),
        steps[k],
    ));
}

proof fn lemma_schedule_of_calls<'a, S: RetrySleepFn, J: RetryJitterFn, D, U>(
    config: Retry,
    wrapper: RetryWrapper<S, J, D>,
    state: FileRetry<'a, J>,
    calls: Seq<&mut FileRetry<'a, J>>,
    events: Seq<FileEvent<U>>,
    steps: Seq<FileStep<U, S::Fut>>,
    sleeps: spec_fn(FileStep<U, S::Fut>) -> bool,
    k: int,
)
    requires
        wrapper.config() == config@,
        call_ensures(RetryWrapper::<S, J, D>::start_with_file, (&wrapper,), state),
        0 <= k < calls.len() == events.len() == steps.len(),
        *calls[0] == state,
        forall|j: int|
            0 < j < calls.len() ==> *(#[trigger] calls[j]) == *final(calls[j - 1]),
        forall|j: int|
            0 <= j < calls.len() ==> call_ensures(
                RetryWrapper::<S, J, D>::retry_with_file::<U>,
                (&wrapper, #[trigger] calls[j], events[j]),
                steps[j],
            ),
        events[0] is ReaderReady || events[0] is Failed,
        forall|j: int|
            0 < j < events.len() ==> match steps[j - 1] {
                FileStep::GetReader => #[trigger] events[j] is ReaderReady || events[j] is Failed,
                FileStep::GetPosition => events[j] is Position || events[j] is Failed,
                FileStep::Close => events[j] is Closed || events[j] is Failed,
                FileStep::Open { read_limit: _ } => events[j] is Opened || events[j] is Failed,
                FileStep::Seek(offset) => events[j] == FileEvent::<U>::Sought(offset)
                    || events[j] is Failed,
                FileStep::Attempt { limit: _ } => events[j] is Finished,
                FileStep::Sleep(_) => events[j] is Woke,
                FileStep::Done(_) => false,
            },
        forall|s: FileStep<U, S::Fut>| #[trigger] sleeps(s) == (s is Sleep),
    ensures
        steps.take(k).filter(sleeps).len() <= config.max_retries,
        calls[k]@.schedule == after_retries(
            ProgressView::start(config@),
            steps.take(k).filter(sleeps).len(),
        ).schedule,
        calls[k].durations().jitter_fn() == wrapper.jitter_fn(),
        calls[k].durations().jitter_amt() == config.jitter,
    decreases k,
{
    let start = ProgressView::start(config@);
    reveal(Seq::filter);
    law_view_shows_the_settings(config);
    lemma_schedule_after_retries(start, 0);
    if k > 0 {
        lemma_schedule_of_calls(config, wrapper, state, calls, events, steps, sleeps, k - 1);
        lemma_phase_of_calls(config, wrapper, state, calls, events, steps, k - 1);
        lemma_schedule_after_retries(start, steps.take(k - 1).filter(sleeps).len());
        assert(call_ensures(
            RetryWrapper::<S, J, D>::retry_with_file::<U>,
            (&wrapper, calls[k - 1], events[k - 1]),
            steps[k - 1],
        ));
        assert(*calls[k] == *final(calls[k - 1]));
        assert(steps.take(k).drop_last() =~= steps.take(k - 1));
        assert(steps.take(k).last() == steps[k - 1]);
        assert(sleeps(steps[k - 1]) == (steps[k - 1] is Sleep));
    }
}

/// What comes of an attempt of an operation that has waited `waits` times so far,
/// which is never more often than there are retries. One that succeeds is returned
/// with its value. One that failed, be it in opening the file, in taking its reader
/// or in the seek, is returned with its error as it is, where it is not worth a retry
/// or none is left. Otherwise the operation waits with the sleep function, for what
/// the jitter function makes of the configured amount and of the configured delay,
/// doubled once for each wait so far and once more.
#[verifier::rlimit(50)]
pub proof fn law_file_operation_answers_each_attempt<'a, S: RetrySleepFn, J: RetryJitterFn, D, U>(
    config: Retry,
    wrapper: RetryWrapper<S, J, D>,
    state: FileRetry<'a, J>,
    calls: Seq<&mut FileRetry<'a, J>>,
    events: Seq<FileEvent<U>>,
    steps: Seq<FileStep<U, S::Fut>>,
    k: int,
    waits: nat,
    outcome: Result<U, Failure>,
)
    requires
        wrapper.config() == config@,
        call_ensures(RetryWrapper::<S, J, D>::start_with_file, (&wrapper,), state),
        0 <= k < calls.len() == events.len() == steps.len(),
        *calls[0] == state,
        forall|j: int|
            0 < j < calls.len() ==> *(#[trigger] calls[j]) == *final(calls[j - 1]),
        forall|j: int|
            0 <= j < calls.len() ==> call_ensures(
                RetryWrapper::<S, J, D>::retry_with_file::<U>,
                (&wrapper, #[trigger] calls[j], events[j]),
                steps[j],
            ),
        events[0] is ReaderReady || events[0] is Failed,
        forall|j: int|
            0 < j < events.len() ==> match steps[j - 1] {
                FileStep::GetReader => #[trigger] events[j] is ReaderReady || events[j] is Failed,
                FileStep::GetPosition => events[j] is Position || events[j] is Failed,
                FileStep::Close => events[j] is Closed || events[j] is Failed,
                FileStep::Open { read_limit: _ } => events[j] is Opened || events[j] is Failed,
                FileStep::Seek(offset) => events[j] == FileEvent::<U>::Sought(offset)
                    || events[j] is Failed,
                FileStep::Attempt { limit: _ } => events[j] is Finished,
                FileStep::Sleep(_) => events[j] is Woke,
                FileStep::Done(_) => false,
            },
        waits == steps.take(k).filter(|s: FileStep<U, S::Fut>| s is Sleep).len(),
        k > 2,
        events[k] == FileEvent::<U>::Finished(outcome) || (outcome matches Err(failure) && events[k]
            == FileEvent::<U>::Failed(failure)),
    ensures
        waits <= config.max_retries,
        outcome matches Ok(value) ==> steps[k] == FileStep::<U, S::Fut>::Done(Ok(value)),
        outcome matches Err(failure) ==> {
            let again = {
                ||| failure.error.code !is Success && !failure.unrecoverable
                ||| {
                    &&& config.retry_on_errors matches Some(listed)
                    &&& exists|i: int|
                        {
                            &&& 0 <= i < listed@.len()
                            &&& status_of(#[trigger] listed@[i]) == failure.error.code || (
                            failure.error.code is Success && listed@[i] is Unknown)
                        }
                }
            };
            &&& again && waits < config.max_retries ==> {
                &&& steps[k] matches FileStep::Sleep(wait)
                &&& exists|delay: Duration, pause: Duration|
                    {
                        &&& delay@ == config.delay * 1_000_000 * pow2(waits + 1)
                        &&& #[trigger] wrapper.jitter_fn().gives(delay, config.jitter, pause)
                        &&& call_ensures(
                            J::jitter,
                            (&wrapper.jitter_fn(), delay, config.jitter),
                            pause,
                        )
                        &&& #[trigger] wrapper.sleep_fn().gives(pause, wait)
                        &&& call_ensures(S::sleep, (&wrapper.sleep_fn(), pause), wait)
                    }
            }
            &&& !again || waits == config.max_retries ==> {
                &&& steps[k] matches FileStep::Done(Err(error))
                &&& error.code == failure.error.code
                &&& error.messages@.map_values(|m: String| m@)
                    == failure.error.messages@.map_values(|m: String| m@)
            }
        },
{
    let sleeps = |s: FileStep<U, S::Fut>| s is Sleep;
    lemma_schedule_of_calls(config, wrapper, state, calls, events, steps, sleeps, k);
    lemma_phase_of_calls(config, wrapper, state, calls, events, steps, k);
    lemma_delay_after_retries(config, waits);
    assert(call_ensures(
        RetryWrapper::<S, J, D>::retry_with_file::<U>,
        (&wrapper, calls[k], events[k]),
        steps[k],
    ));
    if let Err(failure) = outcome {
        law_recoverable_and_listed_failures_are_retried(config, failure);
        if let FileStep::Sleep(wait) = steps[k] {
            lemma_wait_after_retries(config, wrapper, calls[k].durations(), waits, wait);
        }
    }
}

/// An operation on a file first waits for the reader of the file, and can take it up
/// or the failure to get it.
pub proof fn law_file_operation_starts_with_the_reader<'a, S: RetrySleepFn, J: RetryJitterFn, D, U>(
    wrapper: RetryWrapper<S, J, D>,
    state: FileRetry<'a, J>,
    next: &mut FileRetry<'a, J>,
    event: FileEvent<U>,
)
    requires
        call_ensures(RetryWrapper::<S, J, D>::start_with_file, (&wrapper,), state),
        *old(next) == state,
    ensures
        forall|phase: FilePhase|
            call_ensures(FileRetry::<'a, J>::phase, (&state,), phase) ==> phase is Reader,
        forall|room: bool|
            call_ensures(
                RetryWrapper::<S, J, D>::file_has_room::<U>,
                (&wrapper, &state, &event),
                room,
            ) ==> (room <==> event is ReaderReady || event is Failed),
        (event is ReaderReady || event is Failed) && (forall|delay: Duration| #[trigger]
            wrapper.jitter_fn().accepts(delay, wrapper.config().jitter)) && (forall|
            pause: Duration,
        | #[trigger] wrapper.sleep_fn().accepts(pause)) ==> call_requires(
            RetryWrapper::<S, J, D>::retry_with_file::<U>,
            (&wrapper, next, event),
        ),
{
    if (forall|delay: Duration| #[trigger]
        wrapper.jitter_fn().accepts(delay, wrapper.config().jitter)) && (forall|pause: Duration|
     #[trigger]
        wrapper.sleep_fn().accepts(pause)) {
        assert(wrapper.can_wait(state.durations()));
    }
}

/// An operation on a file can take up whatever answers its last step: what was asked
/// for or its failure, the end of the attempt or that of the wait. Only the delay that
/// a failed attempt calls for, if it calls for one, has to be within the range of a
/// duration. After its result it takes up nothing any more. It tells the step that it
/// waits on, with the part of the file that it reads, and counts its retries.
#[verifier::rlimit(50)]
pub proof fn law_file_operation_can_take_up_the_answer<'a, S: RetrySleepFn, J: RetryJitterFn, D, U>(
    config: Retry,
    wrapper: RetryWrapper<S, J, D>,
    state: FileRetry<'a, J>,
    calls: Seq<&mut FileRetry<'a, J>>,
    events: Seq<FileEvent<U>>,
    steps: Seq<FileStep<U, S::Fut>>,
    next: &mut FileRetry<'a, J>,
    event: FileEvent<U>,
    k: int,
    waits: nat,
)
    requires
        wrapper.config() == config@,
        call_ensures(RetryWrapper::<S, J, D>::start_with_file, (&wrapper,), state),
        0 <= k < calls.len() == events.len() == steps.len(),
        *calls[0] == state,
        forall|j: int|
            0 < j < calls.len() ==> *(#[trigger] calls[j]) == *final(calls[j - 1]),
        forall|j: int|
            0 <= j < calls.len() ==> call_ensures(
                RetryWrapper::<S, J, D>::retry_with_file::<U>,
                (&wrapper, #[trigger] calls[j], events[j]),
                steps[j],
            ),
        events[0] is ReaderReady || events[0] is Failed,
        forall|j: int|
            0 < j < events.len() ==> match steps[j - 1] {
                FileStep::GetReader => #[trigger] events[j] is ReaderReady || events[j] is Failed,
                FileStep::GetPosition => events[j] is Position || events[j] is Failed,
                FileStep::Close => events[j] is Closed || events[j] is Failed,
                FileStep::Open { read_limit: _ } => events[j] is Opened || events[j] is Failed,
                FileStep::Seek(offset) => events[j] == FileEvent::<U>::Sought(offset)
                    || events[j] is Failed,
                FileStep::Attempt { limit: _ } => events[j] is Finished,
                FileStep::Sleep(_) => events[j] is Woke,
                FileStep::Done(_) => false,
            },
        k == calls.len() - 1,
        *old(next) == *final(calls[k]),
        waits == steps.filter(|s: FileStep<U, S::Fut>| s is Sleep).len(),
    ensures
        forall|phase: FilePhase|
            call_ensures(FileRetry::<'a, J>::phase, (&*old(next),), phase) ==> {
                let limit = events[0]->limit;
                let part = FilePart { start: events[1]->Position_0, limit };
                match steps[k] {
                    FileStep::GetReader => phase == FilePhase::AttemptReader(part),
                    FileStep::GetPosition => phase == (FilePhase::Position { limit }),
                    FileStep::Close => phase == FilePhase::Close(part),
                    FileStep::Open { read_limit: _ } => phase == FilePhase::Open(part),
                    FileStep::Seek(_) => phase == FilePhase::Seek(part),
                    FileStep::Attempt { limit: _ } => phase == FilePhase::Attempt(part),
                    FileStep::Sleep(_) => phase == FilePhase::Pause(part),
                    FileStep::Done(_) => phase is Ended,
                }
            },
        forall|pauses: &BackoffDurations<'a, J>, count: usize|
            call_ensures(FileRetry::<'a, J>::pauses, (&*old(next),), pauses) && call_ensures(
                BackoffDurations::<'a, J>::retries_made,
                (pauses,),
                count,
            ) ==> count == waits,
        ({
            let fits = match steps[k] {
                FileStep::GetReader => event is ReaderReady || event is Failed,
                FileStep::GetPosition => event is Position || event is Failed,
                FileStep::Close => event is Closed || event is Failed,
                FileStep::Open { read_limit: _ } => event is Opened || event is Failed,
                FileStep::Seek(offset) => event == FileEvent::<U>::Sought(offset)
                    || event is Failed,
                FileStep::Attempt { limit: _ } => event is Finished,
                FileStep::Sleep(_) => event is Woke,
                FileStep::Done(_) => false,
            };
            let failed = match event {
                FileEvent::Failed(failure) => if k >= 2 {
                    Some(failure)
                } else {
                    None
                },
                FileEvent::Finished(Err(failure)) => Some(failure),
                _ => None,
            };
            let in_range = failed matches Some(failure) && waits < config.max_retries && {
                ||| failure.error.code !is Success && !failure.unrecoverable
                ||| {
                    &&& config.retry_on_errors matches Some(listed)
                    &&& exists|i: int|
                        {
                            &&& 0 <= i < listed@.len()
                            &&& status_of(#[trigger] listed@[i]) == failure.error.code || (
                            failure.error.code is Success && listed@[i] is Unknown)
                        }
                }
            } ==> config.delay * 1_000_000 * pow2(waits + 1)
                <= 18_446_744_073_709_551_615_999_999_999;
            &&& forall|room: bool|
                call_ensures(
                    RetryWrapper::<S, J, D>::file_has_room::<U>,
                    (&wrapper, &*old(next), &event),
                    room,
                ) ==> (room <==> fits && in_range)
            &&& fits && in_range && (forall|delay: Duration| #[trigger]
                wrapper.jitter_fn().accepts(delay, config.jitter)) && (forall|pause: Duration|
             #[trigger]
                wrapper.sleep_fn().accepts(pause)) ==> call_requires(
                RetryWrapper::<S, J, D>::retry_with_file::<U>,
                (&wrapper, next, event),
            )
        }),
{
    let sleeps = |s: FileStep<U, S::Fut>| s is Sleep;
    lemma_schedule_of_calls(config, wrapper, state, calls, events, steps, sleeps, k);
    lemma_phase_of_calls(config, wrapper, state, calls, events, steps, k);
    reveal(Seq::filter);
    assert(steps.drop_last() =~= steps.take(k));
    lemma_schedule_after_retries(
        ProgressView::start(config@),
        steps.take(k).filter(sleeps).len(),
    );
    lemma_delay_after_retries(config, waits);
    assert(call_ensures(
        RetryWrapper::<S, J, D>::retry_with_file::<U>,
        (&wrapper, calls[k], events[k]),
        steps[k],
    ));
    law_view_shows_the_settings(config);
    assert(old(next)@.schedule == after_retries(ProgressView::start(config@), waits).schedule);
    assert(old(next)@.phase == phase_after(steps[k], part_told(events)));
    match event {
        FileEvent::Failed(failure) => {
            law_recoverable_and_listed_failures_are_retried(config, failure);
        },
        FileEvent::Finished(Err(failure)) => {
            law_recoverable_and_listed_failures_are_retried(config, failure);
        },
        _ => {},
    }
    if (forall|delay: Duration| #[trigger] wrapper.jitter_fn().accepts(delay, config.jitter)) && (
    forall|pause: Duration| #[trigger] wrapper.sleep_fn().accepts(pause)) {
        assert(wrapper.can_wait(old(next).durations()));
    }
}

} // verus!
