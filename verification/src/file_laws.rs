//! What holds of a whole operation on a file, however its steps turn out.
use crate::backoff::BackoffDurations;
use crate::config::RetryView;
use crate::duration::NANOS_PER_MILLI;
use crate::file::{
    expects, file_advanced, file_verdict, in_retry_with_file_text, part_of, FileEvent, FilePart,
    FilePhase, FileRetryView, FileStep, FileVerdict,
};
use crate::hooks::{RetryJitterFn, RetrySleepFn};
use crate::runs::{after_retries, lemma_schedule_after_retries};
use crate::step::{ProgressView, Verdict};
use crate::wrapper::RetryWrapper;
use vstd::arithmetic::power2::pow2;
use vstd::prelude::*;

verus! {

/// The state of an operation after the events.
pub open spec fn state_after<U>(config: RetryView, events: Seq<FileEvent<U>>) -> FileRetryView
    decreases events.len(),
{
    if events.len() == 0 {
        FileRetryView::start(config)
    } else {
        file_advanced(config, state_after(config, events.drop_last()), events.last())
    }
}

/// What the operation decided on the last of the events.
pub open spec fn last_verdict<U>(config: RetryView, events: Seq<FileEvent<U>>) -> FileVerdict<U>
    recommends
        events.len() > 0,
{
    file_verdict(config, state_after(config, events.drop_last()), events.last())
}

/// Whether each of the events can happen after the ones before it.
pub open spec fn can_happen<U>(config: RetryView, events: Seq<FileEvent<U>>) -> bool
    decreases events.len(),
{
    events.len() == 0 || {
        &&& can_happen(config, events.drop_last())
        &&& expects(state_after(config, events.drop_last()).phase, events.last())
    }
}

/// The number of pauses that the events led to.
pub open spec fn pauses<U>(config: RetryView, events: Seq<FileEvent<U>>) -> nat
    decreases events.len(),
{
    if events.len() == 0 {
        0
    } else {
        pauses(config, events.drop_last()) + if last_verdict(config, events) matches
            FileVerdict::Decide(Verdict::Wait(_)) {
            1nat
        } else {
            0nat
        }
    }
}

proof fn lemma_part_is_kept<U>(config: RetryView, events: Seq<FileEvent<U>>, part: FilePart)
    requires
        can_happen(config, events),
        events.len() >= 2,
        events[0] == (FileEvent::<U>::ReaderReady { limit: part.limit }),
        events[1] == FileEvent::<U>::Position(part.start),
    ensures
        ({
            let phase = state_after(config, events).phase;
            phase is Ended || part_of(phase) == Some(part)
        }),
    decreases events.len(),
{
    let before = events.drop_last();
    reveal_with_fuel(can_happen, 3);
    if events.len() == 2 {
        reveal_with_fuel(state_after, 3);
        assert(before.drop_last().len() == 0);
        assert(before[0] == events[0]);
    } else {
        assert(before[0] == events[0]);
        assert(before[1] == events[1]);
        lemma_part_is_kept(config, before, part);
    }
}

/// Every attempt reads the part of the file that it was set to when it was
/// handed in: whatever fails on the way, each seek goes to where the reader
/// stood, and each attempt starts right after such a seek and is limited to what
/// the reader was limited to.
pub proof fn law_every_attempt_reads_the_same_part<U>(
    config: RetryView,
    events: Seq<FileEvent<U>>,
    part: FilePart,
)
    requires
        can_happen(config, events),
        events.len() > 2,
        events[0] == (FileEvent::<U>::ReaderReady { limit: part.limit }),
        events[1] == FileEvent::<U>::Position(part.start),
    ensures
        last_verdict(config, events) matches FileVerdict::Seek(start) ==> start == part.start,
        last_verdict(config, events) matches FileVerdict::Attempt { limit } ==> {
            &&& limit == part.limit
            &&& events.last() == FileEvent::<U>::Sought(part.start)
        },
{
    let before = events.drop_last();
    assert(before[0] == events[0]);
    assert(before[1] == events[1]);
    lemma_part_is_kept(config, before, part);
}

/// Whether the part to read is still to be found out, or the file as it was
/// handed in still to be closed.
pub open spec fn is_preparing(phase: FilePhase) -> bool {
    phase is Reader || phase is Position || phase is Close
}

/// A file that cannot be prepared is not retried: the operation returns the
/// error, with a note on where it came up.
pub proof fn law_failed_preparation_ends_the_operation<U>(
    config: RetryView,
    state: FileRetryView,
    event: FileEvent<U>,
)
    requires
        is_preparing(state.phase),
        event is Failed,
    ensures
        event matches FileEvent::Failed(failure) && file_verdict(config, state, event)
            == FileVerdict::<U>::Decide(
            Verdict::Return(Err(failure.error@.append(in_retry_with_file_text()))),
        ),
        file_advanced(config, state, event).phase is Ended,
{
}

/// An operation pauses at most once for each retry, and has used up the first
/// delays of its schedule, one for each pause.
pub proof fn law_pauses_follow_the_schedule<U>(config: RetryView, events: Seq<FileEvent<U>>)
    requires
        can_happen(config, events),
    ensures
        pauses(config, events) <= config.max_retries,
        state_after(config, events).schedule == after_retries(
            ProgressView::start(config),
            pauses(config, events),
        ).schedule,
    decreases events.len(),
{
    let start = ProgressView::start(config);
    if events.len() == 0 {
        lemma_schedule_after_retries(start, 0);
    } else {
        let before = events.drop_last();
        law_pauses_follow_the_schedule(config, before);
        lemma_schedule_after_retries(start, pauses(config, before));
    }
}

/// The delays double: each pause of an operation is for the configured delay,
/// doubled once for each pause so far, itself included.
pub proof fn law_delays_double<U>(config: RetryView, events: Seq<FileEvent<U>>)
    requires
        can_happen(config, events),
        events.len() > 0,
    ensures
        last_verdict(config, events) matches FileVerdict::Decide(Verdict::Wait(delay)) ==> delay
            == config.delay * (NANOS_PER_MILLI as nat) * pow2(pauses(config, events)),
{
    let before = events.drop_last();
    law_pauses_follow_the_schedule(config, before);
    lemma_schedule_after_retries(ProgressView::start(config), pauses(config, before));
}

/// The number of times that the file was to be opened for an attempt.
pub open spec fn openings<U>(config: RetryView, events: Seq<FileEvent<U>>) -> nat
    decreases events.len(),
{
    if events.len() == 0 {
        0
    } else {
        openings(config, events.drop_last()) + if last_verdict(config, events) is Open {
            1nat
        } else {
            0nat
        }
    }
}

/// The number of attempts that the opened file was handed to.
pub open spec fn attempts<U>(config: RetryView, events: Seq<FileEvent<U>>) -> nat
    decreases events.len(),
{
    if events.len() == 0 {
        0
    } else {
        attempts(config, events.drop_last()) + if last_verdict(config, events) is Attempt {
            1nat
        } else {
            0nat
        }
    }
}

/// Whether the file is being brought to where an attempt can start.
pub open spec fn is_opening(phase: FilePhase) -> bool {
    phase is Open || phase is AttemptReader || phase is Seek
}

proof fn lemma_one_opening_more_than_pauses<U>(config: RetryView, events: Seq<FileEvent<U>>)
    requires
        can_happen(config, events),
    ensures
        ({
            let phase = state_after(config, events).phase;
            &&& openings(config, events) <= pauses(config, events) + 1
            &&& is_preparing(phase) || phase is Pause ==> openings(config, events) == pauses(
                config,
                events,
            )
            &&& is_opening(phase) || phase is Attempt ==> openings(config, events) == pauses(
                config,
                events,
            ) + 1
            &&& attempts(config, events) <= openings(config, events)
            &&& is_opening(phase) ==> attempts(config, events) < openings(config, events)
        }),
    decreases events.len(),
{
    if events.len() > 0 {
        lemma_one_opening_more_than_pauses(config, events.drop_last());
    }
}

/// An operation makes at most one attempt more than there are retries, and opens
/// the file for at most that many.
pub proof fn law_attempts_are_bounded<U>(config: RetryView, events: Seq<FileEvent<U>>)
    requires
        can_happen(config, events),
    ensures
        attempts(config, events) <= openings(config, events),
        openings(config, events) <= config.max_retries + 1,
{
    lemma_one_opening_more_than_pauses(config, events);
    law_pauses_follow_the_schedule(config, events);
}

/// Every attempt has its own file handle: right before it the file was opened, its
/// reader taken and the seek made.
pub proof fn law_every_attempt_opens_the_file<U>(config: RetryView, events: Seq<FileEvent<U>>)
    requires
        can_happen(config, events),
        events.len() > 0,
        last_verdict(config, events) is Attempt,
    ensures
        events.len() >= 3,
        events[events.len() - 3] is Opened,
        events[events.len() - 2] is ReaderReady,
        events[events.len() - 1] is Sought,
{
    let sought = events.drop_last();
    let ready = sought.drop_last();
    reveal_with_fuel(can_happen, 4);
    reveal_with_fuel(state_after, 4);
    assert(state_after(config, sought).phase is Seek);
    assert(sought.len() > 0);
    assert(state_after(config, ready).phase is AttemptReader);
    assert(ready.len() > 0);
}

/// Nothing follows the result of an operation: once it has ended, no event can
/// happen any more.
pub proof fn law_nothing_follows_the_result<U>(
    config: RetryView,
    events: Seq<FileEvent<U>>,
    i: int,
)
    requires
        can_happen(config, events),
        0 < i <= events.len(),
        last_verdict(config, events.take(i)) matches FileVerdict::Decide(Verdict::Return(_)),
    ensures
        i == events.len(),
    decreases events.len(),
{
    let before = events.drop_last();
    if i < events.len() {
        assert(before.take(i) =~= events.take(i));
        law_nothing_follows_the_result(config, before, i);
        assert(before =~= events.take(i));
    }
}

/// A step carries what was decided as it is: a seek goes to the offset, an attempt is
/// limited to the limit, and the file is opened with the limit that was decided on.
pub proof fn law_step_carries_what_was_decided<S: RetrySleepFn, J: RetryJitterFn, D, U>(
    wrapper: RetryWrapper<S, J, D>,
    durations: BackoffDurations<'_, J>,
    decided: FileVerdict<U>,
    step: FileStep<U, S::Fut>,
)
    requires
        wrapper.carries_out(durations, decided, step),
    ensures
        decided matches FileVerdict::Attempt { limit } ==> step == (FileStep::<U, S::Fut>::Attempt {
            limit,
        }),
        decided matches FileVerdict::Seek(offset) ==> step == FileStep::<U, S::Fut>::Seek(offset),
        decided matches FileVerdict::Open { read_limit } ==> step == (FileStep::<
            U,
            S::Fut,
        >::Open { read_limit }),
        decided is GetReader ==> step is GetReader,
        decided is GetPosition ==> step is GetPosition,
        decided is Close ==> step is Close,
{
}

} // verus!
