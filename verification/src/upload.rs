//! Store operations that consume a stream of chunks.
use crate::backoff::{BackoffDurations, ScheduleView};
use crate::chunk::{bytes_content, contents, non_empty};
use crate::config::RetryView;
use crate::error::{result_view, Error};
use crate::hooks::{RetryJitterFn, RetrySleepFn};
use crate::reader::RetriableReader;
use crate::step::{Step, Verdict};
use crate::wrapper::{has_room, verdict, Failure, RetryWrapper};
use bytes::Bytes;
use vstd::prelude::*;

verus! {

/// The state of an operation that consumes the chunks of a source.
pub struct ReaderRetry<'a, 'r, J, R> {
    durations: BackoffDurations<'a, J>,
    reader: RetriableReader<'r, R>,
    phase: ReaderPhase,
}

/// Where an operation stands between its events.
#[derive(Clone, Copy, Debug, PartialEq, Eq, Structural)]
pub enum ReaderPhase {
    /// An attempt may begin.
    Ready,
    /// An attempt runs.
    Running,
    /// The operation has returned.
    Ended,
}

/// A [`ReaderRetry`] over mathematical values.
#[verifier::ext_equal]
pub struct ReaderRetryView {
    /// The delays that are left.
    pub schedule: ScheduleView,
    /// What the source has given out, chunk by chunk.
    pub given: Seq<Seq<u8>>,
    /// Where the operation stands.
    pub phase: ReaderPhase,
}

impl<'a, 'r, J, R> View for ReaderRetry<'a, 'r, J, R> {
    type V = ReaderRetryView;

    open spec fn view(&self) -> ReaderRetryView {
        ReaderRetryView {
            schedule: self.durations()@,
            given: self.given(),
            phase: self.stands_at(),
        }
    }
}

/// What happened.
pub enum ReaderEvent<U> {
    /// An attempt is about to start.
    Begin,
    /// The source gave out a chunk to the running attempt.
    Chunk(Bytes),
    /// The running attempt ended.
    Finished(Result<U, Failure>),
}

/// What to do next.
pub enum ReaderStep<U, Fut> {
    /// Start an attempt and send it these chunks, then what the source gives out.
    Replay(Vec<Bytes>),
    /// Send this chunk to the running attempt.
    Forward(Bytes),
    /// Wait for this to complete, then start another attempt.
    Sleep(Fut),
    /// Return this result.
    Done(Result<U, Error>),
}

/// What the running attempt is to be sent on an event, chunk by chunk: at its
/// beginning what the source has given out already, without the empty chunks, and
/// from then on what the source gives out.
pub open spec fn to_send<U>(state: ReaderRetryView, event: ReaderEvent<U>) -> Seq<Seq<u8>> {
    match event {
        ReaderEvent::Begin => non_empty(state.given),
        ReaderEvent::Chunk(chunk) => seq![bytes_content(chunk)],
        ReaderEvent::Finished(_) => seq![],
    }
}

/// Whether the event can happen in this phase: an attempt begins first or after
/// one that is to be retried, and chunks and the end of an attempt come only while
/// it runs.
pub open spec fn expects<U>(phase: ReaderPhase, event: ReaderEvent<U>) -> bool {
    match phase {
        ReaderPhase::Ready => event is Begin,
        ReaderPhase::Running => event !is Begin,
        ReaderPhase::Ended => false,
    }
}

/// The state of the operation after an event: an attempt begins and ends, a chunk
/// is kept, and a retry uses up one delay.
pub open spec fn reader_advanced<U>(
    config: RetryView,
    state: ReaderRetryView,
    event: ReaderEvent<U>,
) -> ReaderRetryView {
    match event {
        ReaderEvent::Begin => ReaderRetryView { phase: ReaderPhase::Running, ..state },
        ReaderEvent::Chunk(chunk) => ReaderRetryView {
            given: state.given.push(bytes_content(chunk)),
            ..state
        },
        ReaderEvent::Finished(outcome) => {
            let decided = verdict(config, state.schedule, outcome);
            ReaderRetryView {
                schedule: state.schedule.after(decided),
                phase: if decided is Wait {
                    ReaderPhase::Ready
                } else {
                    ReaderPhase::Ended
                },
                ..state
            }
        },
    }
}

impl ReaderRetryView {
    /// The state of an operation before its first attempt.
    pub open spec fn start(config: RetryView) -> ReaderRetryView {
        ReaderRetryView {
            schedule: ScheduleView::start(config),
            given: seq![],
            phase: ReaderPhase::Ready,
        }
    }
}

impl<'a, 'r, J, R> ReaderRetry<'a, 'r, J, R> {
    /// The pauses that are left.
    pub closed spec fn durations(self) -> BackoffDurations<'a, J> {
        self.durations
    }

    /// What the source has given out, chunk by chunk.
    pub closed spec fn given(self) -> Seq<Seq<u8>> {
        self.reader@
    }

    /// The source.
    pub closed spec fn inner(self) -> &'r mut R {
        self.reader.inner()
    }

    /// Where the operation stands.
    pub closed spec fn stands_at(self) -> ReaderPhase {
        self.phase
    }

    /// Where the operation stands.
    pub fn phase(&self) -> (phase: ReaderPhase)
        ensures
            phase == self@.phase,
    {
        self.phase
    }

    /// The pauses that are left.
    pub fn pauses(&self) -> (durations: &BackoffDurations<'a, J>)
        ensures
            *durations == self.durations(),
    {
        &self.durations
    }

    /// Access to the source for the running attempt.
    pub fn source(&mut self) -> (source: &mut R)
        ensures
            *source == *old(self).inner(),
            *final(self).inner() == *final(source),
            *final(final(self).inner()) == *final(old(self).inner()),
            final(self)@ == old(self)@,
            final(self).durations() == old(self).durations(),
    {
        self.reader.source()
    }
}

impl<S: RetrySleepFn, J: RetryJitterFn, D> RetryWrapper<S, J, D> {
    /// The state of an operation on `reader` before its first attempt.
    pub fn start_with_reader<'r, R>(&self, reader: &'r mut R) -> (state: ReaderRetry<'_, 'r, J, R>)
        ensures
            state@ == ReaderRetryView::start(self.config()),
            *state.inner() == *old(reader),
            *final(state.inner()) == *final(reader),
            state.durations().jitter_fn() == self.jitter_fn(),
            state.durations().jitter_amt() == self.config().jitter,
    {
        ReaderRetry {
            durations: self.backoff_durations(),
            reader: RetriableReader::new(reader),
            phase: ReaderPhase::Ready,
        }
    }

    /// Whether [`RetryWrapper::retry_with_reader`] can take this step: the event can
    /// happen, and the delay that it may call for is within the range of
    /// [`Duration`](crate::duration::Duration).
    pub fn reader_has_room<U, R>(
        &self,
        state: &ReaderRetry<'_, '_, J, R>,
        event: &ReaderEvent<U>,
    ) -> (room: bool)
        ensures
            room == (expects(state@.phase, *event) && (*event matches ReaderEvent::Finished(
                outcome,
            ) ==> has_room(self.config(), state@.schedule, outcome))),
    {
        match (state.phase, event) {
            (ReaderPhase::Ready, ReaderEvent::Begin) => true,
            (ReaderPhase::Running, ReaderEvent::Chunk(_)) => true,
            (ReaderPhase::Running, ReaderEvent::Finished(outcome)) => self.has_room(
                &state.durations,
                outcome,
            ),
            (_, _) => false,
        }
    }

    /// One step of an operation that consumes the chunks of a source. Every
    /// attempt is sent all the data that the source has given out, to whichever
    /// attempt it was.
    pub fn retry_with_reader<U, R>(
        &self,
        state: &mut ReaderRetry<'_, '_, J, R>,
        event: ReaderEvent<U>,
    ) -> (step: ReaderStep<U, S::Fut>)
        requires
            self.can_wait(old(state).durations()),
            expects(old(state)@.phase, event),
            event matches ReaderEvent::Finished(outcome) ==> has_room(
                self.config(),
                old(state)@.schedule,
                outcome,
            ),
        ensures
            event is Begin ==> {
                step matches ReaderStep::Replay(chunks) && contents(chunks@) == to_send(
                    old(state)@,
                    event,
                )
            },
            event is Chunk ==> {
                step matches ReaderStep::Forward(chunk) && seq![bytes_content(chunk)] == to_send(
                    old(state)@,
                    event,
                )
            },
            event matches ReaderEvent::Finished(outcome) ==> {
                let decided = verdict(self.config(), old(state)@.schedule, outcome);
                &&& decided matches Verdict::Return(result) ==> {
                    step matches ReaderStep::Done(r) && result_view(r) == result
                }
                &&& decided is Wait ==> {
                    step matches ReaderStep::Sleep(wait) && self.may_sleep(
                        old(state).durations(),
                        wait,
                    )
                }
            },
            final(state)@ == reader_advanced(self.config(), old(state)@, event),
            final(state).inner() == old(state).inner(),
            final(state).durations().jitter_fn() == old(state).durations().jitter_fn(),
            final(state).durations().jitter_amt() == old(state).durations().jitter_amt(),
    {
        match event {
            ReaderEvent::Begin => {
                state.phase = ReaderPhase::Running;
                ReaderStep::Replay(state.reader.get())
            },
            ReaderEvent::Chunk(chunk) => {
                state.reader.record(chunk.clone());
                ReaderStep::Forward(chunk)
            },
            ReaderEvent::Finished(outcome) => match self.retry(&mut state.durations, outcome) {
                Step::Done(result) => {
                    state.phase = ReaderPhase::Ended;
                    ReaderStep::Done(result)
                },
                Step::Sleep(wait) => {
                    state.phase = ReaderPhase::Ready;
                    ReaderStep::Sleep(wait)
                },
            },
        }
    }
}

/// What the source holds when the operation is over is what the lender gets
/// back.
pub proof fn law_lender_gets_source_back<J, R>(state: ReaderRetry<'_, '_, J, R>)
    requires
        has_resolved(state),
    ensures
        *final(state.inner()) == *state.inner(),
{
    crate::reader::law_lender_gets_source_back(state.reader);
}

} // verus!
