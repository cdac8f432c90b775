//! Store operations that read a file.
use crate::backoff::{BackoffDurations, ScheduleView};
use crate::config::RetryView;
use crate::error::{result_view, Error};
use crate::hooks::{RetryJitterFn, RetrySleepFn};
use crate::step::{Step, Verdict};
use crate::wrapper::{has_room, verdict, Failure, RetryWrapper};
use vstd::prelude::*;

verus! {

/// The part of a file that an operation reads.
#[derive(Clone, Copy, Debug, PartialEq, Eq, Structural)]
pub struct FilePart {
    /// Where the part starts.
    pub start: u64,
    /// The most bytes to read from there.
    pub limit: u64,
}

/// What an operation on a file waits for.
#[derive(Clone, Copy, Debug, PartialEq, Eq, Structural)]
pub enum FilePhase {
    /// The reader of the file as it was handed in.
    Reader,
    /// The position of that reader.
    Position { limit: u64 },
    /// The closing of that file.
    Close(FilePart),
    /// The opening of the file for an attempt.
    Open(FilePart),
    /// The reader of the file that was opened for an attempt.
    AttemptReader(FilePart),
    /// The seek to the start of the part.
    Seek(FilePart),
    /// The end of an attempt.
    Attempt(FilePart),
    /// The end of a pause.
    Pause(FilePart),
    /// Nothing more: the operation has returned.
    Ended,
}

/// What happened.
pub enum FileEvent<U> {
    /// The reader of the file is there, and reads so many bytes at most.
    ReaderReady { limit: u64 },
    /// The reader is at this offset.
    Position(u64),
    /// The file is closed.
    Closed,
    /// The file is open.
    Opened,
    /// The seek brought the reader to this offset.
    Sought(u64),
    /// The pause is over.
    Woke,
    /// What was asked for failed.
    Failed(Failure),
    /// The running attempt ended.
    Finished(Result<U, Failure>),
}

/// What to do next.
pub enum FileStep<U, Fut> {
    /// Get the reader of the open file.
    GetReader,
    /// Get the position of the reader.
    GetPosition,
    /// Close the file.
    Close,
    /// Open the file again, to read so many bytes at most.
    Open { read_limit: u64 },
    /// Seek to this offset from the start of the file.
    Seek(u64),
    /// Let the reader read so many bytes at most, then make an attempt.
    Attempt { limit: u64 },
    /// Wait for this to complete.
    Sleep(Fut),
    /// Return this result.
    Done(Result<U, Error>),
}

/// A [`FileStep`] over mathematical values.
pub enum FileVerdict<U> {
    GetReader,
    GetPosition,
    Close,
    Open { read_limit: u64 },
    Seek(u64),
    Attempt { limit: u64 },
    Decide(Verdict<U>),
}

/// The message for a file that could not be prepared.
pub open spec fn in_retry_with_file_text() -> Seq<char> {
    "in RetryWrapper::retry_with_file"@
}

/// The state of an operation that reads a file.
pub struct FileRetry<'a, J> {
    durations: BackoffDurations<'a, J>,
    phase: FilePhase,
}

/// A [`FileRetry`] over mathematical values.
pub struct FileRetryView {
    /// The delays that are left.
    pub schedule: ScheduleView,
    /// What the operation waits for.
    pub phase: FilePhase,
}

impl FileRetryView {
    /// The state of an operation before its first step.
    pub open spec fn start(config: RetryView) -> FileRetryView {
        FileRetryView { schedule: ScheduleView::start(config), phase: FilePhase::Reader }
    }
}

impl<'a, J> View for FileRetry<'a, J> {
    type V = FileRetryView;

    open spec fn view(&self) -> FileRetryView {
        FileRetryView { schedule: self.durations()@, phase: self.waits_for() }
    }
}

impl<'a, J> FileRetry<'a, J> {
    /// The pauses that are left.
    pub closed spec fn durations(self) -> BackoffDurations<'a, J> {
        self.durations
    }

    /// What the operation waits for.
    pub closed spec fn waits_for(self) -> FilePhase {
        self.phase
    }

    /// The pauses that are left.
    pub fn pauses(&self) -> (durations: &BackoffDurations<'a, J>)
        ensures
            *durations == self.durations(),
    {
        &self.durations
    }

    /// What the operation waits for.
    pub fn phase(&self) -> (phase: FilePhase)
        ensures
            phase == self@.phase,
    {
        self.phase
    }
}

/// The outcome of an attempt, where the event is one that ends an attempt.
pub open spec fn attempt_outcome<U>(phase: FilePhase, event: FileEvent<U>) -> Option<
    Result<U, Failure>,
> {
    match (phase, event) {
        (FilePhase::Open(_), FileEvent::Failed(failure)) => Some(Err(failure)),
        (FilePhase::AttemptReader(_), FileEvent::Failed(failure)) => Some(Err(failure)),
        (FilePhase::Seek(_), FileEvent::Failed(failure)) => Some(Err(failure)),
        (FilePhase::Attempt(_), FileEvent::Finished(outcome)) => Some(outcome),
        _ => None,
    }
}

/// Whether the event can happen in this phase. A seek to the start of the part
/// ends up there.
pub open spec fn expects<U>(phase: FilePhase, event: FileEvent<U>) -> bool {
    match phase {
        FilePhase::Reader => event is ReaderReady || event is Failed,
        FilePhase::Position { limit } => event is Position || event is Failed,
        FilePhase::Close(_) => event is Closed || event is Failed,
        FilePhase::Open(_) => event is Opened || event is Failed,
        FilePhase::AttemptReader(_) => event is ReaderReady || event is Failed,
        FilePhase::Seek(part) => event == FileEvent::<U>::Sought(part.start) || event is Failed,
        FilePhase::Attempt(_) => event is Finished,
        FilePhase::Pause(_) => event is Woke,
        FilePhase::Ended => false,
    }
}

/// What the operation does on an event that can happen.
///
/// The part to read is what the file was set to when it was handed in. A failure
/// up to there ends the operation. Every attempt opens the file again, goes to
/// the start of the part and reads up to its limit; a failure on the way there
/// is a failed attempt.
pub open spec fn file_verdict<U>(
    config: RetryView,
    state: FileRetryView,
    event: FileEvent<U>,
) -> FileVerdict<U> {
    match attempt_outcome(state.phase, event) {
        Some(outcome) => FileVerdict::Decide(verdict(config, state.schedule, outcome)),
        None => match event {
            FileEvent::Failed(failure) => FileVerdict::Decide(
                Verdict::Return(Err(failure.error@.append(in_retry_with_file_text()))),
            ),
            _ => match state.phase {
                FilePhase::Reader => FileVerdict::GetPosition,
                FilePhase::Position { limit } => FileVerdict::Close,
                FilePhase::Close(_) => FileVerdict::Open { read_limit: u64::MAX },
                FilePhase::Pause(_) => FileVerdict::Open { read_limit: u64::MAX },
                FilePhase::Open(_) => FileVerdict::GetReader,
                FilePhase::AttemptReader(part) => FileVerdict::Seek(part.start),
                FilePhase::Seek(part) => FileVerdict::Attempt { limit: part.limit },
                FilePhase::Attempt(_) => arbitrary(),
                FilePhase::Ended => arbitrary(),
            },
        },
    }
}

/// The part that a phase reads, once it is known.
pub open spec fn part_of(phase: FilePhase) -> Option<FilePart> {
    match phase {
        FilePhase::Reader => None,
        FilePhase::Position { limit } => None,
        FilePhase::Close(part) => Some(part),
        FilePhase::Open(part) => Some(part),
        FilePhase::AttemptReader(part) => Some(part),
        FilePhase::Seek(part) => Some(part),
        FilePhase::Attempt(part) => Some(part),
        FilePhase::Pause(part) => Some(part),
        FilePhase::Ended => None,
    }
}

/// The state of the operation after an event that can happen.
pub open spec fn file_advanced<U>(
    config: RetryView,
    state: FileRetryView,
    event: FileEvent<U>,
) -> FileRetryView {
    let part = part_of(state.phase);
    match file_verdict(config, state, event) {
        FileVerdict::GetPosition => FileRetryView {
            phase: FilePhase::Position { limit: event->limit },
            ..state
        },
        FileVerdict::Close => FileRetryView {
            phase: FilePhase::Close(
                FilePart { start: event->Position_0, limit: state.phase->limit },
            ),
            ..state
        },
        FileVerdict::Open { read_limit } => FileRetryView {
            phase: FilePhase::Open(part->0),
            ..state
        },
        FileVerdict::GetReader => FileRetryView { phase: FilePhase::AttemptReader(part->0), ..state },
        FileVerdict::Seek(start) => FileRetryView { phase: FilePhase::Seek(part->0), ..state },
        FileVerdict::Attempt { limit } => FileRetryView {
            phase: FilePhase::Attempt(part->0),
            ..state
        },
        FileVerdict::Decide(decided) => FileRetryView {
            schedule: state.schedule.after(decided),
            phase: if decided is Wait {
                FilePhase::Pause(part->0)
            } else {
                FilePhase::Ended
            },
        },
    }
}

impl<S: RetrySleepFn, J: RetryJitterFn, D> RetryWrapper<S, J, D> {
    /// Whether a step is the one that was decided on.
    pub open spec fn carries_out<U>(
        self,
        durations: BackoffDurations<'_, J>,
        decided: FileVerdict<U>,
        step: FileStep<U, S::Fut>,
    ) -> bool {
        match decided {
            FileVerdict::GetReader => step is GetReader,
            FileVerdict::GetPosition => step is GetPosition,
            FileVerdict::Close => step is Close,
            FileVerdict::Open { read_limit } => step == FileStep::<U, S::Fut>::Open { read_limit },
            FileVerdict::Seek(start) => step == FileStep::<U, S::Fut>::Seek(start),
            FileVerdict::Attempt { limit } => step == FileStep::<U, S::Fut>::Attempt { limit },
            FileVerdict::Decide(Verdict::Return(result)) => step matches FileStep::Done(r)
                && result_view(r) == result,
            FileVerdict::Decide(Verdict::Wait(_)) => step matches FileStep::Sleep(wait)
                && self.may_sleep(durations, wait),
        }
    }

    /// The state of an operation on a file before its first step, which is to get
    /// the reader of the file.
    pub fn start_with_file(&self) -> (state: FileRetry<'_, J>)
        ensures
            state@ == FileRetryView::start(self.config()),
            state.durations().jitter_fn() == self.jitter_fn(),
            state.durations().jitter_amt() == self.config().jitter,
    {
        FileRetry { durations: self.backoff_durations(), phase: FilePhase::Reader }
    }

    /// Whether [`RetryWrapper::retry_with_file`] can take this step: the event can
    /// happen, and the delay that it may call for is within the range of
    /// [`Duration`](crate::duration::Duration).
    pub fn file_has_room<U>(&self, state: &FileRetry<'_, J>, event: &FileEvent<U>) -> (room: bool)
        ensures
            room == (expects(state@.phase, *event) && (attempt_outcome(
                state@.phase,
                *event,
            ) matches Some(outcome) ==> has_room(self.config(), state@.schedule, outcome))),
    {
        match (state.phase, event) {
            (FilePhase::Reader, FileEvent::ReaderReady { limit: _ }) => true,
            (FilePhase::Position { limit: _ }, FileEvent::Position(_)) => true,
            (FilePhase::Close(_), FileEvent::Closed) => true,
            (FilePhase::Open(_), FileEvent::Opened) => true,
            (FilePhase::AttemptReader(_), FileEvent::ReaderReady { limit: _ }) => true,
            (FilePhase::Seek(part), FileEvent::Sought(offset)) => *offset == part.start,
            (FilePhase::Pause(_), FileEvent::Woke) => true,
            (FilePhase::Attempt(_), FileEvent::Finished(outcome)) => self.has_room(
                &state.durations,
                outcome,
            ),
            (FilePhase::Reader, FileEvent::Failed(_)) => true,
            (FilePhase::Position { limit: _ }, FileEvent::Failed(_)) => true,
            (FilePhase::Close(_), FileEvent::Failed(_)) => true,
            (FilePhase::Open(_), FileEvent::Failed(failure)) => self.has_room_after(
                &state.durations,
                failure,
            ),
            (FilePhase::AttemptReader(_), FileEvent::Failed(failure)) => self.has_room_after(
                &state.durations,
                failure,
            ),
            (FilePhase::Seek(_), FileEvent::Failed(failure)) => self.has_room_after(
                &state.durations,
                failure,
            ),
            (_, _) => false,
        }
    }

    /// Ends an attempt of an operation on a file.
    fn end_file_attempt<U>(
        &self,
        state: &mut FileRetry<'_, J>,
        part: FilePart,
        outcome: Result<U, Failure>,
    ) -> (step: FileStep<U, S::Fut>)
        requires
            has_room(self.config(), old(state)@.schedule, outcome),
            self.can_wait(old(state).durations()),
        ensures
            ({
                let decided = verdict(self.config(), old(state)@.schedule, outcome);
                &&& self.carries_out(old(state).durations(), FileVerdict::Decide(decided), step)
                &&& final(state)@ == FileRetryView {
                    schedule: old(state)@.schedule.after(decided),
                    phase: if decided is Wait {
                        FilePhase::Pause(part)
                    } else {
                        FilePhase::Ended
                    },
                }
            }),
            final(state).durations().jitter_fn() == old(state).durations().jitter_fn(),
            final(state).durations().jitter_amt() == old(state).durations().jitter_amt(),
    {
        match self.retry(&mut state.durations, outcome) {
            Step::Done(result) => {
                state.phase = FilePhase::Ended;
                FileStep::Done(result)
            },
            Step::Sleep(wait) => {
                state.phase = FilePhase::Pause(part);
                FileStep::Sleep(wait)
            },
        }
    }

    /// One step of an operation that reads a file. Every attempt reads the same
    /// part of it.
    pub fn retry_with_file<U>(&self, state: &mut FileRetry<'_, J>, event: FileEvent<U>) -> (step:
        FileStep<U, S::Fut>)
        requires
            self.can_wait(old(state).durations()),
            expects(old(state)@.phase, event),
            attempt_outcome(old(state)@.phase, event) matches Some(outcome) ==> has_room(
                self.config(),
                old(state)@.schedule,
                outcome,
            ),
        ensures
            self.carries_out(
                old(state).durations(),
                file_verdict(self.config(), old(state)@, event),
                step,
            ),
            final(state)@ == file_advanced(self.config(), old(state)@, event),
            final(state).durations().jitter_fn() == old(state).durations().jitter_fn(),
            final(state).durations().jitter_amt() == old(state).durations().jitter_amt(),
    {
        match (state.phase, event) {
            (FilePhase::Reader, FileEvent::ReaderReady { limit }) => {
                state.phase = FilePhase::Position { limit };
                FileStep::GetPosition
            },
            (FilePhase::Position { limit }, FileEvent::Position(start)) => {
                state.phase = FilePhase::Close(FilePart { start, limit });
                FileStep::Close
            },
            (FilePhase::Close(part), FileEvent::Closed) => {
                state.phase = FilePhase::Open(part);
                FileStep::Open { read_limit: u64::MAX }
            },
            (FilePhase::Open(part), FileEvent::Opened) => {
                state.phase = FilePhase::AttemptReader(part);
                FileStep::GetReader
            },
            (FilePhase::AttemptReader(part), FileEvent::ReaderReady { limit: _ }) => {
                state.phase = FilePhase::Seek(part);
                FileStep::Seek(part.start)
            },
            (FilePhase::Seek(part), FileEvent::Sought(_)) => {
                state.phase = FilePhase::Attempt(part);
                FileStep::Attempt { limit: part.limit }
            },
            (FilePhase::Pause(part), FileEvent::Woke) => {
                state.phase = FilePhase::Open(part);
                FileStep::Open { read_limit: u64::MAX }
            },
            (FilePhase::Attempt(part), FileEvent::Finished(outcome)) => {
                self.end_file_attempt(state, part, outcome)
            },
            (FilePhase::Open(part), FileEvent::Failed(failure)) => {
                self.end_file_attempt(state, part, Err(failure))
            },
            (FilePhase::AttemptReader(part), FileEvent::Failed(failure)) => {
                self.end_file_attempt(state, part, Err(failure))
            },
            (FilePhase::Seek(part), FileEvent::Failed(failure)) => {
                self.end_file_attempt(state, part, Err(failure))
            },
            (_, FileEvent::Failed(failure)) => {
                state.phase = FilePhase::Ended;
                FileStep::Done(
                    Err(failure.error.append("in RetryWrapper::retry_with_file".to_string())),
                )
            },
            (_, _) => unreached(),
        }
    }
}

} // verus!
