//! What a retry loop decides after an attempt.
use crate::backoff::ScheduleView;
use crate::config::RetryView;
use crate::error::{Error, ErrorView};
use vstd::prelude::*;

verus! {

/// What a retry loop does next.
pub enum Step<T, Fut> {
    /// Return this result.
    Done(Result<T, Error>),
    /// Wait for this to complete, then make another attempt.
    Sleep(Fut),
}

/// What a retry loop decides, over mathematical values.
pub enum Verdict<T> {
    /// It returns this result.
    Return(Result<T, ErrorView>),
    /// It makes another attempt after a delay of so many nanoseconds, subject to
    /// jitter.
    Wait(nat),
}

/// How far a retry loop has come.
pub struct ProgressView {
    /// The delays that are left.
    pub schedule: ScheduleView,
    /// The attempts made.
    pub attempt: nat,
}

impl ProgressView {
    /// The state of a loop before its first attempt.
    pub open spec fn start(config: RetryView) -> ProgressView {
        ProgressView { schedule: ScheduleView::start(config), attempt: 0 }
    }

    /// The state of a loop after an attempt: one more attempt is counted, and a
    /// retry uses up one delay.
    pub open spec fn advanced<T>(self, verdict: Verdict<T>) -> ProgressView {
        ProgressView { schedule: self.schedule.after(verdict), attempt: self.attempt + 1 }
    }
}

impl ScheduleView {
    /// The delays that are left after an attempt: a retry uses up one.
    pub open spec fn after<T>(self, verdict: Verdict<T>) -> ScheduleView {
        if verdict is Wait {
            self.advanced()
        } else {
            self
        }
    }
}

} // verus!
