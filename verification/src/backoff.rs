//! The pauses between attempts.
use crate::config::{JitterAmount, Retry, RetryView};
use crate::duration::{Duration, MAX_NANOS, NANOS_PER_MILLI};
use crate::hooks::RetryJitterFn;
use vstd::prelude::*;

verus! {

/// Delays that double with every retry. The view is the last delay given out in
/// nanoseconds, at first the base from which the delays grow.
pub struct ExponentialBackoff {
    current: Duration,
}

impl View for ExponentialBackoff {
    type V = nat;

    closed spec fn view(&self) -> nat {
        self.current@
    }
}

impl ExponentialBackoff {
    /// Delays that start at twice `base`.
    pub fn new(base: Duration) -> (backoff: Self)
        ensures
            backoff@ == base@,
    {
        ExponentialBackoff { current: base }
    }

    /// The next delay: twice the one before. There is always one.
    pub fn next(&mut self) -> (delay: Option<Duration>)
        requires
            2 * old(self)@ <= MAX_NANOS,
        ensures
            delay matches Some(d) && d@ == 2 * old(self)@,
            final(self)@ == 2 * old(self)@,
    {
        match self.current.checked_double() {
            Some(doubled) => {
                self.current = doubled;
                Some(doubled)
            },
            None => None,
        }
    }

    /// Whether the next delay is within the range of [`Duration`].
    pub fn has_room(&self) -> (room: bool)
        ensures
            room == (2 * self@ <= MAX_NANOS),
    {
        self.current.checked_double().is_some()
    }
}

/// A [`BackoffSchedule`] over mathematical values.
pub struct ScheduleView {
    /// The delay before the next one, in nanoseconds.
    pub current: nat,
    /// The retries that are left.
    pub remaining: nat,
    /// The retries made.
    pub made: nat,
}

impl ScheduleView {
    /// The schedule of a configuration, before the first attempt.
    pub open spec fn start(config: RetryView) -> ScheduleView {
        ScheduleView {
            current: config.delay * (NANOS_PER_MILLI as nat),
            remaining: config.max_retries,
            made: 0,
        }
    }

    /// The delay before the next retry.
    pub open spec fn next_delay(self) -> nat {
        2 * self.current
    }

    /// The schedule after the next retry.
    pub open spec fn advanced(self) -> ScheduleView
        recommends
            self.remaining > 0,
    {
        ScheduleView {
            current: self.next_delay(),
            remaining: (self.remaining - 1) as nat,
            made: self.made + 1,
        }
    }

    /// Whether the next delay, if a retry is left, is within the range of
    /// [`Duration`].
    pub open spec fn has_room(self) -> bool {
        self.remaining > 0 ==> self.next_delay() <= MAX_NANOS
    }
}

/// The delays of a configuration before jitter, one for each retry.
pub struct BackoffSchedule {
    backoff: ExponentialBackoff,
    max_retries: usize,
    made: usize,
}

impl View for BackoffSchedule {
    type V = ScheduleView;

    closed spec fn view(&self) -> ScheduleView {
        ScheduleView {
            current: self.backoff@,
            remaining: if self.made < self.max_retries {
                (self.max_retries - self.made) as nat
            } else {
                0
            },
            made: self.made as nat,
        }
    }
}

impl BackoffSchedule {
    /// The schedule of a configuration, before the first attempt.
    pub fn new(config: &Retry) -> (schedule: Self)
        ensures
            schedule@ == ScheduleView::start(config@),
    {
        BackoffSchedule {
            backoff: ExponentialBackoff::new(Duration::from_millis(config.delay)),
            max_retries: config.max_retries,
            made: 0,
        }
    }

    /// The delay before the next retry, or `None` when none is left.
    pub fn next(&mut self) -> (delay: Option<Duration>)
        requires
            old(self)@.has_room(),
        ensures
            delay is Some <==> old(self)@.remaining > 0,
            delay matches Some(d) ==> d@ == old(self)@.next_delay() && final(self)@ == old(
                self,
            )@.advanced(),
            delay is None ==> final(self)@ == old(self)@,
    {
        if self.made < self.max_retries {
            self.made = self.made + 1;
            self.backoff.next()
        } else {
            None
        }
    }

    /// Whether the next delay, if a retry is left, is within the range of
    /// [`Duration`].
    pub fn has_room(&self) -> (room: bool)
        ensures
            room == self@.has_room(),
    {
        self.made >= self.max_retries || self.backoff.has_room()
    }

    /// The retries made.
    pub fn retries_made(&self) -> (made: usize)
        ensures
            made == self@.made,
    {
        self.made
    }
}

/// The pauses of a configuration, varied by a jitter function that is told how
/// far a pause may stray.
pub struct BackoffDurations<'a, J> {
    schedule: BackoffSchedule,
    jitter_fn: &'a J,
    jitter_amt: JitterAmount,
}

impl<'a, J> View for BackoffDurations<'a, J> {
    type V = ScheduleView;

    closed spec fn view(&self) -> ScheduleView {
        self.schedule@
    }
}

impl<'a, J> BackoffDurations<'a, J> {
    /// The jitter function that varies the pauses.
    pub closed spec fn jitter_fn(self) -> J {
        *self.jitter_fn
    }

    /// How far a pause may stray.
    pub closed spec fn jitter_amt(self) -> JitterAmount {
        self.jitter_amt
    }

    /// The pauses of a configuration, before the first attempt.
    pub fn new(config: &Retry, jitter_fn: &'a J) -> (durations: Self)
        ensures
            durations@ == ScheduleView::start(config@),
            durations.jitter_fn() == *jitter_fn,
            durations.jitter_amt() == config@.jitter,
    {
        BackoffDurations {
            schedule: BackoffSchedule::new(config),
            jitter_fn,
            jitter_amt: config.jitter,
        }
    }

    /// Whether the next delay, if a retry is left, is within the range of
    /// [`Duration`].
    pub fn has_room(&self) -> (room: bool)
        ensures
            room == self@.has_room(),
    {
        self.schedule.has_room()
    }

    /// The retries made.
    pub fn retries_made(&self) -> (made: usize)
        ensures
            made == self@.made,
    {
        self.schedule.retries_made()
    }
}

impl<'a, J: RetryJitterFn> BackoffDurations<'a, J> {
    /// Whether the jitter function may turn the next delay into `pause`.
    pub open spec fn may_pause(self, pause: Duration) -> bool {
        exists|delay: Duration|
            {
                &&& delay@ == self@.next_delay()
                &&& #[trigger] self.jitter_fn().gives(delay, self.jitter_amt(), pause)
                &&& call_ensures(J::jitter, (&self.jitter_fn(), delay, self.jitter_amt()), pause)
            }
    }

    /// Whether the jitter function can vary any delay.
    pub open spec fn takes_any_delay(self) -> bool {
        forall|delay: Duration| #[trigger] self.jitter_fn().accepts(delay, self.jitter_amt())
    }

    /// The next pause, or `None` when no retry is left.
    pub fn next(&mut self) -> (pause: Option<Duration>)
        requires
            old(self)@.has_room(),
            old(self).takes_any_delay(),
        ensures
            pause is Some <==> old(self)@.remaining > 0,
            pause matches Some(p) ==> old(self).may_pause(p) && final(self)@ == old(
                self,
            )@.advanced(),
            pause is None ==> final(self)@ == old(self)@,
            final(self).jitter_fn() == old(self).jitter_fn(),
            final(self).jitter_amt() == old(self).jitter_amt(),
    {
        let ghost before = *self;
        match self.schedule.next() {
            Some(delay) => {
                assert(before.jitter_fn().accepts(delay, before.jitter_amt()));
                let pause = self.jitter_fn.jitter(delay, self.jitter_amt);
                assert(before.jitter_fn().gives(delay, before.jitter_amt(), pause));
                Some(pause)
            },
            None => None,
        }
    }
}

/// The pauses of a configuration, varied by a plain function of the delay.
pub struct RetryDurations<'a, J> {
    schedule: BackoffSchedule,
    jitter_fn: &'a J,
}

impl<'a, J> View for RetryDurations<'a, J> {
    type V = ScheduleView;

    closed spec fn view(&self) -> ScheduleView {
        self.schedule@
    }
}

impl<'a, J> RetryDurations<'a, J> {
    /// The function that varies the pauses.
    pub closed spec fn jitter_fn(self) -> J {
        *self.jitter_fn
    }

    /// The pauses of a configuration, before the first attempt.
    pub fn new(config: &Retry, jitter_fn: &'a J) -> (durations: Self)
        ensures
            durations@ == ScheduleView::start(config@),
            durations.jitter_fn() == *jitter_fn,
    {
        RetryDurations { schedule: BackoffSchedule::new(config), jitter_fn }
    }

    /// Whether the next delay, if a retry is left, is within the range of
    /// [`Duration`].
    pub fn has_room(&self) -> (room: bool)
        ensures
            room == self@.has_room(),
    {
        self.schedule.has_room()
    }
}

impl<'a, J: Fn(Duration) -> Duration> RetryDurations<'a, J> {
    /// Whether the jitter function may turn the next delay into `pause`.
    pub open spec fn may_pause(self, pause: Duration) -> bool {
        exists|delay: Duration|
            delay@ == self@.next_delay() && #[trigger] call_ensures(
                self.jitter_fn(),
                (delay,),
                pause,
            )
    }

    /// The next pause, or `None` when no retry is left.
    pub fn next(&mut self) -> (pause: Option<Duration>)
        requires
            old(self)@.has_room(),
            forall|delay: Duration| call_requires(old(self).jitter_fn(), (delay,)),
        ensures
            pause is Some <==> old(self)@.remaining > 0,
            pause matches Some(p) ==> old(self).may_pause(p) && final(self)@ == old(
                self,
            )@.advanced(),
            pause is None ==> final(self)@ == old(self)@,
            final(self).jitter_fn() == old(self).jitter_fn(),
    {
        let ghost jitter_fn = self.jitter_fn();
        match self.schedule.next() {
            Some(delay) => {
                assert(jitter_fn == *self.jitter_fn);
                Some((self.jitter_fn)(delay))
            },
            None => None,
        }
    }
}

} // verus!
