//! Whole runs of a retry loop.
use crate::backoff::ScheduleView;
use crate::config::RetryView;
use crate::duration::{MAX_NANOS, NANOS_PER_MILLI};
use crate::error::ErrorView;
use crate::step::{ProgressView, Verdict};
use vstd::arithmetic::power2::{
    lemma2_to64, lemma_pow2_strictly_increases, lemma_pow2_unfold, pow2,
};
use vstd::prelude::*;

verus! {

/// A run of a retry loop: the delays before jitter that it waited for, in
/// nanoseconds, and what it returned, if it came to that.
#[verifier::ext_equal]
pub struct Run<T> {
    pub waits: Seq<nat>,
    pub result: Option<Result<T, ErrorView>>,
}

/// The run of a loop that stands at `progress`, decides by `decide` and whose
/// attempts come to `events`, one after the other. What follows the attempt that
/// ends the loop is never looked at.
pub open spec fn run<E, T>(
    decide: spec_fn(ProgressView, E) -> Verdict<T>,
    progress: ProgressView,
    events: Seq<E>,
) -> Run<T>
    decreases events.len(),
{
    if events.len() == 0 {
        Run { waits: seq![], result: None }
    } else {
        let decided = decide(progress, events[0]);
        match decided {
            Verdict::Return(result) => Run { waits: seq![], result: Some(result) },
            Verdict::Wait(delay) => {
                let rest = run(decide, progress.advanced(decided), events.drop_first());
                Run { waits: seq![delay] + rest.waits, result: rest.result }
            },
        }
    }
}

/// Whether a loop only ever waits for the next delay of its schedule, and only
/// while a retry is left.
pub open spec fn follows_schedule<E, T>(decide: spec_fn(ProgressView, E) -> Verdict<T>) -> bool {
    forall|progress: ProgressView, event: E|
        #[trigger] decide(progress, event) matches Verdict::Wait(delay) ==> {
            &&& progress.schedule.remaining > 0
            &&& delay == progress.schedule.next_delay()
        }
}

/// Whether a loop waits on this event as long as a retry is left.
pub open spec fn asks_again<E, T>(
    decide: spec_fn(ProgressView, E) -> Verdict<T>,
    event: E,
) -> bool {
    forall|progress: ProgressView|
        progress.schedule.remaining > 0 ==> #[trigger] decide(progress, event) is Wait
}

/// The state of a loop after `k` retries.
pub open spec fn after_retries(progress: ProgressView, k: nat) -> ProgressView {
    ProgressView {
        schedule: ScheduleView {
            current: progress.schedule.current * pow2(k),
            remaining: (progress.schedule.remaining - k) as nat,
            made: progress.schedule.made + k,
        },
        attempt: progress.attempt + k,
    }
}

proof fn lemma_one_more_doubling(current: nat, k: nat)
    ensures
        current * pow2(k + 1) == (2 * current) * pow2(k),
        current * pow2(0) == current,
{
    lemma2_to64();
    lemma_pow2_unfold(k + 1);
    assert(current * (2 * pow2(k)) == (2 * current) * pow2(k)) by (nonlinear_arith);
    assert(current * 1 == current);
}

/// Each retry uses up the next delay of the schedule.
pub proof fn lemma_schedule_after_retries(progress: ProgressView, k: nat)
    ensures
        after_retries(progress, 0).schedule == progress.schedule,
        k < progress.schedule.remaining ==> after_retries(progress, k).schedule.advanced()
            == after_retries(progress, k + 1).schedule,
{
    let current = progress.schedule.current;
    lemma_one_more_doubling(current, k);
    assert(2 * (current * pow2(k)) == (2 * current) * pow2(k)) by (nonlinear_arith);
}

/// A run waits at most once for each retry that is left, and has returned once
/// there were more attempts than that.
pub proof fn lemma_run_is_bounded<E, T>(
    decide: spec_fn(ProgressView, E) -> Verdict<T>,
    progress: ProgressView,
    events: Seq<E>,
)
    requires
        follows_schedule(decide),
    ensures
        run(decide, progress, events).waits.len() <= progress.schedule.remaining,
        progress.schedule.remaining < events.len() ==> run(decide, progress, events).result is Some,
    decreases events.len(),
{
    if events.len() > 0 {
        let decided = decide(progress, events[0]);
        if decided is Wait {
            lemma_run_is_bounded(decide, progress.advanced(decided), events.drop_first());
        }
    }
}

/// The delays of a run double, from the one that the schedule stands at.
pub proof fn lemma_delays_double<E, T>(
    decide: spec_fn(ProgressView, E) -> Verdict<T>,
    progress: ProgressView,
    events: Seq<E>,
    i: int,
)
    requires
        follows_schedule(decide),
        0 <= i < run(decide, progress, events).waits.len(),
    ensures
        run(decide, progress, events).waits[i] == progress.schedule.current * pow2((i + 1) as nat),
    decreases events.len(),
{
    let decided = decide(progress, events[0]);
    lemma_one_more_doubling(progress.schedule.current, i as nat);
    if i == 0 {
        lemma_one_more_doubling(2 * progress.schedule.current, 0);
    } else {
        let rest = run(decide, progress.advanced(decided), events.drop_first());
        assert(run(decide, progress, events).waits[i] == rest.waits[i - 1]);
        lemma_delays_double(decide, progress.advanced(decided), events.drop_first(), i - 1);
    }
}

/// Attempts that ask for another one only use up retries: the run goes on with
/// what follows them.
pub proof fn lemma_run_after_retries<E, T>(
    decide: spec_fn(ProgressView, E) -> Verdict<T>,
    progress: ProgressView,
    events: Seq<E>,
    k: nat,
)
    requires
        follows_schedule(decide),
        k <= progress.schedule.remaining,
        k <= events.len(),
        forall|i: int| 0 <= i < k ==> asks_again(decide, #[trigger] events[i]),
    ensures
        ({
            let whole = run(decide, progress, events);
            let rest = run(decide, after_retries(progress, k), events.skip(k as int));
            &&& whole.result == rest.result
            &&& whole.waits.len() == k + rest.waits.len()
        }),
    decreases k,
{
    lemma_one_more_doubling(progress.schedule.current, 0);
    if k == 0 {
        assert(events.skip(0) =~= events);
        assert(after_retries(progress, 0) == progress);
    } else {
        let m = (k - 1) as nat;
        let tail = events.drop_first();
        let decided = decide(progress, events[0]);
        assert(asks_again(decide, events[0]));
        assert forall|i: int| 0 <= i < m implies asks_again(decide, #[trigger] tail[i]) by {
            assert(asks_again(decide, events[i + 1]));
        }
        lemma_run_after_retries(decide, progress.advanced(decided), tail, m);
        assert(tail.skip(m as int) =~= events.skip(k as int));
        lemma_one_more_doubling(progress.schedule.current, m);
        assert(after_retries(progress.advanced(decided), m) == after_retries(progress, k));
    }
}

/// A loop that returns on the attempt after `k` retries returns what it decides
/// there, after one wait for each retry.
pub proof fn lemma_run_returns_after_retries<E, T>(
    decide: spec_fn(ProgressView, E) -> Verdict<T>,
    progress: ProgressView,
    events: Seq<E>,
    k: nat,
)
    requires
        follows_schedule(decide),
        k <= progress.schedule.remaining,
        k < events.len(),
        forall|i: int| 0 <= i < k ==> asks_again(decide, #[trigger] events[i]),
        decide(after_retries(progress, k), events[k as int]) is Return,
    ensures
        decide(after_retries(progress, k), events[k as int]) == Verdict::<T>::Return(
            run(decide, progress, events).result->0,
        ),
        run(decide, progress, events).result is Some,
        run(decide, progress, events).waits.len() == k,
{
    lemma_run_after_retries(decide, progress, events, k);
    assert(events.skip(k as int)[0] == events[k as int]);
}

/// A configuration whose last delay is within the range of a duration never runs
/// out of range: after any number of retries, the next delay is in range too.
pub proof fn law_last_delay_bounds_all(config: RetryView, k: nat)
    requires
        k <= config.max_retries,
        config.delay * (NANOS_PER_MILLI as nat) * pow2(config.max_retries) <= MAX_NANOS,
    ensures
        after_retries(ProgressView::start(config), k).schedule.has_room(),
{
    if k < config.max_retries {
        let base = config.delay * (NANOS_PER_MILLI as nat);
        lemma_one_more_doubling(base, k);
        assert(2 * (base * pow2(k)) == (2 * base) * pow2(k)) by (nonlinear_arith);
        if k + 1 < config.max_retries {
            lemma_pow2_strictly_increases(k + 1, config.max_retries);
        }
        assert(base * pow2(k + 1) <= base * pow2(config.max_retries)) by (nonlinear_arith)
            requires
                pow2(k + 1) <= pow2(config.max_retries),
        ;
    }
}

} // verus!
