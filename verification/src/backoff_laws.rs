//! What holds of the pauses between attempts, however often they are asked for.
use crate::backoff::{
    BackoffDurations, BackoffSchedule, ExponentialBackoff, RetryDurations, ScheduleView,
};
use crate::config::{law_view_shows_the_settings, Retry, RetryView};
use crate::duration::Duration;
use crate::hooks::RetryJitterFn;
use crate::runs::{after_retries, lemma_schedule_after_retries};
use crate::step::ProgressView;
use vstd::arithmetic::power2::{lemma2_to64, lemma_pow2_unfold, pow2};
use vstd::prelude::*;

verus! {

/// The `i`-th delay that a backoff gives out is its base, doubled `i` times. It can
/// be asked for wherever it is within the range of a duration.
pub proof fn law_backoff_doubles(
    base: Duration,
    backoff: ExponentialBackoff,
    calls: Seq<&mut ExponentialBackoff>,
    delays: Seq<Option<Duration>>,
    i: int,
)
    requires
        call_ensures(ExponentialBackoff::new, (base,), backoff),
        0 <= i < calls.len() == delays.len(),
        *calls[0] == backoff,
        forall|j: int|
            0 < j < calls.len() ==> *(#[trigger] calls[j]) == *final(calls[j - 1]),
        forall|j: int|
            0 <= j < calls.len() ==> call_ensures(
                ExponentialBackoff::next,
                (#[trigger] calls[j],),
                delays[j],
            ),
    ensures
        delays[i] matches Some(delay) && delay@ == base@ * pow2((i + 1) as nat),
        base@ * pow2((i + 1) as nat) <= 18_446_744_073_709_551_615_999_999_999 ==> call_requires(
            ExponentialBackoff::next,
            (calls[i],),
        ),
        forall|room: bool|
            call_ensures(ExponentialBackoff::has_room, (&*calls[i],), room) ==> (room <==> base@
                * pow2((i + 1) as nat) <= 18_446_744_073_709_551_615_999_999_999),
    decreases i,
{
    lemma2_to64();
    lemma_pow2_unfold((i + 1) as nat);
    assert(call_ensures(ExponentialBackoff::next, (calls[i],), delays[i]));
    if i > 0 {
        law_backoff_doubles(base, backoff, calls, delays, i - 1);
        assert(call_ensures(ExponentialBackoff::next, (calls[i - 1],), delays[i - 1]));
        assert(*calls[i] == *final(calls[i - 1]));
    } else {
        assert(base@ * 1 == base@);
    }
    assert(base@ * (2 * pow2(i as nat)) == 2 * (base@ * pow2(i as nat))) by (nonlinear_arith);
}

/// How many of the retries of a configuration are made once a pause was asked for
/// `i` times.
spec fn made(config: RetryView, i: int) -> nat {
    if i < config.max_retries {
        i as nat
    } else {
        config.max_retries
    }
}

/// Where the schedule of a configuration stands once a pause was asked for `i`
/// times.
spec fn schedule_at(config: RetryView, i: int) -> ScheduleView {
    after_retries(ProgressView::start(config), made(config, i)).schedule
}

proof fn lemma_schedule_at(config: Retry, i: int)
    requires
        0 <= i,
    ensures
        ({
            let at = schedule_at(config@, i);
            &&& schedule_at(config@, 0) == ScheduleView::start(config@)
            &&& at.remaining > 0 <==> i < config.max_retries
            &&& at.remaining > 0 ==> {
                &&& at.next_delay() == config.delay * 1_000_000 * pow2((i + 1) as nat)
                &&& at.advanced() == schedule_at(config@, i + 1)
            }
            &&& at.remaining == 0 ==> at == schedule_at(config@, i + 1)
        }),
{
    law_view_shows_the_settings(config);
    lemma_schedule_after_retries(ProgressView::start(config@), made(config@, i));
}

/// The schedule of a configuration gives out one delay for each retry and then no
/// more. The `i`-th is the configured one in nanoseconds, doubled `i` times. It
/// counts the retries, and can be asked wherever the delay that is due is within
/// the range of a duration.
pub proof fn law_schedule_has_one_delay_for_each_retry(
    config: Retry,
    schedule: BackoffSchedule,
    calls: Seq<&mut BackoffSchedule>,
    delays: Seq<Option<Duration>>,
    i: int,
)
    requires
        call_ensures(BackoffSchedule::new, (&config,), schedule),
        0 <= i < calls.len() == delays.len(),
        *calls[0] == schedule,
        forall|j: int|
            0 < j < calls.len() ==> *(#[trigger] calls[j]) == *final(calls[j - 1]),
        forall|j: int|
            0 <= j < calls.len() ==> call_ensures(
                BackoffSchedule::next,
                (#[trigger] calls[j],),
                delays[j],
            ),
    ensures
        delays[i] is Some <==> i < config.max_retries,
        delays[i] matches Some(delay) ==> delay@ == config.delay * 1_000_000 * pow2(
            (i + 1) as nat,
        ),
        i < config.max_retries ==> config.delay * 1_000_000 * pow2((i + 1) as nat)
            <= 18_446_744_073_709_551_615_999_999_999 ==> call_requires(
            BackoffSchedule::next,
            (calls[i],),
        ),
        i >= config.max_retries ==> call_requires(BackoffSchedule::next, (calls[i],)),
        forall|room: bool|
            call_ensures(BackoffSchedule::has_room, (&*calls[i],), room) ==> (room <==> i
                >= config.max_retries || config.delay * 1_000_000 * pow2((i + 1) as nat)
                <= 18_446_744_073_709_551_615_999_999_999),
        forall|count: usize|
            call_ensures(BackoffSchedule::retries_made, (&*calls[i],), count) ==> count == if i
                < config.max_retries {
                i
            } else {
                config.max_retries as int
            },
{
    lemma_schedule_stands_at(config, schedule, calls, delays, i);
    lemma_schedule_at(config, i);
    assert(call_ensures(BackoffSchedule::next, (calls[i],), delays[i]));
}

proof fn lemma_schedule_stands_at(
    config: Retry,
    schedule: BackoffSchedule,
    calls: Seq<&mut BackoffSchedule>,
    delays: Seq<Option<Duration>>,
    i: int,
)
    requires
        call_ensures(BackoffSchedule::new, (&config,), schedule),
        0 <= i < calls.len() == delays.len(),
        *calls[0] == schedule,
        forall|j: int|
            0 < j < calls.len() ==> *(#[trigger] calls[j]) == *final(calls[j - 1]),
        forall|j: int|
            0 <= j < calls.len() ==> call_ensures(
                BackoffSchedule::next,
                (#[trigger] calls[j],),
                delays[j],
            ),
    ensures
        calls[i]@ == schedule_at(config@, i),
    decreases i,
{
    if i == 0 {
        lemma_schedule_at(config, 0);
    } else {
        lemma_schedule_stands_at(config, schedule, calls, delays, i - 1);
        lemma_schedule_at(config, i - 1);
        assert(call_ensures(BackoffSchedule::next, (calls[i - 1],), delays[i - 1]));
        assert(*calls[i] == *final(calls[i - 1]));
    }
}

proof fn lemma_retry_durations_stand_at<'a, J: Fn(Duration) -> Duration>(
    config: Retry,
    calls: Seq<&mut RetryDurations<'a, J>>,
    pauses: Seq<Option<Duration>>,
    i: int,
)
    requires
        0 <= i < calls.len() == pauses.len(),
        calls[0]@ == ScheduleView::start(config@),
        forall|j: int|
            0 < j < calls.len() ==> *(#[trigger] calls[j]) == *final(calls[j - 1]),
        forall|j: int|
            0 <= j < calls.len() ==> call_ensures(
                RetryDurations::<'a, J>::next,
                (#[trigger] calls[j],),
                pauses[j],
            ),
    ensures
        calls[i]@ == schedule_at(config@, i),
        calls[i].jitter_fn() == calls[0].jitter_fn(),
    decreases i,
{
    if i == 0 {
        lemma_schedule_at(config, 0);
    } else {
        lemma_retry_durations_stand_at(config, calls, pauses, i - 1);
        lemma_schedule_at(config, i - 1);
        assert(call_ensures(RetryDurations::<'a, J>::next, (calls[i - 1],), pauses[i - 1]));
        assert(*calls[i] == *final(calls[i - 1]));
    }
}

/// Pauses that start at the schedule of a configuration: one for each retry, each
/// what the jitter function returns for the delay that is due.
pub proof fn lemma_retry_durations_give<'a, J: Fn(Duration) -> Duration>(
    config: Retry,
    calls: Seq<&mut RetryDurations<'a, J>>,
    pauses: Seq<Option<Duration>>,
    i: int,
)
    requires
        0 <= i < calls.len() == pauses.len(),
        calls[0]@ == ScheduleView::start(config@),
        forall|j: int|
            0 < j < calls.len() ==> *(#[trigger] calls[j]) == *final(calls[j - 1]),
        forall|j: int|
            0 <= j < calls.len() ==> call_ensures(
                RetryDurations::<'a, J>::next,
                (#[trigger] calls[j],),
                pauses[j],
            ),
    ensures
        pauses[i] is Some <==> i < config.max_retries,
        pauses[i] matches Some(pause) ==> exists|delay: Duration|
            {
                &&& delay@ == config.delay * 1_000_000 * pow2((i + 1) as nat)
                &&& #[trigger] call_ensures(calls[0].jitter_fn(), (delay,), pause)
            },
{
    lemma_retry_durations_stand_at(config, calls, pauses, i);
    lemma_schedule_at(config, i);
    assert(call_ensures(RetryDurations::<'a, J>::next, (calls[i],), pauses[i]));
}

/// There is one pause for each retry and then no more. The `i`-th is what the
/// jitter function returns for the configured delay, doubled `i` times. It can be
/// asked for wherever that delay is within the range of a duration.
pub proof fn law_retry_pauses_are_varied_delays<'a, J: Fn(Duration) -> Duration>(
    config: Retry,
    jitter_fn: &'a J,
    durations: RetryDurations<'a, J>,
    calls: Seq<&mut RetryDurations<'a, J>>,
    pauses: Seq<Option<Duration>>,
    i: int,
)
    requires
        call_ensures(RetryDurations::<'a, J>::new, (&config, jitter_fn), durations),
        0 <= i < calls.len() == pauses.len(),
        *calls[0] == durations,
        forall|j: int|
            0 < j < calls.len() ==> *(#[trigger] calls[j]) == *final(calls[j - 1]),
        forall|j: int|
            0 <= j < calls.len() ==> call_ensures(
                RetryDurations::<'a, J>::next,
                (#[trigger] calls[j],),
                pauses[j],
            ),
    ensures
        pauses[i] is Some <==> i < config.max_retries,
        pauses[i] matches Some(pause) ==> exists|delay: Duration|
            {
                &&& delay@ == config.delay * 1_000_000 * pow2((i + 1) as nat)
                &&& #[trigger] call_ensures(*jitter_fn, (delay,), pause)
            },
        (forall|delay: Duration| call_requires(*jitter_fn, (delay,))) && (i >= config.max_retries
            || config.delay * 1_000_000 * pow2((i + 1) as nat)
            <= 18_446_744_073_709_551_615_999_999_999) ==> call_requires(
            RetryDurations::<'a, J>::next,
            (calls[i],),
        ),
        forall|room: bool|
            call_ensures(RetryDurations::<'a, J>::has_room, (&*calls[i],), room) ==> (room <==> i
                >= config.max_retries || config.delay * 1_000_000 * pow2((i + 1) as nat)
                <= 18_446_744_073_709_551_615_999_999_999),
{
    lemma_retry_durations_stand_at(config, calls, pauses, i);
    lemma_schedule_at(config, i);
    lemma_retry_durations_give(config, calls, pauses, i);
}

proof fn lemma_backoff_durations_stand_at<'a, J: RetryJitterFn>(
    config: Retry,
    calls: Seq<&mut BackoffDurations<'a, J>>,
    pauses: Seq<Option<Duration>>,
    i: int,
)
    requires
        0 <= i < calls.len() == pauses.len(),
        calls[0]@ == ScheduleView::start(config@),
        forall|j: int|
            0 < j < calls.len() ==> *(#[trigger] calls[j]) == *final(calls[j - 1]),
        forall|j: int|
            0 <= j < calls.len() ==> call_ensures(
                BackoffDurations::<'a, J>::next,
                (#[trigger] calls[j],),
                pauses[j],
            ),
    ensures
        calls[i]@ == schedule_at(config@, i),
        calls[i].jitter_fn() == calls[0].jitter_fn(),
        calls[i].jitter_amt() == calls[0].jitter_amt(),
    decreases i,
{
    if i == 0 {
        lemma_schedule_at(config, 0);
    } else {
        lemma_backoff_durations_stand_at(config, calls, pauses, i - 1);
        lemma_schedule_at(config, i - 1);
        assert(call_ensures(BackoffDurations::<'a, J>::next, (calls[i - 1],), pauses[i - 1]));
        assert(*calls[i] == *final(calls[i - 1]));
    }
}

/// Pauses that start at the schedule of a configuration: one for each retry, each
/// what the jitter function makes of the delay that is due.
pub proof fn lemma_backoff_durations_give<'a, J: RetryJitterFn>(
    config: Retry,
    calls: Seq<&mut BackoffDurations<'a, J>>,
    pauses: Seq<Option<Duration>>,
    i: int,
)
    requires
        0 <= i < calls.len() == pauses.len(),
        calls[0]@ == ScheduleView::start(config@),
        calls[0].jitter_amt() == config.jitter,
        forall|j: int|
            0 < j < calls.len() ==> *(#[trigger] calls[j]) == *final(calls[j - 1]),
        forall|j: int|
            0 <= j < calls.len() ==> call_ensures(
                BackoffDurations::<'a, J>::next,
                (#[trigger] calls[j],),
                pauses[j],
            ),
    ensures
        pauses[i] is Some <==> i < config.max_retries,
        pauses[i] matches Some(pause) ==> exists|delay: Duration|
            {
                &&& delay@ == config.delay * 1_000_000 * pow2((i + 1) as nat)
                &&& #[trigger] calls[0].jitter_fn().gives(delay, config.jitter, pause)
                &&& call_ensures(
                    J::jitter,
                    (&calls[0].jitter_fn(), delay, config.jitter),
                    pause,
                )
            },
{
    lemma_backoff_durations_stand_at(config, calls, pauses, i);
    lemma_schedule_at(config, i);
    assert(call_ensures(BackoffDurations::<'a, J>::next, (calls[i],), pauses[i]));
    if pauses[i] is Some {
        assert(calls[i].may_pause(pauses[i]->0));
    }
}

/// There is one pause for each retry and then no more. The `i`-th is what the
/// jitter function makes of the configured delay, doubled `i` times, and of the
/// configured amount. It can be asked for wherever that delay is within the range
/// of a duration.
pub proof fn law_backoff_pauses_are_varied_delays<'a, J: RetryJitterFn>(
    config: Retry,
    jitter_fn: &'a J,
    durations: BackoffDurations<'a, J>,
    calls: Seq<&mut BackoffDurations<'a, J>>,
    pauses: Seq<Option<Duration>>,
    i: int,
)
    requires
        call_ensures(BackoffDurations::<'a, J>::new, (&config, jitter_fn), durations),
        0 <= i < calls.len() == pauses.len(),
        *calls[0] == durations,
        forall|j: int|
            0 < j < calls.len() ==> *(#[trigger] calls[j]) == *final(calls[j - 1]),
        forall|j: int|
            0 <= j < calls.len() ==> call_ensures(
                BackoffDurations::<'a, J>::next,
                (#[trigger] calls[j],),
                pauses[j],
            ),
    ensures
        pauses[i] is Some <==> i < config.max_retries,
        pauses[i] matches Some(pause) ==> exists|delay: Duration|
            {
                &&& delay@ == config.delay * 1_000_000 * pow2((i + 1) as nat)
                &&& #[trigger] jitter_fn.gives(delay, config.jitter, pause)
                &&& call_ensures(J::jitter, (jitter_fn, delay, config.jitter), pause)
            },
        (forall|delay: Duration| #[trigger] jitter_fn.accepts(delay, config.jitter)) && (i
            >= config.max_retries || config.delay * 1_000_000 * pow2((i + 1) as nat)
            <= 18_446_744_073_709_551_615_999_999_999) ==> call_requires(
            BackoffDurations::<'a, J>::next,
            (calls[i],),
        ),
        forall|room: bool|
            call_ensures(BackoffDurations::<'a, J>::has_room, (&*calls[i],), room) ==> (room <==> i
                >= config.max_retries || config.delay * 1_000_000 * pow2((i + 1) as nat)
                <= 18_446_744_073_709_551_615_999_999_999),
        forall|count: usize|
            call_ensures(BackoffDurations::<'a, J>::retries_made, (&*calls[i],), count) ==> count
                == if i < config.max_retries {
                i
            } else {
                config.max_retries as int
            },
{
    law_view_shows_the_settings(config);
    lemma_backoff_durations_stand_at(config, calls, pauses, i);
    lemma_schedule_at(config, i);
    lemma_backoff_durations_give(config, calls, pauses, i);
    if forall|delay: Duration| #[trigger] jitter_fn.accepts(delay, config.jitter) {
        assert(calls[i].takes_any_delay());
    }
}

} // verus!
