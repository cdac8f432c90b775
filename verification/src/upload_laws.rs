//! What holds of a whole operation that consumes a stream, however its attempts
//! turn out.
use crate::chunk::{
    bytes_content, data, law_data_grows_by_chunk, law_empty_chunks_hold_no_data, non_empty,
};
use crate::config::RetryView;
use crate::duration::NANOS_PER_MILLI;
use crate::runs::{after_retries, lemma_schedule_after_retries};
use crate::step::{ProgressView, Verdict};
use crate::upload::{expects, reader_advanced, to_send, ReaderEvent, ReaderRetryView};
use crate::wrapper::{verdict, Failure};
use vstd::arithmetic::power2::pow2;
use vstd::prelude::*;

verus! {

/// The state of an operation after the events.
pub open spec fn state_after<U>(config: RetryView, events: Seq<ReaderEvent<U>>) -> ReaderRetryView
    decreases events.len(),
{
    if events.len() == 0 {
        ReaderRetryView::start(config)
    } else {
        reader_advanced(config, state_after(config, events.drop_last()), events.last())
    }
}

/// What the source has given out over the events, chunk by chunk.
pub open spec fn given<U>(events: Seq<ReaderEvent<U>>) -> Seq<Seq<u8>>
    decreases events.len(),
{
    if events.len() == 0 {
        seq![]
    } else {
        match events.last() {
            ReaderEvent::Chunk(chunk) => given(events.drop_last()).push(bytes_content(chunk)),
            _ => given(events.drop_last()),
        }
    }
}

/// What the attempt that began last has been sent over the events, chunk by
/// chunk.
pub open spec fn sent<U>(config: RetryView, events: Seq<ReaderEvent<U>>) -> Seq<Seq<u8>>
    decreases events.len(),
{
    if events.len() == 0 {
        seq![]
    } else {
        let before = events.drop_last();
        let now = to_send(state_after(config, before), events.last());
        if events.last() is Begin {
            now
        } else {
            sent(config, before) + now
        }
    }
}

/// The number of pauses that the events led to.
pub open spec fn pauses<U>(config: RetryView, events: Seq<ReaderEvent<U>>) -> nat
    decreases events.len(),
{
    if events.len() == 0 {
        0
    } else {
        let before = events.drop_last();
        pauses(config, before) + match events.last() {
            ReaderEvent::Finished(outcome) => if verdict(
                config,
                state_after(config, before).schedule,
                outcome,
            ) is Wait {
                1nat
            } else {
                0nat
            },
            _ => 0nat,
        }
    }
}

/// An operation keeps every chunk that its source gave out, in order.
pub proof fn law_every_chunk_is_kept<U>(config: RetryView, events: Seq<ReaderEvent<U>>)
    ensures
        state_after(config, events).given == given(events),
    decreases events.len(),
{
    if events.len() > 0 {
        law_every_chunk_is_kept(config, events.drop_last());
    }
}

/// Every attempt receives all the data sent across multiple retries: at any
/// time, the attempt that began last has been sent exactly the data that the
/// source has given out, in the same order, whichever attempts took it from the
/// source and wherever they broke off.
pub proof fn law_every_attempt_receives_all_data<U>(
    config: RetryView,
    events: Seq<ReaderEvent<U>>,
)
    ensures
        data(sent(config, events)) == data(given(events)),
    decreases events.len(),
{
    if events.len() > 0 {
        let before = events.drop_last();
        law_every_attempt_receives_all_data(config, before);
        law_every_chunk_is_kept(config, before);
        match events.last() {
            ReaderEvent::Begin => {
                law_empty_chunks_hold_no_data(given(before));
            },
            ReaderEvent::Chunk(chunk) => {
                law_data_grows_by_chunk(given(before), bytes_content(chunk));
                law_data_grows_by_chunk(sent(config, before), bytes_content(chunk));
                assert(sent(config, events) =~= sent(config, before).push(bytes_content(chunk)));
            },
            ReaderEvent::Finished(_) => {
                assert(sent(config, events) =~= sent(config, before));
            },
        }
    }
}

/// No chunk that is sent again is empty, so that none is taken for the end of
/// the data.
pub proof fn law_replayed_chunks_hold_data(given: Seq<Seq<u8>>, i: int)
    requires
        0 <= i < non_empty(given).len(),
    ensures
        non_empty(given)[i].len() > 0,
{
    broadcast use vstd::seq_lib::group_filter_ensures;

}

/// An operation pauses at most once for each retry, and has used up the first
/// delays of its schedule, one for each pause.
pub proof fn law_pauses_follow_the_schedule<U>(config: RetryView, events: Seq<ReaderEvent<U>>)
    ensures
        pauses(config, events) <= config.max_retries,
        state_after(config, events).schedule == after_retries(
            ProgressView::start(config),
            pauses(config, events),
        ).schedule,
    decreases events.len(),
{
    let start = ProgressView::start(config);
    if events.len() == 0 {
        lemma_schedule_after_retries(start, 0);
    } else {
        let before = events.drop_last();
        law_pauses_follow_the_schedule(config, before);
        lemma_schedule_after_retries(start, pauses(config, before));
    }
}

/// The delays double: each pause of an operation is for the configured delay,
/// doubled once for each pause so far and once more for itself.
pub proof fn law_delays_double<U>(
    config: RetryView,
    events: Seq<ReaderEvent<U>>,
    outcome: Result<U, Failure>,
)
    requires
        verdict(config, state_after(config, events).schedule, outcome) is Wait,
    ensures
        verdict(config, state_after(config, events).schedule, outcome) == Verdict::<U>::Wait(
            config.delay * (NANOS_PER_MILLI as nat) * pow2(pauses(config, events) + 1),
        ),
{
    law_pauses_follow_the_schedule(config, events);
    lemma_schedule_after_retries(ProgressView::start(config), pauses(config, events));
}

/// Whether each of the events can happen after the ones before it.
pub open spec fn in_order<U>(config: RetryView, events: Seq<ReaderEvent<U>>) -> bool
    decreases events.len(),
{
    events.len() == 0 || {
        &&& in_order(config, events.drop_last())
        &&& expects(state_after(config, events.drop_last()).phase, events.last())
    }
}

/// The number of attempts that began.
pub open spec fn begins<U>(events: Seq<ReaderEvent<U>>) -> nat
    decreases events.len(),
{
    if events.len() == 0 {
        0
    } else {
        begins(events.drop_last()) + if events.last() is Begin {
            1nat
        } else {
            0nat
        }
    }
}

proof fn lemma_one_attempt_more_than_pauses<U>(config: RetryView, events: Seq<ReaderEvent<U>>)
    requires
        in_order(config, events),
    ensures
        begins(events) == pauses(config, events) + if state_after(config, events).phase
            is Ready {
            0nat
        } else {
            1nat
        },
    decreases events.len(),
{
    if events.len() > 0 {
        lemma_one_attempt_more_than_pauses(config, events.drop_last());
    }
}

/// An operation makes at most one attempt more than there are retries.
pub proof fn law_attempts_are_bounded<U>(config: RetryView, events: Seq<ReaderEvent<U>>)
    requires
        in_order(config, events),
    ensures
        begins(events) <= config.max_retries + 1,
{
    lemma_one_attempt_more_than_pauses(config, events);
    law_pauses_follow_the_schedule(config, events);
}

/// Nothing follows the result of an operation: the end of an attempt that is not
/// to be retried is the last event.
pub proof fn law_nothing_follows_the_result<U>(
    config: RetryView,
    events: Seq<ReaderEvent<U>>,
    i: int,
)
    requires
        in_order(config, events),
        0 <= i < events.len(),
        events[i] matches ReaderEvent::Finished(outcome) && verdict(
            config,
            state_after(config, events.take(i)).schedule,
            outcome,
        ) is Return,
    ensures
        i == events.len() - 1,
    decreases events.len(),
{
    let before = events.drop_last();
    if i < before.len() {
        assert(before.take(i) =~= events.take(i));
        law_nothing_follows_the_result(config, before, i);
        assert(before.drop_last() =~= events.take(i));
    }
}

} // verus!
