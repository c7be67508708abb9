//! The mathematical model of the notification channel: a history of published
//! values, one slot of retained history, and one independently progressing
//! cursor per consumer. The laws of the library — what a subscriber receives,
//! in what order, and what falling behind costs — are stated and proved here
//! over this model.

use vstd::prelude::*;

verus! {

/// What a single pull returns in the model. `history` is the sequence of all
/// values published so far and a consumer's cursor counts how many of them it
/// has accounted for (read or skipped).
pub enum PullModel<T> {
    /// The consumer was at most one publish behind: it receives the next
    /// value and its cursor advances past it.
    Value { value: T, cursor: int },
    /// The consumer was more than one publish behind: `missed` values were
    /// overwritten before it read them, and its cursor skips to the oldest
    /// value still retained.
    Lagged { missed: int, cursor: int },
    /// The consumer has seen every publish and the producer is gone.
    Closed,
    /// The consumer has seen every publish and the producer is still live.
    Pending,
}

/// One pull on a channel that retains a single slot of history. A consumer
/// whose cursor is behind by more than one publish is told how much it missed
/// and skips to the one value still retained; a consumer behind by exactly
/// one receives that value; a consumer that is caught up sees closure once
/// the producer is gone, and otherwise waits.
pub open spec fn channel_pull<T>(history: Seq<T>, closed: bool, cursor: int) -> PullModel<T> {
    if cursor < history.len() - 1 {
        PullModel::Lagged { missed: history.len() - 1 - cursor, cursor: history.len() - 1 }
    } else if cursor == history.len() - 1 {
        PullModel::Value { value: history.last(), cursor: history.len() as int }
    } else if closed {
        PullModel::Closed
    } else {
        PullModel::Pending
    }
}

/// The values delivered to a prompt consumer: one whose cursor is caught up
/// with the history `seen` and that pulls once after each of the publishes
/// `upcoming`, in turn. Should a pull not deliver a value — which the lemmas
/// below rule out for a prompt consumer — the run stops.
pub open spec fn prompt_run<T>(seen: Seq<T>, upcoming: Seq<T>) -> Seq<T>
    decreases upcoming.len(),
{
    if upcoming.len() == 0 {
        Seq::empty()
    } else {
        let grown = seen.push(upcoming.first());
        match channel_pull(grown, false, seen.len() as int) {
            PullModel::Value { value, .. } => seq![value] + prompt_run(grown, upcoming.skip(1)),
            _ => Seq::empty(),
        }
    }
}

/// A consumer that has not yet accounted for every publish is never silently
/// skipped past one: it is delivered exactly the next value when it kept
/// pace, and otherwise a lag notice that names how many values it missed —
/// never closure, never a stall, never a wrong value.
pub proof fn lemma_no_silent_skip<T>(history: Seq<T>, closed: bool, cursor: int)
    requires
        0 <= cursor < history.len(),
    ensures
        cursor + 1 == history.len() ==> channel_pull(history, closed, cursor) == (PullModel::Value {
            value: history[cursor],
            cursor: history.len() as int,
        }),
        cursor + 1 < history.len() ==> channel_pull(history, closed, cursor) == (PullModel::Lagged::<
            T,
        > { missed: history.len() - 1 - cursor, cursor: history.len() - 1 }),
{
}

/// A subscriber created when `seen` had been published and never lagging
/// thereafter receives exactly the values published after its creation, in
/// publish order: none of the earlier ones, none missing, none reordered.
pub proof fn lemma_prompt_run_delivers_exactly<T>(seen: Seq<T>, upcoming: Seq<T>)
    ensures
        prompt_run(seen, upcoming) == upcoming,
    decreases upcoming.len(),
{
    if upcoming.len() == 0 {
        assert(prompt_run(seen, upcoming) =~= upcoming);
    } else {
        let grown = seen.push(upcoming.first());
        assert(channel_pull(grown, false, seen.len() as int) == (PullModel::Value {
            value: upcoming.first(),
            cursor: grown.len() as int,
        }));
        lemma_prompt_run_delivers_exactly(grown, upcoming.skip(1));
        assert(seq![upcoming.first()] + upcoming.skip(1) =~= upcoming);
    }
}

/// In the terms of the observable itself: a subscriber created when `joined`
/// of the eventual `history` had been published, and keeping pace from then
/// on, is delivered exactly the part of the history after its creation — all
/// of it, in publish order, and nothing published before it joined.
pub proof fn lemma_subscriber_deliveries<T>(history: Seq<T>, joined: int)
    requires
        0 <= joined <= history.len(),
    ensures
        prompt_run(history.take(joined), history.skip(joined)) == history.skip(joined),
{
    lemma_prompt_run_delivers_exactly(history.take(joined), history.skip(joined));
}

/// A value that is not among the publishes made after a subscriber's creation
/// is never delivered to it while it keeps pace — in particular, a subscriber
/// that joins late never sees what was published before it joined.
pub proof fn lemma_late_subscriber_misses_prior<T>(seen: Seq<T>, upcoming: Seq<T>, value: T)
    requires
        !upcoming.contains(value),
    ensures
        !prompt_run(seen, upcoming).contains(value),
{
    lemma_prompt_run_delivers_exactly(seen, upcoming);
}

/// Once the producer is gone, a caught-up consumer sees the end of the
/// sequence — not a stall, and never a value again.
pub proof fn lemma_closed_ends_sequence<T>(history: Seq<T>, cursor: int)
    requires
        cursor == history.len(),
    ensures
        channel_pull(history, true, cursor) == PullModel::Closed::<T>,
{
}

/// Exactly one more publish means exactly one more delivery to a consumer
/// that keeps pace — the published value itself, delivered last — and a call
/// that publishes nothing delivers nothing. Together with the publish gates
/// of the value-changing operations, whose contracts say when the history
/// grows, this fixes how many deliveries each mutation causes.
pub proof fn lemma_deliveries_track_publishes<T>(seen: Seq<T>, upcoming: Seq<T>, value: T)
    ensures
        prompt_run(seen, Seq::<T>::empty()) == Seq::<T>::empty(),
        prompt_run(seen, upcoming.push(value)) == prompt_run(seen, upcoming).push(value),
{
    lemma_prompt_run_delivers_exactly(seen, upcoming);
    lemma_prompt_run_delivers_exactly(seen, upcoming.push(value));
}

/// One step in the life of one consumer: the producer publishes a value, or
/// the consumer pulls once. A trace of these, interleaved arbitrarily, covers
/// every sequence of pulls a subscriber can make while the producer lives.
pub enum TraceEvent<T> {
    /// The producer publishes the value.
    Publish(T),
    /// The consumer pulls once.
    Poll,
}

/// The history once every publish in `events` has happened.
pub open spec fn trace_history<T>(history: Seq<T>, events: Seq<TraceEvent<T>>) -> Seq<T>
    decreases events.len(),
{
    if events.len() == 0 {
        history
    } else {
        match events.first() {
            TraceEvent::Publish(value) => trace_history(history.push(value), events.skip(1)),
            TraceEvent::Poll => trace_history(history, events.skip(1)),
        }
    }
}

/// The values delivered to a consumer with the given cursor across a trace:
/// each pull follows [`channel_pull`], so a lag notice only advances the
/// cursor and delivers nothing.
pub open spec fn trace_deliveries<T>(history: Seq<T>, cursor: int, events: Seq<TraceEvent<T>>) -> Seq<
    T,
>
    decreases events.len(),
{
    if events.len() == 0 {
        Seq::empty()
    } else {
        match events.first() {
            TraceEvent::Publish(value) => trace_deliveries(
                history.push(value),
                cursor,
                events.skip(1),
            ),
            TraceEvent::Poll => match channel_pull(history, false, cursor) {
                PullModel::Value { value, cursor: advanced } => seq![value] + trace_deliveries(
                    history,
                    advanced,
                    events.skip(1),
                ),
                PullModel::Lagged { cursor: advanced, .. } => trace_deliveries(
                    history,
                    advanced,
                    events.skip(1),
                ),
                _ => trace_deliveries(history, cursor, events.skip(1)),
            },
        }
    }
}

/// The positions in the final history of the values delivered across a trace:
/// the same walk as [`trace_deliveries`], recording where each delivered
/// value stands in the history instead of the value itself.
pub open spec fn trace_positions<T>(history: Seq<T>, cursor: int, events: Seq<TraceEvent<T>>) -> Seq<
    int,
>
    decreases events.len(),
{
    if events.len() == 0 {
        Seq::empty()
    } else {
        match events.first() {
            TraceEvent::Publish(value) => trace_positions(
                history.push(value),
                cursor,
                events.skip(1),
            ),
            TraceEvent::Poll => match channel_pull(history, false, cursor) {
                PullModel::Value { cursor: advanced, .. } => seq![history.len() - 1]
                    + trace_positions(history, advanced, events.skip(1)),
                PullModel::Lagged { cursor: advanced, .. } => trace_positions(
                    history,
                    advanced,
                    events.skip(1),
                ),
                _ => trace_positions(history, cursor, events.skip(1)),
            },
        }
    }
}

/// A trace only ever pushes onto the history: what was published before the
/// trace keeps its place and its value in the final history.
pub proof fn lemma_trace_history_grows<T>(history: Seq<T>, events: Seq<TraceEvent<T>>)
    ensures
        history.len() <= trace_history(history, events).len(),
        forall|i: int| 0 <= i < history.len() ==> trace_history(history, events)[i] == history[i],
    decreases events.len(),
{
    if events.len() > 0 {
        match events.first() {
            TraceEvent::Publish(value) => {
                lemma_trace_history_grows(history.push(value), events.skip(1));
                assert forall|i: int| 0 <= i < history.len() implies trace_history(
                    history,
                    events,
                )[i] == history[i] by {
                    assert(history.push(value)[i] == history[i]);
                }
            },
            TraceEvent::Poll => {
                lemma_trace_history_grows(history, events.skip(1));
            },
        }
    }
}

/// The ordering guarantee, across any sequence of pulls: the values a
/// consumer is delivered stand at strictly increasing positions of the final
/// history, all at or after the consumer's starting cursor. So deliveries
/// come in exact publish order, none is duplicated, none stems from before
/// the cursor's starting point, and a gap can only be skipped-over history —
/// and by [`lemma_prompt_run_delivers_exactly`] there is no gap at all while
/// the consumer keeps pace.
pub proof fn lemma_deliveries_are_ordered_subsequence<T>(
    history: Seq<T>,
    cursor: int,
    events: Seq<TraceEvent<T>>,
)
    requires
        0 <= cursor <= history.len(),
    ensures
        ({
            let deliveries = trace_deliveries(history, cursor, events);
            let positions = trace_positions(history, cursor, events);
            let full = trace_history(history, events);
            &&& deliveries.len() == positions.len()
            &&& forall|k: int| 0 <= k < positions.len() ==> cursor <= #[trigger] positions[k]
                < full.len()
            &&& forall|k: int|
                0 <= k < positions.len() - 1 ==> #[trigger] positions[k] < positions[k + 1]
            &&& forall|k: int| 0 <= k < positions.len() ==> #[trigger] deliveries[k]
                == full[positions[k]]
        }),
    decreases events.len(),
{
    if events.len() > 0 {
        match events.first() {
            TraceEvent::Publish(value) => {
                lemma_deliveries_are_ordered_subsequence(history.push(value), cursor, events.skip(1));
            },
            TraceEvent::Poll => {
                if cursor < history.len() - 1 {
                    lemma_deliveries_are_ordered_subsequence(
                        history,
                        history.len() - 1,
                        events.skip(1),
                    );
                } else if cursor == history.len() - 1 {
                    lemma_deliveries_are_ordered_subsequence(
                        history,
                        history.len() as int,
                        events.skip(1),
                    );
                    lemma_trace_history_grows(history, events.skip(1));
                    assert(trace_deliveries(history, cursor, events) == seq![history.last()]
                        + trace_deliveries(history, history.len() as int, events.skip(1)));
                    assert(trace_positions(history, cursor, events) == seq![history.len() - 1]
                        + trace_positions(history, history.len() as int, events.skip(1)));
                } else {
                    lemma_deliveries_are_ordered_subsequence(history, cursor, events.skip(1));
                }
            },
        }
    }
}

/// A consumer that fell behind by more than the retained history is told how
/// many values it missed — never a silent skip and never an error — and its
/// very next pull delivers the newest value still retained.
pub proof fn lemma_lagged_pull_skips_to_latest<T>(history: Seq<T>, closed: bool, cursor: int)
    requires
        0 <= cursor < history.len() - 1,
    ensures
        channel_pull(history, closed, cursor) == (PullModel::Lagged::<T> {
            missed: history.len() - 1 - cursor,
            cursor: history.len() - 1,
        }),
        channel_pull(history, closed, history.len() - 1) == (PullModel::Value {
            value: history.last(),
            cursor: history.len() as int,
        }),
{
}

} // verus!
