//! Laws of one operation and of its events.
use vstd::prelude::*;

use crate::command::OperationResult;
use crate::error::ServiceError;
use crate::event;
use crate::event::{OperationEvent, Progress, ProgressUnit};
use crate::operation;
use crate::operation::{EventModel, Lifecycle, OperationModel, Publication, SequencedEvent};

verus! {

/// The event taken next stands before every other pending event, and taking it
/// removes it and nothing else.
pub proof fn law_next_event_is_the_earliest(events: EventModel)
    requires
        operation::events_wf(events),
    ensures
        operation::next_pending(events) is None <==> (forall|other: SequencedEvent|
            !operation::is_pending(events, other)),
        operation::next_pending(events) is Some ==> {
            let next = operation::next_pending(events)->0;
            &&& operation::is_pending(events, next)
            &&& forall|other: SequencedEvent|
                operation::is_pending(events, other) && other != next ==> next.sequence < other.sequence
            &&& forall|other: SequencedEvent|
                #![trigger operation::is_pending(operation::after_pop(events), other)]
                operation::is_pending(operation::after_pop(events), other) <==> operation::is_pending(events, other) && other
                    != next
        },
{
    let first = operation::first_lossless(events);
    if events.lossless.len() > 0 {
        assert(events.lossless.contains(events.lossless[0]));
    }
    assert forall|other: SequencedEvent| events.lossless.contains(other) implies first is Some
        && first->0.sequence <= other.sequence && (other != first->0 ==> first->0.sequence
        < other.sequence) by {
        let i = choose|i: int| 0 <= i < events.lossless.len() && events.lossless[i] == other;
        if i > 0 {
            assert(events.lossless[0].sequence < events.lossless[i].sequence);
        }
    }
    if operation::next_pending(events) is None {
        assert(first is None && events.item_progress is None && events.byte_progress is None
            && events.terminal is None) by {
            // Some slot is the earliest as soon as one is filled.
            lemma_some_slot_is_earliest(events);
        }
    } else {
        let next = operation::next_pending(events)->0;
        lemma_some_slot_is_earliest(events);
        assert(operation::is_pending(events, next));
        assert forall|other: SequencedEvent| operation::is_pending(events, other) && other
            != next implies next.sequence < other.sequence by {}
        assert forall|other: SequencedEvent|
            #![trigger operation::is_pending(operation::after_pop(events), other)]
            operation::is_pending(operation::after_pop(events), other) <==> operation::is_pending(events, other) && other != next by {
            if operation::is_earliest(first, events) {
                lemma_drop_first_contains(events.lossless, other);
            }
        }
    }
}

/// Dropping the first of a strictly ordered queue removes exactly that event.
proof fn lemma_drop_first_contains(queue: Seq<SequencedEvent>, other: SequencedEvent)
    requires
        queue.len() > 0,
        forall|i: int, j: int|
            0 <= i < j < queue.len() ==> (#[trigger] queue[i]).sequence < (
            #[trigger] queue[j]).sequence,
    ensures
        queue.drop_first().contains(other) <==> queue.contains(other) && other != queue[0],
{
    if queue.drop_first().contains(other) {
        let i = choose|i: int|
            0 <= i < queue.drop_first().len() && queue.drop_first()[i] == other;
        assert(queue[i + 1] == other);
        assert(queue[0].sequence < queue[i + 1].sequence);
    }
    if queue.contains(other) && other != queue[0] {
        let i = choose|i: int| 0 <= i < queue.len() && queue[i] == other;
        assert(queue.drop_first()[i - 1] == other);
    }
}

/// A buffer with a pending event has an earliest slot.
proof fn lemma_some_slot_is_earliest(events: EventModel)
    requires
        operation::events_wf(events),
    ensures
        operation::first_lossless(events) is None && events.item_progress is None && events.byte_progress is None
            && events.terminal is None || operation::is_earliest(operation::first_lossless(events), events)
            || operation::is_earliest(events.item_progress, events) || operation::is_earliest(
            events.byte_progress,
            events,
        ) || operation::is_earliest(events.terminal, events),
{
}

/// Number of pending events.
pub open spec fn pending_count(events: EventModel) -> nat {
    events.lossless.len() + (if events.item_progress is Some {
        1nat
    } else {
        0
    }) + (if events.byte_progress is Some {
        1nat
    } else {
        0
    }) + (if events.terminal is Some {
        1nat
    } else {
        0
    })
}

/// The events that a consumer takes until nothing is pending, in that order.
pub open spec fn drained(events: EventModel) -> Seq<SequencedEvent>
    decreases pending_count(events),
{
    if operation::next_pending(events) is Some && pending_count(operation::after_pop(events)) < pending_count(events) {
        seq![operation::next_pending(events)->0] + drained(operation::after_pop(events))
    } else {
        Seq::empty()
    }
}

/// A consumer that takes every pending event sees each of them once, in the
/// order in which they were emitted, and sees the terminal event last.
pub proof fn law_consumer_sees_events_in_order(events: EventModel)
    requires
        operation::events_wf(events),
    ensures
        forall|i: int, j: int|
            0 <= i < j < drained(events).len() ==> (#[trigger] drained(events)[i]).sequence < (
            #[trigger] drained(events)[j]).sequence,
        forall|event: SequencedEvent| #[trigger]
            drained(events).contains(event) <==> operation::is_pending(events, event),
        events.terminal is Some ==> drained(events).len() > 0 && drained(events).last()
            == events.terminal->0,
    decreases pending_count(events),
{
    law_next_event_is_the_earliest(events);
    if operation::next_pending(events) is Some {
        let next = operation::next_pending(events)->0;
        let rest = operation::after_pop(events);
        lemma_pop_keeps_events_wf(events);
        lemma_some_slot_is_earliest(events);
        assert(pending_count(rest) < pending_count(events));
        law_consumer_sees_events_in_order(rest);
        let tail = drained(rest);
        assert(drained(events) =~= seq![next] + tail);
        assert forall|event: SequencedEvent| #[trigger]
            drained(events).contains(event) <==> operation::is_pending(events, event) by {
            if drained(events).contains(event) {
                let i = choose|i: int|
                    0 <= i < drained(events).len() && drained(events)[i] == event;
                if i > 0 {
                    assert(tail[i - 1] == event);
                    assert(tail.contains(event));
                    assert(operation::is_pending(rest, event));
                }
            }
            if operation::is_pending(events, event) {
                if event == next {
                    assert(drained(events)[0] == event);
                } else {
                    assert(operation::is_pending(rest, event));
                    assert(tail.contains(event));
                    let i = choose|i: int| 0 <= i < tail.len() && tail[i] == event;
                    assert(drained(events)[i + 1] == event);
                }
            }
        }
        assert forall|i: int, j: int| 0 <= i < j < drained(events).len() implies (
        #[trigger] drained(events)[i]).sequence < (#[trigger] drained(events)[j]).sequence by {
            assert(drained(events)[j] == tail[j - 1]);
            if i == 0 {
                assert(tail.contains(tail[j - 1]));
                assert(operation::is_pending(rest, tail[j - 1]));
            } else {
                assert(drained(events)[i] == tail[i - 1]);
            }
        }
        if events.terminal is Some {
            if rest.terminal is Some {
                assert(drained(events).last() == tail.last());
            } else {
                assert(next == events.terminal->0);
                assert(tail.len() == 0) by {
                    if tail.len() > 0 {
                        assert(tail.contains(tail[0]));
                        assert(operation::is_pending(rest, tail[0]));
                        assert(operation::is_pending(events, tail[0]));
                        assert(tail[0].sequence <= events.terminal->0.sequence);
                    }
                }
            }
        }
    } else {
        assert(drained(events).len() == 0);
        assert forall|event: SequencedEvent| #[trigger]
            drained(events).contains(event) <==> operation::is_pending(events, event) by {}
        if events.terminal is Some {
            assert(operation::is_pending(events, events.terminal->0));
        }
    }
}

proof fn lemma_pop_keeps_events_wf(events: EventModel)
    requires
        operation::events_wf(events),
    ensures
        operation::events_wf(operation::after_pop(events)),
{
    let popped = operation::after_pop(events);
    if operation::is_earliest(operation::first_lossless(events), events) {
        assert forall|i: int| 0 <= i < popped.lossless.len() implies #[trigger] popped.lossless[i]
            == events.lossless[i + 1] by {}
    }
}

/// Only the first outcome of an operation counts: a later one changes nothing.
pub proof fn law_an_operation_ends_once(
    state: OperationModel,
    first: Result<OperationResult, ServiceError>,
    second: Result<OperationResult, ServiceError>,
    transition: Result<(), ServiceError>,
)
    ensures
        operation::after_finish(operation::after_finish(state, first), second) == operation::after_finish(state, first),
        operation::after_finish_transition(operation::after_finish(state, first), transition) == operation::after_finish(
            state,
            first,
        ),
        operation::after_finish(operation::after_finish_transition(state, transition), second)
            == operation::after_finish_transition(state, transition),
{
}

/// After its end an operation emits nothing more.
pub proof fn law_nothing_is_emitted_after_the_end(state: OperationModel, event: OperationEvent)
    requires
        state.lifecycle is Terminal,
    ensures
        operation::publish_answer(state, event) is Err,
        operation::after_publish(state, event) == state,
{
}

/// The terminal event is emitted by the end of the operation alone.
pub proof fn law_no_terminal_event_can_be_published(state: OperationModel, event: OperationEvent)
    requires
        event::is_terminal_event(event),
    ensures
        operation::publish_answer(state, event) == Err::<Publication, ServiceError>(
            ServiceError::ExecutorFailed,
        ),
        operation::after_publish(state, event) == state,
{
}

/// A delivered progress event takes the place of the pending one of its unit
/// and never takes room from the lossless events.
pub proof fn law_progress_replaces_progress(state: OperationModel, progress: Progress)
    requires
        operation::publish_answer(state, OperationEvent::Progress(progress)) is Ok,
    ensures
        operation::publish_answer(state, OperationEvent::Progress(progress)) == Ok::<
            Publication,
            ServiceError,
        >(Publication::Delivered),
        ({
            let after = operation::after_publish(state, OperationEvent::Progress(progress)).events;
            &&& after.lossless == state.events.lossless
            &&& after.terminal == state.events.terminal
            &&& match progress@.unit {
                ProgressUnit::Items => {
                    &&& operation::event_of(after.item_progress) == Some(OperationEvent::Progress(progress))
                    &&& after.byte_progress == state.events.byte_progress
                },
                ProgressUnit::Bytes => {
                    &&& operation::event_of(after.byte_progress) == Some(OperationEvent::Progress(progress))
                    &&& after.item_progress == state.events.item_progress
                },
            }
        }),
{
}

/// A lossless event is delivered behind every event before it and is never
/// dropped: where there is no room, nothing changes until the consumer takes one.
pub proof fn law_lossless_events_are_never_dropped(state: OperationModel, event: OperationEvent)
    requires
        operation::operation_wf(state),
        !event::is_replaceable(event),
        operation::publish_answer(state, event) is Ok,
    ensures
        operation::publish_answer(state, event)->Ok_0 is WaitForRoom ==> operation::after_publish(state, event) == state
            && state.events.lossless.len() == state.events.lossless_capacity,
        operation::publish_answer(state, event)->Ok_0 is Delivered ==> {
            let queued = SequencedEvent { sequence: state.events.next_sequence, event };
            &&& operation::is_pending(operation::after_publish(state, event).events, queued)
            &&& forall|other: SequencedEvent|
                operation::is_pending(state.events, other) ==> other.sequence < queued.sequence
                    && #[trigger] operation::is_pending(operation::after_publish(state, event).events, other)
        },
{
    let after = operation::after_publish(state, event).events;
    if operation::publish_answer(state, event)->Ok_0 is Delivered {
        let queued = SequencedEvent { sequence: state.events.next_sequence, event };
        assert(after.lossless[state.events.lossless.len() as int] == queued);
        assert forall|other: SequencedEvent| operation::is_pending(state.events, other) implies other.sequence
            < queued.sequence && #[trigger] operation::is_pending(after, other) by {
            if state.events.lossless.contains(other) {
                let i = choose|i: int|
                    0 <= i < state.events.lossless.len() && state.events.lossless[i] == other;
                assert(after.lossless[i] == other);
            }
        }
    }
}

/// Cancellation is never taken back.
pub proof fn law_cancellation_is_permanent(
    state: OperationModel,
    event: OperationEvent,
    outcome: Result<OperationResult, ServiceError>,
    transition: Result<(), ServiceError>,
)
    requires
        state.cancelled,
    ensures
        operation::after_publish(state, event).cancelled,
        operation::after_finish(state, outcome).cancelled,
        operation::after_finish_transition(state, transition).cancelled,
        operation::after_cancel(state).cancelled,
        operation::after_abandon(state).cancelled,
{
}

/// Once an effect is irrevocable, cancellation does not silence the operation:
/// what could be published without the cancellation still can.
pub proof fn law_cancellation_does_not_silence_an_irrevocable_operation(
    state: OperationModel,
    event: OperationEvent,
)
    requires
        state.irrevocable,
    ensures
        operation::publish_answer(operation::after_cancel(state), event) == operation::publish_answer(state, event),
{
}

/// After the consumer went away nothing is pending and nothing becomes pending.
pub proof fn law_an_abandoned_operation_buffers_nothing(
    state: OperationModel,
    event: OperationEvent,
    outcome: Result<OperationResult, ServiceError>,
)
    ensures
        forall|other: SequencedEvent| !operation::is_pending(operation::after_abandon(state).events, other),
        operation::after_publish(operation::after_abandon(state), event) == operation::after_abandon(state),
        operation::after_finish(operation::after_abandon(state), outcome).events == operation::after_abandon(state).events,
{
}

/// The stages of an operation are passed forward only.
pub open spec fn stage(lifecycle: Lifecycle) -> nat {
    match lifecycle {
        Lifecycle::Accepted => 0,
        Lifecycle::Running => 1,
        Lifecycle::Terminal => 2,
    }
}

/// An ended operation stays ended and keeps its outcome until it is taken.
pub proof fn law_the_end_is_final(
    state: OperationModel,
    event: OperationEvent,
    outcome: Result<OperationResult, ServiceError>,
)
    requires
        state.lifecycle is Terminal,
    ensures
        stage(operation::after_publish(state, event).lifecycle) == stage(state.lifecycle),
        operation::after_finish(state, outcome).result == state.result,
        operation::after_abandon(state).result == state.result,
        operation::after_cancel(state).result == state.result,
{
}

} // verus!
