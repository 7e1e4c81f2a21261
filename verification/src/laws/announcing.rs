//! Laws of what an operation tells, and of when it may go on.
use vstd::prelude::*;

use crate::error::ServiceError;
use crate::event::OperationEvent;
use crate::laws::terms;
use crate::operation::{OperationId, OperationModel, Publication, SequencedEvent};
use crate::service::scheduler;
use crate::service::scheduler::SchedulerModel;
use crate::service::worker;

verus! {

/// An operation passes a safe boundary exactly where it may go on. One that may not
/// is cancelled there, for the service and for the repository; nothing else changes.
pub proof fn law_a_boundary_is_passed_by_what_may_go_on(
    scheduler: SchedulerModel,
    id: OperationId,
    index: int,
)
    requires
        terms::stands_at(scheduler.active, id, index),
    ensures
        terms::may_go_on(scheduler, index) ==> scheduler::boundary_answer(scheduler, id) == Ok::<
            (),
            ServiceError,
        >(()) && scheduler::after_boundary(scheduler, id) == scheduler,
        !terms::may_go_on(scheduler, index) ==> scheduler::boundary_answer(scheduler, id) == Err::<
            (),
            ServiceError,
        >(ServiceError::Cancelled),
        !terms::may_go_on(scheduler, index) && !scheduler.active[index].cancelled ==> {
            let stopped = OperationModel {
                cancelled: true,
                repository_cancelled: true,
                ..scheduler.active[index]
            };
            scheduler::after_boundary(scheduler, id) == (SchedulerModel {
                active: scheduler.active.update(index, stopped),
                ..scheduler
            })
        },
        scheduler.active[index].cancelled ==> scheduler::after_boundary(scheduler, id)
            == scheduler,
{
    terms::lemma_found(scheduler.active, id, index);
}

/// What is not accounted passes no boundary, and changes nothing.
pub proof fn law_an_unknown_operation_passes_no_boundary(
    scheduler: SchedulerModel,
    id: OperationId,
    event: OperationEvent,
)
    requires
        terms::is_unknown(scheduler.active, id),
    ensures
        scheduler::boundary_answer(scheduler, id) == Err::<(), ServiceError>(
            ServiceError::Cancelled,
        ),
        scheduler::after_boundary(scheduler, id) == scheduler,
        worker::emit_answer(scheduler, id, event, false) == Err::<Publication, ServiceError>(
            ServiceError::Cancelled,
        ),
        worker::emit_answer(scheduler, id, event, true) == Err::<Publication, ServiceError>(
            ServiceError::Closed,
        ),
        worker::after_emit(scheduler, id, event, false) == scheduler,
        worker::after_emit(scheduler, id, event, true) == scheduler,
{
    terms::lemma_not_found(scheduler.active, id);
}

/// What an operation with one more event tells: an event is numbered by the count of
/// the events before it; progress stands in the slot of its unit, and everything else
/// behind what the consumer has yet to take.
pub open spec fn with_event(state: OperationModel, event: OperationEvent, next: OperationModel) -> bool {
    let told = SequencedEvent { sequence: state.events.next_sequence, event };
    &&& next.events.next_sequence == state.events.next_sequence + 1
    &&& next.events.consumer_gone == state.events.consumer_gone
    &&& next.events.lossless_capacity == state.events.lossless_capacity
    &&& next.events.terminal == state.events.terminal
    &&& event is Progress ==> next.events.lossless == state.events.lossless
    &&& !(event is Progress) ==> next.events.lossless == state.events.lossless.push(told)
    &&& match event {
        OperationEvent::Progress(progress) if progress@.unit is Items => next.events.item_progress
            == Some(told) && next.events.byte_progress == state.events.byte_progress,
        OperationEvent::Progress(_) => next.events.byte_progress == Some(told)
            && next.events.item_progress == state.events.item_progress,
        _ => next.events.item_progress == state.events.item_progress && next.events.byte_progress
            == state.events.byte_progress,
    }
    &&& next == (OperationModel { events: next.events, ..state })
}

/// An announcement of an operation that may go on is delivered at once where its
/// consumer takes one more event: the event is added to what the operation tells, and
/// nothing else changes.
pub proof fn law_an_announcement_is_delivered(
    scheduler: SchedulerModel,
    id: OperationId,
    index: int,
    event: OperationEvent,
    waited: bool,
)
    requires
        terms::stands_at(scheduler.active, id, index),
        terms::may_go_on(scheduler, index),
        terms::tells_of_work(event),
        terms::takes_event(scheduler.active[index], event),
    ensures
        worker::emit_answer(scheduler, id, event, waited) == Ok::<Publication, ServiceError>(
            Publication::Delivered,
        ),
        ({
            let told = worker::after_emit(scheduler, id, event, waited);
            &&& told == (SchedulerModel { active: told.active, ..scheduler })
            &&& told.active == scheduler.active.update(index, told.active[index])
            &&& with_event(scheduler.active[index], event, told.active[index])
        }),
{
    terms::lemma_found(scheduler.active, id, index);
    let told = worker::after_publish(scheduler, id, event);
    terms::lemma_changed(scheduler.active, id, index, told.active[index]);
    terms::lemma_found(told.active, id, index);
}

/// An announcement that is not delivered says why, in this order: the operation may
/// not go on; its consumer is gone; it has ended; it was cancelled while it waited;
/// its consumer has no room, and it waits; its numbers are used up.
pub proof fn law_an_announcement_that_is_not_delivered_says_why(
    scheduler: SchedulerModel,
    id: OperationId,
    index: int,
    event: OperationEvent,
    waited: bool,
)
    requires
        terms::stands_at(scheduler.active, id, index),
        terms::tells_of_work(event),
    ensures
        ({
            let answer = worker::emit_answer(scheduler, id, event, waited);
            let state = scheduler.active[index];
            let after = worker::after_emit(scheduler, id, event, waited);
            &&& !waited && !terms::may_go_on(scheduler, index) ==> after
                == scheduler::after_boundary(scheduler, id)
            &&& (waited || terms::may_go_on(scheduler, index)) && !terms::takes_event(state, event)
                ==> after == scheduler
            &&& if !terms::may_go_on(scheduler, index) && !waited {
                answer == Err::<Publication, ServiceError>(ServiceError::Cancelled)
            } else if state.events.consumer_gone {
                answer == Err::<Publication, ServiceError>(ServiceError::Cancelled)
            } else if state.lifecycle is Terminal {
                answer == Err::<Publication, ServiceError>(ServiceError::Closed)
            } else if !(event is Progress) && state.cancelled && !state.irrevocable {
                answer == Err::<Publication, ServiceError>(ServiceError::Cancelled)
            } else if !(event is Progress) && state.events.lossless.len()
                == state.events.lossless_capacity {
                answer == Ok::<Publication, ServiceError>(Publication::WaitForRoom)
                    && worker::after_emit(scheduler, id, event, waited) == scheduler
            } else if state.events.next_sequence == u64::MAX {
                answer == Err::<Publication, ServiceError>(ServiceError::EventSequenceExhausted)
            } else {
                terms::takes_event(state, event) && (terms::may_go_on(scheduler, index) ==> answer
                    == Ok::<Publication, ServiceError>(Publication::Delivered)) && (
                !terms::may_go_on(scheduler, index) ==> answer == Err::<Publication, ServiceError>(
                    ServiceError::Cancelled,
                ))
            }
        }),
{
    terms::lemma_found(scheduler.active, id, index);
    let told = worker::after_publish(scheduler, id, event);
    terms::lemma_changed(scheduler.active, id, index, told.active[index]);
    terms::lemma_found(told.active, id, index);
}

} // verus!
