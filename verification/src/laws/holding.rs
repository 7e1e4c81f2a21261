//! Laws of what a consumer gets by its handle: events, the result and the end.
use vstd::prelude::*;

use crate::command::OperationResult;
use crate::error::ServiceError;
use crate::event::OperationEvent;
use crate::laws::terms;
use crate::operation;
use crate::operation::{EventModel, EventPoll, OperationId, OperationModel, SequencedEvent};
use crate::service::handles;
use crate::service::handles::{OperationHandle, OperationHandleModel, PendingModel};
use crate::service::runtime::CoreModel;
use crate::service::scheduler::SchedulerModel;
use crate::service::transitions::RegistryModel;
use crate::service::worker;

verus! {

/// A handle finds its operation where the service accounts for it, and keeps it once
/// it was retired; otherwise there is none.
pub proof fn law_a_handle_finds_its_operation(
    handle: OperationHandleModel,
    core_state: CoreModel,
    index: int,
)
    ensures
        handle.retired is Some ==> handles::state_of(handle, core_state) == handle.retired,
        handle.retired is None && terms::stands_at(core_state.scheduler.active, handle.id, index)
            ==> handles::state_of(handle, core_state) == Some(core_state.scheduler.active[index]),
        handle.retired is None && terms::is_unknown(core_state.scheduler.active, handle.id)
            ==> handles::state_of(handle, core_state) is None,
{
    if terms::stands_at(core_state.scheduler.active, handle.id, index) {
        terms::lemma_found(core_state.scheduler.active, handle.id, index);
    }
    if terms::is_unknown(core_state.scheduler.active, handle.id) {
        terms::lemma_not_found(core_state.scheduler.active, handle.id);
    }
}

/// Whatever changes of an operation changes where the handle finds it, and nowhere
/// else.
pub proof fn law_a_handle_changes_only_its_operation(
    handle: OperationHandleModel,
    core_state: CoreModel,
    index: int,
    state: OperationModel,
)
    ensures
        handle.retired is Some ==> handles::handle_with(handle, Some(state)) == (
        OperationHandleModel { retired: Some(state), ..handle }) && handles::service_with(
            handle,
            core_state,
            Some(state),
        ) == core_state,
        handle.retired is None ==> handles::handle_with(handle, Some(state)) == handle,
        handle.retired is None && terms::stands_at(core_state.scheduler.active, handle.id, index)
            ==> handles::service_with(handle, core_state, Some(state)) == (CoreModel {
            scheduler: SchedulerModel {
                active: core_state.scheduler.active.update(index, state),
                ..core_state.scheduler
            },
            ..core_state
        }),
        handles::handle_with(handle, None) == handle,
        handles::service_with(handle, core_state, None) == core_state,
{
    if terms::stands_at(core_state.scheduler.active, handle.id, index) {
        terms::lemma_found(core_state.scheduler.active, handle.id, index);
    }
}

/// A consumer that waits is given the earliest event that it has yet to take; without
/// one the wait is over where the operation has ended, the consumer is gone, the time
/// is up or there is no operation, and goes on otherwise.
pub proof fn law_a_wait_for_events_ends(
    state: OperationModel,
    event: SequencedEvent,
    expired: bool,
)
    requires
        operation::events_wf(state.events),
    ensures
        ({
            let empty = state.events.lossless.len() == 0 && state.events.item_progress is None
                && state.events.byte_progress is None && state.events.terminal is None;
            let poll = handles::event_poll(Some(state), expired);
            &&& empty && !(state.lifecycle is Terminal) && !state.events.consumer_gone && !expired
                ==> poll is Wait
            &&& empty && (state.lifecycle is Terminal || state.events.consumer_gone || expired)
                ==> poll == EventPoll::Ready(None)
            &&& !empty ==> poll is Ready && poll->Ready_0 is Some
            &&& state.events.lossless.len() > 0 && state.events.lossless[0] == event
                && state.events.item_progress is None && state.events.byte_progress is None
                ==> poll == EventPoll::Ready(Some(event.event))
            &&& state.events.lossless.len() == 0 && state.events.item_progress is None
                && state.events.byte_progress is None && state.events.terminal == Some(event)
                ==> poll == EventPoll::Ready(Some(event.event))
            &&& handles::event_poll(None, expired) == EventPoll::Ready(None)
        }),
{
}

/// A result is handed out as it is: an outcome that succeeded as its result, one that
/// failed as its error, and none while there is none. A wait for it ends with it, or as
/// timed out when its time is up. It is handed out once.
pub proof fn law_a_result_is_handed_out(
    state: OperationModel,
    result: OperationResult,
    error: ServiceError,
    expired: bool,
)
    ensures
        state.result == Some(Ok::<OperationResult, ServiceError>(result))
            ==> handles::result_answer(Some(state)) == Ok::<
            Option<OperationResult>,
            ServiceError,
        >(Some(result)) && handles::result_poll(Some(state), expired) == Some(
            Ok::<OperationResult, ServiceError>(result),
        ),
        state.result == Some(Err::<OperationResult, ServiceError>(error))
            ==> handles::result_answer(Some(state)) == Err::<
            Option<OperationResult>,
            ServiceError,
        >(error) && handles::result_poll(Some(state), expired) == Some(
            Err::<OperationResult, ServiceError>(error),
        ),
        state.result is None ==> handles::result_answer(Some(state)) == Ok::<
            Option<OperationResult>,
            ServiceError,
        >(None),
        state.result is None && expired ==> handles::result_poll(Some(state), expired) == Some(
            Err::<OperationResult, ServiceError>(ServiceError::TimedOut),
        ),
        state.result is None && !expired ==> handles::result_poll(Some(state), expired) is None,
        handles::result_answer(None) == Ok::<Option<OperationResult>, ServiceError>(None),
        handles::result_poll(None, expired) == if expired {
            Some(Err::<OperationResult, ServiceError>(ServiceError::TimedOut))
        } else {
            None
        },
        handles::without_result(Some(state)) == Some(OperationModel { result: None, ..state }),
        handles::without_result(None) is None,
{
}

/// An operation that ended is seen to its end by its handle: the last event that its
/// consumer takes names the outcome, and the result is the outcome.
pub proof fn law_an_end_reaches_the_consumer(
    state: OperationModel,
    outcome: Result<OperationResult, ServiceError>,
)
    requires
        !(state.lifecycle is Terminal),
        !state.events.consumer_gone,
        state.events.lossless.len() == 0,
        state.events.item_progress is None,
        state.events.byte_progress is None,
    ensures
        ({
            let ended = operation::after_finish(state, outcome);
            let event = if outcome is Ok {
                OperationEvent::Completed
            } else if outcome->Err_0 is Cancelled {
                OperationEvent::Cancelled
            } else {
                OperationEvent::Failed(outcome->Err_0)
            };
            let taken = handles::without_next_event(Some(ended));
            &&& handles::event_poll(Some(ended), false) == EventPoll::Ready(Some(event))
            &&& taken is Some && handles::event_poll(taken, false) == EventPoll::Ready(None)
            &&& handles::result_poll(Some(ended), false) == Some(outcome)
            &&& taken->0.result == Some(outcome)
        }),
{
}

/// A consumer that takes events takes the earliest: what it has yet to take afterwards
/// is the rest.
pub proof fn law_taking_an_event_leaves_the_rest(state: OperationModel)
    ensures
        ({
            let taken = handles::without_next_event(Some(state));
            let rest = operation::after_pop(state.events);
            &&& taken == Some(OperationModel { events: rest, ..state })
            &&& handles::without_next_event(None) is None
            &&& state.events.lossless.len() > 0 && state.events.item_progress is None
                && state.events.byte_progress is None && (state.events.terminal is None
                || state.events.lossless[0].sequence <= state.events.terminal->0.sequence)
                ==> rest == (EventModel {
                lossless: state.events.lossless.subrange(1, state.events.lossless.len() as int),
                ..state.events
            })
        }),
{
}

/// A consumer that gives its handle up leaves nothing to be taken, and its operation
/// is cancelled and announced as such. A handle that keeps its operation changes
/// nothing.
pub proof fn law_an_abandoned_operation_is_cancelled(
    core_state: CoreModel,
    id: OperationId,
    index: int,
)
    requires
        terms::stands_at(core_state.scheduler.active, id, index),
    ensures
        ({
            let after = handles::abandoned(core_state, id);
            let state = core_state.scheduler.active[index];
            let silent = after.scheduler.active[index];
            &&& after == (CoreModel {
                scheduler: SchedulerModel {
                    active: core_state.scheduler.active.update(index, silent),
                    ..core_state.scheduler
                },
                ..core_state
            })
            &&& silent.cancelled && silent.events.consumer_gone
            &&& silent.events.lossless.len() == 0 && silent.events.item_progress is None
                && silent.events.byte_progress is None && silent.events.terminal is None
            &&& silent.events.next_sequence == state.events.next_sequence
            &&& silent == (OperationModel { cancelled: true, events: silent.events, ..state })
        }),
{
    terms::lemma_found(core_state.scheduler.active, id, index);
}

/// An operation that is detached is cancelled, and its transition that waits is
/// cancelled with it: its action is to be aborted.
pub proof fn law_a_detached_operation_takes_its_transition_along(
    core_state: CoreModel,
    id: OperationId,
    index: int,
    place: int,
)
    requires
        terms::stands_at(core_state.scheduler.active, id, index),
        core_state.scheduler.active[index].cancel_notification_pending,
    ensures
        ({
            let after = worker::after_detach(core_state, id);
            let aborted = worker::aborted_by_detach(core_state, id);
            let records = core_state.transitions.records;
            &&& after.scheduler.active[index].cancelled
                && after.scheduler.active[index].repository_cancelled
            &&& after.scheduler.active == core_state.scheduler.active.update(
                index,
                after.scheduler.active[index],
            )
            &&& terms::is_recorded(records, id, place) && !records[place].consuming ==> aborted
                == Some(records[place].kind) && after.transitions == (RegistryModel {
                records: records.remove(place),
                ..core_state.transitions
            })
            &&& terms::is_recorded(records, id, place) && records[place].consuming
                ==> aborted is None && after.transitions == core_state.transitions
            &&& terms::is_unrecorded(records, id) ==> aborted is None && after.transitions
                == core_state.transitions
        }),
{
    terms::lemma_found(core_state.scheduler.active, id, index);
    let records = core_state.transitions.records;
    if terms::is_recorded(records, id, place) {
        terms::lemma_record_found(records, id, place);
    }
    if terms::is_unrecorded(records, id) {
        terms::lemma_record_not_found(records, id);
    }
}

/// The end of a transition is waited for as its outcome, which is handed out once; or
/// the wait ends as timed out when its time is up. A transition is stopped while it has
/// not ended.
pub proof fn law_the_end_of_a_transition_is_handed_out(
    registry: RegistryModel,
    id: OperationId,
    place: int,
    expired: bool,
)
    requires
        terms::stands_at(registry.executions, id, place),
    ensures
        ({
            let state = registry.executions[place];
            let poll = handles::transition_poll(registry, id, expired);
            let stopped = OperationModel {
                cancelled: true,
                repository_cancelled: true,
                lease_cancellation_queued: true,
                ..state
            };
            &&& state.transition_result is Some ==> poll == state.transition_result
            &&& state.transition_result is None && expired ==> poll == Some(
                Err::<(), ServiceError>(ServiceError::TimedOut),
            )
            &&& state.transition_result is None && !expired ==> poll is None
            &&& handles::after_transition_poll(registry, id) == (RegistryModel {
                executions: registry.executions.update(
                    place,
                    OperationModel { transition_result: None, ..state },
                ),
                ..registry
            })
            &&& handles::execution_is_live(registry, id) <==> !(state.lifecycle is Terminal)
            &&& !(state.lifecycle is Terminal) ==> handles::after_stop_execution(registry, id) == (
            RegistryModel { executions: registry.executions.update(place, stopped), ..registry })
            &&& state.lifecycle is Terminal ==> handles::after_stop_execution(registry, id)
                == registry
        }),
{
    terms::lemma_execution_found(registry.executions, id, place);
}

/// A pending capability claims its operation exactly where it is armed, its service
/// lives and is the one that asks. A disarmed one, and one of another service, are
/// stale; the service of any other is closed.
pub proof fn law_a_capability_claims_its_operation(
    pending: PendingModel,
    expected: u64,
    origin_lives: bool,
)
    ensures
        ({
            let answer = handles::claim_answer(pending, expected, origin_lives);
            &&& answer is Ok <==> pending.armed && origin_lives && pending.service == expected
            &&& answer is Ok ==> answer->Ok_0 == pending.operation
            &&& pending.armed && !origin_lives ==> answer == Err::<OperationId, ServiceError>(
                ServiceError::Closed,
            )
            &&& !pending.armed || (origin_lives && pending.service != expected) ==> answer == Err::<
                OperationId,
                ServiceError,
            >(ServiceError::StaleCapability)
        }),
{
}

/// The leases of an operation that is no longer accounted are given back where it was
/// cancelled, and handed out once.
pub proof fn law_settled_leases_are_given_back_once(
    handle: &mut OperationHandle,
    queued: bool,
)
    requires
        call_ensures(OperationHandle::queue_settled_leases, (handle,), queued),
        handle@.retired is Some,
    ensures
        ({
            let state = old(handle)@.retired->0;
            &&& queued <==> state.cancelled && !state.lease_cancellation_queued
            &&& final(handle)@.id == old(handle)@.id
            &&& final(handle)@.retired is Some
            &&& state.cancelled ==> final(handle)@.retired->0 == (OperationModel {
                lease_cancellation_queued: true,
                ..state
            })
            &&& !state.cancelled ==> final(handle)@ == old(handle)@
        }),
{
}

} // verus!
