//! Laws of an operation from its admission to its end.
use vstd::prelude::*;

use crate::command::OperationResult;
use crate::error::ServiceError;
use crate::event::OperationEvent;
use crate::laws::announcing;
use crate::laws::terms;
use crate::operation;
use crate::operation::{EventModel, Lifecycle, OperationId, OperationModel, MAX_OPERATION_LEASES};
use crate::ports::HostPortError;
use crate::service::queue::QueueModel;
use crate::service::runtime::CoreModel;
use crate::service::scheduler;
use crate::service::scheduler::{FinalSaveSlot, Grace, SchedulerModel};
use crate::service::worker;
use crate::service::worker::{LeaseOutcome, WorkStep};
use crate::session::errors;
use crate::session::errors::{PortAnswer, RepositoryPortError};
use crate::session::SessionState;

verus! {

/// How many operations a service accounts for at most: those that wait, two for each
/// worker, and the one that the coordinator holds.
pub open spec fn most_operations(scheduler: SchedulerModel) -> int {
    scheduler.config.queue_capacity + scheduler.config.workers + scheduler.config.workers + 1
}

/// A service has room for one more operation.
pub open spec fn has_room(scheduler: SchedulerModel) -> bool {
    &&& scheduler.active.len() < most_operations(scheduler)
    &&& scheduler.queue_open
    &&& scheduler.queue.waiting.len() < scheduler.queue.room
}

/// An operation is admitted exactly to a service that is not closed, accepts
/// operations and has room, and for its current generation. A closed service answers
/// that it is closed, one that accepts nothing that it is locked, and one without room
/// that it is busy; a request for another generation is stale.
pub proof fn law_an_operation_is_admitted(scheduler: SchedulerModel, generation: u64)
    ensures
        scheduler::admission_answer(scheduler) is Ok <==> !scheduler.closed && scheduler.accepting
            && has_room(scheduler),
        scheduler::admission_answer(scheduler) is Ok ==> scheduler::admission_answer(
            scheduler,
        )->Ok_0 == scheduler.generation,
        scheduler.closed ==> scheduler::admission_answer(scheduler) == Err::<u64, ServiceError>(
            ServiceError::Closed,
        ) && scheduler::readmission_answer(scheduler, generation) == Err::<(), ServiceError>(
            ServiceError::Closed,
        ),
        !scheduler.closed && !scheduler.accepting ==> scheduler::admission_answer(scheduler)
            == Err::<u64, ServiceError>(ServiceError::Locked) && scheduler::readmission_answer(
            scheduler,
            generation,
        ) == Err::<(), ServiceError>(ServiceError::Locked),
        !scheduler.closed && scheduler.accepting && scheduler.active.len() >= most_operations(
            scheduler,
        ) ==> scheduler::admission_answer(scheduler) == Err::<u64, ServiceError>(
            ServiceError::Busy,
        ),
        !scheduler.closed && scheduler.accepting && scheduler.active.len() < most_operations(
            scheduler,
        ) && !scheduler.queue_open ==> scheduler::admission_answer(scheduler) == Err::<
            u64,
            ServiceError,
        >(ServiceError::Closed),
        !scheduler.closed && scheduler.accepting && scheduler.queue_open
            && scheduler.queue.waiting.len() >= scheduler.queue.room
            ==> scheduler::admission_answer(scheduler) == Err::<u64, ServiceError>(
            ServiceError::Busy,
        ),
        scheduler::readmission_answer(scheduler, generation) is Ok <==> !scheduler.closed
            && scheduler.accepting && has_room(scheduler) && scheduler.generation == generation,
        !scheduler.closed && scheduler.accepting && scheduler.generation != generation
            ==> scheduler::readmission_answer(scheduler, generation) == Err::<(), ServiceError>(
            ServiceError::StaleCapability,
        ),
        !scheduler.closed && scheduler.accepting && scheduler.generation == generation
            && scheduler::admission_answer(scheduler) is Err ==> scheduler::readmission_answer(
            scheduler,
            generation,
        )->Err_0 == scheduler::admission_answer(scheduler)->Err_0,
{
}

/// An admitted operation is accounted last and waits last; nothing else changes.
pub proof fn law_an_admitted_operation_waits_last(scheduler: SchedulerModel, state: OperationModel)
    ensures
        scheduler::after_insert(scheduler, state) == (SchedulerModel {
            active: scheduler.active.push(state),
            queue: QueueModel {
                waiting: scheduler.queue.waiting.push(state.id),
                room: scheduler.queue.room,
            },
            ..scheduler
        }),
{
}

/// An operation that is accepted has told nothing, holds nothing, and is neither
/// cancelled nor ended.
pub proof fn law_an_accepted_operation_is_fresh(
    id: OperationId,
    capacity: usize,
    generation: Option<u64>,
    mutating: bool,
)
    ensures
        ({
            let state = operation::accepted_operation(id, capacity, generation, mutating);
            &&& state.id == id && state.lifecycle is Accepted
            &&& state.session_generation == generation && state.mutating == mutating
            &&& !state.cancelled && !state.repository_cancelled && !state.irrevocable
            &&& !state.cancel_notification_pending && !state.cancel_notification_acknowledged
            &&& state.result is None && state.transition_result is None
            &&& state.lease_cancellations.len() == 0
            &&& !state.lease_cancellation_queued && !state.lease_cancellation_dispatched
            &&& state.events == (EventModel {
                lossless: Seq::empty(),
                item_progress: None,
                byte_progress: None,
                terminal: None,
                next_sequence: 0,
                lossless_capacity: capacity,
                consumer_gone: false,
            })
        }),
{
}

/// A worker carries out what it is handed where the operation waits, may go on and is
/// heard: it runs from then on, and its consumer is told that it started. An operation
/// that does not wait is skipped; one that may not go on fails as cancelled; and one
/// whose consumer has no room waits for it.
pub proof fn law_a_worker_runs_what_it_is_handed(
    scheduler: SchedulerModel,
    id: OperationId,
    index: int,
)
    requires
        terms::stands_at(scheduler.active, id, index),
    ensures
        ({
            let state = scheduler.active[index];
            let step = worker::work_step(scheduler, id);
            let after = worker::after_work_step(scheduler, id);
            let running = OperationModel { lifecycle: Lifecycle::Running, ..state };
            let waits = state.lifecycle is Accepted;
            let goes_on = terms::may_go_on(scheduler, index);
            let heard = terms::takes_event(state, OperationEvent::Started);
            &&& !waits ==> step is Skip && after == scheduler
            &&& waits && !goes_on ==> step == WorkStep::Fail(ServiceError::Cancelled)
            &&& waits && goes_on && heard ==> step is Run && announcing::with_event(
                running,
                OperationEvent::Started,
                after.active[index],
            ) && after == (SchedulerModel {
                active: scheduler.active.update(index, after.active[index]),
                ..scheduler
            })
            &&& waits && goes_on && state.events.consumer_gone ==> step == WorkStep::Fail(
                ServiceError::Cancelled,
            )
            &&& waits && goes_on && !state.events.consumer_gone && state.events.lossless.len()
                == state.events.lossless_capacity ==> step is WaitForRoom && after == (
            SchedulerModel { active: scheduler.active.update(index, running), ..scheduler })
            &&& waits && goes_on && !state.events.consumer_gone && state.events.lossless.len()
                != state.events.lossless_capacity && state.events.next_sequence == u64::MAX
                ==> step == WorkStep::Fail(ServiceError::EventSequenceExhausted)
            &&& waits && !goes_on ==> after.active[index].cancelled
                && after.active[index].lifecycle is Running
            &&& step is Run ==> waits && goes_on && heard
        }),
{
    terms::lemma_found(scheduler.active, id, index);
    let running = OperationModel { lifecycle: Lifecycle::Running, ..scheduler.active[index] };
    terms::lemma_changed(scheduler.active, id, index, running);
    terms::lemma_found(scheduler.active.update(index, running), id, index);
    let taken = worker::taken(scheduler, id);
    if scheduler.active[index].lifecycle is Accepted {
        announcing::law_a_boundary_is_passed_by_what_may_go_on(taken, id, index);
        let after = worker::after_work_step(scheduler, id);
        if terms::may_go_on(scheduler, index) {
            assert(after == worker::after_publish(taken, id, OperationEvent::Started));
            assert(after.active =~= scheduler.active.update(index, after.active[index]));
        }
    }
}

/// What the executor answers is what an operation ends with: a result where the
/// operation may still go on, cancelled where it may not, its own error where it
/// failed, and a panic of the worker where it panicked.
pub proof fn law_an_operation_ends_with_what_came_of_it(
    scheduler: SchedulerModel,
    id: OperationId,
    index: int,
    result: OperationResult,
    error: ServiceError,
)
    requires
        terms::stands_at(scheduler.active, id, index),
    ensures
        terms::may_go_on(scheduler, index) ==> worker::work_outcome(
            scheduler,
            id,
            PortAnswer::Returned(Ok(result)),
        ) == Ok::<OperationResult, ServiceError>(result),
        !terms::may_go_on(scheduler, index) ==> worker::work_outcome(
            scheduler,
            id,
            PortAnswer::Returned(Ok(result)),
        ) == Err::<OperationResult, ServiceError>(ServiceError::Cancelled),
        worker::work_outcome(scheduler, id, PortAnswer::Returned(Err(error))) == Err::<
            OperationResult,
            ServiceError,
        >(error),
        worker::work_outcome(scheduler, id, PortAnswer::Panicked) == Err::<
            OperationResult,
            ServiceError,
        >(ServiceError::WorkerPanicked),
{
    announcing::law_a_boundary_is_passed_by_what_may_go_on(scheduler, id, index);
}

/// How the last event of an operation names its outcome.
pub open spec fn names_outcome(
    event: OperationEvent,
    outcome: Result<OperationResult, ServiceError>,
) -> bool {
    &&& outcome is Ok ==> event is Completed
    &&& outcome is Err && outcome->Err_0 is Cancelled ==> event is Cancelled
    &&& outcome is Err && !(outcome->Err_0 is Cancelled) ==> event == OperationEvent::Failed(
        outcome->Err_0,
    )
}

/// An operation that ends keeps its outcome, and its last event, numbered after all
/// others, names it, unless its consumer is gone. One that ended before stays as it is.
pub proof fn law_an_end_is_kept_and_told(
    state: OperationModel,
    outcome: Result<OperationResult, ServiceError>,
)
    ensures
        ({
            let ended = operation::after_finish(state, outcome);
            &&& state.lifecycle is Terminal ==> ended == state
            &&& !(state.lifecycle is Terminal) ==> {
                &&& ended.lifecycle is Terminal && ended.result == Some(outcome)
                &&& ended == (OperationModel {
                    lifecycle: ended.lifecycle,
                    result: ended.result,
                    events: EventModel { terminal: ended.events.terminal, ..state.events },
                    ..state
                })
                &&& state.events.consumer_gone ==> ended.events.terminal == state.events.terminal
                &&& !state.events.consumer_gone ==> ended.events.terminal is Some
                    && ended.events.terminal->0.sequence == state.events.next_sequence
                    && names_outcome(ended.events.terminal->0.event, outcome)
            }
        }),
{
}

/// The operations that are remembered as completed: the oldest makes room where there
/// is none.
pub open spec fn remembers(
    before: Seq<OperationId>,
    capacity: usize,
    id: OperationId,
    after: Seq<OperationId>,
) -> bool {
    &&& before.len() < capacity || before.len() == 0 ==> after == before.push(id)
    &&& before.len() >= capacity && before.len() > 0 ==> after == before.subrange(
        1,
        before.len() as int,
    ).push(id)
}

/// An operation that ends is accounted no longer, and is remembered as completed; but
/// one whose cancellation was announced and not yet told stays until it was. A save
/// that it was armed for is over, and an operation that ended before, or that is not
/// accounted, changes nothing.
pub proof fn law_an_operation_that_ends_is_accounted_no_longer(
    scheduler: SchedulerModel,
    id: OperationId,
    index: int,
    outcome: Result<OperationResult, ServiceError>,
)
    requires
        terms::stands_at(scheduler.active, id, index),
    ensures
        ({
            let state = scheduler.active[index];
            let ended = operation::after_finish(state, outcome);
            let after = scheduler::after_finish(scheduler, id, outcome);
            let retired = scheduler::retired_by_finish(scheduler, id, outcome);
            let untold = state.cancel_notification_pending
                && !state.cancel_notification_acknowledged;
            let save = if scheduler.final_save is Some && scheduler.final_save->0.operation == id {
                None
            } else {
                scheduler.final_save
            };
            &&& state.lifecycle is Terminal ==> after == scheduler && retired is None
            &&& !(state.lifecycle is Terminal) && untold ==> retired is None && after == (
            SchedulerModel {
                active: scheduler.active.update(index, ended),
                final_save: save,
                ..scheduler
            })
            &&& !(state.lifecycle is Terminal) && !untold ==> retired == Some(ended) && after == (
            SchedulerModel {
                active: scheduler.active.remove(index),
                final_save: save,
                completed: after.completed,
                ..scheduler
            }) && remembers(
                scheduler.completed,
                scheduler.config.completed_capacity,
                id,
                after.completed,
            )
        }),
{
    terms::lemma_found(scheduler.active, id, index);
    let ended = operation::after_finish(scheduler.active[index], outcome);
    assert(scheduler.active.update(index, ended).remove(index) =~= scheduler.active.remove(index));
    assert(scheduler.completed.drop_first() =~= scheduler.completed.subrange(
        1,
        scheduler.completed.len() as int,
    ));
}

/// An operation whose cancellation was told of is accounted no longer where it ended,
/// and is remembered as completed; otherwise it only knows that it was told.
pub proof fn law_a_told_cancellation_is_acknowledged(
    scheduler: SchedulerModel,
    id: OperationId,
    index: int,
)
    requires
        terms::stands_at(scheduler.active, id, index),
    ensures
        ({
            let state = scheduler.active[index];
            let told = OperationModel { cancel_notification_acknowledged: true, ..state };
            let after = scheduler::after_acknowledge(scheduler, id);
            let retired = scheduler::retired_by_acknowledge(scheduler, id);
            &&& !(state.lifecycle is Terminal) ==> retired is None && after == (SchedulerModel {
                active: scheduler.active.update(index, told),
                ..scheduler
            })
            &&& state.lifecycle is Terminal ==> retired == Some(told) && after == (SchedulerModel {
                active: scheduler.active.remove(index),
                completed: after.completed,
                ..scheduler
            }) && remembers(
                scheduler.completed,
                scheduler.config.completed_capacity,
                id,
                after.completed,
            )
        }),
{
    terms::lemma_found(scheduler.active, id, index);
    let told = OperationModel {
        cancel_notification_acknowledged: true,
        ..scheduler.active[index]
    };
    assert(scheduler.active.update(index, told).remove(index) =~= scheduler.active.remove(index));
    assert(scheduler.completed.drop_first() =~= scheduler.completed.subrange(
        1,
        scheduler.completed.len() as int,
    ));
}

/// An operation may hold keys: the service is not closed and has its leases open, and
/// the operation runs uncancelled.
pub open spec fn may_hold_keys(scheduler: SchedulerModel, index: int) -> bool {
    &&& !scheduler.closed
    &&& scheduler.key_leases_open
    &&& scheduler.active[index].lifecycle is Running
    &&& !scheduler.active[index].cancelled
}

/// A lease is asked for exactly for an operation that may hold keys, for the
/// generation that it is bound to, in a session that has that generation unlocked;
/// everything else is locked.
pub proof fn law_a_lease_is_asked_for_what_may_hold_keys(
    core_state: CoreModel,
    id: OperationId,
    index: int,
)
    requires
        terms::stands_at(core_state.scheduler.active, id, index),
    ensures
        ({
            let scheduler = core_state.scheduler;
            let bound = scheduler.active[index].session_generation;
            let answer = scheduler::lease_answer(scheduler, id);
            let current = scheduler::current_lease_answer(scheduler, id);
            let begun = worker::begin_lease_answer(core_state, id);
            &&& answer is Ok <==> may_hold_keys(scheduler, index) && bound is Some
            &&& answer is Ok ==> Some(answer->Ok_0) == bound
            &&& answer is Err ==> answer->Err_0 is Locked
            &&& current is Ok <==> may_hold_keys(scheduler, index) && bound == Some(
                scheduler.generation,
            )
            &&& current is Ok ==> current->Ok_0 == scheduler.generation
            &&& current is Err ==> current->Err_0 is Locked
            &&& begun is Ok <==> may_hold_keys(scheduler, index) && bound is Some
                && core_state.session is Some && core_state.session->0.data.state is Unlocked
                && Some(core_state.session->0.data.epoch) == bound
                && core_state.session->0.data.unlocked is Some
            &&& begun is Ok ==> Some(begun->Ok_0) == bound
            &&& begun is Err ==> begun->Err_0 is Locked
        }),
{
    terms::lemma_found(core_state.scheduler.active, id, index);
}

/// A lease that the repository grants belongs to the operation exactly where the
/// session still has its generation unlocked and the operation was not cancelled and
/// has room for it; it is noted under its token. Otherwise it is given back. What the
/// repository refuses is refused with its error.
pub proof fn law_a_granted_lease_belongs_to_the_operation(
    core_state: CoreModel,
    id: OperationId,
    index: int,
    generation: u64,
    token: u64,
    local: bool,
    error: RepositoryPortError,
)
    requires
        terms::stands_at(core_state.scheduler.active, id, index),
        core_state.session is Some,
    ensures
        ({
            let state = core_state.scheduler.active[index];
            let current = core_state.session->0.data.state is Unlocked
                && core_state.session->0.data.epoch == generation;
            let room = state.lease_cancellations.len() < MAX_OPERATION_LEASES;
            let outcome = worker::lease_outcome(core_state, id, generation, Ok(()), local);
            let after = worker::after_lease(core_state, id, generation, Ok(()), token, local);
            let noted = OperationModel {
                lease_cancellations: state.lease_cancellations.push(token),
                ..state
            };
            &&& outcome is Granted <==> current && !state.cancelled && room
            &&& current && state.cancelled ==> outcome == LeaseOutcome::GiveBack(
                ServiceError::Cancelled,
            ) && after == core_state
            &&& current && !state.cancelled && !room ==> outcome == LeaseOutcome::GiveBack(
                ServiceError::CapacityExceeded,
            ) && after == core_state
            &&& outcome is Granted ==> after == (CoreModel {
                scheduler: SchedulerModel {
                    active: core_state.scheduler.active.update(index, noted),
                    ..core_state.scheduler
                },
                ..core_state
            })
            &&& !current && !(local && !core_state.scheduler.key_leases_open) ==> outcome
                == LeaseOutcome::GiveBack(ServiceError::Locked) && after == core_state
            &&& !current && local && !core_state.scheduler.key_leases_open ==> outcome
                == LeaseOutcome::GiveBack(ServiceError::Cancelled)
            &&& !local || core_state.scheduler.key_leases_open || !(errors::repository_failure(
                error,
            ) is Locked) ==> worker::lease_outcome(core_state, id, generation, Err(error), local)
                == LeaseOutcome::Refused(errors::repository_failure(error)) && worker::after_lease(
                core_state,
                id,
                generation,
                Err(error),
                token,
                local,
            ) == core_state
        }),
{
    terms::lemma_found(core_state.scheduler.active, id, index);
}

/// A local lease that is refused as locked while the leases are closed is refused as
/// cancelled, and its operation is cancelled.
pub proof fn law_a_local_lease_under_a_lock_is_cancelled(
    core_state: CoreModel,
    id: OperationId,
    index: int,
    error: ServiceError,
)
    requires
        terms::stands_at(core_state.scheduler.active, id, index),
    ensures
        ({
            let stopped = OperationModel {
                cancelled: true,
                repository_cancelled: true,
                ..core_state.scheduler.active[index]
            };
            let shut = error is Locked && !core_state.scheduler.key_leases_open;
            &&& worker::lease_failure(core_state, error, false) == error
            &&& worker::after_lease_failure(core_state, id, error, false) == core_state
            &&& !shut ==> worker::lease_failure(core_state, error, true) == error
                && worker::after_lease_failure(core_state, id, error, true) == core_state
            &&& shut ==> worker::lease_failure(core_state, error, true) is Cancelled
                && worker::after_lease_failure(core_state, id, error, true) == (CoreModel {
                scheduler: SchedulerModel {
                    active: core_state.scheduler.active.update(index, stopped),
                    ..core_state.scheduler
                },
                ..core_state
            })
        }),
{
    terms::lemma_found(core_state.scheduler.active, id, index);
}

/// An operation is armed for the final save exactly where it changes the vault, may
/// hold keys in the current generation, the service accepts operations, and no other
/// is armed; an operation without a generation is locked, and any other is stale. Only
/// what was armed is disarmed, and only while the service accepts operations.
pub proof fn law_a_change_is_armed_for_the_final_save(
    scheduler: SchedulerModel,
    id: OperationId,
    index: int,
    generation: u64,
)
    requires
        terms::stands_at(scheduler.active, id, index),
    ensures
        ({
            let state = scheduler.active[index];
            let answer = scheduler::arm_answer(scheduler, id);
            let slot = FinalSaveSlot { generation: scheduler.generation, operation: id };
            &&& answer is Ok <==> may_hold_keys(scheduler, index) && scheduler.accepting
                && state.session_generation == Some(scheduler.generation) && state.mutating
                && scheduler.final_save is None
            &&& answer is Ok ==> answer->Ok_0 == scheduler.generation && scheduler::after_arm(
                scheduler,
                id,
            ) == (SchedulerModel { final_save: Some(slot), ..scheduler })
            &&& state.session_generation is None ==> answer == Err::<u64, ServiceError>(
                ServiceError::Locked,
            )
            &&& state.session_generation is Some && answer is Err ==> answer->Err_0
                == ServiceError::StaleCapability
            &&& answer is Err ==> scheduler::after_arm(scheduler, id) == scheduler
        }),
        scheduler.final_save is Some && scheduler.final_save->0.operation == id
            && scheduler.final_save->0.generation == generation && scheduler.accepting
            ==> scheduler::after_disarm(scheduler, id, generation) == (SchedulerModel {
            final_save: None,
            ..scheduler
        }),
        !(scheduler.final_save is Some && scheduler.final_save->0.operation == id
            && scheduler.final_save->0.generation == generation && scheduler.accepting)
            ==> scheduler::after_disarm(scheduler, id, generation) == scheduler,
{
    terms::lemma_found(scheduler.active, id, index);
}

/// A final save is waited for exactly while it is armed in its generation, its
/// operation has not ended and was not cancelled, and its grace runs. When the wait is
/// over, an operation that has not ended is cancelled.
pub proof fn law_a_final_save_is_waited_for(
    scheduler: SchedulerModel,
    id: OperationId,
    index: int,
    generation: u64,
    grace: Grace,
)
    requires
        terms::stands_at(scheduler.active, id, index),
    ensures
        ({
            let state = scheduler.active[index];
            let step = scheduler::final_save_step(scheduler, id, generation, grace);
            let after = scheduler::after_final_save_step(scheduler, id, generation, grace);
            let stopped = OperationModel {
                cancelled: true,
                repository_cancelled: true,
                ..state
            };
            &&& step is Wait <==> scheduler.final_save is Some
                && scheduler.final_save->0.operation == id && scheduler.final_save->0.generation
                == generation && !(state.lifecycle is Terminal) && !state.cancelled
                && grace is Running
            &&& step is Wait || state.lifecycle is Terminal ==> after == scheduler
            &&& !(step is Wait) && !(state.lifecycle is Terminal) ==> after == (SchedulerModel {
                active: scheduler.active.update(index, stopped),
                ..scheduler
            })
        }),
{
    terms::lemma_found(scheduler.active, id, index);
}

/// A publication is authorised exactly for an operation that may hold keys in the
/// current generation of a service that accepts operations, that is not past recall
/// and does not publish already. Everything else is cancelled.
pub proof fn law_a_publication_is_authorised(
    scheduler: SchedulerModel,
    id: OperationId,
    index: int,
)
    requires
        terms::stands_at(scheduler.active, id, index),
    ensures
        ({
            let state = scheduler.active[index];
            let answer = scheduler::publication_answer(scheduler, id);
            &&& answer is Ok <==> may_hold_keys(scheduler, index) && scheduler.accepting
                && !state.irrevocable && state.session_generation == Some(scheduler.generation)
                && !scheduler.publications.contains(id)
            &&& answer is Ok ==> answer->Ok_0 == scheduler.generation && scheduler::after_authorize(
                scheduler,
                id,
            ) == (SchedulerModel { publications: scheduler.publications.push(id), ..scheduler })
            &&& answer is Err ==> answer->Err_0 == HostPortError::Cancelled
                && scheduler::after_authorize(scheduler, id) == scheduler
        }),
{
    terms::lemma_found(scheduler.active, id, index);
}

/// What was published puts its operation past recall, and what was not leaves it as it
/// is; either way nothing is published under it any more.
pub proof fn law_a_publication_puts_its_operation_past_recall(
    scheduler: SchedulerModel,
    id: OperationId,
    index: int,
)
    requires
        terms::stands_at(scheduler.active, id, index),
    ensures
        ({
            let past_recall = OperationModel { irrevocable: true, ..scheduler.active[index] };
            let published = scheduler::after_publication(scheduler, id, true);
            let refused = scheduler::after_publication(scheduler, id, false);
            &&& published.active == scheduler.active.update(index, past_recall)
            &&& refused.active == scheduler.active
            &&& published == (SchedulerModel {
                active: published.active,
                publications: published.publications,
                ..scheduler
            })
            &&& refused == (SchedulerModel {
                publications: published.publications,
                ..scheduler
            })
        }),
{
    terms::lemma_found(scheduler.active, id, index);
}

/// A cancellation reaches its operation: it is cancelled for the service and for the
/// repository, and its cancellation is announced once.
pub proof fn law_a_cancellation_reaches_its_operation(
    scheduler: SchedulerModel,
    id: OperationId,
    index: int,
)
    requires
        terms::stands_at(scheduler.active, id, index),
    ensures
        ({
            let state = scheduler.active[index];
            let after = scheduler::after_cancel(scheduler, id);
            let stopped = OperationModel {
                cancelled: true,
                repository_cancelled: true,
                cancel_notification_pending: true,
                ..state
            };
            &&& after == (SchedulerModel {
                active: scheduler.active.update(index, stopped),
                controls: after.controls,
                ..scheduler
            })
            &&& state.cancel_notification_pending ==> after.controls == scheduler.controls
            &&& !state.cancel_notification_pending && scheduler.controls.pending.len()
                < scheduler.controls.capacity ==> {
                let told = after.controls.pending.last();
                &&& after.controls.pending == scheduler.controls.pending.push(told)
                &&& told.control == crate::service::Control::Cancel(id)
                &&& told.generation == scheduler.generation
                &&& !told.trusted_activity
            }
            &&& scheduler::cancel_overflows(scheduler, id) <==> !state.cancel_notification_pending
                && scheduler.controls.pending.len() >= scheduler.controls.capacity
        }),
{
    terms::lemma_found(scheduler.active, id, index);
}

/// What is not accounted cannot be cancelled, leased, armed, published or ended.
pub proof fn law_an_unknown_operation_gets_nothing(
    core_state: CoreModel,
    id: OperationId,
    outcome: Result<OperationResult, ServiceError>,
)
    requires
        terms::is_unknown(core_state.scheduler.active, id),
    ensures
        scheduler::after_cancel(core_state.scheduler, id) == core_state.scheduler,
        !scheduler::cancel_overflows(core_state.scheduler, id),
        scheduler::lease_answer(core_state.scheduler, id) == Err::<u64, ServiceError>(
            ServiceError::Locked,
        ),
        worker::begin_lease_answer(core_state, id) == Err::<u64, ServiceError>(
            ServiceError::Locked,
        ),
        worker::register_answer(core_state.scheduler, id) == Err::<(), ServiceError>(
            ServiceError::Cancelled,
        ),
        scheduler::arm_answer(core_state.scheduler, id) == Err::<u64, ServiceError>(
            ServiceError::StaleCapability,
        ),
        scheduler::publication_answer(core_state.scheduler, id) == Err::<u64, HostPortError>(
            HostPortError::Cancelled,
        ),
        scheduler::after_finish(core_state.scheduler, id, outcome) == core_state.scheduler,
        scheduler::retired_by_finish(core_state.scheduler, id, outcome) is None,
        scheduler::after_acknowledge(core_state.scheduler, id) == core_state.scheduler,
        worker::work_step(core_state.scheduler, id) is Skip,
        worker::after_detach(core_state, id) == core_state,
{
    terms::lemma_not_found(core_state.scheduler.active, id);
}

/// An operation that lives on without the service goes on exactly where it is past
/// recall; otherwise it is cancelled.
pub proof fn law_a_detached_operation_goes_on_only_past_recall(state: OperationModel)
    ensures
        state.irrevocable ==> worker::detached_answer(state) == Ok::<(), ServiceError>(())
            && worker::after_detached(state) == state,
        !state.irrevocable ==> worker::detached_answer(state) == Err::<(), ServiceError>(
            ServiceError::Cancelled,
        ) && worker::after_detached(state).cancelled,
        !state.irrevocable && !state.cancelled ==> worker::after_detached(state) == (
        OperationModel { cancelled: true, repository_cancelled: true, ..state }),
        state.cancelled ==> worker::after_detached(state) == state,
        state.session_generation is None ==> worker::detached_arm_failure(state) is Locked,
        state.session_generation is Some ==> worker::detached_arm_failure(
            state,
        ) is StaleCapability,
{
}

/// How many operations of a lifecycle there are.
pub open spec fn how_many(active: Seq<OperationModel>, lifecycle: Lifecycle) -> nat {
    active.filter(|state: OperationModel| state.lifecycle == lifecycle).len()
}

proof fn lemma_counts(active: Seq<OperationModel>, count: nat)
    requires
        count <= active.len(),
    ensures
        scheduler::accepted_count(active, count) == how_many(
            active.take(count as int),
            Lifecycle::Accepted,
        ),
        scheduler::running_count(active, count) == how_many(
            active.take(count as int),
            Lifecycle::Running,
        ),
    decreases count,
{
    reveal(Seq::filter);
    if count > 0 {
        lemma_counts(active, (count - 1) as nat);
        assert(active.take(count as int).drop_last() =~= active.take(count - 1));
        assert(active.take(count as int).last() == active[count - 1]);
    }
}

/// What a snapshot shows is what the service holds: as many queued operations as wait
/// to run, as many running ones as run, both together as active, and as many completed
/// ones as are remembered.
pub proof fn law_a_snapshot_counts_what_is_there(scheduler: SchedulerModel, shown: SessionState)
    ensures
        ({
            let snapshot = scheduler::snapshot_of(scheduler, shown);
            &&& snapshot.session_state == shown
            &&& snapshot.accepting_operations == scheduler.accepting
            &&& snapshot.key_leases_open == scheduler.key_leases_open
            &&& snapshot.closed == scheduler.closed
            &&& snapshot.queued_operations == how_many(scheduler.active, Lifecycle::Accepted)
            &&& snapshot.running_operations == how_many(scheduler.active, Lifecycle::Running)
            &&& snapshot.active_operations == snapshot.queued_operations
                + snapshot.running_operations
            &&& snapshot.retained_completed_operations == scheduler.completed.len()
        }),
{
    lemma_counts(scheduler.active, scheduler.active.len());
    assert(scheduler.active.take(scheduler.active.len() as int) =~= scheduler.active);
}

} // verus!
