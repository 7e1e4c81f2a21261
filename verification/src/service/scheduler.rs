//! The scheduler: what is admitted, what runs and what a lock stops.
use std::collections::VecDeque;

use vstd::prelude::*;

use crate::command::OperationResult;
use crate::error::ServiceError;
use crate::memory;
use crate::memory::{queue_room, vec_room};
use crate::operation;
use crate::operation::{OperationId, OperationModel, OperationState};
use crate::ports::HostPortError;
use crate::service;
use crate::service::mailbox;
use crate::service::mailbox::{ControlMailbox, MailboxModel, PendingControl};
use crate::service::queue;
use crate::service::queue::{QueueModel, WorkQueue};
use crate::service::{ConfigModel, Control, ServiceConfig, ServiceSnapshot, SnapshotModel};
use crate::session::{SessionDeadlineKind, SessionEvent, SessionState, MAX_WARNING_OFFSETS};

verus! {

/// Maximum session events that wait for the presentation layer.
pub const MAX_SESSION_EVENTS: usize = 2 * MAX_WARNING_OFFSETS;

/// The one operation that may finish its save while the service locks.
#[derive(Clone, Copy, Debug, PartialEq, Eq)]
pub struct FinalSaveSlot {
    pub generation: u64,
    pub operation: OperationId,
}

/// One lock of the service that waits for the coordinator.
#[derive(Clone, Copy, Debug, PartialEq, Eq)]
pub struct LockJob {
    /// The generation that is locked.
    pub generation: u64,
    /// The root capability that was taken over, named by its generation.
    pub root: Option<u64>,
    /// The operation that may finish its save.
    pub final_save: Option<OperationId>,
}

/// State of the scheduler.
pub struct Scheduler {
    config: ServiceConfig,
    accepting: bool,
    key_leases_open: bool,
    closed: bool,
    active: Vec<OperationState>,
    completed: VecDeque<OperationId>,
    controls: ControlMailbox,
    generation: u64,
    final_save: Option<FinalSaveSlot>,
    publications: Vec<OperationId>,
    lock_job: Option<LockJob>,
    session_events: VecDeque<(u64, SessionEvent)>,
    unlock_in_progress: bool,
    observer_in_flight: usize,
    queue: WorkQueue,
    queue_open: bool,
}

/// Contents of a [`Scheduler`].
pub struct SchedulerModel {
    pub config: ConfigModel,
    pub accepting: bool,
    pub key_leases_open: bool,
    pub closed: bool,
    pub active: Seq<OperationModel>,
    pub completed: Seq<OperationId>,
    pub controls: MailboxModel,
    pub generation: u64,
    pub final_save: Option<FinalSaveSlot>,
    pub publications: Seq<OperationId>,
    pub lock_job: Option<LockJob>,
    pub session_events: Seq<(u64, SessionEvent)>,
    pub unlock_in_progress: bool,
    pub observer_in_flight: usize,
    pub queue: QueueModel,
    pub queue_open: bool,
}

spec fn operation_models(active: Seq<OperationState>) -> Seq<OperationModel> {
    active.map_values(|state: OperationState| state@)
}

impl View for Scheduler {
    type V = SchedulerModel;

    closed spec fn view(&self) -> SchedulerModel {
        SchedulerModel {
            config: self.config@,
            accepting: self.accepting,
            key_leases_open: self.key_leases_open,
            closed: self.closed,
            active: operation_models(self.active@),
            completed: self.completed@,
            controls: self.controls@,
            generation: self.generation,
            final_save: self.final_save,
            publications: self.publications@,
            lock_job: self.lock_job,
            session_events: self.session_events@,
            unlock_in_progress: self.unlock_in_progress,
            observer_in_flight: self.observer_in_flight,
            queue: self.queue@,
            queue_open: self.queue_open,
        }
    }
}

/// Whether the first operation of this identity stands at this place.
pub open spec fn operation_at(active: Seq<OperationModel>, id: OperationId, index: int) -> bool {
    &&& 0 <= index < active.len()
    &&& active[index].id == id
    &&& forall|i: int| 0 <= i < index ==> (#[trigger] active[i]).id != id
}

/// The place of an operation, where it is accounted.
pub open spec fn place_of(active: Seq<OperationModel>, id: OperationId) -> Option<int> {
    if exists|index: int| operation_at(active, id, index) {
        Some(choose|index: int| operation_at(active, id, index))
    } else {
        None
    }
}

/// A place found by its definition is the place.
pub proof fn lemma_place_of(active: Seq<OperationModel>, id: OperationId, index: int)
    requires
        operation_at(active, id, index),
    ensures
        place_of(active, id) == Some(index),
{
    let chosen = choose|index: int| operation_at(active, id, index);
    assert(operation_at(active, id, chosen));
    if chosen < index {
        assert(active[chosen].id != id);
    }
    if index < chosen {
        assert(active[index].id != id);
    }
}

/// Whether no two accounted operations share an identity.
pub open spec fn ids_are_distinct(active: Seq<OperationModel>) -> bool {
    forall|i: int, j: int|
        0 <= i < j < active.len() ==> (#[trigger] active[i]).id != (#[trigger] active[j]).id
}

/// Invariant of the scheduler: it stays within its bounds, accounts every
/// operation once, and takes no work and hands out no lease once it is closed.
pub open spec fn scheduler_wf(scheduler: SchedulerModel) -> bool {
    &&& service::config_is_valid(scheduler.config)
    &&& scheduler.active.len() <= service::active_capacity(scheduler.config)
    &&& ids_are_distinct(scheduler.active)
    &&& scheduler.completed.len() <= scheduler.config.completed_capacity
    &&& mailbox::mailbox_wf(scheduler.controls)
    &&& scheduler.session_events.len() <= MAX_SESSION_EVENTS
    &&& scheduler.queue.waiting.len() <= scheduler.queue.room
    &&& scheduler.key_leases_open == scheduler.accepting
    &&& scheduler.closed ==> !scheduler.accepting && !scheduler.queue_open
}

/// A scheduler that was just made. One with a session takes no work until the
/// session is unlocked.
pub open spec fn new_scheduler(config: ConfigModel, has_session: bool) -> SchedulerModel {
    SchedulerModel {
        config,
        accepting: !has_session,
        key_leases_open: !has_session,
        closed: false,
        active: Seq::empty(),
        completed: Seq::empty(),
        controls: mailbox::empty_mailbox((service::active_capacity(config) + 2) as usize),
        generation: 0,
        final_save: None,
        publications: Seq::empty(),
        lock_job: None,
        session_events: Seq::empty(),
        unlock_in_progress: false,
        observer_in_flight: 0,
        queue: QueueModel { waiting: Seq::empty(), room: config.queue_capacity as nat },
        queue_open: true,
    }
}

/// What a look at the scheduler before an admission answers: the generation
/// that the operation would belong to.
pub open spec fn admission_answer(scheduler: SchedulerModel) -> Result<u64, ServiceError> {
    if scheduler.closed {
        Err(ServiceError::Closed)
    } else if !scheduler.accepting {
        Err(ServiceError::Locked)
    } else if scheduler.active.len() >= service::active_capacity(scheduler.config) {
        Err(ServiceError::Busy)
    } else if !scheduler.queue_open {
        Err(ServiceError::Closed)
    } else if !queue::has_room(scheduler.queue) {
        Err(ServiceError::Busy)
    } else {
        Ok(scheduler.generation)
    }
}

/// What the second look answers, when the operation is ready to be admitted:
/// the generation has to be the one that was seen first.
pub open spec fn readmission_answer(scheduler: SchedulerModel, generation: u64) -> Result<
    (),
    ServiceError,
> {
    if scheduler.closed {
        Err(ServiceError::Closed)
    } else if !scheduler.accepting {
        Err(ServiceError::Locked)
    } else if scheduler.generation != generation {
        Err(ServiceError::StaleCapability)
    } else {
        match admission_answer(scheduler) {
            Ok(_) => Ok(()),
            Err(error) => Err(error),
        }
    }
}

/// The scheduler after an operation was admitted.
pub open spec fn after_insert(scheduler: SchedulerModel, state: OperationModel) -> SchedulerModel {
    SchedulerModel {
        active: scheduler.active.push(state),
        queue: QueueModel { waiting: scheduler.queue.waiting.push(state.id), ..scheduler.queue },
        ..scheduler
    }
}

/// Whether a session event warns of the inactivity deadline.
pub open spec fn warns_of_inactivity(event: SessionEvent) -> bool {
    match event {
        SessionEvent::LockWarning { remaining, deadline } => deadline is Inactivity,
    }
}

/// The session events that do not warn of the inactivity deadline.
pub open spec fn without_inactivity(events: Seq<(u64, SessionEvent)>) -> Seq<(u64, SessionEvent)> {
    events.filter(|event: (u64, SessionEvent)| !warns_of_inactivity(event.1))
}

/// The scheduler after trusted activity took back the inactivity warnings.
pub open spec fn after_activity(scheduler: SchedulerModel) -> SchedulerModel {
    SchedulerModel { session_events: without_inactivity(scheduler.session_events), ..scheduler }
}

/// The accounted operations after one was asked to stop.
pub open spec fn cancelled_one(active: Seq<OperationModel>, id: OperationId) -> Seq<OperationModel> {
    match place_of(active, id) {
        Some(index) => active.update(
            index,
            OperationModel {
                cancel_notification_pending: true,
                ..operation::after_cancel(active[index])
            },
        ),
        None => active,
    }
}

/// Whether the cancellation of an operation is announced: only the first is.
pub open spec fn announces_cancel(active: Seq<OperationModel>, id: OperationId) -> bool {
    place_of(active, id) is Some && !active[place_of(active, id)->0].cancel_notification_pending
}

/// The scheduler after the cancellation of an operation was asked for.
pub open spec fn after_cancel(scheduler: SchedulerModel, id: OperationId) -> SchedulerModel {
    SchedulerModel {
        active: cancelled_one(scheduler.active, id),
        controls: if announces_cancel(scheduler.active, id) {
            mailbox::after_push(
                scheduler.controls,
                Control::Cancel(id),
                scheduler.generation,
                false,
            )
        } else {
            scheduler.controls
        },
        ..scheduler
    }
}

/// Whether a cancellation found the mailbox full.
pub open spec fn cancel_overflows(scheduler: SchedulerModel, id: OperationId) -> bool {
    announces_cancel(scheduler.active, id) && scheduler.controls.pending.len()
        >= scheduler.controls.capacity
}

/// Whether a lease can be handed to an operation.
pub open spec fn lease_is_allowed(scheduler: SchedulerModel, id: OperationId) -> bool {
    &&& !scheduler.closed
    &&& scheduler.key_leases_open
    &&& place_of(scheduler.active, id) is Some
    &&& scheduler.active[place_of(scheduler.active, id)->0].lifecycle is Running
    &&& !scheduler.active[place_of(scheduler.active, id)->0].cancelled
}

/// What the check before a lease answers: the generation of the operation.
pub open spec fn lease_answer(scheduler: SchedulerModel, id: OperationId) -> Result<
    u64,
    ServiceError,
> {
    if !lease_is_allowed(scheduler, id) {
        Err(ServiceError::Locked)
    } else {
        match scheduler.active[place_of(scheduler.active, id)->0].session_generation {
            Some(generation) => Ok(generation),
            None => Err(ServiceError::Locked),
        }
    }
}

/// What the check before a workspace or a freshness question answers: the
/// operation also has to belong to the current generation.
pub open spec fn current_lease_answer(scheduler: SchedulerModel, id: OperationId) -> Result<
    u64,
    ServiceError,
> {
    match lease_answer(scheduler, id) {
        Ok(generation) if generation == scheduler.generation => Ok(generation),
        _ => Err(ServiceError::Locked),
    }
}

/// Whether an operation may arm the one final save.
pub open spec fn final_save_is_allowed(scheduler: SchedulerModel, id: OperationId) -> bool {
    &&& lease_is_allowed(scheduler, id)
    &&& scheduler.accepting
    &&& scheduler.active[place_of(scheduler.active, id)->0].session_generation
        == Some(scheduler.generation)
    &&& scheduler.active[place_of(scheduler.active, id)->0].mutating
    &&& scheduler.final_save is None
}

/// What the arming of the final save answers: the generation that it is armed
/// for.
pub open spec fn arm_answer(scheduler: SchedulerModel, id: OperationId) -> Result<
    u64,
    ServiceError,
> {
    if place_of(scheduler.active, id) is Some
        && scheduler.active[place_of(scheduler.active, id)->0].session_generation is None {
        Err(ServiceError::Locked)
    } else if final_save_is_allowed(scheduler, id) {
        Ok(scheduler.generation)
    } else {
        Err(ServiceError::StaleCapability)
    }
}

/// The scheduler after the arming of the final save.
pub open spec fn after_arm(scheduler: SchedulerModel, id: OperationId) -> SchedulerModel {
    match arm_answer(scheduler, id) {
        Ok(generation) => SchedulerModel {
            final_save: Some(FinalSaveSlot { generation, operation: id }),
            ..scheduler
        },
        Err(_) => scheduler,
    }
}

/// The scheduler after the final save was disarmed. While the service locks,
/// the slot stays with the lock.
pub open spec fn after_disarm(scheduler: SchedulerModel, id: OperationId, generation: u64) -> SchedulerModel {
    if scheduler.final_save == Some(FinalSaveSlot { generation, operation: id })
        && scheduler.accepting {
        SchedulerModel { final_save: None, ..scheduler }
    } else {
        scheduler
    }
}

/// The list of completed operations after one more: the oldest makes room.
pub open spec fn remembered(completed: Seq<OperationId>, capacity: usize, id: OperationId) -> Seq<OperationId> {
    if completed.len() >= capacity && completed.len() > 0 {
        completed.drop_first().push(id)
    } else {
        completed.push(id)
    }
}

/// The scheduler after an operation was retired.
pub open spec fn after_retire(scheduler: SchedulerModel, index: int) -> SchedulerModel {
    SchedulerModel {
        active: scheduler.active.remove(index),
        completed: remembered(
            scheduler.completed,
            scheduler.config.completed_capacity,
            scheduler.active[index].id,
        ),
        ..scheduler
    }
}

/// Whether an operation still owes its consumer the notice of a cancellation.
pub open spec fn awaits_notice(state: OperationModel) -> bool {
    state.cancel_notification_pending && !state.cancel_notification_acknowledged
}

/// The scheduler after an operation ended. One that still owes the notice of
/// its cancellation stays accounted until the notice is given.
pub open spec fn after_finish(
    scheduler: SchedulerModel,
    id: OperationId,
    outcome: Result<OperationResult, ServiceError>,
) -> SchedulerModel {
    match place_of(scheduler.active, id) {
        Some(index) if !(scheduler.active[index].lifecycle is Terminal) => {
            let ended = SchedulerModel {
                active: scheduler.active.update(
                    index,
                    operation::after_finish(scheduler.active[index], outcome),
                ),
                final_save: if scheduler.final_save is Some && scheduler.final_save->0.operation
                    == id {
                    None
                } else {
                    scheduler.final_save
                },
                ..scheduler
            };
            if awaits_notice(scheduler.active[index]) {
                ended
            } else {
                after_retire(ended, index)
            }
        },
        _ => scheduler,
    }
}

/// The operation that its end retires, where it does.
pub open spec fn retired_by_finish(
    scheduler: SchedulerModel,
    id: OperationId,
    outcome: Result<OperationResult, ServiceError>,
) -> Option<OperationModel> {
    match place_of(scheduler.active, id) {
        Some(index) if !(scheduler.active[index].lifecycle is Terminal) && !awaits_notice(
            scheduler.active[index],
        ) => Some(operation::after_finish(scheduler.active[index], outcome)),
        _ => None,
    }
}

/// An operation whose consumer was told of its cancellation.
pub open spec fn acknowledged(state: OperationModel) -> OperationModel {
    OperationModel { cancel_notification_acknowledged: true, ..state }
}

/// The scheduler after the notice of a cancellation was given.
pub open spec fn after_acknowledge(scheduler: SchedulerModel, id: OperationId) -> SchedulerModel {
    match place_of(scheduler.active, id) {
        Some(index) => {
            let told = SchedulerModel {
                active: scheduler.active.update(index, acknowledged(scheduler.active[index])),
                ..scheduler
            };
            if scheduler.active[index].lifecycle is Terminal {
                after_retire(told, index)
            } else {
                told
            }
        },
        None => scheduler,
    }
}

/// The operation that the notice of its cancellation retires, where it does.
pub open spec fn retired_by_acknowledge(scheduler: SchedulerModel, id: OperationId) -> Option<
    OperationModel,
> {
    match place_of(scheduler.active, id) {
        Some(index) if scheduler.active[index].lifecycle is Terminal => Some(
            acknowledged(scheduler.active[index]),
        ),
        _ => None,
    }
}

/// A retired operation, where there is one.
pub open spec fn retired_model(retired: Option<OperationState>) -> Option<OperationModel> {
    match retired {
        Some(state) => Some(state@),
        None => None,
    }
}

/// The operation that a lock lets finish its save.
pub open spec fn lock_final_save(scheduler: SchedulerModel, close_service: bool) -> Option<
    OperationId,
> {
    match scheduler.final_save {
        Some(slot) if !close_service && slot.generation == scheduler.generation && place_of(
            scheduler.active,
            slot.operation,
        ) is Some && scheduler.active[place_of(scheduler.active, slot.operation)->0].lifecycle is Running
            && !scheduler.active[place_of(scheduler.active, slot.operation)->0].cancelled => Some(
            slot.operation,
        ),
        _ => None,
    }
}

/// Whether a lock leaves an operation alone: it finishes its save, or what it
/// publishes cannot be taken back.
pub open spec fn is_spared(
    publications: Seq<OperationId>,
    final_save: Option<OperationId>,
    id: OperationId,
) -> bool {
    final_save == Some(id) || publications.contains(id)
}

/// One operation after a lock.
pub open spec fn locked_operation(
    publications: Seq<OperationId>,
    final_save: Option<OperationId>,
    close_service: bool,
    state: OperationModel,
) -> OperationModel {
    if is_spared(publications, final_save, state.id) {
        state
    } else if close_service {
        operation::after_finish(operation::after_cancel(state), Err(ServiceError::Closed))
    } else {
        operation::after_cancel(state)
    }
}

/// The accounted operations after a lock.
pub open spec fn locked_operations(
    scheduler: SchedulerModel,
    final_save: Option<OperationId>,
    close_service: bool,
) -> Seq<OperationModel> {
    scheduler.active.map_values(
        |state: OperationModel|
            locked_operation(scheduler.publications, final_save, close_service, state),
    )
}

/// The scheduler after a lock began, with the root that the session gave up.
/// Admission and leases close at once. A lock that waits already stays the one
/// that waits.
pub open spec fn after_lock(
    scheduler: SchedulerModel,
    control: Control,
    close_service: bool,
    root: Option<u64>,
) -> SchedulerModel {
    let final_save = lock_final_save(scheduler, close_service);
    SchedulerModel {
        closed: scheduler.closed || close_service,
        queue_open: scheduler.queue_open && !close_service,
        accepting: false,
        key_leases_open: false,
        active: locked_operations(scheduler, final_save, close_service),
        lock_job: match scheduler.lock_job {
            Some(job) => Some(job),
            None => Some(LockJob { generation: scheduler.generation, root, final_save }),
        },
        controls: mailbox::after_global(scheduler.controls, control, scheduler.generation),
        ..scheduler
    }
}

/// The session events after one more: the oldest makes room.
pub open spec fn with_event(
    events: Seq<(u64, SessionEvent)>,
    generation: u64,
    event: SessionEvent,
) -> Seq<(u64, SessionEvent)> {
    if events.len() >= MAX_SESSION_EVENTS {
        events.drop_first().push((generation, event))
    } else {
        events.push((generation, event))
    }
}

/// The session events after a list of warnings.
pub open spec fn with_warnings(
    events: Seq<(u64, SessionEvent)>,
    generation: u64,
    warnings: Seq<SessionEvent>,
) -> Seq<(u64, SessionEvent)>
    decreases warnings.len(),
{
    if warnings.len() == 0 {
        events
    } else {
        with_event(
            with_warnings(events, generation, warnings.drop_last()),
            generation,
            warnings.last(),
        )
    }
}

/// The next session event of the current generation: those of others are
/// dropped on the way.
pub open spec fn next_event(events: Seq<(u64, SessionEvent)>, generation: u64) -> Option<
    SessionEvent,
>
    decreases events.len(),
{
    if events.len() == 0 {
        None
    } else if events[0].0 == generation {
        Some(events[0].1)
    } else {
        next_event(events.drop_first(), generation)
    }
}

/// The session events after the next one was taken.
pub open spec fn after_next_event(events: Seq<(u64, SessionEvent)>, generation: u64) -> Seq<
    (u64, SessionEvent),
>
    decreases events.len(),
{
    if events.len() == 0 {
        events
    } else if events[0].0 == generation {
        events.drop_first()
    } else {
        after_next_event(events.drop_first(), generation)
    }
}

/// One operation after its work was told to stop.
pub open spec fn stopped_operation(
    publications: Seq<OperationId>,
    final_save: Option<OperationId>,
    state: OperationModel,
) -> OperationModel {
    if is_spared(publications, final_save, state.id) {
        state
    } else {
        OperationModel { lease_cancellation_queued: true, ..operation::after_cancel(state) }
    }
}

/// The scheduler after everything but the final save was told to stop.
pub open spec fn after_stop(scheduler: SchedulerModel, final_save: Option<OperationId>) -> SchedulerModel {
    SchedulerModel {
        active: scheduler.active.map_values(
            |state: OperationModel| stopped_operation(scheduler.publications, final_save, state),
        ),
        ..scheduler
    }
}

/// The first `count` operations whose leases are cancelled now: those that were
/// not told to before.
pub open spec fn newly_stopped(
    scheduler: SchedulerModel,
    final_save: Option<OperationId>,
    count: nat,
) -> Seq<OperationId>
    decreases count,
{
    if count == 0 {
        Seq::empty()
    } else {
        let before = newly_stopped(scheduler, final_save, (count - 1) as nat);
        let state = scheduler.active[count - 1];
        if !is_spared(scheduler.publications, final_save, state.id)
            && !state.lease_cancellation_queued {
            before.push(state.id)
        } else {
            before
        }
    }
}

/// Whether a publication of a generation is on the way.
pub open spec fn publishes(scheduler: SchedulerModel, generation: u64) -> bool {
    exists|i: int|
        0 <= i < scheduler.active.len() && scheduler.publications.contains(
            (#[trigger] scheduler.active[i]).id,
        ) && scheduler.active[i].session_generation == Some(generation)
}

/// What a safe boundary of an operation answers.
pub open spec fn boundary_answer(scheduler: SchedulerModel, id: OperationId) -> Result<
    (),
    ServiceError,
> {
    match place_of(scheduler.active, id) {
        None => Err(ServiceError::Cancelled),
        Some(index) => if scheduler.active[index].irrevocable {
            Ok(())
        } else if scheduler.active[index].cancelled {
            Err(ServiceError::Cancelled)
        } else if !scheduler.accepting && !(scheduler.final_save is Some
            && scheduler.final_save->0.operation == id) {
            Err(ServiceError::Cancelled)
        } else {
            Ok(())
        },
    }
}

/// The scheduler after a safe boundary: an operation that may not go on is
/// cancelled.
pub open spec fn after_boundary(scheduler: SchedulerModel, id: OperationId) -> SchedulerModel {
    match place_of(scheduler.active, id) {
        Some(index) if boundary_answer(scheduler, id) is Err && !scheduler.active[index].cancelled => SchedulerModel {
            active: scheduler.active.update(
                index,
                operation::after_cancel(scheduler.active[index]),
            ),
            ..scheduler
        },
        _ => scheduler,
    }
}

/// What the authorization of a publication answers.
pub open spec fn publication_answer(scheduler: SchedulerModel, id: OperationId) -> Result<
    u64,
    HostPortError,
> {
    if lease_is_allowed(scheduler, id) && scheduler.accepting && !scheduler.active[place_of(
        scheduler.active,
        id,
    )->0].irrevocable && scheduler.active[place_of(scheduler.active, id)->0].session_generation
        == Some(scheduler.generation) && !scheduler.publications.contains(id) {
        Ok(scheduler.generation)
    } else {
        Err(HostPortError::Cancelled)
    }
}

/// The scheduler after the authorization of a publication.
pub open spec fn after_authorize(scheduler: SchedulerModel, id: OperationId) -> SchedulerModel {
    if publication_answer(scheduler, id) is Ok {
        SchedulerModel { publications: scheduler.publications.push(id), ..scheduler }
    } else {
        scheduler
    }
}

/// The identities other than this one.
pub open spec fn other_than(id: OperationId) -> spec_fn(OperationId) -> bool {
    |own: OperationId| own != id
}

/// The list of publications after one was done.
pub open spec fn without_publication(publications: Seq<OperationId>, id: OperationId) -> Seq<
    OperationId,
> {
    publications.filter(other_than(id))
}

/// The scheduler after a publication was done. A visible one cannot be taken
/// back.
pub open spec fn after_publication(scheduler: SchedulerModel, id: OperationId, published: bool) -> SchedulerModel {
    SchedulerModel {
        active: match place_of(scheduler.active, id) {
            Some(index) if published => scheduler.active.update(
                index,
                OperationModel { irrevocable: true, ..scheduler.active[index] },
            ),
            _ => scheduler.active,
        },
        publications: without_publication(scheduler.publications, id),
        ..scheduler
    }
}

/// Number of operations that wait for a worker among the first `count`.
pub open spec fn accepted_count(active: Seq<OperationModel>, count: nat) -> nat
    decreases count,
{
    if count == 0 {
        0
    } else {
        accepted_count(active, (count - 1) as nat) + if active[count - 1].lifecycle is Accepted {
            1nat
        } else {
            0nat
        }
    }
}

/// Number of operations that run among the first `count`.
pub open spec fn running_count(active: Seq<OperationModel>, count: nat) -> nat
    decreases count,
{
    if count == 0 {
        0
    } else {
        running_count(active, (count - 1) as nat) + if active[count - 1].lifecycle is Running {
            1nat
        } else {
            0nat
        }
    }
}

/// What a snapshot of the service shows.
pub open spec fn snapshot_of(scheduler: SchedulerModel, session_state: SessionState) -> SnapshotModel {
    let queued = accepted_count(scheduler.active, scheduler.active.len());
    let running = running_count(scheduler.active, scheduler.active.len());
    SnapshotModel {
        session_state,
        accepting_operations: scheduler.accepting,
        key_leases_open: scheduler.key_leases_open,
        queued_operations: queued,
        running_operations: running,
        active_operations: queued + running,
        retained_completed_operations: scheduler.completed.len(),
        closed: scheduler.closed,
    }
}

/// What the check before an unlock answers.
pub open spec fn unlock_is_allowed(scheduler: SchedulerModel) -> bool {
    &&& !scheduler.closed
    &&& !scheduler.unlock_in_progress
    &&& scheduler.active.len() == 0
    &&& scheduler.lock_job is None
    &&& scheduler.observer_in_flight == 0
}

/// Whether an unlocked session may open the service: nothing stopped it
/// meanwhile.
pub open spec fn may_open(scheduler: SchedulerModel, session_state: SessionState) -> bool {
    &&& !scheduler.closed
    &&& session_state is Unlocked
    &&& scheduler.active.len() == 0
    &&& scheduler.lock_job is None
}

/// The scheduler of a service that was opened for a generation.
pub open spec fn opened(scheduler: SchedulerModel, generation: u64) -> SchedulerModel {
    SchedulerModel {
        unlock_in_progress: false,
        generation,
        controls: mailbox::after_reset(scheduler.controls, generation),
        session_events: Seq::empty(),
        final_save: None,
        accepting: true,
        key_leases_open: true,
        ..scheduler
    }
}

/// What the coordinator does next.
#[derive(Clone, Copy, Debug, PartialEq, Eq)]
pub enum CoordinatorStep {
    /// Handle a control.
    Handle(PendingControl),
    /// The service is closed: take what is accounted and what waits, and stop.
    Close,
    /// Wait until the scheduler changes.
    Wait,
    /// Hand an operation to a worker.
    Dispatch(OperationId),
    /// Nothing can come any more: stop.
    Stop,
}

/// What the coordinator does next, with an operation that it holds already.
pub open spec fn coordinator_step(scheduler: SchedulerModel, held: Option<OperationId>) -> CoordinatorStep {
    match mailbox::current_control(scheduler.controls, scheduler.generation) {
        Some(control) => CoordinatorStep::Handle(control),
        None => if scheduler.closed {
            CoordinatorStep::Close
        } else if scheduler.observer_in_flight != 0 {
            CoordinatorStep::Wait
        } else {
            match held {
                Some(id) => CoordinatorStep::Dispatch(id),
                None => if scheduler.queue.waiting.len() > 0 {
                    CoordinatorStep::Dispatch(scheduler.queue.waiting[0])
                } else if !scheduler.queue_open {
                    CoordinatorStep::Stop
                } else {
                    CoordinatorStep::Wait
                },
            }
        },
    }
}

/// The scheduler after a step of the coordinator.
pub open spec fn after_coordinator_step(scheduler: SchedulerModel, held: Option<OperationId>) -> SchedulerModel {
    let looked = SchedulerModel {
        controls: mailbox::after_current(scheduler.controls, scheduler.generation),
        ..scheduler
    };
    match coordinator_step(scheduler, held) {
        CoordinatorStep::Handle(_) => SchedulerModel {
            observer_in_flight: if scheduler.observer_in_flight < usize::MAX {
                (scheduler.observer_in_flight + 1) as usize
            } else {
                usize::MAX
            },
            ..looked
        },
        CoordinatorStep::Dispatch(_) if held is None => SchedulerModel {
            queue: QueueModel { waiting: looked.queue.waiting.drop_first(), ..looked.queue },
            ..looked
        },
        _ => looked,
    }
}

/// The scheduler after a control was observed.
pub open spec fn after_observation(scheduler: SchedulerModel, observed: PendingControl) -> SchedulerModel {
    SchedulerModel {
        observer_in_flight: (scheduler.observer_in_flight - 1) as usize,
        controls: mailbox::after_observed(scheduler.controls, observed),
        ..scheduler
    }
}

/// What a wait of a lock for the final save does next.
#[derive(Clone, Copy, Debug, PartialEq, Eq, Structural)]
pub enum FinalSaveStep {
    /// The save may still finish.
    Wait,
    /// The wait is over.
    Over,
}

/// Whether the grace of a final save still runs.
#[derive(Clone, Copy, Debug, PartialEq, Eq, Structural)]
pub enum Grace {
    /// No instant for its end could be named.
    Unbounded,
    /// Its end has come.
    Passed,
    /// It still runs.
    Running,
}

/// Whether the final save of a lock is still on the way.
pub open spec fn save_is_pending(scheduler: SchedulerModel, id: OperationId, generation: u64) -> bool {
    &&& scheduler.final_save == Some(FinalSaveSlot { generation, operation: id })
    &&& place_of(scheduler.active, id) is Some
    &&& !(scheduler.active[place_of(scheduler.active, id)->0].lifecycle is Terminal)
    &&& !scheduler.active[place_of(scheduler.active, id)->0].cancelled
}

/// What a wait for the final save does next.
pub open spec fn final_save_step(
    scheduler: SchedulerModel,
    id: OperationId,
    generation: u64,
    grace: Grace,
) -> FinalSaveStep {
    if save_is_pending(scheduler, id, generation) && grace is Running {
        FinalSaveStep::Wait
    } else {
        FinalSaveStep::Over
    }
}

/// The scheduler after a look at the final save: a wait that is over leaves no
/// unfinished save uncancelled.
pub open spec fn after_final_save_step(
    scheduler: SchedulerModel,
    id: OperationId,
    generation: u64,
    grace: Grace,
) -> SchedulerModel {
    match place_of(scheduler.active, id) {
        Some(index) if final_save_step(scheduler, id, generation, grace) is Over
            && !(scheduler.active[index].lifecycle is Terminal) => SchedulerModel {
            active: scheduler.active.update(
                index,
                operation::after_cancel(scheduler.active[index]),
            ),
            ..scheduler
        },
        _ => scheduler,
    }
}

proof fn lemma_models_update(active: Seq<OperationState>, index: int, state: OperationState)
    requires
        0 <= index < active.len(),
    ensures
        operation_models(active.update(index, state)) == operation_models(active).update(
            index,
            state@,
        ),
{
    assert(operation_models(active.update(index, state)) =~= operation_models(active).update(
        index,
        state@,
    ));
}

fn is_operation(slot: &Option<OperationId>, id: OperationId) -> (same: bool)
    ensures
        same == (*slot == Some(id)),
{
    match slot {
        Some(own) => *own == id,
        None => false,
    }
}

fn contains(ids: &Vec<OperationId>, id: OperationId) -> (found: bool)
    ensures
        found == ids@.contains(id),
{
    let mut index: usize = 0;
    while index < ids.len()
        invariant
            index <= ids@.len(),
            forall|i: int| 0 <= i < index ==> ids@[i] != id,
        decreases ids@.len() - index,
    {
        if ids[index] == id {
            assert(ids@[index as int] == id);
            return true;
        }
        index += 1;
    }
    false
}

/// The reserved room of a scheduler.
pub struct SchedulerRoom {
    pub controls: ControlMailbox,
    pub active: Vec<OperationState>,
    pub completed: VecDeque<OperationId>,
    pub session_events: VecDeque<(u64, SessionEvent)>,
    pub publications: Vec<OperationId>,
}

/// Whether the room of a scheduler holds nothing yet.
pub open spec fn room_is_empty(room: SchedulerRoom, config: ConfigModel) -> bool {
    &&& room.controls@ == mailbox::empty_mailbox((service::active_capacity(config) + 2) as usize)
    &&& room.active@ == Seq::<OperationState>::empty()
    &&& room.completed@ == Seq::<OperationId>::empty()
    &&& room.session_events@ == Seq::<(u64, SessionEvent)>::empty()
    &&& room.publications@ == Seq::<OperationId>::empty()
}

/// Whether the allocator may have refused one of the parts of a scheduler.
pub open spec fn scheduler_refused(config: ConfigModel) -> bool {
    let active = service::active_capacity(config) as int;
    ||| mailbox::mailbox_refused(active + 2)
    ||| memory::vec_refused(Seq::<OperationState>::empty(), active)
    ||| memory::queue_refused(Seq::<OperationId>::empty(), config.completed_capacity as int)
    ||| memory::queue_refused(Seq::<(u64, SessionEvent)>::empty(), MAX_SESSION_EVENTS as int)
    ||| memory::vec_refused(Seq::<OperationId>::empty(), active)
}

impl SchedulerRoom {
    /// Reserves the room of a scheduler, unless the allocator refuses a part.
    fn reserve(config: ServiceConfig) -> (room: Option<Self>)
        ensures
            match room {
                Some(room) => room_is_empty(room, config@),
                None => scheduler_refused(config@),
            },
    {
        let active_capacity: usize = config.active_capacity();
        let controls = match ControlMailbox::new(active_capacity + 2) {
            Ok(controls) => controls,
            Err(_) => return None,
        };
        match (
            vec_room(active_capacity),
            queue_room(config.completed_capacity()),
            queue_room(MAX_SESSION_EVENTS),
            vec_room(active_capacity),
        ) {
            (Some(active), Some(completed), Some(session_events), Some(publications)) => Some(
                SchedulerRoom { controls, active, completed, session_events, publications },
            ),
            _ => None,
        }
    }
}

impl Scheduler {
    /// A scheduler without an operation.
    pub fn new(config: ServiceConfig, has_session: bool) -> (scheduler: Result<Self, ServiceError>)
        ensures
            match scheduler {
                Ok(scheduler) => scheduler@ == new_scheduler(config@, has_session) && scheduler_wf(
                    scheduler@,
                ),
                Err(error) => error == ServiceError::InvalidConfiguration && scheduler_refused(
                    config@,
                ),
            },
    {
        Scheduler::over(config, has_session, SchedulerRoom::reserve(config))
    }

    /// A scheduler without an operation over its room, or none where the room was
    /// refused.
    pub fn over(config: ServiceConfig, has_session: bool, room: Option<SchedulerRoom>) -> (scheduler:
        Result<Self, ServiceError>)
        requires
            room is Some ==> room_is_empty(room->0, config@),
        ensures
            room is None ==> scheduler == Err::<Self, ServiceError>(
                ServiceError::InvalidConfiguration,
            ),
            room is Some ==> scheduler is Ok && scheduler->Ok_0@ == new_scheduler(
                config@,
                has_session,
            ) && scheduler_wf(scheduler->Ok_0@),
    {
        let room = match room {
            Some(room) => room,
            None => return Err(ServiceError::InvalidConfiguration),
        };
        let scheduler = Scheduler {
            config,
            accepting: !has_session,
            key_leases_open: !has_session,
            closed: false,
            active: room.active,
            completed: room.completed,
            controls: room.controls,
            generation: 0,
            final_save: None,
            publications: room.publications,
            lock_job: None,
            session_events: room.session_events,
            unlock_in_progress: false,
            observer_in_flight: 0,
            queue: WorkQueue::with_capacity(config.queue_capacity()),
            queue_open: true,
        };
        assert(scheduler@.active =~= Seq::empty());
        Ok(scheduler)
    }

    pub fn is_closed(&self) -> (closed: bool)
        ensures
            closed == self@.closed,
    {
        self.closed
    }

    pub fn is_accepting(&self) -> (accepting: bool)
        ensures
            accepting == self@.accepting,
    {
        self.accepting
    }

    pub fn key_leases_open(&self) -> (open: bool)
        ensures
            open == self@.key_leases_open,
    {
        self.key_leases_open
    }

    pub fn generation(&self) -> (generation: u64)
        ensures
            generation == self@.generation,
    {
        self.generation
    }

    pub fn config(&self) -> (config: ServiceConfig)
        ensures
            config@ == self@.config,
    {
        self.config
    }

    pub fn has_lock_job(&self) -> (waits: bool)
        ensures
            waits == (self@.lock_job is Some),
    {
        self.lock_job.is_some()
    }

    /// The final save of the lock that waits.
    pub fn lock_final_save(&self) -> (save: Option<OperationId>)
        ensures
            save == match self@.lock_job {
                Some(job) => job.final_save,
                None => None,
            },
    {
        match &self.lock_job {
            Some(job) => job.final_save,
            None => None,
        }
    }

    pub fn unlock_in_progress(&self) -> (unlocking: bool)
        ensures
            unlocking == self@.unlock_in_progress,
    {
        self.unlock_in_progress
    }

    pub fn observer_in_flight(&self) -> (count: usize)
        ensures
            count == self@.observer_in_flight,
    {
        self.observer_in_flight
    }

    fn place(&self, id: OperationId) -> (place: Option<usize>)
        ensures
            match place {
                Some(index) => place_of(self@.active, id) == Some(index as int) && operation_at(
                    self@.active,
                    id,
                    index as int,
                ) && index < self.active@.len() && self@.active[index as int]
                    == self.active@[index as int]@,
                None => place_of(self@.active, id) is None,
            },
    {
        let mut index: usize = 0;
        while index < self.active.len()
            invariant
                index <= self.active@.len(),
                self@.active.len() == self.active@.len(),
                forall|i: int| 0 <= i < index ==> (#[trigger] self@.active[i]).id != id,
            decreases self.active@.len() - index,
        {
            assert(self@.active[index as int] == self.active@[index as int]@);
            if self.active[index].id() == id {
                assert(operation_at(self@.active, id, index as int));
                proof {
                    lemma_place_of(self@.active, id, index as int);
                }
                return Some(index);
            }
            index += 1;
        }
        None
    }

    /// Whether an operation is accounted.
    pub fn is_active(&self, id: OperationId) -> (active: bool)
        ensures
            active == (place_of(self@.active, id) is Some),
    {
        self.place(id).is_some()
    }

    /// The state of an accounted operation.
    pub fn operation(&self, id: OperationId) -> (state: Option<&OperationState>)
        ensures
            match place_of(self@.active, id) {
                Some(index) => state is Some && state->0@ == self@.active[index],
                None => state is None,
            },
    {
        match self.place(id) {
            Some(index) => Some(&self.active[index]),
            None => None,
        }
    }

    /// The state of an accounted operation, to be changed.
    pub fn operation_mut(&mut self, id: OperationId) -> (state: Option<&mut OperationState>)
        ensures
            match place_of(old(self)@.active, id) {
                Some(index) => state is Some && state->0@ == old(self)@.active[index]
                    && final(self)@ == (SchedulerModel {
                    active: old(self)@.active.update(index, final(state->0)@),
                    ..old(self)@
                }),
                None => state is None && final(self)@ == old(self)@,
            },
    {
        match self.place(id) {
            Some(index) => {
                let ghost before = self.active@;
                assert forall|state: OperationState|
                    operation_models(#[trigger] before.update(index as int, state))
                        == operation_models(before).update(index as int, state@) by {
                    lemma_models_update(before, index as int, state);
                }
                Some(&mut self.active[index])
            },
            None => None,
        }
    }
}

impl Scheduler {
    /// Looks whether an operation could be admitted, and for which generation.
    pub fn check_admission(&self) -> (answer: Result<u64, ServiceError>)
        ensures
            answer == admission_answer(self@),
    {
        if self.closed {
            return Err(ServiceError::Closed);
        }
        if !self.accepting {
            return Err(ServiceError::Locked);
        }
        assert(self@.active.len() == self.active@.len());
        if self.active.len() >= self.config.active_capacity() {
            return Err(ServiceError::Busy);
        }
        if !self.queue_open {
            return Err(ServiceError::Closed);
        }
        if self.queue.is_full() {
            return Err(ServiceError::Busy);
        }
        Ok(self.generation)
    }

    /// Looks again, with the generation that was seen first.
    pub fn check_readmission(&self, generation: u64) -> (answer: Result<(), ServiceError>)
        ensures
            answer == readmission_answer(self@, generation),
    {
        if self.closed {
            return Err(ServiceError::Closed);
        }
        if !self.accepting {
            return Err(ServiceError::Locked);
        }
        if self.generation != generation {
            return Err(ServiceError::StaleCapability);
        }
        match self.check_admission() {
            Ok(_) => Ok(()),
            Err(error) => Err(error),
        }
    }

    /// Admits an operation that was looked at twice.
    pub fn insert(&mut self, state: OperationState)
        requires
            admission_answer(old(self)@) is Ok,
        ensures
            final(self)@ == after_insert(old(self)@, state@),
    {
        let id = state.id();
        let ghost before = self.active@;
        self.active.push(state);
        assert(operation_models(self.active@) =~= operation_models(before).push(state@));
        self.queue.try_push(id);
    }

    /// Takes back the warnings of the inactivity deadline.
    pub fn forget_inactivity_warnings(&mut self)
        ensures
            final(self)@ == after_activity(old(self)@),
    {
        let ghost all = self.session_events@;
        let ghost other = |event: (u64, SessionEvent)| !warns_of_inactivity(event.1);
        let mut kept: VecDeque<(u64, SessionEvent)> = VecDeque::new();
        let mut index: usize = 0;
        assert(all.take(0).filter(other) =~= Seq::<(u64, SessionEvent)>::empty()) by {
            reveal(Seq::filter);
        }
        while index < self.session_events.len()
            invariant
                index <= self.session_events@.len(),
                self.session_events@ == all,
                kept@ == all.take(index as int).filter(other),
                other == (|event: (u64, SessionEvent)| !warns_of_inactivity(event.1)),
                *self == *old(self),
            decreases self.session_events@.len() - index,
        {
            let event = self.session_events[index];
            proof {
                reveal(Seq::filter);
                assert(all.take(index + 1).drop_last() =~= all.take(index as int));
            }
            let warns = match event.1 {
                SessionEvent::LockWarning { remaining: _, deadline } => match deadline {
                    SessionDeadlineKind::Inactivity => true,
                    SessionDeadlineKind::Absolute => false,
                },
            };
            if !warns {
                kept.push_back(event);
            }
            index += 1;
        }
        assert(all.take(index as int) =~= all);
        self.session_events = kept;
    }

    /// Asks an operation to stop. The answer is whether the mailbox was full.
    pub fn cancel(&mut self, id: OperationId) -> (overflow: bool)
        ensures
            overflow == cancel_overflows(old(self)@, id),
            final(self)@ == after_cancel(old(self)@, id),
    {
        match self.place(id) {
            None => false,
            Some(index) => {
                let ghost before = self.active@;
                self.active[index].mark_cancelled();
                let announce = self.active[index].claim_cancel_notification();
                assert(operation_models(self.active@) =~= operation_models(before).update(
                    index as int,
                    self.active@[index as int]@,
                ));
                announce && !self.controls.push(Control::Cancel(id), self.generation, false)
            },
        }
    }

    /// Notes untrusted activity. The answer is whether the mailbox was full.
    pub fn note_untrusted_activity(&mut self) -> (overflow: bool)
        ensures
            overflow == (mailbox::notes_untrusted(
                old(self)@.controls,
                old(self)@.generation,
            ) && old(self)@.controls.pending.len() >= old(self)@.controls.capacity),
            final(self)@ == (SchedulerModel {
                controls: mailbox::after_untrusted(old(self)@.controls, old(self)@.generation),
                ..old(self)@
            }),
    {
        self.controls.note_untrusted(self.generation)
    }

    /// Notes trusted activity of the current generation.
    pub fn note_trusted_activity(&mut self)
        ensures
            final(self)@ == (SchedulerModel {
                controls: mailbox::after_trusted(old(self)@.controls, old(self)@.generation),
                ..old(self)@
            }),
    {
        self.controls.note_trusted(self.generation);
    }

    fn allows_lease(&self, id: OperationId) -> (place: Option<usize>)
        ensures
            place is Some <==> lease_is_allowed(self@, id),
            place is Some ==> place_of(self@.active, id) == Some(place->0 as int) && place->0
                < self.active@.len() && self@.active[place->0 as int]
                == self.active@[place->0 as int]@,
    {
        match self.place(id) {
            None => None,
            Some(index) => if !self.closed && self.key_leases_open
                && self.active[index].is_running() && !self.active[index].is_cancelled() {
                Some(index)
            } else {
                None
            },
        }
    }

    /// Checks that a lease can be handed to an operation, and for which
    /// generation.
    pub fn check_lease(&self, id: OperationId) -> (answer: Result<u64, ServiceError>)
        ensures
            answer == lease_answer(self@, id),
    {
        match self.allows_lease(id) {
            None => Err(ServiceError::Locked),
            Some(index) => match self.active[index].session_generation() {
                Some(generation) => Ok(generation),
                None => Err(ServiceError::Locked),
            },
        }
    }

    /// Checks the same and that the operation belongs to the current generation.
    pub fn check_current_lease(&self, id: OperationId) -> (answer: Result<u64, ServiceError>)
        ensures
            answer == current_lease_answer(self@, id),
    {
        match self.check_lease(id) {
            Ok(generation) => if generation == self.generation {
                Ok(generation)
            } else {
                Err(ServiceError::Locked)
            },
            Err(_) => Err(ServiceError::Locked),
        }
    }

    /// Arms the one final save for an operation.
    pub fn arm_final_save(&mut self, id: OperationId) -> (armed: Result<u64, ServiceError>)
        ensures
            armed == arm_answer(old(self)@, id),
            final(self)@ == after_arm(old(self)@, id),
    {
        let index: usize = match self.place(id) {
            None => return Err(ServiceError::StaleCapability),
            Some(index) => index,
        };
        let generation: u64 = match self.active[index].session_generation() {
            None => return Err(ServiceError::Locked),
            Some(generation) => generation,
        };
        if self.allows_lease(id).is_none() || !self.accepting || generation != self.generation
            || !self.active[index].is_mutating() || self.final_save.is_some() {
            return Err(ServiceError::StaleCapability);
        }
        self.final_save = Some(FinalSaveSlot { generation, operation: id });
        Ok(generation)
    }

    /// Whether the final save is armed for an operation of a generation.
    fn is_armed(&self, id: OperationId, generation: u64) -> (armed: bool)
        ensures
            armed == (self@.final_save == Some(FinalSaveSlot { generation, operation: id })),
    {
        match &self.final_save {
            Some(slot) => slot.generation == generation && slot.operation == id,
            None => false,
        }
    }

    /// Disarms the final save of an operation.
    pub fn disarm_final_save(&mut self, id: OperationId, generation: u64)
        ensures
            final(self)@ == after_disarm(old(self)@, id, generation),
    {
        if self.is_armed(id, generation) && self.accepting {
            self.final_save = None;
        }
    }

    fn retire(&mut self, index: usize) -> (state: OperationState)
        requires
            index < old(self)@.active.len(),
        ensures
            state@ == old(self)@.active[index as int],
            final(self)@ == after_retire(old(self)@, index as int),
    {
        let ghost before = self.active@;
        let state = self.active.remove(index);
        assert(operation_models(self.active@) =~= operation_models(before).remove(index as int));
        if self.completed.len() >= self.config.completed_capacity() {
            self.completed.pop_front();
            assert(old(self)@.completed.len() > 0 ==> self.completed@
                =~= old(self)@.completed.drop_first());
        }
        self.completed.push_back(state.id());
        assert(self.completed@ =~= remembered(
            old(self)@.completed,
            old(self)@.config.completed_capacity,
            state@.id,
        ));
        state
    }

    /// Ends an operation. It comes back where it is retired.
    pub fn finish(&mut self, id: OperationId, outcome: Result<OperationResult, ServiceError>) -> (retired:
        Option<OperationState>)
        ensures
            retired_model(retired) == retired_by_finish(old(self)@, id, outcome),
            final(self)@ == after_finish(old(self)@, id, outcome),
    {
        let index: usize = match self.place(id) {
            None => return None,
            Some(index) => index,
        };
        let ghost before = self.active@;
        if !self.active[index].finish(outcome) {
            assert(operation_models(self.active@) =~= operation_models(before));
            return None;
        }
        assert(operation_models(self.active@) =~= operation_models(before).update(
            index as int,
            self.active@[index as int]@,
        ));
        let saves = match &self.final_save {
            Some(slot) => slot.operation == id,
            None => false,
        };
        if saves {
            self.final_save = None;
        }
        if self.active[index].awaits_cancel_notification() {
            return None;
        }
        Some(self.retire(index))
    }

    /// Notes that the cancellation of an operation was announced. The operation
    /// comes back where it is retired.
    pub fn acknowledge_cancel(&mut self, id: OperationId) -> (retired: Option<OperationState>)
        ensures
            retired_model(retired) == retired_by_acknowledge(old(self)@, id),
            final(self)@ == after_acknowledge(old(self)@, id),
    {
        let index: usize = match self.place(id) {
            None => return None,
            Some(index) => index,
        };
        let ghost before = self.active@;
        self.active[index].acknowledge_cancel_notification();
        assert(operation_models(self.active@) =~= operation_models(before).update(
            index as int,
            self.active@[index as int]@,
        ));
        if self.active[index].is_terminal() {
            Some(self.retire(index))
        } else {
            None
        }
    }

    fn final_save_for_lock(&self, close_service: bool) -> (id: Option<OperationId>)
        ensures
            id == lock_final_save(self@, close_service),
    {
        if close_service {
            return None;
        }
        match &self.final_save {
            None => None,
            Some(slot) => if slot.generation != self.generation {
                None
            } else {
                match self.place(slot.operation) {
                    None => None,
                    Some(index) => if self.active[index].is_running()
                        && !self.active[index].is_cancelled() {
                        Some(slot.operation)
                    } else {
                        None
                    },
                }
            },
        }
    }

    fn spares(&self, final_save: &Option<OperationId>, id: OperationId) -> (spared: bool)
        ensures
            spared == is_spared(self@.publications, *final_save, id),
    {
        is_operation(final_save, id) || contains(&self.publications, id)
    }

    /// Begins a lock with the root that the session gave up.
    pub fn start_lock(&mut self, control: Control, close_service: bool, root: Option<u64>)
        ensures
            final(self)@ == after_lock(old(self)@, control, close_service, root),
    {
        if close_service {
            self.closed = true;
            self.queue_open = false;
        }
        self.accepting = false;
        self.key_leases_open = false;
        let final_save = self.final_save_for_lock(close_service);
        let ghost before = self.active@;
        let ghost entered = *self;
        let mut index: usize = 0;
        while index < self.active.len()
            invariant
                index <= self.active@.len(),
                self.active@.len() == before.len(),
                before == entered.active@,
                self@ == (SchedulerModel { active: self@.active, ..entered@ }),
                forall|i: int|
                    0 <= i < index ==> (#[trigger] self.active@[i])@ == locked_operation(
                        entered@.publications,
                        final_save,
                        close_service,
                        before[i]@,
                    ),
                forall|i: int|
                    index <= i < before.len() ==> (#[trigger] self.active@[i])@ == before[i]@,
            decreases self.active@.len() - index,
        {
            let id = self.active[index].id();
            if !self.spares(&final_save, id) {
                self.active[index].mark_cancelled();
                if close_service {
                    self.active[index].finish(Err(ServiceError::Closed));
                }
            }
            index += 1;
        }
        assert(self@.active =~= locked_operations(entered@, final_save, close_service));
        assert(locked_operations(entered@, final_save, close_service) =~= locked_operations(
            old(self)@,
            final_save,
            close_service,
        ));
        if self.lock_job.is_none() {
            self.lock_job = Some(LockJob { generation: self.generation, root, final_save });
        }
        self.controls.request_global(control, self.generation);
    }

    /// Keeps a list of warnings for the presentation layer.
    pub fn push_warnings(&mut self, warnings: &Vec<SessionEvent>)
        ensures
            final(self)@ == (SchedulerModel {
                session_events: with_warnings(
                    old(self)@.session_events,
                    old(self)@.generation,
                    warnings@,
                ),
                ..old(self)@
            }),
    {
        let mut index: usize = 0;
        assert(warnings@.take(0) =~= Seq::<SessionEvent>::empty());
        while index < warnings.len()
            invariant
                index <= warnings@.len(),
                self@ == (SchedulerModel {
                    session_events: with_warnings(
                        old(self)@.session_events,
                        old(self)@.generation,
                        warnings@.take(index as int),
                    ),
                    ..old(self)@
                }),
            decreases warnings@.len() - index,
        {
            let ghost before = self.session_events@;
            if self.session_events.len() >= MAX_SESSION_EVENTS {
                self.session_events.pop_front();
                assert(self.session_events@ =~= before.drop_first());
            }
            self.session_events.push_back((self.generation, warnings[index]));
            proof {
                assert(warnings@.take(index + 1).drop_last() =~= warnings@.take(index as int));
                assert(self.session_events@ =~= with_event(
                    before,
                    self.generation,
                    warnings@[index as int],
                ));
            }
            index += 1;
        }
        assert(warnings@.take(index as int) =~= warnings@);
    }

    /// Takes the next session event of the current generation.
    pub fn pop_session_event(&mut self) -> (event: Option<SessionEvent>)
        ensures
            event == next_event(old(self)@.session_events, old(self)@.generation),
            final(self)@ == (SchedulerModel {
                session_events: after_next_event(
                    old(self)@.session_events,
                    old(self)@.generation,
                ),
                ..old(self)@
            }),
    {
        loop
            invariant
                next_event(self@.session_events, self@.generation) == next_event(
                    old(self)@.session_events,
                    old(self)@.generation,
                ),
                after_next_event(self@.session_events, self@.generation) == after_next_event(
                    old(self)@.session_events,
                    old(self)@.generation,
                ),
                self@ == (SchedulerModel { session_events: self@.session_events, ..old(self)@ }),
            decreases self@.session_events.len(),
        {
            let ghost before = self.session_events@;
            match self.session_events.pop_front() {
                None => return None,
                Some(event) => {
                    assert(self.session_events@ =~= before.drop_first());
                    if event.0 == self.generation {
                        return Some(event.1);
                    }
                },
            }
        }
    }

    /// Takes the lock of a generation that waits.
    pub fn take_lock_job(&mut self, generation: u64) -> (job: Option<LockJob>)
        ensures
            job == if old(self)@.lock_job is Some && old(self)@.lock_job->0.generation
                == generation {
                old(self)@.lock_job
            } else {
                None
            },
            final(self)@ == (SchedulerModel {
                lock_job: if job is Some {
                    None
                } else {
                    old(self)@.lock_job
                },
                ..old(self)@
            }),
    {
        let exact = match &self.lock_job {
            Some(job) => job.generation == generation,
            None => false,
        };
        if exact {
            self.lock_job.take()
        } else {
            None
        }
    }

    /// Tells everything but the final save to stop. The answer is whose leases
    /// are to be cancelled now.
    pub fn cancel_nonfinal(&mut self, final_save: Option<OperationId>) -> (stopped: Vec<OperationId>)
        ensures
            stopped@ == newly_stopped(old(self)@, final_save, old(self)@.active.len()),
            final(self)@ == after_stop(old(self)@, final_save),
    {
        let mut stopped: Vec<OperationId> = Vec::new();
        let ghost before = self.active@;
        let ghost entered = *self;
        let mut index: usize = 0;
        while index < self.active.len()
            invariant
                index <= self.active@.len(),
                self.active@.len() == before.len(),
                before == entered.active@,
                self@ == (SchedulerModel { active: self@.active, ..entered@ }),
                stopped@ == newly_stopped(entered@, final_save, index as nat),
                forall|i: int|
                    0 <= i < index ==> (#[trigger] self.active@[i])@ == stopped_operation(
                        entered@.publications,
                        final_save,
                        before[i]@,
                    ),
                forall|i: int|
                    index <= i < before.len() ==> (#[trigger] self.active@[i])@ == before[i]@,
            decreases self.active@.len() - index,
        {
            let id = self.active[index].id();
            assert(entered@.active[index as int] == before[index as int]@);
            if !self.spares(&final_save, id) {
                self.active[index].mark_cancelled();
                if self.active[index].mark_lease_cancellation_queued() {
                    stopped.push(id);
                }
            }
            index += 1;
        }
        assert(self@.active =~= after_stop(entered@, final_save).active);
        stopped
    }

    /// Whether a publication of a generation is on the way.
    pub fn publication_in_flight(&self, generation: u64) -> (publishing: bool)
        ensures
            publishing == publishes(self@, generation),
    {
        let mut index: usize = 0;
        while index < self.active.len()
            invariant
                index <= self.active@.len(),
                self@.active.len() == self.active@.len(),
                forall|i: int|
                    0 <= i < index ==> !(self@.publications.contains(
                        (#[trigger] self@.active[i]).id,
                    ) && self@.active[i].session_generation == Some(generation)),
            decreases self.active@.len() - index,
        {
            assert(self@.active[index as int] == self.active@[index as int]@);
            let own = match self.active[index].session_generation() {
                Some(own) => own == generation,
                None => false,
            };
            if own && contains(&self.publications, self.active[index].id()) {
                return true;
            }
            index += 1;
        }
        false
    }

    /// Looks at a safe boundary whether an operation may go on.
    pub fn safe_boundary(&mut self, id: OperationId) -> (answer: Result<(), ServiceError>)
        ensures
            answer == boundary_answer(old(self)@, id),
            final(self)@ == after_boundary(old(self)@, id),
    {
        let index: usize = match self.place(id) {
            None => return Err(ServiceError::Cancelled),
            Some(index) => index,
        };
        if self.active[index].is_durable() {
            return Ok(());
        }
        if self.active[index].is_cancelled() {
            return Err(ServiceError::Cancelled);
        }
        let saves = match &self.final_save {
            Some(slot) => slot.operation == id,
            None => false,
        };
        if self.accepting || saves {
            return Ok(());
        }
        let ghost before = self.active@;
        self.active[index].mark_cancelled();
        assert(operation_models(self.active@) =~= operation_models(before).update(
            index as int,
            self.active@[index as int]@,
        ));
        Err(ServiceError::Cancelled)
    }

    /// Authorizes an operation to publish what cannot be taken back.
    pub fn authorize_publication(&mut self, id: OperationId) -> (authorized: Result<
        u64,
        HostPortError,
    >)
        ensures
            authorized == publication_answer(old(self)@, id),
            final(self)@ == after_authorize(old(self)@, id),
    {
        let index: usize = match self.allows_lease(id) {
            None => return Err(HostPortError::Cancelled),
            Some(index) => index,
        };
        let own = match self.active[index].session_generation() {
            Some(own) => own == self.generation,
            None => false,
        };
        if !self.accepting || self.active[index].is_durable() || !own || contains(
            &self.publications,
            id,
        ) {
            return Err(HostPortError::Cancelled);
        }
        self.publications.push(id);
        Ok(self.generation)
    }

    /// Notes that a publication was done.
    pub fn finish_publication(&mut self, id: OperationId, published: bool)
        ensures
            final(self)@ == after_publication(old(self)@, id, published),
    {
        if published {
            if let Some(index) = self.place(id) {
                let ghost before = self.active@;
                self.active[index].mark_irrevocable();
                assert(operation_models(self.active@) =~= operation_models(before).update(
                    index as int,
                    self.active@[index as int]@,
                ));
            }
        }
        let ghost all = self.publications@;
        let ghost other = other_than(id);
        let ghost entered = *self;
        let mut kept: Vec<OperationId> = Vec::new();
        let mut index: usize = 0;
        assert(all.take(0).filter(other) =~= Seq::<OperationId>::empty()) by {
            reveal(Seq::filter);
        }
        while index < self.publications.len()
            invariant
                index <= self.publications@.len(),
                self.publications@ == all,
                kept@ == all.take(index as int).filter(other),
                other == other_than(id),
                *self == entered,
            decreases self.publications@.len() - index,
        {
            let own = self.publications[index];
            proof {
                reveal(Seq::filter);
                assert(all.take(index + 1).drop_last() =~= all.take(index as int));
            }
            if own != id {
                kept.push(own);
            }
            index += 1;
        }
        assert(all.take(index as int) =~= all);
        self.publications = kept;
    }

    /// Shows the state of the service.
    pub fn snapshot(&self, session_state: SessionState) -> (snapshot: ServiceSnapshot)
        ensures
            snapshot@ == snapshot_of(self@, session_state),
    {
        let mut queued: usize = 0;
        let mut running: usize = 0;
        let mut index: usize = 0;
        while index < self.active.len()
            invariant
                index <= self.active@.len(),
                self@.active.len() == self.active@.len(),
                queued + running <= index,
                queued == accepted_count(self@.active, index as nat),
                running == running_count(self@.active, index as nat),
            decreases self.active@.len() - index,
        {
            assert(self@.active[index as int] == self.active@[index as int]@);
            if self.active[index].is_accepted() {
                queued += 1;
            } else if self.active[index].is_running() {
                running += 1;
            }
            index += 1;
        }
        ServiceSnapshot::new(
            session_state,
            self.accepting,
            self.key_leases_open,
            queued,
            running,
            self.completed.len(),
            self.closed,
        )
    }

    /// Whether the service may be unlocked now.
    pub fn may_unlock(&self) -> (allowed: bool)
        ensures
            allowed == unlock_is_allowed(self@),
    {
        assert(self@.active.len() == self.active@.len());
        !self.closed && !self.unlock_in_progress && self.active.len() == 0
            && self.lock_job.is_none() && self.observer_in_flight == 0
    }

    /// Notes whether an unlock is under way.
    pub fn set_unlock_in_progress(&mut self, unlocking: bool)
        ensures
            final(self)@ == (SchedulerModel { unlock_in_progress: unlocking, ..old(self)@ }),
    {
        self.unlock_in_progress = unlocking;
    }

    /// Opens the service for an unlocked generation, unless something stopped it
    /// meanwhile.
    pub fn open_generation(&mut self, generation: u64, session_state: SessionState) -> (opened_now:
        bool)
        ensures
            opened_now == may_open(old(self)@, session_state),
            final(self)@ == if may_open(old(self)@, session_state) {
                opened(old(self)@, generation)
            } else {
                SchedulerModel { unlock_in_progress: false, ..old(self)@ }
            },
    {
        self.unlock_in_progress = false;
        assert(self@.active.len() == self.active@.len());
        if self.closed || session_state != SessionState::Unlocked || self.active.len() != 0
            || self.lock_job.is_some() {
            return false;
        }
        self.generation = generation;
        self.controls.reset_for_generation(generation);
        self.session_events = VecDeque::new();
        self.final_save = None;
        self.accepting = true;
        self.key_leases_open = true;
        true
    }

    /// Decides what the coordinator does next, with an operation that it holds
    /// already.
    pub fn coordinate(&mut self, held: Option<OperationId>) -> (step: CoordinatorStep)
        ensures
            step == coordinator_step(old(self)@, held),
            final(self)@ == after_coordinator_step(old(self)@, held),
    {
        if let Some(control) = self.controls.pop_current(self.generation) {
            if self.observer_in_flight < usize::MAX {
                self.observer_in_flight = self.observer_in_flight + 1;
            }
            return CoordinatorStep::Handle(control);
        }
        if self.closed {
            return CoordinatorStep::Close;
        }
        if self.observer_in_flight != 0 {
            return CoordinatorStep::Wait;
        }
        if let Some(id) = held {
            return CoordinatorStep::Dispatch(id);
        }
        match self.queue.try_pop() {
            Some(id) => CoordinatorStep::Dispatch(id),
            None => if self.queue_open {
                CoordinatorStep::Wait
            } else {
                CoordinatorStep::Stop
            },
        }
    }

    /// Takes what a closed service still accounts.
    pub fn take_active(&mut self) -> (states: Vec<OperationState>)
        ensures
            states@.map_values(|state: OperationState| state@) == old(self)@.active,
            final(self)@ == (SchedulerModel { active: Seq::empty(), ..old(self)@ }),
    {
        let mut states: Vec<OperationState> = Vec::new();
        std::mem::swap(&mut states, &mut self.active);
        assert(operation_models(self.active@) =~= Seq::empty());
        states
    }

    /// Takes the operation that waits longest in the queue.
    pub fn pop_queued(&mut self) -> (id: Option<OperationId>)
        ensures
            id == if old(self)@.queue.waiting.len() > 0 {
                Some(old(self)@.queue.waiting[0])
            } else {
                None
            },
            final(self)@ == if old(self)@.queue.waiting.len() > 0 {
                SchedulerModel {
                    queue: QueueModel {
                        waiting: old(self)@.queue.waiting.drop_first(),
                        ..old(self)@.queue
                    },
                    ..old(self)@
                }
            } else {
                old(self)@
            },
    {
        self.queue.try_pop()
    }

    /// Puts an operation that is not accounted into the queue. The answer is
    /// why it could not.
    pub fn enqueue_transition(&mut self, id: OperationId) -> (enqueued: Result<(), ServiceError>)
        ensures
            enqueued == if !old(self)@.queue_open {
                Err(ServiceError::Closed)
            } else if !queue::has_room(old(self)@.queue) {
                Err(ServiceError::Busy)
            } else {
                Ok(())
            },
            final(self)@ == if enqueued is Ok {
                SchedulerModel {
                    queue: QueueModel {
                        waiting: old(self)@.queue.waiting.push(id),
                        ..old(self)@.queue
                    },
                    ..old(self)@
                }
            } else {
                old(self)@
            },
    {
        if !self.queue_open {
            return Err(ServiceError::Closed);
        }
        if self.queue.try_push(id) {
            Ok(())
        } else {
            Err(ServiceError::Busy)
        }
    }

    /// Notes that a delivered control was observed.
    pub fn complete_control_observation(&mut self, observed: PendingControl)
        requires
            old(self)@.observer_in_flight > 0,
        ensures
            final(self)@ == after_observation(old(self)@, observed),
    {
        self.observer_in_flight = self.observer_in_flight - 1;
        self.controls.observed(observed);
    }

    /// Looks at the final save that a lock waits for.
    pub fn await_final_save(&mut self, id: OperationId, generation: u64, grace: Grace) -> (step:
        FinalSaveStep)
        ensures
            step == final_save_step(old(self)@, id, generation, grace),
            final(self)@ == after_final_save_step(old(self)@, id, generation, grace),
    {
        let index: usize = match self.place(id) {
            None => return FinalSaveStep::Over,
            Some(index) => index,
        };
        if self.is_armed(id, generation) && !self.active[index].is_terminal()
            && !self.active[index].is_cancelled() && grace == Grace::Running {
            return FinalSaveStep::Wait;
        }
        if !self.active[index].is_terminal() {
            let ghost before = self.active@;
            self.active[index].mark_cancelled();
            assert(operation_models(self.active@) =~= operation_models(before).update(
                index as int,
                self.active@[index as int]@,
            ));
        }
        FinalSaveStep::Over
    }
}

} // verus!
