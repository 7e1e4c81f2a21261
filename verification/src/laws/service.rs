//! Laws of the service: admission, locks, leases and publications.
use vstd::prelude::*;

use crate::command::OperationResult;
use crate::error::ServiceError;
use crate::event::OperationEvent;
use crate::operation;
use crate::operation::{Lifecycle, OperationId, OperationModel};
use crate::ports::HostPortError;
use crate::service;
use crate::service::mailbox;
use crate::service::mailbox::{MailboxModel, PendingControl};
use crate::service::runtime;
use crate::service::runtime::CoreModel;
use crate::service::scheduler;
use crate::service::scheduler::{Grace, SchedulerModel};
use crate::service::worker;
use crate::service::{ConfigModel, Control};
use crate::session::data;
use crate::session::data::SessionObservation;
use crate::session::errors::PortAnswer;
use crate::session::manager;
use crate::session::SessionEvent;
use crate::time::Duration;

verus! {

/// Whether two lists of operations hold the same identities in the same places.
spec fn same_ids(a: Seq<OperationModel>, b: Seq<OperationModel>) -> bool {
    a.len() == b.len() && forall|i: int|
        0 <= i < a.len() ==> (#[trigger] a[i]).id == (#[trigger] b[i]).id
}

proof fn lemma_same_ids(a: Seq<OperationModel>, b: Seq<OperationModel>)
    requires
        scheduler::ids_are_distinct(a),
        same_ids(a, b),
    ensures
        scheduler::ids_are_distinct(b),
{
    assert forall|i: int, j: int| 0 <= i < j < b.len() implies (#[trigger] b[i]).id != (
    #[trigger] b[j]).id by {
        assert(a[i].id == b[i].id && a[j].id == b[j].id);
        assert(a[i].id != a[j].id);
    }
}

proof fn lemma_remove_keeps_ids(active: Seq<OperationModel>, index: int)
    requires
        scheduler::ids_are_distinct(active),
        0 <= index < active.len(),
    ensures
        scheduler::ids_are_distinct(active.remove(index)),
{
    let rest = active.remove(index);
    assert forall|i: int, j: int| 0 <= i < j < rest.len() implies (#[trigger] rest[i]).id != (
    #[trigger] rest[j]).id by {
        let a = if i < index {
            i
        } else {
            i + 1
        };
        let b = if j < index {
            j
        } else {
            j + 1
        };
        assert(rest[i] == active[a] && rest[j] == active[b]);
        assert(active[a].id != active[b].id);
    }
}

/// An identity stands at its place, or nowhere.
pub proof fn lemma_place(active: Seq<OperationModel>, id: OperationId)
    ensures
        scheduler::place_of(active, id) matches Some(index) ==> scheduler::operation_at(
            active,
            id,
            index,
        ),
        scheduler::place_of(active, id) is None ==> forall|i: int|
            0 <= i < active.len() ==> (#[trigger] active[i]).id != id,
{
    if scheduler::place_of(active, id) is None {
        assert forall|i: int| 0 <= i < active.len() implies (#[trigger] active[i]).id != id by {
            if active[i].id == id {
                lemma_first_place(active, id, i);
            }
        }
    }
}

/// An identity that occurs has a first place.
proof fn lemma_first_place(active: Seq<OperationModel>, id: OperationId, index: int)
    requires
        0 <= index < active.len(),
        active[index].id == id,
    ensures
        scheduler::place_of(active, id) is Some,
    decreases index,
{
    if forall|i: int| 0 <= i < index ==> (#[trigger] active[i]).id != id {
        assert(scheduler::operation_at(active, id, index));
    } else {
        let earlier = choose|i: int| 0 <= i < index && (#[trigger] active[i]).id == id;
        lemma_first_place(active, id, earlier);
    }
}

/// A retirement keeps the scheduler well formed.
pub proof fn lemma_retire_keeps_wf(scheduler: SchedulerModel, index: int)
    requires
        scheduler::scheduler_wf(scheduler),
        0 <= index < scheduler.active.len(),
    ensures
        scheduler::scheduler_wf(scheduler::after_retire(scheduler, index)),
{
    lemma_remove_keeps_ids(scheduler.active, index);
}

/// A scheduler that was just made is well formed, and the admission of an
/// operation under a fresh identity keeps it so.
pub proof fn law_admission_keeps_the_scheduler_invariant(
    config: ConfigModel,
    has_session: bool,
    scheduler: SchedulerModel,
    generation: u64,
    state: OperationModel,
)
    requires
        scheduler::scheduler_wf(scheduler),
    ensures
        service::config_is_valid(config) ==> scheduler::scheduler_wf(
            scheduler::new_scheduler(config, has_session),
        ),
        scheduler::readmission_answer(scheduler, generation) is Ok && scheduler::place_of(
            scheduler.active,
            state.id,
        ) is None ==> scheduler::scheduler_wf(scheduler::after_insert(scheduler, state)),
{
    if scheduler::readmission_answer(scheduler, generation) is Ok && scheduler::place_of(
        scheduler.active,
        state.id,
    ) is None {
        lemma_place(scheduler.active, state.id);
        let after = scheduler::after_insert(scheduler, state);
        assert forall|i: int, j: int| 0 <= i < j < after.active.len() implies (
        #[trigger] after.active[i]).id != (#[trigger] after.active[j]).id by {
            if j < scheduler.active.len() {
                assert(scheduler.active[i].id != scheduler.active[j].id);
            } else {
                assert(scheduler.active[i].id != state.id);
            }
        }
    }
}

proof fn lemma_update_keeps_wf(scheduler: SchedulerModel, id: OperationId, state: OperationModel)
    requires
        scheduler::scheduler_wf(scheduler),
        scheduler::place_of(scheduler.active, id) is Some,
        state.id == id,
    ensures
        scheduler::scheduler_wf(
            worker::with_operation(
                scheduler,
                scheduler::place_of(scheduler.active, id)->0,
                state,
            ),
        ),
{
    lemma_place(scheduler.active, id);
    let index = scheduler::place_of(scheduler.active, id)->0;
    lemma_same_ids(scheduler.active, scheduler.active.update(index, state));
}

/// A request to stop one operation, and what concerns the final save, keep the
/// scheduler well formed.
pub proof fn law_requests_keep_the_scheduler_invariant(
    scheduler: SchedulerModel,
    id: OperationId,
    generation: u64,
    grace: Grace,
)
    requires
        scheduler::scheduler_wf(scheduler),
    ensures
        scheduler::scheduler_wf(scheduler::after_cancel(scheduler, id)),
        scheduler::scheduler_wf(scheduler::after_arm(scheduler, id)),
        scheduler::scheduler_wf(scheduler::after_disarm(scheduler, id, generation)),
        scheduler::scheduler_wf(
            scheduler::after_final_save_step(scheduler, id, generation, grace),
        ),
        scheduler::scheduler_wf(scheduler::after_authorize(scheduler, id)),
{
    let observed = PendingControl {
        control: Control::Cancel(id),
        generation: scheduler.generation,
        trusted_activity: false,
    };
    mailbox::lemma_mailbox_wf(
        scheduler.controls,
        Control::Cancel(id),
        scheduler.generation,
        observed,
    );
    lemma_place(scheduler.active, id);
    if let Some(index) = scheduler::place_of(scheduler.active, id) {
        let cancelled = operation::after_cancel(scheduler.active[index]);
        lemma_update_keeps_wf(scheduler, id, cancelled);
        lemma_update_keeps_wf(
            scheduler,
            id,
            OperationModel { cancel_notification_pending: true, ..cancelled },
        );
    }
}

/// The end of one operation keeps the scheduler well formed.
pub proof fn law_ends_keep_the_scheduler_invariant(
    scheduler: SchedulerModel,
    id: OperationId,
    outcome: Result<OperationResult, ServiceError>,
    published: bool,
)
    requires
        scheduler::scheduler_wf(scheduler),
    ensures
        scheduler::scheduler_wf(scheduler::after_finish(scheduler, id, outcome)),
        scheduler::scheduler_wf(scheduler::after_acknowledge(scheduler, id)),
        scheduler::scheduler_wf(scheduler::after_publication(scheduler, id, published)),
{
    lemma_place(scheduler.active, id);
    if let Some(index) = scheduler::place_of(scheduler.active, id) {
        let state = scheduler.active[index];
        lemma_update_keeps_wf(scheduler, id, operation::after_finish(state, outcome));
        lemma_update_keeps_wf(scheduler, id, scheduler::acknowledged(state));
        lemma_update_keeps_wf(scheduler, id, OperationModel { irrevocable: true, ..state });
        let ended = SchedulerModel {
            final_save: if scheduler.final_save is Some && scheduler.final_save->0.operation == id {
                None
            } else {
                scheduler.final_save
            },
            ..worker::with_operation(scheduler, index, operation::after_finish(state, outcome))
        };
        lemma_retire_keeps_wf(ended, index);
        lemma_retire_keeps_wf(
            worker::with_operation(scheduler, index, scheduler::acknowledged(state)),
            index,
        );
    }
}

/// What an operation does while it is carried out keeps the scheduler well
/// formed.
pub proof fn law_work_keeps_the_scheduler_invariant(
    scheduler: SchedulerModel,
    id: OperationId,
    event: OperationEvent,
    waited: bool,
)
    requires
        scheduler::scheduler_wf(scheduler),
    ensures
        scheduler::scheduler_wf(scheduler::after_boundary(scheduler, id)),
        scheduler::scheduler_wf(worker::after_publish(scheduler, id, event)),
        scheduler::scheduler_wf(worker::after_work_step(scheduler, id)),
        scheduler::scheduler_wf(worker::after_emit(scheduler, id, event, waited)),
{
    lemma_boundary_keeps_wf(scheduler, id);
    lemma_publish_keeps_wf(scheduler, id, event);
    if let Some(index) = scheduler::place_of(scheduler.active, id) {
        lemma_place(scheduler.active, id);
        lemma_update_keeps_wf(
            scheduler,
            id,
            OperationModel { lifecycle: Lifecycle::Running, ..scheduler.active[index] },
        );
    }
    let running = worker::taken(scheduler, id);
    lemma_boundary_keeps_wf(running, id);
    lemma_publish_keeps_wf(running, id, OperationEvent::Started);
    let looked = if waited {
        scheduler
    } else {
        scheduler::after_boundary(scheduler, id)
    };
    lemma_publish_keeps_wf(looked, id, event);
    lemma_boundary_keeps_wf(worker::after_publish(looked, id, event), id);
}

proof fn lemma_boundary_keeps_wf(scheduler: SchedulerModel, id: OperationId)
    requires
        scheduler::scheduler_wf(scheduler),
    ensures
        scheduler::scheduler_wf(scheduler::after_boundary(scheduler, id)),
{
    lemma_place(scheduler.active, id);
    if let Some(index) = scheduler::place_of(scheduler.active, id) {
        lemma_same_ids(
            scheduler.active,
            scheduler.active.update(index, operation::after_cancel(scheduler.active[index])),
        );
    }
}

proof fn lemma_publish_keeps_wf(scheduler: SchedulerModel, id: OperationId, event: OperationEvent)
    requires
        scheduler::scheduler_wf(scheduler),
    ensures
        scheduler::scheduler_wf(worker::after_publish(scheduler, id, event)),
{
    lemma_place(scheduler.active, id);
    if let Some(index) = scheduler::place_of(scheduler.active, id) {
        lemma_same_ids(
            scheduler.active,
            scheduler.active.update(
                index,
                operation::after_publish(scheduler.active[index], event),
            ),
        );
    }
}

/// What is done to all operations at once, and to the controls and the session
/// events, keeps the scheduler well formed.
pub proof fn law_locks_keep_the_scheduler_invariant(
    scheduler: SchedulerModel,
    control: Control,
    close_service: bool,
    root: Option<u64>,
    final_save: Option<OperationId>,
    observed: PendingControl,
    held: Option<OperationId>,
    generation: u64,
    warnings: Seq<SessionEvent>,
)
    requires
        scheduler::scheduler_wf(scheduler),
    ensures
        scheduler::scheduler_wf(scheduler::after_lock(scheduler, control, close_service, root)),
        scheduler::scheduler_wf(scheduler::after_stop(scheduler, final_save)),
        scheduler::scheduler_wf(scheduler::after_coordinator_step(scheduler, held)),
        scheduler::scheduler_wf(scheduler::after_observation(scheduler, observed)),
        scheduler::scheduler_wf(scheduler::after_activity(scheduler)),
        scheduler::scheduler_wf(runtime::after_local_control(scheduler, control)),
        scheduler::scheduler_wf(
            SchedulerModel {
                session_events: scheduler::with_warnings(
                    scheduler.session_events,
                    generation,
                    warnings,
                ),
                ..scheduler
            },
        ),
        !scheduler.closed ==> scheduler::scheduler_wf(scheduler::opened(scheduler, generation)),
{
    mailbox::lemma_mailbox_wf(scheduler.controls, control, scheduler.generation, observed);
    mailbox::lemma_mailbox_wf(scheduler.controls, control, generation, observed);
    let spared = scheduler::lock_final_save(scheduler, close_service);
    lemma_same_ids(
        scheduler.active,
        scheduler::locked_operations(scheduler, spared, close_service),
    );
    lemma_same_ids(scheduler.active, scheduler::after_stop(scheduler, final_save).active);
    lemma_warnings_are_bounded(scheduler.session_events, generation, warnings);
    scheduler.session_events.lemma_filter_len(
        |event: (u64, SessionEvent)| !scheduler::warns_of_inactivity(event.1),
    );
    if let Control::Cancel(id) = control {
        law_requests_keep_the_scheduler_invariant(scheduler, id, generation, Grace::Passed);
    }
    let plain = PendingControl {
        control,
        generation: scheduler.generation,
        trusted_activity: false,
    };
    mailbox::lemma_mailbox_wf(
        MailboxModel {
            untrusted_activity_pending: Some(scheduler.generation),
            ..scheduler.controls
        },
        Control::UserActivity,
        scheduler.generation,
        plain,
    );
}

/// A lock keeps the scheduler well formed.
pub proof fn lemma_lock_keeps_wf(
    scheduler: SchedulerModel,
    control: Control,
    close_service: bool,
    root: Option<u64>,
)
    requires
        scheduler::scheduler_wf(scheduler),
    ensures
        scheduler::scheduler_wf(scheduler::after_lock(scheduler, control, close_service, root)),
{
    let observed = PendingControl {
        control,
        generation: scheduler.generation,
        trusted_activity: false,
    };
    mailbox::lemma_mailbox_wf(scheduler.controls, control, scheduler.generation, observed);
    lemma_same_ids(
        scheduler.active,
        scheduler::locked_operations(
            scheduler,
            scheduler::lock_final_save(scheduler, close_service),
            close_service,
        ),
    );
}

/// The opening of a service that is not closed keeps the scheduler well formed.
pub proof fn lemma_open_keeps_wf(scheduler: SchedulerModel, generation: u64)
    requires
        scheduler::scheduler_wf(scheduler),
        !scheduler.closed,
    ensures
        scheduler::scheduler_wf(scheduler::opened(scheduler, generation)),
{
    let observed = PendingControl {
        control: Control::LockNow,
        generation,
        trusted_activity: false,
    };
    mailbox::lemma_mailbox_wf(scheduler.controls, Control::LockNow, generation, observed);
}

proof fn lemma_warnings_are_bounded(
    events: Seq<(u64, SessionEvent)>,
    generation: u64,
    warnings: Seq<SessionEvent>,
)
    requires
        events.len() <= scheduler::MAX_SESSION_EVENTS,
    ensures
        scheduler::with_warnings(events, generation, warnings).len()
            <= scheduler::MAX_SESSION_EVENTS,
    decreases warnings.len(),
{
    if warnings.len() > 0 {
        lemma_warnings_are_bounded(events, generation, warnings.drop_last());
    }
}

/// A lock closes the service at once: nothing is admitted, no lease is handed
/// out, nothing new is published, and no final save is armed.
pub proof fn law_a_lock_closes_the_service_at_once(
    core_state: CoreModel,
    control: Control,
    close_service: bool,
    id: OperationId,
    generation: u64,
)
    ensures
        ({
            let locked = runtime::after_global_lock(core_state, control, close_service);
            &&& scheduler::admission_answer(locked.scheduler) is Err
            &&& scheduler::readmission_answer(locked.scheduler, generation) is Err
            &&& scheduler::lease_answer(locked.scheduler, id) == Err::<u64, ServiceError>(
                ServiceError::Locked,
            )
            &&& worker::begin_lease_answer(locked, id) is Err
            &&& scheduler::publication_answer(locked.scheduler, id) == Err::<u64, HostPortError>(
                HostPortError::Cancelled,
            )
            &&& scheduler::arm_answer(locked.scheduler, id) is Err
            &&& locked.scheduler.lock_job is Some
        }),
{
}

/// A lock leaves alone what finishes its save and what is being published, and
/// asks everything else to stop. A lock that closes the service spares no save.
pub proof fn law_a_lock_spares_only_the_save_and_publications(
    scheduler: SchedulerModel,
    control: Control,
    close_service: bool,
    root: Option<u64>,
    index: int,
)
    requires
        0 <= index < scheduler.active.len(),
    ensures
        ({
            let before = scheduler.active[index];
            let after = scheduler::after_lock(scheduler, control, close_service, root).active[index];
            &&& after.id == before.id
            &&& scheduler.publications.contains(before.id) ==> after == before
            &&& after != before || before.cancelled || scheduler.publications.contains(before.id)
                || scheduler.final_save is Some && scheduler.final_save->0.operation == before.id
                && !close_service
            &&& !after.cancelled ==> scheduler.publications.contains(before.id)
                || scheduler::lock_final_save(scheduler, close_service) == Some(before.id)
        }),
        close_service ==> scheduler::lock_final_save(scheduler, close_service) is None,
{
    let spared = scheduler::lock_final_save(scheduler, close_service);
    let before = scheduler.active[index];
    let after = scheduler::after_lock(scheduler, control, close_service, root).active[index];
    assert(after == scheduler::locked_operation(
        scheduler.publications,
        spared,
        close_service,
        before,
    ));
}

/// At most one operation is armed for the final save: while one is, no other can
/// be, and a lock lets only that one go on.
pub proof fn law_there_is_one_final_save(scheduler: SchedulerModel, id: OperationId, other: OperationId)
    ensures
        scheduler.final_save is Some ==> scheduler::arm_answer(scheduler, id) is Err
            && scheduler::after_arm(scheduler, id) == scheduler,
        scheduler::arm_answer(scheduler, id) is Ok ==> scheduler::arm_answer(
            scheduler::after_arm(scheduler, id),
            other,
        ) is Err,
        scheduler::lock_final_save(scheduler, false) is Some ==> scheduler.final_save is Some
            && scheduler::lock_final_save(scheduler, false)
            == Some(scheduler.final_save->0.operation),
{
}

/// A closed service stays closed, and takes nothing in.
pub proof fn law_a_closed_service_stays_closed(
    core_state: CoreModel,
    control: Control,
    generation: u64,
    sample: Option<Duration>,
    trusted: Result<Duration, ServiceError>,
    observed: Result<SessionObservation, ServiceError>,
    unlocked: Result<u64, ServiceError>,
    state: OperationModel,
)
    requires
        runtime::core_wf(core_state),
        core_state.scheduler.closed,
    ensures
        scheduler::admission_answer(core_state.scheduler) == Err::<u64, ServiceError>(
            ServiceError::Closed,
        ),
        runtime::admit_answer(core_state, generation, sample) == Err::<(), ServiceError>(
            ServiceError::Closed,
        ),
        runtime::after_admit(core_state, generation, sample, state) == core_state,
        runtime::after_control(core_state, control).scheduler.closed,
        !service::is_global(control) ==> runtime::control_answer(core_state, control) == Err::<
            (),
            ServiceError,
        >(ServiceError::Closed),
        runtime::after_trusted_activity(core_state, trusted).scheduler.closed,
        runtime::after_deadline(core_state, observed).scheduler.closed,
        runtime::after_latch(core_state).scheduler.closed,
        runtime::after_unlock_job(core_state) == core_state,
        runtime::unlock_job_answer(core_state) is Err,
        unlocked is Ok ==> runtime::unlock_end_answer(core_state, unlocked) == Err::<
            u64,
            ServiceError,
        >(ServiceError::Cancelled),
        runtime::after_unlock_end(core_state, unlocked).scheduler.closed,
{
}

/// Whether a service with a session hands out leases only for the generation
/// that its session has unlocked.
pub open spec fn leases_follow_the_session(core_state: CoreModel) -> bool {
    core_state.session is Some && (core_state.scheduler.key_leases_open
        || core_state.scheduler.accepting) ==> manager::root_is_usable(
        core_state.session->0.data,
        core_state.scheduler.generation,
    )
}

/// A service with a session takes work and hands out leases only while its session
/// is unlocked, and only for the unlocked generation. An unlock job ends with the
/// generation that its session has.
pub proof fn law_leases_follow_the_session(
    core_state: CoreModel,
    control: Control,
    close_service: bool,
    generation: u64,
    sample: Option<Duration>,
    trusted: Result<Duration, ServiceError>,
    observed: Result<SessionObservation, ServiceError>,
    unlocked: Result<u64, ServiceError>,
    state: OperationModel,
)
    requires
        runtime::core_wf(core_state),
        leases_follow_the_session(core_state),
        unlocked is Ok && core_state.session is Some ==> unlocked->Ok_0
            == core_state.session->0.data.epoch,
    ensures
        leases_follow_the_session(
            runtime::after_global_lock(core_state, control, close_service),
        ),
        leases_follow_the_session(runtime::after_latch(core_state)),
        leases_follow_the_session(runtime::after_admit(core_state, generation, sample, state)),
        leases_follow_the_session(runtime::after_control(core_state, control)),
        leases_follow_the_session(runtime::after_trusted_activity(core_state, trusted)),
        leases_follow_the_session(runtime::after_deadline(core_state, observed)),
        leases_follow_the_session(runtime::after_unlock_job(core_state)),
        leases_follow_the_session(runtime::after_unlock_end(core_state, unlocked)),
        leases_follow_the_session(runtime::after_retry(core_state)),
{
}

/// A service that was just made with a locked session takes no work.
pub proof fn law_a_new_service_is_locked(
    name: u64,
    config: ConfigModel,
    session: manager::ManagerModel,
)
    requires
        !(session.data.state is Unlocked),
    ensures
        leases_follow_the_session(runtime::new_core(name, config, Some(session))),
        scheduler::admission_answer(runtime::new_core(name, config, Some(session)).scheduler)
            == Err::<u64, ServiceError>(ServiceError::Locked),
{
}

/// The controls that the coordinator handles belong to the current generation.
/// Those of earlier ones are dropped.
pub proof fn law_stale_controls_are_dropped(mailbox: MailboxModel, generation: u64)
    ensures
        mailbox::current_control(mailbox, generation) matches Some(control) ==> control.generation
            == generation,
    decreases mailbox::backlog(mailbox),
{
    if let Some(next) = mailbox::next_control(mailbox) {
        if next.generation != generation {
            law_stale_controls_are_dropped(mailbox::after_next(mailbox), generation);
        }
    }
}

/// A global control is handled before everything else, however full the mailbox
/// is.
pub proof fn law_a_global_control_comes_first(
    mailbox: MailboxModel,
    control: Control,
    generation: u64,
)
    requires
        mailbox.global_notified != Some(generation),
    ensures
        mailbox::current_control(mailbox::after_global(mailbox, control, generation), generation)
            == Some(PendingControl { control, generation, trusted_activity: false }),
{
}

/// Trusted activity is coalesced: however often it is noted, the coordinator sees
/// it once until it was observed.
pub proof fn law_trusted_activity_is_coalesced(mailbox: MailboxModel, generation: u64)
    ensures
        mailbox::after_trusted(mailbox::after_trusted(mailbox, generation), generation)
            == mailbox::after_trusted(mailbox, generation),
        mailbox::trusted_activity(mailbox) is Some && mailbox.global_control is None
            ==> mailbox::trusted_activity(mailbox::after_next(mailbox)) is None,
{
}

/// An operation that is refused uses up no identity and changes no accounted
/// operation.
pub proof fn law_a_refused_operation_uses_no_identity(
    core_state: CoreModel,
    generation: u64,
    sample: Option<Duration>,
    state: OperationModel,
)
    ensures
        runtime::admit_answer(core_state, generation, sample) is Err ==> runtime::after_admit(
            core_state,
            generation,
            sample,
            state,
        ).identity == core_state.identity,
        scheduler::readmission_answer(core_state.scheduler, generation) is Err
            ==> runtime::after_admit(core_state, generation, sample, state) == core_state,
        runtime::admit_answer(core_state, generation, sample) is Ok && core_state.identity.next
            < u64::MAX ==> runtime::after_admit(
            core_state,
            generation,
            sample,
            state,
        ).identity.next == core_state.identity.next + 1,
{
}

/// An operation that was admitted before a lock is never admitted after it: the
/// generation that it saw is over.
pub proof fn law_admission_is_bound_to_its_generation(
    scheduler: SchedulerModel,
    generation: u64,
    next: u64,
)
    requires
        generation != next,
    ensures
        scheduler::readmission_answer(scheduler::opened(scheduler, next), generation) is Err,
{
}

/// An operation that was cancelled cannot go on at a safe boundary, unless it had
/// an effect that cannot be taken back.
pub proof fn law_a_cancelled_operation_stops_at_the_boundary(
    scheduler: SchedulerModel,
    id: OperationId,
    index: int,
)
    requires
        scheduler::place_of(scheduler.active, id) == Some(index),
    ensures
        scheduler.active[index].cancelled && !scheduler.active[index].irrevocable
            ==> scheduler::boundary_answer(scheduler, id) == Err::<(), ServiceError>(
            ServiceError::Cancelled,
        ),
        scheduler.active[index].irrevocable ==> scheduler::boundary_answer(scheduler, id) == Ok::<
            (),
            ServiceError,
        >(()),
{
}

/// A publication survives a lock: the operation stays as it is, stays among the
/// publications, and the lock waits for it.
pub proof fn law_a_publication_survives_a_lock(
    scheduler: SchedulerModel,
    id: OperationId,
    control: Control,
    close_service: bool,
    root: Option<u64>,
)
    requires
        scheduler::publication_answer(scheduler, id) is Ok,
    ensures
        ({
            let authorized = scheduler::after_authorize(scheduler, id);
            let locked = scheduler::after_lock(authorized, control, close_service, root);
            &&& scheduler::publishes(locked, scheduler.generation)
            &&& locked.publications.contains(id)
            &&& exists|index: int|
                0 <= index < locked.active.len() && #[trigger] locked.active[index]
                    == scheduler.active[index] && locked.active[index].id == id
        }),
{
    lemma_place(scheduler.active, id);
    let index = scheduler::place_of(scheduler.active, id)->0;
    let authorized = scheduler::after_authorize(scheduler, id);
    let locked = scheduler::after_lock(authorized, control, close_service, root);
    assert(authorized.publications.last() == id);
    assert(authorized.publications.contains(id));
    assert(locked.active[index] == scheduler.active[index]);
    assert(locked.active[index].id == id);
}

/// A publication that was done is not in flight any more.
pub proof fn law_a_publication_ends(scheduler: SchedulerModel, id: OperationId, published: bool)
    ensures
        !scheduler::after_publication(scheduler, id, published).publications.contains(id),
{
    let rest = scheduler::without_publication(scheduler.publications, id);
    assert(!rest.contains(id)) by {
        if rest.contains(id) {
            let i = choose|i: int| 0 <= i < rest.len() && rest[i] == id;
            scheduler.publications.lemma_filter_contains_rev(scheduler::other_than(id), id);
            assert(scheduler::other_than(id)(rest[i])) by {
                lemma_filter_member(scheduler.publications, scheduler::other_than(id), i);
            }
        }
    }
}

proof fn lemma_filter_member(all: Seq<OperationId>, keep: spec_fn(OperationId) -> bool, index: int)
    requires
        0 <= index < all.filter(keep).len(),
    ensures
        keep(all.filter(keep)[index]),
    decreases all.len(),
{
    reveal(Seq::filter);
    if all.len() > 0 {
        if index < all.drop_last().filter(keep).len() {
            lemma_filter_member(all.drop_last(), keep, index);
        }
    }
}

/// The outcome of an operation is a result only where the executor returned one and
/// the operation could still go on.
pub proof fn law_a_result_counts_only_for_a_live_operation(
    scheduler: SchedulerModel,
    id: OperationId,
    answer: PortAnswer<Result<OperationResult, ServiceError>>,
)
    ensures
        worker::work_outcome(scheduler, id, answer) is Ok ==> answer is Returned && answer->Returned_0
            is Ok && scheduler::boundary_answer(scheduler, id) is Ok
            && worker::work_outcome(scheduler, id, answer) == answer->Returned_0,
        answer is Panicked ==> worker::work_outcome(scheduler, id, answer) == Err::<
            OperationResult,
            ServiceError,
        >(ServiceError::WorkerPanicked),
{
}

/// An operation ends once: what it is given later changes neither it nor the
/// scheduler.
pub proof fn law_an_operation_ends_once(
    scheduler: SchedulerModel,
    id: OperationId,
    index: int,
    outcome: Result<OperationResult, ServiceError>,
)
    requires
        scheduler::place_of(scheduler.active, id) == Some(index),
        scheduler.active[index].lifecycle is Terminal,
    ensures
        scheduler::after_finish(scheduler, id, outcome) == scheduler,
        scheduler::retired_by_finish(scheduler, id, outcome) is None,
{
}

/// The completed operations that are remembered are bounded, and the latest one is
/// among them.
pub proof fn law_completed_operations_are_bounded(
    completed: Seq<OperationId>,
    capacity: usize,
    id: OperationId,
)
    requires
        completed.len() <= capacity,
        capacity > 0,
    ensures
        scheduler::remembered(completed, capacity, id).len() <= capacity,
        scheduler::remembered(completed, capacity, id).last() == id,
{
}

/// Session events of an earlier generation are never shown.
pub proof fn law_session_events_belong_to_the_generation(
    events: Seq<(u64, SessionEvent)>,
    generation: u64,
    event: SessionEvent,
)
    requires
        scheduler::next_event(events, generation) == Some(event),
    ensures
        events.contains((generation, event)),
    decreases events.len(),
{
    if events[0].0 == generation {
        assert(events[0] == (generation, event));
    } else {
        law_session_events_belong_to_the_generation(events.drop_first(), generation, event);
        let i = choose|i: int|
            0 <= i < events.drop_first().len() && events.drop_first()[i] == (generation, event);
        assert(events[i + 1] == (generation, event));
    }
}

/// A lock job of a generation is taken up once.
pub proof fn law_a_lock_is_taken_up_once(scheduler: SchedulerModel, generation: u64)
    ensures
        crate::service::locking::waiting_job(scheduler, generation) matches Some(job)
            ==> crate::service::locking::waiting_job(
            crate::service::locking::after_take_up(scheduler, job),
            generation,
        ) is None,
{
}

} // verus!
