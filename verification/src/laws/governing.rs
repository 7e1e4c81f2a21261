//! Laws of what governs the service: controls, locks, deadlines, activity and unlocks.
use vstd::prelude::*;

use crate::error::ServiceError;
use crate::laws::carrying;
use crate::laws::terms;
use crate::operation::{OperationId, OperationModel};
use crate::service::identity::IdentityModel;
use crate::service::mailbox;
use crate::service::mailbox::{MailboxModel, PendingControl};
use crate::service::queue::QueueModel;
use crate::service::runtime;
use crate::service::runtime::CoreModel;
use crate::service::scheduler;
use crate::service::scheduler::{CoordinatorStep, SchedulerModel};
use crate::service::transitions::TransitionKind;
use crate::service::worker;
use crate::service::worker::ControlStep;
use crate::service::Control;
use crate::session::data;
use crate::session::data::SessionObservation;
use crate::session::manager::ManagerModel;
use crate::session::SessionEvent;
use crate::time::Duration;

verus! {

/// An operation is spared by a lock: it is being published; or the service is not
/// closed by it, and the operation runs uncancelled and is armed for the final save of
/// the current generation.
pub open spec fn is_spared(scheduler: SchedulerModel, index: int, close_service: bool) -> bool {
    let state = scheduler.active[index];
    ||| scheduler.publications.contains(state.id)
    ||| is_last_save(scheduler, index, close_service)
}

/// An operation is the one that a lock lets save.
pub open spec fn is_last_save(scheduler: SchedulerModel, index: int, close_service: bool) -> bool {
    let state = scheduler.active[index];
    &&& !close_service
    &&& scheduler.final_save is Some
    &&& scheduler.final_save->0.operation == state.id
    &&& scheduler.final_save->0.generation == scheduler.generation
    &&& state.lifecycle is Running
    &&& !state.cancelled
}

/// A service was locked, and nothing more: it accepts no operations and no leases, its
/// lock waits to be carried out, its session is what a lock makes of it, and it is
/// closed and its queue is open exactly as before.
pub open spec fn is_locked_from(before: CoreModel, after: CoreModel) -> bool {
    &&& !after.scheduler.accepting && !after.scheduler.key_leases_open
    &&& after.scheduler.lock_job is Some
    &&& after.scheduler.closed == before.scheduler.closed
    &&& after.scheduler.queue_open == before.scheduler.queue_open
    &&& after.scheduler.generation == before.scheduler.generation
    &&& before.session is None <==> after.session is None
    &&& before.session is Some ==> after.session->0.data == data::after_begin_lock(
        before.session->0.data,
    )
    &&& before.scheduler.controls.global_notified != Some(before.scheduler.generation)
        ==> after.scheduler.controls.global_control is Some
        && after.scheduler.controls.global_control->0.generation == before.scheduler.generation
}

/// A lock closes the service to operations and leases at once. What it does not spare
/// is cancelled, and where it closes the service it also ends as closed; what it spares
/// stays as it is. The lock of the generation waits to be carried out, with the root
/// that it takes from the session, unless one waits already.
pub proof fn law_a_lock_stops_what_it_does_not_spare(
    core_state: CoreModel,
    control: Control,
    close_service: bool,
    index: int,
)
    requires
        0 <= index < core_state.scheduler.active.len(),
        forall|i: int, j: int|
            0 <= i < j < core_state.scheduler.active.len() ==> (
            #[trigger] core_state.scheduler.active[i]).id != (
            #[trigger] core_state.scheduler.active[j]).id,
    ensures
        ({
            let before = core_state.scheduler;
            let after = runtime::after_global_lock(core_state, control, close_service).scheduler;
            let state = before.active[index];
            let locked = after.active[index];
            &&& after.active.len() == before.active.len()
            &&& is_spared(before, index, close_service) ==> locked == state
            &&& !is_spared(before, index, close_service) ==> {
                &&& locked.cancelled && locked.repository_cancelled
                &&& !close_service || state.lifecycle is Terminal ==> locked == (OperationModel {
                    cancelled: true,
                    repository_cancelled: true,
                    ..state
                })
                &&& close_service && !(state.lifecycle is Terminal) ==> locked.lifecycle is Terminal
                    && locked.result is Some && locked.result->0 is Err && locked.result->0->Err_0
                    == ServiceError::Closed
            }
            &&& is_last_save(before, index, close_service) ==> after.lock_job is Some && (
            before.lock_job is None ==> after.lock_job->0.final_save == Some(state.id))
        }),
{
    let before = core_state.scheduler;
    let state = before.active[index];
    let root = runtime::locked_root(core_state.session);
    let after = scheduler::after_lock(before, control, close_service, root);
    let save = scheduler::lock_final_save(before, close_service);
    assert(after.active[index] == scheduler::locked_operation(
        before.publications,
        save,
        close_service,
        state,
    ));
    assert(terms::stands_at(before.active, state.id, index));
    terms::lemma_found(before.active, state.id, index);
    if save == Some(state.id) {
        assert(is_last_save(before, index, close_service));
    }
}

/// Beside the operations, a lock changes what is accepted, what waits to be told and
/// what is closed, and nothing else of the scheduler; of the session, what a lock of
/// the session changes; and every preparation of a transition is cancelled.
pub proof fn law_a_lock_closes_the_service(
    core_state: CoreModel,
    control: Control,
    close_service: bool,
)
    ensures
        ({
            let before = core_state.scheduler;
            let locked = runtime::after_global_lock(core_state, control, close_service);
            let after = locked.scheduler;
            let root = match core_state.session {
                Some(session) => data::lock_takes(session.data),
                None => None,
            };
            &&& !after.accepting && !after.key_leases_open
            &&& after.closed == (before.closed || close_service)
            &&& after.queue_open == (before.queue_open && !close_service)
            &&& after.lock_job is Some
            &&& before.lock_job is Some ==> after.lock_job == before.lock_job
            &&& before.lock_job is None ==> after.lock_job->0.generation == before.generation
                && after.lock_job->0.root == root
            &&& close_service && before.lock_job is None ==> after.lock_job->0.final_save is None
            &&& before.controls.global_notified == Some(before.generation) ==> after.controls
                == before.controls
            &&& before.controls.global_notified != Some(before.generation) ==> after.controls == (
            MailboxModel {
                global_notified: Some(before.generation),
                global_control: Some(
                    PendingControl {
                        control,
                        generation: before.generation,
                        trusted_activity: false,
                    },
                ),
                ..before.controls
            })
            &&& after == (SchedulerModel {
                accepting: false,
                key_leases_open: false,
                closed: after.closed,
                queue_open: after.queue_open,
                lock_job: after.lock_job,
                controls: after.controls,
                active: after.active,
                ..before
            })
            &&& core_state.session is Some ==> locked.session is Some && locked.session->0.data
                == data::after_begin_lock(core_state.session->0.data)
                && locked.session->0.workspaces == core_state.session->0.workspaces
                && locked.session->0.vault_id == core_state.session->0.vault_id
            &&& core_state.session is None ==> locked.session is None
            &&& root is Some ==> locked.closing_roots == core_state.closing_roots.push(root->0)
            &&& root is None ==> locked.closing_roots == core_state.closing_roots
            &&& locked.transitions.recovery_prepare is Some ==> locked.transitions.recovery_prepare->0.cancelled
            &&& locked.transitions.compromise_prepare is Some ==> locked.transitions.compromise_prepare->0.cancelled
            &&& locked.transitions.records == core_state.transitions.records
            &&& locked.identity == core_state.identity && locked.service == core_state.service
            &&& locked.security_busy == core_state.security_busy
        }),
{
}

/// A lock stops exactly the executions of transitions that are being carried out and
/// are no question of freshness: they are cancelled, and where the service closes they
/// end as closed.
pub proof fn law_a_lock_stops_executions(
    core_state: CoreModel,
    control: Control,
    close_service: bool,
    place: int,
    index: int,
)
    requires
        0 <= place < core_state.transitions.executions.len(),
        terms::is_recorded(
            core_state.transitions.records,
            core_state.transitions.executions[place].id,
            index,
        ),
    ensures
        ({
            let before = core_state.transitions.executions[place];
            let record = core_state.transitions.records[index];
            let after = runtime::after_global_lock(
                core_state,
                control,
                close_service,
            ).transitions.executions[place];
            let stops = record.consuming && !(record.kind is Freshness);
            &&& !stops ==> after == before
            &&& stops ==> after.cancelled && after.repository_cancelled
                && after.lease_cancellation_queued
            &&& stops && close_service && !(before.lifecycle is Terminal) ==> after.lifecycle is Terminal
                && after.transition_result == Some(Err::<(), ServiceError>(ServiceError::Closed))
            &&& stops && (!close_service || before.lifecycle is Terminal) ==> after == (
            OperationModel {
                cancelled: true,
                repository_cancelled: true,
                lease_cancellation_queued: true,
                ..before
            })
        }),
{
    let before = core_state.transitions.executions[place];
    let record = core_state.transitions.records[index];
    assert(core_state.transitions.records[index].operation == before.id);
}

/// A control that locks is always taken, and locks without closing the service. Any
/// other is refused by a closed service, which it does not change.
pub proof fn law_a_control_is_taken(core_state: CoreModel, control: Control)
    ensures
        ({
            let locks = control is LockNow || control is DeadlineExpired || control is Suspend;
            &&& locks ==> runtime::control_answer(core_state, control) is Ok
                && runtime::after_control(core_state, control) == runtime::after_global_lock(
                core_state,
                control,
                false,
            )
            &&& !locks && core_state.scheduler.closed ==> runtime::control_answer(
                core_state,
                control,
            ) == Err::<(), ServiceError>(ServiceError::Closed) && runtime::after_control(
                core_state,
                control,
            ) == core_state
            &&& !locks && !core_state.scheduler.closed ==> runtime::control_answer(
                core_state,
                control,
            ) is Ok
        }),
{
}

/// A cancellation of an accounted operation cancels it; where nothing more can be
/// told, the service shuts down instead of losing it.
pub proof fn law_a_cancel_control_cancels(core_state: CoreModel, id: OperationId, index: int)
    requires
        terms::stands_at(core_state.scheduler.active, id, index),
        !core_state.scheduler.closed,
    ensures
        ({
            let after = runtime::after_control(core_state, Control::Cancel(id));
            let overflows = !core_state.scheduler.active[index].cancel_notification_pending
                && core_state.scheduler.controls.pending.len()
                >= core_state.scheduler.controls.capacity;
            &&& !overflows ==> after == (CoreModel {
                scheduler: scheduler::after_cancel(core_state.scheduler, id),
                ..core_state
            })
            &&& overflows ==> after.scheduler.closed && !after.scheduler.accepting
        }),
{
    terms::lemma_found(core_state.scheduler.active, id, index);
}

/// Activity that is not trusted is noted once for a generation until it was taken.
pub proof fn law_untrusted_activity_is_noted_once(core_state: CoreModel)
    requires
        !core_state.scheduler.closed,
    ensures
        ({
            let before = core_state.scheduler;
            let after = runtime::after_control(core_state, Control::UserActivity);
            let noted = before.controls.untrusted_activity_pending == Some(before.generation);
            &&& noted ==> after == core_state
            &&& !noted && before.controls.pending.len() < before.controls.capacity ==> after == (
            CoreModel {
                scheduler: SchedulerModel {
                    controls: MailboxModel {
                        untrusted_activity_pending: Some(before.generation),
                        pending: before.controls.pending.push(
                            PendingControl {
                                control: Control::UserActivity,
                                generation: before.generation,
                                trusted_activity: false,
                            },
                        ),
                        ..before.controls
                    },
                    ..before
                },
                ..core_state
            })
            &&& !noted && before.controls.pending.len() >= before.controls.capacity
                ==> after.scheduler.closed
        }),
{
}

/// A look at the deadlines that fails locks the service as expired, and so does one
/// that finds the session expired; otherwise the service waits as long as the session
/// says, and only warnings are noted, for the generation that the session has unlocked.
pub proof fn law_an_expired_deadline_locks(
    core_state: CoreModel,
    observation: SessionObservation,
    error: ServiceError,
)
    ensures
        runtime::deadline_answer(Err(error)) == Err::<Option<Duration>, ServiceError>(error),
        runtime::after_deadline(core_state, Err(error)) == runtime::after_global_lock(
            core_state,
            Control::DeadlineExpired,
            false,
        ),
        observation.expired ==> runtime::deadline_answer(Ok(observation)) == Ok::<
            Option<Duration>,
            ServiceError,
        >(None),
        !observation.expired ==> runtime::deadline_answer(Ok(observation)) == Ok::<
            Option<Duration>,
            ServiceError,
        >(observation.next_wait),
        ({
            let after = runtime::after_deadline(core_state, Ok(observation));
            let current = core_state.session is Some
                && core_state.session->0.data.state is Unlocked
                && core_state.session->0.data.epoch == core_state.scheduler.generation;
            &&& observation.expired ==> is_locked_from(core_state, after)
            &&& !observation.expired ==> after == (CoreModel {
                scheduler: SchedulerModel {
                    session_events: after.scheduler.session_events,
                    ..core_state.scheduler
                },
                ..core_state
            })
            &&& !observation.expired && (observation.warnings@.len() == 0 || !current) ==> after
                == core_state
            &&& !observation.expired && observation.warnings@.len() == 1 && current
                && core_state.scheduler.session_events.len() < scheduler::MAX_SESSION_EVENTS
                ==> after.scheduler.session_events == core_state.scheduler.session_events.push(
                (core_state.scheduler.generation, observation.warnings@[0]),
            )
        }),
{
    reveal_with_fuel(scheduler::with_warnings, 2);
}

/// Activity counts in a service with a session that is not closed, accepts operations
/// and was unlocked once; without a session, or locked, it is locked, and a closed
/// service is closed.
pub proof fn law_activity_counts_in_an_open_service(core_state: CoreModel)
    ensures
        runtime::activity_check(core_state) is Ok <==> core_state.session is Some
            && !core_state.scheduler.closed && core_state.scheduler.accepting
            && core_state.scheduler.generation != 0,
        core_state.session is Some && core_state.scheduler.closed ==> runtime::activity_check(
            core_state,
        ) == Err::<(), ServiceError>(ServiceError::Closed),
        core_state.session is None || !core_state.scheduler.closed && !(
        core_state.scheduler.accepting && core_state.scheduler.generation != 0)
            ==> runtime::activity_check(core_state) == Err::<(), ServiceError>(
            ServiceError::Locked,
        ),
{
}

/// Trusted activity in an open service is recorded at the sampled instant: the end of
/// inactivity moves, warnings of inactivity that were not taken are dropped, and the
/// observer will be told. A sample that fails, and activity that comes too late, lock
/// the service as expired; activity that does not count changes nothing.
pub proof fn law_trusted_activity_is_recorded(
    core_state: CoreModel,
    now: Duration,
    error: ServiceError,
)
    ensures
        runtime::trusted_activity_answer(core_state, Err(error)) == Err::<(), ServiceError>(error),
        runtime::after_trusted_activity(core_state, Err(error)) == runtime::after_global_lock(
            core_state,
            Control::DeadlineExpired,
            false,
        ),
        runtime::activity_check(core_state) is Err ==> runtime::trusted_activity_answer(
            core_state,
            Ok(now),
        ) == runtime::activity_check(core_state) && runtime::after_trusted_activity(
            core_state,
            Ok(now),
        ) == core_state,
        runtime::activity_check(core_state) is Ok ==> {
            let session = core_state.session->0;
            let answer = data::activity_answer(session.data, session.policy, now@);
            let after = runtime::after_trusted_activity(core_state, Ok(now));
            &&& runtime::trusted_activity_answer(core_state, Ok(now)) == answer
            &&& answer is Ok ==> {
                &&& after.session is Some && after.session->0.data == data::after_activity(
                    session.data,
                    session.policy,
                    now@,
                )
                &&& after.scheduler.accepting && after.scheduler.key_leases_open
                    == core_state.scheduler.key_leases_open
                &&& after.scheduler.active == core_state.scheduler.active
                &&& after.scheduler.controls == (MailboxModel {
                    trusted_activity_pending: Some(core_state.scheduler.generation),
                    ..core_state.scheduler.controls
                })
                &&& after.transitions == core_state.transitions
            }
            &&& answer is Err ==> is_locked_from(
                CoreModel {
                    session: Some(
                        ManagerModel {
                            data: data::after_activity(session.data, session.policy, now@),
                            ..session
                        },
                    ),
                    ..core_state
                },
                after,
            )
        },
{
}

/// What remains of the warnings after an activity: those of the absolute end, in their
/// order.
pub proof fn law_activity_drops_warnings_of_inactivity(
    scheduler: SchedulerModel,
    event: (u64, SessionEvent),
)
    ensures
        ({
            let events = scheduler::after_activity(scheduler).session_events;
            let inactive = match event.1 {
                SessionEvent::LockWarning { remaining, deadline } => deadline is Inactivity,
            };
            &&& events.contains(event) <==> scheduler.session_events.contains(event) && !inactive
            &&& scheduler::after_activity(scheduler) == (SchedulerModel {
                session_events: events,
                ..scheduler
            })
        }),
{
    let keep = |event: (u64, SessionEvent)| !scheduler::warns_of_inactivity(event.1);
    let events = scheduler.session_events;
    if events.filter(keep).contains(event) {
        events.lemma_filter_contains_rev(keep, event);
    }
}

/// A submission that is admitted is accounted last and uses one identity up; with a
/// session and a sample it is an activity, which must come in time: one that comes too
/// late locks the service as expired and is refused with that. What is not readmitted
/// changes nothing.
pub proof fn law_a_submission_is_an_activity(
    core_state: CoreModel,
    generation: u64,
    now: Duration,
    state: OperationModel,
)
    ensures
        ({
            let readmitted = scheduler::readmission_answer(core_state.scheduler, generation);
            let answer = runtime::admit_answer(core_state, generation, Some(now));
            let after = runtime::after_admit(core_state, generation, Some(now), state);
            let quiet = runtime::admit_answer(core_state, generation, None);
            let later = runtime::after_admit(core_state, generation, None, state);
            let used = IdentityModel {
                next: (core_state.identity.next + 1) as u64,
                ..core_state.identity
            };
            &&& readmitted is Err ==> answer == readmitted && quiet == readmitted && after
                == core_state && later == core_state
            &&& readmitted is Ok ==> quiet is Ok && later == (CoreModel {
                scheduler: SchedulerModel {
                    active: core_state.scheduler.active.push(state),
                    queue: QueueModel {
                        waiting: core_state.scheduler.queue.waiting.push(state.id),
                        room: core_state.scheduler.queue.room,
                    },
                    ..core_state.scheduler
                },
                identity: used,
                ..core_state
            })
            &&& readmitted is Ok && core_state.session is Some ==> {
                let session = core_state.session->0;
                let recorded = data::activity_answer(session.data, session.policy, now@);
                &&& answer == recorded
                &&& recorded is Err ==> is_locked_from(
                    CoreModel {
                        session: Some(
                            ManagerModel {
                                data: data::after_activity(session.data, session.policy, now@),
                                ..session
                            },
                        ),
                        ..core_state
                    },
                    after,
                ) && after.scheduler.active.len() == core_state.scheduler.active.len()
                    && after.identity == core_state.identity
                &&& recorded is Ok ==> {
                    &&& after.scheduler.active == core_state.scheduler.active.push(state)
                    &&& after.scheduler.queue.waiting
                        == core_state.scheduler.queue.waiting.push(state.id)
                    &&& after.scheduler.accepting == core_state.scheduler.accepting
                    &&& after.identity == used
                    &&& after.session is Some && after.session->0.data == data::after_activity(
                        session.data,
                        session.policy,
                        now@,
                    )
                }
            }
        }),
{
}

/// An unlock of the service begins exactly where it has a session, is not closed, is
/// not being unlocked, accounts for nothing, has no lock to carry out and no observer
/// to wait for, and no recovery is prepared or registered. Without a session it is not
/// configured; with a recovery it is busy; and everything else is locked.
pub proof fn law_an_unlock_begins_in_a_service_at_rest(core_state: CoreModel)
    ensures
        ({
            let rests = !core_state.scheduler.closed && !core_state.scheduler.unlock_in_progress
                && core_state.scheduler.active.len() == 0 && core_state.scheduler.lock_job is None
                && core_state.scheduler.observer_in_flight == 0;
            let recovers = core_state.transitions.recovery_prepare is Some || !carrying::has_none(
                core_state.transitions,
                TransitionKind::Recovery,
            );
            let answer = runtime::unlock_job_answer(core_state);
            &&& answer is Ok <==> core_state.session is Some && rests && !recovers
            &&& core_state.session is None ==> answer == Err::<(), ServiceError>(
                ServiceError::InvalidConfiguration,
            )
            &&& core_state.session is Some && !rests ==> answer == Err::<(), ServiceError>(
                ServiceError::Locked,
            )
            &&& core_state.session is Some && rests && recovers ==> answer == Err::<
                (),
                ServiceError,
            >(ServiceError::Busy)
            &&& answer is Ok ==> runtime::after_unlock_job(core_state) == (CoreModel {
                scheduler: SchedulerModel { unlock_in_progress: true, ..core_state.scheduler },
                ..core_state
            })
            &&& answer is Err ==> runtime::after_unlock_job(core_state) == core_state
        }),
{
}

/// An unlock that opened the session opens the service in its generation, where it is
/// not closed, accounts for nothing and has no lock to carry out: it accepts operations
/// and leases, and what was noted before is gone. Where it cannot, it locks again and
/// is cancelled; and an unlock that failed reports its failure and leaves the service
/// as it was.
pub proof fn law_an_unlock_opens_the_service(
    core_state: CoreModel,
    generation: u64,
    error: ServiceError,
)
    ensures
        ({
            let before = core_state.scheduler;
            let can = !before.closed && before.active.len() == 0 && before.lock_job is None && (
            core_state.session is None || core_state.session->0.data.state is Unlocked);
            let answer = runtime::unlock_end_answer(core_state, Ok(generation));
            let after = runtime::after_unlock_end(core_state, Ok(generation));
            let failed = runtime::after_unlock_end(core_state, Err(error));
            &&& runtime::unlock_end_answer(core_state, Err(error)) == Err::<u64, ServiceError>(
                error,
            )
            &&& failed == (CoreModel {
                scheduler: SchedulerModel { unlock_in_progress: false, ..before },
                ..core_state
            })
            &&& can ==> answer == Ok::<u64, ServiceError>(generation)
            &&& !can ==> answer == Err::<u64, ServiceError>(ServiceError::Cancelled)
            &&& can ==> {
                &&& after.scheduler == (SchedulerModel {
                    unlock_in_progress: false,
                    generation,
                    accepting: true,
                    key_leases_open: true,
                    final_save: None,
                    session_events: Seq::empty(),
                    controls: after.scheduler.controls,
                    ..before
                })
                &&& after == (CoreModel { scheduler: after.scheduler, ..core_state })
                &&& after.scheduler.controls.global_control is None
                &&& after.scheduler.controls.global_notified is None
                &&& after.scheduler.controls.trusted_activity_pending is None
                &&& after.scheduler.controls.trusted_activity_dispatched is None
                &&& after.scheduler.controls.untrusted_activity_pending is None
                &&& after.scheduler.controls.capacity == before.controls.capacity
            }
            &&& !can ==> is_locked_from(core_state, after) && !after.scheduler.unlock_in_progress
        }),
{
}

/// Cleanup of the service is retried exactly where no lock is to be carried out, it is
/// not being unlocked, and its session can be cleaned. Otherwise it is busy, or not
/// configured without a session, or what the session answers.
pub proof fn law_cleanup_of_the_service_is_retried(core_state: CoreModel)
    ensures
        ({
            let answer = runtime::retry_answer(core_state);
            let works = core_state.scheduler.lock_job is Some
                || core_state.scheduler.unlock_in_progress;
            &&& works ==> answer == Err::<(), ServiceError>(ServiceError::Busy)
            &&& !works && core_state.session is None ==> answer == Err::<(), ServiceError>(
                ServiceError::InvalidConfiguration,
            )
            &&& !works && core_state.session is Some && !(
            core_state.session->0.data.state is CleanupRequired) ==> answer == Err::<
                (),
                ServiceError,
            >(ServiceError::Locked)
            &&& answer is Ok <==> !works && core_state.session is Some
                && core_state.session->0.data.state is CleanupRequired
                && core_state.session->0.data.unlock_attempt is None
                && !core_state.session->0.data.cleanup_owner
                && core_state.session->0.workspaces.attempts == 0
            &&& answer is Err ==> runtime::after_retry(core_state) == core_state
            &&& answer is Ok ==> runtime::after_retry(core_state).session is Some
                && runtime::after_retry(core_state).session->0.data.state is Locking
                && runtime::after_retry(core_state).session->0.data.cleanup_owner
                && runtime::after_retry(core_state).scheduler == core_state.scheduler
        }),
{
}

/// Cleanup that is latched is asked for by the session from then on. An unlocked
/// session is locked first; any other service keeps what it holds.
pub proof fn law_a_latch_asks_for_cleanup(core_state: CoreModel)
    ensures
        ({
            let after = runtime::after_latch(core_state);
            let unlocked = core_state.session is Some
                && core_state.session->0.data.state is Unlocked;
            &&& core_state.session is Some ==> after.session is Some
                && after.session->0.data.cleanup_required
                && after.session->0.data.state is CleanupRequired
            &&& core_state.session is None ==> after == core_state
            &&& unlocked ==> after.scheduler == runtime::after_global_lock(
                core_state,
                Control::LockNow,
                false,
            ).scheduler
            &&& !unlocked ==> after == (CoreModel { session: after.session, ..core_state })
        }),
{
}

/// The coordinator handles controls of the current generation first; a closed service
/// then closes; while an observer is waited for nothing is dispatched; then what it
/// holds is dispatched, then what waits longest; and a closed queue that is empty stops
/// it.
pub proof fn law_the_coordinator_takes_controls_first(
    scheduler: SchedulerModel,
    held: Option<OperationId>,
)
    ensures
        ({
            let step = scheduler::coordinator_step(scheduler, held);
            let after = scheduler::after_coordinator_step(scheduler, held);
            let control = mailbox::current_control(scheduler.controls, scheduler.generation);
            let controls = mailbox::after_current(scheduler.controls, scheduler.generation);
            &&& control is Some ==> step == CoordinatorStep::Handle(control->0) && (
            scheduler.observer_in_flight < usize::MAX ==> after == (SchedulerModel {
                observer_in_flight: (scheduler.observer_in_flight + 1) as usize,
                controls,
                ..scheduler
            }))
            &&& control is None && scheduler.closed ==> step is Close
            &&& control is None && !scheduler.closed && scheduler.observer_in_flight != 0
                ==> step is Wait
            &&& control is None && !scheduler.closed && scheduler.observer_in_flight == 0 ==> {
                &&& held is Some ==> step == CoordinatorStep::Dispatch(held->0)
                &&& held is None && scheduler.queue.waiting.len() > 0 ==> step
                    == CoordinatorStep::Dispatch(scheduler.queue.waiting[0]) && after.queue.waiting
                    == scheduler.queue.waiting.subrange(1, scheduler.queue.waiting.len() as int)
                &&& held is None && scheduler.queue.waiting.len() == 0 && !scheduler.queue_open
                    ==> step is Stop
                &&& held is None && scheduler.queue.waiting.len() == 0 && scheduler.queue_open
                    ==> step is Wait
            }
            &&& !(step is Handle) ==> after.observer_in_flight == scheduler.observer_in_flight
            &&& !(step is Dispatch && held is None) ==> after.queue == scheduler.queue
            &&& after.active == scheduler.active && after.accepting == scheduler.accepting
            &&& after.controls == controls
        }),
{
}

/// A control of another generation does nothing. Activity is told of; a cancellation
/// cancels the leases of its operation once and is told of; and every other control
/// carries the lock of its generation out.
pub proof fn law_a_control_is_carried_out(
    core_state: CoreModel,
    pending: PendingControl,
    id: OperationId,
    index: int,
)
    ensures
        ({
            let current = pending.generation == core_state.scheduler.generation;
            let step = worker::control_step(core_state.scheduler, pending);
            &&& !current <==> step is Stale
            &&& current && (pending.trusted_activity || pending.control is UserActivity)
                ==> step is Observe && worker::after_control_step(core_state, pending)
                == core_state
            &&& current && !pending.trusted_activity && (pending.control is LockNow
                || pending.control is DeadlineExpired || pending.control is Suspend) ==> step
                == ControlStep::Lock(pending.generation) && worker::after_control_step(
                core_state,
                pending,
            ) == core_state
            &&& current && !pending.trusted_activity && pending.control == Control::Cancel(id)
                && terms::stands_at(core_state.scheduler.active, id, index) ==> step
                == ControlStep::Cancel(
                id,
                !core_state.scheduler.active[index].lease_cancellation_queued,
            ) && worker::after_control_step(core_state, pending) == (CoreModel {
                scheduler: SchedulerModel {
                    active: core_state.scheduler.active.update(
                        index,
                        OperationModel {
                            lease_cancellation_queued: true,
                            ..core_state.scheduler.active[index]
                        },
                    ),
                    ..core_state.scheduler
                },
                ..core_state
            })
            &&& current && !pending.trusted_activity && pending.control == Control::Cancel(id)
                && terms::is_unknown(core_state.scheduler.active, id) ==> step
                == ControlStep::Cancel(id, false) && worker::after_control_step(
                core_state,
                pending,
            ) == core_state
        }),
{
    if terms::stands_at(core_state.scheduler.active, id, index) {
        terms::lemma_found(core_state.scheduler.active, id, index);
    }
    if terms::is_unknown(core_state.scheduler.active, id) {
        terms::lemma_not_found(core_state.scheduler.active, id);
    }
}

/// A control that reached its observer leaves the wait for it to the observer. One
/// that did not is waited for no longer; and where it was no trusted activity, the
/// service shuts down.
pub proof fn law_an_observer_that_is_not_reached_shuts_the_service_down(
    core_state: CoreModel,
    pending: PendingControl,
)
    requires
        core_state.scheduler.observer_in_flight > 0,
    ensures
        worker::after_delivery(core_state, pending, true) == core_state,
        ({
            let after = worker::after_delivery(core_state, pending, false);
            &&& after.scheduler.observer_in_flight == core_state.scheduler.observer_in_flight - 1
            &&& pending.trusted_activity ==> after.scheduler.accepting
                == core_state.scheduler.accepting && after.scheduler.closed
                == core_state.scheduler.closed
            &&& !pending.trusted_activity ==> after.scheduler.closed && !after.scheduler.accepting
        }),
{
}

/// Where no control of another generation stands before it, the control that the
/// coordinator takes is the one that locks, then activity that is trusted and was not
/// told of, then what was noted first.
pub proof fn law_controls_have_their_order(mailbox: MailboxModel, generation: u64)
    ensures
        mailbox.global_control is Some && mailbox.global_control->0.generation == generation ==> {
            &&& mailbox::current_control(mailbox, generation) == mailbox.global_control
            &&& mailbox::after_current(mailbox, generation) == (MailboxModel {
                global_control: None,
                ..mailbox
            })
        },
        mailbox.global_control is None && mailbox.trusted_activity_pending == Some(generation)
            && mailbox.trusted_activity_dispatched != Some(generation) ==> {
            &&& mailbox::current_control(mailbox, generation) == Some(
                PendingControl {
                    control: Control::UserActivity,
                    generation,
                    trusted_activity: true,
                },
            )
            &&& mailbox::after_current(mailbox, generation) == (MailboxModel {
                trusted_activity_dispatched: Some(generation),
                ..mailbox
            })
        },
        mailbox.global_control is None && (mailbox.trusted_activity_pending is None
            || mailbox.trusted_activity_dispatched == mailbox.trusted_activity_pending)
            && mailbox.pending.len() > 0 && mailbox.pending[0].generation == generation ==> {
            &&& mailbox::current_control(mailbox, generation) == Some(mailbox.pending[0])
            &&& mailbox::after_current(mailbox, generation).pending == mailbox.pending.subrange(
                1,
                mailbox.pending.len() as int,
            )
        },
        mailbox.global_control is None && (mailbox.trusted_activity_pending is None
            || mailbox.trusted_activity_dispatched == mailbox.trusted_activity_pending)
            && mailbox.pending.len() == 0 ==> mailbox::current_control(mailbox, generation) is None
            && mailbox::after_current(mailbox, generation) == mailbox,
{
    reveal_with_fuel(mailbox::current_control, 2);
    reveal_with_fuel(mailbox::after_current, 2);
}

/// What a control that is taken was noted by is forgotten with it: a lock and activity
/// of its generation can be noted again.
pub proof fn law_a_taken_control_can_be_noted_again(mailbox: MailboxModel)
    requires
        mailbox.pending.len() > 0,
    ensures
        ({
            let taken = mailbox.pending[0];
            let after = mailbox::after_pop(mailbox);
            let locks = taken.control is LockNow || taken.control is DeadlineExpired
                || taken.control is Suspend;
            &&& after.pending == mailbox.pending.subrange(1, mailbox.pending.len() as int)
            &&& after.capacity == mailbox.capacity && after.global_control
                == mailbox.global_control
            &&& locks && mailbox.global_notified == Some(taken.generation)
                ==> after.global_notified is None
            &&& !locks ==> after.global_notified == mailbox.global_notified
            &&& taken.control is UserActivity && !taken.trusted_activity
                && mailbox.untrusted_activity_pending == Some(taken.generation)
                ==> after.untrusted_activity_pending is None
            &&& !(taken.control is UserActivity) ==> after.untrusted_activity_pending
                == mailbox.untrusted_activity_pending && after.trusted_activity_pending
                == mailbox.trusted_activity_pending
            &&& taken.control is UserActivity && taken.trusted_activity
                && mailbox.trusted_activity_pending == Some(taken.generation)
                ==> after.trusted_activity_pending is None
        }),
{
}

/// Trusted activity that was told of can be told of again; nothing else of what waits
/// changes when a control was observed.
pub proof fn law_observed_activity_can_be_noted_again(
    mailbox: MailboxModel,
    observed: PendingControl,
)
    ensures
        observed.trusted_activity && mailbox.trusted_activity_pending == Some(observed.generation)
            ==> mailbox::after_observed(mailbox, observed) == (MailboxModel {
            trusted_activity_pending: None,
            trusted_activity_dispatched: None,
            ..mailbox
        }),
        !(observed.trusted_activity && mailbox.trusted_activity_pending == Some(
            observed.generation,
        )) ==> mailbox::after_observed(mailbox, observed) == mailbox,
{
}

} // verus!
