//! Laws of a lock on its way, and of the whole state of a service.
use vstd::prelude::*;

use crate::error::ServiceError;
use crate::operation;
use crate::operation::{OperationId, OperationModel};
use crate::service::locking;
use crate::service::locking::{EditorQuiescenceObservation, LockEvent, LockSequence, LockStage};
use crate::service::mailbox::PendingControl;
use crate::service::runtime;
use crate::service::runtime::CoreModel;
use crate::service::scheduler;
use crate::service::transitions;
use crate::service::Control;
use crate::session::data;
use crate::session::data::SessionObservation;
use crate::session::manager;
use crate::time::Duration;

verus! {

/// How far a lock is.
pub open spec fn rank(stage: LockStage) -> nat {
    match stage {
        LockStage::Saving => 0,
        LockStage::Revoking => 1,
        LockStage::Asking => 2,
        LockStage::Watching => 3,
        LockStage::Forcing => 4,
        LockStage::Reaping => 5,
        LockStage::Closing => 6,
        LockStage::Aborting => 7,
        LockStage::Publishing => 8,
        LockStage::Cleaning => 9,
        LockStage::Over => 10,
    }
}

/// A lock only goes forward. It stays where it is only to wait for the final save,
/// for the editors or for publications, and the waits for the save and the editors
/// end with their grace.
pub proof fn law_a_lock_goes_forward(
    core_state: CoreModel,
    sequence: LockSequence,
    event: LockEvent,
)
    ensures
        ({
            let step = locking::lock_move(core_state, sequence, event);
            &&& rank(step.sequence.stage) >= rank(sequence.stage)
            &&& step.sequence.job == sequence.job
            &&& step.sequence.stage == sequence.stage ==> {
                ||| sequence.stage is Saving && step.turn.action is WaitForSave && event.grace is Running
                ||| (sequence.stage is Watching || sequence.stage is Reaping)
                    && step.turn.action is LookAtEditors && event.grace is Running
                ||| sequence.stage is Publishing && step.turn.action is WaitForPublications
                ||| sequence.stage is Over
            }
        }),
{
}

/// The editors are forced only when their grace is over and they are not known to
/// have ended.
pub proof fn law_editors_are_forced_only_after_their_grace(
    core_state: CoreModel,
    sequence: LockSequence,
    event: LockEvent,
)
    ensures
        locking::lock_move(core_state, sequence, event).turn.action is ForceEditors ==> {
            &&& sequence.stage is Watching
            &&& !(event.grace is Running)
            &&& event.editors != EditorQuiescenceObservation::Known(true)
        },
{
}

/// A lock cleans up only when nothing of its generation is being published.
pub proof fn law_cleanup_waits_for_publications(
    core_state: CoreModel,
    sequence: LockSequence,
    event: LockEvent,
)
    ensures
        locking::lock_move(core_state, sequence, event).turn.action is CleanUp ==> !scheduler::publishes(
            core_state.scheduler,
            sequence.job.generation,
        ),
{
}

/// Only a lock that went well in everything leaves a locked session: the root was
/// closed, the editors ended, no workspace was being made or removed, the base was
/// cleaned, and no cleanup was required.
pub proof fn law_only_a_clean_lock_leaves_a_locked_session(
    core_state: CoreModel,
    sequence: LockSequence,
    event: LockEvent,
)
    requires
        sequence.stage is Cleaning,
        core_state.session is Some,
    ensures
        ({
            let step = locking::lock_move(core_state, sequence, event);
            &&& step.sequence.stage is Over
            &&& step.service.session is Some
            &&& step.service.session->0.data.state is Locked <==> !sequence.failed
                && event.succeeded && !core_state.session->0.data.cleanup_required
            &&& !(step.service.session->0.data.state is Locked)
                ==> step.service.session->0.data.state is CleanupRequired
        }),
{
}

/// A failure of the close, editors that did not end, and workspaces on their way
/// all count as failures of the lock.
pub proof fn law_a_lock_remembers_its_failures(
    core_state: CoreModel,
    sequence: LockSequence,
    event: LockEvent,
)
    requires
        sequence.stage is Aborting || sequence.stage is Publishing,
        locking::lock_move(core_state, sequence, event).sequence.stage is Cleaning,
    ensures
        locking::lock_move(core_state, sequence, event).sequence.failed == (sequence.failed
            || !sequence.callbacks_ok || !sequence.quiescent
            || core_state.session->0.workspaces.attempts != 0),
{
}

proof fn lemma_place_kept(active: Seq<OperationModel>, id: OperationId, state: OperationModel)
    requires
        scheduler::place_of(active, id) is Some,
        state.id == id,
    ensures
        scheduler::place_of(active.update(scheduler::place_of(active, id)->0, state), id)
            == scheduler::place_of(active, id),
        0 <= scheduler::place_of(active, id)->0 < active.len(),
        active[scheduler::place_of(active, id)->0].id == id,
{
    let index = scheduler::place_of(active, id)->0;
    assert(scheduler::operation_at(active, id, index));
    let after = active.update(index, state);
    assert(scheduler::operation_at(after, id, index)) by {
        assert forall|i: int| 0 <= i < index implies (#[trigger] after[i]).id != id by {
            assert(active[i].id != id);
        }
    }
    scheduler::lemma_place_of(after, id, index);
}

/// Whether an operation is at its end, or was asked to stop.
pub open spec fn is_stopped(core_state: CoreModel, id: OperationId) -> bool {
    match scheduler::place_of(core_state.scheduler.active, id) {
        Some(index) => core_state.scheduler.active[index].lifecycle is Terminal
            || core_state.scheduler.active[index].cancelled,
        None => true,
    }
}

/// The grace of the final save is the whole of what a lock grants it: once the lock
/// goes on, the save has ended or is asked to stop.
pub proof fn law_the_final_save_ends_with_its_grace(
    core_state: CoreModel,
    sequence: LockSequence,
    event: LockEvent,
    id: OperationId,
)
    requires
        sequence.stage is Saving,
        sequence.job.final_save == Some(id),
        !(locking::lock_move(core_state, sequence, event).sequence.stage is Saving),
    ensures
        is_stopped(locking::lock_move(core_state, sequence, event).service, id),
{
    let active = core_state.scheduler.active;
    if let Some(index) = scheduler::place_of(active, id) {
        lemma_place_kept(active, id, operation::after_cancel(active[index]));
        let looked = locking::with_scheduler(
            core_state,
            scheduler::after_final_save_step(
                core_state.scheduler,
                id,
                sequence.job.generation,
                event.grace,
            ),
        );
        assert(scheduler::place_of(looked.scheduler.active, id) == Some(index)) by {
            assert(active.update(index, active[index]) =~= active);
        }
        lemma_place_kept(
            looked.scheduler.active,
            id,
            OperationModel {
                lease_cancellation_queued: true,
                ..looked.scheduler.active[index]
            },
        );
    }
}

/// What keeps a session well formed keeps its manager so.
proof fn lemma_manager_keeps_wf(session: manager::ManagerModel, now: nat)
    requires
        manager::manager_wf(session),
    ensures
        manager::manager_wf(
            manager::with_data(session, data::after_begin_lock(session.data)),
        ),
        manager::manager_wf(manager::after_mark(session)),
        manager::manager_wf(
            manager::with_data(
                session,
                data::after_activity(session.data, session.policy, now),
            ),
        ),
{
    crate::laws::session::law_session_invariant_is_kept(session.data, session.policy, now);
}

/// A lock, a shutdown and a requirement of cleanup keep the service well formed.
pub proof fn law_locks_keep_the_service_invariant(
    core_state: CoreModel,
    control: Control,
    close_service: bool,
)
    requires
        runtime::core_wf(core_state),
    ensures
        runtime::core_wf(runtime::after_global_lock(core_state, control, close_service)),
        runtime::core_wf(runtime::after_shutdown(core_state)),
        runtime::core_wf(runtime::after_latch(core_state)),
{
    lemma_lock_keeps_wf(core_state, control, close_service);
    lemma_lock_keeps_wf(core_state, Control::LockNow, true);
    lemma_lock_keeps_wf(core_state, Control::LockNow, false);
    let locked = runtime::after_global_lock(core_state, Control::LockNow, false);
    if locked.session is Some {
        lemma_manager_keeps_wf(locked.session->0, 0);
    }
    if core_state.session is Some {
        lemma_manager_keeps_wf(core_state.session->0, 0);
    }
}

proof fn lemma_lock_keeps_wf(core_state: CoreModel, control: Control, close_service: bool)
    requires
        runtime::core_wf(core_state),
    ensures
        runtime::core_wf(runtime::after_global_lock(core_state, control, close_service)),
{
    let root = runtime::locked_root(core_state.session);
    crate::laws::service::law_locks_keep_the_scheduler_invariant(
        core_state.scheduler,
        control,
        close_service,
        root,
        None,
        PendingControl { control, generation: 0, trusted_activity: false },
        None,
        0,
        Seq::empty(),
    );
    if core_state.session is Some {
        lemma_manager_keeps_wf(core_state.session->0, 0);
    }
    assert(transitions::registry_wf(
        transitions::after_stop(
            transitions::after_cancel_prepares(core_state.transitions),
            close_service,
        ),
    ));
}

/// A look at the deadlines, a control and trusted activity keep the service well
/// formed.
pub proof fn law_requests_keep_the_service_invariant(
    core_state: CoreModel,
    control: Control,
    observed: Result<SessionObservation, ServiceError>,
    trusted: Result<Duration, ServiceError>,
)
    requires
        runtime::core_wf(core_state),
    ensures
        runtime::core_wf(runtime::after_deadline(core_state, observed)),
        runtime::core_wf(runtime::after_control(core_state, control)),
        runtime::core_wf(runtime::after_trusted_activity(core_state, trusted)),
        runtime::core_wf(runtime::after_unlock_job(core_state)),
{
    lemma_lock_keeps_wf(core_state, Control::DeadlineExpired, false);
    lemma_lock_keeps_wf(core_state, control, false);
    let pending = PendingControl { control, generation: 0, trusted_activity: false };
    crate::laws::service::law_locks_keep_the_scheduler_invariant(
        core_state.scheduler,
        control,
        false,
        None,
        None,
        pending,
        None,
        0,
        Seq::empty(),
    );
    let noted = CoreModel {
        scheduler: runtime::after_local_control(core_state.scheduler, control),
        ..core_state
    };
    lemma_lock_keeps_wf(noted, Control::LockNow, true);
    if let Ok(observation) = observed {
        crate::laws::service::law_locks_keep_the_scheduler_invariant(
            core_state.scheduler,
            control,
            false,
            None,
            None,
            pending,
            None,
            core_state.scheduler.generation,
            observation.warnings@,
        );
        let told = CoreModel {
            scheduler: runtime::warned(core_state, observation.warnings@),
            ..core_state
        };
        lemma_lock_keeps_wf(told, Control::DeadlineExpired, false);
    }
    if let Ok(now) = trusted {
        if core_state.session is Some {
            lemma_manager_keeps_wf(core_state.session->0, now@);
        }
        let recorded = runtime::after_recorded(core_state, now@);
        lemma_lock_keeps_wf(recorded, Control::DeadlineExpired, false);
    }
}

/// The admission of an operation under a fresh identity, and the end of an unlock
/// job, keep the service well formed.
pub proof fn law_admission_keeps_the_service_invariant(
    core_state: CoreModel,
    generation: u64,
    sample: Option<Duration>,
    state: OperationModel,
    unlocked: Result<u64, ServiceError>,
)
    requires
        runtime::core_wf(core_state),
        scheduler::place_of(core_state.scheduler.active, state.id) is None,
    ensures
        runtime::core_wf(runtime::after_admit(core_state, generation, sample, state)),
        runtime::core_wf(runtime::after_unlock_end(core_state, unlocked)),
{
    let pending = PendingControl {
        control: Control::LockNow,
        generation: 0,
        trusted_activity: false,
    };
    crate::laws::service::law_locks_keep_the_scheduler_invariant(
        core_state.scheduler,
        Control::LockNow,
        false,
        None,
        None,
        pending,
        None,
        match unlocked {
            Ok(generation) => generation,
            Err(_) => 0,
        },
        Seq::empty(),
    );
    let resting = CoreModel {
        scheduler: scheduler::SchedulerModel {
            unlock_in_progress: false,
            ..core_state.scheduler
        },
        ..core_state
    };
    lemma_lock_keeps_wf(resting, Control::LockNow, false);
    crate::laws::service::law_admission_keeps_the_scheduler_invariant(
        core_state.scheduler.config,
        true,
        core_state.scheduler,
        generation,
        state,
    );
    let quiet = scheduler::after_activity(core_state.scheduler);
    crate::laws::service::law_admission_keeps_the_scheduler_invariant(
        core_state.scheduler.config,
        true,
        quiet,
        generation,
        state,
    );
    if let Some(now) = sample {
        if core_state.session is Some {
            lemma_manager_keeps_wf(core_state.session->0, now@);
        }
        lemma_lock_keeps_wf(
            runtime::after_recorded(core_state, now@),
            Control::DeadlineExpired,
            false,
        );
    }
    lemma_lock_keeps_wf(core_state, Control::DeadlineExpired, false);
}

} // verus!
