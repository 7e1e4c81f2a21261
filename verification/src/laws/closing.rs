//! Laws of a whole lock: what it does, in which order, and what it leaves.
use vstd::prelude::*;

use crate::laws::terms;
use crate::operation::{OperationId, OperationModel};
use crate::service::locking;
use crate::service::locking::{
    EditorQuiescenceObservation, LockAction, LockEvent, LockMove, LockSequence, LockStage,
};
use crate::service::runtime::CoreModel;
use crate::service::scheduler;
use crate::service::scheduler::{LockJob, SchedulerModel};
use crate::service::transitions::RecordModel;

verus! {

/// One step of a lock.
#[verifier::opaque]
pub open spec fn lock_step(core_state: CoreModel, sequence: LockSequence, event: LockEvent) -> LockMove {
    locking::lock_move(core_state, sequence, event)
}

/// A turn asks for nothing but its action.
pub open spec fn only_asks(step: LockMove, action: LockAction) -> bool {
    &&& step.turn.action == action
    &&& step.turn.leases.len() == 0
    &&& step.turn.settled is None
    &&& step.turn.transitions.len() == 0
}

/// Nothing of a generation is being published.
pub open spec fn publishes_nothing(scheduler: SchedulerModel, generation: u64) -> bool {
    forall|i: int|
        0 <= i < scheduler.active.len() && (#[trigger] scheduler.active[i]).session_generation
            == Some(generation) ==> !scheduler.publications.contains(scheduler.active[i].id)
}

/// A lock that has no save to wait for revokes its root, and one without a root asks
/// the editors to end where there is a session, and closes otherwise.
pub proof fn law_a_lock_begins_with_its_root(
    core_state: CoreModel,
    sequence: LockSequence,
    event: LockEvent,
)
    requires
        sequence.stage is Saving,
        sequence.job.final_save is None,
    ensures
        ({
            let step = lock_step(core_state, sequence, event);
            &&& step.service == core_state
            &&& sequence.job.root is Some ==> only_asks(
                step,
                LockAction::RevokeRoot(sequence.job.root->0),
            ) && step.sequence == (LockSequence { stage: LockStage::Revoking, ..sequence })
            &&& sequence.job.root is None && core_state.session is Some ==> only_asks(
                step,
                LockAction::AskEditors,
            ) && step.sequence == (LockSequence { stage: LockStage::Asking, ..sequence })
            &&& sequence.job.root is None && core_state.session is None ==> only_asks(
                step,
                LockAction::CloseRoot(None),
            ) && step.sequence == (LockSequence {
                stage: LockStage::Closing,
                quiescent: true,
                ..sequence
            })
        }),
{
    reveal(lock_step);
}

/// A lock waits for the save of its operation exactly while that is armed for it in
/// its generation, has not ended and was not cancelled, and its grace runs. Then it goes
/// on with its root, or without one with the editors, and a save that has not ended is
/// cancelled.
pub proof fn law_a_lock_waits_for_its_save(
    core_state: CoreModel,
    sequence: LockSequence,
    event: LockEvent,
    id: OperationId,
    index: int,
)
    requires
        sequence.stage is Saving,
        sequence.job.final_save == Some(id),
        terms::stands_at(core_state.scheduler.active, id, index),
    ensures
        ({
            let step = lock_step(core_state, sequence, event);
            let state = core_state.scheduler.active[index];
            let saves = core_state.scheduler.final_save is Some
                && core_state.scheduler.final_save->0.operation == id
                && core_state.scheduler.final_save->0.generation == sequence.job.generation && !(
            state.lifecycle is Terminal) && !state.cancelled && event.grace is Running;
            let stopped = OperationModel {
                cancelled: true,
                repository_cancelled: true,
                ..state
            };
            &&& saves ==> only_asks(step, LockAction::WaitForSave) && step.service == core_state
                && step.sequence == sequence
            &&& !saves && sequence.job.root is Some ==> only_asks(
                step,
                LockAction::RevokeRoot(sequence.job.root->0),
            )
            &&& !saves && sequence.job.root is None && core_state.session is Some ==> only_asks(
                step,
                LockAction::AskEditors,
            )
            &&& !saves && core_state.session is Some && !(state.lifecycle is Terminal)
                ==> step.service == (CoreModel {
                scheduler: SchedulerModel {
                    active: core_state.scheduler.active.update(index, stopped),
                    ..core_state.scheduler
                },
                ..core_state
            })
            &&& !saves && core_state.session is Some && state.lifecycle is Terminal ==> step.service
                == core_state
        }),
{
    reveal(lock_step);
    terms::lemma_found(core_state.scheduler.active, id, index);
}

/// After the root was revoked the editors are asked to end, and then looked at; where
/// the revocation failed, cleanup is required. Whether every call to the editors went
/// well is remembered.
pub proof fn law_a_lock_asks_the_editors(
    core_state: CoreModel,
    sequence: LockSequence,
    event: LockEvent,
)
    requires
        core_state.session is Some,
    ensures
        ({
            let step = lock_step(core_state, sequence, event);
            &&& sequence.stage is Revoking ==> {
                &&& only_asks(step, LockAction::AskEditors)
                &&& step.sequence == (LockSequence { stage: LockStage::Asking, ..sequence })
                &&& event.succeeded ==> step.service == core_state
                &&& !event.succeeded ==> step.service.session is Some
                    && step.service.session->0.data.cleanup_required && step.service.scheduler
                    == core_state.scheduler
            }
            &&& sequence.stage is Asking ==> {
                &&& only_asks(step, LockAction::LookAtEditors)
                &&& step.service == core_state
                &&& step.sequence == (LockSequence {
                    stage: LockStage::Watching,
                    callbacks_ok: event.succeeded,
                    ..sequence
                })
            }
            &&& sequence.stage is Forcing ==> {
                &&& only_asks(step, LockAction::LookAtEditors)
                &&& step.service == core_state
                &&& step.sequence == (LockSequence {
                    stage: LockStage::Reaping,
                    callbacks_ok: sequence.callbacks_ok && event.succeeded,
                    ..sequence
                })
            }
        }),
{
    reveal(lock_step);
}

/// Editors that are known to have ended let the lock close the root, as quiescent.
/// While their grace runs the others are looked at again; after it they are forced to
/// end once, and after that the root is closed all the same. A look that panics counts
/// as a call that failed.
pub proof fn law_a_lock_watches_the_editors(
    core_state: CoreModel,
    sequence: LockSequence,
    event: LockEvent,
)
    requires
        sequence.stage is Watching || sequence.stage is Reaping,
        sequence.job.final_save is None,
        core_state.session is Some,
    ensures
        ({
            let step = lock_step(core_state, sequence, event);
            let ended = event.editors == EditorQuiescenceObservation::Known(true);
            let seen = sequence.callbacks_ok && !(event.editors is Panicked);
            &&& step.service == core_state
            &&& step.sequence.callbacks_ok == seen
            &&& step.sequence.job == sequence.job && step.sequence.failed == sequence.failed
            &&& ended ==> only_asks(step, LockAction::CloseRoot(sequence.job.root))
                && step.sequence.stage is Closing && step.sequence.quiescent
            &&& !ended ==> step.sequence.quiescent == sequence.quiescent
            &&& !ended && event.grace is Running ==> only_asks(step, LockAction::LookAtEditors)
                && step.sequence.stage == sequence.stage
            &&& !ended && !(event.grace is Running) && sequence.stage is Watching ==> only_asks(
                step,
                LockAction::ForceEditors,
            ) && step.sequence.stage is Forcing
            &&& !ended && !(event.grace is Running) && sequence.stage is Reaping ==> only_asks(
                step,
                LockAction::CloseRoot(sequence.job.root),
            ) && step.sequence.stage is Closing
        }),
{
    reveal(lock_step);
}

/// A save that a lock waited for and that was cancelled has its leases cancelled
/// before the root is closed, once; and one that is no longer accounted is named.
pub proof fn law_a_cancelled_save_gives_its_leases_back(
    core_state: CoreModel,
    sequence: LockSequence,
    event: LockEvent,
    id: OperationId,
    index: int,
)
    requires
        sequence.stage is Watching,
        event.editors == EditorQuiescenceObservation::Known(true),
        sequence.job.final_save == Some(id),
        core_state.session is Some,
    ensures
        ({
            let step = lock_step(core_state, sequence, event);
            &&& step.turn.action == LockAction::CloseRoot(sequence.job.root)
            &&& step.sequence.stage is Closing && step.sequence.quiescent
            &&& step.turn.transitions.len() == 0
            &&& terms::is_unknown(core_state.scheduler.active, id) ==> step.turn.settled == Some(id)
                && step.turn.leases.len() == 0 && step.service == core_state
            &&& terms::stands_at(core_state.scheduler.active, id, index) ==> {
                let state = core_state.scheduler.active[index];
                let cancels = state.cancelled && !state.lease_cancellation_queued;
                &&& step.turn.settled is None
                &&& cancels ==> step.turn.leases == seq![id] && step.service == (CoreModel {
                    scheduler: SchedulerModel {
                        active: core_state.scheduler.active.update(
                            index,
                            OperationModel { lease_cancellation_queued: true, ..state },
                        ),
                        ..core_state.scheduler
                    },
                    ..core_state
                })
                &&& !cancels ==> step.turn.leases.len() == 0 && step.service == core_state
            }
        }),
{
    reveal(lock_step);
    if terms::stands_at(core_state.scheduler.active, id, index) {
        terms::lemma_found(core_state.scheduler.active, id, index);
    }
    if terms::is_unknown(core_state.scheduler.active, id) {
        terms::lemma_not_found(core_state.scheduler.active, id);
    }
}

/// After the root was closed, the transitions that wait are taken out to be aborted,
/// and those that are carried out stay. A close that failed is remembered.
pub proof fn law_a_lock_aborts_what_waits(
    core_state: CoreModel,
    sequence: LockSequence,
    event: LockEvent,
    record: RecordModel,
)
    requires
        sequence.stage is Closing,
    ensures
        ({
            let step = lock_step(core_state, sequence, event);
            let records = core_state.transitions.records;
            &&& step.turn.action is AbortTransitions && step.turn.leases.len() == 0
                && step.turn.settled is None
            &&& step.sequence == (LockSequence {
                stage: LockStage::Aborting,
                failed: core_state.session is Some && !event.succeeded,
                ..sequence
            })
            &&& step.service.scheduler == core_state.scheduler && step.service.session
                == core_state.session
            &&& step.service.transitions.records.contains(record) <==> records.contains(record)
                && record.consuming
            &&& records.contains(record) && !record.consuming ==> step.turn.transitions.contains(
                (record.operation, record.kind),
            )
        }),
{
    reveal(lock_step);
    let records = core_state.transitions.records;
    let keep = |record: RecordModel| record.consuming;
    if records.filter(keep).contains(record) {
        records.lemma_filter_contains_rev(keep, record);
    }
    if records.contains(record) && !record.consuming {
        let place = choose|i: int| 0 <= i < records.len() && records[i] == record;
        lemma_what_waits_is_taken_out(records, records.len(), place);
    }
}

proof fn lemma_what_waits_is_taken_out(records: Seq<RecordModel>, count: nat, place: int)
    requires
        0 <= place < count <= records.len(),
        !records[place].consuming,
    ensures
        crate::service::transitions::pending_transitions(records, count).contains(
            (records[place].operation, records[place].kind),
        ),
    decreases count,
{
    let before = crate::service::transitions::pending_transitions(records, (count - 1) as nat);
    let all = crate::service::transitions::pending_transitions(records, count);
    let wanted = (records[place].operation, records[place].kind);
    if place == count - 1 {
        assert(all.last() == wanted);
        assert(all[all.len() - 1] == wanted);
    } else {
        lemma_what_waits_is_taken_out(records, (count - 1) as nat, place);
        let at = choose|i: int| 0 <= i < before.len() && before[i] == wanted;
        assert(all[at] == wanted);
    }
}

/// After the transitions were aborted a lock waits while something of its generation
/// is being published. Then it stops what is left, but for what it lets save and what
/// is published, and cleans up where it owns the cleanup of its root; it fails where the
/// close failed, a call to the editors failed, an editor lives on or a workspace is
/// still worked on.
pub proof fn law_a_lock_cleans_up_after_publications(
    core_state: CoreModel,
    sequence: LockSequence,
    event: LockEvent,
)
    requires
        sequence.stage is Aborting || sequence.stage is Publishing,
        core_state.session is Some,
    ensures
        ({
            let step = lock_step(core_state, sequence, event);
            let session = core_state.session->0;
            let silent = publishes_nothing(core_state.scheduler, sequence.job.generation);
            let owns = session.data.cleanup_owner && sequence.job.root is Some;
            let failed = sequence.failed || !sequence.callbacks_ok || !sequence.quiescent
                || session.workspaces.attempts != 0;
            &&& !silent ==> only_asks(step, LockAction::WaitForPublications) && step.service
                == core_state && step.sequence == (LockSequence {
                stage: LockStage::Publishing,
                ..sequence
            })
            &&& silent && owns ==> step.turn.action is CleanUp && step.sequence == (LockSequence {
                stage: LockStage::Cleaning,
                failed,
                ..sequence
            })
            &&& silent && !owns ==> step.turn.action is Nothing && step.sequence == (LockSequence {
                stage: LockStage::Over,
                ..sequence
            })
            &&& silent ==> step.service == (CoreModel {
                scheduler: SchedulerModel {
                    active: step.service.scheduler.active,
                    ..core_state.scheduler
                },
                ..core_state
            }) && step.turn.settled is None && step.turn.transitions.len() == 0
        }),
{
    reveal(lock_step);
    if !scheduler::publishes(core_state.scheduler, sequence.job.generation) {
        assert(publishes_nothing(core_state.scheduler, sequence.job.generation));
    }
}

/// What a lock stops last: every operation that is neither its save nor published is
/// cancelled, and its leases are given back once.
pub proof fn law_a_lock_stops_the_rest(
    scheduler: SchedulerModel,
    final_save: Option<OperationId>,
    index: int,
)
    requires
        0 <= index < scheduler.active.len(),
    ensures
        ({
            let state = scheduler.active[index];
            let after = scheduler::after_stop(scheduler, final_save).active[index];
            let spared = final_save == Some(state.id) || scheduler.publications.contains(state.id);
            let leases = scheduler::newly_stopped(scheduler, final_save, scheduler.active.len());
            &&& spared ==> after == state
            &&& !spared ==> after == (OperationModel {
                cancelled: true,
                repository_cancelled: true,
                lease_cancellation_queued: true,
                ..state
            })
            &&& !spared && !state.lease_cancellation_queued ==> leases.contains(state.id)
        }),
{
    let state = scheduler.active[index];
    if !scheduler::is_spared(scheduler.publications, final_save, state.id)
        && !state.lease_cancellation_queued {
        lemma_what_is_stopped_gives_back(scheduler, final_save, scheduler.active.len(), index);
    }
}

proof fn lemma_what_is_stopped_gives_back(
    scheduler: SchedulerModel,
    final_save: Option<OperationId>,
    count: nat,
    place: int,
)
    requires
        0 <= place < count <= scheduler.active.len(),
        !scheduler::is_spared(scheduler.publications, final_save, scheduler.active[place].id),
        !scheduler.active[place].lease_cancellation_queued,
    ensures
        scheduler::newly_stopped(scheduler, final_save, count).contains(
            scheduler.active[place].id,
        ),
    decreases count,
{
    let before = scheduler::newly_stopped(scheduler, final_save, (count - 1) as nat);
    let all = scheduler::newly_stopped(scheduler, final_save, count);
    let wanted = scheduler.active[place].id;
    if place == count - 1 {
        assert(all.last() == wanted);
        assert(all[all.len() - 1] == wanted);
    } else {
        lemma_what_is_stopped_gives_back(scheduler, final_save, (count - 1) as nat, place);
        let at = choose|i: int| 0 <= i < before.len() && before[i] == wanted;
        assert(all[at] == wanted);
    }
}

/// A lock whose root, editors and cleanup all do what they are asked, and that waits
/// for no save and no publication, revokes its root, asks the editors and looks at
/// them, closes the root, aborts the transitions, cleans up, and leaves the session
/// locked.
pub proof fn law_a_lock_that_goes_well_leaves_a_locked_session(
    core_state: CoreModel,
    job: LockJob,
    event: LockEvent,
)
    requires
        core_state.session is Some,
        core_state.session->0.data.cleanup_owner,
        !core_state.session->0.data.cleanup_required,
        core_state.session->0.workspaces.attempts == 0,
        job.root is Some,
        job.final_save is None,
        event.succeeded,
        event.editors == EditorQuiescenceObservation::Known(true),
        publishes_nothing(core_state.scheduler, job.generation),
    ensures
        ({
            let one = lock_step(core_state, locking::begun_lock(job), event);
            let two = lock_step(one.service, one.sequence, event);
            let three = lock_step(two.service, two.sequence, event);
            let four = lock_step(three.service, three.sequence, event);
            let five = lock_step(four.service, four.sequence, event);
            let six = lock_step(five.service, five.sequence, event);
            let seven = lock_step(six.service, six.sequence, event);
            &&& one.turn.action == LockAction::RevokeRoot(job.root->0)
            &&& two.turn.action is AskEditors
            &&& three.turn.action is LookAtEditors
            &&& four.turn.action == LockAction::CloseRoot(job.root)
            &&& five.turn.action is AbortTransitions
            &&& six.turn.action is CleanUp
            &&& seven.turn.action is Nothing && seven.sequence.stage is Over
            &&& seven.service.session is Some
            &&& seven.service.session->0.data.state is Locked
            &&& !seven.service.session->0.data.cleanup_owner
        }),
{
    let zero = locking::begun_lock(job);
    law_a_lock_begins_with_its_root(core_state, zero, event);
    let one = lock_step(core_state, zero, event);
    law_a_lock_asks_the_editors(one.service, one.sequence, event);
    let two = lock_step(one.service, one.sequence, event);
    law_a_lock_asks_the_editors(two.service, two.sequence, event);
    let three = lock_step(two.service, two.sequence, event);
    law_a_lock_watches_the_editors(three.service, three.sequence, event);
    let four = lock_step(three.service, three.sequence, event);
    let record = arbitrary();
    law_a_lock_aborts_what_waits(four.service, four.sequence, event, record);
    let five = lock_step(four.service, four.sequence, event);
    law_a_lock_cleans_up_after_publications(five.service, five.sequence, event);
    let six = lock_step(five.service, five.sequence, event);
    law_a_cleanup_ends_the_lock(six.service, six.sequence, event);
}

/// The cleanup of a lock ends it: the session is locked exactly where nothing failed
/// and nothing asks for cleanup, and asks for cleanup otherwise.
pub proof fn law_a_cleanup_ends_the_lock(
    core_state: CoreModel,
    sequence: LockSequence,
    event: LockEvent,
)
    requires
        sequence.stage is Cleaning,
        core_state.session is Some,
    ensures
        ({
            let step = lock_step(core_state, sequence, event);
            &&& only_asks(step, LockAction::Nothing) && step.sequence.stage is Over
            &&& step.service.scheduler == core_state.scheduler
            &&& step.service.session is Some && !step.service.session->0.data.cleanup_owner
            &&& step.service.session->0.data.state is Locked <==> !sequence.failed
                && event.succeeded && !core_state.session->0.data.cleanup_required
            &&& !(step.service.session->0.data.state is Locked)
                ==> step.service.session->0.data.state is CleanupRequired
        }),
{
    reveal(lock_step);
}

/// The lock of a generation is taken up once, by what carries it out, and begins with
/// its save; a lock of another generation is not.
pub proof fn law_a_waiting_lock_is_taken_up(
    scheduler: SchedulerModel,
    generation: u64,
    job: LockJob,
)
    ensures
        scheduler.lock_job == Some(job) && job.generation == generation ==> locking::waiting_job(
            scheduler,
            generation,
        ) == Some(job),
        scheduler.lock_job is None || scheduler.lock_job->0.generation != generation
            ==> locking::waiting_job(scheduler, generation) is None,
        locking::after_take_up(scheduler, job).lock_job is None,
        locking::begun_lock(job).job == job,
        locking::begun_lock(job).stage is Saving,
        locking::begun_lock(job).callbacks_ok,
        !locking::begun_lock(job).quiescent,
        !locking::begun_lock(job).failed,
{
}

} // verus!
