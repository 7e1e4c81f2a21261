//! One lock of the service, step by step.
//!
//! A lock stops everything but the final save, waits for that save as long as
//! its grace runs, revokes the root, stops the editors, closes the root, aborts
//! the transitions that wait, waits for publications that cannot be taken back,
//! and cleans up. What a step does outside the service is an action; what came
//! of it is given to the next step.
use vstd::prelude::*;

use crate::operation;
use crate::operation::OperationId;
use crate::service::flows;
use crate::service::runtime::{CoreModel, ServiceCore};
use crate::service::scheduler;
use crate::service::scheduler::{FinalSaveStep, Grace, LockJob, SchedulerModel};
use crate::service::transitions;
use crate::service::transitions::{RegistryModel, TransitionKind};
use crate::session::manager;

verus! {

/// What a look at the editors saw.
#[derive(Clone, Copy, Debug, PartialEq, Eq, Structural)]
pub enum EditorQuiescenceObservation {
    /// Whether none runs any more.
    Known(bool),
    /// It could not be told.
    Unknown,
    /// The look itself failed.
    Panicked,
}

/// Where a lock stands.
#[derive(Clone, Copy, Debug, PartialEq, Eq, Structural)]
pub enum LockStage {
    /// It waits for the final save.
    Saving,
    /// It revokes the root.
    Revoking,
    /// It asks the editors to end.
    Asking,
    /// It waits for the editors.
    Watching,
    /// It forces the editors to end.
    Forcing,
    /// It waits for the forced editors.
    Reaping,
    /// It closes the root.
    Closing,
    /// It aborts the transitions.
    Aborting,
    /// It waits for publications.
    Publishing,
    /// It cleans up.
    Cleaning,
    /// It is over.
    Over,
}

/// What a lock needs from outside next.
#[derive(Clone, Copy, Debug, PartialEq, Eq)]
pub enum LockAction {
    /// Look at the clock, after the scheduler changed or the grace ended.
    WaitForSave,
    /// Revoke the root of a generation.
    RevokeRoot(u64),
    /// Ask the editors to end.
    AskEditors,
    /// Look at the editors and at the clock.
    LookAtEditors,
    /// Force the editors to end.
    ForceEditors,
    /// Close the root of a generation, where there is one.
    CloseRoot(Option<u64>),
    /// Abort the actions of the transitions.
    AbortTransitions,
    /// Wait until the scheduler changes.
    WaitForPublications,
    /// Remove the tracked workspaces and clean the base.
    CleanUp,
    /// Nothing.
    Nothing,
}

/// What came of an action.
#[derive(Clone, Copy, Debug, PartialEq, Eq, Structural)]
pub struct LockEvent {
    /// Whether it succeeded.
    pub succeeded: bool,
    /// What was seen of the editors.
    pub editors: EditorQuiescenceObservation,
    /// Whether the grace of the stage still runs.
    pub grace: Grace,
}

/// A lock on its way.
#[derive(Clone, Copy, Debug, PartialEq, Eq)]
pub struct LockSequence {
    pub job: LockJob,
    pub stage: LockStage,
    /// Whether every call to the editors succeeded.
    pub callbacks_ok: bool,
    /// Whether no editor runs any more.
    pub quiescent: bool,
    /// Whether the close of the root, or what was found after it, failed.
    pub failed: bool,
}

/// One step of a lock: the action that comes next, the operations whose leases
/// are to be cancelled first, and the transitions whose actions are to be
/// aborted.
pub struct LockTurn {
    pub action: LockAction,
    pub leases: Vec<OperationId>,
    /// The final save, where it is no longer accounted. Its handle knows whether its
    /// leases are to be cancelled first, too.
    pub settled: Option<OperationId>,
    pub transitions: Vec<(OperationId, TransitionKind)>,
}

/// Contents of a [`LockTurn`].
pub struct TurnModel {
    pub action: LockAction,
    pub leases: Seq<OperationId>,
    pub settled: Option<OperationId>,
    pub transitions: Seq<(OperationId, TransitionKind)>,
}

impl View for LockTurn {
    type V = TurnModel;

    open spec fn view(&self) -> TurnModel {
        TurnModel {
            action: self.action,
            leases: self.leases@,
            settled: self.settled,
            transitions: self.transitions@,
        }
    }
}

/// A turn that only asks for an action.
pub open spec fn only(action: LockAction) -> TurnModel {
    TurnModel { action, leases: Seq::empty(), settled: None, transitions: Seq::empty() }
}

/// What a step of a lock leads to.
pub struct LockMove {
    pub service: CoreModel,
    pub sequence: LockSequence,
    pub turn: TurnModel,
}

/// The service with another scheduler.
pub open spec fn with_scheduler(core_state: CoreModel, scheduler: SchedulerModel) -> CoreModel {
    CoreModel { scheduler, ..core_state }
}

/// A lock that goes on to revoke its root.
pub open spec fn to_revoking(core_state: CoreModel, sequence: LockSequence) -> LockMove {
    match sequence.job.root {
        Some(root) => LockMove {
            service: core_state,
            sequence: LockSequence { stage: LockStage::Revoking, ..sequence },
            turn: only(LockAction::RevokeRoot(root)),
        },
        None => to_asking(core_state, sequence),
    }
}

/// A lock that goes on to the editors.
pub open spec fn to_asking(core_state: CoreModel, sequence: LockSequence) -> LockMove {
    if core_state.session is Some {
        LockMove {
            service: core_state,
            sequence: LockSequence { stage: LockStage::Asking, ..sequence },
            turn: only(LockAction::AskEditors),
        }
    } else {
        to_closing(core_state, LockSequence { quiescent: true, ..sequence })
    }
}

/// Whether the leases of the final save are to be cancelled now.
pub open spec fn save_was_cancelled(core_state: CoreModel, id: OperationId) -> bool {
    match scheduler::place_of(core_state.scheduler.active, id) {
        Some(index) => core_state.scheduler.active[index].cancelled
            && !core_state.scheduler.active[index].lease_cancellation_queued,
        None => false,
    }
}

/// The service after the leases of an operation were marked for cancellation.
pub open spec fn after_queue_leases(core_state: CoreModel, id: OperationId) -> CoreModel {
    match scheduler::place_of(core_state.scheduler.active, id) {
        Some(index) => with_scheduler(
            core_state,
            SchedulerModel {
                active: core_state.scheduler.active.update(
                    index,
                    operation::OperationModel {
                        lease_cancellation_queued: true,
                        ..core_state.scheduler.active[index]
                    },
                ),
                ..core_state.scheduler
            },
        ),
        None => core_state,
    }
}

/// A lock that goes on to close its root.
pub open spec fn to_closing(core_state: CoreModel, sequence: LockSequence) -> LockMove {
    let action = LockAction::CloseRoot(
        if core_state.session is Some {
            sequence.job.root
        } else {
            None
        },
    );
    let closing = LockSequence { stage: LockStage::Closing, ..sequence };
    match sequence.job.final_save {
        Some(id) if save_was_cancelled(core_state, id) => LockMove {
            service: after_queue_leases(core_state, id),
            sequence: closing,
            turn: TurnModel { leases: seq![id], ..only(action) },
        },
        Some(id) if scheduler::place_of(core_state.scheduler.active, id) is None => LockMove {
            service: core_state,
            sequence: closing,
            turn: TurnModel { settled: Some(id), ..only(action) },
        },
        _ => LockMove { service: core_state, sequence: closing, turn: only(action) },
    }
}

/// A lock after a look at the editors. The first wait ends in force, the second
/// in the close of the root.
pub open spec fn after_look(
    core_state: CoreModel,
    sequence: LockSequence,
    event: LockEvent,
    forced: bool,
) -> LockMove {
    let seen = LockSequence {
        callbacks_ok: sequence.callbacks_ok && !(event.editors is Panicked),
        ..sequence
    };
    if event.editors == EditorQuiescenceObservation::Known(true) {
        to_closing(core_state, LockSequence { quiescent: true, ..seen })
    } else if event.grace is Running {
        LockMove { service: core_state, sequence: seen, turn: only(LockAction::LookAtEditors) }
    } else if forced {
        to_closing(core_state, seen)
    } else {
        LockMove {
            service: core_state,
            sequence: LockSequence { stage: LockStage::Forcing, ..seen },
            turn: only(LockAction::ForceEditors),
        }
    }
}

/// A lock that goes on once nothing is published any more.
pub open spec fn to_cleaning(core_state: CoreModel, sequence: LockSequence) -> LockMove {
    if scheduler::publishes(core_state.scheduler, sequence.job.generation) {
        LockMove {
            service: core_state,
            sequence: LockSequence { stage: LockStage::Publishing, ..sequence },
            turn: only(LockAction::WaitForPublications),
        }
    } else {
        let leases = scheduler::newly_stopped(
            core_state.scheduler,
            sequence.job.final_save,
            core_state.scheduler.active.len(),
        );
        let stopped = with_scheduler(
            core_state,
            scheduler::after_stop(core_state.scheduler, sequence.job.final_save),
        );
        let over = LockMove {
            service: stopped,
            sequence: LockSequence { stage: LockStage::Over, ..sequence },
            turn: TurnModel { leases, ..only(LockAction::Nothing) },
        };
        match core_state.session {
            Some(session) => match manager::lock_cleanup(
                session,
                sequence.job.root is Some,
                sequence.failed,
                sequence.callbacks_ok && sequence.quiescent,
            ) {
                Some(failed) => LockMove {
                    service: stopped,
                    sequence: LockSequence { stage: LockStage::Cleaning, failed, ..sequence },
                    turn: TurnModel { leases, ..only(LockAction::CleanUp) },
                },
                None => over,
            },
            None => over,
        }
    }
}

/// Where one step leads a lock.
pub open spec fn lock_move(core_state: CoreModel, sequence: LockSequence, event: LockEvent) -> LockMove {
    match sequence.stage {
        LockStage::Saving => match sequence.job.final_save {
            Some(id) => {
                let looked = with_scheduler(
                    core_state,
                    scheduler::after_final_save_step(
                        core_state.scheduler,
                        id,
                        sequence.job.generation,
                        event.grace,
                    ),
                );
                if scheduler::final_save_step(
                    core_state.scheduler,
                    id,
                    sequence.job.generation,
                    event.grace,
                ) is Wait {
                    LockMove { service: looked, sequence, turn: only(LockAction::WaitForSave) }
                } else {
                    to_revoking(looked, sequence)
                }
            },
            None => to_revoking(core_state, sequence),
        },
        LockStage::Revoking => to_asking(
            if event.succeeded {
                core_state
            } else {
                CoreModel {
                    session: crate::service::runtime::marked_session(core_state.session),
                    ..core_state
                }
            },
            sequence,
        ),
        LockStage::Asking => LockMove {
            service: core_state,
            sequence: LockSequence {
                stage: LockStage::Watching,
                callbacks_ok: event.succeeded,
                ..sequence
            },
            turn: only(LockAction::LookAtEditors),
        },
        LockStage::Watching => after_look(core_state, sequence, event, false),
        LockStage::Forcing => LockMove {
            service: core_state,
            sequence: LockSequence {
                stage: LockStage::Reaping,
                callbacks_ok: sequence.callbacks_ok && event.succeeded,
                ..sequence
            },
            turn: only(LockAction::LookAtEditors),
        },
        LockStage::Reaping => after_look(core_state, sequence, event, true),
        LockStage::Closing => LockMove {
            service: flows::with_transitions(
                core_state,
                RegistryModel {
                    records: transitions::consuming_only(core_state.transitions.records),
                    ..core_state.transitions
                },
            ),
            sequence: LockSequence {
                stage: LockStage::Aborting,
                failed: core_state.session is Some && !event.succeeded,
                ..sequence
            },
            turn: TurnModel {
                transitions: transitions::pending_transitions(
                    core_state.transitions.records,
                    core_state.transitions.records.len(),
                ),
                ..only(LockAction::AbortTransitions)
            },
        },
        LockStage::Aborting => to_cleaning(core_state, sequence),
        LockStage::Publishing => to_cleaning(core_state, sequence),
        LockStage::Cleaning => LockMove {
            service: CoreModel {
                session: match core_state.session {
                    Some(session) => Some(
                        manager::after_lock_cleanup(session, sequence.failed || !event.succeeded),
                    ),
                    None => None,
                },
                ..core_state
            },
            sequence: LockSequence { stage: LockStage::Over, ..sequence },
            turn: only(LockAction::Nothing),
        },
        LockStage::Over => LockMove {
            service: core_state,
            sequence,
            turn: only(LockAction::Nothing),
        },
    }
}

/// The lock of a generation that waits in a scheduler.
pub open spec fn waiting_job(scheduler: SchedulerModel, generation: u64) -> Option<LockJob> {
    if scheduler.lock_job is Some && scheduler.lock_job->0.generation == generation {
        scheduler.lock_job
    } else {
        None
    }
}

/// A lock that just began.
pub open spec fn begun_lock(job: LockJob) -> LockSequence {
    LockSequence {
        job,
        stage: LockStage::Saving,
        callbacks_ok: true,
        quiescent: false,
        failed: false,
    }
}

/// The scheduler after a lock was taken up.
pub open spec fn after_take_up(scheduler: SchedulerModel, job: LockJob) -> SchedulerModel {
    scheduler::after_stop(SchedulerModel { lock_job: None, ..scheduler }, job.final_save)
}

fn turn(action: LockAction) -> (turn: LockTurn)
    ensures
        turn@ == only(action),
{
    let turn = LockTurn { action, leases: Vec::new(), settled: None, transitions: Vec::new() };
    assert(turn@.leases =~= Seq::<OperationId>::empty());
    assert(turn@.transitions =~= Seq::<(OperationId, TransitionKind)>::empty());
    turn
}

impl ServiceCore {
    /// Takes up the lock of a generation that waits, and stops everything but its
    /// final save. The answer holds the operations whose leases are to be
    /// cancelled.
    pub fn begin_lock_job(&mut self, generation: u64) -> (begun: Option<
        (LockSequence, Vec<OperationId>),
    >)
        ensures
            match waiting_job(old(self)@.scheduler, generation) {
                Some(job) => {
                    &&& begun is Some
                    &&& (begun->0).0 == begun_lock(job)
                    &&& (begun->0).1@ == scheduler::newly_stopped(
                        SchedulerModel { lock_job: None, ..old(self)@.scheduler },
                        job.final_save,
                        old(self)@.scheduler.active.len(),
                    )
                    &&& final(self)@ == with_scheduler(
                        old(self)@,
                        after_take_up(old(self)@.scheduler, job),
                    )
                },
                None => begun is None && final(self)@ == old(self)@,
            },
    {
        let job = match self.scheduler.take_lock_job(generation) {
            Some(job) => job,
            None => return None,
        };
        let leases = self.scheduler.cancel_nonfinal(job.final_save);
        Some(
            (
                LockSequence {
                    job,
                    stage: LockStage::Saving,
                    callbacks_ok: true,
                    quiescent: false,
                    failed: false,
                },
                leases,
            ),
        )
    }

    fn revoke_root(&mut self, sequence: &mut LockSequence) -> (next: LockTurn)
        ensures
            to_revoking(old(self)@, *old(sequence)) == (LockMove {
                service: final(self)@,
                sequence: *final(sequence),
                turn: next@,
            }),
    {
        match sequence.job.root {
            Some(root) => {
                sequence.stage = LockStage::Revoking;
                turn(LockAction::RevokeRoot(root))
            },
            None => self.ask_editors(sequence),
        }
    }

    fn ask_editors(&mut self, sequence: &mut LockSequence) -> (next: LockTurn)
        ensures
            to_asking(old(self)@, *old(sequence)) == (LockMove {
                service: final(self)@,
                sequence: *final(sequence),
                turn: next@,
            }),
    {
        if self.session.is_some() {
            sequence.stage = LockStage::Asking;
            return turn(LockAction::AskEditors);
        }
        sequence.quiescent = true;
        self.close_root(sequence)
    }

    /// Marks the leases of an operation for cancellation. The answer is whether
    /// they were not marked before.
    pub fn queue_lease_cancellation(&mut self, id: OperationId) -> (queued: bool)
        ensures
            queued == match scheduler::place_of(old(self)@.scheduler.active, id) {
                Some(index) => !old(self)@.scheduler.active[index].lease_cancellation_queued,
                None => false,
            },
            final(self)@ == after_queue_leases(old(self)@, id),
    {
        match self.scheduler.operation_mut(id) {
            Some(state) => state.mark_lease_cancellation_queued(),
            None => false,
        }
    }

    fn close_root(&mut self, sequence: &mut LockSequence) -> (next: LockTurn)
        ensures
            to_closing(old(self)@, *old(sequence)) == (LockMove {
                service: final(self)@,
                sequence: *final(sequence),
                turn: next@,
            }),
    {
        let root = if self.session.is_some() {
            sequence.job.root
        } else {
            None
        };
        sequence.stage = LockStage::Closing;
        let mut next = turn(LockAction::CloseRoot(root));
        if let Some(id) = sequence.job.final_save {
            let cancelled = match self.scheduler.operation(id) {
                Some(state) => state.is_cancelled(),
                None => {
                    next.settled = Some(id);
                    return next;
                },
            };
            let ghost before = self@;
            if cancelled && self.queue_lease_cancellation(id) {
                next.leases.push(id);
                assert(next.leases@ =~= seq![id]);
            } else {
                assert(cancelled ==> before.scheduler.active
                    =~= self@.scheduler.active);
                assert(!save_was_cancelled(before, id));
                assert(self@ == before);
            }
        }
        next
    }

    fn look_at_editors(&mut self, sequence: &mut LockSequence, event: LockEvent, forced: bool) -> (next:
        LockTurn)
        ensures
            after_look(old(self)@, *old(sequence), event, forced) == (LockMove {
                service: final(self)@,
                sequence: *final(sequence),
                turn: next@,
            }),
    {
        match event.editors {
            EditorQuiescenceObservation::Known(true) => {
                sequence.quiescent = true;
                return self.close_root(sequence);
            },
            EditorQuiescenceObservation::Panicked => {
                sequence.callbacks_ok = false;
            },
            _ => {},
        }
        if event.grace == Grace::Running {
            turn(LockAction::LookAtEditors)
        } else if forced {
            self.close_root(sequence)
        } else {
            sequence.stage = LockStage::Forcing;
            turn(LockAction::ForceEditors)
        }
    }

    fn clean_up(&mut self, sequence: &mut LockSequence) -> (next: LockTurn)
        ensures
            to_cleaning(old(self)@, *old(sequence)) == (LockMove {
                service: final(self)@,
                sequence: *final(sequence),
                turn: next@,
            }),
    {
        if self.scheduler.publication_in_flight(sequence.job.generation) {
            sequence.stage = LockStage::Publishing;
            return turn(LockAction::WaitForPublications);
        }
        let leases = self.scheduler.cancel_nonfinal(sequence.job.final_save);
        let cleanup = match &self.session {
            Some(session) => session.begin_lock_cleanup(
                sequence.job.root.is_some(),
                sequence.failed,
                sequence.callbacks_ok && sequence.quiescent,
            ),
            None => None,
        };
        let mut next = turn(LockAction::Nothing);
        next.leases = leases;
        match cleanup {
            Some(failed) => {
                sequence.stage = LockStage::Cleaning;
                sequence.failed = failed;
                next.action = LockAction::CleanUp;
            },
            None => {
                sequence.stage = LockStage::Over;
            },
        }
        next
    }

    /// Takes a lock one step further, with what came of its last action.
    pub fn advance_lock(&mut self, sequence: &mut LockSequence, event: LockEvent) -> (next: LockTurn)
        ensures
            lock_move(old(self)@, *old(sequence), event) == (LockMove {
                service: final(self)@,
                sequence: *final(sequence),
                turn: next@,
            }),
    {
        match sequence.stage {
            LockStage::Saving => {
                if let Some(id) = sequence.job.final_save {
                    if self.scheduler.await_final_save(
                        id,
                        sequence.job.generation,
                        event.grace,
                    ) == FinalSaveStep::Wait {
                        return turn(LockAction::WaitForSave);
                    }
                }
                self.revoke_root(sequence)
            },
            LockStage::Revoking => {
                if !event.succeeded {
                    if let Some(session) = &mut self.session {
                        session.mark_cleanup_required();
                    }
                }
                self.ask_editors(sequence)
            },
            LockStage::Asking => {
                sequence.stage = LockStage::Watching;
                sequence.callbacks_ok = event.succeeded;
                turn(LockAction::LookAtEditors)
            },
            LockStage::Watching => self.look_at_editors(sequence, event, false),
            LockStage::Forcing => {
                sequence.stage = LockStage::Reaping;
                sequence.callbacks_ok = sequence.callbacks_ok && event.succeeded;
                turn(LockAction::LookAtEditors)
            },
            LockStage::Reaping => self.look_at_editors(sequence, event, true),
            LockStage::Closing => {
                sequence.stage = LockStage::Aborting;
                sequence.failed = self.session.is_some() && !event.succeeded;
                let mut next = turn(LockAction::AbortTransitions);
                next.transitions = self.cancel_all_transitions();
                next
            },
            LockStage::Aborting => self.clean_up(sequence),
            LockStage::Publishing => self.clean_up(sequence),
            LockStage::Cleaning => {
                let failed = sequence.failed || !event.succeeded;
                if let Some(session) = &mut self.session {
                    session.finish_lock_after_close(failed);
                }
                sequence.stage = LockStage::Over;
                turn(LockAction::Nothing)
            },
            LockStage::Over => turn(LockAction::Nothing),
        }
    }
}

} // verus!
