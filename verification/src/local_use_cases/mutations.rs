//! Changes of the tree of a vault.
use vstd::prelude::*;

use crate::command::EntryKind;
use crate::error::ServiceError;
use crate::event;
use crate::event::{OperationEvent, OperationPhase, Progress, ProgressUnit};
use crate::local_use_cases;
use crate::local_use_cases::{durability, Answer, Commitment, UseAction};
use crate::operation::{OperationId, Publication};
use crate::service::locking;
use crate::service::runtime::{CoreModel, ServiceCore};
use crate::service::worker;

verus! {

/// What is changed.
#[derive(Clone, Copy, Debug, PartialEq, Eq, Structural)]
pub enum MutationTask {
    CreateDirectory,
    CreateFile,
    ImportFile,
    /// A rename or a move of an entry of a kind.
    Relocate(EntryKind),
    Delete,
}

/// Where a change stands.
#[derive(Clone, Copy, Debug, PartialEq, Eq, Structural)]
pub enum MutationStage {
    /// It announces that it prepares.
    Preparing,
    /// It announces that it reads.
    Reading,
    /// It opens what is imported.
    Opening,
    /// It announces that it encrypts.
    Encrypting,
    /// It asks for a lease.
    Leasing,
    /// It checks what it is bound to.
    Checking,
    /// It builds what is handed to the store.
    Building,
    /// It announces that nothing is done yet.
    Counting,
    /// It announces that it publishes.
    Publishing,
    /// It hands the change to the store.
    Committing,
    /// It gives the lease back.
    Finishing,
    /// It announces that the change is durable.
    Settling,
    /// It is over.
    Over,
}

/// A change on its way.
#[derive(Clone, Copy, Debug)]
pub struct MutationRun {
    pub task: MutationTask,
    pub stage: MutationStage,
    /// Whether the announcement of the stage waits for room.
    pub waited: bool,
    /// What failed when the change was handed over, or ended it.
    pub failure: Option<ServiceError>,
    /// What the commit made.
    pub committed: Option<Commitment>,
}

/// What a step of a change leads to.
pub struct MutationMove {
    pub service: CoreModel,
    pub run: MutationRun,
    pub action: UseAction,
}

/// The stage that a change begins with.
pub open spec fn first_stage(task: MutationTask) -> MutationStage {
    match task {
        MutationTask::CreateFile => MutationStage::Encrypting,
        _ => MutationStage::Preparing,
    }
}

/// The stage that follows one.
pub open spec fn next_stage(task: MutationTask, stage: MutationStage) -> MutationStage {
    match stage {
        MutationStage::Preparing => match task {
            MutationTask::ImportFile => MutationStage::Reading,
            _ => MutationStage::Leasing,
        },
        MutationStage::Reading => MutationStage::Opening,
        MutationStage::Opening => MutationStage::Encrypting,
        MutationStage::Encrypting => MutationStage::Leasing,
        MutationStage::Leasing => match task {
            MutationTask::Relocate(_) | MutationTask::Delete => MutationStage::Checking,
            _ => MutationStage::Building,
        },
        MutationStage::Checking => MutationStage::Building,
        MutationStage::Building => MutationStage::Counting,
        MutationStage::Counting => MutationStage::Publishing,
        MutationStage::Publishing => MutationStage::Committing,
        MutationStage::Committing => MutationStage::Finishing,
        MutationStage::Finishing => MutationStage::Settling,
        MutationStage::Settling | MutationStage::Over => MutationStage::Over,
    }
}

/// What a change announces at a stage, where it announces something.
pub open spec fn stage_event(stage: MutationStage) -> Option<OperationEvent> {
    match stage {
        MutationStage::Preparing => Some(OperationEvent::PhaseChanged(OperationPhase::Preparing)),
        MutationStage::Reading => Some(OperationEvent::PhaseChanged(OperationPhase::Reading)),
        MutationStage::Encrypting => Some(OperationEvent::PhaseChanged(OperationPhase::Encrypting)),
        MutationStage::Counting => Some(
            OperationEvent::Progress(event::progress_of(ProgressUnit::Items, 0, Some(1))),
        ),
        MutationStage::Publishing => Some(OperationEvent::PhaseChanged(OperationPhase::Publishing)),
        _ => None,
    }
}

/// What a change needs at a stage.
pub open spec fn stage_action(stage: MutationStage) -> UseAction {
    match stage {
        MutationStage::Opening => UseAction::OpenImport,
        MutationStage::Leasing => UseAction::TakeLease,
        MutationStage::Checking => UseAction::CheckBinding,
        MutationStage::Building => UseAction::Build,
        MutationStage::Committing => UseAction::Commit,
        MutationStage::Finishing => UseAction::FinishLease,
        MutationStage::Over => UseAction::End(Ok(())),
        _ => UseAction::Continue,
    }
}

/// A change that goes on to the next stage.
pub open spec fn mutation_next(service: CoreModel, run: MutationRun) -> MutationMove {
    let stage = next_stage(run.task, run.stage);
    MutationMove {
        service,
        run: MutationRun { stage, waited: false, ..run },
        action: stage_action(stage),
    }
}

/// A change that ends with an error.
pub open spec fn mutation_failed(service: CoreModel, run: MutationRun, error: ServiceError) -> MutationMove {
    MutationMove {
        service,
        run: MutationRun { stage: MutationStage::Over, failure: Some(error), ..run },
        action: UseAction::End(Err(error)),
    }
}

/// A change that waits for room.
pub open spec fn mutation_waits(service: CoreModel, run: MutationRun) -> MutationMove {
    MutationMove {
        service,
        run: MutationRun { waited: true, ..run },
        action: UseAction::WaitForRoom,
    }
}

/// A change that was handed over, with what came of it.
pub open spec fn mutation_handed_over(
    service: CoreModel,
    run: MutationRun,
    answer: Result<Answer, ServiceError>,
) -> MutationMove {
    match answer {
        Ok(Answer::Committed(committed)) => mutation_next(
            service,
            MutationRun { committed: Some(committed), ..run },
        ),
        Ok(_) => mutation_next(
            service,
            MutationRun { failure: Some(ServiceError::ExecutorFailed), ..run },
        ),
        Err(error) => mutation_next(service, MutationRun { failure: Some(error), ..run }),
    }
}

/// A change whose lease was given back.
pub open spec fn mutation_finished(
    service: CoreModel,
    run: MutationRun,
    answer: Result<Answer, ServiceError>,
) -> MutationMove {
    match (run.failure, answer) {
        (Some(error), _) => mutation_failed(service, run, error),
        (None, Err(error)) => mutation_failed(service, run, error),
        (None, Ok(_)) => mutation_next(service, run),
    }
}

/// A change that announces what it made.
pub open spec fn mutation_settles(core_state: CoreModel, run: MutationRun, id: OperationId) -> MutationMove {
    match run.committed {
        None => mutation_failed(core_state, run, ServiceError::ExecutorFailed),
        Some(committed) => {
            let announcement = OperationEvent::RevisionDurable(
                local_use_cases::durable_event(committed.snapshot),
            );
            let before = local_use_cases::before_announcement(
                core_state.scheduler,
                id,
                run.waited,
            );
            let announced = locking::with_scheduler(
                core_state,
                worker::after_publish(before, id, announcement),
            );
            match worker::publish_answer(before, id, announcement) {
                Err(error) => mutation_failed(announced, run, error),
                Ok(Publication::WaitForRoom) => mutation_waits(announced, run),
                Ok(Publication::Delivered) => mutation_next(announced, run),
            }
        },
    }
}

/// A change that announces where it stands.
pub open spec fn mutation_announces(
    core_state: CoreModel,
    run: MutationRun,
    id: OperationId,
    announcement: OperationEvent,
) -> MutationMove {
    let announced = locking::with_scheduler(
        core_state,
        worker::after_emit(core_state.scheduler, id, announcement, run.waited),
    );
    match worker::emit_answer(core_state.scheduler, id, announcement, run.waited) {
        Err(error) => mutation_failed(announced, run, error),
        Ok(Publication::WaitForRoom) => mutation_waits(announced, run),
        Ok(Publication::Delivered) => mutation_next(announced, run),
    }
}

/// Where one step leads a change. What fails before the change is handed over
/// ends it; what fails then is reported after the lease was given back.
pub open spec fn mutation_move(
    core_state: CoreModel,
    run: MutationRun,
    id: OperationId,
    answer: Result<Answer, ServiceError>,
) -> MutationMove {
    match stage_event(run.stage) {
        Some(announcement) => mutation_announces(core_state, run, id, announcement),
        None => match run.stage {
            MutationStage::Committing => mutation_handed_over(core_state, run, answer),
            MutationStage::Finishing => mutation_finished(core_state, run, answer),
            MutationStage::Settling => mutation_settles(core_state, run, id),
            MutationStage::Over => MutationMove {
                service: core_state,
                run,
                action: match run.failure {
                    Some(error) => UseAction::End(Err(error)),
                    None => UseAction::End(Ok(())),
                },
            },
            _ => match answer {
                Err(error) => mutation_failed(core_state, run, error),
                Ok(_) => if run.stage is Leasing && run.task == MutationTask::Relocate(
                    EntryKind::Tombstone,
                ) {
                    mutation_failed(core_state, run, ServiceError::InvalidInput)
                } else {
                    mutation_next(core_state, run)
                },
            },
        },
    }
}

impl MutationRun {
    pub fn new(task: MutationTask) -> (run: Self)
        ensures
            run == (MutationRun {
                task,
                stage: first_stage(task),
                waited: false,
                failure: None,
                committed: None,
            }),
    {
        let stage = match task {
            MutationTask::CreateFile => MutationStage::Encrypting,
            _ => MutationStage::Preparing,
        };
        MutationRun { task, stage, waited: false, failure: None, committed: None }
    }

    fn next(&mut self) -> (action: UseAction)
        ensures
            *final(self) == (MutationRun {
                stage: next_stage(old(self).task, old(self).stage),
                waited: false,
                ..*old(self)
            }),
            action == stage_action(final(self).stage),
    {
        self.waited = false;
        self.stage =
        match self.stage {
            MutationStage::Preparing => match self.task {
                MutationTask::ImportFile => MutationStage::Reading,
                _ => MutationStage::Leasing,
            },
            MutationStage::Reading => MutationStage::Opening,
            MutationStage::Opening => MutationStage::Encrypting,
            MutationStage::Encrypting => MutationStage::Leasing,
            MutationStage::Leasing => match self.task {
                MutationTask::Relocate(_) | MutationTask::Delete => MutationStage::Checking,
                _ => MutationStage::Building,
            },
            MutationStage::Checking => MutationStage::Building,
            MutationStage::Building => MutationStage::Counting,
            MutationStage::Counting => MutationStage::Publishing,
            MutationStage::Publishing => MutationStage::Committing,
            MutationStage::Committing => MutationStage::Finishing,
            MutationStage::Finishing => MutationStage::Settling,
            MutationStage::Settling | MutationStage::Over => MutationStage::Over,
        };
        match self.stage {
            MutationStage::Opening => UseAction::OpenImport,
            MutationStage::Leasing => UseAction::TakeLease,
            MutationStage::Checking => UseAction::CheckBinding,
            MutationStage::Building => UseAction::Build,
            MutationStage::Committing => UseAction::Commit,
            MutationStage::Finishing => UseAction::FinishLease,
            MutationStage::Over => UseAction::End(Ok(())),
            _ => UseAction::Continue,
        }
    }

    fn fail(&mut self, error: ServiceError) -> (action: UseAction)
        ensures
            *final(self) == (MutationRun {
                stage: MutationStage::Over,
                failure: Some(error),
                ..*old(self)
            }),
            action == UseAction::End(Err(error)),
    {
        self.stage = MutationStage::Over;
        self.failure = Some(error);
        UseAction::End(Err(error))
    }

    fn announcement(&self) -> (announcement: Option<OperationEvent>)
        ensures
            announcement == stage_event(self.stage),
    {
        match self.stage {
            MutationStage::Preparing => Some(
                OperationEvent::PhaseChanged(OperationPhase::Preparing),
            ),
            MutationStage::Reading => Some(OperationEvent::PhaseChanged(OperationPhase::Reading)),
            MutationStage::Encrypting => Some(
                OperationEvent::PhaseChanged(OperationPhase::Encrypting),
            ),
            MutationStage::Counting => match Progress::items(0, Some(1)) {
                Ok(progress) => Some(OperationEvent::Progress(progress)),
                Err(_) => None,
            },
            MutationStage::Publishing => Some(
                OperationEvent::PhaseChanged(OperationPhase::Publishing),
            ),
            _ => None,
        }
    }

    fn published(&mut self, answer: Result<Publication, ServiceError>) -> (action: UseAction)
        ensures
            match answer {
                Err(error) => *final(self) == (MutationRun {
                    stage: MutationStage::Over,
                    failure: Some(error),
                    ..*old(self)
                }) && action == UseAction::End(Err(error)),
                Ok(Publication::WaitForRoom) => *final(self) == (MutationRun {
                    waited: true,
                    ..*old(self)
                }) && action == UseAction::WaitForRoom,
                Ok(Publication::Delivered) => *final(self) == (MutationRun {
                    stage: next_stage(old(self).task, old(self).stage),
                    waited: false,
                    ..*old(self)
                }) && action == stage_action(final(self).stage),
            },
    {
        match answer {
            Err(error) => self.fail(error),
            Ok(Publication::WaitForRoom) => {
                self.waited = true;
                UseAction::WaitForRoom
            },
            Ok(Publication::Delivered) => self.next(),
        }
    }

    /// Takes the change one step further, with what came of its last action.
    pub fn advance(
        &mut self,
        service: &mut ServiceCore,
        id: OperationId,
        answer: Result<Answer, ServiceError>,
    ) -> (action: UseAction)
        ensures
            mutation_move(old(service)@, *old(self), id, answer) == (MutationMove {
                service: final(service)@,
                run: *final(self),
                action,
            }),
    {
        if let Some(announcement) = self.announcement() {
            let emitted = service.emit(id, announcement, self.waited);
            return self.published(emitted);
        }
        match self.stage {
            MutationStage::Committing => {
                match answer {
                    Ok(Answer::Committed(committed)) => {
                        self.committed = Some(committed);
                    },
                    Ok(_) => {
                        self.failure = Some(ServiceError::ExecutorFailed);
                    },
                    Err(error) => {
                        self.failure = Some(error);
                    },
                }
                self.next()
            },
            MutationStage::Finishing => match (self.failure, answer) {
                (Some(error), _) => self.fail(error),
                (None, Err(error)) => self.fail(error),
                (None, Ok(_)) => self.next(),
            },
            MutationStage::Settling => match self.committed {
                None => self.fail(ServiceError::ExecutorFailed),
                Some(committed) => {
                    let announced = service.revision_durable_committed(
                        id,
                        durability(committed.snapshot),
                        self.waited,
                    );
                    self.published(announced)
                },
            },
            MutationStage::Over => match self.failure {
                Some(error) => UseAction::End(Err(error)),
                None => UseAction::End(Ok(())),
            },
            _ => match answer {
                Err(error) => self.fail(error),
                Ok(_) => {
                    if self.stage == MutationStage::Leasing {
                        if let MutationTask::Relocate(EntryKind::Tombstone) = self.task {
                            return self.fail(ServiceError::InvalidInput);
                        }
                    }
                    self.next()
                },
            },
        }
    }
}

} // verus!
