//! Listings and status.
use vstd::prelude::*;

use crate::error::ServiceError;
use crate::event::{OperationEvent, OperationPhase};
use crate::local_use_cases;
use crate::local_use_cases::{Answer, UseAction};
use crate::operation::{OperationId, Publication};
use crate::service::locking;
use crate::service::runtime::{CoreModel, ServiceCore};
use crate::service::scheduler;
use crate::service::worker;

verus! {

/// What is read.
#[derive(Clone, Copy, Debug, PartialEq, Eq, Structural)]
pub enum ReadTask {
    List,
    Status,
}

/// Where a read stands.
#[derive(Clone, Copy, Debug, PartialEq, Eq, Structural)]
pub enum ReadStage {
    /// It announces that it reads.
    Announcing,
    /// It asks for a lease.
    Leasing,
    /// It reads.
    Reading,
    /// It looks whether the operation may go on.
    Guarding,
    /// It gives the lease back.
    Finishing,
    /// It is over.
    Over,
}

/// A read on its way.
#[derive(Clone, Copy, Debug, PartialEq, Eq, Structural)]
pub struct ReadRun {
    pub task: ReadTask,
    pub stage: ReadStage,
    /// Whether the announcement waits for room.
    pub waited: bool,
    /// What failed under the lease.
    pub failure: Option<ServiceError>,
}

/// What a step of a read leads to.
pub struct ReadMove {
    pub service: CoreModel,
    pub run: ReadRun,
    pub action: UseAction,
}

/// What a read needs at a stage.
pub open spec fn read_action(stage: ReadStage) -> UseAction {
    match stage {
        ReadStage::Announcing => UseAction::Continue,
        ReadStage::Leasing => UseAction::TakeLease,
        ReadStage::Reading => UseAction::Read,
        ReadStage::Guarding => UseAction::Continue,
        ReadStage::Finishing => UseAction::FinishLease,
        ReadStage::Over => UseAction::End(Ok(())),
    }
}

/// A read that goes on to a stage.
pub open spec fn read_to(service: CoreModel, run: ReadRun, stage: ReadStage) -> ReadMove {
    ReadMove { service, run: ReadRun { stage, ..run }, action: read_action(stage) }
}

/// A read that ends with an error.
pub open spec fn read_failed(service: CoreModel, run: ReadRun, error: ServiceError) -> ReadMove {
    ReadMove {
        service,
        run: ReadRun { stage: ReadStage::Over, failure: Some(error), ..run },
        action: UseAction::End(Err(error)),
    }
}

/// Where one step leads a read. What fails under the lease is reported after the
/// lease was given back, and before what came of that.
pub open spec fn read_move(
    core_state: CoreModel,
    run: ReadRun,
    id: OperationId,
    answer: Result<Answer, ServiceError>,
) -> ReadMove {
    let announcement = OperationEvent::PhaseChanged(OperationPhase::Reading);
    match run.stage {
        ReadStage::Announcing => {
            let announced = locking::with_scheduler(
                core_state,
                worker::after_emit(core_state.scheduler, id, announcement, run.waited),
            );
            match worker::emit_answer(core_state.scheduler, id, announcement, run.waited) {
                Err(error) => read_failed(announced, run, error),
                Ok(Publication::WaitForRoom) => ReadMove {
                    service: announced,
                    run: ReadRun { waited: true, ..run },
                    action: UseAction::WaitForRoom,
                },
                Ok(Publication::Delivered) => match local_use_cases::status_binding(announced, id) {
                    Err(error) if run.task is Status => read_failed(announced, run, error),
                    _ => read_to(announced, run, ReadStage::Leasing),
                },
            }
        },
        ReadStage::Leasing => match answer {
            Ok(_) => read_to(core_state, run, ReadStage::Reading),
            Err(error) => read_failed(core_state, run, error),
        },
        ReadStage::Reading => match answer {
            Ok(_) => read_to(core_state, run, ReadStage::Guarding),
            Err(error) => read_to(
                core_state,
                ReadRun { failure: Some(error), ..run },
                ReadStage::Finishing,
            ),
        },
        ReadStage::Guarding => {
            let looked = locking::with_scheduler(
                core_state,
                scheduler::after_boundary(core_state.scheduler, id),
            );
            match scheduler::boundary_answer(core_state.scheduler, id) {
                Ok(()) => read_to(looked, run, ReadStage::Finishing),
                Err(error) => read_to(
                    looked,
                    ReadRun { failure: Some(error), ..run },
                    ReadStage::Finishing,
                ),
            }
        },
        ReadStage::Finishing => match (run.failure, answer) {
            (Some(error), _) => read_failed(core_state, run, error),
            (None, Err(error)) => read_failed(core_state, run, error),
            (None, Ok(_)) => read_to(core_state, run, ReadStage::Over),
        },
        ReadStage::Over => ReadMove {
            service: core_state,
            run,
            action: match run.failure {
                Some(error) => UseAction::End(Err(error)),
                None => UseAction::End(Ok(())),
            },
        },
    }
}

impl ReadRun {
    pub fn new(task: ReadTask) -> (run: Self)
        ensures
            run == (ReadRun { task, stage: ReadStage::Announcing, waited: false, failure: None }),
    {
        ReadRun { task, stage: ReadStage::Announcing, waited: false, failure: None }
    }

    fn go(&mut self, stage: ReadStage) -> (action: UseAction)
        ensures
            *final(self) == (ReadRun { stage, ..*old(self) }),
            action == read_action(stage),
    {
        self.stage = stage;
        match stage {
            ReadStage::Announcing => UseAction::Continue,
            ReadStage::Leasing => UseAction::TakeLease,
            ReadStage::Reading => UseAction::Read,
            ReadStage::Guarding => UseAction::Continue,
            ReadStage::Finishing => UseAction::FinishLease,
            ReadStage::Over => UseAction::End(Ok(())),
        }
    }

    fn fail(&mut self, error: ServiceError) -> (action: UseAction)
        ensures
            *final(self) == (ReadRun {
                stage: ReadStage::Over,
                failure: Some(error),
                ..*old(self)
            }),
            action == UseAction::End(Err(error)),
    {
        self.stage = ReadStage::Over;
        self.failure = Some(error);
        UseAction::End(Err(error))
    }

    /// Takes the read one step further, with what came of its last action.
    pub fn advance(
        &mut self,
        service: &mut ServiceCore,
        id: OperationId,
        answer: Result<Answer, ServiceError>,
    ) -> (action: UseAction)
        ensures
            read_move(old(service)@, *old(self), id, answer) == (ReadMove {
                service: final(service)@,
                run: *final(self),
                action,
            }),
    {
        match self.stage {
            ReadStage::Announcing => match service.emit(
                id,
                OperationEvent::PhaseChanged(OperationPhase::Reading),
                self.waited,
            ) {
                Err(error) => self.fail(error),
                Ok(Publication::WaitForRoom) => {
                    self.waited = true;
                    UseAction::WaitForRoom
                },
                Ok(Publication::Delivered) => {
                    if self.task == ReadTask::Status {
                        if let Err(error) = service.status_binding(id) {
                            return self.fail(error);
                        }
                    }
                    self.go(ReadStage::Leasing)
                },
            },
            ReadStage::Leasing => match answer {
                Ok(_) => self.go(ReadStage::Reading),
                Err(error) => self.fail(error),
            },
            ReadStage::Reading => match answer {
                Ok(_) => self.go(ReadStage::Guarding),
                Err(error) => {
                    self.failure = Some(error);
                    self.go(ReadStage::Finishing)
                },
            },
            ReadStage::Guarding => {
                if let Err(error) = service.operation_safe_boundary(id) {
                    self.failure = Some(error);
                }
                self.go(ReadStage::Finishing)
            },
            ReadStage::Finishing => match (self.failure, answer) {
                (Some(error), _) => self.fail(error),
                (None, Err(error)) => self.fail(error),
                (None, Ok(_)) => self.go(ReadStage::Over),
            },
            ReadStage::Over => match self.failure {
                Some(error) => UseAction::End(Err(error)),
                None => UseAction::End(Ok(())),
            },
        }
    }
}

} // verus!
