//! Exports of one exact revision.
use vstd::prelude::*;

use crate::command::SnapshotVersion;
use crate::error::ServiceError;
use crate::event;
use crate::event::{OperationEvent, OperationPhase, Progress, ProgressUnit};
use crate::local_use_cases::{Answer, UseAction};
use crate::operation::{OperationId, Publication};
use crate::service::locking;
use crate::service::runtime;
use crate::service::runtime::{CoreModel, ServiceCore};
use crate::service::scheduler;
use crate::service::worker;

verus! {

/// Where an export stands.
#[derive(Clone, Copy, Debug, PartialEq, Eq, Structural)]
pub enum ExportStage {
    /// It announces that it prepares.
    Preparing,
    /// It asks for a lease.
    Leasing,
    /// It compares the snapshot.
    Comparing,
    /// It checks what it is bound to.
    Checking,
    /// It begins at the host.
    Beginning,
    /// It announces that it reads.
    Reading,
    /// It writes.
    Writing,
    /// It gives the lease back.
    Finishing,
    /// It announces what it wrote.
    Counting,
    /// It announces that it publishes.
    Publishing,
    /// It flushes.
    Flushing,
    /// It looks whether the operation may go on.
    Guarding,
    /// It publishes at the host.
    Releasing,
    /// It is given up for this reason.
    Aborting(ServiceError),
    /// It is over.
    Over,
}

/// An export on its way.
#[derive(Clone, Copy, Debug)]
pub struct ExportRun {
    pub expected_snapshot: SnapshotVersion,
    pub stage: ExportStage,
    /// Whether the announcement of the stage waits for room.
    pub waited: bool,
    /// Whether it began at the host.
    pub began: bool,
    /// What failed under the lease, or ended the export.
    pub failure: Option<ServiceError>,
    /// How many bytes were written.
    pub bytes: u64,
}

/// What a step of an export leads to.
pub struct ExportMove {
    pub service: CoreModel,
    pub run: ExportRun,
    pub action: UseAction,
}

/// What an export needs at a stage.
pub open spec fn export_action(stage: ExportStage) -> UseAction {
    match stage {
        ExportStage::Leasing => UseAction::TakeLease,
        ExportStage::Comparing => UseAction::ReadSnapshot,
        ExportStage::Checking => UseAction::CheckBinding,
        ExportStage::Beginning => UseAction::BeginExport,
        ExportStage::Writing => UseAction::Export,
        ExportStage::Finishing => UseAction::FinishLease,
        ExportStage::Flushing => UseAction::Flush,
        ExportStage::Releasing => UseAction::Publish,
        ExportStage::Aborting(_) => UseAction::AbortExport,
        ExportStage::Over => UseAction::End(Ok(())),
        _ => UseAction::Continue,
    }
}

/// What an export announces at a stage, where it announces something.
pub open spec fn export_event(stage: ExportStage, bytes: u64) -> Option<OperationEvent> {
    match stage {
        ExportStage::Preparing => Some(OperationEvent::PhaseChanged(OperationPhase::Preparing)),
        ExportStage::Reading => Some(OperationEvent::PhaseChanged(OperationPhase::Reading)),
        ExportStage::Counting => Some(
            OperationEvent::Progress(event::progress_of(ProgressUnit::Bytes, bytes, Some(bytes))),
        ),
        ExportStage::Publishing => Some(OperationEvent::PhaseChanged(OperationPhase::Publishing)),
        _ => None,
    }
}

/// The stage that follows one that announces.
pub open spec fn after_announcement(stage: ExportStage) -> ExportStage {
    match stage {
        ExportStage::Preparing => ExportStage::Leasing,
        ExportStage::Reading => ExportStage::Writing,
        ExportStage::Counting => ExportStage::Publishing,
        _ => ExportStage::Flushing,
    }
}

/// An export that goes on to a stage.
pub open spec fn export_to(service: CoreModel, run: ExportRun, stage: ExportStage) -> ExportMove {
    ExportMove {
        service,
        run: ExportRun { stage, waited: false, ..run },
        action: export_action(stage),
    }
}

/// An export that ends with an error.
pub open spec fn export_failed(service: CoreModel, run: ExportRun, error: ServiceError) -> ExportMove {
    ExportMove {
        service,
        run: ExportRun { stage: ExportStage::Over, failure: Some(error), ..run },
        action: UseAction::End(Err(error)),
    }
}

/// An export that ends with an error of the host, which may leave cleanup to be
/// done.
pub open spec fn export_failed_outside(service: CoreModel, run: ExportRun, error: ServiceError) -> ExportMove {
    export_failed(
        if error == ServiceError::CleanupRequired {
            runtime::after_latch(service)
        } else {
            service
        },
        run,
        error,
    )
}

/// An export that cannot go on: one that began is given up.
pub open spec fn export_stops(service: CoreModel, run: ExportRun, error: ServiceError) -> ExportMove {
    if run.began {
        export_to(service, run, ExportStage::Aborting(error))
    } else {
        export_failed(service, run, error)
    }
}

/// An export that failed under its lease, which is given back first.
pub open spec fn export_failed_under_lease(service: CoreModel, run: ExportRun, error: ServiceError) -> ExportMove {
    export_to(service, ExportRun { failure: Some(error), ..run }, ExportStage::Finishing)
}

/// An export that announces where it stands.
pub open spec fn export_announces(
    core_state: CoreModel,
    run: ExportRun,
    id: OperationId,
    announcement: OperationEvent,
) -> ExportMove {
    let announced = locking::with_scheduler(
        core_state,
        worker::after_emit(core_state.scheduler, id, announcement, run.waited),
    );
    match worker::emit_answer(core_state.scheduler, id, announcement, run.waited) {
        Err(error) => export_stops(announced, run, error),
        Ok(Publication::WaitForRoom) => ExportMove {
            service: announced,
            run: ExportRun { waited: true, ..run },
            action: UseAction::WaitForRoom,
        },
        Ok(Publication::Delivered) => export_to(announced, run, after_announcement(run.stage)),
    }
}

/// Where one step leads an export.
pub open spec fn export_move(
    core_state: CoreModel,
    run: ExportRun,
    id: OperationId,
    answer: Result<Answer, ServiceError>,
) -> ExportMove {
    match export_event(run.stage, run.bytes) {
        Some(announcement) => export_announces(core_state, run, id, announcement),
        None => match run.stage {
            ExportStage::Leasing => match answer {
                Ok(_) => export_to(core_state, run, ExportStage::Comparing),
                Err(error) => export_failed(core_state, run, error),
            },
            ExportStage::Comparing => match answer {
                Ok(Answer::Snapshot(snapshot)) => if snapshot == run.expected_snapshot {
                    export_to(core_state, run, ExportStage::Checking)
                } else {
                    export_failed_under_lease(core_state, run, ServiceError::StaleCapability)
                },
                Ok(_) => export_failed(core_state, run, ServiceError::ExecutorFailed),
                Err(error) => export_failed(core_state, run, error),
            },
            ExportStage::Checking => match answer {
                Ok(_) => export_to(core_state, run, ExportStage::Beginning),
                Err(error) => export_failed_under_lease(core_state, run, error),
            },
            ExportStage::Beginning => match answer {
                Ok(_) => export_to(
                    core_state,
                    ExportRun { began: true, ..run },
                    ExportStage::Reading,
                ),
                Err(error) => export_failed_outside(core_state, run, error),
            },
            ExportStage::Writing => match answer {
                Ok(Answer::Exported(bytes)) => export_to(
                    core_state,
                    ExportRun { bytes, ..run },
                    ExportStage::Finishing,
                ),
                Ok(_) => export_failed_under_lease(core_state, run, ServiceError::ExecutorFailed),
                Err(error) => export_failed_under_lease(core_state, run, error),
            },
            ExportStage::Finishing => match (run.failure, answer) {
                (Some(error), _) => export_stops(core_state, run, error),
                (None, Err(error)) => export_stops(core_state, run, error),
                (None, Ok(_)) => export_to(core_state, run, ExportStage::Counting),
            },
            ExportStage::Flushing => match answer {
                Ok(_) => export_to(core_state, run, ExportStage::Guarding),
                Err(error) => export_stops(core_state, run, error),
            },
            ExportStage::Guarding => {
                let looked = locking::with_scheduler(
                    core_state,
                    scheduler::after_boundary(core_state.scheduler, id),
                );
                match scheduler::boundary_answer(core_state.scheduler, id) {
                    Ok(()) => export_to(looked, run, ExportStage::Releasing),
                    Err(error) => export_stops(looked, run, error),
                }
            },
            ExportStage::Releasing => match answer {
                Ok(_) => export_to(core_state, run, ExportStage::Over),
                Err(error) => export_failed_outside(core_state, run, error),
            },
            ExportStage::Aborting(primary) => match answer {
                Ok(_) => export_failed(core_state, run, primary),
                Err(_) => export_failed_outside(core_state, run, ServiceError::CleanupRequired),
            },
            _ => ExportMove {
                service: core_state,
                run,
                action: match run.failure {
                    Some(error) => UseAction::End(Err(error)),
                    None => UseAction::End(Ok(())),
                },
            },
        },
    }
}

impl ExportRun {
    pub fn new(expected_snapshot: SnapshotVersion) -> (run: Self)
        ensures
            run == (ExportRun {
                expected_snapshot,
                stage: ExportStage::Preparing,
                waited: false,
                began: false,
                failure: None,
                bytes: 0,
            }),
    {
        ExportRun {
            expected_snapshot,
            stage: ExportStage::Preparing,
            waited: false,
            began: false,
            failure: None,
            bytes: 0,
        }
    }

    fn go(&mut self, stage: ExportStage) -> (action: UseAction)
        ensures
            *final(self) == (ExportRun { stage, waited: false, ..*old(self) }),
            action == export_action(stage),
    {
        self.stage = stage;
        self.waited = false;
        match stage {
            ExportStage::Leasing => UseAction::TakeLease,
            ExportStage::Comparing => UseAction::ReadSnapshot,
            ExportStage::Checking => UseAction::CheckBinding,
            ExportStage::Beginning => UseAction::BeginExport,
            ExportStage::Writing => UseAction::Export,
            ExportStage::Finishing => UseAction::FinishLease,
            ExportStage::Flushing => UseAction::Flush,
            ExportStage::Releasing => UseAction::Publish,
            ExportStage::Aborting(_) => UseAction::AbortExport,
            ExportStage::Over => UseAction::End(Ok(())),
            _ => UseAction::Continue,
        }
    }

    fn fail(&mut self, error: ServiceError) -> (action: UseAction)
        ensures
            *final(self) == (ExportRun {
                stage: ExportStage::Over,
                failure: Some(error),
                ..*old(self)
            }),
            action == UseAction::End(Err(error)),
    {
        self.stage = ExportStage::Over;
        self.failure = Some(error);
        UseAction::End(Err(error))
    }

    fn stop(&mut self, error: ServiceError) -> (action: UseAction)
        ensures
            forall|service: CoreModel| #[trigger]
                export_stops(service, *old(self), error) == (ExportMove {
                    service,
                    run: *final(self),
                    action,
                }),
    {
        if self.began {
            self.go(ExportStage::Aborting(error))
        } else {
            self.fail(error)
        }
    }

    fn announcement(&self) -> (announcement: Option<OperationEvent>)
        ensures
            announcement == export_event(self.stage, self.bytes),
    {
        match self.stage {
            ExportStage::Preparing => Some(OperationEvent::PhaseChanged(OperationPhase::Preparing)),
            ExportStage::Reading => Some(OperationEvent::PhaseChanged(OperationPhase::Reading)),
            ExportStage::Counting => match Progress::bytes(self.bytes, Some(self.bytes)) {
                Ok(progress) => Some(OperationEvent::Progress(progress)),
                Err(_) => None,
            },
            ExportStage::Publishing => Some(
                OperationEvent::PhaseChanged(OperationPhase::Publishing),
            ),
            _ => None,
        }
    }

    fn announced(&mut self, answer: Result<Publication, ServiceError>) -> (action: UseAction)
        ensures
            match answer {
                Err(error) => forall|service: CoreModel| #[trigger]
                    export_stops(service, *old(self), error) == (ExportMove {
                        service,
                        run: *final(self),
                        action,
                    }),
                Ok(Publication::WaitForRoom) => *final(self) == (ExportRun {
                    waited: true,
                    ..*old(self)
                }) && action == UseAction::WaitForRoom,
                Ok(Publication::Delivered) => *final(self) == (ExportRun {
                    stage: after_announcement(old(self).stage),
                    waited: false,
                    ..*old(self)
                }) && action == export_action(final(self).stage),
            },
    {
        match answer {
            Err(error) => self.stop(error),
            Ok(Publication::WaitForRoom) => {
                self.waited = true;
                UseAction::WaitForRoom
            },
            Ok(Publication::Delivered) => {
                let next = match self.stage {
                    ExportStage::Preparing => ExportStage::Leasing,
                    ExportStage::Reading => ExportStage::Writing,
                    ExportStage::Counting => ExportStage::Publishing,
                    _ => ExportStage::Flushing,
                };
                self.go(next)
            },
        }
    }

    /// Takes the export one step further, with what came of its last action.
    pub fn advance(
        &mut self,
        service: &mut ServiceCore,
        id: OperationId,
        answer: Result<Answer, ServiceError>,
    ) -> (action: UseAction)
        ensures
            export_move(old(service)@, *old(self), id, answer) == (ExportMove {
                service: final(service)@,
                run: *final(self),
                action,
            }),
    {
        if let Some(announcement) = self.announcement() {
            let emitted = service.emit(id, announcement, self.waited);
            let action = self.announced(emitted);
            assert(emitted is Err ==> export_stops(
                service@,
                *old(self),
                emitted->Err_0,
            ) == (ExportMove { service: service@, run: *self, action }));
            return action;
        }
        match self.stage {
            ExportStage::Leasing => match answer {
                Ok(_) => self.go(ExportStage::Comparing),
                Err(error) => self.fail(error),
            },
            ExportStage::Comparing => match answer {
                Ok(Answer::Snapshot(snapshot)) => if snapshot == self.expected_snapshot {
                    self.go(ExportStage::Checking)
                } else {
                    self.failure = Some(ServiceError::StaleCapability);
                    self.go(ExportStage::Finishing)
                },
                Ok(_) => self.fail(ServiceError::ExecutorFailed),
                Err(error) => self.fail(error),
            },
            ExportStage::Checking => match answer {
                Ok(_) => self.go(ExportStage::Beginning),
                Err(error) => {
                    self.failure = Some(error);
                    self.go(ExportStage::Finishing)
                },
            },
            ExportStage::Beginning => match answer {
                Ok(_) => {
                    self.began = true;
                    self.go(ExportStage::Reading)
                },
                Err(error) => {
                    service.latch_failure(error);
                    self.fail(error)
                },
            },
            ExportStage::Writing => {
                match answer {
                    Ok(Answer::Exported(bytes)) => {
                        self.bytes = bytes;
                    },
                    Ok(_) => {
                        self.failure = Some(ServiceError::ExecutorFailed);
                    },
                    Err(error) => {
                        self.failure = Some(error);
                    },
                }
                self.go(ExportStage::Finishing)
            },
            ExportStage::Finishing => match (self.failure, answer) {
                (Some(error), _) => self.stop(error),
                (None, Err(error)) => self.stop(error),
                (None, Ok(_)) => self.go(ExportStage::Counting),
            },
            ExportStage::Flushing => match answer {
                Ok(_) => self.go(ExportStage::Guarding),
                Err(error) => self.stop(error),
            },
            ExportStage::Guarding => match service.operation_safe_boundary(id) {
                Ok(()) => self.go(ExportStage::Releasing),
                Err(error) => self.stop(error),
            },
            ExportStage::Releasing => match answer {
                Ok(_) => self.go(ExportStage::Over),
                Err(error) => {
                    service.latch_failure(error);
                    self.fail(error)
                },
            },
            ExportStage::Aborting(primary) => match answer {
                Ok(_) => self.fail(primary),
                Err(_) => {
                    service.latch_cleanup_required();
                    self.fail(ServiceError::CleanupRequired)
                },
            },
            _ => match self.failure {
                Some(error) => UseAction::End(Err(error)),
                None => UseAction::End(Ok(())),
            },
        }
    }
}

} // verus!
