//! What the threads of a service decide: how a control is handled, how an
//! operation is carried out, and what it may do meanwhile.
use vstd::prelude::*;

use crate::command::OperationResult;
use crate::error::ServiceError;
use crate::event::{
    ConflictSummary, DurabilitySummary, OperationEvent, OperationPhase, Progress, WarningCode,
};
use crate::operation;
use crate::operation::{Lifecycle, OperationId, OperationModel, OperationState, Publication};
use crate::service::locking;
use crate::service::mailbox::PendingControl;
use crate::service::runtime;
use crate::service::runtime::{CoreModel, ServiceCore};
use crate::service::scheduler;
use crate::service::scheduler::SchedulerModel;
use crate::service::transitions::TransitionKind;
use crate::service::{flows, transitions, Control};
use crate::session::errors::{PortAnswer, RepositoryPortError};
use crate::session::manager;
use crate::session::manager::LeaseStep;
use crate::time::Duration;

verus! {

/// How the coordinator handles a control.
#[derive(Clone, Copy, Debug, PartialEq, Eq)]
pub enum ControlStep {
    /// It belongs to an earlier generation: nothing is done.
    Stale,
    /// The observer is told.
    Observe,
    /// The leases of an operation are cancelled where it says so, then its
    /// transition, and the observer is told.
    Cancel(OperationId, bool),
    /// The lock of a generation is carried out, then the observer is told.
    Lock(u64),
}

/// Whether a control locks the service.
pub open spec fn locks(control: Control) -> bool {
    control is LockNow || control is DeadlineExpired || control is Suspend
}

/// How the coordinator handles a control.
pub open spec fn control_step(scheduler: SchedulerModel, pending: PendingControl) -> ControlStep {
    if pending.generation != scheduler.generation {
        ControlStep::Stale
    } else if pending.trusted_activity {
        ControlStep::Observe
    } else {
        match pending.control {
            Control::Cancel(id) => ControlStep::Cancel(
                id,
                match scheduler::place_of(scheduler.active, id) {
                    Some(index) => !scheduler.active[index].lease_cancellation_queued,
                    None => false,
                },
            ),
            Control::UserActivity => ControlStep::Observe,
            _ => ControlStep::Lock(pending.generation),
        }
    }
}

/// The service after the coordinator took up a control.
pub open spec fn after_control_step(core_state: CoreModel, pending: PendingControl) -> CoreModel {
    match control_step(core_state.scheduler, pending) {
        ControlStep::Stale => observed(core_state, pending),
        ControlStep::Cancel(id, _) => locking::after_queue_leases(core_state, id),
        _ => core_state,
    }
}

/// The service after a control was observed.
pub open spec fn observed(core_state: CoreModel, pending: PendingControl) -> CoreModel {
    locking::with_scheduler(
        core_state,
        scheduler::after_observation(core_state.scheduler, pending),
    )
}

/// The service after a control was handed to the observer. A control that could
/// not be handed over is done, and shuts the service down unless it only
/// notes activity.
pub open spec fn after_delivery(
    core_state: CoreModel,
    pending: PendingControl,
    delivered: bool,
) -> CoreModel {
    if delivered {
        core_state
    } else if pending.trusted_activity {
        observed(core_state, pending)
    } else {
        runtime::after_shutdown(observed(core_state, pending))
    }
}

/// How a worker begins an operation.
#[derive(Clone, Copy, Debug, PartialEq, Eq, Structural)]
pub enum WorkStep {
    /// It is not to be carried out.
    Skip,
    /// It ends with an error.
    Fail(ServiceError),
    /// Its start is announced once its consumer took an event.
    WaitForRoom,
    /// It is carried out.
    Run,
}

/// A scheduler in which an operation has another state.
pub open spec fn with_operation(
    scheduler: SchedulerModel,
    index: int,
    state: OperationModel,
) -> SchedulerModel {
    SchedulerModel { active: scheduler.active.update(index, state), ..scheduler }
}

/// The scheduler after a worker took an operation.
pub open spec fn taken(scheduler: SchedulerModel, id: OperationId) -> SchedulerModel {
    match scheduler::place_of(scheduler.active, id) {
        Some(index) if scheduler.active[index].lifecycle is Accepted => with_operation(
            scheduler,
            index,
            OperationModel { lifecycle: Lifecycle::Running, ..scheduler.active[index] },
        ),
        _ => scheduler,
    }
}

/// What an attempt to publish an event of an operation answers.
pub open spec fn publish_answer(
    scheduler: SchedulerModel,
    id: OperationId,
    event: OperationEvent,
) -> Result<Publication, ServiceError> {
    match scheduler::place_of(scheduler.active, id) {
        Some(index) => operation::publish_answer(scheduler.active[index], event),
        None => Err(ServiceError::Closed),
    }
}

/// The scheduler after an attempt to publish an event of an operation.
pub open spec fn after_publish(
    scheduler: SchedulerModel,
    id: OperationId,
    event: OperationEvent,
) -> SchedulerModel {
    match scheduler::place_of(scheduler.active, id) {
        Some(index) => with_operation(
            scheduler,
            index,
            operation::after_publish(scheduler.active[index], event),
        ),
        None => scheduler,
    }
}

/// How a worker begins an operation.
pub open spec fn work_step(scheduler: SchedulerModel, id: OperationId) -> WorkStep {
    match scheduler::place_of(scheduler.active, id) {
        Some(index) if scheduler.active[index].lifecycle is Accepted => {
            let running = taken(scheduler, id);
            match scheduler::boundary_answer(running, id) {
                Err(error) => WorkStep::Fail(error),
                Ok(()) => match publish_answer(running, id, OperationEvent::Started) {
                    Err(error) => WorkStep::Fail(error),
                    Ok(Publication::WaitForRoom) => WorkStep::WaitForRoom,
                    Ok(Publication::Delivered) => WorkStep::Run,
                },
            }
        },
        _ => WorkStep::Skip,
    }
}

/// The scheduler after a worker began an operation.
pub open spec fn after_work_step(scheduler: SchedulerModel, id: OperationId) -> SchedulerModel {
    match scheduler::place_of(scheduler.active, id) {
        Some(index) if scheduler.active[index].lifecycle is Accepted => {
            let running = taken(scheduler, id);
            if scheduler::boundary_answer(running, id) is Err {
                scheduler::after_boundary(running, id)
            } else {
                after_publish(running, id, OperationEvent::Started)
            }
        },
        _ => scheduler,
    }
}

/// The outcome of an operation: a result counts only where the operation might
/// still go on, and a panic is an outcome of its own.
pub open spec fn work_outcome(
    scheduler: SchedulerModel,
    id: OperationId,
    answer: PortAnswer<Result<OperationResult, ServiceError>>,
) -> Result<OperationResult, ServiceError> {
    match answer {
        PortAnswer::Returned(Ok(result)) => match scheduler::boundary_answer(scheduler, id) {
            Ok(()) => Ok(result),
            Err(error) => Err(error),
        },
        PortAnswer::Returned(Err(error)) => Err(error),
        PortAnswer::Panicked => Err(ServiceError::WorkerPanicked),
    }
}

/// The scheduler on which the outcome of an operation is recorded.
pub open spec fn before_outcome(
    scheduler: SchedulerModel,
    id: OperationId,
    answer: PortAnswer<Result<OperationResult, ServiceError>>,
) -> SchedulerModel {
    match answer {
        PortAnswer::Returned(Ok(_)) => scheduler::after_boundary(scheduler, id),
        _ => scheduler,
    }
}

/// What the emission of an event answers: the operation has to be allowed to go
/// on before and after. A wait for room does not look before again.
pub open spec fn emit_answer(
    scheduler: SchedulerModel,
    id: OperationId,
    event: OperationEvent,
    waited: bool,
) -> Result<Publication, ServiceError> {
    if !waited && scheduler::boundary_answer(scheduler, id) is Err {
        Err(scheduler::boundary_answer(scheduler, id)->Err_0)
    } else {
        let looked = if waited {
            scheduler
        } else {
            scheduler::after_boundary(scheduler, id)
        };
        match publish_answer(looked, id, event) {
            Ok(Publication::Delivered) => match scheduler::boundary_answer(
                after_publish(looked, id, event),
                id,
            ) {
                Ok(()) => Ok(Publication::Delivered),
                Err(error) => Err(error),
            },
            answer => answer,
        }
    }
}

/// The scheduler after the emission of an event.
pub open spec fn after_emit(
    scheduler: SchedulerModel,
    id: OperationId,
    event: OperationEvent,
    waited: bool,
) -> SchedulerModel {
    let looked = if waited {
        scheduler
    } else {
        scheduler::after_boundary(scheduler, id)
    };
    if !waited && scheduler::boundary_answer(scheduler, id) is Err {
        looked
    } else if publish_answer(looked, id, event) == Ok::<Publication, ServiceError>(
        Publication::Delivered,
    ) {
        scheduler::after_boundary(after_publish(looked, id, event), id)
    } else {
        looked
    }
}

/// What became of a lease.
#[derive(Clone, Copy, Debug, PartialEq, Eq, Structural)]
pub enum LeaseOutcome {
    /// The operation has it.
    Granted,
    /// It is cancelled and finished, and the operation gets an error.
    GiveBack(ServiceError),
    /// There is none.
    Refused(ServiceError),
}

/// What the check before a lease answers: the generation that it is asked for.
pub open spec fn begin_lease_answer(core_state: CoreModel, id: OperationId) -> Result<
    u64,
    ServiceError,
> {
    match (scheduler::lease_answer(core_state.scheduler, id), core_state.session) {
        (Ok(generation), Some(session)) if manager::root_is_usable(
            session.data,
            generation,
        ) => Ok(generation),
        (Err(error), _) => Err(error),
        _ => Err(ServiceError::Locked),
    }
}

/// The error that an operation gets in place of a local lease: one that a lock
/// refused was cancelled.
pub open spec fn lease_failure(core_state: CoreModel, error: ServiceError, local: bool) -> ServiceError {
    if local && error == ServiceError::Locked && !core_state.scheduler.key_leases_open {
        ServiceError::Cancelled
    } else {
        error
    }
}

/// The service after an operation got an error in place of a lease.
pub open spec fn after_lease_failure(
    core_state: CoreModel,
    id: OperationId,
    error: ServiceError,
    local: bool,
) -> CoreModel {
    if lease_failure(core_state, error, local) != error {
        locking::with_scheduler(core_state, marked_cancelled(core_state.scheduler, id))
    } else {
        core_state
    }
}

/// The scheduler after an operation was marked as cancelled.
pub open spec fn marked_cancelled(scheduler: SchedulerModel, id: OperationId) -> SchedulerModel {
    match scheduler::place_of(scheduler.active, id) {
        Some(index) => with_operation(
            scheduler,
            index,
            operation::after_cancel(scheduler.active[index]),
        ),
        None => scheduler,
    }
}

/// Whether the cancellation of a lease can be registered with an operation.
pub open spec fn register_answer(scheduler: SchedulerModel, id: OperationId) -> Result<
    (),
    ServiceError,
> {
    match scheduler::place_of(scheduler.active, id) {
        Some(index) => operation::register_lease_answer(scheduler.active[index]),
        None => Err(ServiceError::Cancelled),
    }
}

/// The scheduler after the cancellation of a lease was registered.
pub open spec fn after_register(scheduler: SchedulerModel, id: OperationId, token: u64) -> SchedulerModel {
    match scheduler::place_of(scheduler.active, id) {
        Some(index) if register_answer(scheduler, id) is Ok => with_operation(
            scheduler,
            index,
            OperationModel {
                lease_cancellations: scheduler.active[index].lease_cancellations.push(token),
                ..scheduler.active[index]
            },
        ),
        _ => scheduler,
    }
}

/// How the session answers for a lease that was acquired.
pub open spec fn session_lease_step(
    core_state: CoreModel,
    generation: u64,
    acquired: Result<(), RepositoryPortError>,
) -> LeaseStep {
    match core_state.session {
        Some(session) => manager::lease_step(session, generation, acquired),
        None => LeaseStep::Refused(ServiceError::Locked),
    }
}

/// What became of a lease that the repository was asked for.
pub open spec fn lease_outcome(
    core_state: CoreModel,
    id: OperationId,
    generation: u64,
    acquired: Result<(), RepositoryPortError>,
    local: bool,
) -> LeaseOutcome {
    match session_lease_step(core_state, generation, acquired) {
        LeaseStep::Granted => match register_answer(core_state.scheduler, id) {
            Ok(()) => LeaseOutcome::Granted,
            Err(error) => LeaseOutcome::GiveBack(error),
        },
        LeaseStep::GiveBack => LeaseOutcome::GiveBack(
            lease_failure(core_state, ServiceError::Locked, local),
        ),
        LeaseStep::Refused(error) => LeaseOutcome::Refused(
            lease_failure(core_state, error, local),
        ),
    }
}

/// The service after the repository answered for a lease.
pub open spec fn after_lease(
    core_state: CoreModel,
    id: OperationId,
    generation: u64,
    acquired: Result<(), RepositoryPortError>,
    token: u64,
    local: bool,
) -> CoreModel {
    match session_lease_step(core_state, generation, acquired) {
        LeaseStep::Granted => locking::with_scheduler(
            core_state,
            after_register(core_state.scheduler, id, token),
        ),
        LeaseStep::GiveBack => after_lease_failure(core_state, id, ServiceError::Locked, local),
        LeaseStep::Refused(error) => after_lease_failure(core_state, id, error, local),
    }
}

/// The service after the consumer of an operation went away.
pub open spec fn after_detach(core_state: CoreModel, id: OperationId) -> CoreModel {
    if scheduler::place_of(core_state.scheduler.active, id) is Some {
        let cancelled = after_cancel_operation(core_state, id);
        flows::with_transitions(cancelled, transitions::after_cancel(cancelled.transitions, id))
    } else {
        core_state
    }
}

/// The kind of the transition that ends with the consumer of an operation.
pub open spec fn aborted_by_detach(core_state: CoreModel, id: OperationId) -> Option<
    TransitionKind,
> {
    let registry = after_cancel_operation(core_state, id).transitions;
    if scheduler::place_of(core_state.scheduler.active, id) is Some && transitions::is_pending(
        registry,
        id,
    ) {
        Some(registry.records[transitions::place_of(registry.records, id)->0].kind)
    } else {
        None
    }
}

/// The service after an operation was asked to stop.
pub open spec fn after_cancel_operation(core_state: CoreModel, id: OperationId) -> CoreModel {
    let noted = locking::with_scheduler(
        core_state,
        scheduler::after_cancel(core_state.scheduler, id),
    );
    if scheduler::cancel_overflows(core_state.scheduler, id) {
        runtime::after_shutdown(noted)
    } else {
        noted
    }
}

/// What the watch over the deadlines does next.
#[derive(Clone, Copy, Debug, PartialEq, Eq)]
pub enum DeadlineStep {
    /// Nothing: the service is closed.
    Stop,
    /// Wait until the scheduler changes, and no longer than this.
    WaitFor(Duration),
    /// Wait until the scheduler changes.
    Wait,
}

/// What a safe boundary answers of an operation that is no longer accounted: only
/// one whose effect is irrevocable goes on.
pub open spec fn detached_answer(state: OperationModel) -> Result<(), ServiceError> {
    if state.irrevocable {
        Ok(())
    } else {
        Err(ServiceError::Cancelled)
    }
}

/// An operation that is no longer accounted after a safe boundary.
pub open spec fn after_detached(state: OperationModel) -> OperationModel {
    if state.irrevocable || state.cancelled {
        state
    } else {
        operation::after_cancel(state)
    }
}

/// Looks whether an operation that its scheduler no longer accounts may go on.
pub fn detached_boundary(state: &mut OperationState) -> (answer: Result<(), ServiceError>)
    ensures
        answer == detached_answer(old(state)@),
        final(state)@ == after_detached(old(state)@),
{
    if state.is_durable() {
        return Ok(());
    }
    if !state.is_cancelled() {
        state.mark_cancelled();
    }
    Err(ServiceError::Cancelled)
}

/// Why an operation that is no longer accounted cannot arm the final save.
pub open spec fn detached_arm_failure(state: OperationModel) -> ServiceError {
    if state.session_generation is None {
        ServiceError::Locked
    } else {
        ServiceError::StaleCapability
    }
}

impl ServiceCore {
    /// Takes up a control that the coordinator was given.
    pub fn take_control(&mut self, pending: PendingControl) -> (step: ControlStep)
        requires
            pending.generation != old(self)@.scheduler.generation
                ==> old(self)@.scheduler.observer_in_flight > 0,
        ensures
            step == control_step(old(self)@.scheduler, pending),
            final(self)@ == after_control_step(old(self)@, pending),
    {
        if pending.generation != self.scheduler.generation() {
            self.scheduler.complete_control_observation(pending);
            return ControlStep::Stale;
        }
        if pending.trusted_activity {
            return ControlStep::Observe;
        }
        match pending.control {
            Control::Cancel(id) => {
                let queued = self.queue_lease_cancellation(id);
                ControlStep::Cancel(id, queued)
            },
            Control::UserActivity => ControlStep::Observe,
            _ => ControlStep::Lock(pending.generation),
        }
    }

    /// Notes that a control was handled. An operation whose cancellation was
    /// handled comes back where that retires it.
    pub fn control_handled(&mut self, pending: PendingControl) -> (retired: Option<OperationState>)
        ensures
            match pending.control {
                Control::Cancel(id) => scheduler::retired_model(retired)
                    == scheduler::retired_by_acknowledge(old(self)@.scheduler, id)
                    && final(self)@ == locking::with_scheduler(
                    old(self)@,
                    scheduler::after_acknowledge(old(self)@.scheduler, id),
                ),
                _ => retired is None && final(self)@ == old(self)@,
            },
    {
        match pending.control {
            Control::Cancel(id) => self.scheduler.acknowledge_cancel(id),
            _ => None,
        }
    }

    /// Notes whether a control could be handed to the observer.
    pub fn control_delivered(&mut self, pending: PendingControl, delivered: bool)
        requires
            !delivered ==> old(self)@.scheduler.observer_in_flight > 0,
        ensures
            final(self)@ == after_delivery(old(self)@, pending, delivered),
    {
        if delivered {
            return;
        }
        self.scheduler.complete_control_observation(pending);
        if !pending.trusted_activity {
            self.shutdown();
        }
    }

    /// Looks whether the observer still is to be told of a control.
    pub fn begin_observation(&mut self, pending: PendingControl) -> (current: bool)
        requires
            pending.generation != old(self)@.scheduler.generation
                ==> old(self)@.scheduler.observer_in_flight > 0,
        ensures
            current == (pending.generation == old(self)@.scheduler.generation),
            final(self)@ == if current {
                old(self)@
            } else {
                observed(old(self)@, pending)
            },
    {
        if self.scheduler.generation() != pending.generation {
            self.scheduler.complete_control_observation(pending);
            return false;
        }
        true
    }

    /// Notes that the observer was told of a control. An observer that panicked
    /// shuts the service down.
    pub fn end_observation(&mut self, pending: PendingControl, panicked: bool)
        requires
            old(self)@.scheduler.observer_in_flight > 0,
        ensures
            final(self)@ == if panicked {
                runtime::after_shutdown(observed(old(self)@, pending))
            } else {
                observed(old(self)@, pending)
            },
    {
        self.scheduler.complete_control_observation(pending);
        if panicked {
            self.shutdown();
        }
    }

    /// What the watch over the deadlines does after a look at them.
    pub fn deadline_step(&self, answer: Result<Option<Duration>, ServiceError>) -> (step:
        DeadlineStep)
        ensures
            step == if self@.scheduler.closed {
                DeadlineStep::Stop
            } else {
                match answer {
                    Ok(Some(wait)) => DeadlineStep::WaitFor(wait),
                    _ => DeadlineStep::Wait,
                }
            },
    {
        if self.scheduler.is_closed() {
            return DeadlineStep::Stop;
        }
        match answer {
            Ok(Some(wait)) => DeadlineStep::WaitFor(wait),
            _ => DeadlineStep::Wait,
        }
    }

    /// Publishes an event of an operation.
    pub fn publish(&mut self, id: OperationId, event: OperationEvent) -> (answer: Result<
        Publication,
        ServiceError,
    >)
        ensures
            answer == publish_answer(old(self)@.scheduler, id, event),
            final(self)@ == locking::with_scheduler(
                old(self)@,
                after_publish(old(self)@.scheduler, id, event),
            ),
    {
        match self.scheduler.operation_mut(id) {
            Some(state) => state.publish(event),
            None => Err(ServiceError::Closed),
        }
    }

    /// Looks at a safe boundary whether an operation may go on.
    pub fn operation_safe_boundary(&mut self, id: OperationId) -> (answer: Result<
        (),
        ServiceError,
    >)
        ensures
            answer == scheduler::boundary_answer(old(self)@.scheduler, id),
            final(self)@ == locking::with_scheduler(
                old(self)@,
                scheduler::after_boundary(old(self)@.scheduler, id),
            ),
    {
        self.scheduler.safe_boundary(id)
    }

    /// Begins an operation on a worker.
    pub fn begin_work(&mut self, id: OperationId) -> (step: WorkStep)
        ensures
            step == work_step(old(self)@.scheduler, id),
            final(self)@ == locking::with_scheduler(
                old(self)@,
                after_work_step(old(self)@.scheduler, id),
            ),
    {
        let ghost before = self@;
        let started = match self.scheduler.operation_mut(id) {
            Some(state) => state.mark_running(),
            None => false,
        };
        if !started {
            assert(self@.scheduler.active =~= before.scheduler.active);
            assert(self@ == before);
            return WorkStep::Skip;
        }
        assert(self@.scheduler == taken(before.scheduler, id));
        if let Err(error) = self.operation_safe_boundary(id) {
            return WorkStep::Fail(error);
        }
        assert(scheduler::after_boundary(taken(before.scheduler, id), id) == taken(
            before.scheduler,
            id,
        ));
        match self.publish(id, OperationEvent::Started) {
            Err(error) => WorkStep::Fail(error),
            Ok(Publication::WaitForRoom) => WorkStep::WaitForRoom,
            Ok(Publication::Delivered) => WorkStep::Run,
        }
    }

    /// Ends an operation with what carrying it out answered. It comes back where
    /// it is retired.
    pub fn end_work(
        &mut self,
        id: OperationId,
        answer: PortAnswer<Result<OperationResult, ServiceError>>,
    ) -> (retired: Option<OperationState>)
        ensures
            scheduler::retired_model(retired) == scheduler::retired_by_finish(
                before_outcome(old(self)@.scheduler, id, answer),
                id,
                work_outcome(old(self)@.scheduler, id, answer),
            ),
            final(self)@ == locking::with_scheduler(
                old(self)@,
                scheduler::after_finish(
                    before_outcome(old(self)@.scheduler, id, answer),
                    id,
                    work_outcome(old(self)@.scheduler, id, answer),
                ),
            ),
    {
        let outcome = match answer {
            PortAnswer::Returned(Ok(result)) => match self.operation_safe_boundary(id) {
                Ok(()) => Ok(result),
                Err(error) => Err(error),
            },
            PortAnswer::Returned(Err(error)) => Err(error),
            PortAnswer::Panicked => Err(ServiceError::WorkerPanicked),
        };
        self.scheduler.finish(id, outcome)
    }

    /// Emits an event of an operation. `waited` says that this is the same
    /// emission again, after a wait for room.
    pub fn emit(&mut self, id: OperationId, event: OperationEvent, waited: bool) -> (answer: Result<
        Publication,
        ServiceError,
    >)
        ensures
            answer == emit_answer(old(self)@.scheduler, id, event, waited),
            final(self)@ == locking::with_scheduler(
                old(self)@,
                after_emit(old(self)@.scheduler, id, event, waited),
            ),
    {
        if !waited {
            if let Err(error) = self.operation_safe_boundary(id) {
                return Err(error);
            }
        }
        let ghost looked = self@.scheduler;
        match self.publish(id, event) {
            Err(error) => {
                assert(self@.scheduler.active =~= looked.active);
                Err(error)
            },
            Ok(Publication::WaitForRoom) => {
                assert(self@.scheduler.active =~= looked.active);
                Ok(Publication::WaitForRoom)
            },
            Ok(Publication::Delivered) => match self.operation_safe_boundary(id) {
                Ok(()) => Ok(Publication::Delivered),
                Err(error) => Err(error),
            },
        }
    }

    /// Looks whether a lease may be asked for, and of which generation.
    pub fn begin_lease(&self, id: OperationId) -> (generation: Result<u64, ServiceError>)
        ensures
            generation == begin_lease_answer(self@, id),
    {
        let generation: u64 = match self.scheduler.check_lease(id) {
            Ok(generation) => generation,
            Err(error) => return Err(error),
        };
        match &self.session {
            Some(session) => match session.check_root(generation) {
                Ok(()) => Ok(generation),
                Err(_) => Err(ServiceError::Locked),
            },
            None => Err(ServiceError::Locked),
        }
    }

    fn refuse_lease(&mut self, id: OperationId, error: ServiceError, local: bool) -> (failure:
        ServiceError)
        ensures
            failure == lease_failure(old(self)@, error, local),
            final(self)@ == after_lease_failure(old(self)@, id, error, local),
    {
        if local && error == ServiceError::Locked && !self.scheduler.key_leases_open() {
            if let Some(state) = self.scheduler.operation_mut(id) {
                state.mark_cancelled();
            }
            return ServiceError::Cancelled;
        }
        error
    }

    /// Decides about a lease that the repository answered for. Its cancellation
    /// is registered under a token.
    pub fn lease_answered(
        &mut self,
        id: OperationId,
        generation: u64,
        acquired: Result<(), RepositoryPortError>,
        token: u64,
        local: bool,
    ) -> (outcome: LeaseOutcome)
        ensures
            outcome == lease_outcome(old(self)@, id, generation, acquired, local),
            final(self)@ == after_lease(old(self)@, id, generation, acquired, token, local),
    {
        let step = match &self.session {
            Some(session) => session.lease_acquired(generation, acquired),
            None => LeaseStep::Refused(ServiceError::Locked),
        };
        match step {
            LeaseStep::Granted => {
                let ghost before = self@;
                let registered = match self.scheduler.operation_mut(id) {
                    Some(state) => state.register_lease_cancellation(token),
                    None => Err(ServiceError::Cancelled),
                };
                match registered {
                    Ok(()) => LeaseOutcome::Granted,
                    Err(error) => {
                        assert(self@.scheduler.active =~= before.scheduler.active);
                        LeaseOutcome::GiveBack(error)
                    },
                }
            },
            LeaseStep::GiveBack => LeaseOutcome::GiveBack(
                self.refuse_lease(id, ServiceError::Locked, local),
            ),
            LeaseStep::Refused(error) => LeaseOutcome::Refused(self.refuse_lease(id, error, local)),
        }
    }

    /// Takes note that the consumer of an operation went away. The answer is the
    /// kind of its transition whose action is to be aborted.
    pub fn detach(&mut self, id: OperationId) -> (aborted: Option<TransitionKind>)
        ensures
            final(self)@ == after_detach(old(self)@, id),
            aborted == aborted_by_detach(old(self)@, id),
    {
        if !self.scheduler.is_active(id) {
            return None;
        }
        self.cancel_operation(id);
        self.cancel_transition(id)
    }

    /// Requires cleanup where an error says so.
    pub fn latch_failure(&mut self, error: ServiceError)
        ensures
            final(self)@ == if error == ServiceError::CleanupRequired {
                runtime::after_latch(old(self)@)
            } else {
                old(self)@
            },
    {
        if error == ServiceError::CleanupRequired {
            self.latch_cleanup_required();
        }
    }
}

/// What an operation may call while it is carried out.
#[derive(Clone, Copy, Debug)]
pub struct OperationContext {
    id: OperationId,
}

impl View for OperationContext {
    type V = OperationId;

    closed spec fn view(&self) -> OperationId {
        self.id
    }
}

impl OperationContext {
    pub fn new(id: OperationId) -> (context: Self)
        ensures
            context@ == id,
    {
        OperationContext { id }
    }

    pub fn id(&self) -> (id: OperationId)
        ensures
            id == self@,
    {
        self.id
    }

    /// Whether the operation was asked to stop. One that is no longer accounted
    /// was.
    pub fn is_cancelled(&self, service: &ServiceCore) -> (cancelled: bool)
        ensures
            cancelled == match scheduler::place_of(service@.scheduler.active, self@) {
                Some(index) => service@.scheduler.active[index].cancelled,
                None => true,
            },
    {
        match service.scheduler.operation(self.id) {
            Some(state) => state.is_cancelled(),
            None => true,
        }
    }

    /// Checks cooperative cancellation at one explicit bounded boundary.
    pub fn safe_boundary(&self, service: &mut ServiceCore) -> (answer: Result<(), ServiceError>)
        ensures
            answer == scheduler::boundary_answer(old(service)@.scheduler, self@),
            final(service)@ == locking::with_scheduler(
                old(service)@,
                scheduler::after_boundary(old(service)@.scheduler, self@),
            ),
    {
        service.operation_safe_boundary(self.id)
    }

    /// Announces a phase.
    pub fn phase_changed(&self, service: &mut ServiceCore, phase: OperationPhase) -> (answer: Result<
        Publication,
        ServiceError,
    >)
        ensures
            answer == emit_answer(
                old(service)@.scheduler,
                self@,
                OperationEvent::PhaseChanged(phase),
                false,
            ),
            final(service)@ == locking::with_scheduler(
                old(service)@,
                after_emit(
                    old(service)@.scheduler,
                    self@,
                    OperationEvent::PhaseChanged(phase),
                    false,
                ),
            ),
    {
        service.emit(self.id, OperationEvent::PhaseChanged(phase), false)
    }

    /// Announces progress.
    pub fn emit_progress(&self, service: &mut ServiceCore, progress: Progress) -> (answer: Result<
        Publication,
        ServiceError,
    >)
        ensures
            answer == emit_answer(
                old(service)@.scheduler,
                self@,
                OperationEvent::Progress(progress),
                false,
            ),
            final(service)@ == locking::with_scheduler(
                old(service)@,
                after_emit(
                    old(service)@.scheduler,
                    self@,
                    OperationEvent::Progress(progress),
                    false,
                ),
            ),
    {
        service.emit(self.id, OperationEvent::Progress(progress), false)
    }

    /// Announces a warning.
    pub fn warning(&self, service: &mut ServiceCore, warning: WarningCode) -> (answer: Result<
        Publication,
        ServiceError,
    >)
        ensures
            answer == emit_answer(
                old(service)@.scheduler,
                self@,
                OperationEvent::Warning(warning),
                false,
            ),
            final(service)@ == locking::with_scheduler(
                old(service)@,
                after_emit(
                    old(service)@.scheduler,
                    self@,
                    OperationEvent::Warning(warning),
                    false,
                ),
            ),
    {
        service.emit(self.id, OperationEvent::Warning(warning), false)
    }

    /// Announces a conflict.
    pub fn conflict(&self, service: &mut ServiceCore, conflict: ConflictSummary) -> (answer: Result<
        Publication,
        ServiceError,
    >)
        ensures
            answer == emit_answer(
                old(service)@.scheduler,
                self@,
                OperationEvent::Conflict(conflict),
                false,
            ),
            final(service)@ == locking::with_scheduler(
                old(service)@,
                after_emit(
                    old(service)@.scheduler,
                    self@,
                    OperationEvent::Conflict(conflict),
                    false,
                ),
            ),
    {
        service.emit(self.id, OperationEvent::Conflict(conflict), false)
    }

    /// Announces that a revision is durable.
    pub fn revision_durable(&self, service: &mut ServiceCore, durable: DurabilitySummary) -> (answer: Result<
        Publication,
        ServiceError,
    >)
        ensures
            answer == emit_answer(
                old(service)@.scheduler,
                self@,
                OperationEvent::RevisionDurable(durable),
                false,
            ),
            final(service)@ == locking::with_scheduler(
                old(service)@,
                after_emit(
                    old(service)@.scheduler,
                    self@,
                    OperationEvent::RevisionDurable(durable),
                    false,
                ),
            ),
    {
        service.emit(self.id, OperationEvent::RevisionDurable(durable), false)
    }

    /// Announces a save.
    pub fn save_detected(&self, service: &mut ServiceCore) -> (answer: Result<
        Publication,
        ServiceError,
    >)
        ensures
            answer == emit_answer(
                old(service)@.scheduler,
                self@,
                OperationEvent::SaveDetected,
                false,
            ),
            final(service)@ == locking::with_scheduler(
                old(service)@,
                after_emit(
                    old(service)@.scheduler,
                    self@,
                    OperationEvent::SaveDetected,
                    false,
                ),
            ),
    {
        service.emit(self.id, OperationEvent::SaveDetected, false)
    }

    /// Announces a published synchronization.
    pub fn sync_published(&self, service: &mut ServiceCore) -> (answer: Result<
        Publication,
        ServiceError,
    >)
        ensures
            answer == emit_answer(
                old(service)@.scheduler,
                self@,
                OperationEvent::SyncPublished,
                false,
            ),
            final(service)@ == locking::with_scheduler(
                old(service)@,
                after_emit(
                    old(service)@.scheduler,
                    self@,
                    OperationEvent::SyncPublished,
                    false,
                ),
            ),
    {
        service.emit(self.id, OperationEvent::SyncPublished, false)
    }

    /// Announces that cleanup is required.
    pub fn cleanup_required(&self, service: &mut ServiceCore) -> (answer: Result<
        Publication,
        ServiceError,
    >)
        ensures
            answer == emit_answer(
                old(service)@.scheduler,
                self@,
                OperationEvent::CleanupRequired,
                false,
            ),
            final(service)@ == locking::with_scheduler(
                old(service)@,
                after_emit(
                    old(service)@.scheduler,
                    self@,
                    OperationEvent::CleanupRequired,
                    false,
                ),
            ),
    {
        service.emit(self.id, OperationEvent::CleanupRequired, false)
    }

    /// Arms this exact running mutating operation as the sole bounded final save.
    pub fn arm_final_save(&self, service: &mut ServiceCore) -> (guard: Result<
        FinalSaveGuard,
        ServiceError,
    >)
        ensures
            match scheduler::arm_answer(old(service)@.scheduler, self@) {
                Ok(generation) => guard is Ok && guard->Ok_0@ == (self@, generation),
                Err(error) => guard == Err::<FinalSaveGuard, ServiceError>(error),
            },
            final(service)@ == locking::with_scheduler(
                old(service)@,
                scheduler::after_arm(old(service)@.scheduler, self@),
            ),
    {
        match service.scheduler.arm_final_save(self.id) {
            Ok(generation) => Ok(FinalSaveGuard { operation: self.id, generation }),
            Err(error) => Err(error),
        }
    }
}

/// Linear guard for the one exact operation permitted to finish during lock grace.
pub struct FinalSaveGuard {
    operation: OperationId,
    generation: u64,
}

impl View for FinalSaveGuard {
    type V = (OperationId, u64);

    closed spec fn view(&self) -> (OperationId, u64) {
        (self.operation, self.generation)
    }
}

impl FinalSaveGuard {
    /// Gives the final save up.
    pub fn disarm(self, service: &mut ServiceCore)
        ensures
            final(service)@ == locking::with_scheduler(
                old(service)@,
                scheduler::after_disarm(old(service)@.scheduler, self@.0, self@.1),
            ),
    {
        service.scheduler.disarm_final_save(self.operation, self.generation);
    }
}

} // verus!
