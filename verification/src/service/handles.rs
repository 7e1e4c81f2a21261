//! Handles that callers of a service hold.
use vstd::prelude::*;

use crate::command::OperationResult;
use crate::error::ServiceError;
use crate::event::OperationEvent;
use crate::operation;
use crate::operation::{EventPoll, OperationId, OperationModel, OperationState};
use crate::service::flows::FreshnessStep;
use crate::service::locking;
use crate::service::runtime;
use crate::service::runtime::{CoreModel, ServiceCore};
use crate::service::scheduler;
use crate::service::transitions;
use crate::service::transitions::{RegistryModel, TransitionKind};
use crate::service::worker::{FinalSaveGuard, OperationContext};
use crate::service::{flows, worker};
use crate::session::errors::PortAnswer;

verus! {

/// Handle for non-blocking event and result observation. An operation that is
/// retired is kept by its handle.
pub struct OperationHandle {
    id: OperationId,
    retired: Option<OperationState>,
}

/// Contents of an [`OperationHandle`].
pub struct OperationHandleModel {
    pub id: OperationId,
    pub retired: Option<OperationModel>,
}

impl View for OperationHandle {
    type V = OperationHandleModel;

    closed spec fn view(&self) -> OperationHandleModel {
        OperationHandleModel { id: self.id, retired: scheduler::retired_model(self.retired) }
    }
}

/// The state that a handle looks at, where there is one.
pub open spec fn state_of(handle: OperationHandleModel, core_state: CoreModel) -> Option<
    OperationModel,
> {
    match handle.retired {
        Some(state) => Some(state),
        None => match scheduler::place_of(core_state.scheduler.active, handle.id) {
            Some(index) => Some(core_state.scheduler.active[index]),
            None => None,
        },
    }
}

/// A handle whose state became another one.
pub open spec fn handle_with(handle: OperationHandleModel, state: Option<OperationModel>) -> OperationHandleModel {
    match (handle.retired, state) {
        (Some(_), Some(state)) => OperationHandleModel { retired: Some(state), ..handle },
        _ => handle,
    }
}

/// A service in which the state that a handle looks at became another one.
pub open spec fn service_with(
    handle: OperationHandleModel,
    core_state: CoreModel,
    state: Option<OperationModel>,
) -> CoreModel {
    match (handle.retired, scheduler::place_of(core_state.scheduler.active, handle.id), state) {
        (None, Some(index), Some(state)) => locking::with_scheduler(
            core_state,
            worker::with_operation(core_state.scheduler, index, state),
        ),
        _ => core_state,
    }
}

/// A state from which the next event was taken.
pub open spec fn without_next_event(state: Option<OperationModel>) -> Option<OperationModel> {
    match state {
        Some(state) => Some(
            OperationModel { events: operation::after_pop(state.events), ..state },
        ),
        None => None,
    }
}

/// A state from which the result was taken.
pub open spec fn without_result(state: Option<OperationModel>) -> Option<OperationModel> {
    match state {
        Some(state) => Some(OperationModel { result: None, ..state }),
        None => None,
    }
}

/// What a look at the next event answers. An operation that is gone has none.
pub open spec fn event_poll(state: Option<OperationModel>, expired: bool) -> EventPoll {
    match state {
        Some(state) => if operation::next_pending(state.events) is Some {
            EventPoll::Ready(operation::event_of(operation::next_pending(state.events)))
        } else if state.lifecycle is Terminal || state.events.consumer_gone || expired {
            EventPoll::Ready(None)
        } else {
            EventPoll::Wait
        },
        None => EventPoll::Ready(None),
    }
}

/// What a look at the result answers.
pub open spec fn result_answer(state: Option<OperationModel>) -> Result<
    Option<OperationResult>,
    ServiceError,
> {
    match state {
        Some(state) => match state.result {
            Some(Ok(result)) => Ok(Some(result)),
            Some(Err(error)) => Err(error),
            None => Ok(None),
        },
        None => Ok(None),
    }
}

/// What a wait for the result answers; it goes on where there is no answer.
pub open spec fn result_poll(state: Option<OperationModel>, expired: bool) -> Option<
    Result<OperationResult, ServiceError>,
> {
    let result = match state {
        Some(state) => state.result,
        None => None,
    };
    match result {
        Some(outcome) => Some(outcome),
        None => if expired {
            Some(Err(ServiceError::TimedOut))
        } else {
            None
        },
    }
}

impl OperationHandle {
    pub fn new(id: OperationId) -> (handle: Self)
        ensures
            handle@ == (OperationHandleModel { id, retired: None }),
    {
        OperationHandle { id, retired: None }
    }

    pub fn id(&self) -> (id: OperationId)
        ensures
            id == self@.id,
    {
        self.id
    }

    /// Keeps the operation of this handle once it is retired. Another one comes
    /// back.
    pub fn keep(&mut self, state: OperationState) -> (other: Option<OperationState>)
        ensures
            state@.id == old(self)@.id ==> other is None && final(self)@ == (
            OperationHandleModel { retired: Some(state@), ..old(self)@ }),
            state@.id != old(self)@.id ==> other == Some(state) && final(self)@ == old(self)@,
    {
        if state.id() == self.id {
            self.retired = Some(state);
            None
        } else {
            Some(state)
        }
    }

    /// Looks at a safe boundary whether the operation may go on, whether or not it
    /// is still accounted.
    pub fn safe_boundary(&mut self, service: &mut ServiceCore) -> (answer: Result<(), ServiceError>)
        ensures
            match old(self)@.retired {
                Some(state) => {
                    &&& answer == worker::detached_answer(state)
                    &&& final(self)@ == handle_with(
                        old(self)@,
                        Some(worker::after_detached(state)),
                    )
                    &&& final(service)@ == old(service)@
                },
                None => {
                    &&& answer == scheduler::boundary_answer(old(service)@.scheduler, old(self)@.id)
                    &&& final(self)@ == old(self)@
                    &&& final(service)@ == locking::with_scheduler(
                        old(service)@,
                        scheduler::after_boundary(old(service)@.scheduler, old(self)@.id),
                    )
                },
            },
    {
        match &mut self.retired {
            Some(state) => worker::detached_boundary(state),
            None => service.operation_safe_boundary(self.id),
        }
    }

    /// Arms the operation as the one final save. One that is no longer accounted
    /// cannot be armed.
    pub fn arm_final_save(&self, service: &mut ServiceCore) -> (guard: Result<
        FinalSaveGuard,
        ServiceError,
    >)
        ensures
            match self@.retired {
                Some(state) => guard == Err::<FinalSaveGuard, ServiceError>(
                    worker::detached_arm_failure(state),
                ) && final(service)@ == old(service)@,
                None => {
                    &&& match scheduler::arm_answer(old(service)@.scheduler, self@.id) {
                        Ok(generation) => guard is Ok && guard->Ok_0@ == (self@.id, generation),
                        Err(error) => guard == Err::<FinalSaveGuard, ServiceError>(error),
                    }
                    &&& final(service)@ == locking::with_scheduler(
                        old(service)@,
                        scheduler::after_arm(old(service)@.scheduler, self@.id),
                    )
                },
            },
    {
        match &self.retired {
            Some(state) => Err(
                if state.session_generation().is_none() {
                    ServiceError::Locked
                } else {
                    ServiceError::StaleCapability
                },
            ),
            None => OperationContext::new(self.id).arm_final_save(service),
        }
    }

    /// Marks the leases of a final save that is no longer accounted for cancellation,
    /// where it was cancelled. The answer is whether they are to be cancelled now.
    pub fn queue_settled_leases(&mut self) -> (queued: bool)
        ensures
            match old(self)@.retired {
                Some(state) if state.cancelled => queued == !state.lease_cancellation_queued
                    && final(self)@ == handle_with(
                    old(self)@,
                    Some(OperationModel { lease_cancellation_queued: true, ..state }),
                ),
                _ => !queued && final(self)@ == old(self)@,
            },
    {
        match &mut self.retired {
            Some(state) => state.is_cancelled() && state.mark_lease_cancellation_queued(),
            None => false,
        }
    }

    /// Hands out the tokens of the leases to cancel of an operation that is no longer
    /// accounted, the first time only.
    pub fn take_settled_leases(&mut self) -> (tokens: Option<Vec<u64>>)
        ensures
            match old(self)@.retired {
                Some(state) => {
                    &&& tokens is Some <==> !state.lease_cancellation_dispatched
                    &&& tokens is Some ==> tokens->0@ == state.lease_cancellations
                    &&& final(self)@ == handle_with(
                        old(self)@,
                        Some(OperationModel { lease_cancellation_dispatched: true, ..state }),
                    )
                },
                None => tokens is None && final(self)@ == old(self)@,
            },
    {
        match &mut self.retired {
            Some(state) => state.cancel_registered_leases(),
            None => None,
        }
    }

    /// Asks a freshness question for the operation, whether or not it is still
    /// accounted.
    pub fn ask_freshness(
        &self,
        service: &mut ServiceCore,
        view: PortAnswer<[u8; 32]>,
        bound: PortAnswer<bool>,
    ) -> (step: FreshnessStep)
        ensures
            match self@.retired {
                Some(state) => step == flows::detached_freshness_step(state, view, bound)
                    && final(service)@ == if view is Panicked || bound is Panicked {
                    runtime::after_latch(old(service)@)
                } else {
                    old(service)@
                },
                None => step == flows::freshness_step(old(service)@, self@.id, view, bound)
                    && final(service)@ == flows::after_freshness(
                    old(service)@,
                    self@.id,
                    view,
                    bound,
                ),
            },
    {
        match &self.retired {
            Some(state) => service.ask_detached_freshness(state, view, bound),
            None => service.ask_freshness(self.id, view, bound),
        }
    }

    /// Takes the next event in order.
    pub fn try_next_event(&mut self, service: &mut ServiceCore) -> (event: Option<OperationEvent>)
        ensures
            event == match state_of(old(self)@, old(service)@) {
                Some(state) => operation::event_of(operation::next_pending(state.events)),
                None => None,
            },
            final(self)@ == handle_with(
                old(self)@,
                without_next_event(state_of(old(self)@, old(service)@)),
            ),
            final(service)@ == service_with(
                old(self)@,
                old(service)@,
                without_next_event(state_of(old(self)@, old(service)@)),
            ),
    {
        match &mut self.retired {
            Some(state) => state.next_event(),
            None => match service.scheduler.operation_mut(self.id) {
                Some(state) => state.next_event(),
                None => None,
            },
        }
    }

    /// One look of a wait for the next event. `expired` says that its time is up.
    pub fn wait_next_event(&mut self, service: &mut ServiceCore, expired: bool) -> (poll: EventPoll)
        ensures
            poll == event_poll(state_of(old(self)@, old(service)@), expired),
            final(self)@ == handle_with(
                old(self)@,
                without_next_event(state_of(old(self)@, old(service)@)),
            ),
            final(service)@ == service_with(
                old(self)@,
                old(service)@,
                without_next_event(state_of(old(self)@, old(service)@)),
            ),
    {
        match &mut self.retired {
            Some(state) => state.poll_event(expired),
            None => match service.scheduler.operation_mut(self.id) {
                Some(state) => state.poll_event(expired),
                None => EventPoll::Ready(None),
            },
        }
    }

    /// Asks the operation to stop. One that has ended stays as it is.
    pub fn cancel(&self, service: &mut ServiceCore)
        ensures
            final(service)@ == match state_of(self@, old(service)@) {
                Some(state) if !(state.lifecycle is Terminal) && self@.retired is None =>
                    worker::after_cancel_operation(old(service)@, self@.id),
                _ => old(service)@,
            },
    {
        if self.retired.is_some() {
            return;
        }
        let live = match service.scheduler.operation(self.id) {
            Some(state) => !state.is_terminal(),
            None => false,
        };
        if live {
            service.cancel_operation(self.id);
        }
    }

    /// Takes the result, which is handed out once.
    pub fn try_result(&mut self, service: &mut ServiceCore) -> (result: Result<
        Option<OperationResult>,
        ServiceError,
    >)
        ensures
            result == result_answer(state_of(old(self)@, old(service)@)),
            final(self)@ == handle_with(
                old(self)@,
                without_result(state_of(old(self)@, old(service)@)),
            ),
            final(service)@ == service_with(
                old(self)@,
                old(service)@,
                without_result(state_of(old(self)@, old(service)@)),
            ),
    {
        let taken = match &mut self.retired {
            Some(state) => state.take_result(),
            None => match service.scheduler.operation_mut(self.id) {
                Some(state) => state.take_result(),
                None => None,
            },
        };
        match taken {
            Some(Ok(result)) => Ok(Some(result)),
            Some(Err(error)) => Err(error),
            None => Ok(None),
        }
    }

    /// One look of a wait for the result. `expired` says that its time is up.
    pub fn wait_result(&mut self, service: &mut ServiceCore, expired: bool) -> (poll: Option<
        Result<OperationResult, ServiceError>,
    >)
        ensures
            poll == result_poll(state_of(old(self)@, old(service)@), expired),
            final(self)@ == handle_with(
                old(self)@,
                without_result(state_of(old(self)@, old(service)@)),
            ),
            final(service)@ == service_with(
                old(self)@,
                old(service)@,
                without_result(state_of(old(self)@, old(service)@)),
            ),
    {
        let taken = match &mut self.retired {
            Some(state) => state.take_result(),
            None => match service.scheduler.operation_mut(self.id) {
                Some(state) => state.take_result(),
                None => None,
            },
        };
        match taken {
            Some(outcome) => Some(outcome),
            None => if expired {
                Some(Err(ServiceError::TimedOut))
            } else {
                None
            },
        }
    }

    /// Whether the handle keeps its operation, which is no longer accounted.
    pub fn is_retired(&self) -> (retired: bool)
        ensures
            retired == (self@.retired is Some),
    {
        self.retired.is_some()
    }

    /// Gives the handle up: nothing stays pending for it, and the operation is
    /// asked to stop. The answer is the kind of its transition whose action is to
    /// be aborted.
    pub fn abandon(self, service: &mut ServiceCore) -> (aborted: Option<TransitionKind>)
        ensures
            final(service)@ == if self@.retired is Some {
                old(service)@
            } else {
                worker::after_detach(abandoned(old(service)@, self@.id), self@.id)
            },
            aborted == if self@.retired is Some {
                None
            } else {
                worker::aborted_by_detach(abandoned(old(service)@, self@.id), self@.id)
            },
    {
        if self.retired.is_some() {
            return None;
        }
        if let Some(state) = service.scheduler.operation_mut(self.id) {
            state.abandon_consumer();
        }
        service.detach(self.id)
    }
}

/// A service in which nothing stays pending for the consumer of an operation.
pub open spec fn abandoned(core_state: CoreModel, id: OperationId) -> CoreModel {
    match scheduler::place_of(core_state.scheduler.active, id) {
        Some(index) => locking::with_scheduler(
            core_state,
            worker::with_operation(
                core_state.scheduler,
                index,
                operation::after_abandon(core_state.scheduler.active[index]),
            ),
        ),
        None => core_state,
    }
}

/// Dedicated handle for a non-ordinary security transition completion.
pub struct SecurityTransitionHandle {
    id: OperationId,
}

impl View for SecurityTransitionHandle {
    type V = OperationId;

    closed spec fn view(&self) -> OperationId {
        self.id
    }
}

/// A registry in which the execution of a transition has another state.
pub open spec fn with_execution(registry: RegistryModel, index: int, state: OperationModel) -> RegistryModel {
    RegistryModel { executions: registry.executions.update(index, state), ..registry }
}

/// Whether the execution of a transition can still be stopped.
pub open spec fn execution_is_live(registry: RegistryModel, id: OperationId) -> bool {
    match transitions::execution_of(registry.executions, id) {
        Some(index) => !(registry.executions[index].lifecycle is Terminal),
        None => false,
    }
}

/// The registry after the execution of a transition was asked to stop.
pub open spec fn after_stop_execution(registry: RegistryModel, id: OperationId) -> RegistryModel {
    match transitions::execution_of(registry.executions, id) {
        Some(index) if execution_is_live(registry, id) => with_execution(
            registry,
            index,
            OperationModel {
                lease_cancellation_queued: true,
                ..operation::after_cancel(registry.executions[index])
            },
        ),
        _ => registry,
    }
}

/// What a wait for the end of a transition answers; it goes on where there is
/// no answer.
pub open spec fn transition_poll(registry: RegistryModel, id: OperationId, expired: bool) -> Option<
    Result<(), ServiceError>,
> {
    let result = match transitions::execution_of(registry.executions, id) {
        Some(index) => registry.executions[index].transition_result,
        None => None,
    };
    match result {
        Some(outcome) => Some(outcome),
        None => if expired {
            Some(Err(ServiceError::TimedOut))
        } else {
            None
        },
    }
}

/// The registry after a look at the end of a transition.
pub open spec fn after_transition_poll(registry: RegistryModel, id: OperationId) -> RegistryModel {
    match transitions::execution_of(registry.executions, id) {
        Some(index) => with_execution(
            registry,
            index,
            OperationModel { transition_result: None, ..registry.executions[index] },
        ),
        None => registry,
    }
}

impl SecurityTransitionHandle {
    pub fn new(id: OperationId) -> (handle: Self)
        ensures
            handle@ == id,
    {
        SecurityTransitionHandle { id }
    }

    /// Asks the transition to stop. The answer is whether its leases are to be
    /// cancelled now.
    pub fn cancel(&self, service: &mut ServiceCore) -> (queued: bool)
        ensures
            queued == (execution_is_live(old(service)@.transitions, self@)
                && !old(service)@.transitions.executions[transitions::execution_of(
                old(service)@.transitions.executions,
                self@,
            )->0].lease_cancellation_queued),
            final(service)@ == flows::with_transitions(
                old(service)@,
                after_stop_execution(old(service)@.transitions, self@),
            ),
    {
        let ghost before = service@;
        match service.transitions.execution_mut(self.id) {
            Some(state) => if state.is_terminal() {
                assert(before.transitions.executions =~= before.transitions.executions.update(
                    transitions::execution_of(before.transitions.executions, self@)->0,
                    state@,
                ));
                false
            } else {
                state.mark_cancelled();
                state.mark_lease_cancellation_queued()
            },
            None => false,
        }
    }

    /// One look of a wait for the end of the transition. `expired` says that its
    /// time is up.
    pub fn wait_result(&self, service: &mut ServiceCore, expired: bool) -> (poll: Option<
        Result<(), ServiceError>,
    >)
        ensures
            poll == transition_poll(old(service)@.transitions, self@, expired),
            final(service)@ == flows::with_transitions(
                old(service)@,
                after_transition_poll(old(service)@.transitions, self@),
            ),
    {
        match service.transitions.execution_mut(self.id) {
            Some(state) => state.poll_transition_result(expired),
            None => if expired {
                Some(Err(ServiceError::TimedOut))
            } else {
                None
            },
        }
    }
}

/// What a pending transition is bound to.
pub struct PendingModel {
    pub service: u64,
    pub generation: u64,
    pub operation: OperationId,
    pub armed: bool,
}

/// What a claim of a pending transition answers: only the service that it came
/// from, while it lives, and only until it is disarmed.
pub open spec fn claim_answer(pending: PendingModel, expected: u64, origin_lives: bool) -> Result<
    OperationId,
    ServiceError,
> {
    if !pending.armed {
        Err(ServiceError::StaleCapability)
    } else if !origin_lives {
        Err(ServiceError::Closed)
    } else if pending.service != expected {
        Err(ServiceError::StaleCapability)
    } else {
        Ok(pending.operation)
    }
}

/// One prepared recovery initialization that waits for its confirmation.
pub struct PendingRecoveryInitialization {
    service: u64,
    generation: u64,
    operation: OperationId,
    armed: bool,
}

impl View for PendingRecoveryInitialization {
    type V = PendingModel;

    closed spec fn view(&self) -> PendingModel {
        PendingModel {
            service: self.service,
            generation: self.generation,
            operation: self.operation,
            armed: self.armed,
        }
    }
}

impl PendingRecoveryInitialization {
    pub fn new(service: u64, generation: u64, operation: OperationId) -> (pending: Self)
        ensures
            pending@ == (PendingModel { service, generation, operation, armed: true }),
    {
        PendingRecoveryInitialization { service, generation, operation, armed: true }
    }

    pub fn generation(&self) -> (generation: u64)
        ensures
            generation == self@.generation,
    {
        self.generation
    }

    /// The operation of the transition, for the service that it came from.
    pub fn claim_for(&self, expected: u64, origin_lives: bool) -> (claimed: Result<
        OperationId,
        ServiceError,
    >)
        ensures
            claimed == claim_answer(self@, expected, origin_lives),
    {
        if !self.armed {
            return Err(ServiceError::StaleCapability);
        }
        if !origin_lives {
            return Err(ServiceError::Closed);
        }
        if self.service != expected {
            return Err(ServiceError::StaleCapability);
        }
        Ok(self.operation)
    }

    /// Ends the capability.
    pub fn disarm(&mut self)
        ensures
            final(self)@ == (PendingModel { armed: false, ..old(self)@ }),
    {
        self.armed = false;
    }

    /// Whether giving this capability up cancels the transition.
    pub fn is_armed(&self) -> (armed: bool)
        ensures
            armed == self@.armed,
    {
        self.armed
    }
}

/// One prepared compromise rekey that waits for its confirmation.
pub struct PendingCompromiseRekey {
    service: u64,
    generation: u64,
    operation: OperationId,
    armed: bool,
}

impl View for PendingCompromiseRekey {
    type V = PendingModel;

    closed spec fn view(&self) -> PendingModel {
        PendingModel {
            service: self.service,
            generation: self.generation,
            operation: self.operation,
            armed: self.armed,
        }
    }
}

impl PendingCompromiseRekey {
    pub fn new(service: u64, generation: u64, operation: OperationId) -> (pending: Self)
        ensures
            pending@ == (PendingModel { service, generation, operation, armed: true }),
    {
        PendingCompromiseRekey { service, generation, operation, armed: true }
    }

    pub fn generation(&self) -> (generation: u64)
        ensures
            generation == self@.generation,
    {
        self.generation
    }

    /// The operation of the transition, for the service that it came from.
    pub fn claim_for(&self, expected: u64, origin_lives: bool) -> (claimed: Result<
        OperationId,
        ServiceError,
    >)
        ensures
            claimed == claim_answer(self@, expected, origin_lives),
    {
        if !self.armed {
            return Err(ServiceError::StaleCapability);
        }
        if !origin_lives {
            return Err(ServiceError::Closed);
        }
        if self.service != expected {
            return Err(ServiceError::StaleCapability);
        }
        Ok(self.operation)
    }

    /// Ends the capability.
    pub fn disarm(&mut self)
        ensures
            final(self)@ == (PendingModel { armed: false, ..old(self)@ }),
    {
        self.armed = false;
    }

    /// Whether giving this capability up cancels the transition.
    pub fn is_armed(&self) -> (armed: bool)
        ensures
            armed == self@.armed,
    {
        self.armed
    }
}

/// One question for freshness that waits for its acknowledgement.
pub struct PendingFreshnessAcknowledgement {
    service: u64,
    generation: u64,
    operation: OperationId,
    armed: bool,
}

impl View for PendingFreshnessAcknowledgement {
    type V = PendingModel;

    closed spec fn view(&self) -> PendingModel {
        PendingModel {
            service: self.service,
            generation: self.generation,
            operation: self.operation,
            armed: self.armed,
        }
    }
}

impl PendingFreshnessAcknowledgement {
    pub fn new(service: u64, generation: u64, operation: OperationId) -> (pending: Self)
        ensures
            pending@ == (PendingModel { service, generation, operation, armed: true }),
    {
        PendingFreshnessAcknowledgement { service, generation, operation, armed: true }
    }

    pub fn generation(&self) -> (generation: u64)
        ensures
            generation == self@.generation,
    {
        self.generation
    }

    /// The operation of the transition, for the service that it came from.
    pub fn claim_for(&self, expected: u64, origin_lives: bool) -> (claimed: Result<
        OperationId,
        ServiceError,
    >)
        ensures
            claimed == claim_answer(self@, expected, origin_lives),
    {
        if !self.armed {
            return Err(ServiceError::StaleCapability);
        }
        if !origin_lives {
            return Err(ServiceError::Closed);
        }
        if self.service != expected {
            return Err(ServiceError::StaleCapability);
        }
        Ok(self.operation)
    }

    /// Ends the capability.
    pub fn disarm(&mut self)
        ensures
            final(self)@ == (PendingModel { armed: false, ..old(self)@ }),
    {
        self.armed = false;
    }

    /// Whether giving this capability up cancels the transition.
    pub fn is_armed(&self) -> (armed: bool)
        ensures
            armed == self@.armed,
    {
        self.armed
    }
}

} // verus!
