//! The core of a service: the scheduler, the session and the transitions in one
//! state, with the operations that touch more than one of them.
use vstd::prelude::*;

use crate::error::ServiceError;
use crate::operation::{OperationId, OperationModel, OperationState};
use crate::service;
use crate::service::identity;
use crate::service::identity::{IdentityModel, IdentityState, OperationIdRandom};
use crate::service::mailbox;
use crate::service::scheduler;
use crate::service::scheduler::{Scheduler, SchedulerModel};
use crate::service::transitions;
use crate::service::transitions::{RegistryModel, TransitionKind, TransitionRegistry};
use crate::service::{ConfigModel, Control, ServiceConfig, ServiceSnapshot};
use crate::session::data;
use crate::session::data::SessionObservation;
use crate::session::manager;
use crate::session::manager::{ManagerModel, SessionManager};
use crate::session::{SessionEvent, SessionState};
use crate::time::Duration;

verus! {

/// The state of one service.
pub struct ServiceCore {
    /// Names the service among others.
    pub service: u64,
    pub scheduler: Scheduler,
    pub session: Option<SessionManager>,
    pub transitions: TransitionRegistry,
    pub identity: IdentityState,
    /// Whether the security worker has a job.
    pub security_busy: bool,
    /// Executions of transitions whose leases are to be cancelled.
    pub stopped_executions: Vec<OperationId>,
    /// Roots that take no more work, named by their generation.
    pub closing_roots: Vec<u64>,
}

/// Contents of a [`ServiceCore`].
pub struct CoreModel {
    pub service: u64,
    pub scheduler: SchedulerModel,
    pub session: Option<ManagerModel>,
    pub transitions: RegistryModel,
    pub identity: IdentityModel,
    pub security_busy: bool,
    pub stopped_executions: Seq<OperationId>,
    pub closing_roots: Seq<u64>,
}

/// Contents of a session that may be absent.
pub open spec fn session_model(session: Option<SessionManager>) -> Option<ManagerModel> {
    match session {
        Some(session) => Some(session@),
        None => None,
    }
}

impl View for ServiceCore {
    type V = CoreModel;

    open spec fn view(&self) -> CoreModel {
        CoreModel {
            service: self.service,
            scheduler: self.scheduler@,
            session: session_model(self.session),
            transitions: self.transitions@,
            identity: self.identity@,
            security_busy: self.security_busy,
            stopped_executions: self.stopped_executions@,
            closing_roots: self.closing_roots@,
        }
    }
}

/// Invariant of a service: that of each of its parts.
pub open spec fn core_wf(runtime: CoreModel) -> bool {
    &&& scheduler::scheduler_wf(runtime.scheduler)
    &&& transitions::registry_wf(runtime.transitions)
    &&& runtime.session is Some ==> manager::manager_wf(runtime.session->0)
}

/// A service that was just made.
pub open spec fn new_core(service: u64, config: ConfigModel, session: Option<ManagerModel>) -> CoreModel {
    CoreModel {
        service,
        scheduler: scheduler::new_scheduler(config, session is Some),
        session,
        transitions: transitions::empty_registry(config.completed_capacity),
        identity: IdentityModel { nonce: None, next: 0 },
        security_busy: false,
        stopped_executions: Seq::empty(),
        closing_roots: Seq::empty(),
    }
}

/// The root that a lock takes over, where there is one.
pub open spec fn locked_root(session: Option<ManagerModel>) -> Option<u64> {
    match session {
        Some(session) => data::lock_takes(session.data),
        None => None,
    }
}

/// The session after a lock began.
pub open spec fn locked_session(session: Option<ManagerModel>) -> Option<ManagerModel> {
    match session {
        Some(session) => Some(
            manager::with_data(session, data::after_begin_lock(session.data)),
        ),
        None => None,
    }
}

/// The roots that take no more work, with one more where there is one.
pub open spec fn with_root(roots: Seq<u64>, root: Option<u64>) -> Seq<u64> {
    match root {
        Some(root) => roots.push(root),
        None => roots,
    }
}

/// The service after a global control.
pub open spec fn after_global_lock(runtime: CoreModel, control: Control, close_service: bool) -> CoreModel {
    let root = locked_root(runtime.session);
    let prepared = transitions::after_cancel_prepares(runtime.transitions);
    CoreModel {
        scheduler: scheduler::after_lock(runtime.scheduler, control, close_service, root),
        session: locked_session(runtime.session),
        transitions: transitions::after_stop(prepared, close_service),
        stopped_executions: runtime.stopped_executions + transitions::newly_stopped(
            prepared,
            prepared.executions.len(),
        ),
        closing_roots: with_root(runtime.closing_roots, root),
        ..runtime
    }
}

/// The service after it was shut down.
pub open spec fn after_shutdown(runtime: CoreModel) -> CoreModel {
    after_global_lock(runtime, Control::LockNow, true)
}

/// The session after cleanup became required.
pub open spec fn marked_session(session: Option<ManagerModel>) -> Option<ManagerModel> {
    match session {
        Some(session) => Some(manager::after_mark(session)),
        None => None,
    }
}

/// Whether the session is unlocked.
pub open spec fn is_unlocked(session: Option<ManagerModel>) -> bool {
    session is Some && session->0.data.state is Unlocked
}

/// The service after cleanup became required: an unlocked session is locked.
pub open spec fn after_latch(runtime: CoreModel) -> CoreModel {
    let locked = if is_unlocked(runtime.session) {
        after_global_lock(runtime, Control::LockNow, false)
    } else {
        runtime
    };
    CoreModel { session: marked_session(locked.session), ..locked }
}

/// The generation that is unlocked, where one is.
pub open spec fn current_generation(session: Option<ManagerModel>) -> Option<u64> {
    match session {
        Some(session) if session.data.state is Unlocked => Some(session.data.epoch),
        _ => None,
    }
}

/// What the observation of the deadlines answers: how long to wait for the next.
pub open spec fn deadline_answer(observed: Result<SessionObservation, ServiceError>) -> Result<
    Option<Duration>,
    ServiceError,
> {
    match observed {
        Err(error) => Err(error),
        Ok(observation) => if observation.expired {
            Ok(None)
        } else {
            Ok(observation.next_wait)
        },
    }
}

/// The scheduler after the warnings of an observation.
pub open spec fn warned(runtime: CoreModel, warnings: Seq<SessionEvent>) -> SchedulerModel {
    if warnings.len() > 0 && current_generation(runtime.session) == Some(runtime.scheduler.generation) {
        SchedulerModel {
            session_events: scheduler::with_warnings(
                runtime.scheduler.session_events,
                runtime.scheduler.generation,
                warnings,
            ),
            ..runtime.scheduler
        }
    } else {
        runtime.scheduler
    }
}

/// The service after an observation of the deadlines: an expiry locks it, and
/// so does an observation that could not be made.
pub open spec fn after_deadline(
    runtime: CoreModel,
    observed: Result<SessionObservation, ServiceError>,
) -> CoreModel {
    match observed {
        Err(_) => after_global_lock(runtime, Control::DeadlineExpired, false),
        Ok(observation) => {
            let told = CoreModel { scheduler: warned(runtime, observation.warnings@), ..runtime };
            if observation.expired {
                after_global_lock(told, Control::DeadlineExpired, false)
            } else {
                told
            }
        },
    }
}

/// The service after trusted activity was recorded by its session.
pub open spec fn after_recorded(runtime: CoreModel, now: nat) -> CoreModel {
    CoreModel {
        session: match runtime.session {
            Some(session) => Some(
                manager::with_data(
                    session,
                    data::after_activity(session.data, session.policy, now),
                ),
            ),
            None => None,
        },
        ..runtime
    }
}

/// What the recording of trusted activity answers. Without a session there is
/// nothing to record.
pub open spec fn record_answer(session: Option<ManagerModel>, sample: Option<Duration>) -> Result<
    (),
    ServiceError,
> {
    match (session, sample) {
        (Some(session), Some(now)) => data::activity_answer(session.data, session.policy, now@),
        _ => Ok(()),
    }
}

/// What the admission of an operation answers.
pub open spec fn admit_answer(runtime: CoreModel, generation: u64, sample: Option<Duration>) -> Result<
    (),
    ServiceError,
> {
    match scheduler::readmission_answer(runtime.scheduler, generation) {
        Err(error) => Err(error),
        Ok(()) => record_answer(runtime.session, sample),
    }
}

/// The service after the admission of an operation. Only an admitted operation
/// uses up its identity. Activity that comes too late locks the service.
pub open spec fn after_admit(
    runtime: CoreModel,
    generation: u64,
    sample: Option<Duration>,
    state: OperationModel,
) -> CoreModel {
    if scheduler::readmission_answer(runtime.scheduler, generation) is Err {
        runtime
    } else {
        let recorded = match sample {
            Some(now) => after_recorded(runtime, now@),
            None => runtime,
        };
        if record_answer(runtime.session, sample) is Err {
            after_global_lock(recorded, Control::DeadlineExpired, false)
        } else {
            let quiet = if runtime.session is Some && sample is Some {
                scheduler::after_activity(runtime.scheduler)
            } else {
                runtime.scheduler
            };
            CoreModel {
                scheduler: scheduler::after_insert(quiet, state),
                identity: IdentityModel {
                    next: (runtime.identity.next + 1) as u64,
                    ..runtime.identity
                },
                ..recorded
            }
        }
    }
}

/// What a control answers.
pub open spec fn control_answer(runtime: CoreModel, control: Control) -> Result<(), ServiceError> {
    if !service::is_global(control) && runtime.scheduler.closed {
        Err(ServiceError::Closed)
    } else {
        Ok(())
    }
}

/// Whether a control found the mailbox full.
pub open spec fn control_overflows(scheduler: SchedulerModel, control: Control) -> bool {
    match control {
        Control::Cancel(id) => scheduler::cancel_overflows(scheduler, id),
        Control::UserActivity => mailbox::notes_untrusted(scheduler.controls, scheduler.generation)
            && scheduler.controls.pending.len() >= scheduler.controls.capacity,
        _ => false,
    }
}

/// The scheduler after a control that is not global.
pub open spec fn after_local_control(scheduler: SchedulerModel, control: Control) -> SchedulerModel {
    match control {
        Control::Cancel(id) => scheduler::after_cancel(scheduler, id),
        Control::UserActivity => SchedulerModel {
            controls: mailbox::after_untrusted(scheduler.controls, scheduler.generation),
            ..scheduler
        },
        _ => scheduler,
    }
}

/// The service after a control. A full mailbox shuts it down.
pub open spec fn after_control(runtime: CoreModel, control: Control) -> CoreModel {
    if service::is_global(control) {
        after_global_lock(runtime, control, false)
    } else if runtime.scheduler.closed {
        runtime
    } else {
        let noted = CoreModel {
            scheduler: after_local_control(runtime.scheduler, control),
            ..runtime
        };
        if control_overflows(runtime.scheduler, control) {
            after_shutdown(noted)
        } else {
            noted
        }
    }
}

/// What a look before trusted activity answers.
pub open spec fn activity_check(runtime: CoreModel) -> Result<(), ServiceError> {
    if runtime.session is None {
        Err(ServiceError::Locked)
    } else if runtime.scheduler.closed {
        Err(ServiceError::Closed)
    } else if !runtime.scheduler.accepting || runtime.scheduler.generation == 0 {
        Err(ServiceError::Locked)
    } else {
        Ok(())
    }
}

/// What trusted activity answers.
pub open spec fn trusted_activity_answer(runtime: CoreModel, sample: Result<Duration, ServiceError>) -> Result<
    (),
    ServiceError,
> {
    match sample {
        Err(error) => Err(error),
        Ok(now) => match activity_check(runtime) {
            Err(error) => Err(error),
            Ok(()) => record_answer(runtime.session, Some(now)),
        },
    }
}

/// The service after trusted activity. A clock that fails locks it, and so does
/// activity that comes too late.
pub open spec fn after_trusted_activity(runtime: CoreModel, sample: Result<Duration, ServiceError>) -> CoreModel {
    match sample {
        Err(_) => after_global_lock(runtime, Control::DeadlineExpired, false),
        Ok(now) => if activity_check(runtime) is Err {
            runtime
        } else if record_answer(runtime.session, Some(now)) is Err {
            after_global_lock(after_recorded(runtime, now@), Control::DeadlineExpired, false)
        } else {
            let quiet = scheduler::after_activity(runtime.scheduler);
            CoreModel {
                scheduler: SchedulerModel {
                    controls: mailbox::after_trusted(quiet.controls, quiet.generation),
                    ..quiet
                },
                ..after_recorded(runtime, now@)
            }
        },
    }
}

/// The state of the session that a snapshot shows. A service without a session
/// is never locked.
pub open spec fn shown_state(session: Option<ManagerModel>) -> SessionState {
    match session {
        Some(session) => session.data.state,
        None => SessionState::Unlocked,
    }
}

/// What the beginning of an unlock job answers.
pub open spec fn unlock_job_answer(runtime: CoreModel) -> Result<(), ServiceError> {
    if runtime.session is None {
        Err(ServiceError::InvalidConfiguration)
    } else if !scheduler::unlock_is_allowed(runtime.scheduler) {
        Err(ServiceError::Locked)
    } else if runtime.transitions.recovery_prepare is Some || transitions::has_kind(
        runtime.transitions.records,
        TransitionKind::Recovery,
    ) {
        Err(ServiceError::Busy)
    } else {
        Ok(())
    }
}

/// The service after an unlock job began.
pub open spec fn after_unlock_job(runtime: CoreModel) -> CoreModel {
    if unlock_job_answer(runtime) is Ok {
        CoreModel {
            scheduler: SchedulerModel { unlock_in_progress: true, ..runtime.scheduler },
            ..runtime
        }
    } else {
        runtime
    }
}

/// What the end of an unlock job answers.
pub open spec fn unlock_end_answer(runtime: CoreModel, unlocked: Result<u64, ServiceError>) -> Result<
    u64,
    ServiceError,
> {
    match unlocked {
        Err(error) => Err(error),
        Ok(generation) => if scheduler::may_open(runtime.scheduler, shown_state(runtime.session)) {
            Ok(generation)
        } else {
            Err(ServiceError::Cancelled)
        },
    }
}

/// The service after an unlock job ended: it opens for the unlocked generation,
/// or it is locked again.
pub open spec fn after_unlock_end(runtime: CoreModel, unlocked: Result<u64, ServiceError>) -> CoreModel {
    let resting = CoreModel {
        scheduler: SchedulerModel { unlock_in_progress: false, ..runtime.scheduler },
        ..runtime
    };
    match unlocked {
        Err(_) => resting,
        Ok(generation) => if scheduler::may_open(runtime.scheduler, shown_state(runtime.session)) {
            CoreModel { scheduler: scheduler::opened(runtime.scheduler, generation), ..runtime }
        } else {
            after_global_lock(resting, Control::LockNow, false)
        },
    }
}

/// What the beginning of a cleanup retry answers.
pub open spec fn retry_answer(runtime: CoreModel) -> Result<(), ServiceError> {
    if runtime.scheduler.lock_job is Some || runtime.scheduler.unlock_in_progress {
        Err(ServiceError::Busy)
    } else {
        match runtime.session {
            None => Err(ServiceError::InvalidConfiguration),
            Some(session) => manager::retry_answer(session),
        }
    }
}

/// The service after a cleanup retry began.
pub open spec fn after_retry(runtime: CoreModel) -> CoreModel {
    if retry_answer(runtime) is Ok {
        CoreModel { session: Some(manager::after_begin_retry(runtime.session->0)), ..runtime }
    } else {
        runtime
    }
}

impl ServiceCore {
    /// Makes the core of a service, with a session or without.
    pub fn new(service: u64, config: ServiceConfig, session: Option<SessionManager>) -> (runtime: Result<
        Self,
        ServiceError,
    >)
        ensures
            match runtime {
                Ok(runtime) => runtime@ == new_core(service, config@, session_model(session)),
                Err(error) => error == ServiceError::InvalidConfiguration && (
                scheduler::scheduler_refused(config@) || transitions::registry_refused(
                    config@.completed_capacity as int,
                )),
            },
    {
        let scheduler = Scheduler::new(config, session.is_some());
        let transitions = TransitionRegistry::new(config.completed_capacity());
        ServiceCore::over(service, session, scheduler, transitions)
    }

    /// The core of a service over its parts, or the failure of the first part that
    /// is not there.
    pub fn over(
        service: u64,
        session: Option<SessionManager>,
        scheduler: Result<Scheduler, ServiceError>,
        transitions: Result<TransitionRegistry, ServiceError>,
    ) -> (runtime: Result<Self, ServiceError>)
        ensures
            match (scheduler, transitions) {
                (Err(error), _) => runtime == Err::<Self, ServiceError>(error),
                (Ok(_), Err(error)) => runtime == Err::<Self, ServiceError>(error),
                (Ok(scheduler), Ok(transitions)) => runtime is Ok && runtime->Ok_0@ == (CoreModel {
                    service,
                    scheduler: scheduler@,
                    session: session_model(session),
                    transitions: transitions@,
                    identity: IdentityModel { nonce: None, next: 0 },
                    security_busy: false,
                    stopped_executions: Seq::empty(),
                    closing_roots: Seq::empty(),
                }),
            },
    {
        let scheduler = match scheduler {
            Ok(scheduler) => scheduler,
            Err(error) => return Err(error),
        };
        let transitions = match transitions {
            Ok(transitions) => transitions,
            Err(error) => return Err(error),
        };
        Ok(
            ServiceCore {
                service,
                scheduler,
                session,
                transitions,
                identity: IdentityState::new(),
                security_busy: false,
                stopped_executions: Vec::new(),
                closing_roots: Vec::new(),
            },
        )
    }

    /// Stops the service: admission and leases close, what runs is told to stop,
    /// and the session gives its root up.
    pub fn start_global_lock(&mut self, control: Control, close_service: bool)
        ensures
            final(self)@ == after_global_lock(old(self)@, control, close_service),
    {
        let root: Option<u64> = match &mut self.session {
            Some(session) => session.begin_lock(),
            None => None,
        };
        self.scheduler.start_lock(control, close_service, root);
        self.transitions.cancel_prepare_attempts();
        let mut stopped = self.transitions.stop_executions(close_service);
        self.stopped_executions.append(&mut stopped);
        if let Some(root) = root {
            self.closing_roots.push(root);
        }
    }

    /// Shuts the service down.
    pub fn shutdown(&mut self)
        ensures
            final(self)@ == after_shutdown(old(self)@),
    {
        self.start_global_lock(Control::LockNow, true);
    }

    /// Notes whether the cancellation of leases could be handed on. A service that
    /// cannot cancel what runs shuts down.
    pub fn cancellation_dispatched(&mut self, sent: bool)
        ensures
            final(self)@ == if sent {
                old(self)@
            } else {
                after_shutdown(old(self)@)
            },
    {
        if !sent {
            self.shutdown();
        }
    }

    /// Takes the executions whose leases are to be cancelled.
    pub fn take_stopped_executions(&mut self) -> (stopped: Vec<OperationId>)
        ensures
            stopped@ == old(self)@.stopped_executions,
            final(self)@ == (CoreModel { stopped_executions: Seq::empty(), ..old(self)@ }),
    {
        let mut stopped: Vec<OperationId> = Vec::new();
        std::mem::swap(&mut stopped, &mut self.stopped_executions);
        stopped
    }

    /// Takes the roots that take no more work.
    pub fn take_closing_roots(&mut self) -> (roots: Vec<u64>)
        ensures
            roots@ == old(self)@.closing_roots,
            final(self)@ == (CoreModel { closing_roots: Seq::empty(), ..old(self)@ }),
    {
        let mut roots: Vec<u64> = Vec::new();
        std::mem::swap(&mut roots, &mut self.closing_roots);
        roots
    }

    fn session_state(&self) -> (state: SessionState)
        ensures
            state == shown_state(self@.session),
    {
        match &self.session {
            Some(session) => session.state(),
            None => SessionState::Unlocked,
        }
    }

    fn unlocked_generation(&self) -> (generation: Option<u64>)
        ensures
            generation == current_generation(self@.session),
    {
        match &self.session {
            Some(session) => session.current_generation(),
            None => None,
        }
    }

    /// Requires cleanup. An unlocked session is locked first.
    pub fn latch_cleanup_required(&mut self)
        ensures
            final(self)@ == after_latch(old(self)@),
    {
        let unlocked = match &self.session {
            Some(session) => session.state() == SessionState::Unlocked,
            None => false,
        };
        if unlocked {
            self.start_global_lock(Control::LockNow, false);
        }
        if let Some(session) = &mut self.session {
            session.mark_cleanup_required();
        }
    }

    /// Acts on an observation of the deadlines.
    pub fn deadline_observed(&mut self, observed: Result<SessionObservation, ServiceError>) -> (answer:
        Result<Option<Duration>, ServiceError>)
        ensures
            answer == deadline_answer(observed),
            final(self)@ == after_deadline(old(self)@, observed),
    {
        let observation = match observed {
            Ok(observation) => observation,
            Err(error) => {
                self.start_global_lock(Control::DeadlineExpired, false);
                return Err(error);
            },
        };
        if observation.warnings.len() > 0 {
            let generation: u64 = self.scheduler.generation();
            let current = match self.unlocked_generation() {
                Some(current) => current == generation,
                None => false,
            };
            if current {
                self.scheduler.push_warnings(&observation.warnings);
            }
        }
        if !observation.expired {
            return Ok(observation.next_wait);
        }
        self.start_global_lock(Control::DeadlineExpired, false);
        Ok(None)
    }

    /// Observes the deadlines at a sampled instant and acts on what is seen.
    pub fn enforce_deadline_at(&mut self, now: Duration) -> (answer: Result<
        Option<Duration>,
        ServiceError,
    >)
        ensures
            old(self)@.session is None ==> answer == Ok::<Option<Duration>, ServiceError>(None)
                && final(self)@ == old(self)@,
            old(self)@.session is Some ==> {
                let session = old(self)@.session->0;
                ||| exists|observation: SessionObservation|
                    {
                        &&& #[trigger] data::observation_is(
                            observation,
                            session.data,
                            session.policy,
                            now@,
                        )
                        &&& answer == deadline_answer(Ok(observation))
                        &&& final(self)@ == after_deadline(
                            CoreModel {
                                session: Some(
                                    manager::with_data(
                                        session,
                                        data::after_observation(
                                            session.data,
                                            session.policy,
                                            now@,
                                        ),
                                    ),
                                ),
                                ..old(self)@
                            },
                            Ok(observation),
                        )
                    }
                ||| {
                    &&& manager::warnings_refused(session)
                    &&& answer == Err::<Option<Duration>, ServiceError>(
                        ServiceError::AllocationFailed,
                    )
                    &&& final(self)@ == after_deadline(
                        CoreModel {
                            session: Some(
                                manager::with_data(
                                    session,
                                    data::after_refused_observation(session.data, now@),
                                ),
                            ),
                            ..old(self)@
                        },
                        Err(ServiceError::AllocationFailed),
                    )
                }
                ||| {
                    &&& manager::telling_refused(session, now@)
                    &&& answer == Err::<Option<Duration>, ServiceError>(
                        ServiceError::AllocationFailed,
                    )
                    &&& final(self)@ == after_deadline(
                        CoreModel {
                            session: Some(
                                manager::with_data(
                                    session,
                                    data::after_observation(session.data, session.policy, now@),
                                ),
                            ),
                            ..old(self)@
                        },
                        Err(ServiceError::AllocationFailed),
                    )
                }
            },
    {
        let observed = match &mut self.session {
            Some(session) => session.observe_at(now),
            None => return Ok(None),
        };
        self.deadline_observed(observed)
    }

    /// Acts on a clock that failed.
    pub fn clock_failed(&mut self)
        ensures
            final(self)@ == after_global_lock(old(self)@, Control::DeadlineExpired, false),
    {
        self.start_global_lock(Control::DeadlineExpired, false);
    }

    /// Draws the identity that the next operation would have.
    pub fn candidate_operation<R: OperationIdRandom>(&mut self, random: &R) -> (candidate: Result<
        OperationId,
        ServiceError,
    >)
        ensures
            final(self)@ == (CoreModel { identity: final(self)@.identity, ..old(self)@ }),
            final(self)@.identity.next == old(self)@.identity.next,
            old(self)@.identity.nonce is Some ==> final(self)@ == old(self)@,
            final(self)@.identity.nonce is Some && old(self)@.identity.nonce is None
                ==> identity::is_usable_nonce(final(self)@.identity.nonce->0) && exists|
                calls: Seq<&mut [u8]>,
                parts: Seq<Seq<u8>>,
            |
                {
                    &&& #[trigger] identity::may_report(random, calls, parts, 8)
                    &&& forall|i: int|
                        #![trigger calls[i]]
                        0 <= i < calls.len() ==> parts[i].is_prefix_of((*final(calls[i]))@)
                    &&& final(self)@.identity.nonce->0@ == parts.flatten()
                },
            candidate is Ok ==> !identity::is_exhausted(
                final(self)@.identity,
                old(self)@.scheduler.config.issued_capacity,
            ) && candidate->Ok_0@@ == identity::identity_bytes(
                final(self)@.identity.nonce->0,
                final(self)@.identity.next,
            ),
            final(self)@.identity.nonce is Some ==> (candidate is Ok <==> !identity::is_exhausted(
                final(self)@.identity,
                old(self)@.scheduler.config.issued_capacity,
            )) && (candidate is Err ==> candidate->Err_0 == ServiceError::IdentifierExhausted),
            final(self)@.identity.nonce is None ==> candidate is Err && {
                ||| candidate->Err_0 == ServiceError::IdentifierExhausted && exists|
                    draws: Seq<Seq<&mut [u8]>>,
                    reports: Seq<Seq<Seq<u8>>>,
                |
                    {
                        &&& #[trigger] identity::may_report_zeros(random, draws, reports)
                        &&& draws.len() == old(self)@.scheduler.config.id_retries
                        &&& forall|k: int, i: int|
                            #![trigger draws[k][i]]
                            0 <= k < draws.len() && 0 <= i < draws[k].len()
                                ==> reports[k][i].is_prefix_of((*final(draws[k][i]))@)
                    }
                ||| exists|
                    calls: Seq<&mut [u8]>,
                    parts: Seq<Seq<u8>>,
                    asked: &mut [u8],
                    written: Result<usize, ServiceError>,
                |
                    {
                        &&& #[trigger] identity::may_report(random, calls, parts, 8)
                        &&& 0 < (*asked)@.len() == 8 - parts.flatten().len()
                        &&& #[trigger] call_ensures(R::fill, (random, asked), written)
                        &&& if identity::is_valid_fill(written, (*asked)@.len()) {
                            (*final(asked))@.len() < written->Ok_0 && candidate->Err_0
                                == ServiceError::EntropyUnavailable
                        } else {
                            candidate->Err_0 == if written is Err {
                                written->Err_0
                            } else {
                                ServiceError::EntropyUnavailable
                            }
                        }
                    }
            },
    {
        let config = self.scheduler.config();
        self.identity.candidate_id(random, config.issued_capacity(), config.id_retries())
    }

    /// Makes the state of an operation that is to be admitted.
    pub fn new_operation(&self, id: OperationId, resets_inactivity: bool) -> (state: Result<
        OperationState,
        ServiceError,
    >)
        ensures
            match state {
                Ok(state) => state@ == crate::operation::accepted_operation(
                    id,
                    self@.scheduler.config.event_capacity,
                    current_generation(self@.session),
                    resets_inactivity,
                ),
                Err(error) => error == ServiceError::InvalidConfiguration
                    && crate::operation::events_refused(self@.scheduler.config.event_capacity),
            },
    {
        OperationState::new(
            id,
            self.scheduler.config().event_capacity(),
            self.unlocked_generation(),
            resets_inactivity,
        )
    }

    /// Admits an operation of the generation that was seen first, with the
    /// sample of its activity where it counts as such.
    pub fn admit_operation(
        &mut self,
        generation: u64,
        sample: Option<Duration>,
        state: OperationState,
    ) -> (admitted: Result<(), ServiceError>)
        requires
            old(self)@.identity.next < u64::MAX,
        ensures
            admitted == admit_answer(old(self)@, generation, sample),
            final(self)@ == after_admit(old(self)@, generation, sample, state@),
    {
        if let Err(error) = self.scheduler.check_readmission(generation) {
            return Err(error);
        }
        if let Some(now) = sample {
            let recorded: Option<Result<(), ServiceError>> = match &mut self.session {
                Some(session) => Some(session.record_trusted_activity_at(now)),
                None => None,
            };
            match recorded {
                Some(Err(error)) => {
                    self.start_global_lock(Control::DeadlineExpired, false);
                    return Err(error);
                },
                Some(Ok(())) => {
                    self.scheduler.forget_inactivity_warnings();
                },
                None => {},
            }
        }
        self.scheduler.insert(state);
        self.identity.issue();
        Ok(())
    }

    /// Takes a control of the presentation layer.
    pub fn control(&mut self, control: Control) -> (answer: Result<(), ServiceError>)
        ensures
            answer == control_answer(old(self)@, control),
            final(self)@ == after_control(old(self)@, control),
    {
        if control.is_global() {
            self.start_global_lock(control, false);
            return Ok(());
        }
        if self.scheduler.is_closed() {
            return Err(ServiceError::Closed);
        }
        let overflow = match control {
            Control::Cancel(id) => self.scheduler.cancel(id),
            Control::UserActivity => self.scheduler.note_untrusted_activity(),
            _ => false,
        };
        if overflow {
            self.shutdown();
        }
        Ok(())
    }

    /// Asks an operation to stop. A full mailbox shuts the service down.
    pub fn cancel_operation(&mut self, id: OperationId)
        ensures
            ({
                let noted = CoreModel {
                    scheduler: scheduler::after_cancel(old(self)@.scheduler, id),
                    ..old(self)@
                };
                final(self)@ == if scheduler::cancel_overflows(old(self)@.scheduler, id) {
                    after_shutdown(noted)
                } else {
                    noted
                }
            }),
    {
        if self.scheduler.cancel(id) {
            self.shutdown();
        }
    }

    /// Looks whether trusted activity can be recorded.
    pub fn check_trusted_activity(&self) -> (answer: Result<(), ServiceError>)
        ensures
            answer == activity_check(self@),
    {
        if self.session.is_none() {
            return Err(ServiceError::Locked);
        }
        if self.scheduler.is_closed() {
            return Err(ServiceError::Closed);
        }
        if !self.scheduler.is_accepting() || self.scheduler.generation() == 0 {
            return Err(ServiceError::Locked);
        }
        Ok(())
    }

    /// Records trusted activity at what the clock answered.
    pub fn record_trusted_activity(&mut self, sample: Result<Duration, ServiceError>) -> (answer:
        Result<(), ServiceError>)
        ensures
            answer == trusted_activity_answer(old(self)@, sample),
            final(self)@ == after_trusted_activity(old(self)@, sample),
    {
        let now = match sample {
            Ok(now) => now,
            Err(error) => {
                self.start_global_lock(Control::DeadlineExpired, false);
                return Err(error);
            },
        };
        if let Err(error) = self.check_trusted_activity() {
            return Err(error);
        }
        let recorded = match &mut self.session {
            Some(session) => session.record_trusted_activity_at(now),
            None => return Err(ServiceError::Locked),
        };
        if let Err(error) = recorded {
            self.start_global_lock(Control::DeadlineExpired, false);
            return Err(error);
        }
        self.scheduler.forget_inactivity_warnings();
        self.scheduler.note_trusted_activity();
        Ok(())
    }

    /// Shows the state of the service.
    pub fn snapshot(&self) -> (snapshot: ServiceSnapshot)
        ensures
            snapshot@ == scheduler::snapshot_of(self@.scheduler, shown_state(self@.session)),
    {
        self.scheduler.snapshot(self.session_state())
    }

    /// Begins an unlock job: nothing may run, wait or be observed meanwhile.
    pub fn begin_unlock_job(&mut self) -> (begun: Result<(), ServiceError>)
        ensures
            begun == unlock_job_answer(old(self)@),
            final(self)@ == after_unlock_job(old(self)@),
    {
        if self.session.is_none() {
            return Err(ServiceError::InvalidConfiguration);
        }
        if !self.scheduler.may_unlock() {
            return Err(ServiceError::Locked);
        }
        if self.transitions.is_preparing(TransitionKind::Recovery) || self.transitions.has_kind(
            TransitionKind::Recovery,
        ) {
            return Err(ServiceError::Busy);
        }
        self.scheduler.set_unlock_in_progress(true);
        Ok(())
    }

    /// Ends an unlock job with the generation that was unlocked, or with the
    /// failure.
    pub fn finish_unlock_job(&mut self, unlocked: Result<u64, ServiceError>) -> (finished: Result<
        u64,
        ServiceError,
    >)
        ensures
            finished == unlock_end_answer(old(self)@, unlocked),
            final(self)@ == after_unlock_end(old(self)@, unlocked),
    {
        let generation: u64 = match unlocked {
            Ok(generation) => generation,
            Err(error) => {
                self.scheduler.set_unlock_in_progress(false);
                return Err(error);
            },
        };
        let state = self.session_state();
        if self.scheduler.open_generation(generation, state) {
            return Ok(generation);
        }
        self.start_global_lock(Control::LockNow, false);
        Err(ServiceError::Cancelled)
    }

    /// Begins a cleanup retry.
    pub fn begin_retry_cleanup(&mut self) -> (begun: Result<(), ServiceError>)
        ensures
            begun == retry_answer(old(self)@),
            final(self)@ == after_retry(old(self)@),
    {
        if self.scheduler.has_lock_job() || self.scheduler.unlock_in_progress() {
            return Err(ServiceError::Busy);
        }
        match &mut self.session {
            Some(session) => session.begin_retry_cleanup(),
            None => Err(ServiceError::InvalidConfiguration),
        }
    }

    /// Takes the security worker for a job.
    pub fn begin_security_job(&mut self) -> (begun: Result<(), ServiceError>)
        ensures
            begun == if old(self)@.security_busy {
                Err(ServiceError::Busy)
            } else if old(self)@.scheduler.closed {
                Err(ServiceError::Closed)
            } else {
                Ok(())
            },
            final(self)@ == (CoreModel {
                security_busy: old(self)@.security_busy || begun is Ok,
                ..old(self)@
            }),
    {
        if self.security_busy {
            return Err(ServiceError::Busy);
        }
        if self.scheduler.is_closed() {
            return Err(ServiceError::Closed);
        }
        self.security_busy = true;
        Ok(())
    }

    /// Gives the security worker back. A job that panicked requires cleanup.
    pub fn finish_security_job(&mut self, panicked: bool)
        ensures
            final(self)@ == (CoreModel {
                security_busy: false,
                ..if panicked {
                    after_latch(old(self)@)
                } else {
                    old(self)@
                }
            }),
    {
        if panicked {
            self.latch_cleanup_required();
        }
        self.security_busy = false;
    }
}

} // verus!
