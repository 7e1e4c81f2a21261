//! The security transitions of a service: recovery, compromise and freshness.
use vstd::prelude::*;

use crate::error::ServiceError;
use crate::event::{OperationEvent, WarningCode};
use crate::operation;
use crate::operation::{Lifecycle, OperationId, OperationModel, OperationState, Publication};
use crate::ports::secrets;
use crate::ports::secrets::{
    RecoverySecretInput, RecoverySecretPresentation, SecretVerifier,
};
use crate::secret::{SecretBytes, SecretKey};
use crate::service::identity;
use crate::service::identity::{fill_security_entropy, IdentityModel};
use crate::service::runtime;
use crate::service::runtime::{CoreModel, ServiceCore};
use crate::service::scheduler;
use crate::service::scheduler::SchedulerModel;
use crate::service::transitions;
use crate::service::transitions::{RegistryModel, TransitionKind};
use crate::session::errors;
use crate::session::errors::{map_repository_error, PortAnswer, RepositoryPortError};
use crate::session::manager::ManagerModel;
use crate::session::SessionState;

verus! {

/// Whether the session is locked in a generation.
pub open spec fn is_locked_in(session: Option<ManagerModel>, generation: u64) -> bool {
    session is Some && session->0.data.state is Locked && session->0.data.epoch == generation
}

/// Whether the service is open for a generation that the session has unlocked.
pub open spec fn is_open_for(core_state: CoreModel, generation: u64) -> bool {
    &&& core_state.scheduler.accepting
    &&& core_state.scheduler.key_leases_open
    &&& core_state.scheduler.generation == generation
    &&& runtime::current_generation(core_state.session) == Some(generation)
}

/// Whether a transition of a generation may begin, be registered or be carried
/// out. Recovery needs a locked session and a service at rest; compromise needs
/// an open service.
pub open spec fn binding_is_valid(core_state: CoreModel, kind: TransitionKind, generation: u64) -> bool {
    match kind {
        TransitionKind::Recovery => {
            &&& !core_state.scheduler.closed
            &&& !core_state.scheduler.unlock_in_progress
            &&& core_state.scheduler.lock_job is None
            &&& is_locked_in(core_state.session, generation)
        },
        TransitionKind::Compromise => !core_state.scheduler.closed && is_open_for(
            core_state,
            generation,
        ),
        TransitionKind::Freshness => false,
    }
}

/// Whether the freshness question of an operation may be answered: the
/// operation that asked runs and was not cancelled, in a service that is open for
/// the unlocked generation.
pub open spec fn freshness_is_valid(core_state: CoreModel, id: OperationId, generation: u64) -> bool {
    is_open_for(core_state, generation) && runs(core_state.scheduler, id)
}

/// Whether an operation runs and was not cancelled.
pub open spec fn runs(state: SchedulerModel, id: OperationId) -> bool {
    &&& scheduler::place_of(state.active, id) is Some
    &&& state.active[scheduler::place_of(state.active, id)->0].lifecycle is Running
    &&& !state.active[scheduler::place_of(state.active, id)->0].cancelled
}

/// The service with another registry.
pub open spec fn with_transitions(core_state: CoreModel, registry: RegistryModel) -> CoreModel {
    CoreModel { transitions: registry, ..core_state }
}

/// What the beginning of a transition answers: its generation and the token of
/// its preparation.
pub open spec fn begin_answer(core_state: CoreModel, kind: TransitionKind) -> Result<
    (u64, u64),
    ServiceError,
> {
    match core_state.session {
        None => Err(ServiceError::InvalidConfiguration),
        Some(session) => {
            let generation = session.data.epoch;
            match transitions::prepare_answer(
                core_state.transitions,
                kind,
                binding_is_valid(core_state, kind, generation),
            ) {
                Ok(token) => Ok((generation, token)),
                Err(error) => Err(error),
            }
        },
    }
}

/// The service after the beginning of a transition.
pub open spec fn after_begin(core_state: CoreModel, kind: TransitionKind) -> CoreModel {
    match core_state.session {
        None => core_state,
        Some(session) => with_transitions(
            core_state,
            transitions::after_begin_prepare(
                core_state.transitions,
                kind,
                binding_is_valid(core_state, kind, session.data.epoch),
            ),
        ),
    }
}

/// What a transition does after the repository prepared it.
#[derive(Clone, Copy, Debug, PartialEq, Eq, Structural)]
pub enum PrepareStep {
    /// Make the verifier and register the transition.
    Register,
    /// Abort the prepared action and report the failure.
    Abort(ServiceError),
    /// Report the failure.
    Failed(ServiceError),
}

/// Whether a prepared transition still fits the service.
pub open spec fn still_fits(core_state: CoreModel, kind: TransitionKind, generation: u64) -> bool {
    match kind {
        TransitionKind::Recovery => is_locked_in(core_state.session, generation),
        TransitionKind::Compromise => is_open_for(core_state, generation),
        TransitionKind::Freshness => false,
    }
}

/// What a transition does after the repository prepared it.
pub open spec fn prepared_step(
    core_state: CoreModel,
    kind: TransitionKind,
    generation: u64,
    token: u64,
    prepared: PortAnswer<Result<(), RepositoryPortError>>,
) -> PrepareStep {
    match prepared {
        PortAnswer::Panicked => PrepareStep::Failed(ServiceError::CleanupRequired),
        PortAnswer::Returned(Err(error)) => PrepareStep::Failed(errors::repository_failure(error)),
        PortAnswer::Returned(Ok(())) => if transitions::is_prepared(
            core_state.transitions,
            kind,
            token,
        ) && still_fits(core_state, kind, generation) {
            PrepareStep::Register
        } else {
            PrepareStep::Abort(ServiceError::StaleCapability)
        },
    }
}

/// The service after the repository prepared a transition.
pub open spec fn after_prepared(
    core_state: CoreModel,
    kind: TransitionKind,
    generation: u64,
    token: u64,
    prepared: PortAnswer<Result<(), RepositoryPortError>>,
) -> CoreModel {
    let cleared = with_transitions(
        core_state,
        transitions::after_clear_prepare(core_state.transitions, kind, token),
    );
    match prepared_step(core_state, kind, generation, token, prepared) {
        PrepareStep::Register => core_state,
        _ => if prepared is Panicked {
            runtime::after_latch(cleared)
        } else {
            cleared
        },
    }
}

/// What the registration of a transition does with the identity it was given.
pub open spec fn after_registered(
    core_state: CoreModel,
    kind: TransitionKind,
    generation: u64,
    token: u64,
    id: OperationId,
    verifier: Option<(Seq<u8>, Seq<u8>)>,
    presentation: Option<Seq<u8>>,
) -> CoreModel {
    let valid = binding_is_valid(core_state, kind, generation);
    let registered = with_transitions(
        core_state,
        transitions::after_register(
            core_state.transitions,
            token,
            valid,
            transitions::RecordModel {
                kind,
                generation,
                operation: id,
                consuming: false,
                verifier,
                presentation,
                offered: true,
                view: None,
            },
        ),
    );
    if transitions::register_answer(core_state.transitions, kind, token, valid) is Ok {
        CoreModel {
            identity: IdentityModel {
                next: (core_state.identity.next + 1) as u64,
                ..core_state.identity
            },
            ..registered
        }
    } else {
        registered
    }
}

/// What the claim of a security transition answers.
pub open spec fn claim_security_answer(core_state: CoreModel, id: OperationId) -> Result<
    (),
    ServiceError,
> {
    match transitions::place_of(core_state.transitions.records, id) {
        None => Err(ServiceError::StaleCapability),
        Some(index) => {
            let record = core_state.transitions.records[index];
            transitions::claim_answer(
                core_state.transitions,
                id,
                binding_is_valid(core_state, record.kind, record.generation),
            )
        },
    }
}

/// The service after the claim of a security transition.
pub open spec fn after_claim_security(core_state: CoreModel, id: OperationId) -> CoreModel {
    match transitions::place_of(core_state.transitions.records, id) {
        None => core_state,
        Some(index) => {
            let record = core_state.transitions.records[index];
            with_transitions(
                core_state,
                transitions::after_claim_execution(
                    core_state.transitions,
                    binding_is_valid(core_state, record.kind, record.generation),
                    operation::accepted_operation(
                        id,
                        core_state.scheduler.config.event_capacity,
                        Some(record.generation),
                        true,
                    ),
                ),
            )
        },
    }
}

/// What the confirmation of a recovery is answered.
pub open spec fn recovery_confirmation(verifier: Option<(Seq<u8>, Seq<u8>)>, confirmation: Seq<u8>) -> Result<
    (),
    ServiceError,
> {
    match verifier {
        None => Err(ServiceError::StaleCapability),
        Some(verifier) => if secrets::accepts_secret(verifier, confirmation) {
            Ok(())
        } else {
            Err(ServiceError::AuthenticationFailed)
        },
    }
}

/// What the confirmation of a compromise is answered, with the key that a
/// secret of the user's own choice is compared under. A generated secret is
/// confirmed once; a chosen one is entered twice.
pub open spec fn compromise_confirmation(
    verifier: Option<(Seq<u8>, Seq<u8>)>,
    first: Seq<u8>,
    matching: Option<Seq<u8>>,
    key: Result<Seq<u8>, ServiceError>,
) -> Result<Seq<u8>, ServiceError> {
    match (verifier, matching) {
        (Some(_), Some(_)) => Err(ServiceError::AuthenticationFailed),
        (Some(verifier), None) => if secrets::accepts_secret(verifier, first) {
            Ok(first)
        } else {
            Err(ServiceError::AuthenticationFailed)
        },
        (None, None) => Err(ServiceError::AuthenticationFailed),
        (None, Some(matching)) => match key {
            Err(error) => Err(error),
            Ok(key) => if secrets::recovery_verifier(key, first) == secrets::recovery_verifier(
                key,
                matching,
            ) {
                Ok(matching)
            } else {
                Err(ServiceError::AuthenticationFailed)
            },
        },
    }
}

/// Bytes of a confirmed secret.
pub open spec fn confirmed_bytes(confirmed: Result<RecoverySecretInput, ServiceError>) -> Result<
    Seq<u8>,
    ServiceError,
> {
    match confirmed {
        Ok(secret) => Ok(secret@),
        Err(error) => Err(error),
    }
}

/// Bytes of an optional secret.
pub open spec fn optional_secret(secret: Option<RecoverySecretInput>) -> Option<Seq<u8>> {
    match secret {
        Some(secret) => Some(secret@),
        None => None,
    }
}

/// Bytes of a drawn key.
pub open spec fn key_bytes(key: Result<SecretKey, ServiceError>) -> Result<Seq<u8>, ServiceError> {
    match key {
        Ok(key) => Ok(key@),
        Err(error) => Err(error),
    }
}

/// The registry after the execution of a transition got its outcome.
pub open spec fn after_execution_end(
    registry: RegistryModel,
    id: OperationId,
    outcome: Result<(), ServiceError>,
) -> RegistryModel {
    match transitions::execution_of(registry.executions, id) {
        Some(index) => RegistryModel {
            executions: registry.executions.update(
                index,
                operation::after_finish_transition(registry.executions[index], outcome),
            ),
            ..registry
        },
        None => registry,
    }
}

/// What the registration of what cancels an execution answers.
pub open spec fn guard_answer(
    core_state: CoreModel,
    id: OperationId,
    cancellation: PortAnswer<u64>,
) -> Result<(), ServiceError> {
    match (cancellation, transitions::execution_of(core_state.transitions.executions, id)) {
        (PortAnswer::Panicked, _) => Err(ServiceError::CleanupRequired),
        (PortAnswer::Returned(_), None) => Err(ServiceError::StaleCapability),
        (PortAnswer::Returned(_), Some(index)) => operation::register_lease_answer(
            core_state.transitions.executions[index],
        ),
    }
}

/// The service after what cancels an execution was registered.
pub open spec fn after_guard(
    core_state: CoreModel,
    id: OperationId,
    cancellation: PortAnswer<u64>,
) -> CoreModel {
    match (cancellation, transitions::execution_of(core_state.transitions.executions, id)) {
        (PortAnswer::Returned(token), Some(index)) if guard_answer(
            core_state,
            id,
            cancellation,
        ) is Ok => with_transitions(
            core_state,
            with_execution(
                core_state.transitions,
                index,
                OperationModel {
                    lease_cancellations: core_state.transitions.executions[index].lease_cancellations.push(
                        token,
                    ),
                    ..core_state.transitions.executions[index]
                },
            ),
        ),
        _ => core_state,
    }
}

/// The registry with another state of an execution.
pub open spec fn with_execution(
    registry: RegistryModel,
    index: int,
    state: OperationModel,
) -> RegistryModel {
    RegistryModel { executions: registry.executions.update(index, state), ..registry }
}

/// Whether an execution begins now.
pub open spec fn execution_begins(core_state: CoreModel, id: OperationId) -> bool {
    match transitions::execution_of(core_state.transitions.executions, id) {
        Some(index) => core_state.transitions.executions[index].lifecycle is Accepted,
        None => false,
    }
}

/// The service after an execution was to begin.
pub open spec fn after_execution_begin(core_state: CoreModel, id: OperationId) -> CoreModel {
    match transitions::execution_of(core_state.transitions.executions, id) {
        Some(index) if execution_begins(core_state, id) => with_transitions(
            core_state,
            with_execution(
                core_state.transitions,
                index,
                OperationModel {
                    lifecycle: Lifecycle::Running,
                    ..core_state.transitions.executions[index]
                },
            ),
        ),
        _ => core_state,
    }
}

/// The service after a transition ended.
pub open spec fn after_transition_end(
    core_state: CoreModel,
    id: OperationId,
    outcome: Result<(), ServiceError>,
) -> CoreModel {
    with_transitions(
        core_state,
        transitions::after_complete(
            after_execution_end(core_state.transitions, id, outcome),
            id,
        ),
    )
}

/// What the execution of a transition answers.
pub open spec fn execution_answer(answer: PortAnswer<Result<(), RepositoryPortError>>) -> Result<
    (),
    ServiceError,
> {
    match answer {
        PortAnswer::Panicked => Err(ServiceError::CleanupRequired),
        PortAnswer::Returned(Err(error)) => Err(errors::repository_failure(error)),
        PortAnswer::Returned(Ok(())) => Ok(()),
    }
}

/// The service after a transition was carried out: one that needs cleanup
/// requires it.
pub open spec fn after_executed(
    core_state: CoreModel,
    id: OperationId,
    answer: PortAnswer<Result<(), RepositoryPortError>>,
) -> CoreModel {
    let outcome = execution_answer(answer);
    let latched = if outcome == Err::<(), ServiceError>(ServiceError::CleanupRequired) {
        runtime::after_latch(core_state)
    } else {
        core_state
    };
    after_transition_end(latched, id, outcome)
}

/// What a freshness question does next.
#[derive(Clone, Copy, Debug, PartialEq, Eq, Structural)]
pub enum FreshnessStep {
    /// Wait for the answer.
    Wait,
    /// Abort the action and report the failure.
    Abort(ServiceError),
    /// Report the failure.
    Failed(ServiceError),
}

/// What a freshness question does after its action was asked what it shows and
/// whether it belongs to the operation.
pub open spec fn freshness_step(
    core_state: CoreModel,
    id: OperationId,
    view: PortAnswer<[u8; 32]>,
    bound: PortAnswer<bool>,
) -> FreshnessStep {
    if view is Panicked || bound is Panicked {
        FreshnessStep::Abort(ServiceError::CleanupRequired)
    } else if !bound->Returned_0 {
        FreshnessStep::Abort(ServiceError::StaleCapability)
    } else if scheduler::place_of(core_state.scheduler.active, id) is Some
        && core_state.scheduler.active[scheduler::place_of(
        core_state.scheduler.active,
        id,
    )->0].session_generation is None {
        FreshnessStep::Failed(ServiceError::Locked)
    } else if scheduler::current_lease_answer(core_state.scheduler, id) is Err {
        FreshnessStep::Abort(ServiceError::StaleCapability)
    } else if transitions::freshness_answer(core_state.transitions, id) is Err {
        FreshnessStep::Abort(ServiceError::Busy)
    } else {
        FreshnessStep::Wait
    }
}

/// What a freshness question of an operation that is no longer accounted does.
pub open spec fn detached_freshness_step(
    state: OperationModel,
    view: PortAnswer<[u8; 32]>,
    bound: PortAnswer<bool>,
) -> FreshnessStep {
    if view is Panicked || bound is Panicked {
        FreshnessStep::Abort(ServiceError::CleanupRequired)
    } else if bound->Returned_0 && state.session_generation is None {
        FreshnessStep::Failed(ServiceError::Locked)
    } else {
        FreshnessStep::Abort(ServiceError::StaleCapability)
    }
}

/// The service after a freshness question was asked.
pub open spec fn after_freshness(
    core_state: CoreModel,
    id: OperationId,
    view: PortAnswer<[u8; 32]>,
    bound: PortAnswer<bool>,
) -> CoreModel {
    if view is Panicked || bound is Panicked {
        runtime::after_latch(core_state)
    } else if freshness_step(core_state, id, view, bound) is Wait {
        with_transitions(
            core_state,
            transitions::after_freshness(
                core_state.transitions,
                id,
                core_state.scheduler.generation,
                view->Returned_0,
            ),
        )
    } else {
        core_state
    }
}

/// What the offer of a freshness question answers.
pub open spec fn offer_answer(core_state: CoreModel, id: OperationId) -> Result<
    ([u8; 32], u64),
    ServiceError,
> {
    match transitions::place_of(core_state.transitions.records, id) {
        Some(index) if core_state.scheduler.generation
            == core_state.transitions.records[index].generation && runs(
            core_state.scheduler,
            id,
        ) => match transitions::offer_answer(core_state.transitions, id) {
            Some(view) => Ok((view, core_state.transitions.records[index].generation)),
            None => Err(ServiceError::StaleCapability),
        },
        _ => Err(ServiceError::StaleCapability),
    }
}

/// The service after the offer of a freshness question.
pub open spec fn after_offer(core_state: CoreModel, id: OperationId) -> CoreModel {
    match transitions::place_of(core_state.transitions.records, id) {
        Some(index) if core_state.scheduler.generation
            == core_state.transitions.records[index].generation && runs(
            core_state.scheduler,
            id,
        ) => with_transitions(
            core_state,
            transitions::after_offer(core_state.transitions, id),
        ),
        _ => core_state,
    }
}

/// What the claim of a freshness question answers.
pub open spec fn claim_freshness_answer(core_state: CoreModel, id: OperationId) -> Result<
    (),
    ServiceError,
> {
    match transitions::place_of(core_state.transitions.records, id) {
        Some(index) if core_state.transitions.records[index].kind is Freshness => transitions::claim_answer(
            core_state.transitions,
            id,
            freshness_is_valid(core_state, id, core_state.transitions.records[index].generation),
        ),
        _ => Err(ServiceError::StaleCapability),
    }
}

/// The service after the claim of a freshness question.
pub open spec fn after_claim_freshness(core_state: CoreModel, id: OperationId) -> CoreModel {
    if claim_freshness_answer(core_state, id) is Ok {
        with_transitions(
            core_state,
            transitions::after_claim(core_state.transitions, id, true),
        )
    } else {
        core_state
    }
}

/// The service after a freshness question was answered: the operation that
/// asked learns what came of it.
pub open spec fn after_acknowledged(
    core_state: CoreModel,
    id: OperationId,
    answer: PortAnswer<Result<(), RepositoryPortError>>,
) -> CoreModel {
    let result = execution_answer(answer);
    let resolved = with_transitions(
        core_state,
        transitions::after_complete(
            transitions::after_resolve(core_state.transitions, id, result),
            id,
        ),
    );
    if result == Err::<(), ServiceError>(ServiceError::CleanupRequired) {
        runtime::after_latch(resolved)
    } else {
        resolved
    }
}

/// The service after the action of a cancelled transition was aborted: the
/// operation that asked for freshness learns of it, and a failed abort requires
/// cleanup.
pub open spec fn after_aborted(
    core_state: CoreModel,
    id: OperationId,
    kind: TransitionKind,
    failed: bool,
) -> CoreModel {
    let latched = if failed {
        runtime::after_latch(core_state)
    } else {
        core_state
    };
    if kind is Freshness {
        with_transitions(
            latched,
            transitions::after_resolve(
                latched.transitions,
                id,
                Err(ServiceError::Cancelled),
            ),
        )
    } else {
        latched
    }
}

/// What an operation that asked for freshness does next.
#[derive(Clone, Copy, Debug, PartialEq, Eq)]
pub enum FreshnessWait {
    /// Its question was resolved.
    Resolved(Result<(), ServiceError>),
    /// It was cancelled: cancel its question, and look again.
    Cancel,
    /// Wait until the service changes.
    Wait,
}

/// What an operation that asked for freshness does next. One that is accounted
/// no more is cancelled.
pub open spec fn freshness_wait(core_state: CoreModel, id: OperationId) -> FreshnessWait {
    match transitions::resolution_of(core_state.transitions.resolutions, id) {
        Some(index) => FreshnessWait::Resolved(core_state.transitions.resolutions[index].1),
        None => match scheduler::place_of(core_state.scheduler.active, id) {
            Some(index) if !core_state.scheduler.active[index].cancelled => FreshnessWait::Wait,
            _ => FreshnessWait::Cancel,
        },
    }
}

impl ServiceCore {
    fn is_locked_in(&self, generation: u64) -> (locked: bool)
        ensures
            locked == is_locked_in(self@.session, generation),
    {
        match &self.session {
            Some(session) => session.state() == SessionState::Locked && session.binding_epoch()
                == generation,
            None => false,
        }
    }

    fn is_open_for(&self, generation: u64) -> (open: bool)
        ensures
            open == is_open_for(self@, generation),
    {
        let current = match &self.session {
            Some(session) => match session.current_generation() {
                Some(current) => current == generation,
                None => false,
            },
            None => false,
        };
        self.scheduler.is_accepting() && self.scheduler.key_leases_open()
            && self.scheduler.generation() == generation && current
    }

    fn binding_is_valid(&self, kind: TransitionKind, generation: u64) -> (valid: bool)
        ensures
            valid == binding_is_valid(self@, kind, generation),
    {
        match kind {
            TransitionKind::Recovery => !self.scheduler.is_closed()
                && !self.scheduler.unlock_in_progress() && !self.scheduler.has_lock_job()
                && self.is_locked_in(generation),
            TransitionKind::Compromise => !self.scheduler.is_closed() && self.is_open_for(
                generation,
            ),
            TransitionKind::Freshness => false,
        }
    }

    /// Begins a security transition. The repository prepares it next.
    pub fn begin_transition(&mut self, kind: TransitionKind) -> (begun: Result<
        (u64, u64),
        ServiceError,
    >)
        ensures
            begun == begin_answer(old(self)@, kind),
            final(self)@ == after_begin(old(self)@, kind),
    {
        let generation: u64 = match &self.session {
            Some(session) => session.binding_epoch(),
            None => return Err(ServiceError::InvalidConfiguration),
        };
        let valid = self.binding_is_valid(kind, generation);
        match self.transitions.begin_prepare(kind, valid) {
            Ok(token) => Ok((generation, token)),
            Err(error) => Err(error),
        }
    }

    /// Goes on with a transition after the repository prepared it.
    pub fn transition_prepared(
        &mut self,
        kind: TransitionKind,
        generation: u64,
        token: u64,
        prepared: PortAnswer<Result<(), RepositoryPortError>>,
    ) -> (step: PrepareStep)
        ensures
            step == prepared_step(old(self)@, kind, generation, token, prepared),
            final(self)@ == after_prepared(old(self)@, kind, generation, token, prepared),
    {
        match prepared {
            PortAnswer::Panicked => {
                self.transitions.clear_prepare(kind, token);
                self.latch_cleanup_required();
                PrepareStep::Failed(ServiceError::CleanupRequired)
            },
            PortAnswer::Returned(Err(error)) => {
                self.transitions.clear_prepare(kind, token);
                PrepareStep::Failed(map_repository_error(error))
            },
            PortAnswer::Returned(Ok(())) => {
                let fits = match kind {
                    TransitionKind::Recovery => self.is_locked_in(generation),
                    TransitionKind::Compromise => self.is_open_for(generation),
                    TransitionKind::Freshness => false,
                };
                if self.transitions.prepare_is_active(kind, token) && fits {
                    PrepareStep::Register
                } else {
                    self.transitions.clear_prepare(kind, token);
                    PrepareStep::Abort(ServiceError::StaleCapability)
                }
            },
        }
    }

    /// Gives a preparation up, for want of entropy or of an identity.
    pub fn abandon_transition(&mut self, kind: TransitionKind, token: u64)
        ensures
            final(self)@ == with_transitions(
                old(self)@,
                transitions::after_clear_prepare(old(self)@.transitions, kind, token),
            ),
    {
        self.transitions.clear_prepare(kind, token);
    }

    /// Registers a prepared transition under an identity that was looked at. Only
    /// a registered one uses the identity up.
    pub fn register_transition(
        &mut self,
        kind: TransitionKind,
        generation: u64,
        token: u64,
        id: OperationId,
        verifier: Option<SecretVerifier>,
        presentation: Option<SecretBytes>,
    ) -> (registered: Result<(), ServiceError>)
        requires
            old(self)@.identity.next < u64::MAX,
        ensures
            registered == transitions::register_answer(
                old(self)@.transitions,
                kind,
                token,
                binding_is_valid(old(self)@, kind, generation),
            ),
            final(self)@ == after_registered(
                old(self)@,
                kind,
                generation,
                token,
                id,
                transitions::verifier_model(verifier),
                secrets::payload_bytes(presentation),
            ),
    {
        let valid = self.binding_is_valid(kind, generation);
        match self.transitions.register(
            kind,
            generation,
            id,
            token,
            valid,
            verifier,
            presentation,
        ) {
            Ok(()) => {
                self.identity.issue();
                Ok(())
            },
            Err(error) => Err(error),
        }
    }

    /// Takes what a registered transition has to present.
    pub fn presentation(&mut self, id: OperationId) -> (presentation: RecoverySecretPresentation)
        ensures
            presentation@ == transitions::presentation_of(old(self)@.transitions, id),
            final(self)@ == with_transitions(
                old(self)@,
                transitions::after_take_presentation(old(self)@.transitions, id),
            ),
    {
        let payload = self.transitions.take_presentation(id);
        RecoverySecretPresentation::new(payload)
    }

    /// Claims a security transition to carry it out. Memory for its execution is
    /// asked for first; it may be refused, and then nothing changes.
    pub fn claim_security_transition(&mut self, id: OperationId) -> (claimed: Result<
        (),
        ServiceError,
    >)
        ensures
            claimed == claim_security_answer(old(self)@, id) && final(self)@
                == after_claim_security(old(self)@, id) || operation::events_refused(
                old(self)@.scheduler.config.event_capacity,
            ) && claimed == Err::<(), ServiceError>(ServiceError::InvalidConfiguration)
                && final(self)@ == old(self)@,
    {
        let execution = OperationState::new(
            id,
            self.scheduler.config().event_capacity(),
            self.transitions.generation_of(id),
            true,
        );
        self.claim_with(id, execution)
    }

    /// Claims a security transition with the state of its execution, or not where
    /// that could not be made.
    pub fn claim_with(
        &mut self,
        id: OperationId,
        execution: Result<OperationState, ServiceError>,
    ) -> (claimed: Result<(), ServiceError>)
        requires
            execution matches Ok(execution) ==> execution@ == operation::accepted_operation(
                id,
                old(self)@.scheduler.config.event_capacity,
                transitions::generation_of(old(self)@.transitions, id),
                true,
            ),
        ensures
            match execution {
                Ok(_) => claimed == claim_security_answer(old(self)@, id) && final(self)@
                    == after_claim_security(old(self)@, id),
                Err(error) => claimed == Err::<(), ServiceError>(error) && final(self)@ == old(
                    self,
                )@,
            },
    {
        let execution = match execution {
            Ok(execution) => execution,
            Err(error) => return Err(error),
        };
        match (self.transitions.kind_of(id), self.transitions.generation_of(id)) {
            (Some(kind), Some(generation)) => {
                let valid = self.binding_is_valid(kind, generation);
                self.transitions.claim_execution(valid, execution)
            },
            _ => Err(ServiceError::StaleCapability),
        }
    }

    /// Holds the confirmation of a recovery against its verifier. What was still
    /// to be presented is gone.
    pub fn confirm_recovery(&mut self, id: OperationId, confirmation: RecoverySecretInput) -> (confirmed:
        Result<RecoverySecretInput, ServiceError>)
        ensures
            match recovery_confirmation(
                transitions::verifier_of(old(self)@.transitions, id),
                confirmation@,
            ) {
                Ok(()) => confirmed is Ok && confirmed->Ok_0@ == confirmation@,
                Err(error) => confirmed == Err::<RecoverySecretInput, ServiceError>(error),
            },
            final(self)@ == with_transitions(
                old(self)@,
                transitions::after_take_verifier(old(self)@.transitions, id),
            ),
    {
        match self.transitions.take_verifier(id) {
            None => Err(ServiceError::StaleCapability),
            Some(verifier) => match verifier.verify(confirmation) {
                Ok(confirmation) => Ok(confirmation),
                Err(()) => Err(ServiceError::AuthenticationFailed),
            },
        }
    }

    /// Holds the confirmation of a compromise against its verifier, or its two
    /// entries against each other under a key of its own.
    pub fn confirm_compromise(
        &mut self,
        id: OperationId,
        first: RecoverySecretInput,
        matching: Option<RecoverySecretInput>,
    ) -> (confirmed: Result<RecoverySecretInput, ServiceError>)
        ensures
            transitions::verifier_of(old(self)@.transitions, id) is Some || matching is None
                ==> confirmed_bytes(confirmed) == compromise_confirmation(
                transitions::verifier_of(old(self)@.transitions, id),
                first@,
                optional_secret(matching),
                Err(ServiceError::EntropyUnavailable),
            ),
            transitions::verifier_of(old(self)@.transitions, id) is None && matching is Some ==> {
                ||| exists|asked: &mut [u8]|
                    {
                        &&& #[trigger] identity::system_may_fill(asked, true)
                        &&& (*asked)@.len() == 32
                        &&& confirmed_bytes(confirmed) == compromise_confirmation(
                            None,
                            first@,
                            optional_secret(matching),
                            Ok((*final(asked))@),
                        )
                    }
                ||| exists|asked: &mut [u8]|
                    {
                        &&& #[trigger] identity::system_may_fill(asked, false)
                        &&& (*asked)@.len() == 32
                        &&& confirmed_bytes(confirmed) == Err::<Seq<u8>, ServiceError>(
                            ServiceError::EntropyUnavailable,
                        )
                    }
            },
            final(self)@ == with_transitions(
                old(self)@,
                transitions::after_take_verifier(old(self)@.transitions, id),
            ),
    {
        let verifier = self.transitions.take_verifier(id);
        let key = if verifier.is_none() && matching.is_some() {
            fill_security_entropy()
        } else {
            Err(ServiceError::EntropyUnavailable)
        };
        compare_compromise(verifier, first, matching, key)
    }

    /// Registers what cancels the execution of a transition, under the caller's
    /// token.
    pub fn guard_execution(&mut self, id: OperationId, cancellation: PortAnswer<u64>) -> (guarded:
        Result<(), ServiceError>)
        ensures
            guarded == guard_answer(old(self)@, id, cancellation),
            final(self)@ == after_guard(old(self)@, id, cancellation),
    {
        let token: u64 = match cancellation {
            PortAnswer::Returned(token) => token,
            PortAnswer::Panicked => return Err(ServiceError::CleanupRequired),
        };
        let ghost before = self@;
        match self.transitions.execution_mut(id) {
            Some(state) => {
                let registered = state.register_lease_cancellation(token);
                proof {
                    if registered is Err {
                        assert(self@.transitions.executions
                            =~= before.transitions.executions);
                    }
                }
                registered
            },
            None => Err(ServiceError::StaleCapability),
        }
    }

    /// Begins the execution of a transition. The answer is whether this call did.
    pub fn start_execution(&mut self, id: OperationId) -> (started: bool)
        ensures
            started == execution_begins(old(self)@, id),
            final(self)@ == after_execution_begin(old(self)@, id),
    {
        let ghost before = self@;
        match self.transitions.execution_mut(id) {
            Some(state) => {
                let started = state.mark_running();
                proof {
                    if !started {
                        assert(self@.transitions.executions
                            =~= before.transitions.executions);
                    }
                }
                started
            },
            None => false,
        }
    }

    /// Begins the execution of a transition on the security worker. One that does not
    /// wait to begin is stale.
    pub fn begin_execution(&mut self, id: OperationId) -> (begun: Result<(), ServiceError>)
        ensures
            begun == if execution_begins(old(self)@, id) {
                Ok::<(), ServiceError>(())
            } else {
                Err(ServiceError::StaleCapability)
            },
            final(self)@ == after_execution_begin(old(self)@, id),
    {
        if self.start_execution(id) {
            Ok(())
        } else {
            Err(ServiceError::StaleCapability)
        }
    }

    /// Ends a transition whose execution was not there to begin.
    pub fn transition_skipped(&mut self, id: OperationId)
        ensures
            final(self)@ == with_transitions(
                old(self)@,
                transitions::after_complete(old(self)@.transitions, id),
            ),
    {
        self.transitions.complete(id);
    }

    /// Ends a transition that failed before it was carried out, after its action was
    /// aborted. A host that panicked requires cleanup.
    pub fn transition_refused(&mut self, id: OperationId, error: ServiceError, panicked: bool)
        ensures
            final(self)@ == if panicked {
                runtime::after_latch(after_transition_end(old(self)@, id, Err(error)))
            } else {
                after_transition_end(old(self)@, id, Err(error))
            },
    {
        self.discard_transition(id, error);
        if panicked {
            self.latch_cleanup_required();
        }
    }

    /// Ends a transition whose action is gone.
    pub fn action_missing(&mut self, id: OperationId) -> (error: ServiceError)
        ensures
            error == ServiceError::StaleCapability,
            final(self)@ == after_transition_end(
                old(self)@,
                id,
                Err(ServiceError::StaleCapability),
            ),
    {
        self.discard_transition(id, ServiceError::StaleCapability);
        ServiceError::StaleCapability
    }

    /// Ends a transition that failed before it was carried out.
    pub fn discard_transition(&mut self, id: OperationId, error: ServiceError)
        ensures
            final(self)@ == after_transition_end(old(self)@, id, Err(error)),
    {
        self.end_execution(id, Err(error));
        self.transitions.complete(id);
    }

    fn end_execution(&mut self, id: OperationId, outcome: Result<(), ServiceError>)
        ensures
            final(self)@ == with_transitions(
                old(self)@,
                after_execution_end(old(self)@.transitions, id, outcome),
            ),
    {
        if let Some(execution) = self.transitions.execution_mut(id) {
            execution.finish_transition(outcome);
        }
    }

    /// Ends a transition that was carried out.
    pub fn transition_executed(
        &mut self,
        id: OperationId,
        answer: PortAnswer<Result<(), RepositoryPortError>>,
    ) -> (outcome: Result<(), ServiceError>)
        ensures
            outcome == execution_answer(answer),
            final(self)@ == after_executed(old(self)@, id, answer),
    {
        let outcome = answered(answer);
        if let Err(ServiceError::CleanupRequired) = outcome {
            self.latch_cleanup_required();
        }
        self.end_execution(id, outcome);
        self.transitions.complete(id);
        outcome
    }

    /// Cancels a transition that waits. The answer is its kind: its action is to
    /// be aborted.
    pub fn cancel_transition(&mut self, id: OperationId) -> (kind: Option<TransitionKind>)
        ensures
            kind == if transitions::is_pending(old(self)@.transitions, id) {
                Some(
                    old(self)@.transitions.records[transitions::place_of(
                        old(self)@.transitions.records,
                        id,
                    )->0].kind,
                )
            } else {
                None
            },
            final(self)@ == with_transitions(
                old(self)@,
                transitions::after_cancel(old(self)@.transitions, id),
            ),
    {
        self.transitions.cancel(id)
    }

    /// Cancels every transition that waits. The answer is which: their actions
    /// are to be aborted.
    pub fn cancel_all_transitions(&mut self) -> (cancelled: Vec<(OperationId, TransitionKind)>)
        ensures
            cancelled@ == transitions::pending_transitions(
                old(self)@.transitions.records,
                old(self)@.transitions.records.len(),
            ),
            final(self)@ == with_transitions(
                old(self)@,
                RegistryModel {
                    records: transitions::consuming_only(old(self)@.transitions.records),
                    ..old(self)@.transitions
                },
            ),
    {
        self.transitions.cancel_all()
    }

    /// Notes that the action of a cancelled transition was aborted.
    pub fn transition_aborted(&mut self, id: OperationId, kind: TransitionKind, failed: bool)
        ensures
            final(self)@ == after_aborted(old(self)@, id, kind, failed),
    {
        if failed {
            self.latch_cleanup_required();
        }
        if kind == TransitionKind::Freshness {
            self.transitions.resolve(id, Err(ServiceError::Cancelled));
        }
    }

    /// Notes that a prepared action was aborted.
    pub fn action_aborted(&mut self, failed: bool)
        ensures
            final(self)@ == if failed {
                runtime::after_latch(old(self)@)
            } else {
                old(self)@
            },
    {
        if failed {
            self.latch_cleanup_required();
        }
    }

    /// Asks a freshness question for an operation that runs.
    pub fn ask_freshness(
        &mut self,
        id: OperationId,
        view: PortAnswer<[u8; 32]>,
        bound: PortAnswer<bool>,
    ) -> (step: FreshnessStep)
        ensures
            step == freshness_step(old(self)@, id, view, bound),
            final(self)@ == after_freshness(old(self)@, id, view, bound),
    {
        let (view, bound): ([u8; 32], bool) = match (view, bound) {
            (PortAnswer::Returned(view), PortAnswer::Returned(bound)) => (view, bound),
            _ => {
                self.latch_cleanup_required();
                return FreshnessStep::Abort(ServiceError::CleanupRequired);
            },
        };
        if !bound {
            return FreshnessStep::Abort(ServiceError::StaleCapability);
        }
        if let Some(state) = self.scheduler.operation(id) {
            if state.session_generation().is_none() {
                return FreshnessStep::Failed(ServiceError::Locked);
            }
        }
        let generation: u64 = match self.scheduler.check_current_lease(id) {
            Ok(generation) => generation,
            Err(_) => return FreshnessStep::Abort(ServiceError::StaleCapability),
        };
        match self.transitions.register_freshness(id, generation, view) {
            Ok(()) => FreshnessStep::Wait,
            Err(_) => FreshnessStep::Abort(ServiceError::Busy),
        }
    }

    /// Asks a freshness question for an operation that is no longer accounted.
    pub fn ask_detached_freshness(
        &mut self,
        state: &OperationState,
        view: PortAnswer<[u8; 32]>,
        bound: PortAnswer<bool>,
    ) -> (step: FreshnessStep)
        ensures
            step == detached_freshness_step(state@, view, bound),
            final(self)@ == if view is Panicked || bound is Panicked {
                runtime::after_latch(old(self)@)
            } else {
                old(self)@
            },
    {
        match (view, bound) {
            (PortAnswer::Returned(_), PortAnswer::Returned(bound)) => if bound
                && state.session_generation().is_none() {
                FreshnessStep::Failed(ServiceError::Locked)
            } else {
                FreshnessStep::Abort(ServiceError::StaleCapability)
            },
            _ => {
                self.latch_cleanup_required();
                FreshnessStep::Abort(ServiceError::CleanupRequired)
            },
        }
    }

    /// Tells the consumer of an operation that its freshness cannot be proven.
    pub fn announce_freshness(&mut self, id: OperationId) -> (answer: Result<
        Publication,
        ServiceError,
    >)
        ensures
            ({
                let event = OperationEvent::Warning(WarningCode::FreshnessUnprovable);
                match scheduler::place_of(old(self)@.scheduler.active, id) {
                    Some(index) => answer == operation::publish_answer(
                        old(self)@.scheduler.active[index],
                        event,
                    ) && final(self)@ == (CoreModel {
                        scheduler: SchedulerModel {
                            active: old(self)@.scheduler.active.update(
                                index,
                                operation::after_publish(
                                    old(self)@.scheduler.active[index],
                                    event,
                                ),
                            ),
                            ..old(self)@.scheduler
                        },
                        ..old(self)@
                    }),
                    None => answer == Err::<Publication, ServiceError>(ServiceError::Closed)
                        && final(self)@ == old(self)@,
                }
            }),
    {
        match self.scheduler.operation_mut(id) {
            Some(state) => state.publish(
                OperationEvent::Warning(WarningCode::FreshnessUnprovable),
            ),
            None => Err(ServiceError::Closed),
        }
    }

    /// Looks whether the question of an operation was resolved.
    pub fn await_freshness(&mut self, id: OperationId) -> (wait: FreshnessWait)
        ensures
            wait == freshness_wait(old(self)@, id),
            final(self)@ == with_transitions(
                old(self)@,
                transitions::after_take_resolution(old(self)@.transitions, id),
            ),
    {
        if let Some(result) = self.transitions.take_resolution(id) {
            return FreshnessWait::Resolved(result);
        }
        match self.scheduler.operation(id) {
            Some(state) => if state.is_cancelled() {
                FreshnessWait::Cancel
            } else {
                FreshnessWait::Wait
            },
            None => FreshnessWait::Cancel,
        }
    }

    fn runs(&self, id: OperationId) -> (running: bool)
        ensures
            running == runs(self@.scheduler, id),
    {
        match self.scheduler.operation(id) {
            Some(state) => state.is_running() && !state.is_cancelled(),
            None => false,
        }
    }

    /// Offers the freshness question of an operation, once.
    pub fn offer_freshness(&mut self, id: OperationId) -> (offered: Result<
        ([u8; 32], u64),
        ServiceError,
    >)
        ensures
            offered == offer_answer(old(self)@, id),
            final(self)@ == after_offer(old(self)@, id),
    {
        let generation: u64 = match self.transitions.generation_of(id) {
            Some(generation) => generation,
            None => return Err(ServiceError::StaleCapability),
        };
        if self.scheduler.generation() != generation || !self.runs(id) {
            return Err(ServiceError::StaleCapability);
        }
        match self.transitions.offer(id) {
            Some(view) => Ok((view, generation)),
            None => Err(ServiceError::StaleCapability),
        }
    }

    /// Claims a freshness question to answer it.
    pub fn claim_freshness(&mut self, id: OperationId) -> (claimed: Result<(), ServiceError>)
        ensures
            claimed == claim_freshness_answer(old(self)@, id),
            final(self)@ == after_claim_freshness(old(self)@, id),
    {
        match self.transitions.kind_of(id) {
            Some(TransitionKind::Freshness) => {},
            _ => return Err(ServiceError::StaleCapability),
        }
        let generation: u64 = match self.transitions.generation_of(id) {
            Some(generation) => generation,
            None => return Err(ServiceError::StaleCapability),
        };
        let valid = self.is_open_for(generation) && self.runs(id);
        if !valid {
            return Err(ServiceError::StaleCapability);
        }
        self.transitions.claim(id, true)
    }

    /// Ends a freshness question with what its action answered.
    pub fn freshness_acknowledged(
        &mut self,
        id: OperationId,
        answer: PortAnswer<Result<(), RepositoryPortError>>,
    ) -> (result: Result<(), ServiceError>)
        ensures
            result == execution_answer(answer),
            final(self)@ == after_acknowledged(old(self)@, id, answer),
    {
        let result = answered(answer);
        self.transitions.resolve(id, result);
        self.transitions.complete(id);
        if let Err(ServiceError::CleanupRequired) = result {
            self.latch_cleanup_required();
        }
        result
    }
}

fn answered(answer: PortAnswer<Result<(), RepositoryPortError>>) -> (outcome: Result<
    (),
    ServiceError,
>)
    ensures
        outcome == execution_answer(answer),
{
    match answer {
        PortAnswer::Panicked => Err(ServiceError::CleanupRequired),
        PortAnswer::Returned(Err(error)) => Err(map_repository_error(error)),
        PortAnswer::Returned(Ok(())) => Ok(()),
    }
}

/// Holds the confirmation of a compromise against its verifier, or its two
/// entries against each other under a key.
pub fn compare_compromise(
    verifier: Option<SecretVerifier>,
    first: RecoverySecretInput,
    matching: Option<RecoverySecretInput>,
    key: Result<SecretKey, ServiceError>,
) -> (confirmed: Result<RecoverySecretInput, ServiceError>)
    ensures
        confirmed_bytes(confirmed) == compromise_confirmation(
            transitions::verifier_model(verifier),
            first@,
            optional_secret(matching),
            key_bytes(key),
        ),
{
    match (verifier, matching) {
        (Some(_), Some(_)) => Err(ServiceError::AuthenticationFailed),
        (Some(verifier), None) => match verifier.verify(first) {
            Ok(confirmed) => Ok(confirmed),
            Err(()) => Err(ServiceError::AuthenticationFailed),
        },
        (None, None) => Err(ServiceError::AuthenticationFailed),
        (None, Some(matching)) => match key {
            Err(error) => Err(error),
            Ok(key) => {
                let verifier = SecretVerifier::of(first, key);
                match verifier.verify(matching) {
                    Ok(confirmed) => Ok(confirmed),
                    Err(()) => Err(ServiceError::AuthenticationFailed),
                }
            },
        },
    }
}

} // verus!
