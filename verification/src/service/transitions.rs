//! The registry of security transitions that wait for a confirmation.
use vstd::prelude::*;

use crate::error::ServiceError;
use crate::memory;
use crate::memory::vec_room;
use crate::operation;
use crate::operation::{OperationId, OperationModel, OperationState};
use crate::ports::secrets;
use crate::ports::secrets::SecretVerifier;
use crate::secret::SecretBytes;

verus! {

/// What a transition changes.
#[derive(Clone, Copy, Debug, PartialEq, Eq, Structural)]
pub enum TransitionKind {
    Recovery,
    Compromise,
    Freshness,
}

/// One preparation of a transition, named by its token.
#[derive(Clone, Copy, Debug, PartialEq, Eq, Structural)]
pub struct Prepare {
    pub token: u64,
    pub cancelled: bool,
}

/// One transition. While it is registered it waits for its confirmation, or its
/// confirmation is being carried out.
pub struct TransitionRecord {
    kind: TransitionKind,
    generation: u64,
    operation: OperationId,
    consuming: bool,
    verifier: Option<SecretVerifier>,
    presentation: Option<SecretBytes>,
    offered: bool,
    view: Option<[u8; 32]>,
}

/// Contents of one transition.
pub struct RecordModel {
    pub kind: TransitionKind,
    pub generation: u64,
    pub operation: OperationId,
    pub consuming: bool,
    pub verifier: Option<(Seq<u8>, Seq<u8>)>,
    pub presentation: Option<Seq<u8>>,
    pub offered: bool,
    pub view: Option<[u8; 32]>,
}

/// Contents of a verifier that may be gone.
pub open spec fn verifier_model(verifier: Option<SecretVerifier>) -> Option<(Seq<u8>, Seq<u8>)> {
    match verifier {
        Some(verifier) => Some(verifier@),
        None => None,
    }
}

impl View for TransitionRecord {
    type V = RecordModel;

    closed spec fn view(&self) -> RecordModel {
        RecordModel {
            kind: self.kind,
            generation: self.generation,
            operation: self.operation,
            consuming: self.consuming,
            verifier: verifier_model(self.verifier),
            presentation: secrets::payload_bytes(self.presentation),
            offered: self.offered,
            view: self.view,
        }
    }
}

/// The transitions of a service.
pub struct TransitionRegistry {
    records: Vec<TransitionRecord>,
    executions: Vec<OperationState>,
    resolutions: Vec<(OperationId, Result<(), ServiceError>)>,
    capacity: usize,
    recovery_prepare: Option<Prepare>,
    compromise_prepare: Option<Prepare>,
    next_token: u64,
}

/// Contents of a [`TransitionRegistry`].
pub struct RegistryModel {
    pub records: Seq<RecordModel>,
    pub executions: Seq<OperationModel>,
    pub resolutions: Seq<(OperationId, Result<(), ServiceError>)>,
    pub capacity: usize,
    pub recovery_prepare: Option<Prepare>,
    pub compromise_prepare: Option<Prepare>,
    pub next_token: u64,
}

spec fn record_models(records: Seq<TransitionRecord>) -> Seq<RecordModel> {
    records.map_values(|record: TransitionRecord| record@)
}

spec fn execution_models(executions: Seq<OperationState>) -> Seq<OperationModel> {
    executions.map_values(|state: OperationState| state@)
}

impl View for TransitionRegistry {
    type V = RegistryModel;

    closed spec fn view(&self) -> RegistryModel {
        RegistryModel {
            records: record_models(self.records@),
            executions: execution_models(self.executions@),
            resolutions: self.resolutions@,
            capacity: self.capacity,
            recovery_prepare: self.recovery_prepare,
            compromise_prepare: self.compromise_prepare,
            next_token: self.next_token,
        }
    }
}

/// Whether the allocator may have refused room for the records of a registry.
pub closed spec fn registry_refused(capacity: int) -> bool {
    memory::vec_refused(Seq::<TransitionRecord>::empty(), capacity)
}

/// A registry without a transition.
pub open spec fn empty_registry(capacity: usize) -> RegistryModel {
    RegistryModel {
        records: Seq::empty(),
        executions: Seq::empty(),
        resolutions: Seq::empty(),
        capacity,
        recovery_prepare: None,
        compromise_prepare: None,
        next_token: 0,
    }
}

/// Whether the first transition of this operation stands at this place.
pub open spec fn record_at(records: Seq<RecordModel>, operation: OperationId, index: int) -> bool {
    &&& 0 <= index < records.len()
    &&& records[index].operation == operation
    &&& forall|i: int| 0 <= i < index ==> (#[trigger] records[i]).operation != operation
}

/// The place of a transition, where it is registered.
pub open spec fn place_of(records: Seq<RecordModel>, operation: OperationId) -> Option<int> {
    if exists|index: int| record_at(records, operation, index) {
        Some(choose|index: int| record_at(records, operation, index))
    } else {
        None
    }
}

/// A place found by its definition is the place.
pub proof fn lemma_place_of(records: Seq<RecordModel>, operation: OperationId, index: int)
    requires
        record_at(records, operation, index),
    ensures
        place_of(records, operation) == Some(index),
{
    let chosen = choose|index: int| record_at(records, operation, index);
    assert(record_at(records, operation, chosen));
    if chosen < index {
        assert(records[chosen].operation != operation);
    }
    if index < chosen {
        assert(records[index].operation != operation);
    }
}

/// Whether the first execution of this operation stands at this place.
pub open spec fn execution_at(
    executions: Seq<OperationModel>,
    operation: OperationId,
    index: int,
) -> bool {
    &&& 0 <= index < executions.len()
    &&& executions[index].id == operation
    &&& forall|i: int| 0 <= i < index ==> (#[trigger] executions[i]).id != operation
}

/// The place of an execution, where there is one.
pub open spec fn execution_of(executions: Seq<OperationModel>, operation: OperationId) -> Option<
    int,
> {
    if exists|index: int| execution_at(executions, operation, index) {
        Some(choose|index: int| execution_at(executions, operation, index))
    } else {
        None
    }
}

/// A place found by its definition is the place.
pub proof fn lemma_execution_of(
    executions: Seq<OperationModel>,
    operation: OperationId,
    index: int,
)
    requires
        execution_at(executions, operation, index),
    ensures
        execution_of(executions, operation) == Some(index),
{
    let chosen = choose|index: int| execution_at(executions, operation, index);
    assert(execution_at(executions, operation, chosen));
    if chosen < index {
        assert(executions[chosen].id != operation);
    }
    if index < chosen {
        assert(executions[index].id != operation);
    }
}

/// Invariant of a registry: it stays within its bound, no two transitions share
/// an operation, and every token of a preparation was given before.
pub open spec fn registry_wf(registry: RegistryModel) -> bool {
    &&& registry.records.len() <= registry.capacity
    &&& forall|i: int, j: int|
        0 <= i < j < registry.records.len() ==> (#[trigger] registry.records[i]).operation != (
        #[trigger] registry.records[j]).operation
    &&& registry.recovery_prepare is Some ==> registry.recovery_prepare->0.token
        < registry.next_token
    &&& registry.compromise_prepare is Some ==> registry.compromise_prepare->0.token
        < registry.next_token
    &&& registry.recovery_prepare is Some && registry.compromise_prepare is Some
        ==> registry.recovery_prepare->0.token != registry.compromise_prepare->0.token
}

/// Whether a transition of this kind is registered.
pub open spec fn has_kind(records: Seq<RecordModel>, kind: TransitionKind) -> bool {
    exists|i: int| 0 <= i < records.len() && (#[trigger] records[i]).kind == kind
}

/// The preparation of a kind, where there is one.
pub open spec fn prepare_of(registry: RegistryModel, kind: TransitionKind) -> Option<Prepare> {
    match kind {
        TransitionKind::Recovery => registry.recovery_prepare,
        TransitionKind::Compromise => registry.compromise_prepare,
        TransitionKind::Freshness => None,
    }
}

/// The registry with another preparation of a kind.
pub open spec fn with_prepare(
    registry: RegistryModel,
    kind: TransitionKind,
    prepare: Option<Prepare>,
) -> RegistryModel {
    match kind {
        TransitionKind::Recovery => RegistryModel { recovery_prepare: prepare, ..registry },
        TransitionKind::Compromise => RegistryModel { compromise_prepare: prepare, ..registry },
        TransitionKind::Freshness => registry,
    }
}

/// What the beginning of a preparation answers.
pub open spec fn prepare_answer(registry: RegistryModel, kind: TransitionKind, valid: bool) -> Result<
    u64,
    ServiceError,
> {
    if !valid || kind is Freshness {
        Err(ServiceError::Locked)
    } else if has_kind(registry.records, kind) || prepare_of(registry, kind) is Some {
        Err(ServiceError::Busy)
    } else if registry.next_token == u64::MAX {
        Err(ServiceError::IdentifierExhausted)
    } else {
        Ok(registry.next_token)
    }
}

/// The registry after the beginning of a preparation.
pub open spec fn after_begin_prepare(registry: RegistryModel, kind: TransitionKind, valid: bool) -> RegistryModel {
    match prepare_answer(registry, kind, valid) {
        Ok(token) => with_prepare(
            RegistryModel { next_token: (token + 1) as u64, ..registry },
            kind,
            Some(Prepare { token, cancelled: false }),
        ),
        Err(_) => registry,
    }
}

/// Whether a preparation may go on.
pub open spec fn is_prepared(registry: RegistryModel, kind: TransitionKind, token: u64) -> bool {
    prepare_of(registry, kind) == Some(Prepare { token, cancelled: false })
}

/// Whether a token names the preparation of a kind.
pub open spec fn is_prepare(registry: RegistryModel, kind: TransitionKind, token: u64) -> bool {
    prepare_of(registry, kind) is Some && prepare_of(registry, kind)->0.token == token
}

/// The registry after a preparation was given up.
pub open spec fn after_clear_prepare(registry: RegistryModel, kind: TransitionKind, token: u64) -> RegistryModel {
    if is_prepare(registry, kind, token) {
        with_prepare(registry, kind, None)
    } else {
        registry
    }
}

/// A preparation after it was cancelled.
pub open spec fn cancelled_prepare(prepare: Option<Prepare>) -> Option<Prepare> {
    match prepare {
        Some(prepare) => Some(Prepare { cancelled: true, ..prepare }),
        None => None,
    }
}

/// The registry after its preparations were cancelled.
pub open spec fn after_cancel_prepares(registry: RegistryModel) -> RegistryModel {
    RegistryModel {
        recovery_prepare: cancelled_prepare(registry.recovery_prepare),
        compromise_prepare: cancelled_prepare(registry.compromise_prepare),
        ..registry
    }
}

/// What the registration of a prepared transition answers.
pub open spec fn register_answer(
    registry: RegistryModel,
    kind: TransitionKind,
    token: u64,
    valid: bool,
) -> Result<(), ServiceError> {
    let cancelled = is_prepare(registry, kind, token) && prepare_of(registry, kind)->0.cancelled;
    if registry.records.len() >= registry.capacity {
        Err(ServiceError::Busy)
    } else if cancelled {
        Err(ServiceError::Cancelled)
    } else if !is_prepare(registry, kind, token) || !valid {
        Err(ServiceError::StaleCapability)
    } else {
        Ok(())
    }
}

/// The registry after the registration of a prepared transition: its
/// preparation is over either way.
pub open spec fn after_register(
    registry: RegistryModel,
    token: u64,
    valid: bool,
    record: RecordModel,
) -> RegistryModel {
    let cleared = after_clear_prepare(registry, record.kind, token);
    if register_answer(registry, record.kind, token, valid) is Ok {
        RegistryModel { records: cleared.records.push(record), ..cleared }
    } else {
        cleared
    }
}

/// What the registration of a freshness question answers.
pub open spec fn freshness_answer(registry: RegistryModel, operation: OperationId) -> Result<
    (),
    ServiceError,
> {
    if registry.records.len() >= registry.capacity || place_of(registry.records, operation) is Some {
        Err(ServiceError::Busy)
    } else {
        Ok(())
    }
}

/// The registry after the registration of a freshness question.
pub open spec fn after_freshness(
    registry: RegistryModel,
    operation: OperationId,
    generation: u64,
    view: [u8; 32],
) -> RegistryModel {
    if freshness_answer(registry, operation) is Ok {
        RegistryModel {
            records: registry.records.push(
                RecordModel {
                    kind: TransitionKind::Freshness,
                    generation,
                    operation,
                    consuming: false,
                    verifier: None,
                    presentation: None,
                    offered: false,
                    view: Some(view),
                },
            ),
            ..registry
        }
    } else {
        registry
    }
}

/// Whether a transition still waits for its confirmation.
pub open spec fn is_pending(registry: RegistryModel, operation: OperationId) -> bool {
    place_of(registry.records, operation) is Some && !registry.records[place_of(
        registry.records,
        operation,
    )->0].consuming
}

/// What the claim of a transition answers: it is claimed once, by its
/// confirmation or by its cancellation.
pub open spec fn claim_answer(registry: RegistryModel, operation: OperationId, valid: bool) -> Result<
    (),
    ServiceError,
> {
    if valid && is_pending(registry, operation) {
        Ok(())
    } else {
        Err(ServiceError::StaleCapability)
    }
}

/// The registry after the claim of a transition.
pub open spec fn after_claim(registry: RegistryModel, operation: OperationId, valid: bool) -> RegistryModel {
    if claim_answer(registry, operation, valid) is Ok {
        let index = place_of(registry.records, operation)->0;
        RegistryModel {
            records: registry.records.update(
                index,
                RecordModel { consuming: true, ..registry.records[index] },
            ),
            ..registry
        }
    } else {
        registry
    }
}

/// The registry after a transition was claimed together with its execution.
pub open spec fn after_claim_execution(
    registry: RegistryModel,
    valid: bool,
    execution: OperationModel,
) -> RegistryModel {
    let claimed = after_claim(registry, execution.id, valid);
    if claim_answer(registry, execution.id, valid) is Ok {
        RegistryModel { executions: claimed.executions.push(execution), ..claimed }
    } else {
        registry
    }
}

/// The registry after a transition was completed: nothing secret of it stays.
pub open spec fn after_complete(registry: RegistryModel, operation: OperationId) -> RegistryModel {
    match place_of(registry.records, operation) {
        None => registry,
        Some(index) => if registry.records[index].consuming {
            RegistryModel { records: registry.records.remove(index), ..registry }
        } else {
            RegistryModel {
                records: registry.records.update(
                    index,
                    RecordModel {
                        verifier: None,
                        presentation: None,
                        ..registry.records[index]
                    },
                ),
                ..registry
            }
        },
    }
}

/// The registry after a transition was cancelled: one that is claimed already
/// stays.
pub open spec fn after_cancel(registry: RegistryModel, operation: OperationId) -> RegistryModel {
    if is_pending(registry, operation) {
        RegistryModel {
            records: registry.records.remove(place_of(registry.records, operation)->0),
            ..registry
        }
    } else {
        registry
    }
}

/// The transitions that are being carried out.
pub open spec fn consuming_only(records: Seq<RecordModel>) -> Seq<RecordModel> {
    records.filter(|record: RecordModel| record.consuming)
}

/// The transitions that wait among the first `count`.
pub open spec fn pending_transitions(records: Seq<RecordModel>, count: nat) -> Seq<
    (OperationId, TransitionKind),
>
    decreases count,
{
    if count == 0 {
        Seq::empty()
    } else if records[count - 1].consuming {
        pending_transitions(records, (count - 1) as nat)
    } else {
        pending_transitions(records, (count - 1) as nat).push(
            (records[count - 1].operation, records[count - 1].kind),
        )
    }
}

/// The registry with another record at a place.
pub open spec fn with_record(registry: RegistryModel, index: int, record: RecordModel) -> RegistryModel {
    RegistryModel { records: registry.records.update(index, record), ..registry }
}

/// Whether an execution belongs to a transition that a lock stops: one that is
/// being carried out and is no freshness question.
pub open spec fn is_stopped(records: Seq<RecordModel>, operation: OperationId) -> bool {
    exists|i: int|
        0 <= i < records.len() && (#[trigger] records[i]).operation == operation
            && records[i].consuming && !(records[i].kind is Freshness)
}

/// One execution after a lock.
pub open spec fn stopped_execution(
    records: Seq<RecordModel>,
    close_service: bool,
    state: OperationModel,
) -> OperationModel {
    if !is_stopped(records, state.id) {
        state
    } else {
        let stopped = if close_service {
            operation::after_finish_transition(
                operation::after_cancel(state),
                Err(ServiceError::Closed),
            )
        } else {
            operation::after_cancel(state)
        };
        OperationModel { lease_cancellation_queued: true, ..stopped }
    }
}

/// The registry after a lock stopped its executions.
pub open spec fn after_stop(registry: RegistryModel, close_service: bool) -> RegistryModel {
    RegistryModel {
        executions: registry.executions.map_values(
            |state: OperationModel| stopped_execution(registry.records, close_service, state),
        ),
        ..registry
    }
}

/// The first `count` executions whose leases are cancelled now.
pub open spec fn newly_stopped(registry: RegistryModel, count: nat) -> Seq<OperationId>
    decreases count,
{
    if count == 0 {
        Seq::empty()
    } else {
        let before = newly_stopped(registry, (count - 1) as nat);
        let state = registry.executions[count - 1];
        if is_stopped(registry.records, state.id) && !state.lease_cancellation_queued {
            before.push(state.id)
        } else {
            before
        }
    }
}

/// Whether the first resolution of this operation stands at this place.
pub open spec fn resolution_at(
    resolutions: Seq<(OperationId, Result<(), ServiceError>)>,
    operation: OperationId,
    index: int,
) -> bool {
    &&& 0 <= index < resolutions.len()
    &&& resolutions[index].0 == operation
    &&& forall|i: int| 0 <= i < index ==> (#[trigger] resolutions[i]).0 != operation
}

/// The place of the resolution of an operation, where there is one.
pub open spec fn resolution_of(
    resolutions: Seq<(OperationId, Result<(), ServiceError>)>,
    operation: OperationId,
) -> Option<int> {
    if exists|index: int| resolution_at(resolutions, operation, index) {
        Some(choose|index: int| resolution_at(resolutions, operation, index))
    } else {
        None
    }
}

/// A place found by its definition is the place.
pub proof fn lemma_resolution_of(
    resolutions: Seq<(OperationId, Result<(), ServiceError>)>,
    operation: OperationId,
    index: int,
)
    requires
        resolution_at(resolutions, operation, index),
    ensures
        resolution_of(resolutions, operation) == Some(index),
{
    let chosen = choose|index: int| resolution_at(resolutions, operation, index);
    assert(resolution_at(resolutions, operation, chosen));
    if chosen < index {
        assert(resolutions[chosen].0 != operation);
    }
    if index < chosen {
        assert(resolutions[index].0 != operation);
    }
}

/// The registry after a question was resolved. The last resolution counts.
pub open spec fn after_resolve(
    registry: RegistryModel,
    operation: OperationId,
    result: Result<(), ServiceError>,
) -> RegistryModel {
    RegistryModel {
        resolutions: match resolution_of(registry.resolutions, operation) {
            Some(index) => registry.resolutions.update(index, (operation, result)),
            None => registry.resolutions.push((operation, result)),
        },
        ..registry
    }
}

/// The registry after a resolution was taken.
pub open spec fn after_take_resolution(registry: RegistryModel, operation: OperationId) -> RegistryModel {
    match resolution_of(registry.resolutions, operation) {
        Some(index) => RegistryModel {
            resolutions: registry.resolutions.remove(index),
            ..registry
        },
        None => registry,
    }
}

/// What the offer of a freshness question answers.
pub open spec fn offer_answer(registry: RegistryModel, operation: OperationId) -> Option<
    [u8; 32],
> {
    match place_of(registry.records, operation) {
        Some(index) if !registry.records[index].offered
            && !registry.records[index].consuming => registry.records[index].view,
        _ => None,
    }
}

/// The registry after the offer of a freshness question: it is offered once.
pub open spec fn after_offer(registry: RegistryModel, operation: OperationId) -> RegistryModel {
    match place_of(registry.records, operation) {
        Some(index) => with_record(
            registry,
            index,
            RecordModel { offered: true, ..registry.records[index] },
        ),
        None => registry,
    }
}

/// The registry after the verifier of a transition was taken.
pub open spec fn after_take_verifier(registry: RegistryModel, operation: OperationId) -> RegistryModel {
    match place_of(registry.records, operation) {
        Some(index) => with_record(
            registry,
            index,
            RecordModel { verifier: None, presentation: None, ..registry.records[index] },
        ),
        None => registry,
    }
}

/// The verifier of a transition, where it has one.
pub open spec fn verifier_of(registry: RegistryModel, operation: OperationId) -> Option<
    (Seq<u8>, Seq<u8>),
> {
    match place_of(registry.records, operation) {
        Some(index) => registry.records[index].verifier,
        None => None,
    }
}

/// The secret that a transition still has to present, where it has one.
pub open spec fn presentation_of(registry: RegistryModel, operation: OperationId) -> Option<
    Seq<u8>,
> {
    match place_of(registry.records, operation) {
        Some(index) => registry.records[index].presentation,
        None => None,
    }
}

/// The registry after the secret of a transition was taken to be presented.
pub open spec fn after_take_presentation(registry: RegistryModel, operation: OperationId) -> RegistryModel {
    match place_of(registry.records, operation) {
        Some(index) => with_record(
            registry,
            index,
            RecordModel { presentation: None, ..registry.records[index] },
        ),
        None => registry,
    }
}

/// The generation of a registered transition.
pub open spec fn generation_of(registry: RegistryModel, operation: OperationId) -> Option<u64> {
    match place_of(registry.records, operation) {
        Some(index) => Some(registry.records[index].generation),
        None => None,
    }
}

impl TransitionRegistry {
    /// A registry without a transition.
    pub fn new(capacity: usize) -> (registry: Result<Self, ServiceError>)
        ensures
            match registry {
                Ok(registry) => registry@ == empty_registry(capacity) && registry_wf(registry@),
                Err(error) => error == ServiceError::InvalidConfiguration && registry_refused(
                    capacity as int,
                ),
            },
    {
        TransitionRegistry::over(capacity, vec_room(capacity))
    }

    /// A registry without a transition over its records, or none where their room
    /// was refused.
    pub fn over(capacity: usize, room: Option<Vec<TransitionRecord>>) -> (registry: Result<
        Self,
        ServiceError,
    >)
        requires
            room is Some ==> room->0@ == Seq::<TransitionRecord>::empty(),
        ensures
            room is None ==> registry == Err::<Self, ServiceError>(
                ServiceError::InvalidConfiguration,
            ),
            room is Some ==> registry is Ok && registry->Ok_0@ == empty_registry(capacity)
                && registry_wf(registry->Ok_0@),
    {
        let records = match room {
            Some(records) => records,
            None => return Err(ServiceError::InvalidConfiguration),
        };
        let registry = TransitionRegistry {
            records,
            executions: Vec::new(),
            resolutions: Vec::new(),
            capacity,
            recovery_prepare: None,
            compromise_prepare: None,
            next_token: 0,
        };
        assert(registry@.records =~= Seq::empty());
        assert(registry@.executions =~= Seq::empty());
        Ok(registry)
    }

    fn place(&self, operation: OperationId) -> (place: Option<usize>)
        ensures
            match place {
                Some(index) => place_of(self@.records, operation) == Some(index as int)
                    && record_at(self@.records, operation, index as int) && index
                    < self.records@.len() && self@.records[index as int]
                    == self.records@[index as int]@,
                None => place_of(self@.records, operation) is None,
            },
    {
        let mut index: usize = 0;
        while index < self.records.len()
            invariant
                index <= self.records@.len(),
                self@.records.len() == self.records@.len(),
                forall|i: int|
                    0 <= i < index ==> (#[trigger] self@.records[i]).operation != operation,
            decreases self.records@.len() - index,
        {
            assert(self@.records[index as int] == self.records@[index as int]@);
            if self.records[index].operation == operation {
                assert(record_at(self@.records, operation, index as int));
                proof {
                    lemma_place_of(self@.records, operation, index as int);
                }
                return Some(index);
            }
            index += 1;
        }
        None
    }

    /// Whether a transition of this kind is registered.
    pub fn has_kind(&self, kind: TransitionKind) -> (found: bool)
        ensures
            found == has_kind(self@.records, kind),
    {
        let mut index: usize = 0;
        while index < self.records.len()
            invariant
                index <= self.records@.len(),
                self@.records.len() == self.records@.len(),
                forall|i: int| 0 <= i < index ==> (#[trigger] self@.records[i]).kind != kind,
            decreases self.records@.len() - index,
        {
            assert(self@.records[index as int] == self.records@[index as int]@);
            if self.records[index].kind == kind {
                return true;
            }
            index += 1;
        }
        false
    }

    /// Whether a transition is registered.
    pub fn contains(&self, operation: OperationId) -> (found: bool)
        ensures
            found == (place_of(self@.records, operation) is Some),
    {
        self.place(operation).is_some()
    }

    /// The generation of a registered transition.
    pub fn generation_of(&self, operation: OperationId) -> (generation: Option<u64>)
        ensures
            generation == generation_of(self@, operation),
    {
        match self.place(operation) {
            Some(index) => Some(self.records[index].generation),
            None => None,
        }
    }

    /// The kind of a registered transition.
    pub fn kind_of(&self, operation: OperationId) -> (kind: Option<TransitionKind>)
        ensures
            kind == match place_of(self@.records, operation) {
                Some(index) => Some(self@.records[index].kind),
                None => None,
            },
    {
        match self.place(operation) {
            Some(index) => Some(self.records[index].kind),
            None => None,
        }
    }

    fn prepare(&self, kind: TransitionKind) -> (prepare: Option<Prepare>)
        ensures
            prepare == prepare_of(self@, kind),
    {
        match kind {
            TransitionKind::Recovery => self.recovery_prepare,
            TransitionKind::Compromise => self.compromise_prepare,
            TransitionKind::Freshness => None,
        }
    }

    fn set_prepare(&mut self, kind: TransitionKind, prepare: Option<Prepare>)
        ensures
            final(self)@ == with_prepare(old(self)@, kind, prepare),
    {
        match kind {
            TransitionKind::Recovery => {
                self.recovery_prepare = prepare;
            },
            TransitionKind::Compromise => {
                self.compromise_prepare = prepare;
            },
            TransitionKind::Freshness => {},
        }
    }

    /// Whether a preparation of this kind is under way.
    pub fn is_preparing(&self, kind: TransitionKind) -> (preparing: bool)
        ensures
            preparing == (prepare_of(self@, kind) is Some),
    {
        self.prepare(kind).is_some()
    }

    /// Begins a preparation where its binding is valid.
    pub fn begin_prepare(&mut self, kind: TransitionKind, valid: bool) -> (token: Result<
        u64,
        ServiceError,
    >)
        ensures
            token == prepare_answer(old(self)@, kind, valid),
            final(self)@ == after_begin_prepare(old(self)@, kind, valid),
    {
        if !valid || kind == TransitionKind::Freshness {
            return Err(ServiceError::Locked);
        }
        if self.has_kind(kind) || self.prepare(kind).is_some() {
            return Err(ServiceError::Busy);
        }
        if self.next_token == u64::MAX {
            return Err(ServiceError::IdentifierExhausted);
        }
        let token: u64 = self.next_token;
        self.next_token = token + 1;
        self.set_prepare(kind, Some(Prepare { token, cancelled: false }));
        Ok(token)
    }

    /// Whether a preparation may go on.
    pub fn prepare_is_active(&self, kind: TransitionKind, token: u64) -> (active: bool)
        ensures
            active == is_prepared(self@, kind, token),
    {
        match self.prepare(kind) {
            Some(prepare) => prepare.token == token && !prepare.cancelled,
            None => false,
        }
    }

    fn is_prepare(&self, kind: TransitionKind, token: u64) -> (exact: bool)
        ensures
            exact == is_prepare(self@, kind, token),
    {
        match self.prepare(kind) {
            Some(prepare) => prepare.token == token,
            None => false,
        }
    }

    /// Gives a preparation up.
    pub fn clear_prepare(&mut self, kind: TransitionKind, token: u64)
        ensures
            final(self)@ == after_clear_prepare(old(self)@, kind, token),
    {
        if self.is_prepare(kind, token) {
            self.set_prepare(kind, None);
        }
    }

    /// Cancels the preparations under way.
    pub fn cancel_prepare_attempts(&mut self)
        ensures
            final(self)@ == after_cancel_prepares(old(self)@),
    {
        if let Some(prepare) = self.recovery_prepare {
            self.recovery_prepare = Some(Prepare { token: prepare.token, cancelled: true });
        }
        if let Some(prepare) = self.compromise_prepare {
            self.compromise_prepare = Some(Prepare { token: prepare.token, cancelled: true });
        }
    }

    /// Registers a prepared transition where its binding is valid.
    pub fn register(
        &mut self,
        kind: TransitionKind,
        generation: u64,
        operation: OperationId,
        token: u64,
        valid: bool,
        verifier: Option<SecretVerifier>,
        presentation: Option<SecretBytes>,
    ) -> (registered: Result<(), ServiceError>)
        ensures
            registered == register_answer(old(self)@, kind, token, valid),
            final(self)@ == after_register(
                old(self)@,
                token,
                valid,
                RecordModel {
                    kind,
                    generation,
                    operation,
                    consuming: false,
                    verifier: verifier_model(verifier),
                    presentation: secrets::payload_bytes(presentation),
                    offered: true,
                    view: None,
                },
            ),
    {
        let exact = self.is_prepare(kind, token);
        let active = self.prepare_is_active(kind, token);
        assert(self@.records.len() == self.records@.len());
        let full = self.records.len() >= self.capacity;
        self.clear_prepare(kind, token);
        if full {
            return Err(ServiceError::Busy);
        }
        if exact && !active {
            return Err(ServiceError::Cancelled);
        }
        if !exact || !valid {
            return Err(ServiceError::StaleCapability);
        }
        let ghost before = self.records@;
        let record = TransitionRecord {
            kind,
            generation,
            operation,
            consuming: false,
            verifier,
            presentation,
            offered: true,
            view: None,
        };
        self.records.push(record);
        assert(record_models(self.records@) =~= record_models(before).push(record@));
        Ok(())
    }

    /// Registers the freshness question of an operation.
    pub fn register_freshness(
        &mut self,
        operation: OperationId,
        generation: u64,
        view: [u8; 32],
    ) -> (registered: Result<(), ServiceError>)
        ensures
            registered == freshness_answer(old(self)@, operation),
            final(self)@ == after_freshness(old(self)@, operation, generation, view),
    {
        assert(self@.records.len() == self.records@.len());
        if self.records.len() >= self.capacity || self.contains(operation) {
            return Err(ServiceError::Busy);
        }
        let ghost before = self.records@;
        let record = TransitionRecord {
            kind: TransitionKind::Freshness,
            generation,
            operation,
            consuming: false,
            verifier: None,
            presentation: None,
            offered: false,
            view: Some(view),
        };
        self.records.push(record);
        assert(record_models(self.records@) =~= record_models(before).push(record@));
        Ok(())
    }

    /// Claims a transition where its binding is valid.
    pub fn claim(&mut self, operation: OperationId, valid: bool) -> (claimed: Result<
        (),
        ServiceError,
    >)
        ensures
            claimed == claim_answer(old(self)@, operation, valid),
            final(self)@ == after_claim(old(self)@, operation, valid),
    {
        if !valid {
            return Err(ServiceError::StaleCapability);
        }
        match self.place(operation) {
            None => Err(ServiceError::StaleCapability),
            Some(index) => {
                if self.records[index].consuming {
                    return Err(ServiceError::StaleCapability);
                }
                let ghost before = self.records@;
                self.records[index].consuming = true;
                assert(record_models(self.records@) =~= record_models(before).update(
                    index as int,
                    self.records@[index as int]@,
                ));
                Ok(())
            },
        }
    }

    /// Claims a transition together with its execution.
    pub fn claim_execution(&mut self, valid: bool, execution: OperationState) -> (claimed: Result<
        (),
        ServiceError,
    >)
        ensures
            claimed == claim_answer(old(self)@, execution@.id, valid),
            final(self)@ == after_claim_execution(old(self)@, valid, execution@),
    {
        match self.claim(execution.id(), valid) {
            Ok(()) => {
                let ghost before = self.executions@;
                self.executions.push(execution);
                assert(execution_models(self.executions@) =~= execution_models(before).push(
                    execution@,
                ));
                Ok(())
            },
            Err(error) => Err(error),
        }
    }

    /// Completes a transition.
    pub fn complete(&mut self, operation: OperationId)
        ensures
            final(self)@ == after_complete(old(self)@, operation),
    {
        if let Some(index) = self.place(operation) {
            let ghost before = self.records@;
            if self.records[index].consuming {
                self.records.remove(index);
                assert(record_models(self.records@) =~= record_models(before).remove(index as int));
            } else {
                self.records[index].verifier = None;
                self.records[index].presentation = None;
                assert(record_models(self.records@) =~= record_models(before).update(
                    index as int,
                    self.records@[index as int]@,
                ));
            }
        }
    }

    /// Cancels a transition that waits. The answer is its kind: its action is to
    /// be aborted.
    pub fn cancel(&mut self, operation: OperationId) -> (kind: Option<TransitionKind>)
        ensures
            kind == if is_pending(old(self)@, operation) {
                Some(old(self)@.records[place_of(old(self)@.records, operation)->0].kind)
            } else {
                None
            },
            final(self)@ == after_cancel(old(self)@, operation),
    {
        match self.place(operation) {
            None => None,
            Some(index) => {
                if self.records[index].consuming {
                    return None;
                }
                let ghost before = self.records@;
                let record = self.records.remove(index);
                assert(record_models(self.records@) =~= record_models(before).remove(index as int));
                Some(record.kind)
            },
        }
    }

    /// Cancels every transition that waits. The answer is which: their actions
    /// are to be aborted.
    pub fn cancel_all(&mut self) -> (cancelled: Vec<(OperationId, TransitionKind)>)
        ensures
            cancelled@ == pending_transitions(old(self)@.records, old(self)@.records.len()),
            final(self)@ == (RegistryModel {
                records: consuming_only(old(self)@.records),
                ..old(self)@
            }),
    {
        let ghost all = record_models(self.records@);
        let ghost carried = |record: RecordModel| record.consuming;
        let mut cancelled: Vec<(OperationId, TransitionKind)> = Vec::new();
        let mut index: usize = 0;
        let mut seen: usize = 0;
        let total: usize = self.records.len();
        assert(all.take(0).filter(carried) =~= Seq::<RecordModel>::empty()) by {
            reveal(Seq::filter);
        }
        assert(self@.records =~= all.take(0).filter(carried) + all.skip(0));
        while seen < total
            invariant
                seen <= total == all.len(),
                index <= seen,
                self.records@.len() == index + (total - seen),
                self@.records == all.take(seen as int).filter(carried) + all.skip(seen as int),
                all.take(seen as int).filter(carried).len() == index,
                carried == (|record: RecordModel| record.consuming),
                cancelled@ == pending_transitions(all, seen as nat),
                self@ == (RegistryModel { records: self@.records, ..old(self)@ }),
            decreases total - seen,
        {
            let ghost kept = all.take(seen as int).filter(carried);
            proof {
                reveal(Seq::filter);
                assert(all.take(seen + 1).drop_last() =~= all.take(seen as int));
                assert(self@.records[index as int] == all[seen as int]);
                assert(self.records@[index as int]@ == all[seen as int]);
            }
            let ghost before = self.records@;
            if self.records[index].consuming {
                assert(kept + all.skip(seen as int) =~= kept.push(all[seen as int]) + all.skip(
                    seen + 1,
                ));
                index += 1;
            } else {
                let record = self.records.remove(index);
                assert(record_models(self.records@) =~= record_models(before).remove(index as int));
                assert((kept + all.skip(seen as int)).remove(index as int) =~= kept + all.skip(
                    seen + 1,
                ));
                cancelled.push((record.operation, record.kind));
            }
            seen += 1;
        }
        assert(all.take(seen as int) =~= all);
        assert(all.skip(seen as int) =~= Seq::empty());
        assert(self@.records =~= all.filter(carried));
        cancelled
    }

    /// Takes the verifier of a transition. What it still had to present is gone.
    pub fn take_verifier(&mut self, operation: OperationId) -> (verifier: Option<SecretVerifier>)
        ensures
            verifier_model(verifier) == verifier_of(old(self)@, operation),
            final(self)@ == after_take_verifier(old(self)@, operation),
    {
        match self.place(operation) {
            None => None,
            Some(index) => {
                let ghost before = self.records@;
                self.records[index].presentation = None;
                let verifier = self.records[index].verifier.take();
                assert(record_models(self.records@) =~= record_models(before).update(
                    index as int,
                    self.records@[index as int]@,
                ));
                verifier
            },
        }
    }

    /// Takes the secret that a transition has to present.
    pub fn take_presentation(&mut self, operation: OperationId) -> (payload: Option<SecretBytes>)
        ensures
            secrets::payload_bytes(payload) == presentation_of(old(self)@, operation),
            final(self)@ == after_take_presentation(old(self)@, operation),
    {
        match self.place(operation) {
            None => None,
            Some(index) => {
                let ghost before = self.records@;
                let payload = self.records[index].presentation.take();
                assert(record_models(self.records@) =~= record_models(before).update(
                    index as int,
                    self.records@[index as int]@,
                ));
                payload
            },
        }
    }

    /// Offers a freshness question, once.
    pub fn offer(&mut self, operation: OperationId) -> (view: Option<[u8; 32]>)
        ensures
            view == offer_answer(old(self)@, operation),
            final(self)@ == after_offer(old(self)@, operation),
    {
        match self.place(operation) {
            None => None,
            Some(index) => {
                let ghost before = self.records@;
                let open = !self.records[index].offered && !self.records[index].consuming;
                self.records[index].offered = true;
                assert(record_models(self.records@) =~= record_models(before).update(
                    index as int,
                    self.records@[index as int]@,
                ));
                if open {
                    self.records[index].view
                } else {
                    None
                }
            },
        }
    }

    fn resolution_place(&self, operation: OperationId) -> (place: Option<usize>)
        ensures
            match place {
                Some(index) => resolution_of(self@.resolutions, operation) == Some(index as int)
                    && resolution_at(self@.resolutions, operation, index as int),
                None => resolution_of(self@.resolutions, operation) is None,
            },
    {
        let mut index: usize = 0;
        while index < self.resolutions.len()
            invariant
                index <= self.resolutions@.len(),
                forall|i: int|
                    0 <= i < index ==> (#[trigger] self.resolutions@[i]).0 != operation,
            decreases self.resolutions@.len() - index,
        {
            if self.resolutions[index].0 == operation {
                assert(resolution_at(self@.resolutions, operation, index as int));
                proof {
                    lemma_resolution_of(self@.resolutions, operation, index as int);
                }
                return Some(index);
            }
            index += 1;
        }
        None
    }

    /// Resolves the freshness question of an operation.
    pub fn resolve(&mut self, operation: OperationId, result: Result<(), ServiceError>)
        ensures
            final(self)@ == after_resolve(old(self)@, operation, result),
    {
        match self.resolution_place(operation) {
            Some(index) => {
                self.resolutions[index] = (operation, result);
            },
            None => {
                self.resolutions.push((operation, result));
            },
        }
    }

    /// Takes the resolution of the freshness question of an operation.
    pub fn take_resolution(&mut self, operation: OperationId) -> (result: Option<
        Result<(), ServiceError>,
    >)
        ensures
            result == match resolution_of(old(self)@.resolutions, operation) {
                Some(index) => Some(old(self)@.resolutions[index].1),
                None => None,
            },
            final(self)@ == after_take_resolution(old(self)@, operation),
    {
        match self.resolution_place(operation) {
            Some(index) => {
                let (_, result) = self.resolutions.remove(index);
                Some(result)
            },
            None => None,
        }
    }

    fn stops(&self, operation: OperationId) -> (stopped: bool)
        ensures
            stopped == is_stopped(self@.records, operation),
    {
        let mut index: usize = 0;
        while index < self.records.len()
            invariant
                index <= self.records@.len(),
                self@.records.len() == self.records@.len(),
                forall|i: int|
                    0 <= i < index ==> !((#[trigger] self@.records[i]).operation == operation
                        && self@.records[i].consuming && !(self@.records[i].kind is Freshness)),
            decreases self.records@.len() - index,
        {
            assert(self@.records[index as int] == self.records@[index as int]@);
            if self.records[index].operation == operation && self.records[index].consuming
                && self.records[index].kind != TransitionKind::Freshness {
                return true;
            }
            index += 1;
        }
        false
    }

    /// Stops the executions of the transitions that are being carried out. The
    /// answer is whose leases are to be cancelled now.
    pub fn stop_executions(&mut self, close_service: bool) -> (stopped: Vec<OperationId>)
        ensures
            stopped@ == newly_stopped(old(self)@, old(self)@.executions.len()),
            final(self)@ == after_stop(old(self)@, close_service),
    {
        let mut stopped: Vec<OperationId> = Vec::new();
        let ghost before = self.executions@;
        let ghost entered = *self;
        let mut index: usize = 0;
        while index < self.executions.len()
            invariant
                index <= self.executions@.len(),
                self.executions@.len() == before.len(),
                before == entered.executions@,
                self@ == (RegistryModel { executions: self@.executions, ..entered@ }),
                stopped@ == newly_stopped(entered@, index as nat),
                forall|i: int|
                    0 <= i < index ==> (#[trigger] self.executions@[i])@ == stopped_execution(
                        entered@.records,
                        close_service,
                        before[i]@,
                    ),
                forall|i: int|
                    index <= i < before.len() ==> (#[trigger] self.executions@[i])@ == before[i]@,
            decreases self.executions@.len() - index,
        {
            let id = self.executions[index].id();
            assert(entered@.executions[index as int] == before[index as int]@);
            if self.stops(id) {
                self.executions[index].mark_cancelled();
                if close_service {
                    self.executions[index].finish_transition(Err(ServiceError::Closed));
                }
                if self.executions[index].mark_lease_cancellation_queued() {
                    stopped.push(id);
                }
            }
            index += 1;
        }
        assert(self@.executions =~= after_stop(entered@, close_service).executions);
        stopped
    }

    fn execution_place(&self, operation: OperationId) -> (place: Option<usize>)
        ensures
            match place {
                Some(index) => execution_of(self@.executions, operation) == Some(index as int)
                    && index < self.executions@.len() && self@.executions[index as int]
                    == self.executions@[index as int]@,
                None => execution_of(self@.executions, operation) is None,
            },
    {
        let mut index: usize = 0;
        while index < self.executions.len()
            invariant
                index <= self.executions@.len(),
                self@.executions.len() == self.executions@.len(),
                forall|i: int| 0 <= i < index ==> (#[trigger] self@.executions[i]).id != operation,
            decreases self.executions@.len() - index,
        {
            assert(self@.executions[index as int] == self.executions@[index as int]@);
            if self.executions[index].id() == operation {
                assert(execution_at(self@.executions, operation, index as int));
                proof {
                    lemma_execution_of(self@.executions, operation, index as int);
                }
                return Some(index);
            }
            index += 1;
        }
        None
    }

    /// The execution of a transition, to be changed.
    pub fn execution_mut(&mut self, operation: OperationId) -> (state: Option<&mut OperationState>)
        ensures
            match execution_of(old(self)@.executions, operation) {
                Some(index) => state is Some && state->0@ == old(self)@.executions[index]
                    && final(self)@ == (RegistryModel {
                    executions: old(self)@.executions.update(index, final(state->0)@),
                    ..old(self)@
                }),
                None => state is None && final(self)@ == old(self)@,
            },
    {
        match self.execution_place(operation) {
            Some(index) => {
                let ghost before = self.executions@;
                assert forall|state: OperationState|
                    execution_models(#[trigger] before.update(index as int, state))
                        == execution_models(before).update(index as int, state@) by {
                    assert(execution_models(before.update(index as int, state))
                        =~= execution_models(before).update(index as int, state@));
                }
                Some(&mut self.executions[index])
            },
            None => None,
        }
    }

    /// Takes the execution of a transition that is over.
    pub fn take_execution(&mut self, operation: OperationId) -> (state: Option<OperationState>)
        ensures
            match execution_of(old(self)@.executions, operation) {
                Some(index) => state is Some && state->0@ == old(self)@.executions[index]
                    && final(self)@ == (RegistryModel {
                    executions: old(self)@.executions.remove(index),
                    ..old(self)@
                }),
                None => state is None && final(self)@ == old(self)@,
            },
    {
        match self.execution_place(operation) {
            Some(index) => {
                let ghost before = self.executions@;
                let state = self.executions.remove(index);
                assert(execution_models(self.executions@) =~= execution_models(before).remove(
                    index as int,
                ));
                Some(state)
            },
            None => None,
        }
    }
}

} // verus!
