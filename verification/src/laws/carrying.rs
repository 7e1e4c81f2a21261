//! Laws of transitions from their beginning to their end: recoveries, compromises and
//! questions of freshness.
use vstd::prelude::*;

use crate::error::ServiceError;
use crate::laws::terms;
use crate::operation::{Lifecycle, OperationId, OperationModel, MAX_OPERATION_LEASES};
use crate::service::flows;
use crate::service::flows::{FreshnessStep, FreshnessWait, PrepareStep};
use crate::service::identity::IdentityModel;
use crate::service::runtime::CoreModel;
use crate::service::transitions;
use crate::service::transitions::{Prepare, RecordModel, RegistryModel, TransitionKind};
use crate::session::errors;
use crate::session::errors::{PortAnswer, RepositoryPortError};

verus! {

/// A service that is not closed, accepts operations, has its key leases open, and
/// whose generation is the one that its session has unlocked.
pub open spec fn is_open_in(core_state: CoreModel, generation: u64) -> bool {
    &&& !core_state.scheduler.closed
    &&& is_unlocked_in(core_state, generation)
}

/// A service that accepts operations, has its key leases open, and whose generation
/// is the one that its session has unlocked.
pub open spec fn is_unlocked_in(core_state: CoreModel, generation: u64) -> bool {
    &&& core_state.scheduler.accepting
    &&& core_state.scheduler.key_leases_open
    &&& core_state.scheduler.generation == generation
    &&& core_state.session is Some
    &&& core_state.session->0.data.state is Unlocked
    &&& core_state.session->0.data.epoch == generation
}

/// A service whose session is locked in a generation, and that neither unlocks it nor
/// locks it still.
pub open spec fn is_at_rest_in(core_state: CoreModel, generation: u64) -> bool {
    &&& !core_state.scheduler.closed
    &&& !core_state.scheduler.unlock_in_progress
    &&& core_state.scheduler.lock_job is None
    &&& is_locked_in(core_state, generation)
}

/// A service whose session is locked in a generation.
pub open spec fn is_locked_in(core_state: CoreModel, generation: u64) -> bool {
    &&& core_state.session is Some
    &&& core_state.session->0.data.state is Locked
    &&& core_state.session->0.data.epoch == generation
}

/// A transition of a kind may be begun, registered and claimed.
pub open spec fn may_be_carried(core_state: CoreModel, kind: TransitionKind, generation: u64) -> bool {
    ||| kind is Compromise && is_open_in(core_state, generation)
    ||| kind is Recovery && is_at_rest_in(core_state, generation)
}

/// The preparation of a kind that goes on.
pub open spec fn preparation(registry: RegistryModel, kind: TransitionKind) -> Option<Prepare> {
    if kind is Compromise {
        registry.compromise_prepare
    } else {
        registry.recovery_prepare
    }
}

/// No transition of a kind is recorded.
pub open spec fn has_none(registry: RegistryModel, kind: TransitionKind) -> bool {
    forall|i: int| 0 <= i < registry.records.len() ==> (#[trigger] registry.records[i]).kind != kind
}

/// A registry in which only the preparation of a kind is another.
pub open spec fn with_preparation(
    registry: RegistryModel,
    kind: TransitionKind,
    prepare: Option<Prepare>,
) -> RegistryModel {
    if kind is Compromise {
        RegistryModel { compromise_prepare: prepare, ..registry }
    } else {
        RegistryModel { recovery_prepare: prepare, ..registry }
    }
}

/// A compromise begins exactly in a service that is open in the generation of its
/// session, and a recovery exactly in one that rests in it, where none of the kind is
/// registered or prepared and tokens are left. It is bound to that generation, and its
/// token is the next one.
pub proof fn law_a_transition_begins_in_its_generation(core_state: CoreModel, kind: TransitionKind)
    requires
        core_state.session is Some,
        kind is Recovery || kind is Compromise,
    ensures
        ({
            let generation = core_state.session->0.data.epoch;
            let registry = core_state.transitions;
            let answer = flows::begin_answer(core_state, kind);
            let begun = flows::after_begin(core_state, kind);
            &&& answer is Ok <==> may_be_carried(core_state, kind, generation) && has_none(
                registry,
                kind,
            ) && preparation(registry, kind) is None && registry.next_token < u64::MAX
            &&& answer is Ok ==> answer->Ok_0 == (generation, registry.next_token) && begun == (
            CoreModel {
                transitions: with_preparation(
                    RegistryModel { next_token: (registry.next_token + 1) as u64, ..registry },
                    kind,
                    Some(Prepare { token: registry.next_token, cancelled: false }),
                ),
                ..core_state
            })
            &&& !may_be_carried(core_state, kind, generation) ==> answer == Err::<
                (u64, u64),
                ServiceError,
            >(ServiceError::Locked)
            &&& may_be_carried(core_state, kind, generation) && !(has_none(registry, kind)
                && preparation(registry, kind) is None) ==> answer == Err::<
                (u64, u64),
                ServiceError,
            >(ServiceError::Busy)
            &&& may_be_carried(core_state, kind, generation) && has_none(registry, kind)
                && preparation(registry, kind) is None && registry.next_token == u64::MAX
                ==> answer == Err::<(u64, u64), ServiceError>(ServiceError::IdentifierExhausted)
            &&& answer is Err ==> begun == core_state
        }),
{
}

/// Without a session no transition begins; and a question of freshness is never begun
/// as a transition.
pub proof fn law_what_cannot_begin(core_state: CoreModel, kind: TransitionKind)
    ensures
        core_state.session is None ==> flows::begin_answer(core_state, kind) == Err::<
            (u64, u64),
            ServiceError,
        >(ServiceError::InvalidConfiguration),
        core_state.session is Some ==> flows::begin_answer(core_state, TransitionKind::Freshness)
            == Err::<(u64, u64), ServiceError>(ServiceError::Locked),
        core_state.session is None ==> flows::after_begin(core_state, kind) == core_state,
        flows::after_begin(core_state, TransitionKind::Freshness) == core_state,
{
}

/// What the repository prepared is registered exactly while its preparation goes on
/// under its token, and the session still is what it was begun for: unlocked in the
/// generation for a compromise, and locked in it for a recovery. Otherwise it is given
/// up as stale. What the repository refuses fails with that, and where it panics,
/// cleanup is to be done. In every case but the first the preparation is over.
pub proof fn law_what_is_prepared_is_registered(
    core_state: CoreModel,
    kind: TransitionKind,
    generation: u64,
    token: u64,
    error: RepositoryPortError,
)
    requires
        kind is Recovery || kind is Compromise,
    ensures
        ({
            let prepare = preparation(core_state.transitions, kind);
            let fits = prepare == Some(Prepare { token, cancelled: false }) && (kind is Compromise
                && is_unlocked_in(core_state, generation) || kind is Recovery && is_locked_in(
                core_state,
                generation,
            ));
            let over = CoreModel {
                transitions: if prepare is Some && prepare->0.token == token {
                    with_preparation(core_state.transitions, kind, None)
                } else {
                    core_state.transitions
                },
                ..core_state
            };
            let good = PortAnswer::Returned(Ok::<(), RepositoryPortError>(()));
            let bad = PortAnswer::Returned(Err::<(), RepositoryPortError>(error));
            &&& fits ==> flows::prepared_step(core_state, kind, generation, token, good) is Register
                && flows::after_prepared(core_state, kind, generation, token, good) == core_state
            &&& !fits ==> flows::prepared_step(core_state, kind, generation, token, good)
                == PrepareStep::Abort(ServiceError::StaleCapability) && flows::after_prepared(
                core_state,
                kind,
                generation,
                token,
                good,
            ) == over
            &&& flows::prepared_step(core_state, kind, generation, token, bad)
                == PrepareStep::Failed(errors::repository_failure(error))
            &&& flows::after_prepared(core_state, kind, generation, token, bad) == over
            &&& flows::prepared_step(core_state, kind, generation, token, PortAnswer::Panicked)
                == PrepareStep::Failed(ServiceError::CleanupRequired)
            &&& core_state.session is Some ==> flows::after_prepared(
                core_state,
                kind,
                generation,
                token,
                PortAnswer::Panicked,
            ).session->0.data.cleanup_required
            &&& prepare is Some && prepare->0.token == token ==> preparation(
                flows::after_prepared(
                    core_state,
                    kind,
                    generation,
                    token,
                    PortAnswer::Panicked,
                ).transitions,
                kind,
            ) is None
        }),
{
}

/// A prepared transition is registered exactly while its preparation goes on under its
/// token, there is room, and the service still is what it was begun for. It then waits
/// under its operation for its confirmation, its preparation is over and one identity
/// is used up. A registry without room is busy; a cancelled preparation is cancelled;
/// and what was begun for another service is stale. Its preparation is over then, and
/// no identity is used up.
pub proof fn law_a_registered_transition_waits(
    core_state: CoreModel,
    kind: TransitionKind,
    generation: u64,
    token: u64,
    id: OperationId,
    verifier: Option<(Seq<u8>, Seq<u8>)>,
    presentation: Option<Seq<u8>>,
)
    requires
        kind is Recovery || kind is Compromise,
    ensures
        ({
            let registry = core_state.transitions;
            let prepare = preparation(registry, kind);
            let answer = transitions::register_answer(
                registry,
                kind,
                token,
                flows::binding_is_valid(core_state, kind, generation),
            );
            let after = flows::after_registered(
                core_state,
                kind,
                generation,
                token,
                id,
                verifier,
                presentation,
            );
            let cleared = if prepare is Some && prepare->0.token == token {
                with_preparation(registry, kind, None)
            } else {
                registry
            };
            let record = RecordModel {
                kind,
                generation,
                operation: id,
                consuming: false,
                verifier,
                presentation,
                offered: true,
                view: None,
            };
            &&& answer is Ok <==> prepare == Some(Prepare { token, cancelled: false })
                && registry.records.len() < registry.capacity && may_be_carried(
                core_state,
                kind,
                generation,
            )
            &&& answer is Ok ==> after == (CoreModel {
                transitions: RegistryModel { records: registry.records.push(record), ..cleared },
                identity: IdentityModel {
                    next: (core_state.identity.next + 1) as u64,
                    ..core_state.identity
                },
                ..core_state
            })
            &&& answer is Err ==> after == (CoreModel { transitions: cleared, ..core_state })
            &&& registry.records.len() >= registry.capacity ==> answer == Err::<(), ServiceError>(
                ServiceError::Busy,
            )
            &&& registry.records.len() < registry.capacity && prepare == Some(
                Prepare { token, cancelled: true },
            ) ==> answer == Err::<(), ServiceError>(ServiceError::Cancelled)
            &&& registry.records.len() < registry.capacity && answer is Err && prepare != Some(
                Prepare { token, cancelled: true },
            ) ==> answer == Err::<(), ServiceError>(ServiceError::StaleCapability)
        }),
{
}

/// A registered transition is claimed exactly while it waits and the service still is
/// what it was begun for: it is being carried out then, by an execution of its own
/// that is bound to its generation and has told nothing. Otherwise it is stale, and
/// nothing changes.
pub proof fn law_a_waiting_transition_is_claimed(core_state: CoreModel, id: OperationId, index: int)
    requires
        terms::is_recorded(core_state.transitions.records, id, index),
    ensures
        ({
            let registry = core_state.transitions;
            let record = registry.records[index];
            let answer = flows::claim_security_answer(core_state, id);
            let after = flows::after_claim_security(core_state, id);
            let fits = !record.consuming && may_be_carried(
                core_state,
                record.kind,
                record.generation,
            );
            &&& fits ==> answer == Ok::<(), ServiceError>(())
            &&& !fits ==> answer == Err::<(), ServiceError>(ServiceError::StaleCapability) && after
                == core_state
            &&& fits ==> {
                let execution = after.transitions.executions.last();
                &&& after == (CoreModel { transitions: after.transitions, ..core_state })
                &&& after.transitions == (RegistryModel {
                    records: registry.records.update(
                        index,
                        RecordModel { consuming: true, ..record },
                    ),
                    executions: registry.executions.push(execution),
                    ..registry
                })
                &&& execution.id == id
                &&& execution.lifecycle is Accepted
                &&& execution.session_generation == Some(record.generation)
                &&& execution.mutating && !execution.irrevocable
                &&& !execution.cancelled && !execution.repository_cancelled
                &&& execution.result is None && execution.transition_result is None
                &&& execution.lease_cancellations.len() == 0
                &&& !execution.lease_cancellation_queued
                &&& execution.events.lossless.len() == 0 && execution.events.terminal is None
                &&& execution.events.next_sequence == 0 && !execution.events.consumer_gone
                &&& execution.events.lossless_capacity
                    == core_state.scheduler.config.event_capacity
            }
        }),
{
    terms::lemma_record_found(core_state.transitions.records, id, index);
}

/// What is not registered cannot be claimed, guarded, begun or confirmed.
pub proof fn law_an_unregistered_transition_is_stale(
    core_state: CoreModel,
    id: OperationId,
    token: u64,
)
    requires
        terms::is_unrecorded(core_state.transitions.records, id),
    ensures
        flows::claim_security_answer(core_state, id) == Err::<(), ServiceError>(
            ServiceError::StaleCapability,
        ),
        flows::after_claim_security(core_state, id) == core_state,
        flows::claim_freshness_answer(core_state, id) == Err::<(), ServiceError>(
            ServiceError::StaleCapability,
        ),
        flows::offer_answer(core_state, id) == Err::<([u8; 32], u64), ServiceError>(
            ServiceError::StaleCapability,
        ),
        transitions::verifier_of(core_state.transitions, id) is None,
        transitions::presentation_of(core_state.transitions, id) is None,
        terms::is_unknown(core_state.transitions.executions, id) ==> flows::guard_answer(
            core_state,
            id,
            PortAnswer::Returned(token),
        ) == Err::<(), ServiceError>(ServiceError::StaleCapability) && !flows::execution_begins(
            core_state,
            id,
        ),
{
    terms::lemma_record_not_found(core_state.transitions.records, id);
    if terms::is_unknown(core_state.transitions.executions, id) {
        terms::lemma_execution_not_found(core_state.transitions.executions, id);
    }
}

/// What cancels an execution is noted under the token of the caller, unless the
/// execution was cancelled already or has no room for it.
pub proof fn law_an_execution_is_guarded(
    core_state: CoreModel,
    id: OperationId,
    index: int,
    token: u64,
)
    requires
        terms::stands_at(core_state.transitions.executions, id, index),
    ensures
        ({
            let state = core_state.transitions.executions[index];
            let answer = flows::guard_answer(core_state, id, PortAnswer::Returned(token));
            let after = flows::after_guard(core_state, id, PortAnswer::Returned(token));
            let noted = OperationModel {
                lease_cancellations: state.lease_cancellations.push(token),
                ..state
            };
            &&& answer is Ok <==> !state.cancelled && state.lease_cancellations.len()
                < MAX_OPERATION_LEASES
            &&& state.cancelled ==> answer == Err::<(), ServiceError>(ServiceError::Cancelled)
            &&& !state.cancelled && answer is Err ==> answer == Err::<(), ServiceError>(
                ServiceError::CapacityExceeded,
            )
            &&& answer is Err ==> after == core_state
            &&& answer is Ok ==> after == (CoreModel {
                transitions: RegistryModel {
                    executions: core_state.transitions.executions.update(index, noted),
                    ..core_state.transitions
                },
                ..core_state
            })
            &&& flows::guard_answer(core_state, id, PortAnswer::Panicked) == Err::<
                (),
                ServiceError,
            >(ServiceError::CleanupRequired)
            &&& flows::after_guard(core_state, id, PortAnswer::Panicked) == core_state
        }),
{
    terms::lemma_execution_found(core_state.transitions.executions, id, index);
}

/// An execution that waits begins once: it runs from then on.
pub proof fn law_an_execution_begins_once(core_state: CoreModel, id: OperationId, index: int)
    requires
        terms::stands_at(core_state.transitions.executions, id, index),
    ensures
        ({
            let state = core_state.transitions.executions[index];
            let after = flows::after_execution_begin(core_state, id);
            let running = OperationModel { lifecycle: Lifecycle::Running, ..state };
            &&& flows::execution_begins(core_state, id) <==> state.lifecycle is Accepted
            &&& state.lifecycle is Accepted ==> after == (CoreModel {
                transitions: RegistryModel {
                    executions: core_state.transitions.executions.update(index, running),
                    ..core_state.transitions
                },
                ..core_state
            }) && !flows::execution_begins(after, id)
            &&& !(state.lifecycle is Accepted) ==> after == core_state
        }),
{
    terms::lemma_execution_found(core_state.transitions.executions, id, index);
    let after = flows::after_execution_begin(core_state, id);
    if core_state.transitions.executions[index].lifecycle is Accepted {
        terms::lemma_changed(
            core_state.transitions.executions,
            id,
            index,
            after.transitions.executions[index],
        );
        terms::lemma_execution_found(after.transitions.executions, id, index);
    }
}

/// A transition that is carried out ends with what came of it: its record is gone, and
/// its execution is over with that result, unless it had ended before. Where cleanup
/// is to be done, the session asks for it.
pub proof fn law_a_transition_ends_with_its_outcome(
    core_state: CoreModel,
    id: OperationId,
    index: int,
    place: int,
    answer: PortAnswer<Result<(), RepositoryPortError>>,
)
    requires
        terms::is_recorded(core_state.transitions.records, id, index),
        core_state.transitions.records[index].consuming,
        terms::stands_at(core_state.transitions.executions, id, place),
    ensures
        ({
            let outcome = match answer {
                PortAnswer::Panicked => Err::<(), ServiceError>(ServiceError::CleanupRequired),
                PortAnswer::Returned(Ok(())) => Ok(()),
                PortAnswer::Returned(Err(error)) => Err(errors::repository_failure(error)),
            };
            let state = core_state.transitions.executions[place];
            let after = flows::after_executed(core_state, id, answer);
            &&& flows::execution_answer(answer) == outcome
            &&& outcome != Err::<(), ServiceError>(ServiceError::CleanupRequired) ==> {
                let ended = if state.lifecycle is Terminal {
                    state
                } else {
                    OperationModel {
                        lifecycle: Lifecycle::Terminal,
                        transition_result: Some(outcome),
                        ..state
                    }
                };
                after == (CoreModel {
                    transitions: RegistryModel {
                        records: core_state.transitions.records.remove(index),
                        executions: core_state.transitions.executions.update(place, ended),
                        ..core_state.transitions
                    },
                    ..core_state
                })
            }
            &&& outcome == Err::<(), ServiceError>(ServiceError::CleanupRequired)
                && core_state.session is Some ==> after.session is Some
                && after.session->0.data.cleanup_required
            &&& after.transitions.records == core_state.transitions.records.remove(index)
            &&& flows::after_transition_end(core_state, id, outcome) == (CoreModel {
                transitions: RegistryModel {
                    records: core_state.transitions.records.remove(index),
                    executions: core_state.transitions.executions.update(
                        place,
                        if state.lifecycle is Terminal {
                            state
                        } else {
                            OperationModel {
                                lifecycle: Lifecycle::Terminal,
                                transition_result: Some(outcome),
                                ..state
                            }
                        },
                    ),
                    ..core_state.transitions
                },
                ..core_state
            })
        }),
{
    terms::lemma_record_found(core_state.transitions.records, id, index);
    terms::lemma_execution_found(core_state.transitions.executions, id, place);
}

/// A compromise of an open service, or a recovery of one that rests, that its
/// repository prepares, that there is room for, that is claimed, guarded, begun and
/// carried out with success while the service stays what it is, ends with success.
pub proof fn law_a_transition_comes_to_its_end(
    core_state: CoreModel,
    kind: TransitionKind,
    generation: u64,
    id: OperationId,
    verifier: Option<(Seq<u8>, Seq<u8>)>,
    presentation: Option<Seq<u8>>,
    guard: u64,
)
    requires
        may_be_carried(core_state, kind, generation),
        has_none(core_state.transitions, kind),
        preparation(core_state.transitions, kind) is None,
        core_state.transitions.next_token < u64::MAX,
        core_state.transitions.records.len() < core_state.transitions.capacity,
        terms::is_unrecorded(core_state.transitions.records, id),
        terms::is_unknown(core_state.transitions.executions, id),
    ensures
        ({
            let token = core_state.transitions.next_token;
            let good = PortAnswer::Returned(Ok::<(), RepositoryPortError>(()));
            let begun = flows::after_begin(core_state, kind);
            let registered = flows::after_registered(
                begun,
                kind,
                generation,
                token,
                id,
                verifier,
                presentation,
            );
            let claimed = flows::after_claim_security(registered, id);
            let guarded = flows::after_guard(claimed, id, PortAnswer::Returned(guard));
            let running = flows::after_execution_begin(guarded, id);
            let ended = flows::after_executed(running, id, good);
            &&& flows::begin_answer(core_state, kind) == Ok::<(u64, u64), ServiceError>(
                (generation, token),
            )
            &&& flows::prepared_step(begun, kind, generation, token, good) is Register
            &&& flows::after_prepared(begun, kind, generation, token, good) == begun
            &&& transitions::register_answer(
                begun.transitions,
                kind,
                token,
                flows::binding_is_valid(begun, kind, generation),
            ) is Ok
            &&& transitions::verifier_of(registered.transitions, id) == verifier
            &&& transitions::presentation_of(registered.transitions, id) == presentation
            &&& flows::claim_security_answer(registered, id) is Ok
            &&& flows::guard_answer(claimed, id, PortAnswer::Returned(guard)) is Ok
            &&& flows::execution_begins(guarded, id)
            &&& flows::execution_answer(good) is Ok
            &&& ended.transitions.records == core_state.transitions.records
            &&& ended.transitions.executions.len() == core_state.transitions.executions.len() + 1
            &&& ended.transitions.executions.last().id == id
            &&& ended.transitions.executions.last().lifecycle is Terminal
            &&& ended.transitions.executions.last().transition_result == Some(
                Ok::<(), ServiceError>(()),
            )
            &&& preparation(ended.transitions, kind) is None
            &&& ended.scheduler == core_state.scheduler && ended.session == core_state.session
        }),
{
    let token = core_state.transitions.next_token;
    let good = PortAnswer::Returned(Ok::<(), RepositoryPortError>(()));
    let error = RepositoryPortError::Busy;
    law_a_transition_begins_in_its_generation(core_state, kind);
    let begun = flows::after_begin(core_state, kind);
    law_what_is_prepared_is_registered(begun, kind, generation, token, error);
    law_a_registered_transition_waits(
        begun,
        kind,
        generation,
        token,
        id,
        verifier,
        presentation,
    );
    let registered = flows::after_registered(
        begun,
        kind,
        generation,
        token,
        id,
        verifier,
        presentation,
    );
    let records = registered.transitions.records;
    let index = records.len() - 1;
    assert(terms::is_recorded(records, id, index));
    terms::lemma_record_found(records, id, index);
    law_a_waiting_transition_is_claimed(registered, id, index);
    let claimed = flows::after_claim_security(registered, id);
    let place = claimed.transitions.executions.len() - 1;
    assert(terms::stands_at(claimed.transitions.executions, id, place));
    law_an_execution_is_guarded(claimed, id, place, guard);
    let guarded = flows::after_guard(claimed, id, PortAnswer::Returned(guard));
    terms::lemma_changed(
        claimed.transitions.executions,
        id,
        place,
        guarded.transitions.executions[place],
    );
    law_an_execution_begins_once(guarded, id, place);
    let running = flows::after_execution_begin(guarded, id);
    terms::lemma_changed(
        guarded.transitions.executions,
        id,
        place,
        running.transitions.executions[place],
    );
    assert(terms::is_recorded(running.transitions.records, id, index));
    law_a_transition_ends_with_its_outcome(running, id, index, place, good);
    let ended = flows::after_executed(running, id, good);
    assert(ended.transitions.records =~= core_state.transitions.records);
}

/// An operation runs, and nobody cancelled it.
pub open spec fn is_running(core_state: CoreModel, id: OperationId, place: int) -> bool {
    &&& terms::stands_at(core_state.scheduler.active, id, place)
    &&& core_state.scheduler.active[place].lifecycle is Running
    &&& !core_state.scheduler.active[place].cancelled
}

/// A question of freshness is asked, and waits for its answer, exactly where the host
/// answered that the view is bound, the service is not closed and has its leases open,
/// the operation runs uncancelled in the current generation, and there is room for its
/// one question. An operation without a generation is locked; what is unbound or not
/// current is given up as stale; and without room the question is given up as busy.
pub proof fn law_a_freshness_question_waits(
    core_state: CoreModel,
    id: OperationId,
    place: int,
    view: [u8; 32],
    bound: bool,
)
    requires
        terms::stands_at(core_state.scheduler.active, id, place),
    ensures
        ({
            let state = core_state.scheduler.active[place];
            let registry = core_state.transitions;
            let step = flows::freshness_step(
                core_state,
                id,
                PortAnswer::Returned(view),
                PortAnswer::Returned(bound),
            );
            let after = flows::after_freshness(
                core_state,
                id,
                PortAnswer::Returned(view),
                PortAnswer::Returned(bound),
            );
            let current = !core_state.scheduler.closed && core_state.scheduler.key_leases_open
                && is_running(core_state, id, place) && state.session_generation == Some(
                core_state.scheduler.generation,
            );
            let room = registry.records.len() < registry.capacity && terms::is_unrecorded(
                registry.records,
                id,
            );
            let question = RecordModel {
                kind: TransitionKind::Freshness,
                generation: core_state.scheduler.generation,
                operation: id,
                consuming: false,
                verifier: None,
                presentation: None,
                offered: false,
                view: Some(view),
            };
            &&& step is Wait <==> bound && current && room
            &&& step is Wait ==> after == (CoreModel {
                transitions: RegistryModel { records: registry.records.push(question), ..registry },
                ..core_state
            })
            &&& !(step is Wait) ==> after == core_state
            &&& !bound ==> step == FreshnessStep::Abort(ServiceError::StaleCapability)
            &&& bound && state.session_generation is None ==> step == FreshnessStep::Failed(
                ServiceError::Locked,
            )
            &&& bound && state.session_generation is Some && !current ==> step
                == FreshnessStep::Abort(ServiceError::StaleCapability)
            &&& bound && current && !room ==> step == FreshnessStep::Abort(ServiceError::Busy)
        }),
{
    terms::lemma_found(core_state.scheduler.active, id, place);
    let records = core_state.transitions.records;
    if terms::is_unrecorded(records, id) {
        terms::lemma_record_not_found(records, id);
    } else {
        let index = choose|index: int|
            0 <= index < records.len() && (#[trigger] records[index]).operation == id;
        lemma_some_record_is_found(records, id, index);
    }
}

/// What is recorded somewhere is found.
proof fn lemma_some_record_is_found(records: Seq<RecordModel>, id: OperationId, index: int)
    requires
        0 <= index < records.len(),
        records[index].operation == id,
    ensures
        transitions::place_of(records, id) is Some,
    decreases index,
{
    if forall|i: int| 0 <= i < index ==> (#[trigger] records[i]).operation != id {
        assert(transitions::record_at(records, id, index));
    } else {
        let earlier = choose|i: int|
            0 <= i < index && (#[trigger] records[i]).operation == id;
        lemma_some_record_is_found(records, id, earlier);
    }
}

/// A host that panics when it is asked for a view gives the question up, and cleanup
/// is to be done.
pub proof fn law_a_host_that_panics_gives_the_question_up(
    core_state: CoreModel,
    id: OperationId,
    state: OperationModel,
    view: PortAnswer<[u8; 32]>,
    bound: PortAnswer<bool>,
)
    requires
        view is Panicked || bound is Panicked,
        core_state.session is Some,
    ensures
        flows::freshness_step(core_state, id, view, bound) == FreshnessStep::Abort(
            ServiceError::CleanupRequired,
        ),
        flows::detached_freshness_step(state, view, bound) == FreshnessStep::Abort(
            ServiceError::CleanupRequired,
        ),
        flows::after_freshness(core_state, id, view, bound).session is Some,
        flows::after_freshness(core_state, id, view, bound).session->0.data.cleanup_required,
{
}

/// The question of an operation that is no longer accounted never waits: it is locked
/// where the view is bound and the operation had no generation, and stale otherwise.
pub proof fn law_a_detached_question_never_waits(
    state: OperationModel,
    view: [u8; 32],
    bound: bool,
)
    ensures
        ({
            let step = flows::detached_freshness_step(
                state,
                PortAnswer::Returned(view),
                PortAnswer::Returned(bound),
            );
            &&& bound && state.session_generation is None ==> step == FreshnessStep::Failed(
                ServiceError::Locked,
            )
            &&& !(bound && state.session_generation is None) ==> step == FreshnessStep::Abort(
                ServiceError::StaleCapability,
            )
        }),
{
}

/// A question that waits is offered exactly once, with its view and its generation,
/// while its operation runs uncancelled in that generation; otherwise it is stale.
pub proof fn law_a_question_that_waits_is_offered(
    core_state: CoreModel,
    id: OperationId,
    index: int,
    place: int,
)
    requires
        terms::is_recorded(core_state.transitions.records, id, index),
        terms::stands_at(core_state.scheduler.active, id, place),
    ensures
        ({
            let registry = core_state.transitions;
            let record = registry.records[index];
            let answer = flows::offer_answer(core_state, id);
            let after = flows::after_offer(core_state, id);
            let current = core_state.scheduler.generation == record.generation && is_running(
                core_state,
                id,
                place,
            );
            &&& answer is Ok <==> current && !record.offered && !record.consuming
                && record.view is Some
            &&& answer is Ok ==> answer->Ok_0 == (record.view->0, record.generation)
            &&& answer is Err ==> answer->Err_0 == ServiceError::StaleCapability
            &&& current ==> after == (CoreModel {
                transitions: RegistryModel {
                    records: registry.records.update(
                        index,
                        RecordModel { offered: true, ..record },
                    ),
                    ..registry
                },
                ..core_state
            })
            &&& !current ==> after == core_state
        }),
{
    terms::lemma_record_found(core_state.transitions.records, id, index);
    terms::lemma_found(core_state.scheduler.active, id, place);
}

/// A question is claimed exactly while it waits, its operation runs uncancelled and
/// the service is unlocked in its generation; otherwise it is stale.
pub proof fn law_a_question_that_waits_is_claimed(
    core_state: CoreModel,
    id: OperationId,
    index: int,
    place: int,
)
    requires
        terms::is_recorded(core_state.transitions.records, id, index),
        terms::stands_at(core_state.scheduler.active, id, place),
    ensures
        ({
            let registry = core_state.transitions;
            let record = registry.records[index];
            let answer = flows::claim_freshness_answer(core_state, id);
            let after = flows::after_claim_freshness(core_state, id);
            &&& answer is Ok <==> record.kind is Freshness && !record.consuming && is_running(
                core_state,
                id,
                place,
            ) && is_unlocked_in(core_state, record.generation)
            &&& answer is Err ==> answer->Err_0 == ServiceError::StaleCapability && after
                == core_state
            &&& answer is Ok ==> after == (CoreModel {
                transitions: RegistryModel {
                    records: registry.records.update(
                        index,
                        RecordModel { consuming: true, ..record },
                    ),
                    ..registry
                },
                ..core_state
            })
        }),
{
    terms::lemma_record_found(core_state.transitions.records, id, index);
    terms::lemma_found(core_state.scheduler.active, id, place);
}

/// What the repository answers to an acknowledged question is what the question is
/// resolved with, and its record is gone. The operation finds that resolution once.
/// Where cleanup is to be done, the session asks for it.
pub proof fn law_an_acknowledged_question_is_resolved(
    core_state: CoreModel,
    id: OperationId,
    index: int,
    answer: PortAnswer<Result<(), RepositoryPortError>>,
)
    requires
        terms::is_recorded(core_state.transitions.records, id, index),
        core_state.transitions.records[index].consuming,
        terms::is_unresolved(core_state.transitions.resolutions, id),
    ensures
        ({
            let result = match answer {
                PortAnswer::Panicked => Err::<(), ServiceError>(ServiceError::CleanupRequired),
                PortAnswer::Returned(Ok(())) => Ok(()),
                PortAnswer::Returned(Err(error)) => Err(errors::repository_failure(error)),
            };
            let after = flows::after_acknowledged(core_state, id, answer);
            let taken = transitions::after_take_resolution(after.transitions, id);
            &&& result != Err::<(), ServiceError>(ServiceError::CleanupRequired) ==> after == (
            CoreModel {
                transitions: RegistryModel {
                    records: core_state.transitions.records.remove(index),
                    resolutions: core_state.transitions.resolutions.push((id, result)),
                    ..core_state.transitions
                },
                ..core_state
            }) && flows::freshness_wait(after, id) == FreshnessWait::Resolved(result)
                && taken.resolutions == core_state.transitions.resolutions
            &&& result == Err::<(), ServiceError>(ServiceError::CleanupRequired)
                && core_state.session is Some ==> after.session is Some
                && after.session->0.data.cleanup_required
            &&& after.transitions.records == core_state.transitions.records.remove(index)
            &&& after.transitions.resolutions == core_state.transitions.resolutions.push(
                (id, result),
            )
        }),
{
    terms::lemma_record_found(core_state.transitions.records, id, index);
    terms::lemma_resolution_not_found(core_state.transitions.resolutions, id);
    let result = flows::execution_answer(answer);
    let resolutions = core_state.transitions.resolutions.push((id, result));
    let last = core_state.transitions.resolutions.len() as int;
    assert(terms::is_resolved(resolutions, id, last));
    terms::lemma_resolution_found(resolutions, id, last);
    assert(resolutions.remove(last) =~= core_state.transitions.resolutions);
}

/// An operation that waits for its answer finds it where there is one, waits while it
/// is accounted and uncancelled, and gives its question up otherwise.
pub proof fn law_a_question_is_waited_for(
    core_state: CoreModel,
    id: OperationId,
    index: int,
    place: int,
)
    ensures
        terms::is_resolved(core_state.transitions.resolutions, id, index) ==> flows::freshness_wait(
            core_state,
            id,
        ) == FreshnessWait::Resolved(core_state.transitions.resolutions[index].1),
        terms::is_unresolved(core_state.transitions.resolutions, id) && terms::stands_at(
            core_state.scheduler.active,
            id,
            place,
        ) && !core_state.scheduler.active[place].cancelled ==> flows::freshness_wait(
            core_state,
            id,
        ) is Wait,
        terms::is_unresolved(core_state.transitions.resolutions, id) && terms::stands_at(
            core_state.scheduler.active,
            id,
            place,
        ) && core_state.scheduler.active[place].cancelled ==> flows::freshness_wait(
            core_state,
            id,
        ) is Cancel,
        terms::is_unresolved(core_state.transitions.resolutions, id) && terms::is_unknown(
            core_state.scheduler.active,
            id,
        ) ==> flows::freshness_wait(core_state, id) is Cancel,
{
    if terms::is_resolved(core_state.transitions.resolutions, id, index) {
        terms::lemma_resolution_found(core_state.transitions.resolutions, id, index);
    }
    if terms::is_unresolved(core_state.transitions.resolutions, id) {
        terms::lemma_resolution_not_found(core_state.transitions.resolutions, id);
    }
    if terms::stands_at(core_state.scheduler.active, id, place) {
        terms::lemma_found(core_state.scheduler.active, id, place);
    }
    if terms::is_unknown(core_state.scheduler.active, id) {
        terms::lemma_not_found(core_state.scheduler.active, id);
    }
}

/// A question that is asked, offered, claimed and acknowledged with success while its
/// operation runs uncancelled in an unlocked service is answered with success.
pub proof fn law_a_question_comes_to_its_answer(
    core_state: CoreModel,
    id: OperationId,
    place: int,
    view: [u8; 32],
)
    requires
        is_open_in(core_state, core_state.scheduler.generation),
        is_running(core_state, id, place),
        core_state.scheduler.active[place].session_generation == Some(
            core_state.scheduler.generation,
        ),
        core_state.transitions.records.len() < core_state.transitions.capacity,
        terms::is_unrecorded(core_state.transitions.records, id),
        terms::is_unresolved(core_state.transitions.resolutions, id),
    ensures
        ({
            let good = PortAnswer::Returned(Ok::<(), RepositoryPortError>(()));
            let asked = flows::after_freshness(
                core_state,
                id,
                PortAnswer::Returned(view),
                PortAnswer::Returned(true),
            );
            let offered = flows::after_offer(asked, id);
            let claimed = flows::after_claim_freshness(offered, id);
            let resolved = flows::after_acknowledged(claimed, id, good);
            &&& flows::freshness_step(
                core_state,
                id,
                PortAnswer::Returned(view),
                PortAnswer::Returned(true),
            ) is Wait
            &&& flows::freshness_wait(asked, id) is Wait
            &&& flows::offer_answer(asked, id) == Ok::<([u8; 32], u64), ServiceError>(
                (view, core_state.scheduler.generation),
            )
            &&& flows::offer_answer(offered, id) is Err
            &&& flows::claim_freshness_answer(offered, id) is Ok
            &&& flows::claim_freshness_answer(claimed, id) is Err
            &&& flows::freshness_wait(resolved, id) == FreshnessWait::Resolved(
                Ok::<(), ServiceError>(()),
            )
            &&& resolved.transitions.records == core_state.transitions.records
        }),
{
    let good = PortAnswer::Returned(Ok::<(), RepositoryPortError>(()));
    law_a_freshness_question_waits(core_state, id, place, view, true);
    let asked = flows::after_freshness(
        core_state,
        id,
        PortAnswer::Returned(view),
        PortAnswer::Returned(true),
    );
    let index = core_state.transitions.records.len() as int;
    assert(terms::is_recorded(asked.transitions.records, id, index));
    law_a_question_is_waited_for(asked, id, 0, place);
    law_a_question_that_waits_is_offered(asked, id, index, place);
    let offered = flows::after_offer(asked, id);
    assert(terms::is_recorded(offered.transitions.records, id, index));
    law_a_question_that_waits_is_offered(offered, id, index, place);
    law_a_question_that_waits_is_claimed(offered, id, index, place);
    let claimed = flows::after_claim_freshness(offered, id);
    assert(terms::is_recorded(claimed.transitions.records, id, index));
    law_a_question_that_waits_is_claimed(claimed, id, index, place);
    law_an_acknowledged_question_is_resolved(claimed, id, index, good);
    let resolved = flows::after_acknowledged(claimed, id, good);
    assert(resolved.transitions.records =~= core_state.transitions.records);
}

/// A transition that waits can be cancelled, and one that is carried out cannot. The
/// question of a cancelled transition of freshness is resolved as cancelled, and an
/// abort that failed requires cleanup.
pub proof fn law_a_waiting_transition_can_be_cancelled(
    core_state: CoreModel,
    id: OperationId,
    index: int,
    kind: TransitionKind,
    failed: bool,
)
    requires
        terms::is_recorded(core_state.transitions.records, id, index),
    ensures
        !core_state.transitions.records[index].consuming ==> transitions::is_pending(
            core_state.transitions,
            id,
        ) && transitions::after_cancel(core_state.transitions, id) == (RegistryModel {
            records: core_state.transitions.records.remove(index),
            ..core_state.transitions
        }),
        core_state.transitions.records[index].consuming ==> !transitions::is_pending(
            core_state.transitions,
            id,
        ) && transitions::after_cancel(core_state.transitions, id) == core_state.transitions,
        kind is Freshness && !failed && terms::is_unresolved(core_state.transitions.resolutions, id)
            ==> flows::after_aborted(core_state, id, kind, failed) == (CoreModel {
            transitions: RegistryModel {
                resolutions: core_state.transitions.resolutions.push(
                    (id, Err::<(), ServiceError>(ServiceError::Cancelled)),
                ),
                ..core_state.transitions
            },
            ..core_state
        }),
        !(kind is Freshness) && !failed ==> flows::after_aborted(core_state, id, kind, failed)
            == core_state,
        failed && core_state.session is Some ==> flows::after_aborted(
            core_state,
            id,
            kind,
            failed,
        ).session->0.data.cleanup_required,
{
    terms::lemma_record_found(core_state.transitions.records, id, index);
    if terms::is_unresolved(core_state.transitions.resolutions, id) {
        terms::lemma_resolution_not_found(core_state.transitions.resolutions, id);
    }
}

/// The verifier and the presentation of a transition are taken from its record: a
/// verifier together with what was still to be presented, and a presentation alone.
pub proof fn law_secrets_are_taken_from_their_record(
    registry: RegistryModel,
    id: OperationId,
    index: int,
)
    requires
        terms::is_recorded(registry.records, id, index),
    ensures
        transitions::verifier_of(registry, id) == registry.records[index].verifier,
        transitions::presentation_of(registry, id) == registry.records[index].presentation,
        transitions::generation_of(registry, id) == Some(registry.records[index].generation),
        transitions::after_take_verifier(registry, id) == (RegistryModel {
            records: registry.records.update(
                index,
                RecordModel { verifier: None, presentation: None, ..registry.records[index] },
            ),
            ..registry
        }),
        transitions::after_take_presentation(registry, id) == (RegistryModel {
            records: registry.records.update(
                index,
                RecordModel { presentation: None, ..registry.records[index] },
            ),
            ..registry
        }),
{
    terms::lemma_record_found(registry.records, id, index);
}

/// The confirmation of a compromise is what was entered: the one entry where the
/// verifier accepts it, and the matching of two entries that agree. Two entries where
/// one was presented, or one where none was, authenticate nothing; and a key that
/// could not be drawn is what fails.
pub proof fn law_a_confirmation_is_what_was_entered(
    verifier: (Seq<u8>, Seq<u8>),
    first: Seq<u8>,
    matching: Seq<u8>,
    key: Result<Seq<u8>, ServiceError>,
    error: ServiceError,
)
    ensures
        flows::compromise_confirmation(Some(verifier), first, Some(matching), key) == Err::<
            Seq<u8>,
            ServiceError,
        >(ServiceError::AuthenticationFailed),
        flows::compromise_confirmation(None, first, None, key) == Err::<Seq<u8>, ServiceError>(
            ServiceError::AuthenticationFailed,
        ),
        flows::compromise_confirmation(None, first, Some(matching), Err(error)) == Err::<
            Seq<u8>,
            ServiceError,
        >(error),
        flows::compromise_confirmation(Some(verifier), first, None, key) is Ok
            ==> flows::compromise_confirmation(Some(verifier), first, None, key)->Ok_0 == first,
        flows::compromise_confirmation(Some(verifier), first, None, key) is Ok
            <==> flows::recovery_confirmation(Some(verifier), first) is Ok,
        flows::recovery_confirmation(None, first) == Err::<(), ServiceError>(
            ServiceError::StaleCapability,
        ),
        flows::recovery_confirmation(Some(verifier), first) is Err ==> flows::recovery_confirmation(
            Some(verifier),
            first,
        )->Err_0 == ServiceError::AuthenticationFailed,
        key is Ok ==> flows::compromise_confirmation(None, first, Some(first), key) == Ok::<
            Seq<u8>,
            ServiceError,
        >(first),
        flows::compromise_confirmation(None, first, Some(matching), key) is Ok
            ==> flows::compromise_confirmation(None, first, Some(matching), key)->Ok_0 == matching,
{
}

} // verus!
