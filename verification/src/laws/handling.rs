//! Laws of single calls on operations, handles, secrets, requests and values.
use vstd::prelude::*;

use crate::command::OperationResult;
use crate::error;
use crate::error::ServiceError;
use crate::event::{OperationEvent, WarningCode};
use crate::external_files;
use crate::external_files::{CleanupRegistry, CleanupRetry, ExportCleanupId};
use crate::laws::announcing;
use crate::laws::terms;
use crate::operation::{Lifecycle, OperationId, OperationModel, OperationState, Publication};
use crate::ports::secrets::RecoverySecretInput;
use crate::ports::workspace;
use crate::ports::workspace::{PendingPublishedGeneration, PublishedGeneration, WorkspaceLease};
use crate::ports::HostPortError;
use crate::service::handles::{OperationHandle, SecurityTransitionHandle};
use crate::service::runtime::ServiceCore;
use crate::service::worker::OperationContext;
use crate::service::ServiceConfig;
use crate::session::manager::{SessionManager, WorkspaceCreation};
use crate::session::requests;
use crate::session::requests::{BeginCompromiseRekey, OfflineGuessingRiskDisclosure};
use crate::session::errors::RepositoryPortError;
use crate::session::SessionPolicy;
use crate::ports::workspace::WorkspaceMode;
use crate::time::Duration;

verus! {

/// A configuration is made exactly where it is bounded, of what it was given; the room
/// for identities counts what can be active at once.
pub proof fn law_a_configuration_holds_what_it_was_given(
    queue_capacity: usize,
    workers: usize,
    event_capacity: usize,
    completed_capacity: usize,
    issued_capacity: u64,
    id_retries: usize,
    config: Result<ServiceConfig, ServiceError>,
)
    requires
        call_ensures(
            ServiceConfig::new,
            (
                queue_capacity,
                workers,
                event_capacity,
                completed_capacity,
                issued_capacity,
                id_retries,
            ),
            config,
        ),
    ensures
        config is Ok <==> 1 <= queue_capacity <= 4096 && 1 <= workers <= 64 && 1 <= event_capacity
            <= 1024 && 1 <= completed_capacity <= 4096 && 1 <= id_retries <= 64 && queue_capacity
            + 2 * workers + 1 <= issued_capacity,
        config is Err ==> config->Err_0 == ServiceError::InvalidConfiguration,
        config is Ok ==> {
            let made = config->Ok_0@;
            &&& made.queue_capacity == queue_capacity && made.workers == workers
            &&& made.event_capacity == event_capacity && made.completed_capacity
                == completed_capacity
            &&& made.issued_capacity == issued_capacity && made.id_retries == id_retries
        },
{
}

/// A policy with timeouts of nothing, or with a final save that outlasts one of them,
/// is not configured.
pub proof fn law_a_policy_that_cannot_hold_is_refused(
    inactivity: Duration,
    absolute: Duration,
    offsets: Vec<Duration>,
    grace: Duration,
    policy: Result<SessionPolicy, ServiceError>,
)
    requires
        call_ensures(SessionPolicy::try_new, (inactivity, absolute, offsets, grace), policy),
    ensures
        inactivity@ == 0 || absolute@ == 0 || grace@ > inactivity@ || grace@ > absolute@
            || offsets@.len() > 16 ==> policy == Err::<SessionPolicy, ServiceError>(
            ServiceError::InvalidConfiguration,
        ),
        policy is Ok ==> policy->Ok_0@.inactivity_timeout == inactivity
            && policy->Ok_0@.absolute_timeout == absolute && policy->Ok_0@.final_save_grace == grace
            && policy->Ok_0@.warning_offsets == offsets@,
        inactivity@ > 0 && absolute@ > 0 && grace@ == 0 && offsets@.len() == 0 ==> policy is Ok,
{
}

/// Spans add up and are taken off each other where the result is a span.
pub proof fn law_spans_add_up(
    one: Duration,
    other: Duration,
    sum: Option<Duration>,
    rest: Option<Duration>,
)
    requires
        call_ensures(Duration::checked_add, (one, other), sum),
        call_ensures(Duration::checked_sub, (one, other), rest),
    ensures
        sum is Some ==> sum->0@ == one@ + other@,
        rest is Some ==> rest->0@ + other@ == one@,
        sum is Some <==> one@ + other@ <= 18_446_744_073_709_551_615_999_999_999,
        rest is Some <==> other@ <= one@,
{
}

/// An operation that waits begins to run, once; an ended one is not begun.
pub proof fn law_an_operation_begins_to_run_once(state: &mut OperationState, started: bool)
    requires
        call_ensures(OperationState::mark_running, (state,), started),
    ensures
        started <==> old(state)@.lifecycle is Accepted,
        started ==> final(state)@ == (OperationModel {
            lifecycle: Lifecycle::Running,
            ..old(state)@
        }),
        !started ==> final(state)@ == old(state)@,
{
}

/// The cancellation of an operation is announced once, its leases are to be cancelled
/// once, and their tokens are handed out once.
pub proof fn law_a_cancellation_is_passed_on_once(
    announced: &mut OperationState,
    queued: &mut OperationState,
    dispatched: &mut OperationState,
    first: bool,
    second: bool,
    tokens: Option<Vec<u64>>,
)
    requires
        call_ensures(OperationState::claim_cancel_notification, (announced,), first),
        call_ensures(OperationState::mark_lease_cancellation_queued, (queued,), second),
        call_ensures(OperationState::cancel_registered_leases, (dispatched,), tokens),
    ensures
        first <==> !old(announced)@.cancel_notification_pending,
        second <==> !old(queued)@.lease_cancellation_queued,
        tokens is Some <==> !old(dispatched)@.lease_cancellation_dispatched,
        tokens is Some ==> tokens->0@ == old(dispatched)@.lease_cancellations,
        final(announced)@.cancel_notification_pending && final(queued)@.lease_cancellation_queued
            && final(dispatched)@.lease_cancellation_dispatched,
{
}

/// A lease is noted under its token where the operation was not cancelled and holds
/// fewer than eight.
pub proof fn law_a_lease_is_noted(
    state: &mut OperationState,
    token: u64,
    noted: Result<(), ServiceError>,
)
    requires
        call_ensures(OperationState::register_lease_cancellation, (state, token), noted),
    ensures
        noted is Ok <==> !old(state)@.cancelled && old(state)@.lease_cancellations.len() < 8,
        old(state)@.cancelled ==> noted == Err::<(), ServiceError>(ServiceError::Cancelled),
        noted is Err && !old(state)@.cancelled ==> noted->Err_0 == ServiceError::CapacityExceeded,
        noted is Ok ==> final(state)@.lease_cancellations == old(state)@.lease_cancellations.push(
            token,
        ),
        noted is Err ==> final(state)@ == old(state)@,
{
}

/// A result, and the end of a transition, are handed out once, and a wait for them ends
/// with them or as timed out.
pub proof fn law_an_outcome_is_taken_once(
    taken: &mut OperationState,
    polled: &mut OperationState,
    ended: &mut OperationState,
    expired: bool,
    result: Option<Result<OperationResult, ServiceError>>,
    poll: Option<Result<OperationResult, ServiceError>>,
    end: Option<Result<(), ServiceError>>,
)
    requires
        call_ensures(OperationState::take_result, (taken,), result),
        call_ensures(OperationState::poll_result, (polled, expired), poll),
        call_ensures(OperationState::poll_transition_result, (ended, expired), end),
    ensures
        result == old(taken)@.result && final(taken)@.result is None,
        final(polled)@.result is None && final(ended)@.transition_result is None,
        old(polled)@.result is Some ==> poll == old(polled)@.result,
        old(polled)@.result is None && expired ==> poll == Some(
            Err::<OperationResult, ServiceError>(ServiceError::TimedOut),
        ),
        old(polled)@.result is None && !expired ==> poll is None,
        old(ended)@.transition_result is Some ==> end == old(ended)@.transition_result,
        old(ended)@.transition_result is None && expired ==> end == Some(
            Err::<(), ServiceError>(ServiceError::TimedOut),
        ),
        old(ended)@.transition_result is None && !expired ==> end is None,
{
}

/// A handle keeps its own operation when it is retired, and hands any other back.
pub proof fn law_a_handle_keeps_its_own(
    handle: &mut OperationHandle,
    state: OperationState,
    other: Option<OperationState>,
)
    requires
        call_ensures(OperationHandle::keep, (handle, state), other),
    ensures
        final(handle)@.id == old(handle)@.id,
        state@.id == old(handle)@.id ==> other is None && final(handle)@.retired == Some(state@),
        state@.id != old(handle)@.id ==> other == Some(state) && final(handle)@ == old(handle)@,
{
}

/// A boundary of a handle is that of its operation in the service; one that the handle
/// keeps goes on exactly past recall, and is cancelled otherwise.
pub proof fn law_a_handle_meets_its_boundary(
    handle: &mut OperationHandle,
    service: &mut ServiceCore,
    index: int,
    answer: Result<(), ServiceError>,
)
    requires
        call_ensures(OperationHandle::safe_boundary, (handle, service), answer),
    ensures
        old(handle)@.retired is Some ==> {
            let state = old(handle)@.retired->0;
            &&& final(service)@ == old(service)@
            &&& answer is Ok <==> state.irrevocable
            &&& answer is Err ==> answer->Err_0 == ServiceError::Cancelled
                && final(handle)@.retired is Some && final(handle)@.retired->0.cancelled
        },
        old(handle)@.retired is None && terms::stands_at(
            old(service)@.scheduler.active,
            old(handle)@.id,
            index,
        ) ==> {
            &&& final(handle)@ == old(handle)@
            &&& answer is Ok <==> terms::may_go_on(old(service)@.scheduler, index)
            &&& answer is Err ==> answer->Err_0 == ServiceError::Cancelled
                && final(service)@.scheduler.active[index].cancelled
        },
{
    if terms::stands_at(old(service)@.scheduler.active, old(handle)@.id, index) {
        announcing::law_a_boundary_is_passed_by_what_may_go_on(
            old(service)@.scheduler,
            old(handle)@.id,
            index,
        );
    }
}

/// A handle cancels its operation while the service accounts for it and it has not
/// ended, and does nothing otherwise.
pub proof fn law_a_handle_cancels_what_lives(
    handle: &OperationHandle,
    service: &mut ServiceCore,
    index: int,
)
    requires
        call_ensures(OperationHandle::cancel, (handle, service), ()),
        terms::stands_at(service@.scheduler.active, handle@.id, index),
        service@.scheduler.active[index].cancel_notification_pending,
    ensures
        handle@.retired is Some || old(service)@.scheduler.active[index].lifecycle is Terminal
            ==> final(service)@ == old(service)@,
        handle@.retired is None && !(old(service)@.scheduler.active[index].lifecycle is Terminal) ==> final(service)@.scheduler.active[index].cancelled,
{
    terms::lemma_found(service@.scheduler.active, handle@.id, index);
}

/// An operation is cancelled for its worker where it was cancelled, or is accounted no
/// longer.
pub proof fn law_a_worker_sees_cancellation(
    context: &OperationContext,
    service: &ServiceCore,
    index: int,
    cancelled: bool,
)
    requires
        call_ensures(OperationContext::is_cancelled, (context, service), cancelled),
    ensures
        terms::stands_at(service@.scheduler.active, context@, index) ==> cancelled
            == service@.scheduler.active[index].cancelled,
        terms::is_unknown(service@.scheduler.active, context@) ==> cancelled,
{
    if terms::stands_at(service@.scheduler.active, context@, index) {
        terms::lemma_found(service@.scheduler.active, context@, index);
    }
    if terms::is_unknown(service@.scheduler.active, context@) {
        terms::lemma_not_found(service@.scheduler.active, context@);
    }
}

/// A transition is stopped by its handle while it has not ended; its leases are to be
/// cancelled the first time only.
pub proof fn law_a_transition_is_stopped_by_its_handle(
    handle: &SecurityTransitionHandle,
    service: &mut ServiceCore,
    place: int,
    queued: bool,
)
    requires
        call_ensures(SecurityTransitionHandle::cancel, (handle, service), queued),
        terms::stands_at(service@.transitions.executions, handle@, place),
    ensures
        ({
            let state = old(service)@.transitions.executions[place];
            &&& queued <==> !(state.lifecycle is Terminal) && !state.lease_cancellation_queued
            &&& !(state.lifecycle is Terminal) ==> final(service)@.transitions.executions[place].cancelled
            &&& state.lifecycle is Terminal ==> final(service)@ == old(service)@
        }),
{
    terms::lemma_execution_found(service@.transitions.executions, handle@, place);
}

/// The warning that freshness cannot be proven is told like any other event; nobody
/// hears it of an operation that is not accounted.
pub proof fn law_freshness_is_warned_of(
    service: &mut ServiceCore,
    id: OperationId,
    index: int,
    answer: Result<Publication, ServiceError>,
)
    requires
        call_ensures(ServiceCore::announce_freshness, (service, id), answer),
    ensures
        terms::is_unknown(old(service)@.scheduler.active, id) ==> answer == Err::<
            Publication,
            ServiceError,
        >(ServiceError::Closed) && final(service)@ == old(service)@,
        terms::stands_at(old(service)@.scheduler.active, id, index) && terms::takes_event(
            old(service)@.scheduler.active[index],
            OperationEvent::Warning(WarningCode::FreshnessUnprovable),
        ) ==> answer == Ok::<Publication, ServiceError>(Publication::Delivered)
            && announcing::with_event(
            old(service)@.scheduler.active[index],
            OperationEvent::Warning(WarningCode::FreshnessUnprovable),
            final(service)@.scheduler.active[index],
        ),
{
    if terms::stands_at(old(service)@.scheduler.active, id, index) {
        terms::lemma_found(old(service)@.scheduler.active, id, index);
    }
    if terms::is_unknown(old(service)@.scheduler.active, id) {
        terms::lemma_not_found(old(service)@.scheduler.active, id);
    }
}

/// A prepared action whose abort failed requires cleanup, and one that was aborted
/// changes nothing.
pub proof fn law_a_failed_abort_of_an_action_requires_cleanup(
    service: &mut ServiceCore,
    failed: bool,
)
    requires
        call_ensures(ServiceCore::action_aborted, (service, failed), ()),
        service@.session is Some,
    ensures
        !failed ==> final(service)@ == old(service)@,
        failed ==> final(service)@.session is Some
            && final(service)@.session->0.data.cleanup_required,
{
}

/// The confirmation of a recovery is handed on where its verifier accepts it; the
/// verifier, and what was still to be presented, are gone either way.
pub proof fn law_a_recovery_is_confirmed_once(
    service: &mut ServiceCore,
    id: OperationId,
    index: int,
    confirmation: RecoverySecretInput,
    confirmed: Result<RecoverySecretInput, ServiceError>,
)
    requires
        call_ensures(ServiceCore::confirm_recovery, (service, id, confirmation), confirmed),
        terms::is_recorded(service@.transitions.records, id, index),
    ensures
        confirmed is Ok ==> confirmed->Ok_0@ == confirmation@,
        old(service)@.transitions.records[index].verifier is None ==> confirmed == Err::<
            RecoverySecretInput,
            ServiceError,
        >(ServiceError::StaleCapability),
        old(service)@.transitions.records[index].verifier is Some && confirmed is Err
            ==> confirmed->Err_0 == ServiceError::AuthenticationFailed,
        final(service)@.transitions.records[index].verifier is None,
        final(service)@.transitions.records[index].presentation is None,
{
    terms::lemma_record_found(service@.transitions.records, id, index);
}

/// A control that was told of a cancellation acknowledges it; any other leaves the
/// service as it is.
pub proof fn law_only_a_told_cancellation_retires(
    service: &mut ServiceCore,
    pending: crate::service::mailbox::PendingControl,
    retired: Option<OperationState>,
)
    requires
        call_ensures(ServiceCore::control_handled, (service, pending), retired),
    ensures
        !(pending.control is Cancel) ==> retired is None && final(service)@ == old(service)@,
{
}

/// A published generation is spent once, on a file of its workspace, and armed once.
pub proof fn law_a_generation_is_spent_once(
    pending: &mut PendingPublishedGeneration,
    lease: &WorkspaceLease,
    published: Result<PublishedGeneration, HostPortError>,
    armed: &mut PublishedGeneration,
    marked: Result<(), HostPortError>,
)
    requires
        call_ensures(PendingPublishedGeneration::spend, (pending, lease), published),
        call_ensures(PublishedGeneration::mark_armed, (armed,), marked),
    ensures
        published is Ok <==> !old(pending)@.spent && workspace::is_workspace_child(
            lease@,
            old(pending)@.path,
        ),
        published is Ok ==> final(pending)@.spent && published->Ok_0@.guarded
            && !published->Ok_0@.armed && published->Ok_0@.generation == old(pending)@.generation
            && published->Ok_0@.path == old(pending)@.path && published->Ok_0@.id == old(pending)@.id,
        published is Err ==> published->Err_0 == HostPortError::StaleCapability && final(pending)@
            == old(pending)@,
        marked is Ok <==> !old(armed)@.armed && old(armed)@.guarded,
        marked is Ok ==> final(armed)@.armed && !final(armed)@.guarded,
        marked is Err ==> marked->Err_0 == HostPortError::StaleCapability && final(armed)@ == old(armed)@,
{
}

/// A try to clean up begins where none is on its way, with all that owe cleanup; each
/// is tried once, those that were cleaned are forgotten, and the others stay owed.
pub proof fn law_cleanup_is_tried_once_each(
    begun_registry: &mut CleanupRegistry,
    begun: Result<CleanupRetry, HostPortError>,
    retry: CleanupRetry,
    tried_registry: &mut CleanupRegistry,
    id: ExportCleanupId,
    clean: bool,
    tried: CleanupRetry,
)
    requires
        call_ensures(CleanupRetry::begin, (begun_registry,), begun),
        call_ensures(CleanupRetry::retried, (retry, tried_registry, id, clean), tried),
    ensures
        old(begun_registry)@.retry_in_progress ==> begun == Err::<CleanupRetry, HostPortError>(
            HostPortError::LiveWorkspace,
        ),
        begun is Ok ==> final(begun_registry)@.retry_in_progress && begun->Ok_0@.rest
            == external_files::pending_of(old(begun_registry)@) && !begun->Ok_0@.failed
            && begun->Ok_0@.unexpected is None,
        begun is Err ==> final(begun_registry)@ == old(begun_registry)@,
        tried@.failed == (retry@.failed || !clean),
        tried@.rest == retry@.rest && tried@.unexpected == retry@.unexpected,
{
}

/// A rekey is asked for with a target that names something; the risk that is disclosed
/// is that of the current policy.
pub proof fn law_a_rekey_names_its_target(
    target: [u8; 16],
    request: Result<BeginCompromiseRekey, RepositoryPortError>,
    version: u16,
    disclosure: Result<OfflineGuessingRiskDisclosure, RepositoryPortError>,
)
    requires
        call_ensures(BeginCompromiseRekey::try_generated, (target,), request),
        call_ensures(OfflineGuessingRiskDisclosure::try_for_policy, (version,), disclosure),
    ensures
        request is Ok <==> requests::names_target(target),
        request is Ok ==> request->Ok_0@.target == target && request->Ok_0@.policy is Generated
            && request->Ok_0@.risk is None,
        request is Err ==> request->Err_0 == RepositoryPortError::InvalidInput,
        disclosure is Ok <==> version == 1,
        disclosure is Err ==> disclosure->Err_0 == RepositoryPortError::InvalidInput,
{
}

/// A creation begins for the vault of the session, in its generation and mode, without
/// a name or a path yet.
pub proof fn law_a_creation_begins_empty(
    session: &mut SessionManager,
    generation: u64,
    mode: WorkspaceMode,
    creation: Result<WorkspaceCreation, ServiceError>,
)
    requires
        call_ensures(SessionManager::begin_workspace, (session, generation, mode), creation),
    ensures
        creation is Ok ==> {
            let made = creation->Ok_0@;
            &&& made.generation == generation && made.mode == mode && made.id is None
            &&& Some(made.vault_id) == old(session)@.vault_id
            &&& made.paths.paths == Map::<Seq<char>, Seq<char>>::empty()
            &&& made.paths.collision_key_bytes == 0 && made.paths.maximum == 1_000_000
        },
        creation is Ok ==> old(session)@.data.state is Unlocked && old(session)@.data.epoch
            == generation,
{
}

/// What each failure says of itself.
pub proof fn law_a_failure_says_what_it_is(failure: ServiceError)
    ensures
        failure is Busy ==> error::error_message(failure)@ == "the service is busy"@,
        failure is Closed ==> error::error_message(failure)@ == "the service is closed"@,
        failure is Locked ==> error::error_message(failure)@ == "the service is locked"@,
        failure is Cancelled ==> error::error_message(failure)@ == "the operation was cancelled"@,
        failure is ExecutorFailed ==> error::error_message(failure)@
            == "the operation executor failed"@,
        failure is WorkerPanicked ==> error::error_message(failure)@
            == "the operation executor panicked"@,
        failure is EntropyUnavailable ==> error::error_message(failure)@
            == "the operating-system random source failed"@,
        failure is IdentifierExhausted ==> error::error_message(failure)@
            == "operation identity generation was exhausted"@,
        failure is InvalidConfiguration ==> error::error_message(failure)@
            == "the service configuration is invalid"@,
        failure is CapacityExceeded ==> error::error_message(failure)@
            == "the bounded service capacity was exceeded"@,
        failure is AllocationFailed ==> error::error_message(failure)@
            == "the bounded service allocation failed"@,
        failure is InvalidProgress ==> error::error_message(failure)@
            == "the operation progress is invalid"@,
        failure is EventSequenceExhausted ==> error::error_message(failure)@
            == "the operation event sequence was exhausted"@,
        failure is TimedOut ==> error::error_message(failure)@
            == "the bounded service wait timed out"@,
        failure is InvalidInput ==> error::error_message(failure)@ == "the request is invalid"@,
        failure is StaleCapability ==> error::error_message(failure)@ == "the capability is stale"@,
        failure is CleanupRequired ==> error::error_message(failure)@ == "cleanup is required"@,
        failure is DestinationExists ==> error::error_message(failure)@
            == "the destination already exists"@,
        failure is DurabilityPending ==> error::error_message(failure)@ == "durability is pending"@,
        failure is Unavailable ==> error::error_message(failure)@ == "the facility is unavailable"@,
        failure is AuthenticationFailed ==> error::error_message(failure)@
            == "authentication failed"@,
        failure is IntegrityFailed ==> error::error_message(failure)@
            == "stored data failed authentication"@,
        failure is ClockFailure ==> error::error_message(failure)@ == "the monotonic clock failed"@,
{
}

} // verus!
