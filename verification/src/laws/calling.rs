//! Laws of single calls: what each answers and leaves behind.
use vstd::prelude::*;

use crate::command::{EntryKind, SnapshotVersion};
use crate::error::ServiceError;
use crate::external_files;
use crate::external_files::{CleanupModel, ExportCleanupId, RetryModel};
use crate::laws::terms;
use crate::local_use_cases;
use crate::operation::{OperationId, OperationState};
use crate::ports::editor;
use crate::ports::paths;
use crate::ports::paths::{ComponentModel, LogicalPathModel, PathModel};
use crate::ports::workspace;
use crate::ports::HostPortError;
use crate::service::mailbox;
use crate::service::mailbox::{MailboxModel, PendingControl};
use crate::service::runtime::{CoreModel, ServiceCore};
use crate::service::scheduler;
use crate::service::scheduler::{LockJob, Scheduler};
use crate::service::worker::DeadlineStep;
use crate::session::data::RepositoryAnswer;
use crate::session::errors;
use crate::session::errors::{PortAnswer, RepositoryPortError};
use crate::session::manager;
use crate::session::manager::SessionManager;
use crate::session::repository;
use crate::session::repository::{LocalEntryId, LocalEntryKind, LocalEntryList};
use crate::session::requests;
use crate::session::requests::{RekeyStage, StoreVaultRepository, VaultSummary};
use crate::session::root::RootCapabilitySlot;
use crate::session::workspaces;
use crate::session::workspaces::{RecordModel, TableModel};
use crate::session::{SessionEvent, VaultId};
use crate::time::Duration;

verus! {

/// A security job begins exactly in a service that is not closed and carries none out;
/// nothing but that it is carried out changes.
pub proof fn law_one_security_job_at_a_time(
    service: &mut ServiceCore,
    begun: Result<(), ServiceError>,
)
    requires
        call_ensures(ServiceCore::begin_security_job, (service,), begun),
    ensures
        begun is Ok <==> !old(service)@.security_busy && !old(service)@.scheduler.closed,
        old(service)@.security_busy ==> begun == Err::<(), ServiceError>(ServiceError::Busy),
        !old(service)@.security_busy && old(service)@.scheduler.closed ==> begun == Err::<
            (),
            ServiceError,
        >(ServiceError::Closed),
        begun is Err ==> final(service)@ == old(service)@,
        begun is Ok ==> final(service)@ == (CoreModel { security_busy: true, ..old(service)@ }),
{
}

/// A cancellation that could not be sent shuts the service down.
pub proof fn law_a_cancellation_that_is_not_sent_shuts_down(service: &mut ServiceCore, sent: bool)
    requires
        call_ensures(ServiceCore::cancellation_dispatched, (service, sent), ()),
    ensures
        sent ==> final(service)@ == old(service)@,
        !sent ==> final(service)@.scheduler.closed && !final(service)@.scheduler.accepting
            && !final(service)@.scheduler.key_leases_open,
{
}

/// A new operation is bound to the generation that the session has unlocked, and
/// changes the vault where its command counts as activity.
pub proof fn law_a_new_operation_is_bound(
    service: &ServiceCore,
    id: OperationId,
    resets_inactivity: bool,
    state: OperationState,
)
    requires
        call_ensures(ServiceCore::new_operation, (service, id, resets_inactivity), Ok(state)),
    ensures
        state@.id == id && state@.mutating == resets_inactivity,
        service@.session is Some && service@.session->0.data.state is Unlocked
            ==> state@.session_generation == Some(service@.session->0.data.epoch),
        !(service@.session is Some && service@.session->0.data.state is Unlocked)
            ==> state@.session_generation is None,
        state@.events.lossless_capacity == service@.scheduler.config.event_capacity,
{
}

/// A service without a session has no deadline.
pub proof fn law_no_session_has_no_deadline(
    service: &mut ServiceCore,
    now: Duration,
    answer: Result<Option<Duration>, ServiceError>,
)
    requires
        call_ensures(ServiceCore::enforce_deadline_at, (service, now), answer),
    ensures
        old(service)@.session is None ==> answer == Ok::<Option<Duration>, ServiceError>(None)
            && final(service)@ == old(service)@,
{
}

/// The watch over the deadline stops with the service, and otherwise waits as long as
/// the deadline says, or until something changes.
pub proof fn law_a_deadline_is_waited_for(
    service: &ServiceCore,
    wait: Duration,
    error: ServiceError,
    timed: DeadlineStep,
    untimed: DeadlineStep,
    failed: DeadlineStep,
)
    requires
        call_ensures(ServiceCore::deadline_step, (service, Ok(Some(wait))), timed),
        call_ensures(ServiceCore::deadline_step, (service, Ok(None)), untimed),
        call_ensures(ServiceCore::deadline_step, (service, Err(error)), failed),
    ensures
        service@.scheduler.closed ==> timed is Stop && untimed is Stop && failed is Stop,
        !service@.scheduler.closed ==> timed == DeadlineStep::WaitFor(wait) && untimed is Wait
            && failed is Wait,
{
}

/// Only a failure that leaves cleanup to be done is latched.
pub proof fn law_only_required_cleanup_is_latched(service: &mut ServiceCore, error: ServiceError)
    requires
        call_ensures(ServiceCore::latch_failure, (service, error), ()),
        old(service)@.session is Some,
    ensures
        !(error is CleanupRequired) ==> final(service)@ == old(service)@,
        error is CleanupRequired ==> final(service)@.session is Some
            && final(service)@.session->0.data.cleanup_required,
{
}

/// An operation that waits is taken from the front of the queue, and one that is
/// added goes to its end, where the queue is open and has room.
pub proof fn law_the_queue_is_served_in_order(
    taken: &mut Scheduler,
    added: &mut Scheduler,
    id: OperationId,
    next: Option<OperationId>,
    enqueued: Result<(), ServiceError>,
)
    requires
        call_ensures(Scheduler::pop_queued, (taken,), next),
        call_ensures(Scheduler::enqueue_transition, (added, id), enqueued),
    ensures
        old(taken)@.queue.waiting.len() == 0 ==> next is None && final(taken)@ == old(taken)@,
        old(taken)@.queue.waiting.len() > 0 ==> next == Some(old(taken)@.queue.waiting[0])
            && final(taken)@.queue.waiting == old(taken)@.queue.waiting.subrange(
            1,
            old(taken)@.queue.waiting.len() as int,
        ) && final(taken)@.active == old(taken)@.active,
        enqueued is Ok <==> old(added)@.queue_open && old(added)@.queue.waiting.len() < old(
            added,
        )@.queue.room,
        !old(added)@.queue_open ==> enqueued == Err::<(), ServiceError>(ServiceError::Closed),
        old(added)@.queue_open && enqueued is Err ==> enqueued == Err::<(), ServiceError>(
            ServiceError::Busy,
        ),
        enqueued is Ok ==> final(added)@.queue.waiting == old(added)@.queue.waiting.push(id),
        enqueued is Err ==> final(added)@ == old(added)@,
{
}

/// A lock that waits is handed out to its generation, once.
pub proof fn law_a_lock_is_handed_out_once(
    scheduler: &mut Scheduler,
    generation: u64,
    job: Option<LockJob>,
)
    requires
        call_ensures(Scheduler::take_lock_job, (scheduler, generation), job),
    ensures
        old(scheduler)@.lock_job is Some && old(scheduler)@.lock_job->0.generation == generation
            ==> job == old(scheduler)@.lock_job && final(scheduler)@.lock_job is None,
        !(old(scheduler)@.lock_job is Some && old(scheduler)@.lock_job->0.generation
            == generation) ==> job is None && final(scheduler)@ == old(scheduler)@,
{
}

/// A transition is begun by its worker exactly where its execution waits; otherwise it
/// is stale.
pub proof fn law_an_execution_is_begun_or_stale(
    service: &mut ServiceCore,
    id: OperationId,
    place: int,
    begun: Result<(), ServiceError>,
)
    requires
        call_ensures(ServiceCore::begin_execution, (service, id), begun),
        terms::stands_at(service@.transitions.executions, id, place),
    ensures
        old(service)@.transitions.executions[place].lifecycle is Accepted ==> begun is Ok
            && final(service)@.transitions.executions[place].lifecycle is Running,
        !(old(service)@.transitions.executions[place].lifecycle is Accepted) ==> begun == Err::<
            (),
            ServiceError,
        >(ServiceError::StaleCapability) && final(service)@ == old(service)@,
{
    terms::lemma_execution_found(service@.transitions.executions, id, place);
}

/// A transition that waits is cancelled with its kind told; one that is carried out,
/// or is not there, is not.
pub proof fn law_a_cancelled_transition_tells_its_kind(
    service: &mut ServiceCore,
    id: OperationId,
    index: int,
    kind: Option<crate::service::transitions::TransitionKind>,
)
    requires
        call_ensures(ServiceCore::cancel_transition, (service, id), kind),
        terms::is_recorded(service@.transitions.records, id, index),
    ensures
        !old(service)@.transitions.records[index].consuming ==> kind == Some(
            old(service)@.transitions.records[index].kind,
        ) && final(service)@.transitions.records == old(service)@.transitions.records.remove(index),
        old(service)@.transitions.records[index].consuming ==> kind is None && final(service)@
            == old(service)@,
{
    terms::lemma_record_found(service@.transitions.records, id, index);
}

/// A status is bound to the vault of the session and to the generation of its
/// operation.
pub proof fn law_a_status_is_bound_to_vault_and_generation(
    core_state: CoreModel,
    id: OperationId,
    index: int,
)
    requires
        terms::stands_at(core_state.scheduler.active, id, index),
    ensures
        ({
            let binding = local_use_cases::status_binding(core_state, id);
            let generation = core_state.scheduler.active[index].session_generation;
            &&& binding is Ok <==> generation is Some && core_state.session is Some
                && core_state.session->0.vault_id is Some
            &&& binding is Ok ==> Some(binding->Ok_0.1) == generation && Some(binding->Ok_0.0)
                == core_state.session->0.vault_id
            &&& binding is Err ==> binding->Err_0 == ServiceError::Locked
        }),
{
    terms::lemma_found(core_state.scheduler.active, id, index);
}

/// Cleanup that is retried ends with success exactly where the listed workspaces, the
/// base and what lies outside are clean; otherwise it is still required.
pub proof fn law_a_retry_succeeds_where_all_is_clean(
    session: &mut SessionManager,
    listed: bool,
    base: bool,
    external: bool,
    finished: Result<(), ServiceError>,
)
    requires
        call_ensures(
            SessionManager::finish_retry_cleanup,
            (session, listed, base, external),
            finished,
        ),
    ensures
        finished is Ok <==> listed && base && external,
        finished is Err ==> finished->Err_0 == ServiceError::CleanupRequired,
        finished is Ok ==> final(session)@.data.state is Locked
            && !final(session)@.data.cleanup_required,
        finished is Err ==> final(session)@.data.state is CleanupRequired,
        !final(session)@.data.cleanup_owner,
        final(session)@.workspaces == old(session)@.workspaces,
{
}

/// The root of a session can be used exactly in the generation that it has unlocked.
pub proof fn law_a_root_is_used_in_its_generation(
    session: &SessionManager,
    generation: u64,
    checked: Result<(), ServiceError>,
)
    requires
        call_ensures(SessionManager::check_root, (session, generation), checked),
    ensures
        checked is Ok <==> session@.data.state is Unlocked && session@.data.epoch == generation
            && session@.data.unlocked is Some,
        checked is Err ==> checked->Err_0 == ServiceError::Locked,
{
}

/// A creation that was taken back reports why, and one that could not be, or could not
/// be unregistered, that cleanup is to be done.
pub proof fn law_what_cannot_be_taken_back_needs_cleanup(
    rolled: &mut SessionManager,
    removed: &mut SessionManager,
    error: ServiceError,
    done: bool,
    outcome: Result<(), ServiceError>,
    failure: ServiceError,
    finished: Result<(), ServiceError>,
)
    requires
        call_ensures(SessionManager::creation_rolled_back, (rolled, error, done), failure),
        call_ensures(SessionManager::workspace_unregistered, (removed, done, outcome), finished),
    ensures
        done ==> failure == error && finished == outcome,
        !done ==> failure == ServiceError::CleanupRequired && finished == Err::<(), ServiceError>(
            ServiceError::CleanupRequired,
        ) && final(rolled)@.data.cleanup_required && final(removed)@.data.cleanup_required,
{
}

/// The workspaces that are still listed are taken one after the other, the first that
/// is listed first; where none is listed, none is taken.
pub proof fn law_listed_workspaces_are_taken_in_order(
    session: &mut SessionManager,
    token: Option<u64>,
    index: int,
)
    requires
        call_ensures(SessionManager::take_tracked_workspace, (session,), token),
    ensures
        ({
            let records = old(session)@.workspaces.records;
            &&& 0 <= index < records.len() && records[index].listed && (forall|i: int|
                0 <= i < index ==> !(#[trigger] records[i]).listed) ==> token == Some(
                records[index].token,
            )
            &&& (forall|i: int| 0 <= i < records.len() ==> !(#[trigger] records[i]).listed)
                ==> token is None && final(session)@ == old(session)@
        }),
{
    let records = session@.workspaces.records;
    if 0 <= index < records.len() && records[index].listed && (forall|i: int|
        0 <= i < index ==> !(#[trigger] records[i]).listed) {
        assert(workspaces::first_listed_at(records, index));
        let chosen = choose|i: int| workspaces::first_listed_at(records, i);
        assert(workspaces::first_listed_at(records, chosen));
        if chosen < index {
            assert(!records[chosen].listed);
        }
        if index < chosen {
            assert(!records[index].listed);
        }
    }
}

/// A path of a tracked workspace is used where its registry takes it, and refused with
/// what the host would say otherwise.
pub proof fn law_a_path_is_used_in_its_workspace(
    table: TableModel,
    token: u64,
    index: int,
    path: LogicalPathModel,
)
    requires
        0 <= index < table.records.len(),
        table.records[index].token == token,
        forall|i: int|
            0 <= i < table.records.len() && i != index ==> (#[trigger] table.records[i]).token
                != token,
    ensures
        ({
            let inserted = paths::insert_answer(table.records[index].paths, path);
            let answer = workspaces::use_path_answer(table, token, path);
            &&& inserted is Ok <==> answer is Ok
            &&& inserted is Err ==> answer->Err_0 == errors::host_failure(inserted->Err_0)
            &&& workspaces::after_use_path(table, token, path) == (TableModel {
                records: table.records.update(
                    index,
                    RecordModel {
                        paths: paths::after_insert(table.records[index].paths, path),
                        ..table.records[index]
                    },
                ),
                ..table
            })
        }),
{
    assert(workspaces::stands_at(table.records, token, index));
    let chosen = choose|i: int| workspaces::stands_at(table.records, token, i);
    assert(workspaces::stands_at(table.records, token, chosen));
    if chosen != index {
        assert(table.records[chosen].token != token);
    }
}

/// What the repository answers an unlock is what the session is told: that it is
/// unlocked, its failure, or that it panicked.
pub proof fn law_an_unlock_is_told_what_the_repository_answered(error: RepositoryPortError)
    ensures
        manager::unlock_answer(PortAnswer::Returned(Ok(()))) is Unlocked,
        manager::unlock_answer(PortAnswer::Returned(Err(error))) == RepositoryAnswer::Failed(
            errors::repository_failure(error),
        ),
        manager::unlock_answer(PortAnswer::Panicked) is Panicked,
{
}

/// A call that panics is a failure of the executor; any other is what it returned.
pub proof fn law_a_panic_is_contained<T>(result: Result<T, ServiceError>)
    ensures
        errors::contained(PortAnswer::Returned(result)) == result,
        errors::contained::<T>(PortAnswer::Panicked) == Err::<T, ServiceError>(
            ServiceError::ExecutorFailed,
        ),
{
}

/// A view of the repository is whole where its root, its snapshot and its entries can
/// be read, and there are no more entries than asked for; the first of these that fails
/// is what fails.
pub proof fn law_a_view_is_whole(
    root: Result<LocalEntryId, RepositoryPortError>,
    snapshot: Result<SnapshotVersion, RepositoryPortError>,
    list: Result<LocalEntryList, RepositoryPortError>,
    max_entries: usize,
)
    ensures
        ({
            let failure = repository::view_failure(root, snapshot, list, max_entries);
            &&& failure is None <==> root is Ok && snapshot is Ok && list is Ok
                && list->Ok_0@.len() <= max_entries
            &&& root is Err ==> failure == Some(root->Err_0)
            &&& root is Ok && snapshot is Err ==> failure == Some(snapshot->Err_0)
            &&& root is Ok && snapshot is Ok && list is Err ==> failure == Some(list->Err_0)
            &&& root is Ok && snapshot is Ok && list is Ok && list->Ok_0@.len() > max_entries
                ==> failure == Some(RepositoryPortError::CapacityExceeded)
        }),
{
}

/// Files and directories are kinds that the repository takes; a tombstone is refused.
pub proof fn law_a_tombstone_is_no_kind_to_change(
    kind: EntryKind,
    local: Result<LocalEntryKind, ServiceError>,
)
    requires
        call_ensures(repository::local_kind, (kind,), local),
    ensures
        kind is Tombstone <==> local is Err,
        local is Err ==> local->Err_0 == ServiceError::InvalidInput,
        kind is File ==> local->Ok_0 is File,
        kind is Directory ==> local->Ok_0 is Directory,
{
}

/// A repository without a vault cannot be unlocked and can be initialized, once.
pub proof fn law_a_vault_is_initialized_once(
    store: &mut StoreVaultRepository,
    vault_id: VaultId,
    summary: Result<VaultSummary, RepositoryPortError>,
)
    requires
        call_ensures(StoreVaultRepository::initialized, (store, vault_id), summary),
    ensures
        summary is Ok <==> old(store)@ is None,
        summary is Ok ==> summary->Ok_0@ == vault_id && final(store)@ == Some(vault_id),
        summary is Err ==> summary->Err_0 == RepositoryPortError::CleanupRequired && final(store)@
            == old(store)@,
{
}

/// Only a repository that has a vault can be unlocked.
pub proof fn law_only_a_vault_can_be_unlocked(
    store: &StoreVaultRepository,
    checked: Result<(), RepositoryPortError>,
)
    requires
        call_ensures(StoreVaultRepository::check_unlock, (store,), checked),
    ensures
        checked is Ok <==> store@ is Some,
        checked is Err ==> checked->Err_0 == RepositoryPortError::NotFound,
{
}

/// A rekey begins exactly where it was not cancelled and its source is there.
pub proof fn law_a_rekey_needs_its_source(
    cancelled: bool,
    has_source: bool,
    begun: Result<RekeyStage, RepositoryPortError>,
)
    requires
        call_ensures(requests::begin_rekey, (cancelled, has_source), begun),
    ensures
        begun is Ok <==> !cancelled && has_source,
        begun is Ok ==> begun->Ok_0 is Opening,
        cancelled ==> begun == Err::<RekeyStage, RepositoryPortError>(
            RepositoryPortError::Cancelled,
        ),
        !cancelled && !has_source ==> begun == Err::<RekeyStage, RepositoryPortError>(
            RepositoryPortError::Locked,
        ),
{
}

/// A root is closed once: what was there is gone, and what is not there is locked.
pub proof fn law_a_root_is_closed_once(
    slot: &mut RootCapabilitySlot,
    taken: Result<(), RepositoryPortError>,
)
    requires
        call_ensures(RootCapabilitySlot::close, (slot,), taken),
    ensures
        taken is Ok <==> old(slot)@.present,
        taken is Err ==> taken->Err_0 == RepositoryPortError::Locked,
        !final(slot)@.present && final(slot)@.accepting == old(slot)@.accepting,
{
}

/// An unlock keeps only what was noted for its generation.
pub proof fn law_an_unlock_keeps_what_is_of_its_generation(
    mailbox: MailboxModel,
    generation: u64,
    pending: PendingControl,
)
    ensures
        ({
            let after = mailbox::after_reset(mailbox, generation);
            &&& after.pending.contains(pending) <==> mailbox.pending.contains(pending)
                && pending.generation == generation
            &&& after.capacity == mailbox.capacity
            &&& after.global_control is None && after.global_notified is None
            &&& after.trusted_activity_pending is None && after.trusted_activity_dispatched is None
            &&& after.untrusted_activity_pending is None
        }),
{
    let keep = |control: PendingControl| control.generation == generation;
    if mailbox.pending.filter(keep).contains(pending) {
        mailbox.pending.lemma_filter_contains_rev(keep, pending);
    }
}

/// The first event of a generation is the next that it is shown, and is shown once;
/// what was noted before it for other generations is gone with it.
pub proof fn law_the_first_event_of_a_generation_is_next(
    events: Seq<(u64, SessionEvent)>,
    generation: u64,
    place: int,
)
    requires
        0 <= place < events.len(),
        events[place].0 == generation,
        forall|i: int| 0 <= i < place ==> (#[trigger] events[i]).0 != generation,
    ensures
        scheduler::next_event(events, generation) == Some(events[place].1),
        scheduler::after_next_event(events, generation) == events.subrange(
            place + 1,
            events.len() as int,
        ),
    decreases events.len(),
{
    if place > 0 {
        assert(events[0].0 != generation);
        let rest = events.drop_first();
        assert forall|i: int| 0 <= i < place - 1 implies (#[trigger] rest[i]).0 != generation by {
            assert(events[i + 1].0 != generation);
        }
        law_the_first_event_of_a_generation_is_next(rest, generation, place - 1);
        assert(rest.subrange(place, rest.len() as int) =~= events.subrange(
            place + 1,
            events.len() as int,
        ));
    } else {
        assert(events.drop_first() =~= events.subrange(1, events.len() as int));
    }
}

/// A new event of the session is noted last; the oldest makes room where there is none.
pub proof fn law_the_newest_events_are_kept(
    events: Seq<(u64, SessionEvent)>,
    generation: u64,
    event: SessionEvent,
)
    ensures
        ({
            let after = scheduler::with_event(events, generation, event);
            &&& after.len() > 0 && after.last() == (generation, event)
            &&& events.len() < 32 ==> after == events.push((generation, event))
            &&& events.len() >= 32 ==> after == events.subrange(1, events.len() as int).push(
                (generation, event),
            )
        }),
{
    assert(events.drop_first() =~= events.subrange(1, events.len() as int));
}

proof fn lemma_pending(registry: CleanupModel, count: nat, id: ExportCleanupId)
    requires
        count <= registry.entries.len(),
    ensures
        external_files::pending_among(registry.entries, count).contains(id) <==> exists|i: int|
            0 <= i < count && (#[trigger] registry.entries[i]).id == id
                && registry.entries[i].state is Pending,
    decreases count,
{
    if count > 0 {
        lemma_pending(registry, (count - 1) as nat, id);
        let before = external_files::pending_among(registry.entries, (count - 1) as nat);
        let all = external_files::pending_among(registry.entries, count);
        let last = registry.entries[count - 1];
        if last.state is Pending {
            assert(all == before.push(last.id));
            assert(all[all.len() - 1] == last.id);
            if before.contains(id) {
                let k = choose|k: int| 0 <= k < before.len() && before[k] == id;
                assert(all[k] == id);
            }
            if all.contains(id) && id != last.id {
                let k = choose|k: int| 0 <= k < all.len() && all[k] == id;
                assert(before[k] == id);
            }
        }
    }
}

/// The exports that owe cleanup are exactly those that are pending.
pub proof fn law_pending_exports_owe_cleanup(registry: CleanupModel, id: ExportCleanupId)
    ensures
        external_files::pending_of(registry).contains(id) <==> exists|i: int|
            0 <= i < registry.entries.len() && (#[trigger] registry.entries[i]).id == id
                && registry.entries[i].state is Pending,
{
    lemma_pending(registry, registry.entries.len(), id);
}

/// A try to clean up answers what came unexpectedly, or that it failed where one of the
/// exports could not be cleaned, and success otherwise.
pub proof fn law_a_try_to_clean_up_answers_for_all(retry: RetryModel)
    ensures
        external_files::retry_answer(retry) is Ok <==> retry.unexpected is None && !retry.failed,
        retry.unexpected is Some ==> external_files::retry_answer(retry) == Err::<
            (),
            HostPortError,
        >(retry.unexpected->0),
        retry.unexpected is None && retry.failed ==> external_files::retry_answer(retry) == Err::<
            (),
            HostPortError,
        >(HostPortError::CleanupFailed),
{
}

/// The root of a workspace is a plain absolute path whose last part is the name of the
/// workspace.
pub proof fn law_a_workspace_root_bears_its_name(id: [u8; 16], root: PathModel)
    ensures
        workspace::is_workspace_root(id, root) ==> paths::is_valid_absolute(root)
            && root.components.len() > 0 && root.components[root.components.len() - 1]
            == ComponentModel::Normal(vstd::utf8::encode_utf8(workspace::hex_text(id@))),
        paths::is_valid_absolute(root) && root.components.len() > 0
            && root.components[root.components.len() - 1] == ComponentModel::Normal(
            vstd::utf8::encode_utf8(workspace::hex_text(id@)),
        ) ==> workspace::is_workspace_root(id, root),
{
}

/// An argument with a zero byte is invalid, and one that is only too long exceeds the
/// capacity.
pub proof fn law_a_bad_argument_says_why(argument: Seq<u8>)
    ensures
        (exists|i: int| 0 <= i < argument.len() && #[trigger] argument[i] == 0)
            ==> editor::argument_failure(argument) == Some(HostPortError::InvalidInput),
        (forall|i: int| 0 <= i < argument.len() ==> #[trigger] argument[i] != 0) && argument.len()
            > 4096 ==> editor::argument_failure(argument) == Some(HostPortError::CapacityExceeded),
        (forall|i: int| 0 <= i < argument.len() ==> #[trigger] argument[i] != 0) && argument.len()
            <= 4096 ==> editor::argument_failure(argument) is None,
{
}

} // verus!
