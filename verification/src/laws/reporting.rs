//! Laws of how failures and results are reported from one side of the service to the
//! other.
use vstd::prelude::*;

use crate::command::{DeleteParts, EntryId, OperationResult, RelocateParts};
use crate::error::ServiceError;
use crate::event;
use crate::event::{Progress, ProgressUnit};
use crate::external_files;
use crate::external_files::{
    CleanupEntry, CleanupModel, CleanupRegistry, CleanupState, ExportCleanupId, ExportStep,
    PlatformErrorKind, PlatformExportTransaction,
};
use crate::laws::announcing;
use crate::laws::terms;
use crate::local_use_cases;
use crate::local_use_cases::{Answer, ByteCounter, Commitment};
use crate::operation::OperationId;
use crate::ports::{HostPortError, NameError};
use crate::secret::SecretText;
use crate::service::scheduler::SchedulerModel;
use crate::session::errors;
use crate::session::errors::{PortAnswer, RepositoryPortError, StoreFailure};
use crate::session::repository::LocalAuthenticatedStatus;
use crate::session::VaultId;

verus! {

/// A failure of the repository keeps its meaning for the service: each error of the
/// service stands for exactly these errors of the repository.
pub proof fn law_a_repository_failure_keeps_its_meaning(error: RepositoryPortError)
    ensures
        ({
            let reported = errors::repository_failure(error);
            &&& reported is AuthenticationFailed <==> error is WrongSecret
            &&& reported is Cancelled <==> error is Cancelled
            &&& reported is Locked <==> error is Locked
            &&& reported is Busy <==> error is Busy
            &&& reported is CapacityExceeded <==> error is CapacityExceeded
            &&& reported is AllocationFailed <==> error is AllocationFailed
            &&& reported is TimedOut <==> error is TimedOut
            &&& reported is IntegrityFailed <==> error is IntegrityFailed
            &&& reported is InvalidInput <==> error is InvalidInput
            &&& reported is EntropyUnavailable <==> error is EntropyUnavailable
            &&& reported is IdentifierExhausted <==> error is IdentifierExhausted
            &&& reported is StaleCapability <==> error is StaleCapability
            &&& reported is ExecutorFailed <==> error is PlatformFailure
            &&& reported is CleanupRequired <==> error is CleanupRequired
                || error is DurabilityPending
            &&& reported is Unavailable <==> error is NotFound || error is Unavailable
        }),
{
}

/// A failure of the store keeps its meaning for the repository. When it is unlocked,
/// and only then, a failed authentication means that the secret was wrong.
pub proof fn law_a_store_failure_keeps_its_meaning(error: StoreFailure)
    ensures
        ({
            let reported = errors::store_failure(error);
            let unlocking = errors::unlock_failure(error);
            let unauthentic = error is AuthenticationFailed
                || error is LocalStateAuthenticationFailed;
            &&& reported is IntegrityFailed <==> unauthentic || error is MalformedObject
            &&& reported is StaleCapability <==> error is RollbackDetected
                || error is InvalidCapability
            &&& reported is Cancelled <==> error is Cancelled
            &&& reported is Locked <==> error is Locked
            &&& reported is Busy <==> error is Busy
            &&& reported is CapacityExceeded <==> error is LimitExceeded
            &&& reported is AllocationFailed <==> error is AllocationFailed
            &&& reported is CleanupRequired <==> error is CleanupAfterFailure
            &&& reported is TimedOut <==> error is TimedOut
            &&& reported is DurabilityPending <==> error is DurabilityPending
            &&& reported is NotFound <==> error is NotFound
            &&& reported is EntropyUnavailable <==> error is RandomSource
            &&& reported is IdentifierExhausted <==> error is IdentityCollision
                || error is SessionGenerationExhausted
            &&& reported is InvalidInput <==> error is FilesystemObjectRejected
                || error is ImmutableObjectConflict || error is InvalidInput
            &&& reported is PlatformFailure <==> error is Io || error is Other
            &&& unlocking is WrongSecret <==> unauthentic
            &&& !unauthentic ==> unlocking == reported
        }),
{
}

/// A failure of the host keeps its meaning for the service, where it works for a
/// session.
pub proof fn law_a_host_failure_keeps_its_meaning(error: HostPortError)
    ensures
        ({
            let reported = errors::host_failure(error);
            &&& reported is Cancelled <==> error is Cancelled
            &&& reported is CapacityExceeded <==> error is CapacityExceeded
            &&& reported is AllocationFailed <==> error is AllocationFailed
            &&& reported is Busy <==> error is LiveWorkspace
            &&& reported is CleanupRequired <==> error is CleanupFailed
            &&& reported is DestinationExists <==> error is DestinationExists
            &&& reported is StaleCapability <==> error is StaleCapability
            &&& reported is DurabilityPending <==> error is DurabilityPending
            &&& reported is InvalidConfiguration <==> error is InvalidInput
            &&& reported is ExecutorFailed <==> error is Unavailable || error is Denied
                || error is DetachedEditor || error is Permission || error is PlatformFailure
        }),
{
}

/// A failure of the host keeps its meaning for the service, where it imports or
/// exports, and both ways of asking for it agree.
pub proof fn law_a_failure_at_an_external_file_keeps_its_meaning(error: HostPortError)
    ensures
        ({
            let reported = local_use_cases::external_failure(error);
            &&& errors::external_host_failure(error) == reported
            &&& reported is Cancelled <==> error is Cancelled
            &&& reported is CapacityExceeded <==> error is CapacityExceeded
            &&& reported is AllocationFailed <==> error is AllocationFailed
            &&& reported is DestinationExists <==> error is DestinationExists
            &&& reported is StaleCapability <==> error is StaleCapability
            &&& reported is DurabilityPending <==> error is DurabilityPending
            &&& reported is CleanupRequired <==> error is CleanupFailed
            &&& reported is Unavailable <==> error is Unavailable
            &&& reported is InvalidInput <==> error is InvalidInput || error is Denied
                || error is Permission
            &&& reported is Busy <==> error is LiveWorkspace
            &&& reported is ExecutorFailed <==> error is DetachedEditor
                || error is PlatformFailure
        }),
{
}

/// What stops a publication to the store keeps its meaning on the way there and back:
/// a failure that both sides can name comes out as it went in.
pub proof fn law_a_stopped_publication_keeps_its_meaning(
    error: ServiceError,
    refused: RepositoryPortError,
    host: HostPortError,
    name: NameError,
)
    ensures
        ({
            let reported = local_use_cases::publication_failure(error);
            &&& reported is Cancelled <==> error is Cancelled
            &&& reported is Locked <==> error is Locked || error is StaleCapability
            &&& reported is Busy <==> error is Busy
            &&& reported is CapacityExceeded <==> error is CapacityExceeded
            &&& reported is AllocationFailed <==> error is AllocationFailed
            &&& reported is TimedOut <==> error is TimedOut
            &&& error is Cancelled || error is Locked || error is Busy || error is CapacityExceeded
                || error is AllocationFailed || error is TimedOut ==> errors::repository_failure(
                reported,
            ) == error
            &&& !(error is Cancelled || error is Locked || error is StaleCapability || error is Busy
                || error is CapacityExceeded || error is AllocationFailed || error is TimedOut)
                ==> reported is PlatformFailure
        }),
        refused is AllocationFailed || refused is CapacityExceeded || refused is Cancelled
            || refused is Locked || refused is Busy || refused is TimedOut
            || refused is PlatformFailure ==> errors::store_failure(
            errors::publication_guard_failure(refused),
        ) == refused,
        !(refused is AllocationFailed || refused is CapacityExceeded || refused is Cancelled
            || refused is Locked || refused is Busy || refused is TimedOut
            || refused is PlatformFailure) ==> errors::publication_guard_failure(
            refused,
        ) is InvalidCapability,
        host is AllocationFailed <==> errors::workspace_id_failure(host) is AllocationFailed,
        host is CapacityExceeded <==> errors::workspace_id_failure(host) is LimitExceeded,
        !(host is AllocationFailed || host is CapacityExceeded) ==> errors::workspace_id_failure(
            host,
        ) is InvalidCapability,
        host is AllocationFailed <==> errors::host_repository_failure(host) is AllocationFailed,
        host is CapacityExceeded <==> errors::host_repository_failure(host) is CapacityExceeded,
        !(host is AllocationFailed || host is CapacityExceeded) ==> errors::host_repository_failure(
            host,
        ) is InvalidInput,
        name is AllocationFailed <==> errors::name_failure(name) is AllocationFailed,
        name is CapacityExceeded <==> errors::name_failure(name) is CapacityExceeded,
        name is Invalid <==> errors::name_failure(name) is InvalidInput,
{
}

/// A check before a publication asks the source first, where there is one: a source
/// that panics is a failure of the platform, and one that refuses is what the check
/// answers. Then an operation that may go on passes, and any other is cancelled.
pub proof fn law_a_publication_is_checked_last(
    scheduler: SchedulerModel,
    id: OperationId,
    index: int,
    external: Option<PortAnswer<Result<(), RepositoryPortError>>>,
)
    requires
        terms::stands_at(scheduler.active, id, index),
    ensures
        ({
            let answer = local_use_cases::guard_answer(scheduler, id, external);
            let silent = external is None || external == Some(
                PortAnswer::Returned(Ok::<(), RepositoryPortError>(())),
            );
            &&& silent && terms::may_go_on(scheduler, index) ==> answer == Ok::<
                (),
                RepositoryPortError,
            >(())
            &&& silent && !terms::may_go_on(scheduler, index) ==> answer == Err::<
                (),
                RepositoryPortError,
            >(RepositoryPortError::Cancelled)
            &&& external is Some && external->0 is Panicked ==> answer == Err::<
                (),
                RepositoryPortError,
            >(RepositoryPortError::PlatformFailure)
            &&& external is Some && external->0 is Returned && external->0->Returned_0 is Err
                ==> answer == external->0->Returned_0
        }),
{
    announcing::law_a_boundary_is_passed_by_what_may_go_on(scheduler, id, index);
}

/// What the host answers an export: nothing where it succeeded, its error where it
/// refused; a panic when it flushes is a failure of the executor, and one when it
/// publishes or gives up leaves cleanup to be done.
pub proof fn law_a_host_answers_an_export(
    error: HostPortError,
    flushed: Result<Answer, ServiceError>,
    settled: Result<Answer, ServiceError>,
)
    ensures
        call_ensures(
            local_use_cases::flush_answer,
            (PortAnswer::Returned(Ok::<(), HostPortError>(())),),
            flushed,
        ) ==> flushed == Ok::<Answer, ServiceError>(Answer::Nothing),
        call_ensures(
            local_use_cases::settle_answer,
            (PortAnswer::Returned(Ok::<(), HostPortError>(())),),
            settled,
        ) ==> settled == Ok::<Answer, ServiceError>(Answer::Nothing),
        call_ensures(
            local_use_cases::flush_answer,
            (PortAnswer::Returned(Err::<(), HostPortError>(error)),),
            flushed,
        ) ==> flushed == Err::<Answer, ServiceError>(local_use_cases::external_failure(error)),
        call_ensures(
            local_use_cases::settle_answer,
            (PortAnswer::Returned(Err::<(), HostPortError>(error)),),
            settled,
        ) ==> settled == Err::<Answer, ServiceError>(local_use_cases::external_failure(error)),
        call_ensures(local_use_cases::flush_answer, (PortAnswer::Panicked,), flushed) ==> flushed
            == Err::<Answer, ServiceError>(ServiceError::ExecutorFailed),
        call_ensures(local_use_cases::settle_answer, (PortAnswer::Panicked,), settled) ==> settled
            == Err::<Answer, ServiceError>(ServiceError::CleanupRequired),
{
}

/// What was done under a lease counts before the end of the lease: the outcome is a
/// success exactly where both succeeded, and then it is the result. For a stable
/// revision the end of the lease counts first.
pub proof fn law_a_lease_reports_what_was_done_under_it<T>(
    result: Result<T, ServiceError>,
    finished: Result<(), RepositoryPortError>,
    outcome: Result<T, ServiceError>,
    stable: Result<T, ServiceError>,
)
    requires
        call_ensures(local_use_cases::finish_repository_lease::<T>, (result, finished), outcome),
        call_ensures(local_use_cases::finish_stable_commit::<T>, (result, finished), stable),
    ensures
        outcome is Ok <==> result is Ok && finished is Ok,
        stable is Ok <==> result is Ok && finished is Ok,
        outcome is Ok ==> outcome == result && stable == result,
        result is Err ==> outcome == result,
        finished is Ok ==> stable == result,
        finished is Err ==> stable == Err::<T, ServiceError>(
            errors::repository_failure(finished->Err_0),
        ),
        result is Ok && finished is Err ==> outcome == stable,
{
}

/// A status reports the vault and the generation that it was asked for, with what the
/// repository shows of them; where the repository fails, its failure.
pub proof fn law_a_status_reports_its_vault(
    vault_id: VaultId,
    generation: u64,
    status: Result<LocalAuthenticatedStatus, RepositoryPortError>,
    result: Result<OperationResult, ServiceError>,
)
    requires
        call_ensures(local_use_cases::status_result, (vault_id, generation, status), result),
    ensures
        status is Ok <==> result is Ok,
        status is Err ==> result->Err_0 == errors::repository_failure(status->Err_0),
        result is Ok ==> result->Ok_0 is Status && {
            let shown = result->Ok_0->Status_0@;
            &&& shown.vault_id == vault_id && shown.generation == generation
            &&& shown.root_entry_id == status->Ok_0@.root
            &&& shown.snapshot_id == status->Ok_0@.snapshot
            &&& shown.entry_count == status->Ok_0@.entry_count
        },
{
}

/// A change reports the entry and the snapshot that it was committed as: a directory
/// without a revision, and a file with the one that it was committed with.
pub proof fn law_a_creation_reports_what_was_made(
    parent: EntryId,
    name: SecretText,
    committed: Commitment,
    directory: OperationResult,
    file: OperationResult,
)
    requires
        call_ensures(local_use_cases::created_directory, (parent, name, committed), directory),
        call_ensures(local_use_cases::created_file, (parent, name, committed), file),
    ensures
        directory is EntryChanged && file is EntryChanged,
        directory->EntryChanged_0@.kind is Directory && file->EntryChanged_0@.kind is File,
        directory->EntryChanged_0@.revision is None,
        file->EntryChanged_0@.revision == committed.revision,
        directory->EntryChanged_0@.entry_id == committed.entry,
        file->EntryChanged_0@.entry_id == committed.entry,
        directory->EntryChanged_0@.parent_id == parent && file->EntryChanged_0@.parent_id == parent,
        directory->EntryChanged_0@.snapshot == committed.snapshot,
        file->EntryChanged_0@.snapshot == committed.snapshot,
        directory->EntryChanged_0@.name == name@ && file->EntryChanged_0@.name == name@,
{
}

/// A relocation reports its entry under its new parent and its new name, of the kind
/// and the revision that it had; a deletion reports its entry where it was, as a
/// tombstone. Both report the snapshot that was committed.
pub proof fn law_a_relocation_reports_the_new_place(
    moved: RelocateParts,
    gone: DeleteParts,
    committed: Commitment,
    relocated: OperationResult,
    deleted: OperationResult,
)
    requires
        call_ensures(local_use_cases::relocated, (moved, committed), relocated),
        call_ensures(local_use_cases::deleted, (gone, committed), deleted),
    ensures
        relocated is EntryChanged && deleted is EntryChanged,
        relocated->EntryChanged_0@.entry_id == moved.entry,
        relocated->EntryChanged_0@.parent_id == moved.new_parent,
        relocated->EntryChanged_0@.name == moved.new_name@,
        relocated->EntryChanged_0@.kind == moved.expected_kind,
        relocated->EntryChanged_0@.revision == moved.expected_revision,
        relocated->EntryChanged_0@.snapshot == committed.snapshot,
        deleted->EntryChanged_0@.entry_id == gone.entry,
        deleted->EntryChanged_0@.parent_id == gone.expected_parent,
        deleted->EntryChanged_0@.name == gone.expected_name@,
        deleted->EntryChanged_0@.kind is Tombstone,
        deleted->EntryChanged_0@.revision is None,
        deleted->EntryChanged_0@.snapshot == committed.snapshot,
{
}

/// Bytes that are counted add up, and their progress says so, in bytes and without a
/// total; a count that does not fit is not taken.
pub proof fn law_counted_bytes_add_up(
    counter: &mut ByteCounter,
    bytes: u64,
    progress: Option<Progress>,
)
    requires
        call_ensures(ByteCounter::count, (counter, bytes), progress),
    ensures
        old(counter)@ + bytes <= u64::MAX ==> final(counter)@ == old(counter)@ + bytes
            && progress is Some && progress->0@.unit is Bytes && progress->0@.completed
            == old(counter)@ + bytes && progress->0@.total is None,
        old(counter)@ + bytes > u64::MAX ==> final(counter)@ == old(counter)@ && progress is None,
{
    event::lemma_progress_of(ProgressUnit::Bytes, final(counter)@, None);
}

/// A failure of the platform keeps its meaning for the host and for the repository; an
/// imported source that changed is stale.
pub proof fn law_a_platform_failure_keeps_its_meaning(
    kind: PlatformErrorKind,
    validated: RepositoryPortError,
)
    requires
        call_ensures(external_files::map_import_validation, (kind,), validated),
    ensures
        ({
            let host = external_files::platform_failure(kind);
            let repository = external_files::platform_repository_failure(kind);
            &&& host is InvalidInput <==> kind is InvalidInput || kind is InvalidData
            &&& host is Denied <==> kind is PermissionDenied
            &&& host is AllocationFailed <==> kind is OutOfMemory
            &&& host is Unavailable <==> kind is NotFound || kind is Unsupported
            &&& host is PlatformFailure <==> kind is AlreadyExists || kind is Other
            &&& repository is InvalidInput <==> kind is InvalidInput || kind is InvalidData
            &&& repository is AllocationFailed <==> kind is OutOfMemory
            &&& repository is Unavailable <==> kind is NotFound || kind is Unsupported
            &&& repository is PlatformFailure <==> kind is AlreadyExists || kind is Other
                || kind is PermissionDenied
            &&& kind is InvalidData ==> validated is StaleCapability
            &&& !(kind is InvalidData) ==> validated == repository
        }),
{
}

/// An export that cannot begin says why, and is forgotten; where it owes cleanup, that
/// is what it says, and the cleanup stays owed.
pub proof fn law_an_export_that_cannot_begin_says_why(
    registry: &mut CleanupRegistry,
    id: ExportCleanupId,
    kind: PlatformErrorKind,
    owes_cleanup: bool,
    mapped: HostPortError,
)
    requires
        call_ensures(
            external_files::retain_and_map_export_begin_error,
            (registry, id, kind, owes_cleanup),
            mapped,
        ),
    ensures
        mapped is CleanupFailed <==> owes_cleanup,
        !owes_cleanup ==> {
            &&& mapped is DestinationExists <==> kind is AlreadyExists
            &&& mapped is StaleCapability <==> kind is InvalidData
            &&& mapped is InvalidInput <==> kind is InvalidInput
            &&& mapped is Denied <==> kind is PermissionDenied
            &&& mapped is AllocationFailed <==> kind is OutOfMemory
            &&& mapped is Unavailable <==> kind is NotFound || kind is Unsupported
            &&& mapped is PlatformFailure <==> kind is Other
        },
{
}

/// A publication that may have had an effect is not known to be durable; one that had
/// none says why.
pub proof fn law_a_publication_that_may_have_happened_is_pending(
    may_be_published: bool,
    kind: PlatformErrorKind,
    mapped: HostPortError,
)
    requires
        call_ensures(
            external_files::map_export_publish_attempt,
            (may_be_published, kind),
            mapped,
        ),
    ensures
        mapped is DurabilityPending <==> may_be_published,
        !may_be_published ==> {
            &&& mapped is DestinationExists <==> kind is AlreadyExists
            &&& mapped is StaleCapability <==> kind is InvalidData
            &&& mapped is PlatformFailure <==> !(kind is AlreadyExists) && !(kind is InvalidData)
        },
{
}

/// An export is tracked at a place under its identity, and at no other.
pub open spec fn is_tracked_at(entries: Seq<CleanupEntry>, id: ExportCleanupId, index: int) -> bool {
    &&& 0 <= index < entries.len()
    &&& entries[index].id == id
    &&& forall|i: int| 0 <= i < entries.len() && i != index ==> (#[trigger] entries[i]).id != id
}

proof fn lemma_tracked(entries: Seq<CleanupEntry>, id: ExportCleanupId, index: int)
    requires
        is_tracked_at(entries, id, index),
    ensures
        external_files::place_of(entries, id) == Some(index),
{
    assert(external_files::entry_at(entries, id, index));
    let chosen = choose|i: int| external_files::entry_at(entries, id, i);
    assert(external_files::entry_at(entries, id, chosen));
    if chosen != index {
        assert(entries[chosen].id != id);
    }
}

/// A tracked export that ends is tracked no longer; every other keeps its state. One
/// that keeps owing cleanup is pending. What is not tracked is stale.
pub proof fn law_a_tracked_export_ends(
    registry: CleanupModel,
    id: ExportCleanupId,
    index: int,
    other: CleanupEntry,
    state: CleanupState,
)
    requires
        is_tracked_at(registry.entries, id, index),
    ensures
        ({
            let after = external_files::after_finish(registry, id);
            let kept = external_files::with_state(registry, id, state);
            &&& external_files::finish_answer(registry, id) is Ok
            &&& after.entries.len() == registry.entries.len() - 1
            &&& after == (CleanupModel { entries: after.entries, ..registry })
            &&& other.id != id && registry.entries.contains(other) ==> after.entries.contains(other)
            &&& kept == (CleanupModel {
                entries: registry.entries.update(index, CleanupEntry { id, state }),
                ..registry
            })
            &&& external_files::is_pending(registry, id) <==> registry.entries[index].state is Pending
        }),
{
    lemma_tracked(registry.entries, id, index);
    let after = external_files::after_finish(registry, id);
    if other.id != id && registry.entries.contains(other) {
        let place = choose|i: int|
            0 <= i < registry.entries.len() && registry.entries[i] == other;
        if place == registry.entries.len() - 1 {
            assert(after.entries[index] == other);
        } else {
            assert(after.entries[place] == other);
        }
    }
}

/// An export is tracked under the next identity, as being written, where there is room
/// for it; without room, or without identities, the capacity is exceeded, and without
/// memory the allocation failed.
pub proof fn law_an_export_is_tracked_where_there_is_room(registry: CleanupModel, granted: bool)
    ensures
        ({
            let answer = external_files::reserve_answer(registry, granted);
            let after = external_files::after_reserve(registry);
            let room = registry.entries.len() != external_files::MAX_TRACKED_EXPORTS;
            &&& answer is Ok <==> room && granted && registry.next_id < u64::MAX
            &&& answer is Ok ==> answer->Ok_0 == ExportCleanupId(registry.next_id) && after == (
            CleanupModel {
                next_id: (registry.next_id + 1) as u64,
                entries: registry.entries.push(
                    CleanupEntry {
                        id: ExportCleanupId(registry.next_id),
                        state: CleanupState::InFlight,
                    },
                ),
                ..registry
            })
            &&& room && !granted ==> answer == Err::<ExportCleanupId, HostPortError>(
                HostPortError::AllocationFailed,
            )
            &&& !room || (granted && registry.next_id == u64::MAX) ==> answer == Err::<
                ExportCleanupId,
                HostPortError,
            >(HostPortError::CapacityExceeded)
        }),
{
}

/// A publication at the host that succeeded ends its export, which is open no longer;
/// one that failed, or was not authorised, gives it up for that reason and leaves it
/// open.
pub proof fn law_a_published_export_is_over(
    export: &mut PlatformExportTransaction,
    registry: &mut CleanupRegistry,
    attempt_failure: Option<HostPortError>,
    authorized: Result<(), HostPortError>,
    step: ExportStep,
    index: int,
)
    requires
        call_ensures(
            PlatformExportTransaction::published,
            (export, registry, attempt_failure, authorized),
            step,
        ),
        is_tracked_at(registry@.entries, export@.0, index),
    ensures
        final(export)@.0 == old(export)@.0,
        attempt_failure is None && authorized is Ok ==> {
            &&& step == ExportStep::Ended(Ok(()))
            &&& !final(export)@.1
            &&& final(registry)@.entries.len() == old(registry)@.entries.len() - 1
        },
        attempt_failure is Some ==> step == ExportStep::Abort(attempt_failure->0),
        attempt_failure is None && authorized is Err ==> step == ExportStep::Abort(
            authorized->Err_0,
        ),
        attempt_failure is Some || authorized is Err ==> final(export)@ == old(export)@
            && final(registry)@ == old(registry)@,
{
    lemma_tracked(registry@.entries, export@.0, index);
}

/// An open export that is given up is over: forgotten where nothing is left of it, and
/// owing cleanup otherwise. One that was over before is stale.
pub proof fn law_a_given_up_export_is_over(
    export: &mut PlatformExportTransaction,
    registry: &mut CleanupRegistry,
    clean: bool,
    answer: Result<(), HostPortError>,
    index: int,
)
    requires
        call_ensures(PlatformExportTransaction::aborted, (export, registry, clean), answer),
        is_tracked_at(registry@.entries, export@.0, index),
    ensures
        !final(export)@.1 && final(export)@.0 == old(export)@.0,
        !old(export)@.1 ==> answer == Err::<(), HostPortError>(HostPortError::StaleCapability)
            && final(registry)@ == old(registry)@,
        old(export)@.1 && clean ==> answer is Ok && final(registry)@.entries.len() == old(
            registry,
        )@.entries.len() - 1,
        old(export)@.1 && !clean ==> answer == Err::<(), HostPortError>(
            HostPortError::CleanupFailed,
        ) && final(registry)@.entries[index] == (CleanupEntry {
            id: old(export)@.0,
            state: CleanupState::Pending,
        }) && final(registry)@.entries.len() == old(registry)@.entries.len(),
{
    lemma_tracked(registry@.entries, export@.0, index);
}

/// A publication that was given up reports why it was, unless giving it up failed too:
/// then it reports that.
pub proof fn law_a_given_up_publication_reports_why(
    primary: HostPortError,
    aborted: Result<(), HostPortError>,
    answer: HostPortError,
)
    requires
        call_ensures(external_files::abandoned_publication, (primary, aborted), answer),
    ensures
        aborted is Ok ==> answer == primary,
        aborted is Err ==> answer == aborted->Err_0,
{
}

} // verus!
