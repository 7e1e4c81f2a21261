//! What the service carries out itself on a local vault, step by step.
//!
//! A use case announces what it does, asks for a lease, and asks the repository
//! and the host for what only they can do. What came of an action is given to
//! the next step.
use vstd::prelude::*;

pub mod exports;
pub mod mutations;
pub mod reads;

use crate::command::{
    DeleteParts, EntryId, EntryKind, MutationSummary, OperationResult, RelocateParts,
    RevisionVersion, SnapshotVersion, VaultStatus,
};
use crate::command::result;
use crate::error::ServiceError;
use crate::event;
use crate::event::{DurabilitySummary, OperationEvent, Progress, ProgressUnit};
use crate::operation::{OperationId, OperationModel, Publication};
use crate::ports::HostPortError;
use crate::secret::SecretText;
use crate::service::locking;
use crate::service::runtime::{CoreModel, ServiceCore};
use crate::service::scheduler;
use crate::service::scheduler::SchedulerModel;
use crate::service::worker;
use crate::session::errors;
use crate::session::errors::{map_repository_error, PortAnswer, RepositoryPortError};
use crate::session::repository;
use crate::session::repository::{LocalAuthenticatedStatus, LocalAuthenticatedView};
use crate::session::VaultId;

verus! {

/// How a failure at a safe boundary reaches the store.
pub open spec fn publication_failure(error: ServiceError) -> RepositoryPortError {
    match error {
        ServiceError::Cancelled => RepositoryPortError::Cancelled,
        ServiceError::Locked | ServiceError::StaleCapability => RepositoryPortError::Locked,
        ServiceError::Busy => RepositoryPortError::Busy,
        ServiceError::CapacityExceeded => RepositoryPortError::CapacityExceeded,
        ServiceError::AllocationFailed => RepositoryPortError::AllocationFailed,
        ServiceError::TimedOut => RepositoryPortError::TimedOut,
        _ => RepositoryPortError::PlatformFailure,
    }
}

/// How a failure at a safe boundary reaches the store.
pub fn map_publication_error(error: ServiceError) -> (mapped: RepositoryPortError)
    ensures
        mapped == publication_failure(error),
{
    match error {
        ServiceError::Cancelled => RepositoryPortError::Cancelled,
        ServiceError::Locked | ServiceError::StaleCapability => RepositoryPortError::Locked,
        ServiceError::Busy => RepositoryPortError::Busy,
        ServiceError::CapacityExceeded => RepositoryPortError::CapacityExceeded,
        ServiceError::AllocationFailed => RepositoryPortError::AllocationFailed,
        ServiceError::TimedOut => RepositoryPortError::TimedOut,
        _ => RepositoryPortError::PlatformFailure,
    }
}

/// How a failure of the host reaches an export.
pub open spec fn external_failure(error: HostPortError) -> ServiceError {
    match error {
        HostPortError::Cancelled => ServiceError::Cancelled,
        HostPortError::CapacityExceeded => ServiceError::CapacityExceeded,
        HostPortError::AllocationFailed => ServiceError::AllocationFailed,
        HostPortError::DestinationExists => ServiceError::DestinationExists,
        HostPortError::StaleCapability => ServiceError::StaleCapability,
        HostPortError::DurabilityPending => ServiceError::DurabilityPending,
        HostPortError::CleanupFailed => ServiceError::CleanupRequired,
        HostPortError::Unavailable => ServiceError::Unavailable,
        HostPortError::InvalidInput
        | HostPortError::Denied
        | HostPortError::Permission => ServiceError::InvalidInput,
        HostPortError::LiveWorkspace => ServiceError::Busy,
        HostPortError::DetachedEditor
        | HostPortError::PlatformFailure => ServiceError::ExecutorFailed,
    }
}

/// How a failure of the host reaches an export.
pub fn map_external_error(error: HostPortError) -> (mapped: ServiceError)
    ensures
        mapped == external_failure(error),
{
    match error {
        HostPortError::Cancelled => ServiceError::Cancelled,
        HostPortError::CapacityExceeded => ServiceError::CapacityExceeded,
        HostPortError::AllocationFailed => ServiceError::AllocationFailed,
        HostPortError::DestinationExists => ServiceError::DestinationExists,
        HostPortError::StaleCapability => ServiceError::StaleCapability,
        HostPortError::DurabilityPending => ServiceError::DurabilityPending,
        HostPortError::CleanupFailed => ServiceError::CleanupRequired,
        HostPortError::Unavailable => ServiceError::Unavailable,
        HostPortError::InvalidInput
        | HostPortError::Denied
        | HostPortError::Permission => ServiceError::InvalidInput,
        HostPortError::LiveWorkspace => ServiceError::Busy,
        HostPortError::DetachedEditor
        | HostPortError::PlatformFailure => ServiceError::ExecutorFailed,
    }
}

/// What a call to the host answers an export, with the failure that a panic
/// counts as.
pub open spec fn host_answer(answer: PortAnswer<Result<(), HostPortError>>, panic: ServiceError) -> Result<
    Answer,
    ServiceError,
> {
    match answer {
        PortAnswer::Returned(Ok(())) => Ok(Answer::Nothing),
        PortAnswer::Returned(Err(error)) => Err(external_failure(error)),
        PortAnswer::Panicked => Err(panic),
    }
}

/// What the flush of an export answered. A panic is a failed execution.
pub fn flush_answer(answer: PortAnswer<Result<(), HostPortError>>) -> (mapped: Result<
    Answer,
    ServiceError,
>)
    ensures
        mapped == host_answer(answer, ServiceError::ExecutorFailed),
{
    match answer {
        PortAnswer::Returned(Ok(())) => Ok(Answer::Nothing),
        PortAnswer::Returned(Err(error)) => Err(map_external_error(error)),
        PortAnswer::Panicked => Err(ServiceError::ExecutorFailed),
    }
}

/// What the publication of an export, or giving it up, answered. A panic leaves
/// cleanup to be done.
pub fn settle_answer(answer: PortAnswer<Result<(), HostPortError>>) -> (mapped: Result<
    Answer,
    ServiceError,
>)
    ensures
        mapped == host_answer(answer, ServiceError::CleanupRequired),
{
    match answer {
        PortAnswer::Returned(Ok(())) => Ok(Answer::Nothing),
        PortAnswer::Returned(Err(error)) => Err(map_external_error(error)),
        PortAnswer::Panicked => Err(ServiceError::CleanupRequired),
    }
}

/// What a call to the repository answered a use case.
pub fn repository_answer(answer: Result<Answer, RepositoryPortError>) -> (mapped: Result<
    Answer,
    ServiceError,
>)
    ensures
        mapped == match answer {
            Ok(answer) => Ok(answer),
            Err(error) => Err(errors::repository_failure(error)),
        },
{
    match answer {
        Ok(answer) => Ok(answer),
        Err(error) => Err(map_repository_error(error)),
    }
}

/// What a commit made.
#[derive(Clone, Copy, Debug)]
pub struct Commitment {
    pub snapshot: SnapshotVersion,
    pub entry: EntryId,
    pub revision: Option<RevisionVersion>,
}

/// What an action answers beside its success.
#[derive(Clone, Copy, Debug)]
pub enum Answer {
    Nothing,
    /// The current snapshot.
    Snapshot(SnapshotVersion),
    /// The number of exported bytes.
    Exported(u64),
    Committed(Commitment),
}

/// What a use case needs next.
#[derive(Clone, Copy, Debug, PartialEq, Eq)]
pub enum UseAction {
    /// Nothing: it goes on at once.
    Continue,
    /// Go on once the consumer of the operation took an event.
    WaitForRoom,
    /// Ask for a local lease.
    TakeLease,
    /// Read what the operation shows.
    Read,
    /// Read the current snapshot.
    ReadSnapshot,
    /// Open the file that is imported.
    OpenImport,
    /// Check that the entry still is what the request is bound to.
    CheckBinding,
    /// Build what is handed to the store.
    Build,
    /// Hand it to the store.
    Commit,
    /// Give the lease back.
    FinishLease,
    /// Begin the export.
    BeginExport,
    /// Write the exported bytes.
    Export,
    /// Flush them.
    Flush,
    /// Publish the export.
    Publish,
    /// Give the export up.
    AbortExport,
    /// It is over.
    End(Result<(), ServiceError>),
}

/// The identity that a snapshot is announced by: its first half.
pub open spec fn durable_identity(snapshot: SnapshotVersion) -> Seq<u8> {
    snapshot@@.subrange(0, 16)
}

/// The announcement of a durable snapshot.
pub closed spec fn durable_event(snapshot: SnapshotVersion) -> DurabilitySummary {
    event::durability_summary(choose|bytes: [u8; 16]| #[trigger] bytes@ == durable_identity(snapshot))
}

/// How a durable snapshot is announced.
pub fn durability(snapshot: SnapshotVersion) -> (summary: DurabilitySummary)
    ensures
        summary@@ == durable_identity(snapshot),
        summary == durable_event(snapshot),
{
    let whole = snapshot.as_bytes();
    let bytes: [u8; 16] = [
        whole[0],
        whole[1],
        whole[2],
        whole[3],
        whole[4],
        whole[5],
        whole[6],
        whole[7],
        whole[8],
        whole[9],
        whole[10],
        whole[11],
        whole[12],
        whole[13],
        whole[14],
        whole[15],
    ];
    assert(bytes@ =~= durable_identity(snapshot));
    proof {
        let chosen = choose|chosen: [u8; 16]| #[trigger] chosen@ == durable_identity(snapshot);
        assert(chosen@ == bytes@);
        assert(chosen =~= bytes);
    }
    DurabilitySummary::new(bytes)
}

/// The scheduler after an effect of an operation became irrevocable.
pub open spec fn after_irrevocable(scheduler: SchedulerModel, id: OperationId) -> SchedulerModel {
    match scheduler::place_of(scheduler.active, id) {
        Some(index) => worker::with_operation(
            scheduler,
            index,
            OperationModel { irrevocable: true, ..scheduler.active[index] },
        ),
        None => scheduler,
    }
}

/// The scheduler on which a durable snapshot is announced: the effect became
/// irrevocable when it was announced first.
pub open spec fn before_announcement(scheduler: SchedulerModel, id: OperationId, waited: bool) -> SchedulerModel {
    if waited {
        scheduler
    } else {
        after_irrevocable(scheduler, id)
    }
}

/// What a check before a publication to the store answers: what the source says,
/// where there is one, and then whether the operation may go on.
pub open spec fn guard_answer(
    scheduler: SchedulerModel,
    id: OperationId,
    external: Option<PortAnswer<Result<(), RepositoryPortError>>>,
) -> Result<(), RepositoryPortError> {
    match external {
        Some(PortAnswer::Panicked) => Err(RepositoryPortError::PlatformFailure),
        Some(PortAnswer::Returned(Err(error))) => Err(error),
        _ => match scheduler::boundary_answer(scheduler, id) {
            Ok(()) => Ok(()),
            Err(error) => Err(publication_failure(error)),
        },
    }
}

impl ServiceCore {
    /// Notes that an effect of an operation can no longer be taken back.
    pub fn mark_irrevocable(&mut self, id: OperationId)
        ensures
            final(self)@ == locking::with_scheduler(
                old(self)@,
                after_irrevocable(old(self)@.scheduler, id),
            ),
    {
        if let Some(state) = self.scheduler.operation_mut(id) {
            state.mark_irrevocable();
        }
    }

    /// Announces a snapshot that was committed. The commit cannot be taken back, so
    /// that no cancellation stands in the way.
    pub fn revision_durable_committed(
        &mut self,
        id: OperationId,
        durable: DurabilitySummary,
        waited: bool,
    ) -> (answer: Result<Publication, ServiceError>)
        ensures
            answer == worker::publish_answer(
                before_announcement(old(self)@.scheduler, id, waited),
                id,
                OperationEvent::RevisionDurable(durable),
            ),
            final(self)@ == locking::with_scheduler(
                old(self)@,
                worker::after_publish(
                    before_announcement(old(self)@.scheduler, id, waited),
                    id,
                    OperationEvent::RevisionDurable(durable),
                ),
            ),
    {
        if !waited {
            self.mark_irrevocable(id);
        }
        self.publish(id, OperationEvent::RevisionDurable(durable))
    }

    /// Checks at the last moment whether an operation may publish to the store.
    pub fn validate_publication(
        &mut self,
        id: OperationId,
        external: Option<PortAnswer<Result<(), RepositoryPortError>>>,
    ) -> (answer: Result<(), RepositoryPortError>)
        ensures
            answer == guard_answer(old(self)@.scheduler, id, external),
            final(self)@ == match external {
                Some(PortAnswer::Panicked) | Some(PortAnswer::Returned(Err(_))) => old(self)@,
                _ => locking::with_scheduler(
                    old(self)@,
                    scheduler::after_boundary(old(self)@.scheduler, id),
                ),
            },
    {
        match external {
            Some(PortAnswer::Panicked) => return Err(RepositoryPortError::PlatformFailure),
            Some(PortAnswer::Returned(Err(error))) => return Err(error),
            _ => {},
        }
        match self.operation_safe_boundary(id) {
            Ok(()) => Ok(()),
            Err(error) => Err(map_publication_error(error)),
        }
    }

    /// The vault and the generation that a status is bound to.
    pub fn status_binding(&self, id: OperationId) -> (binding: Result<
        (VaultId, u64),
        ServiceError,
    >)
        ensures
            binding == status_binding(self@, id),
    {
        let generation: u64 = match self.scheduler.operation(id) {
            Some(state) => match state.session_generation() {
                Some(generation) => generation,
                None => return Err(ServiceError::Locked),
            },
            None => return Err(ServiceError::Locked),
        };
        match &self.session {
            Some(session) => match session.current_vault_id() {
                Some(vault_id) => Ok((vault_id, generation)),
                None => Err(ServiceError::Locked),
            },
            None => Err(ServiceError::Locked),
        }
    }
}

/// The vault and the generation that a status is bound to.
pub open spec fn status_binding(core_state: CoreModel, id: OperationId) -> Result<
    (VaultId, u64),
    ServiceError,
> {
    match (scheduler::place_of(core_state.scheduler.active, id), core_state.session) {
        (Some(index), Some(session)) => match (
            core_state.scheduler.active[index].session_generation,
            session.vault_id,
        ) {
            (Some(generation), Some(vault_id)) => Ok((vault_id, generation)),
            _ => Err(ServiceError::Locked),
        },
        _ => Err(ServiceError::Locked),
    }
}

/// What a lease that is finished reports: what was done under it counts before
/// the end of the lease.
pub fn finish_repository_lease<T>(
    result: Result<T, ServiceError>,
    finished: Result<(), RepositoryPortError>,
) -> (outcome: Result<T, ServiceError>)
    ensures
        outcome == match (result, finished) {
            (Err(error), _) => Err(error),
            (Ok(_), Err(error)) => Err(errors::repository_failure(error)),
            (Ok(value), Ok(())) => Ok(value),
        },
{
    match (result, finished) {
        (Err(error), _) => Err(error),
        (Ok(_), Err(error)) => Err(map_repository_error(error)),
        (Ok(value), Ok(())) => Ok(value),
    }
}

/// What a stable revision that was committed reports: the end of its lease counts
/// before what was done under it.
pub fn finish_stable_commit<T>(
    result: Result<T, ServiceError>,
    finished: Result<(), RepositoryPortError>,
) -> (outcome: Result<T, ServiceError>)
    ensures
        outcome == match finished {
            Err(error) => Err(errors::repository_failure(error)),
            Ok(()) => result,
        },
{
    match finished {
        Err(error) => Err(map_repository_error(error)),
        Ok(()) => result,
    }
}

/// The listing that a view shows.
pub fn entries_result(view: Result<LocalAuthenticatedView, RepositoryPortError>) -> (result: Result<
    OperationResult,
    ServiceError,
>)
    ensures
        match view {
            Err(error) => result == Err::<OperationResult, ServiceError>(
                errors::repository_failure(error),
            ),
            Ok(view) => match result {
                Ok(result) => result is Entries && result->Entries_0@ == view@.entries.map_values(
                    |entry: repository::ListedModel| repository::summary_of(entry),
                ),
                Err(error) => error == ServiceError::AllocationFailed
                    && repository::listing_refused(view@.entries) || error
                    == ServiceError::CapacityExceeded && view@.entries.len()
                    > result::MAX_RESULT_ENTRIES,
            },
        },
{
    match view {
        Err(error) => Err(map_repository_error(error)),
        Ok(view) => match view.into_entry_summaries() {
            Ok(summaries) => Ok(OperationResult::Entries(summaries)),
            Err(error) => Err(error),
        },
    }
}

/// The status that an observation shows.
pub fn status_result(
    vault_id: VaultId,
    generation: u64,
    status: Result<LocalAuthenticatedStatus, RepositoryPortError>,
) -> (result: Result<OperationResult, ServiceError>)
    ensures
        match status {
            Err(error) => result == Err::<OperationResult, ServiceError>(
                errors::repository_failure(error),
            ),
            Ok(status) => {
                &&& result is Ok
                &&& result->Ok_0 is Status
                &&& result->Ok_0->Status_0@.vault_id == vault_id
                &&& result->Ok_0->Status_0@.generation == generation
                &&& result->Ok_0->Status_0@.root_entry_id == status@.root
                &&& result->Ok_0->Status_0@.snapshot_id == status@.snapshot
                &&& result->Ok_0->Status_0@.entry_count == status@.entry_count
            },
        },
{
    match status {
        Err(error) => Err(map_repository_error(error)),
        Ok(status) => Ok(
            OperationResult::Status(
                VaultStatus::new(
                    vault_id,
                    generation,
                    *status.root_entry_id().as_bytes(),
                    status.snapshot_id(),
                    status.entry_count(),
                ),
            ),
        ),
    }
}

/// Whether a result reports this change.
pub open spec fn reports(result: OperationResult, change: result::MutationModel) -> bool {
    result is EntryChanged && result->EntryChanged_0@ == change
}

/// The report on a directory that was made.
pub fn created_directory(parent: EntryId, name: SecretText, committed: Commitment) -> (result:
    OperationResult)
    ensures
        reports(
            result,
            result::MutationModel {
                entry_id: committed.entry,
                parent_id: parent,
                snapshot: committed.snapshot,
                revision: None,
                name: name@,
                kind: EntryKind::Directory,
            },
        ),
{
    OperationResult::EntryChanged(
        MutationSummary::new(
            committed.entry,
            parent,
            committed.snapshot,
            None,
            name,
            EntryKind::Directory,
        ),
    )
}

/// The report on a file that was made or imported.
pub fn created_file(parent: EntryId, name: SecretText, committed: Commitment) -> (result:
    OperationResult)
    ensures
        reports(
            result,
            result::MutationModel {
                entry_id: committed.entry,
                parent_id: parent,
                snapshot: committed.snapshot,
                revision: committed.revision,
                name: name@,
                kind: EntryKind::File,
            },
        ),
{
    OperationResult::EntryChanged(
        MutationSummary::new(
            committed.entry,
            parent,
            committed.snapshot,
            committed.revision,
            name,
            EntryKind::File,
        ),
    )
}

/// The report on an entry that was renamed or moved.
pub fn relocated(parts: RelocateParts, committed: Commitment) -> (result: OperationResult)
    ensures
        reports(
            result,
            result::MutationModel {
                entry_id: parts.entry,
                parent_id: parts.new_parent,
                snapshot: committed.snapshot,
                revision: parts.expected_revision,
                name: parts.new_name@,
                kind: parts.expected_kind,
            },
        ),
{
    OperationResult::EntryChanged(
        MutationSummary::new(
            parts.entry,
            parts.new_parent,
            committed.snapshot,
            parts.expected_revision,
            parts.new_name,
            parts.expected_kind,
        ),
    )
}

/// The report on an entry that was deleted.
pub fn deleted(parts: DeleteParts, committed: Commitment) -> (result: OperationResult)
    ensures
        reports(
            result,
            result::MutationModel {
                entry_id: parts.entry,
                parent_id: parts.expected_parent,
                snapshot: committed.snapshot,
                revision: None,
                name: parts.expected_name@,
                kind: EntryKind::Tombstone,
            },
        ),
{
    OperationResult::EntryChanged(
        MutationSummary::new(
            parts.entry,
            parts.expected_parent,
            committed.snapshot,
            None,
            parts.expected_name,
            EntryKind::Tombstone,
        ),
    )
}

/// Counts the bytes that went through a stream.
#[derive(Clone, Copy, Debug)]
pub struct ByteCounter {
    completed: u64,
}

impl View for ByteCounter {
    type V = u64;

    closed spec fn view(&self) -> u64 {
        self.completed
    }
}

impl ByteCounter {
    pub fn new() -> (counter: Self)
        ensures
            counter@ == 0,
    {
        ByteCounter { completed: 0 }
    }

    /// Counts more bytes. The answer is the progress that is announced, or nothing
    /// where the count does not fit.
    pub fn count(&mut self, bytes: u64) -> (progress: Option<Progress>)
        ensures
            old(self)@ + bytes <= u64::MAX ==> final(self)@ == old(self)@ + bytes && progress
                == Some(event::progress_of(ProgressUnit::Bytes, final(self)@, None)),
            old(self)@ + bytes > u64::MAX ==> progress is None && final(self)@ == old(self)@,
    {
        match self.completed.checked_add(bytes) {
            Some(completed) => {
                self.completed = completed;
                match Progress::bytes(completed, None) {
                    Ok(progress) => Some(progress),
                    Err(_) => None,
                }
            },
            None => None,
        }
    }
}

} // verus!
