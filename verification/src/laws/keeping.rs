//! Laws of what a session keeps: samples of its clock, its root, its leases and its
//! workspaces.
use vstd::prelude::*;

use crate::error::ServiceError;
use crate::ports::paths::LogicalPathModel;
use crate::ports::HostPortError;
use crate::session::errors;
use crate::session::errors::{PortAnswer, RepositoryPortError};
use crate::session::manager;
use crate::session::manager::{
    CreateStep, CreationModel, HandleModel, LeaseStep, ManagerModel, RemoveStep,
};
use crate::session::root;
use crate::session::root::{
    AuthenticatedWorkspaceCapability, Handover, ReconcileModel, ReconcileStep, SlotModel,
};
use crate::session::workspaces;
use crate::session::workspaces::{RecordModel, TableModel, MAX_ACTIVE_WORKSPACES};
use crate::session::VaultId;
use crate::ports::workspace::WorkspaceMode;
use crate::time::Duration;

verus! {

/// A session is unlocked in a generation.
pub open spec fn is_unlocked_in(session: ManagerModel, generation: u64) -> bool {
    session.data.state is Unlocked && session.data.epoch == generation
}

/// A sample of the clock is the instant that the clock showed, where no later sample
/// was finished before it; and where one was, it is at least as late as that. A clock
/// that goes back, that fails or that panics is a failure, and changes nothing.
pub proof fn law_a_sample_is_what_the_clock_showed(
    session: ManagerModel,
    sequence: usize,
    now: Duration,
    error: ServiceError,
)
    ensures
        ({
            let answer = manager::finish_sample_answer(
                session,
                sequence,
                PortAnswer::Returned(Ok(now)),
            );
            let after = manager::after_finish_sample(
                session,
                sequence,
                PortAnswer::Returned(Ok(now)),
            );
            &&& sequence >= session.observed_sequence && now@ >= session.observed_at ==> answer
                == Ok::<nat, ServiceError>(now@) && after == (ManagerModel {
                observed_sequence: sequence,
                observed_at: now@,
                ..session
            })
            &&& sequence >= session.observed_sequence && now@ < session.observed_at ==> answer
                == Err::<nat, ServiceError>(ServiceError::ClockFailure) && after == session
            &&& sequence < session.observed_sequence ==> answer is Ok && after == session
            &&& sequence < session.observed_sequence && now@ >= session.observed_at ==> answer
                == Ok::<nat, ServiceError>(now@)
            &&& sequence < session.observed_sequence && now@ < session.observed_at ==> answer
                == Ok::<nat, ServiceError>(session.observed_at)
        }),
        manager::finish_sample_answer(session, sequence, PortAnswer::Returned(Err(error))) == Err::<
            nat,
            ServiceError,
        >(error),
        manager::finish_sample_answer(session, sequence, PortAnswer::Panicked) == Err::<
            nat,
            ServiceError,
        >(ServiceError::ExecutorFailed),
        manager::after_finish_sample(session, sequence, PortAnswer::Panicked) == session,
        session.clock_sequence < usize::MAX ==> manager::begin_sample_answer(session) == Ok::<
            usize,
            ServiceError,
        >((session.clock_sequence + 1) as usize) && manager::after_begin_sample(session) == (
        ManagerModel { clock_sequence: (session.clock_sequence + 1) as usize, ..session }),
        session.clock_sequence == usize::MAX ==> manager::begin_sample_answer(session) == Err::<
            usize,
            ServiceError,
        >(ServiceError::ClockFailure) && manager::after_begin_sample(session) == session,
{
}

/// A lease that the repository grants is the session's exactly while it is unlocked in
/// the generation that it was asked for, and is given back otherwise; a refusal is the
/// error of the repository.
pub proof fn law_a_lease_follows_the_generation(
    session: ManagerModel,
    generation: u64,
    error: RepositoryPortError,
)
    ensures
        is_unlocked_in(session, generation) ==> manager::lease_step(
            session,
            generation,
            Ok(()),
        ) is Granted,
        !is_unlocked_in(session, generation) ==> manager::lease_step(
            session,
            generation,
            Ok(()),
        ) is GiveBack,
        manager::lease_step(session, generation, Err(error)) == LeaseStep::Refused(
            errors::repository_failure(error),
        ),
{
}

/// A root is entered exactly while it is there and accepts; what is handed out is kept
/// while it accepts, and given back after it was revoked.
pub proof fn law_a_revoked_root_gives_back<T>(
    slot: SlotModel,
    value: T,
    error: RepositoryPortError,
)
    ensures
        root::enter_answer(slot) is Ok <==> slot.accepting && slot.present,
        root::enter_answer(slot) is Err ==> root::enter_answer(slot)->Err_0
            == RepositoryPortError::Locked,
        slot.accepting ==> root::leave_answer(slot, Ok::<T, RepositoryPortError>(value)) == Ok::<
            Handover<T>,
            RepositoryPortError,
        >(Handover::Keep(value)),
        !slot.accepting ==> root::leave_answer(slot, Ok::<T, RepositoryPortError>(value)) == Ok::<
            Handover<T>,
            RepositoryPortError,
        >(Handover::GiveBack(value)),
        root::leave_answer(slot, Err::<T, RepositoryPortError>(error)) == Err::<
            Handover<T>,
            RepositoryPortError,
        >(error),
{
}

/// Reconciliation goes through the authenticated workspaces in order: a registered one
/// is activated first, and both are then unregistered as absent; it is done after the
/// last. An activation that names another workspace is a breach of integrity, and one
/// that fails ends it. A workspace that is busy stays, and reconciliation goes on.
pub proof fn law_every_workspace_is_reconciled(
    model: ReconcileModel,
    named: [u8; 16],
    error: RepositoryPortError,
)
    ensures
        model.index >= model.records.len() ==> root::next_step(model) == ReconcileStep::Done(
            Ok(()),
        ) && root::advanced(model) == model,
        model.index < model.records.len() ==> {
            let record = model.records[model.index as int];
            let id = match record {
                AuthenticatedWorkspaceCapability::Registered(id) => id@,
                AuthenticatedWorkspaceCapability::Active(id) => id@,
            };
            &&& record is Registered ==> root::next_step(model) == ReconcileStep::Activate(
                model.index,
            )
            &&& record is Active ==> root::next_step(model) == ReconcileStep::UnregisterAbsent(
                model.index,
            )
            &&& named == id ==> root::activated_step(model, Ok(named))
                == ReconcileStep::UnregisterAbsent(model.index)
            &&& named != id ==> root::activated_step(model, Ok(named)) == ReconcileStep::Done(
                Err(RepositoryPortError::IntegrityFailed),
            )
            &&& root::activated_step(model, Err(error)) == ReconcileStep::Done(Err(error))
            &&& root::advanced(model) == (ReconcileModel {
                index: (model.index + 1) as usize,
                ..model
            })
        },
        root::goes_on(Ok(())),
        root::goes_on(Err(error)) <==> error is Busy,
{
}

/// How many workspaces are listed.
pub open spec fn how_many_listed(records: Seq<RecordModel>) -> nat {
    records.filter(|record: RecordModel| record.listed).len()
}

proof fn lemma_listed(records: Seq<RecordModel>)
    ensures
        workspaces::listed_count(records) == how_many_listed(records),
    decreases records.len(),
{
    reveal(Seq::filter);
    if records.len() > 0 {
        lemma_listed(records.drop_last());
    }
}

/// A workspace is begun exactly in a session that is unlocked in the generation, holds
/// its root and knows its vault, and that has room for one more attempt and one more
/// listed workspace. It is one attempt more.
pub proof fn law_a_workspace_begins_in_an_open_session(session: ManagerModel, generation: u64)
    ensures
        ({
            let answer = manager::begin_workspace_answer(session, generation);
            let after = manager::after_begin_workspace(session, generation);
            let open = is_unlocked_in(session, generation) && session.data.unlocked is Some
                && session.vault_id is Some;
            let room = session.workspaces.attempts < MAX_ACTIVE_WORKSPACES && how_many_listed(
                session.workspaces.records,
            ) < MAX_ACTIVE_WORKSPACES;
            &&& answer is Ok <==> open && room
            &&& answer is Ok ==> Some(answer->Ok_0) == session.vault_id && after == (ManagerModel {
                workspaces: TableModel {
                    attempts: session.workspaces.attempts + 1,
                    ..session.workspaces
                },
                ..session
            })
            &&& !open ==> answer == Err::<VaultId, ServiceError>(ServiceError::Locked)
            &&& open && !room ==> answer == Err::<VaultId, ServiceError>(
                ServiceError::CapacityExceeded,
            )
            &&& answer is Err ==> after == session
        }),
{
    lemma_listed(session.workspaces.records);
}

/// A workspace that the host created is activated exactly where it is the one that was
/// asked for and the session still is unlocked in its generation. Another one is
/// removed; one that comes too late is taken back as cancelled; and what the host
/// refuses is taken back with its error, or with cleanup where it panicked.
pub proof fn law_a_created_workspace_is_activated(
    session: ManagerModel,
    creation: CreationModel,
    id: [u8; 16],
    mode: WorkspaceMode,
    error: HostPortError,
)
    ensures
        ({
            let step = manager::created_step(session, creation, PortAnswer::Returned(Ok((id, mode))));
            let asked = creation.id == Some(id) && creation.mode == mode;
            let current = is_unlocked_in(session, creation.generation);
            &&& asked && current ==> step is Activate
            &&& !asked ==> step is RemoveWrong
            &&& asked && !current ==> step == (CreateStep::RollBack {
                created: true,
                error: ServiceError::Cancelled,
            })
            &&& manager::created_step(session, creation, PortAnswer::Returned(Err(error))) == (
            CreateStep::RollBack { created: false, error: errors::host_failure(error) })
            &&& manager::created_step(session, creation, PortAnswer::Panicked) == (
            CreateStep::RollBack { created: false, error: ServiceError::CleanupRequired })
        }),
{
}

/// A workspace is listed under an identity.
pub open spec fn is_listed_under(records: Seq<RecordModel>, id: [u8; 16]) -> bool {
    exists|i: int| 0 <= i < records.len() && (#[trigger] records[i]).listed && records[i].id == id
}

/// An activated workspace is tracked under the next token, with its paths and in its
/// generation, exactly where it is the one that was asked for, the session still is
/// unlocked in its generation, it is not listed already, and there is room and a token;
/// its attempt is over then. One that cannot be listed is removed, and nothing is
/// listed under its identity any more.
pub proof fn law_an_activated_workspace_is_tracked(
    session: ManagerModel,
    creation: CreationModel,
    id: [u8; 16],
    error: RepositoryPortError,
)
    requires
        session.workspaces.attempts > 0,
    ensures
        ({
            let table = session.workspaces;
            let step = manager::activated_step(session, creation, Ok(id));
            let after = manager::after_activated(session, creation, Ok(id));
            let asked = creation.id == Some(id);
            let current = is_unlocked_in(session, creation.generation);
            let full = how_many_listed(table.records) >= MAX_ACTIVE_WORKSPACES || is_listed_under(
                table.records,
                id,
            );
            &&& step is Ok <==> asked && current && !full && table.next_token < u64::MAX
            &&& step is Ok ==> step->Ok_0 == table.next_token && after == (ManagerModel {
                workspaces: TableModel {
                    records: table.records.push(
                        RecordModel {
                            token: table.next_token,
                            id,
                            generation: creation.generation,
                            listed: true,
                            paths: creation.paths,
                        },
                    ),
                    attempts: (table.attempts - 1) as nat,
                    next_token: (table.next_token + 1) as u64,
                },
                ..session
            })
            &&& !asked ==> step == Err::<u64, CreateStep>(CreateStep::RemoveMismatched)
            &&& asked && !current ==> step == Err::<u64, CreateStep>(
                CreateStep::RollBackActive { error: ServiceError::Cancelled },
            )
            &&& asked && current && full ==> step == Err::<u64, CreateStep>(
                CreateStep::RemoveRecord,
            ) && !is_listed_under(after.workspaces.records, id)
            &&& asked && current && !full && table.next_token == u64::MAX ==> step == Err::<
                u64,
                CreateStep,
            >(CreateStep::RollBackActive { error: ServiceError::IdentifierExhausted })
            &&& manager::activated_step(session, creation, Err(error)) == Err::<u64, CreateStep>(
                CreateStep::RollBack { created: true, error: ServiceError::CleanupRequired },
            )
            &&& manager::after_activated(session, creation, Err(error)) == session
        }),
{
    lemma_listed(session.workspaces.records);
}

/// A creation that is taken back is one attempt less; where that failed, cleanup is
/// required.
pub proof fn law_a_creation_that_is_taken_back_ends_its_attempt(session: ManagerModel)
    requires
        session.workspaces.attempts > 0,
    ensures
        manager::after_rolled_back(session, true) == (ManagerModel {
            workspaces: TableModel {
                attempts: (session.workspaces.attempts - 1) as nat,
                ..session.workspaces
            },
            ..session
        }),
        ({
            let after = manager::after_rolled_back(session, false);
            &&& after.data.cleanup_required
            &&& after.workspaces.attempts == session.workspaces.attempts - 1
            &&& after.workspaces.records == session.workspaces.records
        }),
{
}

/// A workspace is tracked at a place under a token, and at no other.
pub open spec fn is_tracked_at(records: Seq<RecordModel>, token: u64, index: int) -> bool {
    &&& 0 <= index < records.len()
    &&& records[index].token == token
    &&& forall|i: int| 0 <= i < records.len() && i != index ==> (#[trigger] records[i]).token
        != token
}

proof fn lemma_tracked(records: Seq<RecordModel>, token: u64, index: int)
    requires
        is_tracked_at(records, token, index),
    ensures
        workspaces::place_of(records, token) == Some(index),
{
    assert(workspaces::stands_at(records, token, index));
    let chosen = choose|i: int| workspaces::stands_at(records, token, i);
    assert(workspaces::stands_at(records, token, chosen));
    if chosen != index {
        assert(records[chosen].token != token);
    }
}

proof fn lemma_untracked(records: Seq<RecordModel>, token: u64)
    requires
        forall|i: int| 0 <= i < records.len() ==> (#[trigger] records[i]).token != token,
    ensures
        workspaces::place_of(records, token) is None,
{
    assert(forall|i: int| !workspaces::stands_at(records, token, i));
}

/// The removal of a workspace begins exactly for the session that it belongs to, in
/// its generation, while that is unlocked, there is room for an attempt, and it is
/// tracked. It is tracked no longer then, nothing is listed under its identity, and it
/// is one attempt more. What is not the session's is stale.
pub proof fn law_a_removal_begins_for_a_tracked_workspace(
    session: ManagerModel,
    handle: HandleModel,
    generation: u64,
    index: int,
)
    requires
        is_tracked_at(session.workspaces.records, handle.token, index),
    ensures
        ({
            let table = session.workspaces;
            let answer = manager::begin_remove_answer(session, handle, generation);
            let after = manager::after_begin_remove(session, handle, generation);
            let own = handle.manager == session.identity && handle.generation == generation
                && is_unlocked_in(session, generation);
            let room = table.attempts < MAX_ACTIVE_WORKSPACES;
            &&& answer is Ok <==> own && room
            &&& !own ==> answer == Err::<(), ServiceError>(ServiceError::StaleCapability)
            &&& own && !room ==> answer == Err::<(), ServiceError>(ServiceError::CapacityExceeded)
            &&& answer is Err ==> after == session
            &&& answer is Ok ==> {
                &&& after.workspaces.attempts == table.attempts + 1
                &&& after.workspaces.next_token == table.next_token
                &&& after.workspaces.records.len() == table.records.len() - 1
                &&& !is_listed_under(after.workspaces.records, table.records[index].id)
                &&& forall|i: int|
                    0 <= i < table.records.len() && i != index && (
                    #[trigger] table.records[i]).id != table.records[index].id
                        ==> after.workspaces.records[if i < index {
                        i
                    } else {
                        i - 1
                    }] == table.records[i]
            }
        }),
{
    lemma_tracked(session.workspaces.records, handle.token, index);
}

/// What is not tracked cannot be removed or saved into.
pub proof fn law_an_untracked_workspace_is_stale(
    session: ManagerModel,
    handle: HandleModel,
    generation: u64,
    path: LogicalPathModel,
)
    requires
        forall|i: int|
            0 <= i < session.workspaces.records.len() ==> (
            #[trigger] session.workspaces.records[i]).token != handle.token,
        session.workspaces.attempts < MAX_ACTIVE_WORKSPACES,
    ensures
        manager::begin_remove_answer(session, handle, generation) == Err::<(), ServiceError>(
            ServiceError::StaleCapability,
        ),
        manager::begin_stable_commit_answer(session, handle, path) == Err::<(), ServiceError>(
            ServiceError::StaleCapability,
        ),
{
    lemma_untracked(session.workspaces.records, handle.token);
}

/// A workspace that the host removed is unregistered while the session holds its root;
/// without a root the removal is locked, and where the host failed cleanup is to be
/// done. Either of these ends its attempt.
pub proof fn law_a_removed_workspace_is_unregistered(session: ManagerModel)
    requires
        session.workspaces.attempts > 0,
    ensures
        session.data.unlocked is Some ==> manager::removed_step(session, true) is Unregister
            && manager::after_removed(session, true) == session,
        session.data.unlocked is None ==> manager::removed_step(session, true)
            == RemoveStep::Failed(ServiceError::Locked) && manager::after_removed(session, true)
            == (ManagerModel {
            workspaces: TableModel {
                attempts: (session.workspaces.attempts - 1) as nat,
                ..session.workspaces
            },
            ..session
        }),
        manager::removed_step(session, false) == RemoveStep::Failed(ServiceError::CleanupRequired),
        manager::after_removed(session, false).data.cleanup_required,
        manager::after_removed(session, false).workspaces.attempts == session.workspaces.attempts
            - 1,
{
}

/// A source that the host opened is used exactly while the session is unlocked in the
/// generation of its workspace, and is stale otherwise; what the host refuses is
/// refused with its error, and a panic is a failure of the executor.
pub proof fn law_an_opened_source_follows_the_generation(
    session: ManagerModel,
    handle: HandleModel,
    path: LogicalPathModel,
    error: HostPortError,
)
    ensures
        is_unlocked_in(session, handle.generation) ==> manager::source_opened_answer(
            session,
            handle,
            PortAnswer::Returned(Ok(())),
        ) is Ok,
        !is_unlocked_in(session, handle.generation) ==> manager::source_opened_answer(
            session,
            handle,
            PortAnswer::Returned(Ok(())),
        ) == Err::<(), ServiceError>(ServiceError::StaleCapability),
        manager::source_opened_answer(session, handle, PortAnswer::Returned(Err(error))) == Err::<
            (),
            ServiceError,
        >(errors::host_failure(error)),
        manager::source_opened_answer(session, handle, PortAnswer::Panicked) == Err::<
            (),
            ServiceError,
        >(ServiceError::ExecutorFailed),
        !is_unlocked_in(session, handle.generation) ==> manager::begin_stable_commit_answer(
            session,
            handle,
            path,
        ) == Err::<(), ServiceError>(ServiceError::StaleCapability)
            && manager::after_begin_stable_commit(session, handle, path) == session,
{
}

/// A new session is locked, in no generation, and has observed the instant at which it
/// was made. It is made exactly where its repository and its clock answer.
pub proof fn law_a_new_session_is_locked(
    identity: u64,
    policy: crate::session::PolicyModel,
    vault_id: Option<VaultId>,
    now: Duration,
    refused: RepositoryPortError,
    error: ServiceError,
)
    ensures
        ({
            let session = manager::new_manager(identity, policy, vault_id, now@);
            &&& session.identity == identity && session.policy == policy && session.vault_id
                == vault_id
            &&& session.data.state is Locked && session.data.epoch == 0
            &&& session.data.last_observed == now@ && session.observed_at == now@
            &&& session.clock_sequence == 0 && session.observed_sequence == 0
            &&& session.data.unlocked is None && session.data.unlock_attempt is None
            &&& session.data.inactivity_deadline is None && session.data.absolute_deadline is None
            &&& !session.data.cleanup_required && !session.data.cleanup_owner
                && !session.data.expired
            &&& session.workspaces.records.len() == 0 && session.workspaces.attempts == 0
        }),
        manager::new_manager_failure(
            PortAnswer::Returned(Ok(vault_id)),
            PortAnswer::Returned(Ok(now)),
        ) is None,
        manager::new_manager_failure(PortAnswer::Panicked, PortAnswer::Returned(Ok(now))) == Some(
            ServiceError::ExecutorFailed,
        ),
        manager::new_manager_failure(
            PortAnswer::Returned(Err(refused)),
            PortAnswer::Returned(Ok(now)),
        ) == Some(errors::repository_failure(refused)),
        manager::new_manager_failure(
            PortAnswer::Returned(Ok(vault_id)),
            PortAnswer::Returned(Err(error)),
        ) == Some(error),
        manager::new_manager_failure(PortAnswer::Returned(Ok(vault_id)), PortAnswer::Panicked)
            == Some(ServiceError::ExecutorFailed),
{
}

} // verus!
