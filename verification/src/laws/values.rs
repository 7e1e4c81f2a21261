//! Laws of the values that the service takes in, and of the workspaces it keeps.
use vstd::prelude::*;

use crate::command;
use crate::command::{
    Command, CreateDirectory, CreateFile, DeleteEntry, EntryKind, ExportFile, ImportFile,
    MoveEntry, RenameEntry, RevisionVersion,
};
use crate::error::ServiceError;
use crate::ports::paths;
use crate::ports::paths::{LogicalPathModel, RegistryModel};
use crate::ports::workspace;
use crate::ports::HostPortError;
use crate::session::data;
use crate::session::errors::{PortAnswer, RepositoryPortError, StoreFailure};
use crate::session::manager;
use crate::session::manager::{CreationModel, HandleModel, ManagerModel};
use crate::session::replication;
use crate::session::replication::ReplicationLimits;
use crate::session::requests;
use crate::session::requests::{RekeyAction, RekeyStage};
use crate::session::workspaces;
use crate::session::workspaces::TableModel;

verus! {

/// How a command is shown does not depend on what the user entered.
pub proof fn law_a_command_is_shown_without_its_contents(
    file: (CreateFile, CreateFile),
    directory: (CreateDirectory, CreateDirectory),
    import: (ImportFile, ImportFile),
    export: (ExportFile, ExportFile),
    rename: (RenameEntry, RenameEntry),
    moved: (MoveEntry, MoveEntry),
    deleted: (DeleteEntry, DeleteEntry),
)
    ensures
        command::command_label(Command::CreateFile(file.0)) == command::command_label(
            Command::CreateFile(file.1),
        ),
        command::command_label(Command::CreateDirectory(directory.0)) == command::command_label(
            Command::CreateDirectory(directory.1),
        ),
        command::command_label(Command::ImportFile(import.0)) == command::command_label(
            Command::ImportFile(import.1),
        ),
        command::command_label(Command::ExportFile(export.0)) == command::command_label(
            Command::ExportFile(export.1),
        ),
        command::command_label(Command::RenameEntry(rename.0)) == command::command_label(
            Command::RenameEntry(rename.1),
        ),
        command::command_label(Command::MoveEntry(moved.0)) == command::command_label(
            Command::MoveEntry(moved.1),
        ),
        command::command_label(Command::DeleteEntry(deleted.0)) == command::command_label(
            Command::DeleteEntry(deleted.1),
        ),
{
}

/// Without a session every command goes to the executor.
pub proof fn law_without_a_session_the_executor_does_everything(command: Command)
    ensures
        command::dispatch_of(command, false) is Executor,
{
}

/// A tombstone is never bound to, and a kind and its revision decide each other.
pub proof fn law_a_binding_is_a_file_with_a_revision_or_a_directory_without(
    kind: EntryKind,
    revision: Option<RevisionVersion>,
)
    ensures
        !command::is_entry_binding(EntryKind::Tombstone, revision),
        command::is_entry_binding(kind, revision) ==> (kind is File <==> revision is Some),
{
}

/// A hexadecimal digit names its value.
proof fn lemma_hex_digit(a: int, b: int)
    requires
        0 <= a < 16,
        0 <= b < 16,
        workspace::hex_digit(a) == workspace::hex_digit(b),
    ensures
        a == b,
{
    assert(forall|v: int| 0 <= v < 10 ==> #[trigger] workspace::hex_digit(v) as int == 48 + v);
    assert(forall|v: int| 10 <= v < 16 ==> #[trigger] workspace::hex_digit(v) as int == 87 + v);
}

/// Two identities have the same name only if they are the same.
pub proof fn law_names_of_workspaces_are_distinct(a: Seq<u8>, b: Seq<u8>)
    requires
        workspace::hex_text(a) == workspace::hex_text(b),
    ensures
        a == b,
{
    assert(workspace::hex_text(a).len() == 2 * a.len());
    assert(workspace::hex_text(b).len() == 2 * b.len());
    assert forall|i: int| 0 <= i < a.len() implies a[i] == b[i] by {
        assert(workspace::hex_text(a)[2 * i] == workspace::hex_digit(a[i] as int / 16));
        assert(workspace::hex_text(b)[2 * i] == workspace::hex_digit(b[i] as int / 16));
        assert(workspace::hex_text(a)[2 * i + 1] == workspace::hex_digit(a[i] as int % 16));
        assert(workspace::hex_text(b)[2 * i + 1] == workspace::hex_digit(b[i] as int % 16));
        lemma_hex_digit(a[i] as int / 16, b[i] as int / 16);
        lemma_hex_digit(a[i] as int % 16, b[i] as int % 16);
    }
    assert(a =~= b);
}

/// The registry of paths keeps its bounds.
pub proof fn law_the_path_registry_stays_well_formed(registry: RegistryModel, path: LogicalPathModel)
    requires
        paths::registry_wf(registry),
    ensures
        paths::registry_wf(paths::after_insert(registry, path)),
{
}

/// A path that is registered stays registered under its key, can be registered
/// again, and keeps every other path of the same key out.
pub proof fn law_a_registered_path_keeps_its_place(
    registry: RegistryModel,
    path: LogicalPathModel,
    other: LogicalPathModel,
)
    requires
        paths::insert_answer(registry, path) is Ok,
    ensures
        ({
            let after = paths::after_insert(registry, path);
            &&& paths::insert_answer(after, path) == Ok::<(), HostPortError>(())
            &&& paths::after_insert(after, path) == after
            &&& other.collision_key == path.collision_key && other.path != path.path
                ==> paths::insert_answer(after, other) == Err::<(), HostPortError>(
                HostPortError::InvalidInput,
            )
        }),
{
}

/// The table of workspaces stays well formed: bounded, and no identity listed
/// twice.
pub proof fn law_the_workspace_table_stays_well_formed(
    table: TableModel,
    token: u64,
    id: [u8; 16],
    generation: u64,
    registry: RegistryModel,
    path: LogicalPathModel,
)
    requires
        workspaces::table_wf(table),
    ensures
        workspaces::table_wf(workspaces::empty_table()),
        workspaces::table_wf(workspaces::after_attempt(table)),
        workspaces::table_wf(workspaces::after_attempt_end(table)),
        workspaces::table_wf(workspaces::after_take(table, token)),
        workspaces::table_wf(workspaces::after_list(table, id, generation, registry)),
        workspaces::table_wf(workspaces::after_use_path(table, token, path)),
{
    workspaces::lemma_table_wf(table, token, id, generation, registry, path);
}

/// An identity that is listed is not listed again until it was taken from the list.
pub proof fn law_a_workspace_is_listed_once(
    table: TableModel,
    id: [u8; 16],
    generation: u64,
    registry: RegistryModel,
)
    ensures
        workspaces::list_answer(table, id) is Ok ==> workspaces::list_answer(
            workspaces::after_list(table, id, generation, registry),
            id,
        ) == Err::<u64, ServiceError>(ServiceError::Busy),
        !workspaces::is_listed(workspaces::unlisted(table.records, id), id),
{
    let after = workspaces::after_list(table, id, generation, registry).records;
    if workspaces::list_answer(table, id) is Ok {
        assert(after.last().listed && after.last().id == id);
        assert(after[after.len() - 1] == after.last());
    }
}

/// Once a lock began, no workspace is created, removed at a caller's wish or
/// committed from, and one whose creation was under way is taken back.
pub proof fn law_a_lock_ends_the_use_of_workspaces(
    manager: ManagerModel,
    handle: HandleModel,
    creation: CreationModel,
    generation: u64,
    path: LogicalPathModel,
    id: [u8; 16],
)
    requires
        data::session_wf(manager.data),
        creation.id == Some(id),
    ensures
        ({
            let locked = manager::with_data(manager, data::after_begin_lock(manager.data));
            &&& manager::begin_workspace_answer(locked, generation) is Err
            &&& manager::begin_remove_answer(locked, handle, generation) is Err
            &&& manager::begin_stable_commit_answer(locked, handle, path) == Err::<
                (),
                ServiceError,
            >(ServiceError::StaleCapability)
            &&& manager::after_begin_stable_commit(locked, handle, path) == locked
            &&& manager::source_opened_answer(locked, handle, PortAnswer::Returned(Ok(()))) == Err::<
                (),
                ServiceError,
            >(ServiceError::StaleCapability)
            &&& manager::created_step(
                locked,
                creation,
                PortAnswer::Returned(Ok((id, creation.mode))),
            ) == (manager::CreateStep::RollBack { created: true, error: ServiceError::Cancelled })
            &&& manager::activated_step(locked, creation, Ok(id)) == Err::<
                u64,
                manager::CreateStep,
            >(manager::CreateStep::RollBackActive { error: ServiceError::Cancelled })
        }),
{
}

/// A workspace is removed only by the manager that made it, for its generation,
/// and only while it is tracked.
pub proof fn law_a_workspace_is_removed_once(
    manager: ManagerModel,
    handle: HandleModel,
    generation: u64,
)
    requires
        workspaces::table_wf(manager.workspaces),
        manager::begin_remove_answer(manager, handle, generation) is Ok,
    ensures
        handle.manager == manager.identity,
        handle.generation == generation,
        ({
            let after = manager::after_begin_remove(manager, handle, generation);
            &&& workspaces::place_of(after.workspaces.records, handle.token) is None
            &&& manager::begin_remove_answer(after, handle, generation) is Err
        }),
{
    let records = manager.workspaces.records;
    let place = workspaces::place_of(records, handle.token)->0;
    let after = manager::after_begin_remove(manager, handle, generation).workspaces.records;
    assert(exists|i: int| workspaces::stands_at(records, handle.token, i));
    assert(workspaces::stands_at(records, handle.token, place));
    assert forall|i: int| !workspaces::stands_at(after, handle.token, i) by {
        if workspaces::stands_at(after, handle.token, i) {
            let origin = if i < place {
                i
            } else {
                i + 1
            };
            assert(after[i].token == records[origin].token);
            assert(records[origin].token == records[place].token);
        }
    }
}

/// Bounds that are accepted for a replication are never looser than those of the
/// store, and those of accepted bounds never looser than both.
pub proof fn law_accepted_bounds_are_as_strict_as_the_store(
    inner: ReplicationLimits,
    middle: ReplicationLimits,
    outer: ReplicationLimits,
)
    requires
        replication::limits_are_within(inner, middle),
        replication::limits_are_within(middle, outer),
    ensures
        replication::limits_are_within(inner, outer),
        replication::limits_are_within(outer, outer),
{
}

/// A rekey makes its target current only after everything was staged and verified
/// and nobody cancelled it; every other way out gives the target up or says what
/// cleanup is owed.
pub proof fn law_a_rekey_is_activated_only_when_complete(
    stage: RekeyStage,
    cancelled: bool,
    answer: Result<bool, StoreFailure>,
)
    ensures
        requests::rekey_move(stage, cancelled, answer).1 is Activate ==> stage is Verifying
            && answer is Ok && !cancelled,
        requests::rekey_move(stage, cancelled, answer).1 == RekeyAction::End(Ok(())) ==> stage
            is Activating && answer is Ok,
        (stage is Listing || stage is Staging || stage is Verifying) && answer is Err
            ==> requests::rekey_move(stage, cancelled, answer).1 is Abort,
        (stage is Staging || stage is Verifying) && cancelled && answer is Ok
            ==> requests::rekey_move(stage, cancelled, answer) == (
            RekeyStage::Aborting(RepositoryPortError::Cancelled),
            RekeyAction::Abort,
        ),
        stage is Aborting && answer is Err ==> requests::rekey_move(stage, cancelled, answer).1
            == RekeyAction::End(Err(RepositoryPortError::CleanupRequired)),
{
}

} // verus!
