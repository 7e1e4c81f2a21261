//! Laws of what the service accepts: configurations, policies, commands, names, paths,
//! editors and requests.
use vstd::prelude::*;

use crate::command;
use crate::command::{Command, EntryKind, RevisionVersion};
use crate::error::ServiceError;
use crate::event::{Progress, ProgressUnit};
use crate::ports::editor;
use crate::ports::paths;
use crate::ports::paths::{LogicalParse, LogicalPathModel, PathModel, RegistryModel};
use crate::ports::rehome;
use crate::ports::secrets;
use crate::ports::workspace;
use crate::ports::workspace::LeaseModel;
use crate::ports::{HostPortError, NameError};
use crate::service;
use crate::service::identity;
use crate::service::identity::IdentityModel;
use crate::service::ConfigModel;
use crate::session;
use crate::session::errors;
use crate::session::errors::{RepositoryPortError, StoreFailure};
use crate::session::replication;
use crate::session::replication::ReplicationLimits;
use crate::session::repository;
use crate::session::repository::ListedModel;
use crate::session::requests;
use crate::session::requests::{InitializationModel, RekeyAction, RekeyStage, VaultConfigModel};
use crate::session::PolicyModel;

verus! {

/// A configuration is accepted exactly where every part of the service has room for at
/// least one and no more than its bound, and identities are left for all that can be
/// active at once.
pub proof fn law_a_configuration_is_bounded(config: ConfigModel)
    ensures
        service::config_is_valid(config) <==> {
            &&& 1 <= config.workers <= 64
            &&& 1 <= config.queue_capacity <= 4096
            &&& 1 <= config.event_capacity <= 1024
            &&& 1 <= config.completed_capacity <= 4096
            &&& 1 <= config.id_retries <= 64
            &&& config.queue_capacity + 2 * config.workers + 1 <= config.issued_capacity
        },
        service::active_capacity(config) == config.queue_capacity + config.workers
            + config.workers + 1,
{
}

/// In an accepted policy both timeouts are positive; the final save ends within
/// thirty seconds and before either timeout; and the warnings, sixteen at most, come
/// before the session ends, the longest notice first.
pub proof fn law_a_policy_warns_before_it_locks(policy: PolicyModel, i: int, j: int)
    ensures
        session::policy_is_valid(policy) ==> {
            &&& policy.inactivity_timeout@ > 0 && policy.absolute_timeout@ > 0
            &&& policy.final_save_grace@ <= policy.inactivity_timeout@
            &&& policy.final_save_grace@ <= policy.absolute_timeout@
            &&& policy.final_save_grace@ <= 30_000_000_000
            &&& policy.warning_offsets.len() <= 16
            &&& 0 <= i < policy.warning_offsets.len() ==> {
                &&& policy.warning_offsets[i]@ > 0
                &&& policy.warning_offsets[i]@ < policy.inactivity_timeout@
                &&& policy.warning_offsets[i]@ < policy.absolute_timeout@
            }
            &&& 0 <= i < j < policy.warning_offsets.len() ==> policy.warning_offsets[j]@
                < policy.warning_offsets[i]@
        },
        policy.inactivity_timeout@ > 0 && policy.absolute_timeout@ > 0
            && policy.warning_offsets.len() == 0 && policy.final_save_grace@
            <= policy.inactivity_timeout@ && policy.final_save_grace@ <= policy.absolute_timeout@
            && policy.final_save_grace@ <= 30_000_000_000 ==> session::policy_is_valid(policy),
{
}

/// An accepted policy stays accepted with one warning less at its end, and takes one
/// more at its end that is positive and shorter than all others and both timeouts.
pub proof fn law_a_policy_takes_a_shorter_warning(
    policy: PolicyModel,
    offset: crate::time::Duration,
)
    requires
        session::policy_is_valid(policy),
        policy.warning_offsets.len() < 16,
        offset@ > 0,
        offset@ < policy.inactivity_timeout@ && offset@ < policy.absolute_timeout@,
        policy.warning_offsets.len() > 0 ==> offset@ < policy.warning_offsets.last()@,
    ensures
        session::policy_is_valid(
            PolicyModel { warning_offsets: policy.warning_offsets.push(offset), ..policy },
        ),
{
    let more = policy.warning_offsets.push(offset);
    assert forall|i: int, j: int| 0 <= i < j < more.len() implies (#[trigger] more[j])@ < (
    #[trigger] more[i])@ by {
        if j == more.len() - 1 && i < policy.warning_offsets.len() - 1 {
            assert(policy.warning_offsets.last()@ < policy.warning_offsets[i]@);
        }
    }
}

/// Progress is accepted exactly where it is not past its total, and holds what it was
/// made of.
pub proof fn law_progress_never_passes_its_total(
    unit: ProgressUnit,
    completed: u64,
    total: Option<u64>,
    progress: Result<Progress, ServiceError>,
)
    requires
        call_ensures(Progress::new, (unit, completed, total), progress),
    ensures
        progress is Ok <==> (total is None || completed <= total->0),
        progress is Ok ==> progress->Ok_0@.unit == unit && progress->Ok_0@.completed == completed
            && progress->Ok_0@.total == total,
        progress is Err ==> progress->Err_0 == ServiceError::InvalidProgress,
{
}

/// A session carries out what it is told itself: listings and status always, and every
/// change or export that says what it is about; two commands that it carries out alike
/// are of one kind. Everything else, and everything without a session, goes to the
/// executor.
pub proof fn law_a_session_carries_out_its_commands(command: Command, other: Command)
    ensures
        command::dispatch_of(command, false) is Executor,
        command::dispatch_of(command, true) is ListEntries <==> command is List,
        command::dispatch_of(command, true) is Status <==> command is Status,
        command::dispatch_of(command, true) is CreateFile <==> command is CreateFile
            && command->CreateFile_0@ is Some,
        command::dispatch_of(command, true) is CreateDirectory <==> command is CreateDirectory
            && command->CreateDirectory_0@ is Some,
        command::dispatch_of(command, true) is ImportFile <==> command is ImportFile
            && command->ImportFile_0@ is Some,
        command::dispatch_of(command, true) is ExportFile <==> command is ExportFile
            && command->ExportFile_0@ is Some,
        command::dispatch_of(command, true) is Rename <==> command is RenameEntry
            && command->RenameEntry_0@ is Some,
        command::dispatch_of(command, true) is MoveEntry <==> command is MoveEntry
            && command->MoveEntry_0@ is Some,
        command::dispatch_of(command, true) is DeleteEntry <==> command is DeleteEntry
            && command->DeleteEntry_0@ is Some,
        command is EditFile || command is OpenVault || command is Sync || command is Backup
            ==> command::dispatch_of(command, true) is Executor,
{
}

/// Commands that change the vault, or edit a file in it, count as activity of the
/// user; those that only look at it, or copy it elsewhere, do not.
pub proof fn law_changes_are_activity(command: Command)
    ensures
        command::resets_inactivity(command) <==> !(command is List || command is Status
            || command is ExportFile || command is OpenVault || command is Sync
            || command is Backup),
{
}

/// An entry is bound to a revision exactly where it is a file, and a tombstone is
/// never bound.
pub proof fn law_only_files_have_revisions(kind: EntryKind, revision: RevisionVersion)
    ensures
        command::is_entry_binding(kind, Some(revision)) <==> kind is File,
        command::is_entry_binding(kind, None) <==> kind is Directory,
{
}

/// The kind of a listed entry is shown as it is, with its identities, its name and its
/// revision.
pub proof fn law_an_entry_is_shown_as_it_is(entry: ListedModel)
    ensures
        ({
            let shown = repository::summary_of(entry);
            &&& shown.opaque_id == entry.id && shown.parent_id == entry.parent
            &&& shown.name == entry.name && shown.revision_id == entry.revision
            &&& shown.kind is File <==> entry.kind is File
            &&& shown.kind is Directory <==> entry.kind is Directory
            &&& shown.kind is Tombstone <==> entry.kind is Tombstone
        }),
{
}

/// A name is refused as too long exactly where it takes more than its bound, before it
/// is looked at; and otherwise for what is wrong with it.
pub proof fn law_a_name_is_measured_first(value: Seq<char>, parsed: command::ParsedName)
    ensures
        ({
            let failure = command::name_failure(value, parsed);
            let entry_failure = repository::entry_name_failure(value, parsed);
            let long = paths::text_bytes(value) > 1024;
            &&& long ==> failure == Some(ServiceError::CapacityExceeded) && entry_failure == Some(
                RepositoryPortError::CapacityExceeded,
            )
            &&& !long && parsed is Ok ==> failure is None
            &&& !long && parsed is Ok && paths::text_bytes(parsed->Ok_0@) <= 1024
                ==> entry_failure is None
            &&& !long && parsed is Ok && paths::text_bytes(parsed->Ok_0@) > 1024 ==> entry_failure
                == Some(RepositoryPortError::CapacityExceeded)
            &&& !long && parsed is Err ==> {
                &&& failure == Some(ServiceError::AllocationFailed)
                    <==> parsed->Err_0 is AllocationFailed
                &&& failure == Some(ServiceError::CapacityExceeded)
                    <==> parsed->Err_0 is CapacityExceeded
                &&& failure == Some(ServiceError::InvalidInput) <==> parsed->Err_0 is Invalid
                &&& entry_failure == Some(RepositoryPortError::AllocationFailed)
                    <==> parsed->Err_0 is AllocationFailed
                &&& entry_failure == Some(RepositoryPortError::CapacityExceeded)
                    <==> parsed->Err_0 is CapacityExceeded
                &&& entry_failure == Some(RepositoryPortError::InvalidInput)
                    <==> parsed->Err_0 is Invalid
            }
        }),
{
}

/// A native path that leads anywhere but down from a root is refused: it must be
/// absolute, not empty, no longer than its bound and free of zero bytes; a root must
/// stand in it, once and first or behind a prefix; and every other part is a plain
/// name.
pub proof fn law_an_absolute_path_leads_down_from_its_root(path: PathModel, i: int, j: int)
    requires
        paths::is_valid_absolute(path),
    ensures
        path.absolute,
        1 <= path.encoded.len() <= 32 * 1024,
        0 <= i < path.encoded.len() ==> path.encoded[i] != 0,
        0 <= i < path.components.len() ==> {
            &&& !(path.components[i] is CurDir) && !(path.components[i] is ParentDir)
            &&& path.components[i] is Prefix ==> i == 0
            &&& path.components[i] is RootDir ==> i <= 1
            &&& path.components[i] is Normal ==> path.components[i]->Normal_0.len() > 0
        },
        0 <= i < j < path.components.len() ==> !(path.components[i] is RootDir
            && path.components[j] is RootDir),
        exists|k: int| 0 <= k < path.components.len() && #[trigger] path.components[k] is RootDir,
{
    if 0 <= i < path.components.len() {
        assert(paths::component_is_plain(path.components, i));
    }
    if 0 <= j < path.components.len() {
        assert(paths::component_is_plain(path.components, j));
    }
}

/// A path of a root and plain names, within its bound and free of zero bytes, is
/// accepted.
pub proof fn law_a_plain_absolute_path_is_accepted(path: PathModel)
    requires
        path.absolute,
        1 <= path.encoded.len() <= 32 * 1024,
        forall|i: int| 0 <= i < path.encoded.len() ==> #[trigger] path.encoded[i] != 0,
        path.components.len() > 0,
        path.components[0] is RootDir,
        forall|i: int|
            1 <= i < path.components.len() ==> (#[trigger] path.components[i]) is Normal
                && path.components[i]->Normal_0.len() > 0,
    ensures
        paths::is_valid_absolute(path),
{
    assert forall|index: int| 0 <= index < path.components.len() implies
        #[trigger] paths::component_is_plain(path.components, index) by {
        if index > 0 {
            assert(path.components[index] is Normal);
        }
    }
    assert(path.components[0] is RootDir);
}

/// A path lies below another exactly where it begins with all of its parts; every path
/// lies below itself, and below what its parents lie below.
pub proof fn law_below_is_an_order(path: PathModel, middle: PathModel, base: PathModel)
    ensures
        paths::starts_with(path, path),
        paths::starts_with(path, middle) && paths::starts_with(middle, base)
            ==> paths::starts_with(path, base),
        paths::starts_with(path, base) && paths::starts_with(base, path) ==> paths::same_path(
            path,
            base,
        ),
        paths::same_path(path, base) <==> path.components == base.components,
        paths::starts_with(path, base) ==> base.components.len() <= path.components.len() && (
        forall|i: int|
            0 <= i < base.components.len() ==> path.components[i] == base.components[i]),
{
    assert(path.components.subrange(0, path.components.len() as int) =~= path.components);
    if paths::starts_with(path, middle) && paths::starts_with(middle, base) {
        assert(path.components.subrange(0, base.components.len() as int)
            =~= middle.components.subrange(0, base.components.len() as int));
    }
    if paths::starts_with(path, base) {
        assert forall|i: int| 0 <= i < base.components.len() implies path.components[i]
            == base.components[i] by {
            assert(path.components.subrange(0, base.components.len() as int)[i]
                == path.components[i]);
        }
        if paths::starts_with(base, path) {
            assert(path.components =~= base.components);
        }
    }
}

/// An editor works below the root of its workspace, and on the root itself only where
/// the whole vault is open; a file of a workspace lies below its root and is not it.
pub proof fn law_an_editor_stays_in_its_workspace(lease: LeaseModel, path: PathModel)
    ensures
        editor::is_editor_path(lease, path) ==> paths::is_valid_absolute(path)
            && paths::starts_with(path, lease.root),
        editor::is_editor_path(lease, path) && path.components == lease.root.components
            ==> lease.mode is WholeVault,
        paths::is_valid_absolute(path) && paths::starts_with(path, lease.root) && (path.components
            != lease.root.components || lease.mode is WholeVault) ==> editor::is_editor_path(
            lease,
            path,
        ),
        workspace::is_workspace_child(lease, path) <==> paths::is_valid_absolute(path)
            && paths::starts_with(path, lease.root) && path.components != lease.root.components,
        workspace::is_workspace_child(lease, path) ==> editor::is_editor_path(lease, path),
        workspace::selection_failure(path) is None <==> paths::is_valid_absolute(path),
        path.encoded.len() > 32 * 1024 ==> workspace::selection_failure(path) == Some(
            ServiceError::CapacityExceeded,
        ),
        path.encoded.len() <= 32 * 1024 && !paths::is_valid_absolute(path)
            ==> workspace::selection_failure(path) == Some(ServiceError::InvalidInput),
{
}

/// How many separators a logical path holds.
pub open spec fn separators(path: Seq<u8>) -> nat {
    path.filter(|byte: u8| byte == 0x2f).len()
}

/// The depth of a logical path is one more than the number of its separators.
pub proof fn law_depth_counts_separators(path: Seq<u8>)
    ensures
        paths::logical_depth(path) == separators(path) + 1,
    decreases path.len(),
{
    reveal(Seq::filter);
    if path.len() > 0 {
        law_depth_counts_separators(path.drop_last());
    }
}

/// A run of a path without a separator.
pub open spec fn is_run(path: Seq<u8>, from: int, to: int) -> bool {
    &&& 0 <= from <= to <= path.len()
    &&& forall|i: int| from <= i < to ==> #[trigger] path[i] != 0x2f
}

proof fn lemma_last_run(path: Seq<u8>)
    ensures
        paths::last_component_length(path) <= path.len(),
        is_run(path, path.len() - paths::last_component_length(path), path.len() as int),
        forall|from: int|
            #[trigger] is_run(path, from, path.len() as int) ==> path.len() - from
                <= paths::last_component_length(path),
    decreases path.len(),
{
    if path.len() > 0 && path.last() != 0x2f {
        let before = path.drop_last();
        lemma_last_run(before);
        let own = paths::last_component_length(path);
        assert forall|i: int| path.len() - own <= i < path.len() implies #[trigger] path[i]
            != 0x2f by {
            if i < before.len() {
                assert(before[i] != 0x2f);
            }
        }
        assert forall|from: int| #[trigger] is_run(path, from, path.len() as int) implies path.len()
            - from <= own by {
            if from <= before.len() {
                assert forall|i: int| from <= i < before.len() implies #[trigger] before[i]
                    != 0x2f by {
                    assert(path[i] != 0x2f);
                }
                assert(is_run(before, from, before.len() as int));
            }
        }
    } else {
        assert forall|from: int| #[trigger] is_run(path, from, path.len() as int) implies path.len()
            - from <= 0 by {
            if from < path.len() {
                assert(path[path.len() - 1] != 0x2f);
            }
        }
    }
}

/// The longest component of a logical path is its longest run without a separator:
/// there is such a run, and no longer one.
pub proof fn law_the_longest_component_is_the_longest_run(path: Seq<u8>)
    ensures
        forall|from: int, to: int|
            #[trigger] is_run(path, from, to) ==> to - from <= paths::longest_component(path),
        exists|from: int, to: int|
            #[trigger] is_run(path, from, to) && to - from == paths::longest_component(path),
    decreases path.len(),
{
    lemma_last_run(path);
    if path.len() == 0 {
        assert(is_run(path, 0, 0));
    } else {
        let before = path.drop_last();
        law_the_longest_component_is_the_longest_run(before);
        assert forall|from: int, to: int| #[trigger] is_run(path, from, to) implies to - from
            <= paths::longest_component(path) by {
            if to <= before.len() {
                assert forall|i: int| from <= i < to implies #[trigger] before[i] != 0x2f by {
                    assert(path[i] != 0x2f);
                }
                assert(is_run(before, from, to));
            }
        }
        let own = paths::last_component_length(path);
        if paths::longest_component(before) <= own {
            assert(is_run(path, path.len() - own, path.len() as int));
        } else {
            let (from, to) = choose|from: int, to: int|
                #[trigger] is_run(before, from, to) && to - from == paths::longest_component(
                    before,
                );
            assert forall|i: int| from <= i < to implies #[trigger] path[i] != 0x2f by {
                assert(before[i] != 0x2f);
            }
            assert(is_run(path, from, to));
        }
    }
}

/// A logical path fits exactly within its bounds on length, depth and components.
pub proof fn law_a_logical_path_fits_its_bounds(path: Seq<u8>, from: int, to: int)
    ensures
        paths::logical_path_fits(path) ==> path.len() <= 16_399 && separators(path) < 16 && (is_run(
            path,
            from,
            to,
        ) ==> to - from <= 1024),
        path.len() <= 1024 && separators(path) < 16 ==> paths::logical_path_fits(path),
{
    law_depth_counts_separators(path);
    law_the_longest_component_is_the_longest_run(path);
}

/// A logical path is refused where it is no text, where it does not fit, and for what
/// is wrong with it; and is accepted where it parses and can be shown.
pub proof fn law_a_logical_path_is_measured_first(
    path: Option<Seq<char>>,
    parsed: Result<LogicalParse, NameError>,
)
    ensures
        ({
            let failure = paths::logical_path_failure(path, parsed);
            &&& path is None ==> failure == Some(HostPortError::InvalidInput)
            &&& path is Some && !paths::logical_path_fits(vstd::utf8::encode_utf8(path->0))
                ==> failure == Some(HostPortError::CapacityExceeded)
            &&& path is Some && paths::logical_path_fits(vstd::utf8::encode_utf8(path->0)) ==> {
                &&& failure is None <==> parsed is Ok && parsed->Ok_0.rendered is Ok
                &&& parsed is Err ==> {
                    &&& failure == Some(HostPortError::AllocationFailed)
                        <==> parsed->Err_0 is AllocationFailed
                    &&& failure == Some(HostPortError::CapacityExceeded)
                        <==> parsed->Err_0 is CapacityExceeded
                    &&& failure == Some(HostPortError::InvalidInput) <==> parsed->Err_0 is Invalid
                }
                &&& parsed is Ok && parsed->Ok_0.rendered is Err ==> {
                    &&& failure == Some(HostPortError::AllocationFailed)
                        <==> parsed->Ok_0.rendered->Err_0 is AllocationFailed
                    &&& failure == Some(HostPortError::CapacityExceeded) <==> !(
                    parsed->Ok_0.rendered->Err_0 is AllocationFailed)
                }
            }
        }),
{
}

/// A path is registered under its collision key exactly where nothing else is, and
/// there is room for it, in number and in bytes; a path that is registered already is
/// accepted again, and one that collides with another is refused.
pub proof fn law_a_path_is_registered_under_its_key(
    registry: RegistryModel,
    path: LogicalPathModel,
    error: HostPortError,
)
    ensures
        path.collision_key is Err ==> paths::insert_answer(registry, path) == Err::<
            (),
            HostPortError,
        >(path.collision_key->Err_0) && paths::after_insert(registry, path) == registry,
        path.collision_key is Ok ==> {
            let key = path.collision_key->Ok_0;
            let answer = paths::insert_answer(registry, path);
            let after = paths::after_insert(registry, path);
            let known = registry.paths.contains_key(key);
            let fits = registry.paths.len() != registry.maximum && paths::text_bytes(key) <= 16_399
                && registry.collision_key_bytes + paths::text_bytes(key) + paths::text_bytes(
                path.path,
            ) <= 64 * 1024 * 1024;
            &&& answer is Ok <==> (known && registry.paths[key] == path.path) || (!known && fits)
            &&& known && registry.paths[key] != path.path ==> answer == Err::<(), HostPortError>(
                HostPortError::InvalidInput,
            )
            &&& !known && !fits ==> answer == Err::<(), HostPortError>(
                HostPortError::CapacityExceeded,
            )
            &&& known || !fits ==> after == registry
            &&& !known && fits ==> after.paths == registry.paths.insert(key, path.path)
                && after.collision_key_bytes == registry.collision_key_bytes + paths::text_bytes(
                key,
            ) + paths::text_bytes(path.path) && after.maximum == registry.maximum
        },
{
}

/// A secret of a recovery is text, not empty, within its bound and without a zero byte.
pub proof fn law_a_recovery_secret_is_bounded_text(bytes: Seq<u8>, i: int)
    ensures
        secrets::is_recovery_secret(bytes) ==> 1 <= bytes.len() <= 1024
            && vstd::utf8::valid_utf8(bytes) && (0 <= i < bytes.len() ==> bytes[i] != 0),
        1 <= bytes.len() <= 1024 && vstd::utf8::valid_utf8(bytes) && (forall|k: int|
            0 <= k < bytes.len() ==> #[trigger] bytes[k] != 0) ==> secrets::is_recovery_secret(
            bytes,
        ),
{
}

/// A chosen secret begins a recovery only where it was entered and its risk was
/// acknowledged in the current version; a generated one needs neither.
pub proof fn law_a_chosen_secret_needs_its_acknowledgement(request: InitializationModel)
    ensures
        request.policy is Generated ==> requests::initialization_is_complete(request),
        request.policy is CustomV1 ==> (requests::initialization_is_complete(request) <==>
            request.custom is Some && request.risk is Some && request.risk->0 == 1),
{
}

/// A target names something exactly where it is not all zeros.
pub proof fn law_a_target_is_not_all_zeros(target: [u8; 16])
    ensures
        requests::names_target(target) <==> !(forall|i: int|
            0 <= i < 16 ==> #[trigger] target@[i] == 0),
{
}

/// A vault is configured with two roots that differ and a label of the device that is
/// not empty, within its bound and without a zero byte.
pub proof fn law_a_vault_has_two_roots_and_a_label(config: VaultConfigModel)
    ensures
        requests::config_is_valid(config) ==> {
            let label = vstd::utf8::encode_utf8(config.device_label);
            &&& paths::is_valid_absolute(config.repository_root)
            &&& paths::is_valid_absolute(config.local_state_root)
            &&& config.repository_root.components != config.local_state_root.components
            &&& 1 <= label.len() <= 256
            &&& forall|i: int| 0 <= i < label.len() ==> #[trigger] label[i] != 0
        },
        paths::is_valid_absolute(config.repository_root) && paths::is_valid_absolute(
            config.local_state_root,
        ) && config.repository_root.components != config.local_state_root.components
            && 1 <= vstd::utf8::encode_utf8(config.device_label).len() <= 256
            && rehome::has_no_zero(vstd::utf8::encode_utf8(config.device_label))
            ==> requests::config_is_valid(config),
{
}

/// A rekey opens its target, stages what is listed, one entry after the other, verifies
/// when nothing is left, makes the target current and ends with success, where all of
/// these succeed and nobody cancels it.
pub proof fn law_a_rekey_comes_to_its_end(made: bool)
    ensures
        requests::rekey_move(RekeyStage::Opening, false, Ok(made)) == (
            RekeyStage::Listing,
            RekeyAction::NextEntry,
        ),
        requests::rekey_move(RekeyStage::Listing, false, Ok(true)) == (
            RekeyStage::Staging,
            RekeyAction::StageEntry,
        ),
        requests::rekey_move(RekeyStage::Staging, false, Ok(made)) == (
            RekeyStage::Listing,
            RekeyAction::NextEntry,
        ),
        requests::rekey_move(RekeyStage::Listing, false, Ok(false)) == (
            RekeyStage::Verifying,
            RekeyAction::Verify,
        ),
        requests::rekey_move(RekeyStage::Verifying, false, Ok(made)) == (
            RekeyStage::Activating,
            RekeyAction::Activate,
        ),
        requests::rekey_move(RekeyStage::Activating, false, Ok(made)) == (
            RekeyStage::Over,
            RekeyAction::End(Ok(())),
        ),
{
}

/// What a rekey fails with is what it ends with: at once where nothing was opened or
/// everything was handed over, and otherwise after its target was given up. A cancelled
/// one is given up as cancelled; and a target that cannot be given up needs cleanup.
pub proof fn law_a_failed_rekey_reports_its_failure(
    stage: RekeyStage,
    cancelled: bool,
    later: bool,
    error: StoreFailure,
    made: bool,
)
    ensures
        stage is Opening || stage is Activating ==> requests::rekey_move(
            stage,
            cancelled,
            Err(error),
        ).1 == RekeyAction::End(Err(errors::store_failure(error))),
        stage is Listing || stage is Staging || stage is Verifying ==> {
            let failed = requests::rekey_move(stage, cancelled, Err(error));
            &&& failed.1 is Abort
            &&& requests::rekey_move(failed.0, later, Ok(made)).1 == RekeyAction::End(
                Err(errors::store_failure(error)),
            )
            &&& requests::rekey_move(failed.0, later, Err(error)).1 == RekeyAction::End(
                Err(RepositoryPortError::CleanupRequired),
            )
        },
        stage is Opening || stage is Staging || stage is Verifying ==> {
            let stopped = requests::rekey_move(stage, true, Ok(made));
            &&& stopped.1 is Abort
            &&& requests::rekey_move(stopped.0, later, Ok(made)).1 == RekeyAction::End(
                Err(RepositoryPortError::Cancelled),
            )
        },
        requests::rekey_move(RekeyStage::Over, cancelled, Ok(made)).1 == RekeyAction::End(
            Err(RepositoryPortError::Locked),
        ),
{
}

/// A proof of absence is staged exactly where there is room for it, none is held for
/// its workspace, and memory is granted.
pub proof fn law_a_proof_is_staged_once(held: Seq<([u8; 16], u64)>, id: [u8; 16], granted: bool)
    ensures
        ({
            let answer = requests::stage_answer(held, id, granted);
            let known = exists|i: int| 0 <= i < held.len() && (#[trigger] held[i]).0 == id;
            let full = held.len() == 1024;
            &&& answer is Ok <==> !full && !known && granted
            &&& full ==> answer == Err::<(), RepositoryPortError>(
                RepositoryPortError::CapacityExceeded,
            )
            &&& !full && known ==> answer == Err::<(), RepositoryPortError>(
                RepositoryPortError::Busy,
            )
            &&& !full && !known && !granted ==> answer == Err::<(), RepositoryPortError>(
                RepositoryPortError::AllocationFailed,
            )
        }),
{
    let known = exists|i: int| 0 <= i < held.len() && (#[trigger] held[i]).0 == id;
    if known {
        let place = choose|i: int| 0 <= i < held.len() && (#[trigger] held[i]).0 == id;
        assert(requests::proof_at(held, id, place));
    }
    if requests::holds_proof(held, id) {
        let place = choose|i: int| requests::proof_at(held, id, i);
        assert(held[place].0 == id);
    }
}

/// How the absence of a workspace is denied keeps its meaning for the store.
pub proof fn law_a_denied_absence_keeps_its_meaning(error: HostPortError)
    ensures
        requests::absence_failure(error) is Busy <==> error is LiveWorkspace,
        requests::absence_failure(error) is LimitExceeded <==> error is CapacityExceeded,
        requests::absence_failure(error) is AllocationFailed <==> error is AllocationFailed,
        requests::absence_failure(error) is InvalidCapability <==> !(error is LiveWorkspace
            || error is CapacityExceeded || error is AllocationFailed),
{
}

/// Limits of a replication are usable exactly where every bound but the reserve lets
/// something through and progress comes within the duration.
pub proof fn law_usable_limits_let_something_through(limits: ReplicationLimits)
    ensures
        replication::limits_are_usable(limits) <==> !(limits.max_bootstrap_bytes == 0
            || limits.max_head_bytes == 0 || limits.max_chunk_object_bytes == 0
            || limits.max_manifest_object_bytes == 0 || limits.max_tree_object_bytes == 0
            || limits.max_snapshot_object_bytes == 0 || limits.max_aggregate_bytes == 0
            || limits.max_object_count == 0 || limits.max_graph_edges == 0
            || limits.max_graph_depth == 0 || limits.max_quarantine_bytes == 0
            || limits.max_duration@ == 0 || limits.progress_interval@ == 0
            || limits.progress_interval@ > limits.max_duration@),
{
}

/// No bound of limits that are within others exceeds theirs, and the reserve is at
/// least theirs.
pub proof fn law_limits_within_others_do_not_exceed_them(
    limits: ReplicationLimits,
    outer: ReplicationLimits,
)
    requires
        replication::limits_are_within(limits, outer),
    ensures
        limits.max_bootstrap_bytes <= outer.max_bootstrap_bytes,
        limits.max_head_bytes <= outer.max_head_bytes,
        limits.max_chunk_object_bytes <= outer.max_chunk_object_bytes,
        limits.max_manifest_object_bytes <= outer.max_manifest_object_bytes,
        limits.max_tree_object_bytes <= outer.max_tree_object_bytes,
        limits.max_snapshot_object_bytes <= outer.max_snapshot_object_bytes,
        limits.max_aggregate_bytes <= outer.max_aggregate_bytes,
        limits.max_object_count <= outer.max_object_count,
        limits.max_graph_edges <= outer.max_graph_edges,
        limits.max_graph_depth <= outer.max_graph_depth,
        limits.max_quarantine_bytes <= outer.max_quarantine_bytes,
        limits.max_duration@ <= outer.max_duration@,
        limits.progress_interval@ <= outer.progress_interval@,
        limits.free_space_reserve_bytes >= outer.free_space_reserve_bytes,
{
}

/// Limits whose bounds do not exceed others', and whose reserve is at least theirs,
/// are within them.
pub proof fn law_tighter_limits_are_within(limits: ReplicationLimits, outer: ReplicationLimits)
    requires
        limits.max_bootstrap_bytes <= outer.max_bootstrap_bytes,
        limits.max_head_bytes <= outer.max_head_bytes,
        limits.max_chunk_object_bytes <= outer.max_chunk_object_bytes,
        limits.max_manifest_object_bytes <= outer.max_manifest_object_bytes,
        limits.max_tree_object_bytes <= outer.max_tree_object_bytes,
        limits.max_snapshot_object_bytes <= outer.max_snapshot_object_bytes,
        limits.max_aggregate_bytes <= outer.max_aggregate_bytes,
        limits.max_object_count <= outer.max_object_count,
        limits.max_graph_edges <= outer.max_graph_edges,
        limits.max_graph_depth <= outer.max_graph_depth,
        limits.max_quarantine_bytes <= outer.max_quarantine_bytes,
        limits.max_duration@ <= outer.max_duration@,
        limits.progress_interval@ <= outer.progress_interval@,
        limits.free_space_reserve_bytes >= outer.free_space_reserve_bytes,
    ensures
        replication::limits_are_within(limits, outer),
{
}

/// A request is kept where it is neither empty nor longer than its bound.
pub proof fn law_a_request_is_neither_empty_nor_too_long(bytes: Seq<u8>, maximum: usize)
    ensures
        replication::request_failure(bytes, maximum) is None <==> 1 <= bytes.len() <= maximum,
        bytes.len() == 0 ==> replication::request_failure(bytes, maximum) == Some(
            RepositoryPortError::InvalidInput,
        ),
        bytes.len() > 0 && bytes.len() > maximum ==> replication::request_failure(bytes, maximum)
            == Some(RepositoryPortError::CapacityExceeded),
{
}

/// How many bytes the arguments of an editor take, one more for each.
pub open spec fn total_length(arguments: Seq<Seq<u8>>) -> nat {
    arguments.fold_left(0, |sum: nat, argument: Seq<u8>| sum + argument.len() + 1)
}

proof fn lemma_total_length(arguments: Seq<Seq<u8>>, count: nat)
    requires
        count <= arguments.len(),
    ensures
        editor::arguments_length(arguments, count) == total_length(arguments.take(count as int)),
    decreases count,
{
    if count > 0 {
        lemma_total_length(arguments, (count - 1) as nat);
        let taken = arguments.take(count as int);
        assert(taken.drop_last() =~= arguments.take(count - 1));
        assert(taken.last() == arguments[count - 1]);
    }
}

/// An argument is refused where it holds a zero byte, or is longer than its bound.
pub open spec fn is_bad_argument(argument: Seq<u8>) -> bool {
    argument.len() > 4096 || exists|i: int| 0 <= i < argument.len() && #[trigger] argument[i] == 0
}

proof fn lemma_first_failure(arguments: Seq<Seq<u8>>, count: nat)
    requires
        count <= arguments.len(),
    ensures
        editor::first_argument_failure(arguments, count) is None <==> forall|i: int|
            0 <= i < count ==> !is_bad_argument(#[trigger] arguments[i]),
    decreases count,
{
    if count > 0 {
        lemma_first_failure(arguments, (count - 1) as nat);
        let last = arguments[count - 1];
        if rehome::has_no_zero(last) {
            assert(forall|i: int| 0 <= i < last.len() ==> #[trigger] last[i] != 0);
        }
    }
}

/// An editor is accepted exactly where its executable is a name without a zero byte
/// within its bound, its arguments are few enough, none of them is bad, and all of it
/// together is within its bound, with what is added to it.
pub proof fn law_an_editor_command_is_bounded(
    executable: Seq<u8>,
    arguments: Seq<Seq<u8>>,
    extra_bytes: nat,
    extra_arguments: nat,
)
    ensures
        ({
            let failure = editor::command_failure(
                executable,
                arguments,
                extra_bytes,
                extra_arguments,
            );
            let nameless = executable.len() == 0 || exists|i: int|
                0 <= i < executable.len() && #[trigger] executable[i] == 0;
            let many = executable.len() > 4096 || arguments.len() + extra_arguments > 64;
            let bad = exists|i: int|
                0 <= i < arguments.len() && is_bad_argument(#[trigger] arguments[i]);
            let long = executable.len() + extra_bytes + total_length(arguments) > 32 * 1024;
            &&& failure is None <==> !nameless && !many && !bad && !long
            &&& nameless ==> failure == Some(HostPortError::InvalidInput)
            &&& !nameless && many ==> failure == Some(HostPortError::CapacityExceeded)
            &&& !nameless && !many && !bad && long ==> failure == Some(
                HostPortError::CapacityExceeded,
            )
        }),
{
    lemma_first_failure(arguments, arguments.len());
    lemma_total_length(arguments, arguments.len());
    assert(arguments.take(arguments.len() as int) =~= arguments);
    if rehome::has_no_zero(executable) {
        assert(forall|i: int| 0 <= i < executable.len() ==> #[trigger] executable[i] != 0);
    }
}

/// A value of the environment names an editor where it is not empty, within its bound
/// and without a zero byte.
pub proof fn law_an_environment_names_an_editor(value: Seq<u8>)
    ensures
        ({
            let failure = editor::environment_failure(value);
            let nameless = value.len() == 0 || exists|i: int|
                0 <= i < value.len() && #[trigger] value[i] == 0;
            &&& failure is None <==> !nameless && value.len() <= 4096
            &&& nameless ==> failure == Some(HostPortError::InvalidInput)
            &&& !nameless && value.len() > 4096 ==> failure == Some(HostPortError::CapacityExceeded)
        }),
{
    if rehome::has_no_zero(value) {
        assert(forall|i: int| 0 <= i < value.len() ==> #[trigger] value[i] != 0);
    }
}

/// Identities are exhausted exactly without a nonce, or when as many were given out as
/// may be, or as there are. A nonce is taken once, and only one that is not all zeros.
pub proof fn law_identities_end_with_their_number(
    identity: IdentityModel,
    issued_capacity: u64,
    nonce: [u8; 8],
)
    ensures
        !identity::is_exhausted(identity, issued_capacity) <==> identity.nonce is Some
            && identity.next != issued_capacity && identity.next < u64::MAX,
        identity.nonce is Some ==> identity::after_nonce(identity, nonce) == identity,
        identity.nonce is None && (forall|i: int| 0 <= i < 8 ==> #[trigger] nonce@[i] == 0)
            ==> identity::after_nonce(identity, nonce) == identity,
        identity.nonce is None && !(forall|i: int| 0 <= i < 8 ==> #[trigger] nonce@[i] == 0)
            ==> identity::after_nonce(identity, nonce) == (IdentityModel {
            nonce: Some(nonce),
            ..identity
        }),
{
}

} // verus!
