//! Commands, their names and where they are sent.
use notecrypt_service::command::{
    validate_entry_binding, validated_name, BackupVault, Command, CreateDirectory, CreateFile,
    DeleteEntry, Dispatch, EditFile, EntryId, EntryKind, ExportFile, ImportFile, ListEntries,
    MoveEntry, OpenWholeVault, RenameEntry, RevisionVersion, SnapshotVersion, SyncVault,
    VaultStatusRequest,
};
use notecrypt_service::ports::paths::{NativePath, PathComponent};
use notecrypt_service::ports::workspace::ExportOverwriteConfirmation;
use notecrypt_service::ports::{NameError, MAX_LOGICAL_COMPONENT_BYTES, MAX_NATIVE_PATH_BYTES};
use notecrypt_service::{Progress, ProgressUnit, ServiceError};

fn path(text: &str) -> NativePath {
    let mut components = vec![PathComponent::RootDir];
    for part in text.split('/').filter(|part| !part.is_empty()) {
        components.push(PathComponent::Normal(part.as_bytes().to_vec()));
    }
    NativePath::new(text.as_bytes().to_vec(), true, components)
}

fn snapshot() -> SnapshotVersion {
    SnapshotVersion::new([0x11; 32])
}

fn parent() -> EntryId {
    EntryId::new([0x22; 16])
}

#[test]
fn mutation_command_bounds_accept_maximum_and_reject_maximum_plus_one() {
    let maximum_name = "n".repeat(MAX_LOGICAL_COMPONENT_BYTES);
    assert!(
        CreateFile::try_new(snapshot(), parent(), &maximum_name, Ok(maximum_name.clone())).is_ok()
    );
    let oversized_name = "n".repeat(MAX_LOGICAL_COMPONENT_BYTES + 1);
    assert!(matches!(
        CreateFile::try_new(snapshot(), parent(), &oversized_name, Ok(oversized_name.clone())),
        Err(ServiceError::CapacityExceeded)
    ));

    let maximum_path = path(&format!("/{}", "p".repeat(MAX_NATIVE_PATH_BYTES - 1)));
    assert!(ImportFile::try_new(
        snapshot(),
        parent(),
        "bounded",
        Ok("bounded".to_owned()),
        maximum_path
    )
    .is_ok());
    let oversized_path = path(&format!("/{}", "p".repeat(MAX_NATIVE_PATH_BYTES)));
    assert!(matches!(
        ImportFile::try_new(
            snapshot(),
            parent(),
            "bounded",
            Ok("bounded".to_owned()),
            oversized_path
        ),
        Err(ServiceError::CapacityExceeded)
    ));
}

#[test]
fn a_kept_name_is_what_the_rules_made_of_it() {
    let kept = validated_name("Cafe\u{301}", Ok("Caf\u{e9}".to_owned())).unwrap();
    assert_eq!(kept.as_str(), "Caf\u{e9}");
    assert_eq!(
        validated_name("x", Err(NameError::Invalid)).err(),
        Some(ServiceError::InvalidInput)
    );
    assert_eq!(
        validated_name("x", Err(NameError::AllocationFailed)).err(),
        Some(ServiceError::AllocationFailed)
    );
    assert_eq!(
        validated_name("x", Err(NameError::CapacityExceeded)).err(),
        Some(ServiceError::CapacityExceeded)
    );
}

#[test]
fn bindings_have_a_revision_exactly_for_files() {
    let revision = Some(RevisionVersion::new([1; 32]));
    assert_eq!(validate_entry_binding(EntryKind::File, &revision), Ok(()));
    assert_eq!(validate_entry_binding(EntryKind::Directory, &None), Ok(()));
    assert_eq!(validate_entry_binding(EntryKind::File, &None), Err(ServiceError::InvalidInput));
    assert_eq!(
        validate_entry_binding(EntryKind::Directory, &revision),
        Err(ServiceError::InvalidInput)
    );
    assert_eq!(
        validate_entry_binding(EntryKind::Tombstone, &None),
        Err(ServiceError::InvalidInput)
    );
}

#[test]
fn a_rename_keeps_the_parent_and_a_move_keeps_the_name() {
    let entry = EntryId::new([3; 16]);
    let renamed = RenameEntry::try_new(
        snapshot(),
        entry,
        parent(),
        "old",
        Ok("old".to_owned()),
        EntryKind::Directory,
        None,
        "new",
        Ok("new".to_owned()),
    )
    .unwrap();
    assert!(renamed.is_configured());
    let parts = renamed.into_parts().unwrap();
    assert_eq!(parts.new_parent, parent());
    assert_eq!(parts.expected_name.as_str(), "old");
    assert_eq!(parts.new_name.as_str(), "new");
    let moved = MoveEntry::try_new(
        snapshot(),
        entry,
        parent(),
        "old",
        Ok("old".to_owned()),
        EntryKind::File,
        Some(RevisionVersion::new([1; 32])),
        EntryId::new([4; 16]),
    )
    .unwrap();
    let parts = moved.into_parts().unwrap();
    assert_eq!(parts.new_parent, EntryId::new([4; 16]));
    assert_eq!(parts.new_name.as_str(), "old");
    assert!(matches!(
        MoveEntry::try_new(
            snapshot(),
            entry,
            parent(),
            "old",
            Ok("old".to_owned()),
            EntryKind::File,
            None,
            parent()
        ),
        Err(ServiceError::InvalidInput)
    ));
}

#[test]
fn deletions_name_a_revision_exactly_for_files() {
    let entry = EntryId::new([3; 16]);
    let file = DeleteEntry::try_file(
        snapshot(),
        entry,
        parent(),
        "x",
        Ok("x".to_owned()),
        RevisionVersion::new([1; 32]),
    )
    .unwrap();
    assert_eq!(file.into_parts().unwrap().expected_revision, Some(RevisionVersion::new([1; 32])));
    let directory =
        DeleteEntry::try_directory(snapshot(), entry, parent(), "x", Ok("x".to_owned())).unwrap();
    assert_eq!(directory.into_parts().unwrap().expected_revision, None);
}

#[test]
fn unconfigured_requests_have_no_parts_and_go_to_the_executor() {
    assert!(matches!(CreateFile::unconfigured().into_parts(), Err(ServiceError::InvalidInput)));
    assert!(!ExportFile::unconfigured().is_configured());
    let command = Command::CreateDirectory(CreateDirectory::unconfigured());
    assert_eq!(command.dispatch(true), Dispatch::Executor);
    let made = CreateDirectory::try_new(snapshot(), parent(), "d", Ok("d".to_owned())).unwrap();
    let command = Command::CreateDirectory(made);
    assert_eq!(command.dispatch(true), Dispatch::CreateDirectory);
    assert_eq!(command.dispatch(false), Dispatch::Executor);
    assert_eq!(Command::List(ListEntries).dispatch(true), Dispatch::ListEntries);
    assert_eq!(Command::List(ListEntries).dispatch(false), Dispatch::Executor);
    assert_eq!(Command::Sync(SyncVault).dispatch(true), Dispatch::Executor);
}

#[test]
fn a_command_is_shown_without_its_contents() {
    let first = CreateFile::try_new(snapshot(), parent(), "one", Ok("one".to_owned())).unwrap();
    let first = Command::CreateFile(first).label();
    assert_eq!(first, Command::CreateFile(CreateFile::unconfigured()).label());
    assert!(!first.contains("one"));
    assert_ne!(first, Command::Backup(BackupVault).label());
}

#[test]
fn changes_of_entries_count_as_activity() {
    assert!(!Command::Status(VaultStatusRequest).resets_inactivity());
    assert!(Command::CreateFile(CreateFile::unconfigured()).resets_inactivity());
    assert!(Command::EditFile(EditFile).resets_inactivity());
    assert!(!Command::OpenVault(OpenWholeVault).resets_inactivity());
    assert!(!Command::ExportFile(ExportFile::unconfigured()).resets_inactivity());
}

#[test]
fn an_export_keeps_its_destination_and_its_confirmation() {
    let export = ExportFile::try_new(
        snapshot(),
        EntryId::new([3; 16]),
        RevisionVersion::new([1; 32]),
        path("/tmp/out"),
        ExportOverwriteConfirmation::Refuse,
    )
    .unwrap();
    let (_, entry, revision, selection) = export.into_parts().unwrap();
    assert_eq!(entry, EntryId::new([3; 16]));
    assert_eq!(revision, RevisionVersion::new([1; 32]));
    assert_eq!(selection.path().as_encoded_bytes(), b"/tmp/out");
    assert_eq!(selection.overwrite(), ExportOverwriteConfirmation::Refuse);
}

#[test]
fn progress_stays_within_its_total() {
    assert!(Progress::items(3, Some(3)).is_ok());
    assert_eq!(Progress::bytes(4, Some(3)).err(), Some(ServiceError::InvalidProgress));
    let open = Progress::new(ProgressUnit::Bytes, 9, None).unwrap();
    assert_eq!(open.unit(), ProgressUnit::Bytes);
    assert_eq!(open.completed(), 9);
    assert_eq!(open.total(), None);
}

#[test]
fn errors_say_what_happened() {
    assert_ne!(ServiceError::Locked.message(), ServiceError::Busy.message());
    assert!(!ServiceError::CleanupRequired.message().is_empty());
}
