//! Values that callers and hosts hand to the service.
use notecrypt_service::command::result::{
    EntrySource, EntrySummaries, EntrySummary, MAX_RESULT_ENTRIES,
};
use notecrypt_service::command::EntryKind;
use notecrypt_service::ports::editor::{
    EditorCommand, EditorLaunchRequest, EditorQuiescence, EditorResolutionRequest,
    EditorSupervisionMode,
};
use notecrypt_service::ports::paths::{
    logical_path_is_bounded, LogicalParse, LogicalWorkspacePath, NativePath, PathComponent,
    WorkspacePathRegistry,
};
use notecrypt_service::ports::rehome::{
    copied_bytes, copied_text, try_copy_str, try_rehome_bytes, try_rehome_bytes_inner, try_rehome_string,
};
use notecrypt_service::ports::secrets::{
    DeviceKeyReference, DeviceUnlockProvider, DeviceUnlockSecret, RecoverySecretInput,
    RecoverySecretPresentation, RecoverySecretPresenter, SecretVerifier,
    UnavailableDeviceUnlockProvider,
};
use notecrypt_service::ports::workspace::{
    ExportOverwriteConfirmation, ExportSelection, ImportSelection, MaterializationId,
    MaterializationTarget, PendingPublishedGeneration, PublishedGeneration, StableSourceToken,
    StartupCleanupReport, SuppressionToken, TargetWorkspaceRequest, VaultWorkspaceRequest,
    WorkspaceChange, WorkspaceEvent, WorkspaceId, WorkspaceLease, WorkspaceMode,
};
use notecrypt_service::ports::{
    HostPortError, NameError, MAX_DEVICE_KEY_REFERENCE_BYTES, MAX_EDITOR_ARGUMENTS,
    MAX_EDITOR_ARGUMENT_BYTES, MAX_EDITOR_COMMAND_BYTES, MAX_LOGICAL_PATH_BYTES,
    MAX_LOGICAL_PATH_DEPTH, MAX_NATIVE_PATH_BYTES, MAX_RECOVERY_SECRET_BYTES,
    MAX_STABLE_SOURCE_TOKEN_BYTES, MAX_STARTUP_WORKSPACES, MAX_WORKSPACE_PATHS,
};
use notecrypt_service::secret::{SecretBytes, SecretKey, SecretText};
use notecrypt_service::session::VaultId;
use notecrypt_service::ServiceError;

/// A path below the root, with the room that its caller allocated for it.
fn roomy_path(text: &str, room: usize) -> NativePath {
    let mut encoded = Vec::with_capacity(room);
    encoded.extend_from_slice(text.as_bytes());
    let mut components = Vec::new();
    if text.starts_with('/') {
        components.push(PathComponent::RootDir);
    }
    for part in text.split('/').filter(|part| !part.is_empty()) {
        components.push(match part {
            ".." => PathComponent::ParentDir,
            "." => PathComponent::CurDir,
            _ => PathComponent::Normal(part.as_bytes().to_vec()),
        });
    }
    NativePath::new(encoded, text.starts_with('/'), components)
}

fn path(text: &str) -> NativePath {
    roomy_path(text, text.len())
}

fn workspace_id(byte: u8) -> WorkspaceId {
    WorkspaceId::from_store([byte; 16]).unwrap()
}

fn lease(byte: u8) -> WorkspaceLease {
    let id = workspace_id(byte);
    let root = path(&format!("/tmp/{}", id.child_name()));
    WorkspaceLease::new(id, root, WorkspaceMode::Targeted).unwrap()
}

fn logical(text: &str, collision_key: &str) -> LogicalWorkspacePath {
    let parsed = LogicalParse { rendered: Ok(()), collision_key: Ok(collision_key.to_owned()) };
    LogicalWorkspacePath::new(Some(text.to_owned()), Ok(parsed)).unwrap()
}

fn oversized_bytes(value: &[u8]) -> Vec<u8> {
    let mut bytes = Vec::with_capacity(1_000_000);
    bytes.extend_from_slice(value);
    assert!(bytes.capacity() > MAX_RECOVERY_SECRET_BYTES);
    bytes
}

fn secret(value: &[u8]) -> RecoverySecretInput {
    RecoverySecretInput::from_protected_bytes(value.to_vec()).unwrap()
}

struct Source {
    left: Option<usize>,
    consumed: usize,
}

impl EntrySource for Source {
    fn fewest(&self) -> usize {
        self.left.unwrap_or(0)
    }

    fn next_entry(&mut self) -> Option<EntrySummary> {
        self.consumed += 1;
        if let Some(left) = self.left {
            if left == 0 {
                return None;
            }
            self.left = Some(left - 1);
        }
        Some(EntrySummary::from_authenticated_parts(
            [7; 16],
            [8; 16],
            SecretText::new("entry".to_owned()),
            EntryKind::File,
            None,
        ))
    }
}

#[test]
fn entry_summaries_discard_source_vector_spare_capacity() {
    let mut source = Source { left: Some(1), consumed: 0 };

    let summaries = EntrySummaries::try_from_iter(&mut source).unwrap();

    assert_eq!(summaries.len(), 1);
    assert!(summaries.retained_capacity() <= MAX_RESULT_ENTRIES);
    assert!(!summaries.is_empty());
    assert_eq!(summaries.as_slice()[0].name(), "entry");
    assert_eq!(summaries.as_slice()[0].opaque_id(), &[7; 16]);
    assert_eq!(summaries.as_slice()[0].parent_id(), &[8; 16]);
    assert_eq!(summaries.as_slice()[0].kind(), EntryKind::File);
    assert_eq!(summaries.as_slice()[0].revision_id(), None);
}

#[test]
fn entry_summary_bound_consumes_only_one_value_past_the_limit() {
    let mut source = Source { left: None, consumed: 0 };
    assert!(matches!(
        EntrySummaries::try_from_iter(&mut source),
        Err(ServiceError::CapacityExceeded)
    ));
    assert_eq!(source.consumed, MAX_RESULT_ENTRIES + 1);
}

#[test]
fn a_full_result_takes_no_further_entry() {
    let mut source = Source { left: Some(MAX_RESULT_ENTRIES), consumed: 0 };
    let full = EntrySummaries::try_from_iter(&mut source).unwrap();
    assert_eq!(full.len(), MAX_RESULT_ENTRIES);
    let more = source_entry();
    assert!(matches!(full.with_entry(more), Err(ServiceError::CapacityExceeded)));
    assert!(EntrySummaries::empty().with_entry(source_entry()).unwrap().len() == 1);
}

fn source_entry() -> EntrySummary {
    Source { left: Some(1), consumed: 0 }.next_entry().unwrap()
}

#[test]
fn accepted_byte_and_secret_values_discard_caller_spare_capacity() {
    let token = StableSourceToken::from_bytes(oversized_bytes(b"t")).unwrap();
    assert!(token.retained_capacity() <= MAX_STABLE_SOURCE_TOKEN_BYTES);

    let reference = DeviceKeyReference::from_bytes(oversized_bytes(b"r")).unwrap();
    assert!(reference.retained_capacity() <= MAX_DEVICE_KEY_REFERENCE_BYTES);

    let secret = RecoverySecretInput::from_protected_bytes(oversized_bytes(b"secret")).unwrap();
    assert!(secret.retained_capacity() <= MAX_RECOVERY_SECRET_BYTES);

    let mut payload = Vec::with_capacity(1_000_000);
    payload.extend_from_slice(b"secret");
    let mut source = payload;
    let payload =
        SecretBytes::new(try_rehome_bytes(&mut source, MAX_RECOVERY_SECRET_BYTES).unwrap());
    let presentation = RecoverySecretPresentation::new(Some(payload));
    assert!(presentation.retained_capacity().unwrap() <= MAX_RECOVERY_SECRET_BYTES);
}

#[test]
fn protected_source_is_zeroized_on_success_invalid_input_and_reservation_failure() {
    let mut success = b"secret".to_vec();
    let retained = try_rehome_bytes_inner(&mut success, MAX_RECOVERY_SECRET_BYTES, false).unwrap();
    assert!(success.is_empty());
    assert_eq!(retained, b"secret");

    let mut invalid = vec![1; MAX_RECOVERY_SECRET_BYTES + 1];
    assert_eq!(
        try_rehome_bytes_inner(&mut invalid, MAX_RECOVERY_SECRET_BYTES, false),
        Err(HostPortError::InvalidInput)
    );
    assert!(invalid.is_empty());

    let mut allocation_failure = b"secret".to_vec();
    assert_eq!(
        try_rehome_bytes_inner(&mut allocation_failure, MAX_RECOVERY_SECRET_BYTES, true),
        Err(HostPortError::AllocationFailed)
    );
    assert!(allocation_failure.is_empty());
}

#[test]
fn accepted_paths_editor_arguments_and_nested_collections_are_rehomed() {
    let mut logical_source = String::with_capacity(1_000_000);
    logical_source.push_str("note.txt");
    assert!(logical_source.capacity() > MAX_LOGICAL_PATH_BYTES);
    let parsed = LogicalParse { rendered: Ok(()), collision_key: Ok("note.txt".to_owned()) };
    let logical = LogicalWorkspacePath::new(Some(logical_source), Ok(parsed)).unwrap();
    assert!(logical.retained_capacity() <= MAX_LOGICAL_PATH_BYTES);
    assert_eq!(logical.as_path(), "note.txt");

    let id = workspace_id(1);
    assert_eq!(id.child_name().len(), 32);
    let root_text = format!("/tmp/{}", id.child_name());
    let root = roomy_path(&root_text, 1_000_000);
    let lease = WorkspaceLease::new(id, root, WorkspaceMode::Targeted).unwrap();
    assert!(lease.root().retained_capacity() <= MAX_NATIVE_PATH_BYTES);

    let target_request = TargetWorkspaceRequest::new(
        workspace_id(2),
        VaultId::from_bytes([3; 16]),
        roomy_path("/tmp", 1_000_000),
    )
    .unwrap();
    assert!(target_request.repository_root().retained_capacity() <= MAX_NATIVE_PATH_BYTES);

    let vault_request = VaultWorkspaceRequest::new(
        workspace_id(4),
        VaultId::from_bytes([5; 16]),
        roomy_path("/tmp", 1_000_000),
    )
    .unwrap();
    assert!(vault_request.repository_root().retained_capacity() <= MAX_NATIVE_PATH_BYTES);

    let staging_path = roomy_path(&format!("{}/staging", root_text), 1_000_000);
    let destination = roomy_path(&format!("{}/note.txt", root_text), 1_000_000);
    let materialization = MaterializationTarget::new(
        &lease,
        MaterializationId::from_random_bytes([7; 16]),
        staging_path,
        destination,
        SuppressionToken::from_random_bytes([6; 16]),
    )
    .unwrap();
    assert!(materialization.staging_path().retained_capacity() <= MAX_NATIVE_PATH_BYTES);
    assert!(materialization.destination().retained_capacity() <= MAX_NATIVE_PATH_BYTES);
    let published =
        PublishedGeneration::from_materialization(&lease, materialization, 1).unwrap();
    assert!(published.path().retained_capacity() <= MAX_NATIVE_PATH_BYTES);

    let mut executable = Vec::with_capacity(1_000_000);
    executable.extend_from_slice(b"editor");
    let mut argument = Vec::with_capacity(1_000_000);
    argument.extend_from_slice(b"--wait");
    let mut arguments = Vec::with_capacity(1_000_000);
    arguments.push(argument);
    let workspace_file = roomy_path(&format!("{}/note.txt", root_text), 1_000_000);

    let command = EditorCommand::try_new(executable, arguments).unwrap();
    let resolution =
        EditorResolutionRequest::try_new(Some(command), None, None, EditorSupervisionMode::Strict)
            .unwrap();
    let request = EditorLaunchRequest::try_new(&lease, resolution, workspace_file, 1).unwrap();
    assert_eq!(request.workspace_id().child_name(), lease.id().child_name());
    assert_eq!(request.process_generation(), 1);
    assert!(request.workspace_file().retained_capacity() <= MAX_NATIVE_PATH_BYTES);
}

#[test]
fn final_editor_argv_counts_the_appended_workspace_argument() {
    let arguments = (0..MAX_EDITOR_ARGUMENTS).map(|_| b"x".to_vec()).collect::<Vec<_>>();
    let command = EditorCommand::try_new(b"editor".to_vec(), arguments).unwrap();
    assert_eq!(
        command.validate_workspace_argument(&path("/workspace/note.txt")),
        Err(HostPortError::CapacityExceeded)
    );

    let arguments = (1..MAX_EDITOR_ARGUMENTS).map(|_| b"x".to_vec()).collect::<Vec<_>>();
    let command = EditorCommand::try_new(b"editor".to_vec(), arguments).unwrap();
    assert!(command.validate_workspace_argument(&path("/workspace/note.txt")).is_ok());

    let exact_path = path(&format!("/{}", "x".repeat(MAX_EDITOR_ARGUMENT_BYTES - 1)));
    let command = EditorCommand::try_new(b"editor".to_vec(), Vec::new()).unwrap();
    assert!(command.validate_workspace_argument(&exact_path).is_ok());
    let oversized_path = path(&format!("/{}", "x".repeat(MAX_EDITOR_ARGUMENT_BYTES)));
    assert_eq!(
        command.validate_workspace_argument(&oversized_path),
        Err(HostPortError::CapacityExceeded)
    );
}

#[test]
fn an_editor_command_is_bounded_as_a_whole() {
    assert!(matches!(
        EditorCommand::try_new(Vec::new(), Vec::new()),
        Err(HostPortError::InvalidInput)
    ));
    assert!(matches!(
        EditorCommand::try_new(b"ed\0itor".to_vec(), Vec::new()),
        Err(HostPortError::InvalidInput)
    ));
    let arguments = vec![vec![b'x'; MAX_EDITOR_ARGUMENT_BYTES]; 8];
    assert_eq!(8 * MAX_EDITOR_ARGUMENT_BYTES, MAX_EDITOR_COMMAND_BYTES);
    assert!(matches!(
        EditorCommand::try_new(b"editor".to_vec(), arguments),
        Err(HostPortError::CapacityExceeded)
    ));
    let command = EditorCommand::try_new(b"editor".to_vec(), vec![b"-w".to_vec()]).unwrap();
    assert_eq!(command.executable(), b"editor");
    assert_eq!(command.arguments(), &[b"-w".to_vec()]);
    assert_eq!(command.into_parts(), (b"editor".to_vec(), vec![b"-w".to_vec()]));
}

#[test]
fn editors_are_quiescent_only_when_none_runs_or_waits() {
    assert!(EditorQuiescence::new(0, 0).is_quiescent());
    assert!(!EditorQuiescence::new(1, 0).is_quiescent());
    assert!(!EditorQuiescence::new(0, 1).is_quiescent());
}

#[test]
fn workspace_names_are_hexadecimal_and_distinct() {
    let mut bytes = [0u8; 16];
    for (index, byte) in bytes.iter_mut().enumerate() {
        *byte = 0x10 * index as u8 + (15 - index as u8);
    }
    let id = WorkspaceId::from_store(bytes).unwrap();
    assert_eq!(id.child_name(), "0f1e2d3c4b5a69788796a5b4c3d2e1f0");
    assert_eq!(id.as_bytes(), bytes);
    assert!(id.is_same(&id.try_duplicate().unwrap()));
    assert!(!id.is_same(&workspace_id(1)));
    assert_ne!(workspace_id(1).child_name(), workspace_id(2).child_name());
    assert!(matches!(WorkspaceId::render(bytes, None), Err(HostPortError::AllocationFailed)));
}

#[test]
fn a_lease_has_the_root_that_its_identity_names() {
    assert!(matches!(
        WorkspaceLease::new(workspace_id(1), path("/tmp/other"), WorkspaceMode::Targeted),
        Err(HostPortError::InvalidInput)
    ));
    let lease = lease(1);
    let root = format!("/tmp/{}", lease.id().child_name());
    assert!(lease.contains_child(&path(&format!("{}/note.txt", root))));
    assert!(!lease.contains_child(&path(&root)));
    assert!(!lease.contains_child(&path("/tmp/elsewhere/note.txt")));
    assert!(!lease.contains_child(&path(&format!("{}/../note.txt", root))));

    let request =
        TargetWorkspaceRequest::new(workspace_id(9), VaultId::from_bytes([3; 16]), path("/tmp"))
            .unwrap();
    let root = format!("/tmp/{}", request.id().child_name());
    let made = WorkspaceLease::from_target_request(request, path(&root)).unwrap();
    assert_eq!(made.mode(), WorkspaceMode::Targeted);
    let request =
        VaultWorkspaceRequest::new(workspace_id(9), VaultId::from_bytes([3; 16]), path("/tmp"))
            .unwrap();
    let made = WorkspaceLease::from_vault_request(request, path(&root)).unwrap();
    assert_eq!(made.mode(), WorkspaceMode::WholeVault);
}

#[test]
fn selections_are_absolute_paths() {
    assert!(matches!(
        ImportSelection::try_new(path("relative/file")),
        Err(ServiceError::InvalidInput)
    ));
    assert!(matches!(
        ImportSelection::try_new(path("/tmp/../file")),
        Err(ServiceError::InvalidInput)
    ));
    let long = format!("/{}", "x".repeat(MAX_NATIVE_PATH_BYTES));
    assert!(matches!(
        ImportSelection::try_new(path(&long)),
        Err(ServiceError::CapacityExceeded)
    ));
    let chosen = ImportSelection::try_new(roomy_path("/tmp/file", 1_000_000)).unwrap();
    assert_eq!(chosen.path().as_encoded_bytes(), b"/tmp/file");
    assert!(chosen.path().retained_capacity() < 1_000_000);
    let chosen =
        ExportSelection::try_new(path("/tmp/file"), ExportOverwriteConfirmation::Confirmed)
            .unwrap();
    assert_eq!(chosen.overwrite(), ExportOverwriteConfirmation::Confirmed);
}

#[test]
fn paths_are_compared_by_their_components() {
    let base = path("/tmp/a");
    assert!(path("/tmp/a/b").starts_with(&base));
    assert!(path("/tmp/a").starts_with(&base));
    assert!(!path("/tmp/ab").starts_with(&base));
    assert!(path("/tmp/a/b").has_file_name(b"b"));
    assert!(!path("/tmp/a/b").has_file_name(b"a"));
    assert!(path("/tmp/a").is_same_path(&base));
    assert!(!path("/tmp/b").is_same_path(&base));
    assert!(base.is_valid_absolute_path());
    assert!(!path("tmp/a").is_valid_absolute_path());
}

#[test]
fn a_logical_path_is_bounded_in_depth_and_in_its_components() {
    assert!(logical_path_is_bounded(b"a"));
    let deep = vec!["x"; MAX_LOGICAL_PATH_DEPTH].join("/");
    assert!(logical_path_is_bounded(deep.as_bytes()));
    let deeper = vec!["x"; MAX_LOGICAL_PATH_DEPTH + 1].join("/");
    assert!(!logical_path_is_bounded(deeper.as_bytes()));
    assert!(!logical_path_is_bounded("x".repeat(1_025).as_bytes()));
    assert!(matches!(
        LogicalWorkspacePath::new(None, Err(NameError::Invalid)),
        Err(HostPortError::InvalidInput)
    ));
    assert!(matches!(
        LogicalWorkspacePath::new(Some("a".to_owned()), Err(NameError::CapacityExceeded)),
        Err(HostPortError::CapacityExceeded)
    ));
}

#[test]
fn a_registered_path_keeps_its_place_in_the_registry() {
    let mut registry = WorkspacePathRegistry::new(2).unwrap();
    let note = logical("Note.txt", "note.txt");
    assert_eq!(registry.insert(&note), Ok(()));
    assert_eq!(registry.insert(&note), Ok(()));
    assert_eq!(registry.len(), 1);
    assert_eq!(
        registry.insert(&logical("note.TXT", "note.txt")),
        Err(HostPortError::InvalidInput)
    );
    assert_eq!(registry.insert(&logical("other", "other")), Ok(()));
    assert_eq!(registry.insert(&logical("third", "third")), Err(HostPortError::CapacityExceeded));
    assert_eq!(registry.len(), 2);
    assert!(matches!(WorkspacePathRegistry::new(0), Err(HostPortError::InvalidInput)));
    assert!(matches!(
        WorkspacePathRegistry::new(MAX_WORKSPACE_PATHS + 1),
        Err(HostPortError::InvalidInput)
    ));
}

#[test]
fn a_pending_generation_is_published_once() {
    let lease = lease(3);
    let root = format!("/tmp/{}", lease.id().child_name());
    let target = MaterializationTarget::new(
        &lease,
        MaterializationId::from_random_bytes([7; 16]),
        path(&format!("{}/staging", root)),
        path(&format!("{}/note.txt", root)),
        SuppressionToken::from_random_bytes([6; 16]),
    )
    .unwrap();
    let mut pending =
        PendingPublishedGeneration::from_materialization(&lease, &target, 4).unwrap();
    assert!(!pending.is_spent());
    let mut published = pending.spend(&lease).unwrap();
    assert!(pending.is_spent());
    assert_eq!(published.generation(), 4);
    assert!(matches!(pending.spend(&lease), Err(HostPortError::StaleCapability)));
    assert!(!published.is_armed());
    assert_eq!(published.mark_armed(), Ok(()));
    assert!(published.is_armed());
    assert_eq!(published.mark_armed(), Err(HostPortError::StaleCapability));
    assert!(matches!(
        PendingPublishedGeneration::from_materialization(&lease, &target, 0),
        Err(HostPortError::InvalidInput)
    ));
}

#[test]
fn workspace_events_name_a_generation() {
    let change = WorkspaceChange::Created { path: logical("a", "a") };
    assert!(matches!(WorkspaceEvent::new(0, change), Err(HostPortError::InvalidInput)));
    let change = WorkspaceChange::Deleted { path: logical("a", "a") };
    assert_eq!(WorkspaceEvent::new(3, change).unwrap().generation(), 3);
}

#[test]
fn startup_reports_are_bounded() {
    assert!(StartupCleanupReport::try_new(MAX_STARTUP_WORKSPACES, 0).is_ok());
    assert!(matches!(
        StartupCleanupReport::try_new(MAX_STARTUP_WORKSPACES, 1),
        Err(HostPortError::CapacityExceeded)
    ));
}

#[test]
fn recovery_secrets_are_valid_text_of_bounded_length() {
    assert!(RecoverySecretInput::accepts(b"secret"));
    assert!(!RecoverySecretInput::accepts(b""));
    assert!(!RecoverySecretInput::accepts(&[0xff, 0xfe]));
    assert!(RecoverySecretInput::accepts(&vec![b'x'; MAX_RECOVERY_SECRET_BYTES]));
    assert!(!RecoverySecretInput::accepts(&vec![b'x'; MAX_RECOVERY_SECRET_BYTES + 1]));
    assert!(matches!(
        RecoverySecretInput::from_protected_bytes(vec![0xff]),
        Err(HostPortError::InvalidInput)
    ));
    let kept = RecoverySecretInput::from_zeroizing_bytes(SecretBytes::new(b"words".to_vec()));
    assert_eq!(kept.unwrap().into_bytes().as_slice(), b"words");
}

#[test]
fn a_secret_is_verified_against_its_keyed_digest() {
    let key = SecretKey::new([3; 32]);
    let (payload, expected) = secret(b"alpha beta").into_presentation_payload(&key);
    assert_eq!(payload.as_slice(), b"alpha beta");
    assert_eq!(expected.as_array(), blake3::keyed_hash(&[3; 32], b"alpha beta").as_bytes());
    let verifier = SecretVerifier::new(SecretKey::new([3; 32]), expected);
    assert_eq!(
        verifier.verify(secret(b"alpha beta")).ok().unwrap().into_bytes().as_slice(),
        b"alpha beta"
    );
    assert!(verifier.verify(secret(b"alpha gamma")).is_err());
    let of = SecretVerifier::of(secret(b"alpha beta"), SecretKey::new([4; 32]));
    assert!(of.verify(secret(b"alpha beta")).is_ok());
    assert!(of.verify(secret(b"alpha bet")).is_err());
}

struct Screen {
    shown: Vec<u8>,
}

impl RecoverySecretPresenter for Screen {
    fn present(&mut self, secret: &[u8]) -> Result<(), HostPortError> {
        self.shown = secret.to_vec();
        Ok(())
    }
}

#[test]
fn a_presentation_shows_its_payload_where_it_has_one() {
    let mut screen = Screen { shown: Vec::new() };
    let presentation = RecoverySecretPresentation::new(Some(SecretBytes::new(b"words".to_vec())));
    assert_eq!(presentation.present_once(&mut screen), Ok(()));
    assert_eq!(screen.shown, b"words");
    let empty = RecoverySecretPresentation::new(None);
    assert_eq!(empty.present_once(&mut screen), Err(HostPortError::InvalidInput));
}

#[test]
fn the_fallback_provider_unlocks_nothing() {
    let provider = UnavailableDeviceUnlockProvider;
    assert!(matches!(
        provider.enroll(VaultId::from_bytes([1; 16])),
        Err(HostPortError::Unavailable)
    ));
    let reference = DeviceKeyReference::from_bytes(b"r".to_vec()).unwrap();
    assert!(matches!(provider.unlock(&reference), Err(HostPortError::Unavailable)));
    assert_eq!(provider.remove(&reference), Err(HostPortError::Unavailable));
    assert!(DeviceUnlockSecret::try_from_protected_bytes(vec![1; 32], true).is_ok());
    assert!(matches!(
        DeviceUnlockSecret::try_from_protected_bytes(vec![1; 32], false),
        Err(HostPortError::InvalidInput)
    ));
}

#[test]
fn kept_text_is_bounded_and_without_zeros() {
    assert_eq!(try_copy_str("text", 4), Ok("text".to_owned()));
    assert_eq!(try_copy_str("text", 3), Err(HostPortError::InvalidInput));
    assert_eq!(try_copy_str("te\0t", 8), Err(HostPortError::InvalidInput));
    assert_eq!(try_rehome_string("text".to_owned(), 4), Ok("text".to_owned()));
    assert_eq!(try_rehome_string(String::new(), 4), Err(HostPortError::InvalidInput));
}

#[test]
fn refused_room_is_the_only_reason_for_a_failed_allocation() {
    let value = b"key".to_vec();
    assert_eq!(copied_bytes(&value, 3, None), Err(HostPortError::AllocationFailed));
    assert_eq!(copied_bytes(&value, 2, None), Err(HostPortError::CapacityExceeded));
    assert_eq!(copied_bytes(&value, 3, Some(Vec::new())), Ok(value));
    assert_eq!(copied_text("key", 3, None), Err(HostPortError::AllocationFailed));
    assert_eq!(copied_text("key", 2, None), Err(HostPortError::InvalidInput));
    assert_eq!(copied_text("key", 3, Some(String::new())), Ok("key".to_owned()));

    let mut registry = WorkspacePathRegistry::new(2).unwrap();
    let one = logical("One", "one");
    assert_eq!(registry.insert_over(&one, None), Err(HostPortError::AllocationFailed));
    assert_eq!(registry.len(), 0);
    assert_eq!(registry.insert_over(&one, Some(String::new())), Ok(()));
    assert_eq!(registry.insert_over(&one, None), Ok(()));
    assert_eq!(registry.len(), 1);

    let refused = || HostPortError::AllocationFailed;
    assert!(matches!(
        EditorCommand::of_kept(Err(refused()), Ok(Vec::new())),
        Err(HostPortError::AllocationFailed)
    ));
    assert!(matches!(
        EditorCommand::of_kept(Ok(b"editor".to_vec()), Err(refused())),
        Err(HostPortError::AllocationFailed)
    ));
    let command =
        EditorCommand::of_kept(Ok(b"editor".to_vec()), Ok(vec![b"-w".to_vec()])).ok().unwrap();
    assert_eq!(command.executable(), b"editor");
    assert_eq!(command.arguments(), [b"-w".to_vec()]);

    let parse = || LogicalParse { rendered: Ok(()), collision_key: Ok("one".to_owned()) };
    assert!(matches!(
        LogicalWorkspacePath::over("One", parse(), None),
        Err(HostPortError::AllocationFailed)
    ));
    assert!(LogicalWorkspacePath::over("One", parse(), Some(String::new())).is_ok());
}

#[test]
fn a_listing_without_its_first_room_takes_no_entry() {
    assert!(matches!(EntrySummaries::over(None), Err(ServiceError::AllocationFailed)));
    assert!(EntrySummaries::over(Some(Vec::new())).ok().unwrap().is_empty());
    let mut source = Source { left: Some(3), consumed: 0 };
    let listed = EntrySummaries::try_from_iter(&mut source).unwrap();
    assert_eq!(listed.len(), 3);
    assert!(listed.retained_capacity() >= 3);
    assert_eq!(source.consumed, 4);
}
