//! Values of the session, the repository and the replication.
use notecrypt_service::command::{RevisionVersion, SnapshotVersion};
use notecrypt_service::ports::paths::{NativePath, PathComponent};
use notecrypt_service::ports::rehome::rehome_bytes;
use notecrypt_service::ports::secrets::RecoverySecretInput;
use notecrypt_service::ports::workspace::WorkspaceId;
use notecrypt_service::ports::{HostPortError, NameError, MAX_NATIVE_PATH_BYTES};
use notecrypt_service::session::errors::{
    map_core_repository_error, map_repository_error, map_repository_publication_error,
    map_store_error, map_unlock_error, map_workspace_id_store_error, RepositoryPortError,
    StoreFailure,
};
use notecrypt_service::session::replication::{
    keep_request, ReplicationCommitRequest, ReplicationImportedObject, ReplicationLimitProfile,
    ReplicationLimits, ReplicationObservation, MAX_REPLICATION_COMMIT_BYTES,
    MAX_REPLICATION_OBSERVATION_BYTES,
};
use notecrypt_service::session::repository::{
    LocalEntryId, LocalMutation, LocalStreamRevisionRequest,
};
use notecrypt_service::session::requests::{
    advance_rekey, begin_rekey, map_absence_error, AbsenceProofs, BeginCompromiseRekey,
    BeginRecoveryInitialization, LocalVaultConfig, OfflineGuessingRiskDisclosure,
    RecoveryKdfProfileV1, RecoverySecretPolicy, RekeyAction, RekeyStage, RepositoryCancellation,
    StoreVaultRepository,
};
use notecrypt_service::session::root::{rehomed, try_rehome_repository_vec};
use notecrypt_service::session::workspaces::MAX_ACTIVE_WORKSPACES;
use notecrypt_service::session::{SessionPolicy, VaultId, MAX_WARNING_OFFSETS};
use notecrypt_service::{Duration, ServiceError};

fn roomy_path(text: &str, room: usize) -> NativePath {
    let mut encoded = Vec::with_capacity(room);
    encoded.extend_from_slice(text.as_bytes());
    let mut components = vec![PathComponent::RootDir];
    for part in text.split('/').filter(|part| !part.is_empty()) {
        components.push(PathComponent::Normal(part.as_bytes().to_vec()));
    }
    NativePath::new(encoded, true, components)
}

fn profile() -> RecoveryKdfProfileV1 {
    RecoveryKdfProfileV1::try_new(65_536, 3, 1, true).unwrap()
}

fn secret(value: &[u8]) -> RecoverySecretInput {
    RecoverySecretInput::from_protected_bytes(value.to_vec()).unwrap()
}

fn limits(bytes: u64) -> ReplicationLimits {
    ReplicationLimits {
        max_bootstrap_bytes: bytes,
        max_head_bytes: bytes,
        max_chunk_object_bytes: bytes,
        max_manifest_object_bytes: bytes,
        max_tree_object_bytes: bytes,
        max_snapshot_object_bytes: bytes,
        max_aggregate_bytes: bytes,
        max_object_count: bytes,
        max_graph_edges: bytes,
        max_graph_depth: 8,
        max_duration: Duration::from_secs(60),
        progress_interval: Duration::from_millis(100),
        max_quarantine_bytes: bytes,
        free_space_reserve_bytes: 500,
    }
}

#[test]
fn adapter_owned_outer_vectors_are_rehomed_before_service_retention() {
    let mut source = Vec::with_capacity(1_000_000);
    source.push(7_u8);

    let retained = try_rehome_repository_vec(source, MAX_ACTIVE_WORKSPACES).unwrap();

    assert_eq!(retained, vec![7]);
    assert!(retained.capacity() <= MAX_ACTIVE_WORKSPACES);
}

#[test]
fn repository_rehome_paths_preserve_injected_allocation_failure() {
    assert_eq!(
        keep_request(vec![1], MAX_REPLICATION_OBSERVATION_BYTES, None),
        Err(RepositoryPortError::AllocationFailed)
    );
    assert_eq!(
        keep_request(vec![1], MAX_REPLICATION_COMMIT_BYTES, None),
        Err(RepositoryPortError::AllocationFailed)
    );
    assert_eq!(
        keep_request(vec![1], MAX_REPLICATION_COMMIT_BYTES, Some(Vec::new())),
        Ok(vec![1])
    );

    for successful_reservations in 0..=3 {
        let granted = |place: usize| place < successful_reservations;
        let root = |place: usize, text: &str| {
            if granted(place) {
                Ok(roomy_path(text, 32))
            } else {
                Err(HostPortError::AllocationFailed)
            }
        };
        let label = if granted(2) {
            Ok("device".to_owned())
        } else {
            Err(HostPortError::AllocationFailed)
        };
        let config = LocalVaultConfig::of_kept(root(0, "/vault"), root(1, "/state"), profile(), label);
        if successful_reservations < 3 {
            assert!(matches!(config, Err(RepositoryPortError::AllocationFailed)));
        } else {
            assert_eq!(config.ok().unwrap().device_label(), "device");
        }
    }

    assert_eq!(
        rehomed(vec![1_u8], Err(RepositoryPortError::AllocationFailed)),
        Err(RepositoryPortError::AllocationFailed)
    );
    assert_eq!(rehomed(vec![1_u8], Ok(Vec::new())), Ok(vec![1]));

    assert!(matches!(
        WorkspaceId::render([0xa1; 16], None),
        Err(HostPortError::AllocationFailed)
    ));
    let id = WorkspaceId::from_store([0xa1; 16]).unwrap();
    assert!(matches!(
        WorkspaceId::render(id.as_bytes(), None),
        Err(HostPortError::AllocationFailed)
    ));

    let mut generated = vec![1; 32];
    assert!(matches!(
        rehome_bytes(&mut generated, 32, None),
        Err(HostPortError::AllocationFailed)
    ));
    assert!(generated.is_empty());
    let mut generated = vec![1; 32];
    assert!(rehome_bytes(&mut generated, 32, Some(Vec::new())).is_ok());

    assert_eq!(
        map_core_repository_error(NameError::AllocationFailed),
        RepositoryPortError::AllocationFailed
    );
    assert_eq!(
        map_repository_error(RepositoryPortError::AllocationFailed),
        ServiceError::AllocationFailed
    );
}

#[test]
fn absence_and_publication_bridges_preserve_allocation_failure() {
    let id = WorkspaceId::from_store([0xa2; 16]).unwrap();
    let mut proofs = AbsenceProofs::new();
    assert_eq!(proofs.stage_over(&id, 1, false), Err(RepositoryPortError::AllocationFailed));
    assert_eq!(proofs.take(&id), None);
    assert_eq!(proofs.stage_over(&id, 1, true), Ok(()));
    assert_eq!(proofs.stage_over(&id, 2, false), Err(RepositoryPortError::Busy));
    assert_eq!(proofs.take(&id), Some(1));

    assert_eq!(
        map_absence_error(HostPortError::AllocationFailed),
        StoreFailure::AllocationFailed
    );
    let unnamed = WorkspaceId::render([0xa2; 16], None).map_err(map_workspace_id_store_error);
    assert!(matches!(unnamed, Err(StoreFailure::AllocationFailed)));

    let error = map_repository_publication_error(RepositoryPortError::AllocationFailed);
    assert_eq!(error, StoreFailure::AllocationFailed);
    assert_eq!(map_store_error(error), RepositoryPortError::AllocationFailed);
}

#[test]
fn replication_requests_discard_source_spare_capacity_and_preserve_limit_errors() {
    let mut observation = Vec::with_capacity(1_000_000);
    observation.push(1);
    let observation = ReplicationObservation::try_new(observation, Ok(())).unwrap();
    assert!(observation.retained_capacity() <= MAX_REPLICATION_OBSERVATION_BYTES);

    let mut commit = Vec::with_capacity(1_000_000);
    commit.push(2);
    let commit = ReplicationCommitRequest::try_new(commit).unwrap();
    assert!(commit.retained_capacity() <= MAX_REPLICATION_COMMIT_BYTES);

    assert!(matches!(
        ReplicationObservation::try_new(vec![0; MAX_REPLICATION_OBSERVATION_BYTES + 1], Ok(())),
        Err(RepositoryPortError::CapacityExceeded)
    ));
    assert!(matches!(
        ReplicationCommitRequest::try_new(vec![0; MAX_REPLICATION_COMMIT_BYTES + 1]),
        Err(RepositoryPortError::CapacityExceeded)
    ));
}

#[test]
fn session_configuration_discards_nested_caller_spare_capacity() {
    let mut label = String::with_capacity(1_000_000);
    label.push_str("device");

    let target = LocalVaultConfig::try_new(
        roomy_path("/vault/repository", 1_000_000),
        roomy_path("/vault/local", 1_000_000),
        profile(),
        label,
    )
    .unwrap();
    assert!(target.repository_root().retained_capacity() <= MAX_NATIVE_PATH_BYTES);
    assert!(target.local_state_root().retained_capacity() <= MAX_NATIVE_PATH_BYTES);
    assert!(target.retained_label_capacity() <= 256);
    assert_eq!(target.device_label(), "device");

    let mut warning_offsets = Vec::with_capacity(1_000_000);
    warning_offsets.push(Duration::from_secs(5));
    let policy = SessionPolicy::try_new(
        Duration::from_secs(10),
        Duration::from_secs(20),
        warning_offsets,
        Duration::from_secs(1),
    )
    .unwrap();
    assert!(policy.retained_capacity() <= MAX_WARNING_OFFSETS);
}

#[test]
fn allocation_failures_stay_allocation_failures() {
    assert_eq!(
        map_core_repository_error(NameError::AllocationFailed),
        RepositoryPortError::AllocationFailed
    );
    assert_eq!(
        map_repository_error(RepositoryPortError::AllocationFailed),
        ServiceError::AllocationFailed
    );
    assert_eq!(map_absence_error(HostPortError::AllocationFailed), StoreFailure::AllocationFailed);
    let published = map_repository_publication_error(RepositoryPortError::AllocationFailed);
    assert_eq!(published, StoreFailure::AllocationFailed);
    assert_eq!(map_store_error(published), RepositoryPortError::AllocationFailed);
}

#[test]
fn a_wrong_secret_is_told_from_a_damaged_store() {
    assert_eq!(
        map_unlock_error(StoreFailure::AuthenticationFailed),
        RepositoryPortError::WrongSecret
    );
    assert_eq!(
        map_store_error(StoreFailure::AuthenticationFailed),
        RepositoryPortError::IntegrityFailed
    );
    assert_eq!(
        map_unlock_error(StoreFailure::MalformedObject),
        RepositoryPortError::IntegrityFailed
    );
    assert_eq!(
        map_repository_error(RepositoryPortError::WrongSecret),
        ServiceError::AuthenticationFailed
    );
}

#[test]
fn a_vault_configuration_is_refused_piece_by_piece() {
    assert!(matches!(
        RecoveryKdfProfileV1::try_new(1, 1, 1, false),
        Err(RepositoryPortError::InvalidInput)
    ));
    let relative = NativePath::new(
        b"vault".to_vec(),
        false,
        vec![PathComponent::Normal(b"vault".to_vec())],
    );
    assert!(matches!(
        LocalVaultConfig::try_new(
            relative,
            roomy_path("/vault/local", 16),
            profile(),
            "device".to_owned()
        ),
        Err(RepositoryPortError::InvalidInput)
    ));
    assert!(matches!(
        LocalVaultConfig::try_new(
            roomy_path("/vault/repository", 16),
            roomy_path("/vault/local", 16),
            profile(),
            "x".repeat(257)
        ),
        Err(RepositoryPortError::InvalidInput)
    ));
    assert!(matches!(
        LocalVaultConfig::try_new(
            roomy_path("/vault/repository", 16),
            roomy_path("/vault/local", 16),
            profile(),
            "dev\0ice".to_owned()
        ),
        Err(RepositoryPortError::InvalidInput)
    ));
}

#[test]
fn replication_bounds_are_as_strict_as_those_of_the_store() {
    let store = limits(1_000);
    let profile = ReplicationLimitProfile::try_new(limits(999), store).unwrap();
    assert_eq!(profile.max_head_bytes(), 999);
    assert_eq!(profile.max_duration().as_nanos(), 60_000_000_000);
    assert!(matches!(
        ReplicationLimitProfile::try_new(limits(1_001), store),
        Err(RepositoryPortError::InvalidInput)
    ));
    let greedy = ReplicationLimits { free_space_reserve_bytes: 499, ..limits(999) };
    assert!(matches!(
        ReplicationLimitProfile::try_new(greedy, store),
        Err(RepositoryPortError::InvalidInput)
    ));
    assert_eq!(ReplicationLimitProfile::of_store(store).max_graph_depth(), 8);
    assert!(matches!(
        ReplicationObservation::try_new(vec![1], Err(StoreFailure::MalformedObject)),
        Err(RepositoryPortError::IntegrityFailed)
    ));
    let object = ReplicationImportedObject::new([1; 32], 17, vec![[2; 32]]);
    assert_eq!(object.encoded_length(), 17);
    assert_eq!(object.references(), &[[2; 32]]);
}

#[test]
fn absence_proofs_are_kept_once_and_taken_once() {
    let mut proofs = AbsenceProofs::new();
    let first = WorkspaceId::from_store([1; 16]).unwrap();
    let second = WorkspaceId::from_store([2; 16]).unwrap();
    assert_eq!(proofs.stage(&first, 11), Ok(()));
    assert_eq!(proofs.stage(&first, 12), Err(RepositoryPortError::Busy));
    assert_eq!(proofs.stage(&second, 22), Ok(()));
    assert_eq!(proofs.take(&first), Some(11));
    assert_eq!(proofs.take(&first), None);
    assert_eq!(proofs.take(&second), Some(22));
    for index in 0..MAX_ACTIVE_WORKSPACES {
        let mut bytes = [0; 16];
        bytes[0] = (index % 256) as u8;
        bytes[1] = (index / 256) as u8;
        assert_eq!(proofs.stage(&WorkspaceId::from_store(bytes).unwrap(), 1), Ok(()));
    }
    let other = WorkspaceId::from_store([9; 16]).unwrap();
    assert_eq!(proofs.stage(&other, 1), Err(RepositoryPortError::CapacityExceeded));
}

#[test]
fn a_repository_is_initialized_once() {
    let first = VaultId::from_bytes([1; 16]);
    let mut repository = StoreVaultRepository::vacant();
    assert_eq!(repository.current_vault_id(), None);
    assert_eq!(repository.check_unlock(), Err(RepositoryPortError::NotFound));
    assert!(matches!(
        repository.begin_recovery_initialization(BeginRecoveryInitialization::generated(), true),
        Err(RepositoryPortError::Cancelled)
    ));
    assert!(matches!(
        repository.begin_recovery_initialization(BeginRecoveryInitialization::generated(), false),
        Ok(None)
    ));
    let disclosure = OfflineGuessingRiskDisclosure::try_for_policy(1).unwrap();
    let custom = BeginRecoveryInitialization::custom_v1(secret(b"words"), disclosure.accept());
    assert_eq!(custom.policy(), RecoverySecretPolicy::CustomV1);
    let kept = repository.begin_recovery_initialization(custom, false).unwrap().unwrap();
    assert_eq!(kept.into_bytes().as_slice(), b"words");
    assert_eq!(repository.initialized(first).unwrap().vault_id(), first);
    assert_eq!(repository.current_vault_id(), Some(first));
    assert_eq!(repository.check_unlock(), Ok(()));
    assert!(matches!(
        repository.initialized(VaultId::from_bytes([2; 16])),
        Err(RepositoryPortError::CleanupRequired)
    ));
    assert_eq!(repository.current_vault_id(), Some(first));
}

#[test]
fn a_rekey_names_its_target_and_the_risk_it_takes() {
    assert!(matches!(
        BeginCompromiseRekey::try_generated([0; 16]),
        Err(RepositoryPortError::InvalidInput)
    ));
    let request = BeginCompromiseRekey::try_generated([4; 16]).unwrap();
    assert_eq!(request.target(), &[4; 16]);
    assert_eq!(request.policy(), RecoverySecretPolicy::Generated);
    assert!(OfflineGuessingRiskDisclosure::try_for_policy(2).is_err());
}

#[test]
fn a_rekey_is_activated_only_when_complete() {
    assert_eq!(begin_rekey(true, true), Err(RepositoryPortError::Cancelled));
    let stage = begin_rekey(false, true).unwrap();
    assert_eq!(stage, RekeyStage::Opening);
    let (stage, action) = advance_rekey(stage, false, Ok(true));
    assert_eq!(action, RekeyAction::NextEntry);
    let (stage, action) = advance_rekey(stage, false, Ok(true));
    assert_eq!(action, RekeyAction::StageEntry);
    let (stage, action) = advance_rekey(stage, false, Ok(true));
    assert_eq!(action, RekeyAction::NextEntry);
    let (stage, action) = advance_rekey(stage, false, Ok(false));
    assert_eq!(action, RekeyAction::Verify);
    let (cancelled, action) = advance_rekey(stage, true, Ok(true));
    assert_eq!(action, RekeyAction::Abort);
    assert_eq!(
        advance_rekey(cancelled, true, Ok(true)).1,
        RekeyAction::End(Err(RepositoryPortError::Cancelled))
    );
    assert_eq!(
        advance_rekey(cancelled, true, Err(StoreFailure::Io)).1,
        RekeyAction::End(Err(RepositoryPortError::CleanupRequired))
    );
    let (stage, action) = advance_rekey(stage, false, Ok(true));
    assert_eq!(action, RekeyAction::Activate);
    assert_eq!(advance_rekey(stage, false, Ok(true)).1, RekeyAction::End(Ok(())));
}

#[test]
fn a_cancellation_probe_stays_cancelled() {
    let mut probe = RepositoryCancellation::new();
    assert!(!probe.is_cancelled());
    probe.cancel();
    probe.cancel();
    assert!(probe.is_cancelled());
}

#[test]
fn local_mutations_carry_validated_names() {
    let snapshot = SnapshotVersion::new([1; 32]);
    let parent = LocalEntryId::from_bytes([2; 16]);
    assert!(LocalMutation::try_create_directory(
        snapshot,
        parent,
        "notes",
        Ok("notes".to_owned())
    )
    .is_ok());
    assert!(matches!(
        LocalMutation::try_create_directory(snapshot, parent, "no/tes", Err(NameError::Invalid)),
        Err(RepositoryPortError::InvalidInput)
    ));
    assert!(matches!(
        LocalMutation::try_delete_file(
            snapshot,
            parent,
            parent,
            "x",
            Err(NameError::CapacityExceeded),
            RevisionVersion::new([3; 32])
        ),
        Err(RepositoryPortError::CapacityExceeded)
    ));
    assert!(matches!(
        LocalStreamRevisionRequest::try_create(snapshot, "note", Ok("note".to_owned())),
        Ok(LocalStreamRevisionRequest::Create { .. })
    ));
}
