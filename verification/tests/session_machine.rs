//! The session: unlocking, its deadlines, locking and its workspaces.
use notecrypt_service::ports::paths::{
    LogicalParse, LogicalWorkspacePath, NativePath, PathComponent,
};
use notecrypt_service::ports::workspace::{WorkspaceId, WorkspaceMode};
use notecrypt_service::ports::HostPortError;
use notecrypt_service::session::clock::{MonotonicClock, SystemMonotonicClock};
use notecrypt_service::session::data::UnlockStep;
use notecrypt_service::session::errors::{PortAnswer, RepositoryPortError};
use notecrypt_service::session::manager::{
    may_unregister, CreateStep, LeaseStep, NamedWorkspace, RemoveStep, SessionManager,
    WorkspaceCreateRequest, WorkspaceSession,
};
use notecrypt_service::session::root::{
    AuthenticatedWorkspaceCapability, Handover, ReconcileStep, Reconciliation, RootCapabilitySlot,
};
use notecrypt_service::session::workspaces::{WorkspaceTable, MAX_ACTIVE_WORKSPACES};
use notecrypt_service::session::{
    SessionDeadlineKind, SessionEvent, SessionPolicy, SessionState, VaultId, MAX_WARNING_OFFSETS,
};
use notecrypt_service::{Duration, ServiceError};

fn seconds(count: u64) -> Duration {
    Duration::from_secs(count)
}

fn policy() -> SessionPolicy {
    SessionPolicy::try_new(seconds(60), seconds(600), vec![seconds(10), seconds(5)], seconds(2))
        .unwrap()
}

fn vault() -> VaultId {
    VaultId::from_bytes([9; 16])
}

fn locked_manager() -> SessionManager {
    SessionManager::new(
        7,
        policy(),
        PortAnswer::Returned(Ok(Some(vault()))),
        PortAnswer::Returned(Ok(seconds(1))),
    )
    .unwrap()
}

fn unlock(manager: &mut SessionManager, now: Duration) -> u64 {
    let generation = manager.begin_unlock().unwrap();
    assert!(matches!(manager.startup_cleaned(true), UnlockStep::UnlockRepository));
    assert!(matches!(
        manager.repository_answered(generation, PortAnswer::Returned(Ok(()))),
        UnlockStep::WrapRoot
    ));
    assert!(matches!(manager.root_wrapped(generation, true), UnlockStep::Reconcile));
    assert!(matches!(manager.workspaces_reconciled(generation, true), UnlockStep::ReadVaultId));
    assert!(matches!(manager.vault_identified(generation, true), UnlockStep::SampleClock));
    match manager.clock_sampled(generation, vault(), Ok(now)) {
        UnlockStep::Done(Ok(summary)) => {
            assert_eq!(summary.generation(), generation);
            assert_eq!(summary.vault_id(), vault());
        }
        _ => panic!("the unlock ends with a session"),
    }
    generation
}

fn root() -> NativePath {
    NativePath::new(
        b"/vault".to_vec(),
        true,
        vec![PathComponent::RootDir, PathComponent::Normal(b"vault".to_vec())],
    )
}

fn logical(text: &str) -> LogicalWorkspacePath {
    let parsed = LogicalParse { rendered: Ok(()), collision_key: Ok(text.to_owned()) };
    LogicalWorkspacePath::new(Some(text.to_owned()), Ok(parsed)).unwrap()
}

fn workspace(manager: &mut SessionManager, generation: u64, id: [u8; 16]) -> WorkspaceSession {
    let mut creation = manager.begin_workspace(generation, WorkspaceMode::Targeted).unwrap();
    let request = manager.workspace_registered(&mut creation, Ok(id), root());
    assert!(matches!(request, Ok(WorkspaceCreateRequest::Target(_))));
    let made = PortAnswer::Returned(Ok((id, WorkspaceMode::Targeted)));
    assert_eq!(manager.workspace_created(&creation, made), CreateStep::Activate);
    manager.workspace_activated(creation, Ok(id)).ok().unwrap()
}

#[test]
fn policies_are_bounded() {
    let good = (seconds(60), seconds(600), seconds(2));
    assert!(SessionPolicy::try_new(good.0, good.1, Vec::new(), good.2).is_ok());
    assert!(matches!(
        SessionPolicy::try_new(Duration::zero(), good.1, Vec::new(), good.2),
        Err(ServiceError::InvalidConfiguration)
    ));
    assert!(matches!(
        SessionPolicy::try_new(good.0, good.1, vec![seconds(60)], good.2),
        Err(ServiceError::InvalidConfiguration)
    ));
    assert!(matches!(
        SessionPolicy::try_new(good.0, good.1, Vec::new(), seconds(31)),
        Err(ServiceError::InvalidConfiguration)
    ));
    assert!(matches!(
        SessionPolicy::try_new(good.0, good.1, vec![seconds(5), seconds(5)], good.2),
        Err(ServiceError::InvalidConfiguration)
    ));
    let many: Vec<Duration> =
        (0..MAX_WARNING_OFFSETS as u64 + 1).map(|index| seconds(index + 1)).rev().collect();
    assert!(matches!(
        SessionPolicy::try_new(good.0, good.1, many, good.2),
        Err(ServiceError::InvalidConfiguration)
    ));
}

#[test]
fn a_new_manager_reports_what_its_repository_and_clock_answer() {
    assert!(matches!(
        SessionManager::new(
            1,
            policy(),
            PortAnswer::Panicked,
            PortAnswer::Returned(Ok(Duration::zero()))
        ),
        Err(ServiceError::ExecutorFailed)
    ));
    assert!(matches!(
        SessionManager::new(
            1,
            policy(),
            PortAnswer::Returned(Err(RepositoryPortError::IntegrityFailed)),
            PortAnswer::Returned(Ok(Duration::zero()))
        ),
        Err(ServiceError::IntegrityFailed)
    ));
    assert!(matches!(
        SessionManager::new(
            1,
            policy(),
            PortAnswer::Returned(Ok(None)),
            PortAnswer::Returned(Err(ServiceError::ClockFailure))
        ),
        Err(ServiceError::ClockFailure)
    ));
    let manager = locked_manager();
    assert_eq!(manager.state(), SessionState::Locked);
    assert_eq!(manager.current_generation(), None);
    assert_eq!(manager.current_vault_id(), Some(vault()));
    assert_eq!(manager.final_save_grace().as_nanos(), 2_000_000_000);
}

#[test]
fn an_unlock_opens_one_generation_after_the_other() {
    let mut manager = locked_manager();
    let first = unlock(&mut manager, seconds(2));
    assert_eq!(first, 1);
    assert_eq!(manager.state(), SessionState::Unlocked);
    assert_eq!(manager.current_generation(), Some(1));
    assert_eq!(manager.begin_unlock(), Err(ServiceError::Locked));
    assert_eq!(manager.check_root(1), Ok(()));
    assert_eq!(manager.check_root(2), Err(ServiceError::Locked));
    assert_eq!(manager.begin_lock(), Some(1));
    assert_eq!(manager.begin_lock(), None);
    assert_eq!(manager.state(), SessionState::Locking);
    assert_eq!(manager.check_root(1), Err(ServiceError::Locked));
    assert_eq!(manager.begin_lock_cleanup(true, false, true), Some(false));
    manager.finish_lock_after_close(false);
    assert_eq!(manager.state(), SessionState::Locked);
    let second = unlock(&mut manager, seconds(3));
    assert!(second > first);
}

#[test]
fn a_failed_unlock_gives_the_root_back_and_cleans_up() {
    let mut manager = locked_manager();
    let generation = manager.begin_unlock().unwrap();
    assert!(matches!(manager.startup_cleaned(true), UnlockStep::UnlockRepository));
    assert!(matches!(
        manager.repository_answered(
            generation,
            PortAnswer::Returned(Err(RepositoryPortError::WrongSecret))
        ),
        UnlockStep::CleanBase { error: ServiceError::AuthenticationFailed }
            | UnlockStep::Done(Err(ServiceError::AuthenticationFailed))
    ));

    let mut manager = locked_manager();
    let generation = manager.begin_unlock().unwrap();
    manager.startup_cleaned(true);
    manager.repository_answered(generation, PortAnswer::Returned(Ok(())));
    manager.root_wrapped(generation, true);
    let step = manager.workspaces_reconciled(generation, false);
    let (latch, error) = match step {
        UnlockStep::CloseRoot { latch, error } => (latch, error),
        _ => panic!("the root is closed"),
    };
    assert!(matches!(
        manager.root_closed(latch, false, error),
        UnlockStep::CleanBase { .. } | UnlockStep::Done(Err(_))
    ));
    assert_ne!(manager.state(), SessionState::Unlocked);
}

#[test]
fn a_lock_stops_an_unlock_that_is_under_way() {
    let mut manager = locked_manager();
    let generation = manager.begin_unlock().unwrap();
    assert_eq!(manager.state(), SessionState::Locked);
    manager.startup_cleaned(true);
    assert_eq!(manager.state(), SessionState::Unlocking);
    assert_eq!(manager.begin_lock(), None);
    let step = manager.repository_answered(generation, PortAnswer::Returned(Ok(())));
    assert!(!matches!(step, UnlockStep::WrapRoot));
    assert_ne!(manager.state(), SessionState::Unlocked);
}

#[test]
fn warnings_come_once_and_in_order() {
    let mut manager = locked_manager();
    unlock(&mut manager, seconds(0));
    let quiet = manager.observe_at(seconds(10)).unwrap();
    assert!(!quiet.expired);
    assert!(quiet.warnings.is_empty());
    assert_eq!(quiet.next_wait.unwrap().as_nanos(), 40_000_000_000);
    let warned = manager.observe_at(seconds(50)).unwrap();
    assert_eq!(
        warned.warnings,
        vec![SessionEvent::LockWarning {
            remaining: seconds(10),
            deadline: SessionDeadlineKind::Inactivity,
        }]
    );
    assert_eq!(warned.next_wait.unwrap().as_nanos(), 5_000_000_000);
    assert!(manager.observe_at(seconds(51)).unwrap().warnings.is_empty());
    let last = manager.observe_at(seconds(56)).unwrap();
    assert_eq!(last.warnings.len(), 1);
    assert_eq!(last.next_wait.unwrap().as_nanos(), 4_000_000_000);
    assert!(manager.observe_at(seconds(60)).unwrap().expired);
    assert_eq!(manager.record_trusted_activity_at(seconds(60)), Err(ServiceError::Locked));
}

#[test]
fn trusted_activity_moves_the_inactivity_deadline_only() {
    let mut manager = locked_manager();
    unlock(&mut manager, seconds(0));
    for turn in 1..12 {
        assert_eq!(manager.record_trusted_activity_at(seconds(turn * 50)), Ok(()));
    }
    let observed = manager.observe_at(seconds(555)).unwrap();
    assert!(!observed.expired);
    assert!(manager.observe_at(seconds(600)).unwrap().expired);
}

#[test]
fn clock_samples_never_go_back() {
    let mut manager = locked_manager();
    let first = manager.begin_sample().unwrap();
    let second = manager.begin_sample().unwrap();
    assert_eq!(
        manager.finish_sample(second, PortAnswer::Returned(Ok(seconds(9)))).unwrap().as_nanos(),
        9_000_000_000
    );
    assert_eq!(
        manager.finish_sample(first, PortAnswer::Returned(Ok(seconds(4)))).unwrap().as_nanos(),
        9_000_000_000
    );
    let third = manager.begin_sample().unwrap();
    assert!(matches!(
        manager.finish_sample(third, PortAnswer::Returned(Ok(seconds(8)))),
        Err(ServiceError::ClockFailure)
    ));
    assert!(matches!(
        manager.finish_sample(third, PortAnswer::Panicked),
        Err(ServiceError::ExecutorFailed)
    ));
}

#[test]
fn the_system_clock_goes_forward() {
    let clock = SystemMonotonicClock::start();
    let early = clock.elapsed().unwrap();
    let late = clock.elapsed().unwrap();
    assert!(!late.is_shorter_than(&early));
    assert!(late.is_shorter_than(&seconds(20)));
    let mut manager = SessionManager::new(
        7,
        policy(),
        PortAnswer::Returned(Ok(None)),
        PortAnswer::Returned(Ok(Duration::zero())),
    )
    .unwrap();
    assert!(manager.sample_now(&clock).is_ok());
}

#[test]
fn a_failed_lock_requires_cleanup_until_a_retry_is_clean() {
    let mut manager = locked_manager();
    unlock(&mut manager, seconds(2));
    manager.begin_lock();
    assert_eq!(manager.begin_lock_cleanup(true, true, true), Some(true));
    manager.finish_lock_after_close(true);
    assert_eq!(manager.state(), SessionState::CleanupRequired);
    assert!(manager.begin_unlock().is_err());
    assert_eq!(manager.begin_retry_cleanup(), Ok(()));
    assert_eq!(
        manager.finish_retry_cleanup(true, false, true),
        Err(ServiceError::CleanupRequired)
    );
    assert_eq!(manager.state(), SessionState::CleanupRequired);
    assert_eq!(manager.begin_retry_cleanup(), Ok(()));
    assert_eq!(manager.finish_retry_cleanup(true, true, true), Ok(()));
    assert_eq!(manager.state(), SessionState::Locked);
}

#[test]
fn leases_are_granted_only_for_the_open_generation() {
    let mut manager = locked_manager();
    let generation = unlock(&mut manager, seconds(2));
    assert_eq!(manager.lease_acquired(generation, Ok(())), LeaseStep::Granted);
    assert_eq!(
        manager.lease_acquired(generation, Err(RepositoryPortError::Busy)),
        LeaseStep::Refused(ServiceError::Busy)
    );
    manager.begin_lock();
    assert_eq!(manager.lease_acquired(generation, Ok(())), LeaseStep::GiveBack);
}

#[test]
fn a_closed_slot_gives_nothing_away() {
    let mut slot = RootCapabilitySlot::new();
    assert_eq!(slot.enter(), Ok(()));
    assert!(matches!(slot.leave(Ok(5)), Ok(Handover::Keep(5))));
    slot.begin_close();
    assert_eq!(slot.enter(), Err(RepositoryPortError::Locked));
    assert!(matches!(slot.leave(Ok(5)), Ok(Handover::GiveBack(5))));
    assert_eq!(slot.close(), Ok(()));
    assert_eq!(slot.check_present(), Err(RepositoryPortError::Locked));
    assert!(slot.close().is_err());
}

#[test]
fn authenticated_workspace_reconciliation_rejects_mismatched_active_identity() {
    let registered_id = WorkspaceId::from_store([0x71; 16]).unwrap();
    let slot = RootCapabilitySlot::new();
    let records = vec![AuthenticatedWorkspaceCapability::Registered(registered_id)];
    let reconciliation = Reconciliation::begin(&slot, Ok(records)).unwrap();
    assert_eq!(reconciliation.next(), ReconcileStep::Activate(0));

    // The step is the end: nothing is unregistered.
    assert_eq!(
        reconciliation.activated(Ok([0x72; 16])),
        ReconcileStep::Done(Err(RepositoryPortError::IntegrityFailed))
    );
}

#[test]
fn authenticated_workspace_reconciliation_rejects_unbounded_adapter_result() {
    let slot = RootCapabilitySlot::new();
    let records = (0..MAX_ACTIVE_WORKSPACES + 1)
        .map(|_| {
            AuthenticatedWorkspaceCapability::Registered(
                WorkspaceId::from_store([0x73; 16]).unwrap(),
            )
        })
        .collect::<Vec<_>>();
    assert!(matches!(
        Reconciliation::begin(&slot, Ok(records)),
        Err(RepositoryPortError::CapacityExceeded)
    ));
}

#[test]
fn a_reconciliation_goes_on_past_live_workspaces() {
    let slot = RootCapabilitySlot::new();
    let records = vec![
        AuthenticatedWorkspaceCapability::Active(WorkspaceId::from_store([1; 16]).unwrap()),
        AuthenticatedWorkspaceCapability::Registered(WorkspaceId::from_store([2; 16]).unwrap()),
    ];
    let mut reconciliation = Reconciliation::begin(&slot, Ok(records)).unwrap();
    assert_eq!(reconciliation.next(), ReconcileStep::UnregisterAbsent(0));
    assert_eq!(
        reconciliation.unregistered(Err(RepositoryPortError::Busy)),
        ReconcileStep::Activate(1)
    );
    assert_eq!(reconciliation.activated(Ok([2; 16])), ReconcileStep::UnregisterAbsent(1));
    assert_eq!(reconciliation.unregistered(Ok(())), ReconcileStep::Done(Ok(())));
}

/// A host that counts what it is asked for while a creation is taken back.
struct Host {
    active_id: [u8; 16],
    removed: usize,
    acquired_absence: usize,
    unregister_calls: usize,
}

impl Host {
    fn new(active_id: [u8; 16]) -> Self {
        Host { active_id, removed: 0, acquired_absence: 0, unregister_calls: 0 }
    }

    /// Takes the registration of an identity back with evidence of its absence.
    fn unregister(&mut self, registered: [u8; 16]) -> bool {
        self.acquired_absence += 1;
        let allowed = may_unregister(&registered, &registered, &self.active_id);
        if allowed {
            self.unregister_calls += 1;
        }
        allowed
    }

    /// Does what a step of a failed creation asks for.
    fn take_back(
        &mut self,
        manager: &mut SessionManager,
        step: CreateStep,
        registered: [u8; 16],
    ) -> ServiceError {
        match step {
            CreateStep::RemoveWrong => {
                self.removed += 1;
                let unregistered = self.unregister(registered);
                manager.creation_rolled_back(ServiceError::CleanupRequired, unregistered)
            }
            CreateStep::RollBack { created: false, error } => {
                let unregistered = self.unregister(registered);
                manager.creation_rolled_back(error, unregistered)
            }
            _ => panic!("the creation is taken back before it is active"),
        }
    }
}

#[test]
fn create_workspace_rejects_a_provider_lease_for_another_registered_identity() {
    let registered_id = [0x81; 16];
    let response_id = [0x82; 16];
    let mut host = Host::new([0x81; 16]);
    let mut manager = locked_manager();
    let generation = unlock(&mut manager, seconds(2));
    assert_eq!(generation, 1);
    let mut creation = manager.begin_workspace(1, WorkspaceMode::Targeted).unwrap();
    assert!(manager.workspace_registered(&mut creation, Ok(registered_id), root()).is_ok());
    let made = PortAnswer::Returned(Ok((response_id, WorkspaceMode::Targeted)));
    let step = manager.workspace_created(&creation, made);
    assert_eq!(step, CreateStep::RemoveWrong);
    assert_eq!(
        host.take_back(&mut manager, step, registered_id),
        ServiceError::CleanupRequired
    );
    assert_eq!(host.removed, 1);
    assert_eq!(host.acquired_absence, 1);
    assert_eq!(host.unregister_calls, 1);
    assert_eq!(manager.take_tracked_workspace(), None);
}

#[test]
fn rollback_never_pairs_an_absence_guard_with_a_different_active_identity() {
    let registered_id = [0x91; 16];
    let mut host = Host::new([0x92; 16]);
    let mut manager = locked_manager();
    unlock(&mut manager, seconds(2));
    let mut creation = manager.begin_workspace(1, WorkspaceMode::Targeted).unwrap();
    assert!(manager.workspace_registered(&mut creation, Ok(registered_id), root()).is_ok());
    let failed = PortAnswer::Returned(Err(HostPortError::Unavailable));
    let step = manager.workspace_created(&creation, failed);
    assert_eq!(
        host.take_back(&mut manager, step, registered_id),
        ServiceError::CleanupRequired
    );
    assert_eq!(host.removed, 0);
    assert_eq!(host.acquired_absence, 1);
    assert_eq!(host.unregister_calls, 0);
    assert_eq!(manager.take_tracked_workspace(), None);
}

#[test]
fn a_root_that_cannot_be_wrapped_is_closed_before_the_unlock_is_given_up() {
    let mut manager = locked_manager();
    let generation = manager.begin_unlock().unwrap();
    assert!(matches!(manager.startup_cleaned(true), UnlockStep::UnlockRepository));
    assert!(matches!(
        manager.repository_answered(generation, PortAnswer::Returned(Ok(()))),
        UnlockStep::WrapRoot
    ));
    assert!(matches!(manager.root_wrapped(generation, false), UnlockStep::CloseUnwrapped));
    assert_eq!(manager.state(), SessionState::Unlocking);
    assert!(matches!(
        manager.unwrapped_root_closed(),
        UnlockStep::CleanBase { error: ServiceError::CleanupRequired }
    ));
    assert_eq!(manager.state(), SessionState::CleanupRequired);
}

#[test]
fn a_workspace_is_listed_once_and_removed_once() {
    let mut manager = locked_manager();
    let generation = unlock(&mut manager, seconds(2));
    let session = workspace(&mut manager, generation, [3; 16]);
    assert!(manager.owns_workspace(&session, generation));
    let mut again = manager.begin_workspace(generation, WorkspaceMode::Targeted).unwrap();
    assert!(manager.workspace_registered(&mut again, Ok([3; 16]), root()).is_ok());
    assert!(matches!(
        manager.workspace_activated(again, Ok([3; 16])),
        Err(CreateStep::RemoveRecord)
    ));
    assert_eq!(manager.workspace_removed(true), RemoveStep::Unregister);
    assert_eq!(
        manager.workspace_unregistered(true, Err(ServiceError::Busy)),
        Err(ServiceError::Busy)
    );
    assert_eq!(manager.begin_remove_workspace(session, generation), Ok(()));
    assert_eq!(manager.workspace_removed(true), RemoveStep::Unregister);
    assert_eq!(manager.workspace_unregistered(true, Ok(())), Ok(()));
    let kept = workspace(&mut manager, generation, [4; 16]);
    let token = manager.take_tracked_workspace();
    assert!(token.is_some());
    assert_eq!(
        manager.begin_remove_workspace(kept, generation),
        Err(ServiceError::StaleCapability)
    );
}

#[test]
fn a_lock_ends_the_use_of_a_workspace() {
    let mut manager = locked_manager();
    let generation = unlock(&mut manager, seconds(2));
    let session = workspace(&mut manager, generation, [3; 16]);
    assert_eq!(manager.begin_stable_commit(&session, &logical("a")), Ok(()));
    assert_eq!(manager.stable_source_opened(&session, PortAnswer::Returned(Ok(()))), Ok(()));
    assert_eq!(
        manager.stable_source_opened(&session, PortAnswer::Panicked),
        Err(ServiceError::ExecutorFailed)
    );
    let creation = manager.begin_workspace(generation, WorkspaceMode::WholeVault).unwrap();
    manager.begin_lock();
    assert_eq!(
        manager.begin_stable_commit(&session, &logical("a")),
        Err(ServiceError::StaleCapability)
    );
    assert_eq!(
        manager.stable_source_opened(&session, PortAnswer::Returned(Ok(()))),
        Err(ServiceError::StaleCapability)
    );
    assert!(manager.begin_workspace(generation, WorkspaceMode::Targeted).is_err());
    assert_eq!(manager.workspace_removed(false), RemoveStep::Failed(ServiceError::CleanupRequired));
    assert!(matches!(
        manager.workspace_created(&creation, PortAnswer::Panicked),
        CreateStep::RollBack { created: false, error: ServiceError::CleanupRequired }
    ));
    assert_eq!(
        manager.begin_remove_workspace(session, generation),
        Err(ServiceError::StaleCapability)
    );
}

#[test]
fn a_registered_workspace_without_a_name_requires_cleanup() {
    let mut manager = locked_manager();
    let generation = unlock(&mut manager, seconds(2));
    let mut creation = manager.begin_workspace(generation, WorkspaceMode::Targeted).unwrap();
    assert!(matches!(
        manager.workspace_named(&mut creation, [1; 16], NamedWorkspace::Refused),
        Err(CreateStep::RollBack { created: false, error: ServiceError::ExecutorFailed })
    ));
    assert!(matches!(
        manager.workspace_named(&mut creation, [1; 16], NamedWorkspace::Unnamed),
        Err(CreateStep::Failed(ServiceError::CleanupRequired))
    ));
}

#[test]
fn a_session_is_made_only_over_granted_room() {
    assert!(matches!(
        SessionPolicy::over(seconds(60), seconds(600), vec![seconds(5)], seconds(2), None),
        Err(ServiceError::AllocationFailed)
    ));
    let made =
        SessionPolicy::over(seconds(60), seconds(600), vec![seconds(5)], seconds(2), Some(Vec::new()));
    assert!(made.is_ok());
    assert!(WorkspaceTable::over(None).is_none());
    assert!(matches!(
        SessionManager::over(7, policy(), Some(vault()), seconds(1), None),
        Err(ServiceError::AllocationFailed)
    ));
    let table = WorkspaceTable::over(Some(Vec::new()));
    let manager = SessionManager::over(7, policy(), Some(vault()), seconds(1), table).ok().unwrap();
    assert_eq!(manager.state(), SessionState::Locked);
}

#[test]
fn warnings_that_cannot_be_told_count_as_given() {
    let mut manager = locked_manager();
    unlock(&mut manager, seconds(2));
    let found = manager.observe_with_room(seconds(52), Vec::new());
    assert_eq!(found.count(), 1);
    assert!(matches!(found.told(None), Err(ServiceError::AllocationFailed)));
    let found = manager.observe_with_room(seconds(57), Vec::new());
    assert_eq!(found.count(), 1);
    let told = found.told(Some(Vec::new())).ok().unwrap();
    assert!(!told.expired);
    assert_eq!(
        told.warnings,
        vec![SessionEvent::LockWarning {
            remaining: seconds(5),
            deadline: SessionDeadlineKind::Inactivity,
        }]
    );
    assert_eq!(told.next_wait, Some(seconds(5)));
}
