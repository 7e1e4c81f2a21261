//! Reads, changes and exports of the local vault, step by step.
use notecrypt_service::command::result::{ExportSummary, OperationResult};
use notecrypt_service::command::{
    DeleteEntry, EntryId, EntryKind, MoveEntry, RevisionVersion, SnapshotVersion,
};
use notecrypt_service::local_use_cases::exports::ExportRun;
use notecrypt_service::local_use_cases::mutations::{MutationRun, MutationTask};
use notecrypt_service::local_use_cases::reads::{ReadRun, ReadTask};
use notecrypt_service::local_use_cases::{
    created_directory, created_file, deleted, durability, entries_result, finish_repository_lease,
    finish_stable_commit, flush_answer, map_external_error, map_publication_error, relocated,
    repository_answer, settle_answer, status_result, Answer, ByteCounter, Commitment, UseAction,
};
use notecrypt_service::operation::OperationId;
use notecrypt_service::ports::HostPortError;
use notecrypt_service::secret::SecretText;
use notecrypt_service::service::handles::OperationHandle;
use notecrypt_service::service::identity::OsOperationIdRandom;
use notecrypt_service::service::locking::{
    EditorQuiescenceObservation, LockAction, LockEvent, LockSequence, LockStage,
};
use notecrypt_service::service::runtime::ServiceCore;
use notecrypt_service::service::scheduler::{CoordinatorStep, Grace};
use notecrypt_service::service::worker::{ControlStep, WorkStep};
use notecrypt_service::service::{Control, ServiceConfig};
use notecrypt_service::session::data::UnlockStep;
use notecrypt_service::session::errors::{PortAnswer, RepositoryPortError};
use notecrypt_service::session::manager::SessionManager;
use notecrypt_service::session::repository::{
    assemble_status, assemble_view, LocalEntryId, LocalEntryKind, LocalEntryList, LocalListedEntry,
};
use notecrypt_service::session::{SessionPolicy, SessionState, VaultId};
use notecrypt_service::{Duration, OperationEvent, OperationPhase, ServiceError};

fn vault() -> VaultId {
    VaultId::from_bytes([9; 16])
}

fn snapshot() -> SnapshotVersion {
    SnapshotVersion::new([0x11; 32])
}

fn unlocked_service() -> ServiceCore {
    unlocked_service_of(ServiceConfig::default())
}

fn unlocked_service_of(config: ServiceConfig) -> ServiceCore {
    let policy = SessionPolicy::try_new(
        Duration::from_secs(60),
        Duration::from_secs(600),
        Vec::new(),
        Duration::from_secs(2),
    )
    .unwrap();
    let manager = SessionManager::new(
        1,
        policy,
        PortAnswer::Returned(Ok(Some(vault()))),
        PortAnswer::Returned(Ok(Duration::zero())),
    )
    .unwrap();
    let mut service = ServiceCore::new(1, config, Some(manager)).unwrap();
    assert_eq!(service.begin_unlock_job(), Ok(()));
    let manager = service.session.as_mut().unwrap();
    let generation = manager.begin_unlock().unwrap();
    manager.startup_cleaned(true);
    manager.repository_answered(generation, PortAnswer::Returned(Ok(())));
    manager.root_wrapped(generation, true);
    manager.workspaces_reconciled(generation, true);
    manager.vault_identified(generation, true);
    let step = manager.clock_sampled(generation, vault(), Ok(Duration::zero()));
    assert!(matches!(step, UnlockStep::Done(Ok(_))));
    assert_eq!(service.finish_unlock_job(Ok(generation)), Ok(generation));
    service
}

fn running(service: &mut ServiceCore, mutating: bool) -> OperationId {
    let generation = service.scheduler.check_admission().unwrap();
    let id = service.candidate_operation(&OsOperationIdRandom).unwrap();
    let state = service.new_operation(id, mutating).unwrap();
    assert_eq!(service.admit_operation(generation, Some(Duration::zero()), state), Ok(()));
    assert_eq!(service.scheduler.coordinate(None), CoordinatorStep::Dispatch(id));
    assert_eq!(service.begin_work(id), WorkStep::Run);
    id
}

/// Ends an operation and gives back what its caller learns.
fn end(
    service: &mut ServiceCore,
    id: OperationId,
    result: Result<OperationResult, ServiceError>,
) -> Result<OperationResult, ServiceError> {
    let mut handle = OperationHandle::new(id);
    if let Some(state) = service.end_work(id, PortAnswer::Returned(result)) {
        handle.keep(state);
    }
    if let CoordinatorStep::Handle(pending) = service.scheduler.coordinate(None) {
        assert!(matches!(service.take_control(pending), ControlStep::Cancel(_, _)));
        if let Some(state) = service.control_handled(pending) {
            handle.keep(state);
        }
        service.scheduler.complete_control_observation(pending);
    }
    handle.wait_result(service, false).unwrap()
}

/// Runs an export up to the action that is asked for.
fn export_until(
    service: &mut ServiceCore,
    id: OperationId,
    run: &mut ExportRun,
    wanted: UseAction,
) -> UseAction {
    let mut action = UseAction::Continue;
    loop {
        if action == wanted || matches!(action, UseAction::End(_)) {
            return action;
        }
        let answer = match action {
            UseAction::ReadSnapshot => Ok(Answer::Snapshot(snapshot())),
            UseAction::Export => Ok(Answer::Exported(34)),
            _ => Ok(Answer::Nothing),
        };
        action = run.advance(service, id, answer);
    }
}

fn exported() -> Result<OperationResult, ServiceError> {
    Ok(OperationResult::Exported(ExportSummary::new([1; 16])))
}

/// What an operation ends with after its run ended.
fn result_of(
    action: UseAction,
    success: Result<OperationResult, ServiceError>,
) -> Result<OperationResult, ServiceError> {
    match action {
        UseAction::End(Ok(())) => success,
        UseAction::End(Err(error)) => Err(error),
        other => panic!("the run is not over: {:?}", other),
    }
}

#[test]
fn an_export_is_written_and_published() {
    let mut service = unlocked_service();
    let id = running(&mut service, false);
    let mut run = ExportRun::new(snapshot());
    let action = export_until(&mut service, id, &mut run, UseAction::Publish);
    assert_eq!(action, UseAction::Publish);
    let action = run.advance(&mut service, id, Ok(Answer::Nothing));
    assert_eq!(action, UseAction::End(Ok(())));
    let result = end(&mut service, id, result_of(action, exported()));
    assert!(matches!(result, Ok(OperationResult::Exported(_))));
}

#[test]
fn a_stale_export_never_begins() {
    let mut service = unlocked_service();
    let id = running(&mut service, false);
    let mut run = ExportRun::new(SnapshotVersion::new([0x99; 32]));
    let action = export_until(&mut service, id, &mut run, UseAction::BeginExport);
    assert_eq!(action, UseAction::End(Err(ServiceError::StaleCapability)));
}

#[test]
fn cancellation_while_external_export_opens_aborts_the_private_transaction() {
    let mut service = unlocked_service();
    let id = running(&mut service, false);
    let mut run = ExportRun::new(snapshot());
    let action = export_until(&mut service, id, &mut run, UseAction::BeginExport);
    assert_eq!(action, UseAction::BeginExport);

    OperationHandle::new(id).cancel(&mut service);
    let mut aborted = false;
    let mut published = false;
    let mut action = run.advance(&mut service, id, Ok(Answer::Nothing));
    while !matches!(action, UseAction::End(_)) {
        aborted = aborted || action == UseAction::AbortExport;
        published = published || action == UseAction::Publish;
        action = run.advance(&mut service, id, Ok(Answer::Nothing));
    }
    let result = end(&mut service, id, result_of(action, exported()));
    assert!(matches!(result, Err(ServiceError::Cancelled)));
    assert!(aborted);
    assert!(!published);
}

#[test]
fn cancellation_after_publication_authorization_keeps_visible_success() {
    let mut service = unlocked_service();
    let id = running(&mut service, false);
    let mut run = ExportRun::new(snapshot());
    let action = export_until(&mut service, id, &mut run, UseAction::Publish);
    assert_eq!(action, UseAction::Publish);
    assert!(service.scheduler.authorize_publication(id).is_ok());

    OperationHandle::new(id).cancel(&mut service);
    service.scheduler.finish_publication(id, true);
    let action = run.advance(&mut service, id, Ok(Answer::Nothing));
    assert_eq!(action, UseAction::End(Ok(())));
    let result = end(&mut service, id, result_of(action, exported()));
    assert!(matches!(result, Ok(OperationResult::Exported(_))));
}

/// Takes up the lock that waits.
fn begin_lock(service: &mut ServiceCore) -> LockSequence {
    let pending = match service.scheduler.coordinate(None) {
        CoordinatorStep::Handle(pending) => pending,
        step => panic!("unexpected step {:?}", step),
    };
    assert!(matches!(service.take_control(pending), ControlStep::Lock(_)));
    let (sequence, _) = service.begin_lock_job(pending.generation).unwrap();
    service.scheduler.complete_control_observation(pending);
    sequence
}

fn quiet() -> LockEvent {
    LockEvent {
        succeeded: true,
        editors: EditorQuiescenceObservation::Known(true),
        grace: Grace::Passed,
    }
}

#[test]
fn priority_lock_stays_responsive_and_cannot_lock_ahead_of_export_publication() {
    let mut service = unlocked_service();
    let id = running(&mut service, false);
    let mut run = ExportRun::new(snapshot());
    export_until(&mut service, id, &mut run, UseAction::Publish);
    assert!(service.scheduler.authorize_publication(id).is_ok());

    assert_eq!(service.control(Control::LockNow), Ok(()));
    assert_eq!(service.snapshot().session_state(), SessionState::Locking);
    let mut sequence = begin_lock(&mut service);
    let mut revoked = false;
    let mut action = LockAction::Nothing;
    while action != LockAction::WaitForPublications {
        action = service.advance_lock(&mut sequence, quiet()).action;
        revoked = revoked || matches!(action, LockAction::RevokeRoot(_));
        assert_ne!(sequence.stage, LockStage::Over);
    }
    assert!(revoked);
    assert_eq!(service.scheduler.check_admission(), Err(ServiceError::Locked));
    assert_eq!(
        service.advance_lock(&mut sequence, quiet()).action,
        LockAction::WaitForPublications
    );

    service.scheduler.finish_publication(id, true);
    let action = run.advance(&mut service, id, Ok(Answer::Nothing));
    assert_eq!(action, UseAction::End(Ok(())));
    let result = end(&mut service, id, result_of(action, exported()));
    assert!(matches!(result, Ok(OperationResult::Exported(_))));
    while sequence.stage != LockStage::Over {
        service.advance_lock(&mut sequence, quiet());
    }
    assert_eq!(service.snapshot().session_state(), SessionState::Locked);
}

#[test]
fn saturated_mutation_queue_cannot_delay_priority_lock_behind_blocked_export() {
    let config = ServiceConfig::new(1, 1, 16, 16, 8, 8).unwrap();
    let mut service = unlocked_service_of(config);
    let export = running(&mut service, false);
    let mut run = ExportRun::new(snapshot());
    let action = export_until(&mut service, export, &mut run, UseAction::BeginExport);
    assert_eq!(action, UseAction::BeginExport);

    let mut queued = Vec::new();
    for _ in 0..16 {
        let generation = match service.scheduler.check_admission() {
            Ok(generation) => generation,
            Err(error) => {
                assert_eq!(error, ServiceError::Busy);
                break;
            }
        };
        let id = service.candidate_operation(&OsOperationIdRandom).unwrap();
        let state = service.new_operation(id, true).unwrap();
        match service.admit_operation(generation, Some(Duration::zero()), state) {
            Ok(()) => queued.push(id),
            Err(error) => {
                assert_eq!(error, ServiceError::Busy);
                break;
            }
        }
    }
    assert!(!queued.is_empty());
    assert!(queued.len() < 16);

    assert_eq!(service.control(Control::LockNow), Ok(()));
    let transition = service.snapshot();
    assert_eq!(transition.session_state(), SessionState::Locking);
    assert!(!transition.accepting_operations());
    assert!(!transition.key_leases_open());

    let mut aborted = false;
    let mut action = run.advance(&mut service, export, Ok(Answer::Nothing));
    while !matches!(action, UseAction::End(_)) {
        aborted = aborted || action == UseAction::AbortExport;
        assert_ne!(action, UseAction::Publish);
        action = run.advance(&mut service, export, Ok(Answer::Nothing));
    }
    assert!(aborted);
    let mut handle = OperationHandle::new(export);
    if let Some(state) =
        service.end_work(export, PortAnswer::Returned(result_of(action, exported())))
    {
        handle.keep(state);
    }
    assert!(matches!(
        handle.wait_result(&mut service, false),
        Some(Err(ServiceError::Cancelled))
    ));

    let mut sequence = begin_lock(&mut service);
    while sequence.stage != LockStage::Over {
        service.advance_lock(&mut sequence, quiet());
    }
    assert_eq!(service.snapshot().session_state(), SessionState::Locked);

    for id in queued {
        assert_eq!(service.scheduler.coordinate(None), CoordinatorStep::Dispatch(id));
        let mut handle = OperationHandle::new(id);
        let failure = match service.begin_work(id) {
            WorkStep::Fail(error) => error,
            step => panic!("unexpected step {:?}", step),
        };
        if let Some(state) = service.end_work(id, PortAnswer::Returned(Err(failure))) {
            handle.keep(state);
        }
        assert!(matches!(
            handle.wait_result(&mut service, false),
            Some(Err(ServiceError::Cancelled))
        ));
    }
}

#[test]
fn export_publish_cleanup_failure_latches_cleanup_required() {
    let mut service = unlocked_service();
    let id = running(&mut service, false);
    let mut run = ExportRun::new(snapshot());
    export_until(&mut service, id, &mut run, UseAction::Publish);
    let failed = settle_answer(PortAnswer::Returned(Err(HostPortError::CleanupFailed)));
    let action = run.advance(&mut service, id, failed);
    assert_eq!(action, UseAction::End(Err(ServiceError::CleanupRequired)));
    let result = end_after_latch(&mut service, id, result_of(action, exported()));
    assert!(matches!(result, Err(ServiceError::CleanupRequired)));
    assert_eq!(service.snapshot().session_state(), SessionState::CleanupRequired);

    let manager = service.session.as_mut().unwrap();
    assert_eq!(manager.begin_retry_cleanup(), Ok(()));
    assert_eq!(manager.finish_retry_cleanup(true, true, true), Ok(()));
    assert_eq!(service.snapshot().session_state(), SessionState::Locked);
}

/// Ends an operation after its failure began a lock, and runs the lock.
fn end_after_latch(
    service: &mut ServiceCore,
    id: OperationId,
    result: Result<OperationResult, ServiceError>,
) -> Result<OperationResult, ServiceError> {
    let mut handle = OperationHandle::new(id);
    if let Some(state) = service.end_work(id, PortAnswer::Returned(result)) {
        handle.keep(state);
    }
    if service.scheduler.has_lock_job() {
        let mut sequence = begin_lock(service);
        while sequence.stage != LockStage::Over {
            service.advance_lock(&mut sequence, quiet());
        }
    }
    handle.wait_result(service, false).unwrap()
}

#[test]
fn export_host_faults_and_panics_are_contained_with_exact_cleanup_semantics() {
    let failures: [(UseAction, Result<Answer, ServiceError>); 4] = [
        (UseAction::Export, Err(ServiceError::ExecutorFailed)),
        (UseAction::Export, Err(ServiceError::ExecutorFailed)),
        (
            UseAction::Flush,
            flush_answer(PortAnswer::Returned(Err(HostPortError::PlatformFailure))),
        ),
        (UseAction::Flush, flush_answer(PortAnswer::Panicked)),
    ];
    let mut aborts = 0;
    for (index, (at, failure)) in failures.into_iter().enumerate() {
        let mut service = unlocked_service();
        let id = running(&mut service, false);
        let mut run = ExportRun::new(snapshot());
        assert_eq!(export_until(&mut service, id, &mut run, at), at);
        let mut action = run.advance(&mut service, id, failure);
        while !matches!(action, UseAction::End(_)) {
            if action == UseAction::AbortExport {
                aborts += 1;
            }
            action = run.advance(&mut service, id, Ok(Answer::Nothing));
        }
        assert_eq!(action, UseAction::End(Err(ServiceError::ExecutorFailed)));
        assert_eq!(aborts, index + 1);
        assert_eq!(service.snapshot().session_state(), SessionState::Unlocked);
    }

    let mut service = unlocked_service();
    let id = running(&mut service, false);
    let mut run = ExportRun::new(snapshot());
    export_until(&mut service, id, &mut run, UseAction::Publish);
    let pending = settle_answer(PortAnswer::Returned(Err(HostPortError::DurabilityPending)));
    assert_eq!(
        run.advance(&mut service, id, pending),
        UseAction::End(Err(ServiceError::DurabilityPending))
    );

    let mut service = unlocked_service();
    let id = running(&mut service, false);
    let mut run = ExportRun::new(snapshot());
    export_until(&mut service, id, &mut run, UseAction::Publish);
    let panicked = settle_answer(PortAnswer::Panicked);
    assert_eq!(
        run.advance(&mut service, id, panicked),
        UseAction::End(Err(ServiceError::CleanupRequired))
    );

    let mut service = unlocked_service();
    let id = running(&mut service, false);
    let mut run = ExportRun::new(snapshot());
    export_until(&mut service, id, &mut run, UseAction::Export);
    let action = run.advance(&mut service, id, Err(ServiceError::ExecutorFailed));
    assert_eq!(action, UseAction::FinishLease);
    let action = run.advance(&mut service, id, Ok(Answer::Nothing));
    assert_eq!(action, UseAction::AbortExport);
    let panicked = settle_answer(PortAnswer::Panicked);
    assert_eq!(
        run.advance(&mut service, id, panicked),
        UseAction::End(Err(ServiceError::CleanupRequired))
    );
}

fn committed() -> Commitment {
    Commitment {
        snapshot: SnapshotVersion::new([0x22; 32]),
        entry: EntryId::new([5; 16]),
        revision: Some(RevisionVersion::new([6; 32])),
    }
}

/// Runs a change up to the action that is asked for.
fn change_until(
    service: &mut ServiceCore,
    id: OperationId,
    run: &mut MutationRun,
    wanted: UseAction,
) -> UseAction {
    let mut action = UseAction::Continue;
    loop {
        if action == wanted || matches!(action, UseAction::End(_)) {
            return action;
        }
        let answer = match action {
            UseAction::Commit => Ok(Answer::Committed(committed())),
            _ => Ok(Answer::Nothing),
        };
        action = run.advance(service, id, answer);
    }
}

#[test]
fn a_change_takes_its_steps_in_order() {
    let mut service = unlocked_service();
    let id = running(&mut service, true);
    let mut run = MutationRun::new(MutationTask::ImportFile);
    let mut action = UseAction::Continue;
    let mut seen = Vec::new();
    while !matches!(action, UseAction::End(_)) {
        let answer = match action {
            UseAction::Commit => Ok(Answer::Committed(committed())),
            _ => Ok(Answer::Nothing),
        };
        action = run.advance(&mut service, id, answer);
        if action != UseAction::Continue {
            seen.push(action);
        }
    }
    assert_eq!(
        seen,
        vec![
            UseAction::OpenImport,
            UseAction::TakeLease,
            UseAction::Build,
            UseAction::Commit,
            UseAction::FinishLease,
            UseAction::End(Ok(())),
        ]
    );
    let mut handle = OperationHandle::new(id);
    let mut events = Vec::new();
    while let Some(event) = handle.try_next_event(&mut service) {
        events.push(event);
    }
    assert_eq!(events[0], OperationEvent::Started);
    assert_eq!(events[1], OperationEvent::PhaseChanged(OperationPhase::Preparing));
    assert_eq!(events[2], OperationEvent::PhaseChanged(OperationPhase::Reading));
    assert_eq!(events[3], OperationEvent::PhaseChanged(OperationPhase::Encrypting));
    assert_eq!(
        events.last(),
        Some(&OperationEvent::RevisionDurable(durability(committed().snapshot)))
    );
    assert_eq!(durability(committed().snapshot).opaque_id(), &[0x22; 16]);
}

#[test]
fn cancellation_while_waiting_for_external_import_opens_no_revision() {
    let mut service = unlocked_service();
    let id = running(&mut service, true);
    let mut run = MutationRun::new(MutationTask::ImportFile);
    change_until(&mut service, id, &mut run, UseAction::OpenImport);
    OperationHandle::new(id).cancel(&mut service);
    let mut action = run.advance(&mut service, id, Ok(Answer::Nothing));
    while !matches!(action, UseAction::End(_)) {
        assert_ne!(action, UseAction::Build);
        assert_ne!(action, UseAction::Commit);
        action = run.advance(&mut service, id, Ok(Answer::Nothing));
    }
    let result = end(&mut service, id, result_of(action, exported()));
    assert!(matches!(result, Err(ServiceError::Cancelled)));
    assert_eq!(run.committed.is_none(), true);
}

#[test]
fn cancellation_after_revision_durable_keeps_the_committed_result() {
    let mut service = unlocked_service();
    let id = running(&mut service, true);
    let mut run = MutationRun::new(MutationTask::CreateDirectory);
    let action = change_until(&mut service, id, &mut run, UseAction::FinishLease);
    assert_eq!(action, UseAction::FinishLease);
    let mut action = run.advance(&mut service, id, Ok(Answer::Nothing));
    while action == UseAction::Continue {
        action = run.advance(&mut service, id, Ok(Answer::Nothing));
    }
    assert_eq!(action, UseAction::End(Ok(())));
    let mut handle = OperationHandle::new(id);
    let mut saw_durable = false;
    while let Some(event) = handle.try_next_event(&mut service) {
        if matches!(event, OperationEvent::RevisionDurable(_)) {
            saw_durable = true;
            handle.cancel(&mut service);
        }
    }
    assert!(saw_durable);
    let name = SecretText::new("durable-cancel-race".to_owned());
    let made = created_directory(EntryId::new([1; 16]), name, committed());
    let result = end(&mut service, id, result_of(action, Ok(made)));
    match result {
        Ok(OperationResult::EntryChanged(summary)) => {
            assert_ne!(summary.snapshot(), snapshot());
            assert_eq!(summary.snapshot(), committed().snapshot);
        }
        _ => panic!("durable cancellation race returned the wrong result"),
    }
}

#[test]
fn a_tombstone_is_not_relocated() {
    let mut service = unlocked_service();
    let id = running(&mut service, true);
    let mut run = MutationRun::new(MutationTask::Relocate(EntryKind::Tombstone));
    let action = change_until(&mut service, id, &mut run, UseAction::Commit);
    assert_eq!(action, UseAction::End(Err(ServiceError::InvalidInput)));
}

#[test]
fn a_failed_commit_still_gives_its_lease_back() {
    let mut service = unlocked_service();
    let id = running(&mut service, true);
    let mut run = MutationRun::new(MutationTask::Delete);
    change_until(&mut service, id, &mut run, UseAction::Commit);
    let failed = repository_answer(Err(RepositoryPortError::StaleCapability));
    assert_eq!(run.advance(&mut service, id, failed), UseAction::FinishLease);
    assert_eq!(
        run.advance(&mut service, id, Ok(Answer::Nothing)),
        UseAction::End(Err(ServiceError::StaleCapability))
    );
}

#[test]
fn a_read_gives_its_lease_back() {
    let mut service = unlocked_service();
    let id = running(&mut service, false);
    let mut run = ReadRun::new(ReadTask::List);
    let mut action = UseAction::Continue;
    while action != UseAction::Read {
        action = run.advance(&mut service, id, Ok(Answer::Nothing));
    }
    let action = run.advance(&mut service, id, Err(ServiceError::IntegrityFailed));
    assert_eq!(action, UseAction::FinishLease);
    assert_eq!(
        run.advance(&mut service, id, Ok(Answer::Nothing)),
        UseAction::End(Err(ServiceError::IntegrityFailed))
    );
}

#[test]
fn results_are_made_of_what_was_committed() {
    let parent = EntryId::new([1; 16]);
    let made = created_file(parent, SecretText::new("note".to_owned()), committed());
    match made {
        OperationResult::EntryChanged(summary) => {
            assert_eq!(summary.kind(), EntryKind::File);
            assert_eq!(summary.name(), "note");
            assert_eq!(summary.parent_id(), parent);
            assert_eq!(summary.revision(), committed().revision);
        }
        _ => panic!("a change is reported"),
    }
    let moved = MoveEntry::try_new(
        snapshot(),
        EntryId::new([5; 16]),
        parent,
        "note",
        Ok("note".to_owned()),
        EntryKind::File,
        committed().revision,
        EntryId::new([2; 16]),
    )
    .unwrap();
    match relocated(moved.into_parts().unwrap(), committed()) {
        OperationResult::EntryChanged(summary) => {
            assert_eq!(summary.parent_id(), EntryId::new([2; 16]));
            assert_eq!(summary.name(), "note");
            assert_eq!(summary.kind(), EntryKind::File);
        }
        _ => panic!("a change is reported"),
    }
    let gone = DeleteEntry::try_directory(
        snapshot(),
        EntryId::new([5; 16]),
        parent,
        "note",
        Ok("note".to_owned()),
    )
    .unwrap();
    match deleted(gone.into_parts().unwrap(), committed()) {
        OperationResult::EntryChanged(summary) => {
            assert_eq!(summary.kind(), EntryKind::Tombstone);
            assert_eq!(summary.revision(), None);
        }
        _ => panic!("a change is reported"),
    }
}

#[test]
fn listings_and_status_are_bounded_results() {
    let list = || {
        let entry = LocalListedEntry::new(
            LocalEntryId::from_bytes([1; 16]),
            LocalEntryId::from_bytes([0; 16]),
            SecretText::new("notes".to_owned()),
            LocalEntryKind::Directory,
            None,
        );
        Ok(LocalEntryList::of(vec![entry]))
    };
    let root = Ok(LocalEntryId::from_bytes([0; 16]));
    match entries_result(assemble_view(root, Ok(snapshot()), list(), 1)) {
        Ok(OperationResult::Entries(entries)) => {
            assert_eq!(entries.len(), 1);
            assert_eq!(entries.as_slice()[0].name(), "notes");
            assert_eq!(entries.as_slice()[0].kind(), EntryKind::Directory);
        }
        _ => panic!("a listing is reported"),
    }
    assert!(matches!(
        assemble_view(root, Ok(snapshot()), list(), 0),
        Err(RepositoryPortError::CapacityExceeded)
    ));
    match status_result(vault(), 4, assemble_status(root, Ok(snapshot()), list(), 1)) {
        Ok(OperationResult::Status(status)) => {
            assert_eq!(status.vault_id(), vault());
            assert_eq!(status.generation(), 4);
            assert_eq!(status.entry_count(), 1);
            assert_eq!(status.snapshot_id(), &[0x11; 32]);
        }
        _ => panic!("a status is reported"),
    }
    assert!(matches!(
        entries_result(Err(RepositoryPortError::CapacityExceeded)),
        Err(ServiceError::CapacityExceeded)
    ));
}

#[test]
fn the_end_of_a_lease_never_hides_an_earlier_failure() {
    assert_eq!(finish_repository_lease(Ok(3), Ok(())), Ok(3));
    assert_eq!(
        finish_repository_lease(Ok(3), Err(RepositoryPortError::Locked)),
        Err(ServiceError::Locked)
    );
    assert_eq!(
        finish_repository_lease::<u8>(
            Err(ServiceError::Cancelled),
            Err(RepositoryPortError::Locked)
        ),
        Err(ServiceError::Cancelled)
    );
    assert_eq!(finish_stable_commit(Ok(3), Ok(())), Ok(3));
}

#[test]
fn failures_of_a_publication_have_their_categories() {
    assert_eq!(map_publication_error(ServiceError::Cancelled), RepositoryPortError::Cancelled);
    assert_eq!(
        map_external_error(HostPortError::DestinationExists),
        ServiceError::DestinationExists
    );
    assert_eq!(
        map_external_error(HostPortError::CleanupFailed),
        ServiceError::CleanupRequired
    );
}

#[test]
fn a_publication_is_validated_at_its_boundary() {
    let mut service = unlocked_service();
    let id = running(&mut service, true);
    assert_eq!(service.validate_publication(id, None), Ok(()));
    assert_eq!(
        service.validate_publication(
            id,
            Some(PortAnswer::Returned(Err(RepositoryPortError::TimedOut)))
        ),
        Err(RepositoryPortError::TimedOut)
    );
    OperationHandle::new(id).cancel(&mut service);
    assert_eq!(service.validate_publication(id, None), Err(RepositoryPortError::Cancelled));
    service.mark_irrevocable(id);
    assert_eq!(service.operation_safe_boundary(id), Ok(()));
}

#[test]
fn written_bytes_are_counted() {
    let mut counter = ByteCounter::new();
    let first = counter.count(10).unwrap();
    assert_eq!(first.completed(), 10);
    let second = counter.count(5).unwrap();
    assert_eq!(second.completed(), 15);
}

#[test]
fn status_is_bound_to_the_generation_of_its_operation() {
    let mut service = unlocked_service();
    let id = running(&mut service, false);
    let generation = service.scheduler.generation();
    assert_eq!(service.status_binding(id), Ok((vault(), generation)));
    end(&mut service, id, exported()).unwrap();
    assert_eq!(service.status_binding(id), Err(ServiceError::Locked));
}
