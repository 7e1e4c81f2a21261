//! The service: admission, controls, locks, transitions and freshness.
use notecrypt_service::command::result::{OperationResult, SyncSummary};
use notecrypt_service::operation::{EventPoll, OperationId, OperationState, Publication};
use notecrypt_service::ports::secrets::{
    RecoverySecretInput, RecoverySecretPresenter, SecretVerifier,
};
use notecrypt_service::ports::HostPortError;
use notecrypt_service::secret::SecretKey;
use notecrypt_service::service::flows::{
    compare_compromise, FreshnessStep, FreshnessWait, PrepareStep,
};
use notecrypt_service::service::handles::{
    OperationHandle, PendingFreshnessAcknowledgement, SecurityTransitionHandle,
};
use notecrypt_service::service::identity::{
    key_of, IdentityState, OperationIdRandom, OsOperationIdRandom,
};
use notecrypt_service::service::locking::{
    EditorQuiescenceObservation, LockAction, LockEvent, LockSequence, LockStage,
};
use notecrypt_service::service::mailbox::{ControlMailbox, PendingControl};
use notecrypt_service::service::queue::WorkQueue;
use notecrypt_service::service::runtime::ServiceCore;
use notecrypt_service::service::scheduler::{CoordinatorStep, Grace, Scheduler};
use notecrypt_service::service::transitions::{TransitionKind, TransitionRegistry};
use notecrypt_service::service::worker::{
    ControlStep, DeadlineStep, LeaseOutcome, OperationContext, WorkStep,
};
use notecrypt_service::service::{Control, ServiceConfig};
use notecrypt_service::session::data::UnlockStep;
use notecrypt_service::session::errors::{PortAnswer, RepositoryPortError};
use notecrypt_service::session::manager::SessionManager;
use notecrypt_service::session::{SessionPolicy, SessionState, VaultId};
use notecrypt_service::{
    Duration, OperationEvent, OperationPhase, Progress, ServiceError, WarningCode,
};

struct Ones;

impl OperationIdRandom for Ones {
    fn fill(&self, destination: &mut [u8]) -> Result<usize, ServiceError> {
        destination.fill(1);
        Ok(destination.len())
    }
}

struct Screen {
    shown: Vec<u8>,
}

impl RecoverySecretPresenter for Screen {
    fn present(&mut self, secret: &[u8]) -> Result<(), HostPortError> {
        self.shown = secret.to_vec();
        Ok(())
    }
}

fn operation_id(number: u64) -> OperationId {
    let mut identity = IdentityState::new();
    assert!(identity.accept_nonce([6; 8]));
    for _ in 0..number {
        identity.issue();
    }
    identity.candidate(u64::MAX).unwrap()
}

fn secret(value: &[u8]) -> RecoverySecretInput {
    RecoverySecretInput::from_protected_bytes(value.to_vec()).unwrap()
}

fn done() -> Result<OperationResult, ServiceError> {
    Ok(OperationResult::Synchronized(SyncSummary::new([8; 16])))
}

fn plain_service() -> ServiceCore {
    ServiceCore::new(1, ServiceConfig::default(), None).unwrap()
}

fn vault() -> VaultId {
    VaultId::from_bytes([9; 16])
}

fn locked_service() -> ServiceCore {
    let policy = SessionPolicy::try_new(
        Duration::from_secs(60),
        Duration::from_secs(600),
        vec![Duration::from_secs(10)],
        Duration::from_secs(2),
    )
    .unwrap();
    let manager = SessionManager::new(
        1,
        policy,
        PortAnswer::Returned(Ok(Some(vault()))),
        PortAnswer::Returned(Ok(Duration::zero())),
    )
    .unwrap();
    ServiceCore::new(1, ServiceConfig::default(), Some(manager)).unwrap()
}

fn unlock(service: &mut ServiceCore) -> u64 {
    assert_eq!(service.begin_unlock_job(), Ok(()));
    let manager = service.session.as_mut().unwrap();
    let generation = manager.begin_unlock().unwrap();
    manager.startup_cleaned(true);
    manager.repository_answered(generation, PortAnswer::Returned(Ok(())));
    manager.root_wrapped(generation, true);
    manager.workspaces_reconciled(generation, true);
    manager.vault_identified(generation, true);
    let step = manager.clock_sampled(generation, vault(), Ok(Duration::zero()));
    assert!(matches!(step, UnlockStep::Done(Ok(_))));
    assert_eq!(service.finish_unlock_job(Ok(generation)), Ok(generation));
    generation
}

fn submit(service: &mut ServiceCore) -> Result<OperationId, ServiceError> {
    submit_as(service, false)
}

fn submit_as(service: &mut ServiceCore, mutating: bool) -> Result<OperationId, ServiceError> {
    let generation = service.scheduler.check_admission()?;
    let id = service.candidate_operation(&OsOperationIdRandom)?;
    let state = service.new_operation(id, mutating)?;
    let sample = service.session.as_ref().map(|_| Duration::zero());
    service.admit_operation(generation, sample, state)?;
    Ok(id)
}

fn install_running_state(service: &mut ServiceCore, number: u64) -> OperationId {
    let id = operation_id(number);
    let generation = service.scheduler.generation();
    let mut state = OperationState::new(id, 4, Some(generation), false).unwrap();
    assert!(state.mark_running());
    service.scheduler.insert(state);
    id
}

fn quiet(grace: Grace) -> LockEvent {
    LockEvent { succeeded: true, editors: EditorQuiescenceObservation::Known(true), grace }
}

/// Takes up the lock that waits and runs it to its end.
fn run_lock(service: &mut ServiceCore) -> (LockSequence, Vec<LockAction>) {
    let pending = match service.scheduler.coordinate(None) {
        CoordinatorStep::Handle(pending) => pending,
        step => panic!("unexpected step {:?}", step),
    };
    let generation = match service.take_control(pending) {
        ControlStep::Lock(generation) => generation,
        step => panic!("unexpected step {:?}", step),
    };
    let (mut sequence, _) = service.begin_lock_job(generation).unwrap();
    let mut actions = Vec::new();
    while sequence.stage != LockStage::Over {
        let turn = service.advance_lock(&mut sequence, quiet(Grace::Passed));
        actions.push(turn.action);
    }
    service.control_handled(pending);
    service.control_delivered(pending, true);
    service.end_observation(pending, false);
    (sequence, actions)
}

#[test]
fn observer_completion_is_scheduler_owned_and_wakes_waiters() {
    let mut service = plain_service();
    let generation = service.scheduler.generation();
    assert_eq!(service.control(Control::UserActivity), Ok(()));
    let pending = match service.scheduler.coordinate(None) {
        CoordinatorStep::Handle(pending) => pending,
        step => panic!("unexpected step {:?}", step),
    };
    assert_eq!(
        pending,
        PendingControl { control: Control::UserActivity, generation, trusted_activity: false }
    );
    assert_eq!(service.scheduler.observer_in_flight(), 1);
    assert_eq!(service.scheduler.coordinate(None), CoordinatorStep::Wait);
    service.scheduler.complete_control_observation(pending);
    assert_eq!(service.scheduler.observer_in_flight(), 0);
}

#[test]
fn rejected_submit_race_does_not_consume_identity_budget() {
    let config = ServiceConfig::new(1, 1, 1, 1, 4, 1).unwrap();
    let mut service = ServiceCore::new(1, config, None).unwrap();
    let generation = service.scheduler.check_admission().unwrap();
    let id = service.candidate_operation(&Ones).unwrap();
    let state = service.new_operation(id, false).unwrap();

    assert_eq!(service.control(Control::LockNow), Ok(()));
    assert_eq!(service.admit_operation(generation, None, state), Err(ServiceError::Locked));

    assert_eq!(service.identity.issued(), 0, "a rejected submit must not consume an identity");
}

#[test]
fn freshness_acknowledgement_resumes_exact_operation_and_rejects_replay() {
    let mut service = locked_service();
    unlock(&mut service);
    let id = install_running_state(&mut service, 0x31);
    let mut acknowledged = 0;
    let snapshot = [0x32; 32];
    assert_eq!(
        service.ask_freshness(id, PortAnswer::Returned(snapshot), PortAnswer::Returned(true)),
        FreshnessStep::Wait
    );
    assert_eq!(service.await_freshness(id), FreshnessWait::Wait);

    let (view, generation) = service.offer_freshness(id).unwrap();
    assert_eq!(view, snapshot);
    let mut pending = PendingFreshnessAcknowledgement::new(service.service, generation, id);
    let claimed = pending.claim_for(service.service, true).unwrap();
    assert_eq!(service.claim_freshness(claimed), Ok(()));
    pending.disarm();
    acknowledged += 1;
    assert_eq!(service.freshness_acknowledged(id, PortAnswer::Returned(Ok(()))), Ok(()));
    assert_eq!(service.await_freshness(id), FreshnessWait::Resolved(Ok(())));
    assert_eq!(acknowledged, 1);
    assert!(!pending.is_armed());
    assert_eq!(service.offer_freshness(id), Err(ServiceError::StaleCapability));
}

#[test]
fn freshness_drop_aborts_and_cross_operation_binding_is_rejected() {
    let mut service = locked_service();
    unlock(&mut service);
    let first = install_running_state(&mut service, 0x41);
    let second = install_running_state(&mut service, 0x42);
    let mut aborted = 0;

    assert_eq!(
        service.ask_freshness(
            second,
            PortAnswer::Returned([0x43; 32]),
            PortAnswer::Returned(false)
        ),
        FreshnessStep::Abort(ServiceError::StaleCapability)
    );
    aborted += 1;
    service.action_aborted(false);
    assert_eq!(aborted, 1);

    assert_eq!(
        service.ask_freshness(
            first,
            PortAnswer::Returned([0x44; 32]),
            PortAnswer::Returned(true)
        ),
        FreshnessStep::Wait
    );
    assert!(service.offer_freshness(first).is_ok());
    let kind = service.cancel_transition(first);
    assert_eq!(kind, Some(TransitionKind::Freshness));
    aborted += 1;
    service.transition_aborted(first, TransitionKind::Freshness, false);
    assert_eq!(
        service.await_freshness(first),
        FreshnessWait::Resolved(Err(ServiceError::Cancelled))
    );
    assert_eq!(aborted, 2);
}

#[test]
fn cancelled_operation_cannot_offer_or_acknowledge_freshness() {
    let mut service = locked_service();
    unlock(&mut service);
    let id = install_running_state(&mut service, 0x51);
    assert_eq!(
        service.ask_freshness(id, PortAnswer::Returned([0x52; 32]), PortAnswer::Returned(true)),
        FreshnessStep::Wait
    );

    service.scheduler.operation_mut(id).unwrap().mark_cancelled();
    assert_eq!(service.offer_freshness(id), Err(ServiceError::StaleCapability));
    assert_eq!(service.cancel_transition(id), Some(TransitionKind::Freshness));
    service.transition_aborted(id, TransitionKind::Freshness, false);
    assert_eq!(
        service.await_freshness(id),
        FreshnessWait::Resolved(Err(ServiceError::Cancelled))
    );
    assert_eq!(service.cancel_transition(id), None);
}

#[test]
fn offered_freshness_cannot_acknowledge_after_exact_operation_cancel() {
    let mut service = locked_service();
    unlock(&mut service);
    let id = install_running_state(&mut service, 0x61);
    assert_eq!(
        service.ask_freshness(id, PortAnswer::Returned([0x62; 32]), PortAnswer::Returned(true)),
        FreshnessStep::Wait
    );
    assert!(service.offer_freshness(id).is_ok());

    service.scheduler.operation_mut(id).unwrap().mark_cancelled();
    assert_eq!(service.claim_freshness(id), Err(ServiceError::StaleCapability));
    assert_eq!(service.cancel_transition(id), Some(TransitionKind::Freshness));
    service.transition_aborted(id, TransitionKind::Freshness, false);
    assert_eq!(
        service.await_freshness(id),
        FreshnessWait::Resolved(Err(ServiceError::Cancelled))
    );
}

#[test]
fn without_a_session_no_freshness_is_acknowledged() {
    let mut service = plain_service();
    let id = install_running_state(&mut service, 0x71);
    assert_eq!(
        service.ask_freshness(id, PortAnswer::Returned([0x72; 32]), PortAnswer::Returned(true)),
        FreshnessStep::Wait
    );
    assert!(service.offer_freshness(id).is_ok());
    assert_eq!(service.claim_freshness(id), Err(ServiceError::StaleCapability));
}

#[test]
fn configurations_are_bounded() {
    let config = ServiceConfig::default();
    assert_eq!(config.workers(), 4);
    assert_eq!(config.queue_capacity(), 64);
    assert_eq!(config.event_capacity(), 64);
    assert_eq!(config.completed_capacity(), 256);
    assert_eq!(config.issued_capacity(), u64::MAX);
    assert_eq!(config.id_retries(), 8);
    assert!(matches!(
        ServiceConfig::new(0, 1, 1, 1, 1, 1),
        Err(ServiceError::InvalidConfiguration)
    ));
    assert!(matches!(
        ServiceConfig::new(1, 65, 1, 1, 1, 1),
        Err(ServiceError::InvalidConfiguration)
    ));
    assert!(matches!(
        ServiceConfig::new(4_097, 1, 1, 1, 1, 1),
        Err(ServiceError::InvalidConfiguration)
    ));
}

#[test]
fn the_queue_is_first_in_first_out_and_bounded() {
    let mut queue = WorkQueue::with_capacity(2);
    assert!(!queue.is_full());
    assert!(queue.try_push(operation_id(1)));
    assert!(queue.try_push(operation_id(2)));
    assert!(queue.is_full());
    assert!(!queue.try_push(operation_id(3)));
    assert!(queue.try_pop() == Some(operation_id(1)));
    assert!(queue.try_pop() == Some(operation_id(2)));
    assert!(queue.try_pop() == None);
}

#[test]
fn a_service_with_a_session_is_locked_until_it_is_unlocked() {
    let mut service = locked_service();
    assert_eq!(submit(&mut service).err(), Some(ServiceError::Locked));
    assert_eq!(service.snapshot().session_state(), SessionState::Locked);
    let generation = unlock(&mut service);
    assert_eq!(service.scheduler.generation(), generation);
    let snapshot = service.snapshot();
    assert_eq!(snapshot.session_state(), SessionState::Unlocked);
    assert!(snapshot.accepting_operations());
    assert!(snapshot.key_leases_open());
    assert!(submit(&mut service).is_ok());
    assert_eq!(service.snapshot().active_operations(), 1);
    assert_eq!(service.snapshot().queued_operations(), 1);
    assert_eq!(service.begin_unlock_job(), Err(ServiceError::Locked));
}

#[test]
fn an_admitted_operation_runs_to_its_result() {
    let mut service = locked_service();
    unlock(&mut service);
    let id = submit(&mut service).unwrap();
    let mut handle = OperationHandle::new(id);
    assert_eq!(service.scheduler.coordinate(None), CoordinatorStep::Dispatch(id));
    assert_eq!(service.begin_work(id), WorkStep::Run);
    assert_eq!(service.begin_work(id), WorkStep::Skip);
    assert_eq!(service.snapshot().running_operations(), 1);
    let context = OperationContext::new(id);
    assert_eq!(
        context.phase_changed(&mut service, OperationPhase::Reading),
        Ok(Publication::Delivered)
    );
    let progress = Progress::items(1, Some(2)).unwrap();
    assert_eq!(context.emit_progress(&mut service, progress), Ok(Publication::Delivered));
    assert_eq!(
        context.warning(&mut service, WarningCode::DurabilityPending),
        Ok(Publication::Delivered)
    );
    assert_eq!(context.safe_boundary(&mut service), Ok(()));
    let generation = service.begin_lease(id).unwrap();
    assert!(matches!(
        service.lease_answered(id, generation, Ok(()), 5, true),
        LeaseOutcome::Granted
    ));
    assert!(handle.wait_result(&mut service, false).is_none());
    if let Some(state) = service.end_work(id, PortAnswer::Returned(done())) {
        assert!(handle.keep(state).is_none());
    }
    assert_eq!(handle.try_next_event(&mut service), Some(OperationEvent::Started));
    assert_eq!(
        handle.try_next_event(&mut service),
        Some(OperationEvent::PhaseChanged(OperationPhase::Reading))
    );
    assert_eq!(handle.try_next_event(&mut service), Some(OperationEvent::Progress(progress)));
    assert!(handle.try_next_event(&mut service).is_some());
    assert_eq!(handle.try_next_event(&mut service), Some(OperationEvent::Completed));
    assert!(matches!(
        handle.wait_next_event(&mut service, false),
        EventPoll::Ready(None)
    ));
    assert!(matches!(handle.try_result(&mut service), Ok(Some(_))));
    assert_eq!(service.snapshot().retained_completed_operations(), 1);
}

#[test]
fn a_panic_is_an_outcome_of_its_own() {
    let mut service = plain_service();
    let id = submit(&mut service).unwrap();
    let mut handle = OperationHandle::new(id);
    assert_eq!(service.begin_work(id), WorkStep::Run);
    if let Some(state) = service.end_work(id, PortAnswer::Panicked) {
        handle.keep(state);
    }
    assert!(matches!(
        handle.wait_result(&mut service, false),
        Some(Err(ServiceError::WorkerPanicked))
    ));
}

#[test]
fn a_cancelled_operation_stops_at_the_boundary() {
    let mut service = plain_service();
    let id = submit(&mut service).unwrap();
    assert_eq!(service.begin_work(id), WorkStep::Run);
    let mut handle = OperationHandle::new(id);
    handle.cancel(&mut service);
    assert!(OperationContext::new(id).is_cancelled(&service));
    assert_eq!(service.operation_safe_boundary(id), Err(ServiceError::Cancelled));
    let pending = match service.scheduler.coordinate(None) {
        CoordinatorStep::Handle(pending) => pending,
        step => panic!("unexpected step {:?}", step),
    };
    assert!(matches!(service.take_control(pending), ControlStep::Cancel(_, _)));
    if let Some(state) = service.control_handled(pending) {
        handle.keep(state);
    }
    if let Some(state) = service.end_work(id, PortAnswer::Returned(done())) {
        handle.keep(state);
    }
    assert!(matches!(
        handle.wait_result(&mut service, false),
        Some(Err(ServiceError::Cancelled))
    ));
}

#[test]
fn a_lock_closes_the_service_at_once_and_runs_to_a_locked_session() {
    let mut service = locked_service();
    let generation = unlock(&mut service);
    let id = submit(&mut service).unwrap();
    assert_eq!(service.scheduler.coordinate(None), CoordinatorStep::Dispatch(id));
    assert_eq!(service.begin_work(id), WorkStep::Run);
    assert_eq!(service.control(Control::LockNow), Ok(()));
    assert!(!service.snapshot().accepting_operations());
    assert!(!service.snapshot().key_leases_open());
    assert_eq!(service.snapshot().session_state(), SessionState::Locking);
    assert_eq!(submit(&mut service).err(), Some(ServiceError::Locked));
    assert_eq!(service.operation_safe_boundary(id), Err(ServiceError::Cancelled));
    assert!(service.begin_lease(id).is_err());
    let (sequence, actions) = run_lock(&mut service);
    assert!(!sequence.failed);
    assert_eq!(
        actions,
        vec![
            LockAction::RevokeRoot(generation),
            LockAction::AskEditors,
            LockAction::LookAtEditors,
            LockAction::CloseRoot(Some(generation)),
            LockAction::AbortTransitions,
            LockAction::CleanUp,
            LockAction::Nothing,
        ]
    );
    assert_eq!(service.snapshot().session_state(), SessionState::Locked);
    service.end_work(id, PortAnswer::Returned(done()));
    assert_eq!(service.scheduler.coordinate(None), CoordinatorStep::Wait);
    let second = unlock(&mut service);
    assert!(second > generation);
}

#[test]
fn editors_are_forced_only_after_their_grace() {
    let mut service = locked_service();
    unlock(&mut service);
    assert_eq!(service.control(Control::Suspend), Ok(()));
    let pending = match service.scheduler.coordinate(None) {
        CoordinatorStep::Handle(pending) => pending,
        step => panic!("unexpected step {:?}", step),
    };
    let generation = match service.take_control(pending) {
        ControlStep::Lock(generation) => generation,
        step => panic!("unexpected step {:?}", step),
    };
    let (mut sequence, _) = service.begin_lock_job(generation).unwrap();
    assert!(service.begin_lock_job(generation).is_none());
    let busy = |grace| LockEvent {
        succeeded: true,
        editors: EditorQuiescenceObservation::Known(false),
        grace,
    };
    let mut asked = Vec::new();
    for grace in [Grace::Running; 5] {
        asked.push(service.advance_lock(&mut sequence, busy(grace)).action);
    }
    assert!(!asked.contains(&LockAction::ForceEditors));
    assert_eq!(sequence.stage, LockStage::Watching);
    assert_eq!(
        service.advance_lock(&mut sequence, busy(Grace::Passed)).action,
        LockAction::ForceEditors
    );
    while sequence.stage != LockStage::Over {
        service.advance_lock(&mut sequence, busy(Grace::Passed));
    }
    assert!(!sequence.quiescent);
    assert_eq!(service.snapshot().session_state(), SessionState::CleanupRequired);
}

#[test]
fn there_is_one_final_save_and_a_lock_waits_for_it() {
    let mut service = locked_service();
    unlock(&mut service);
    let first = submit_as(&mut service, true).unwrap();
    let second = submit_as(&mut service, true).unwrap();
    assert_eq!(service.begin_work(first), WorkStep::Run);
    assert_eq!(service.begin_work(second), WorkStep::Run);
    let context = OperationContext::new(first);
    let guard = context.arm_final_save(&mut service).ok().unwrap();
    assert!(OperationContext::new(second).arm_final_save(&mut service).is_err());
    assert_eq!(service.control(Control::LockNow), Ok(()));
    assert_eq!(context.safe_boundary(&mut service), Ok(()));
    assert_eq!(
        OperationContext::new(second).safe_boundary(&mut service),
        Err(ServiceError::Cancelled)
    );
    let pending = match service.scheduler.coordinate(None) {
        CoordinatorStep::Handle(pending) => pending,
        step => panic!("unexpected step {:?}", step),
    };
    assert!(matches!(service.take_control(pending), ControlStep::Lock(_)));
    let (mut sequence, _) = service.begin_lock_job(pending.generation).unwrap();
    assert_eq!(
        service.advance_lock(&mut sequence, quiet(Grace::Running)).action,
        LockAction::WaitForSave
    );
    guard.disarm(&mut service);
    assert_eq!(
        service.advance_lock(&mut sequence, quiet(Grace::Running)).action,
        LockAction::WaitForSave
    );
    service.end_work(first, PortAnswer::Returned(done()));
    assert!(matches!(
        service.advance_lock(&mut sequence, quiet(Grace::Running)).action,
        LockAction::RevokeRoot(_)
    ));
}

#[test]
fn deadlines_lock_the_service() {
    let mut service = locked_service();
    unlock(&mut service);
    let answer = service.enforce_deadline_at(Duration::from_secs(20));
    assert!(matches!(service.deadline_step(answer), DeadlineStep::WaitFor(_)));
    assert!(service.enforce_deadline_at(Duration::from_secs(50)).is_ok());
    assert!(service.scheduler.pop_session_event().is_some());
    assert!(service.scheduler.pop_session_event().is_none());
    let _ = service.enforce_deadline_at(Duration::from_secs(60));
    assert!(!service.snapshot().accepting_operations());
    assert_eq!(service.snapshot().session_state(), SessionState::Locking);
}

#[test]
fn trusted_activity_is_recorded_for_the_open_session_only() {
    let mut service = locked_service();
    assert_eq!(service.check_trusted_activity(), Err(ServiceError::Locked));
    unlock(&mut service);
    assert_eq!(service.check_trusted_activity(), Ok(()));
    assert_eq!(service.record_trusted_activity(Ok(Duration::from_secs(30))), Ok(()));
    assert!(service.enforce_deadline_at(Duration::from_secs(80)).is_ok());
    assert_eq!(service.snapshot().session_state(), SessionState::Unlocked);
}

#[test]
fn a_stopped_clock_locks_the_service() {
    let mut service = locked_service();
    unlock(&mut service);
    service.clock_failed();
    assert!(!service.snapshot().accepting_operations());
}

#[test]
fn a_closed_service_stays_closed() {
    let mut service = plain_service();
    let id = submit(&mut service).unwrap();
    service.shutdown();
    assert!(service.snapshot().is_closed());
    assert_eq!(submit(&mut service).err(), Some(ServiceError::Closed));
    assert!(service.control(Control::UserActivity).is_err());
    assert!(service.scheduler.is_closed());
    assert!(service.scheduler.is_active(id));
}

#[test]
fn stale_controls_are_dropped_and_global_ones_come_first() {
    let mut mailbox = ControlMailbox::new(4).unwrap();
    assert!(mailbox.push(Control::Cancel(operation_id(1)), 1, false));
    assert!(mailbox.push(Control::Cancel(operation_id(2)), 2, false));
    let kept = mailbox.pop_current(2).unwrap();
    assert_eq!(kept.control, Control::Cancel(operation_id(2)));
    assert!(mailbox.pop_current(2).is_none());
    assert!(mailbox.push(Control::Cancel(operation_id(3)), 2, false));
    mailbox.request_global(Control::LockNow, 2);
    assert_eq!(mailbox.pop_current(2).unwrap().control, Control::LockNow);
}

#[test]
fn trusted_activity_is_coalesced() {
    let mut mailbox = ControlMailbox::new(4).unwrap();
    mailbox.note_trusted(3);
    mailbox.note_trusted(3);
    let first = mailbox.pop_current(3).unwrap();
    assert!(first.trusted_activity);
    assert!(mailbox.pop_current(3).is_none());
    mailbox.observed(first);
    mailbox.note_trusted(3);
    assert!(mailbox.pop_current(3).is_some());
}

fn prepared_recovery(service: &mut ServiceCore) -> OperationId {
    let (generation, token) = service.begin_transition(TransitionKind::Recovery).unwrap();
    assert!(matches!(
        service.transition_prepared(
            TransitionKind::Recovery,
            generation,
            token,
            PortAnswer::Returned(Ok(()))
        ),
        PrepareStep::Register
    ));
    let id = service.candidate_operation(&OsOperationIdRandom).unwrap();
    let key = SecretKey::new([4; 32]);
    let (payload, expected) = secret(b"alpha beta").into_presentation_payload(&key);
    let verifier = SecretVerifier::new(key, expected);
    assert_eq!(
        service.register_transition(
            TransitionKind::Recovery,
            generation,
            token,
            id,
            Some(verifier),
            Some(payload)
        ),
        Ok(())
    );
    id
}

#[test]
fn a_recovery_is_presented_once_claimed_once_and_confirmed() {
    let mut service = locked_service();
    let id = prepared_recovery(&mut service);
    assert_eq!(service.begin_unlock_job(), Err(ServiceError::Busy));
    assert_eq!(
        service.begin_transition(TransitionKind::Recovery).err(),
        Some(ServiceError::Busy)
    );
    let mut screen = Screen { shown: Vec::new() };
    assert_eq!(service.presentation(id).present_once(&mut screen), Ok(()));
    assert_eq!(screen.shown, b"alpha beta");
    assert!(service.presentation(id).present_once(&mut screen).is_err());
    let confirmed = service.confirm_recovery(id, secret(b"alpha beta")).unwrap();
    assert_eq!(confirmed.into_bytes().as_slice(), b"alpha beta");
    assert_eq!(service.claim_security_transition(id), Ok(()));
    assert!(service.claim_security_transition(id).is_err());
    let handle = SecurityTransitionHandle::new(id);
    assert!(handle.wait_result(&mut service, false).is_none());
    assert_eq!(service.transition_executed(id, PortAnswer::Returned(Ok(()))), Ok(()));
    assert_eq!(handle.wait_result(&mut service, false), Some(Ok(())));
}

#[test]
fn a_wrong_confirmation_is_refused() {
    let mut service = locked_service();
    let id = prepared_recovery(&mut service);
    assert!(matches!(
        service.confirm_recovery(id, secret(b"alpha gamma")),
        Err(ServiceError::AuthenticationFailed) | Err(ServiceError::InvalidInput)
    ));
}

#[test]
fn a_cancelled_transition_is_gone() {
    let mut service = locked_service();
    let id = prepared_recovery(&mut service);
    assert_eq!(service.cancel_transition(id), Some(TransitionKind::Recovery));
    assert_eq!(service.cancel_transition(id), None);
    service.transition_aborted(id, TransitionKind::Recovery, false);
    assert!(service.claim_security_transition(id).is_err());
    assert!(service.begin_transition(TransitionKind::Recovery).is_ok());
}

#[test]
fn a_chosen_secret_is_entered_twice() {
    let key = || Ok(SecretKey::new([4; 32]));
    assert!(compare_compromise(
        None,
        secret(b"one two"),
        Some(secret(b"one two")),
        key()
    )
    .is_ok());
    assert!(compare_compromise(
        None,
        secret(b"one two"),
        Some(secret(b"one three")),
        key()
    )
    .is_err());
    assert!(compare_compromise(None, secret(b"one two"), None, key()).is_err());
}

#[test]
fn a_pending_capability_belongs_to_its_service() {
    let pending = PendingFreshnessAcknowledgement::new(7, 1, operation_id(1));
    assert_eq!(pending.claim_for(8, true), Err(ServiceError::StaleCapability));
    assert_eq!(pending.claim_for(7, false), Err(ServiceError::Closed));
    assert!(pending.claim_for(7, true) == Ok(operation_id(1)));
    assert_eq!(pending.generation(), 1);
}

#[test]
fn repository_failures_of_a_transition_reach_its_result() {
    let mut service = locked_service();
    let id = prepared_recovery(&mut service);
    assert_eq!(service.claim_security_transition(id), Ok(()));
    assert_eq!(
        service.transition_executed(
            id,
            PortAnswer::Returned(Err(RepositoryPortError::TimedOut))
        ),
        Err(ServiceError::TimedOut)
    );
}

/// Admits and ends one operation.
fn run_one(service: &mut ServiceCore) -> OperationId {
    let id = submit(service).unwrap();
    assert_eq!(service.scheduler.coordinate(None), CoordinatorStep::Dispatch(id));
    assert_eq!(service.begin_work(id), WorkStep::Run);
    service.end_work(id, PortAnswer::Returned(done()));
    id
}

#[test]
fn leases_are_open_exactly_while_submissions_are_accepted() {
    let mut service = locked_service();
    for accepting in [false, true, false, true] {
        let shown = service.snapshot();
        assert_eq!(shown.accepting_operations(), accepting);
        assert_eq!(shown.key_leases_open(), accepting);
        if accepting {
            assert_eq!(service.control(Control::LockNow), Ok(()));
            run_lock(&mut service);
        } else {
            unlock(&mut service);
        }
    }
}

#[test]
fn a_lock_lasts_until_the_next_unlock() {
    let mut service = locked_service();
    unlock(&mut service);
    let id = submit(&mut service).unwrap();
    assert_eq!(service.begin_work(id), WorkStep::Run);
    assert_eq!(service.control(Control::Suspend), Ok(()));
    assert!(submit(&mut service).is_err());
    assert!(service.begin_lease(id).is_err());
    service.end_work(id, PortAnswer::Returned(done()));
    assert!(submit(&mut service).is_err());
    assert_eq!(service.control(Control::LockNow), Ok(()));
    run_lock(&mut service);
    assert!(submit(&mut service).is_err());
    unlock(&mut service);
    assert!(submit(&mut service).is_ok());
}

#[test]
fn the_newest_completed_operations_are_retained() {
    let config = ServiceConfig::new(4, 1, 4, 2, 100, 1).unwrap();
    let mut service = ServiceCore::new(1, config, None).unwrap();
    for (ended, retained) in [(1, 1), (2, 2), (3, 2), (4, 2)] {
        run_one(&mut service);
        assert_eq!(service.identity.issued(), ended);
        assert_eq!(service.snapshot().retained_completed_operations(), retained);
    }
}

#[test]
fn no_more_operations_run_than_there_are_workers() {
    let config = ServiceConfig::new(4, 2, 4, 2, 100, 1).unwrap();
    let mut service = ServiceCore::new(1, config, None).unwrap();
    for _ in 0..3 {
        submit(&mut service).unwrap();
    }
    let mut busy = Vec::new();
    while busy.len() < config.workers() {
        match service.scheduler.coordinate(None) {
            CoordinatorStep::Dispatch(id) => {
                assert_eq!(service.begin_work(id), WorkStep::Run);
                busy.push(id);
            }
            step => panic!("unexpected step {:?}", step),
        }
    }
    assert_eq!(service.snapshot().running_operations(), 2);
    service.end_work(busy[0], PortAnswer::Returned(done()));
    assert_eq!(service.snapshot().running_operations(), 1);
}

#[test]
fn identities_of_a_service_never_repeat() {
    let config = ServiceConfig::new(1, 1, 4, 2, 4, 1).unwrap();
    let mut service = ServiceCore::new(1, config, None).unwrap();
    let mut ids = Vec::new();
    for number in 0..4_u8 {
        let id = run_one(&mut service);
        assert_eq!(&id.as_bytes()[8..], &[0, 0, 0, 0, 0, 0, 0, number]);
        assert!(!ids.contains(&id));
        ids.push(id);
    }
    assert_eq!(&ids[0].as_bytes()[..8], &ids[2].as_bytes()[..8]);
    assert_ne!(&ids[0].as_bytes()[..8], &[0; 8]);
    assert_eq!(submit(&mut service), Err(ServiceError::IdentifierExhausted));
}

#[test]
fn a_service_that_cannot_cancel_what_runs_shuts_down() {
    let mut service = plain_service();
    service.cancellation_dispatched(true);
    assert!(service.snapshot().accepting_operations());
    service.cancellation_dispatched(false);
    assert!(!service.snapshot().accepting_operations());
    assert_eq!(submit(&mut service), Err(ServiceError::Closed));
}

#[test]
fn a_retired_operation_stops_at_the_boundary_and_arms_nothing() {
    let mut service = plain_service();
    let id = submit(&mut service).unwrap();
    let mut handle = OperationHandle::new(id);
    assert_eq!(service.begin_work(id), WorkStep::Run);
    assert_eq!(handle.safe_boundary(&mut service), Ok(()));
    assert!(matches!(handle.arm_final_save(&mut service), Err(ServiceError::Locked)));
    let state = service.end_work(id, PortAnswer::Returned(done())).unwrap();
    assert!(!handle.is_retired());
    assert!(handle.keep(state).is_none());
    assert!(handle.is_retired());
    assert_eq!(handle.safe_boundary(&mut service), Err(ServiceError::Cancelled));
    assert_eq!(handle.safe_boundary(&mut service), Err(ServiceError::Cancelled));
    assert!(matches!(handle.arm_final_save(&mut service), Err(ServiceError::Locked)));

    let mut service = locked_service();
    unlock(&mut service);
    let id = submit_as(&mut service, true).unwrap();
    let mut handle = OperationHandle::new(id);
    assert_eq!(service.begin_work(id), WorkStep::Run);
    let state = service.end_work(id, PortAnswer::Returned(done())).unwrap();
    assert!(handle.keep(state).is_none());
    assert!(matches!(handle.arm_final_save(&mut service), Err(ServiceError::StaleCapability)));
}

#[test]
fn drawn_bytes_become_the_key_and_are_wiped() {
    let mut drawn: Vec<u8> = (0..32).collect();
    let key = key_of(&mut drawn);
    assert!(drawn.is_empty());
    let expected: Vec<u8> = (0..32).collect();
    assert_eq!(key.as_array().to_vec(), expected);
}

#[test]
fn a_refused_reservation_is_an_invalid_configuration() {
    assert!(matches!(
        ControlMailbox::over(4, None),
        Err(ServiceError::InvalidConfiguration)
    ));
    assert!(matches!(
        TransitionRegistry::over(4, None),
        Err(ServiceError::InvalidConfiguration)
    ));
    assert!(TransitionRegistry::over(4, Some(Vec::new())).is_ok());
    assert!(matches!(
        Scheduler::over(ServiceConfig::default(), false, None),
        Err(ServiceError::InvalidConfiguration)
    ));
}

/// Reports nothing but zeros, and counts how often it was asked.
struct Zeros {
    asked: std::cell::Cell<usize>,
}

impl OperationIdRandom for Zeros {
    fn fill(&self, destination: &mut [u8]) -> Result<usize, ServiceError> {
        self.asked.set(self.asked.get() + 1);
        destination.fill(0);
        Ok(destination.len())
    }
}

/// Reports a fixed answer and fills nothing.
struct Answers(Result<usize, ServiceError>);

impl OperationIdRandom for Answers {
    fn fill(&self, _destination: &mut [u8]) -> Result<usize, ServiceError> {
        self.0
    }
}

#[test]
fn a_service_without_a_nonce_draws_one_for_its_next_operation() {
    let config = ServiceConfig::new(1, 1, 1, 1, 4, 3).unwrap();
    let mut service = ServiceCore::new(1, config, None).unwrap();
    let zeros = Zeros { asked: std::cell::Cell::new(0) };
    assert_eq!(service.candidate_operation(&zeros), Err(ServiceError::IdentifierExhausted));
    assert_eq!(zeros.asked.get(), 3);
    assert_eq!(
        service.candidate_operation(&Answers(Err(ServiceError::Busy))),
        Err(ServiceError::Busy)
    );
    for answer in [0, 9] {
        assert_eq!(
            service.candidate_operation(&Answers(Ok(answer))),
            Err(ServiceError::EntropyUnavailable)
        );
    }
    let id = service.candidate_operation(&Ones).unwrap();
    assert_eq!(id.as_bytes(), &[1, 1, 1, 1, 1, 1, 1, 1, 0, 0, 0, 0, 0, 0, 0, 0]);
    assert_eq!(service.candidate_operation(&zeros), Ok(id));
    assert_eq!(zeros.asked.get(), 3);
}

#[test]
fn a_nonce_is_drawn_as_long_as_there_are_retries() {
    let mut identity = IdentityState::new();
    assert!(identity.draws_again(2, 3));
    assert!(!identity.draws_again(3, 3));
    assert!(identity.accept_nonce([1; 8]));
    assert!(!identity.draws_again(0, 3));
}

#[test]
fn an_execution_without_memory_claims_nothing() {
    let mut service = locked_service();
    let id = prepared_recovery(&mut service);
    assert_eq!(
        service.claim_with(id, Err(ServiceError::InvalidConfiguration)),
        Err(ServiceError::InvalidConfiguration)
    );
    assert_eq!(service.claim_security_transition(id), Ok(()));
    assert_eq!(service.guard_execution(id, PortAnswer::Returned(7)), Ok(()));
    assert_eq!(
        service.guard_execution(id, PortAnswer::Panicked),
        Err(ServiceError::CleanupRequired)
    );
    assert_eq!(service.begin_execution(id), Ok(()));
    assert_eq!(service.begin_execution(id), Err(ServiceError::StaleCapability));
    assert!(!service.start_execution(id));
    let unknown = operation_id(0x77);
    assert_eq!(
        service.guard_execution(unknown, PortAnswer::Returned(8)),
        Err(ServiceError::StaleCapability)
    );
    assert_eq!(service.claim_security_transition(unknown), Err(ServiceError::StaleCapability));
}

#[test]
fn a_host_that_panics_before_a_transition_requires_cleanup() {
    let mut service = locked_service();
    let id = prepared_recovery(&mut service);
    assert_eq!(service.claim_security_transition(id), Ok(()));
    service.transition_refused(id, ServiceError::CleanupRequired, true);
    assert_eq!(service.snapshot().session_state(), SessionState::CleanupRequired);
    let mut service = locked_service();
    let id = prepared_recovery(&mut service);
    assert_eq!(service.claim_security_transition(id), Ok(()));
    assert_eq!(service.action_missing(id), ServiceError::StaleCapability);
    assert_eq!(service.snapshot().session_state(), SessionState::Locked);
    service.transition_skipped(id);
    assert_eq!(service.claim_security_transition(id), Err(ServiceError::StaleCapability));
}

#[test]
fn a_settled_final_save_has_its_leases_cancelled_once() {
    let mut service = locked_service();
    unlock(&mut service);
    let id = submit_as(&mut service, true).unwrap();
    let mut handle = OperationHandle::new(id);
    assert_eq!(service.begin_work(id), WorkStep::Run);
    let generation = service.begin_lease(id).unwrap();
    assert!(matches!(
        service.lease_answered(id, generation, Ok(()), 5, true),
        LeaseOutcome::Granted
    ));
    let _guard = handle.arm_final_save(&mut service).ok().unwrap();
    assert_eq!(service.control(Control::LockNow), Ok(()));
    assert_eq!(service.scheduler.lock_final_save(), Some(id));
    assert!(!handle.queue_settled_leases());
    assert_eq!(handle.take_settled_leases(), None);
    service.scheduler.operation_mut(id).unwrap().mark_cancelled();
    let state = service.end_work(id, PortAnswer::Returned(done())).unwrap();
    assert!(handle.keep(state).is_none());

    let pending = match service.scheduler.coordinate(None) {
        CoordinatorStep::Handle(pending) => pending,
        step => panic!("unexpected step {:?}", step),
    };
    let lock_generation = match service.take_control(pending) {
        ControlStep::Lock(generation) => generation,
        step => panic!("unexpected step {:?}", step),
    };
    let (mut sequence, _) = service.begin_lock_job(lock_generation).unwrap();
    let mut settled = Vec::new();
    while sequence.stage != LockStage::Over {
        let turn = service.advance_lock(&mut sequence, quiet(Grace::Passed));
        if let Some(save) = turn.settled {
            assert!(matches!(turn.action, LockAction::CloseRoot(_)));
            assert!(turn.leases.is_empty());
            settled.push(save);
        }
    }
    assert_eq!(settled, vec![id]);
    assert!(handle.queue_settled_leases());
    assert!(!handle.queue_settled_leases());
    assert_eq!(handle.take_settled_leases(), Some(vec![5]));
    assert_eq!(handle.take_settled_leases(), None);
}

#[test]
fn a_retired_operation_without_a_session_is_locked_out_of_freshness() {
    let mut service = plain_service();
    let id = submit(&mut service).unwrap();
    let mut handle = OperationHandle::new(id);
    assert_eq!(service.begin_work(id), WorkStep::Run);
    let view = PortAnswer::Returned([1; 32]);
    let locked = FreshnessStep::Failed(ServiceError::Locked);
    assert_eq!(handle.ask_freshness(&mut service, view, PortAnswer::Returned(true)), locked);
    let state = service.end_work(id, PortAnswer::Returned(done())).unwrap();
    assert!(handle.keep(state).is_none());
    assert_eq!(handle.ask_freshness(&mut service, view, PortAnswer::Returned(true)), locked);
    assert_eq!(
        handle.ask_freshness(&mut service, view, PortAnswer::Returned(false)),
        FreshnessStep::Abort(ServiceError::StaleCapability)
    );
    assert_eq!(
        handle.ask_freshness(&mut service, view, PortAnswer::Panicked),
        FreshnessStep::Abort(ServiceError::CleanupRequired)
    );
}
