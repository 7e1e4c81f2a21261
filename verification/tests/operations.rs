//! One operation: its events, its outcome and its cancellation.
use notecrypt_service::command::result::{OperationResult, SyncSummary};
use notecrypt_service::operation::{
    EventPoll, OperationId, OperationState, Publication, MAX_OPERATION_LEASES,
};
use notecrypt_service::service::identity::{
    accept_fill, fill_exact, fill_security_entropy, IdentityState, OperationIdRandom,
    OsOperationIdRandom,
};
use notecrypt_service::{
    OperationEvent, OperationPhase, Progress, ServiceError, WarningCode,
};

fn operation_id(number: u64) -> OperationId {
    let mut identity = IdentityState::new();
    assert!(identity.accept_nonce([5; 8]));
    for _ in 0..number {
        identity.issue();
    }
    identity.candidate(u64::MAX).unwrap()
}

fn state(event_capacity: usize) -> OperationState {
    OperationState::new(operation_id(1), event_capacity, Some(3), true).unwrap()
}

fn done() -> Result<OperationResult, ServiceError> {
    Ok(OperationResult::Synchronized(SyncSummary::new([8; 16])))
}

#[test]
fn an_operation_runs_once() {
    let mut state = state(4);
    assert!(state.is_accepted());
    assert!(state.mark_running());
    assert!(state.is_running());
    assert!(!state.mark_running());
    assert_eq!(state.session_generation(), Some(3));
    assert!(state.is_mutating());
}

#[test]
fn progress_is_replaced_and_other_events_are_kept_in_order() {
    let mut state = state(2);
    assert_eq!(state.publish(OperationEvent::Started), Ok(Publication::Delivered));
    let first = OperationEvent::Progress(Progress::items(1, Some(9)).unwrap());
    let second = OperationEvent::Progress(Progress::items(2, Some(9)).unwrap());
    assert_eq!(state.publish(first), Ok(Publication::Delivered));
    assert_eq!(state.publish(second), Ok(Publication::Delivered));
    let phase = OperationEvent::PhaseChanged(OperationPhase::Reading);
    assert_eq!(state.publish(phase), Ok(Publication::Delivered));
    assert_eq!(state.publish(OperationEvent::SaveDetected), Ok(Publication::WaitForRoom));
    assert_eq!(state.next_event(), Some(OperationEvent::Started));
    assert_eq!(state.next_event(), Some(second));
    assert_eq!(state.next_event(), Some(phase));
    assert_eq!(state.next_event(), None);
    assert!(matches!(state.poll_event(false), EventPoll::Wait));
    assert!(matches!(state.poll_event(true), EventPoll::Ready(None)));
}

#[test]
fn an_operation_ends_once_and_its_last_event_says_how() {
    let mut state = state(4);
    assert_eq!(
        state.publish(OperationEvent::Completed),
        Err(ServiceError::ExecutorFailed)
    );
    assert!(state.poll_result(false).is_none());
    assert!(state.publish(OperationEvent::Started).is_ok());
    assert!(state.finish(done()));
    assert!(!state.finish(Err(ServiceError::Cancelled)));
    assert!(state.is_terminal());
    assert_eq!(
        state.publish(OperationEvent::Warning(WarningCode::DurabilityPending)),
        Err(ServiceError::Closed)
    );
    assert_eq!(state.next_event(), Some(OperationEvent::Started));
    assert_eq!(state.next_event(), Some(OperationEvent::Completed));
    assert!(matches!(state.poll_event(false), EventPoll::Ready(None)));
    assert!(matches!(state.take_result(), Some(Ok(OperationResult::Synchronized(_)))));
    assert!(state.take_result().is_none());
}

#[test]
fn failures_and_cancellations_are_told_apart() {
    let mut failed = state(4);
    failed.finish(Err(ServiceError::Unavailable));
    assert_eq!(failed.next_event(), Some(OperationEvent::Failed(ServiceError::Unavailable)));
    let mut cancelled = state(4);
    cancelled.mark_cancelled();
    cancelled.finish(Err(ServiceError::Cancelled));
    assert_eq!(cancelled.next_event(), Some(OperationEvent::Cancelled));
}

#[test]
fn a_cancelled_operation_reports_only_progress_unless_it_is_irrevocable() {
    let mut state = state(4);
    state.mark_cancelled();
    assert!(state.is_cancelled());
    assert!(state.is_repository_cancelled());
    assert_eq!(state.publish(OperationEvent::SaveDetected), Err(ServiceError::Cancelled));
    let progress = OperationEvent::Progress(Progress::bytes(1, None).unwrap());
    assert_eq!(state.publish(progress), Ok(Publication::Delivered));
    state.mark_irrevocable();
    assert_eq!(state.publish(OperationEvent::SaveDetected), Ok(Publication::Delivered));
}

#[test]
fn an_abandoned_operation_holds_nothing() {
    let mut state = state(4);
    assert!(state.publish(OperationEvent::Started).is_ok());
    state.abandon_consumer();
    assert_eq!(state.publish(OperationEvent::Started), Err(ServiceError::Cancelled));
    assert!(state.finish(done()));
    assert_eq!(state.next_event(), None);
}

#[test]
fn cancellations_of_leases_are_handed_out_once() {
    let mut state = state(4);
    for token in 0..MAX_OPERATION_LEASES as u64 {
        assert_eq!(state.register_lease_cancellation(token), Ok(()));
    }
    assert_eq!(state.register_lease_cancellation(99), Err(ServiceError::CapacityExceeded));
    assert!(state.mark_lease_cancellation_queued());
    assert!(!state.mark_lease_cancellation_queued());
    assert_eq!(state.cancel_registered_leases(), Some((0..8).collect()));
    assert_eq!(state.cancel_registered_leases(), None);
    state.mark_cancelled();
    assert_eq!(state.register_lease_cancellation(1), Err(ServiceError::Cancelled));
}

#[test]
fn a_cancellation_is_notified_and_acknowledged_once() {
    let mut state = state(4);
    assert!(state.claim_cancel_notification());
    assert!(!state.claim_cancel_notification());
    assert!(state.awaits_cancel_notification());
    state.acknowledge_cancel_notification();
    assert!(!state.awaits_cancel_notification());
}

#[test]
fn transition_results_wait_for_the_end() {
    let mut state = state(4);
    assert!(state.poll_transition_result(false).is_none());
    assert_eq!(state.poll_transition_result(true), Some(Err(ServiceError::TimedOut)));
    assert!(state.finish_transition(Ok(())));
    assert_eq!(state.poll_transition_result(false), Some(Ok(())));
}

#[test]
fn identities_are_distinct_and_bounded() {
    let first = operation_id(0);
    let second = operation_id(1);
    assert!(first != second);
    assert_eq!(&first.as_bytes()[..8], &[5; 8]);
    assert_eq!(&first.as_bytes()[8..], &0u64.to_be_bytes());
    assert_eq!(&second.as_bytes()[8..], &1u64.to_be_bytes());
    let mut identity = IdentityState::new();
    assert!(!identity.accept_nonce([0; 8]));
    assert!(identity.accept_nonce([1; 8]));
    assert!(identity.candidate(1).is_ok());
    assert_eq!(identity.issued(), 0);
    identity.issue();
    assert_eq!(identity.issued(), 1);
    assert!(matches!(identity.candidate(1), Err(ServiceError::IdentifierExhausted)));
}

struct Dripping;

impl OperationIdRandom for Dripping {
    fn fill(&self, destination: &mut [u8]) -> Result<usize, ServiceError> {
        let count = destination.len().min(3);
        for byte in destination[..count].iter_mut() {
            *byte = 7;
        }
        Ok(count)
    }
}

struct Overeager;

impl OperationIdRandom for Overeager {
    fn fill(&self, destination: &mut [u8]) -> Result<usize, ServiceError> {
        Ok(destination.len() + 1)
    }
}

#[test]
fn entropy_is_asked_for_until_it_is_complete() {
    assert_eq!(fill_exact(&Dripping, 8), Ok(vec![7; 8]));
    assert_eq!(fill_exact(&Overeager, 8), Err(ServiceError::EntropyUnavailable));
    assert_eq!(accept_fill(Ok(0), 4), Err(ServiceError::EntropyUnavailable));
    assert_eq!(accept_fill(Ok(5), 4), Err(ServiceError::EntropyUnavailable));
    assert_eq!(accept_fill(Ok(4), 4), Ok(4));
}

#[test]
fn the_system_source_fills_with_fresh_bytes() {
    let first = fill_exact(&OsOperationIdRandom, 32).unwrap();
    let second = fill_exact(&OsOperationIdRandom, 32).unwrap();
    assert_eq!(first.len(), 32);
    assert_ne!(first, vec![0; 32]);
    assert_ne!(first, second);
    let key = fill_security_entropy().unwrap();
    assert_ne!(key.as_array(), &[0; 32]);
}
