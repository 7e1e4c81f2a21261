//! External exports and the cleanup that they owe.
use notecrypt_service::external_files::{
    abandoned_publication, map_export_publish_attempt, map_import_validation, map_platform_error,
    map_platform_repository_error, retain_and_map_export_begin_error, CleanupRegistry,
    CleanupRetry, ExportCleanupId, ExportStep, PlatformErrorKind, PlatformExportTransaction,
    MAX_TRACKED_EXPORTS,
};
use notecrypt_service::ports::HostPortError;
use notecrypt_service::session::errors::RepositoryPortError;

/// Retries every owed cleanup. Each attempt has a number of failures left.
fn retry(registry: &mut CleanupRegistry, failures: &mut usize) -> Result<(), HostPortError> {
    let mut retry = CleanupRetry::begin(registry)?;
    loop {
        let (turn, id) = retry.next(registry);
        retry = turn;
        match id {
            None => return retry.end(registry),
            Some(id) => {
                let clean = *failures == 0;
                *failures = failures.saturating_sub(1);
                retry = retry.retried(registry, id, clean);
            }
        }
    }
}

#[test]
fn cleanup_registry_rejects_wrong_ids_and_capacity_plus_one() {
    let mut registry = CleanupRegistry::new();
    assert_eq!(
        registry.finish(ExportCleanupId(u64::MAX)),
        Err(HostPortError::StaleCapability)
    );
    for _ in 0..MAX_TRACKED_EXPORTS {
        registry.reserve().unwrap();
    }
    assert!(matches!(registry.reserve(), Err(HostPortError::CapacityExceeded)));
}

#[test]
fn production_abort_retains_cleanup_until_a_later_retry_proves_absence() {
    let mut registry = CleanupRegistry::new();
    let mut transaction = PlatformExportTransaction::new(registry.reserve().unwrap());
    let mut failures = 1;

    assert_eq!(transaction.aborted(&mut registry, false), Err(HostPortError::CleanupFailed));
    assert_eq!(retry(&mut registry, &mut failures), Err(HostPortError::CleanupFailed));
    assert_eq!(retry(&mut registry, &mut failures), Ok(()));
    assert!(registry.pending_ids().unwrap().is_empty());
}

#[test]
fn publication_panics_retain_exact_cleanup_until_absence_is_proven() {
    let mut registry = CleanupRegistry::new();
    for _ in 0..2 {
        // A publication that panicked gives its transaction up unpublished.
        let mut transaction = PlatformExportTransaction::new(registry.reserve().unwrap());
        assert_eq!(transaction.check_open(), Ok(()));
        let mut failures = 1;
        assert_eq!(transaction.aborted(&mut registry, false), Err(HostPortError::CleanupFailed));
        assert_eq!(registry.pending_ids().unwrap(), vec![transaction.id()]);
        assert_eq!(retry(&mut registry, &mut failures), Err(HostPortError::CleanupFailed));
        assert_eq!(registry.pending_ids().unwrap(), vec![transaction.id()]);
        assert_eq!(retry(&mut registry, &mut failures), Ok(()));
        assert!(registry.pending_ids().unwrap().is_empty());
    }
}

#[test]
fn rejected_authorization_reports_cleanup_failure_until_absence_is_proven() {
    let mut registry = CleanupRegistry::new();
    let mut transaction = PlatformExportTransaction::new(registry.reserve().unwrap());
    let mut failures = 1;

    let step = transaction.published(&mut registry, None, Err(HostPortError::Cancelled));
    assert_eq!(step, ExportStep::Abort(HostPortError::Cancelled));
    let aborted = transaction.aborted(&mut registry, false);
    assert_eq!(
        abandoned_publication(HostPortError::Cancelled, aborted),
        HostPortError::CleanupFailed
    );
    assert_eq!(retry(&mut registry, &mut failures), Err(HostPortError::CleanupFailed));
    assert_eq!(retry(&mut registry, &mut failures), Ok(()));
    assert!(registry.pending_ids().unwrap().is_empty());
}

#[test]
fn production_begin_failure_retains_cleanup_until_absence_is_proven() {
    let mut registry = CleanupRegistry::new();
    let id = registry.reserve().unwrap();
    let mut failures = 1;

    assert_eq!(
        retain_and_map_export_begin_error(&mut registry, id, PlatformErrorKind::Other, true),
        HostPortError::CleanupFailed
    );
    assert_eq!(retry(&mut registry, &mut failures), Err(HostPortError::CleanupFailed));
    assert_eq!(retry(&mut registry, &mut failures), Ok(()));
    assert!(registry.pending_ids().unwrap().is_empty());
}

#[test]
fn concurrent_abort_failures_retain_both_exact_cleanup_capabilities() {
    let mut registry = CleanupRegistry::new();
    let mut first = PlatformExportTransaction::new(registry.reserve().unwrap());
    let mut second = PlatformExportTransaction::new(registry.reserve().unwrap());

    assert_eq!(second.aborted(&mut registry, false), Err(HostPortError::CleanupFailed));
    assert_eq!(first.aborted(&mut registry, false), Err(HostPortError::CleanupFailed));
    assert_eq!(registry.pending_ids().unwrap(), vec![first.id(), second.id()]);
    assert_eq!(retry(&mut registry, &mut 0), Ok(()));
    assert!(registry.pending_ids().unwrap().is_empty());
}

#[test]
fn concurrent_cleanup_retry_is_rejected_without_moving_exact_ownership() {
    let mut registry = CleanupRegistry::new();
    let mut transaction = PlatformExportTransaction::new(registry.reserve().unwrap());
    assert_eq!(transaction.aborted(&mut registry, false), Err(HostPortError::CleanupFailed));
    let running = CleanupRetry::begin(&mut registry).unwrap();

    assert!(matches!(CleanupRetry::begin(&mut registry), Err(HostPortError::LiveWorkspace)));
    let (running, id) = running.next(&mut registry);
    let running = running.retried(&mut registry, id.unwrap(), true);
    let (running, id) = running.next(&mut registry);
    assert_eq!(id, None);
    assert_eq!(running.end(&mut registry), Ok(()));
    assert!(registry.pending_ids().unwrap().is_empty());
}

#[test]
fn a_published_export_owes_nothing() {
    let mut registry = CleanupRegistry::new();
    let mut transaction = PlatformExportTransaction::new(registry.reserve().unwrap());
    assert_eq!(transaction.check_open(), Ok(()));
    assert_eq!(
        transaction.published(&mut registry, None, Ok(())),
        ExportStep::Ended(Ok(()))
    );
    assert!(transaction.check_open().is_err());
    assert!(registry.pending_ids().unwrap().is_empty());
    assert_eq!(registry.finish(transaction.id()), Err(HostPortError::StaleCapability));
}

#[test]
fn platform_failures_have_their_categories() {
    assert_eq!(
        map_platform_error(PlatformErrorKind::AlreadyExists),
        HostPortError::PlatformFailure
    );
    assert_eq!(map_platform_error(PlatformErrorKind::OutOfMemory), HostPortError::AllocationFailed);
    assert_eq!(
        map_platform_repository_error(PlatformErrorKind::OutOfMemory),
        RepositoryPortError::AllocationFailed
    );
    assert_eq!(
        map_import_validation(PlatformErrorKind::OutOfMemory),
        RepositoryPortError::AllocationFailed
    );
    assert_eq!(
        map_export_publish_attempt(true, PlatformErrorKind::Other),
        HostPortError::DurabilityPending
    );
    assert_eq!(
        map_export_publish_attempt(false, PlatformErrorKind::AlreadyExists),
        HostPortError::DestinationExists
    );
}

#[test]
fn a_refused_reservation_tracks_nothing() {
    let mut registry = CleanupRegistry::new();
    assert_eq!(registry.reserve_over(false), Err(HostPortError::AllocationFailed));
    let id = registry.reserve_over(true).unwrap();
    registry.retain(id);
    assert_eq!(registry.pending_ids_over(None), Err(HostPortError::AllocationFailed));
    assert_eq!(registry.pending_ids_over(Some(Vec::new())), Ok(vec![id]));
    assert_eq!(registry.pending_ids(), Ok(vec![id]));
}
