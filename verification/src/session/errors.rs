//! Failures of the repository, and how they cross the boundaries of the service.
use vstd::prelude::*;

use crate::error::ServiceError;
use crate::ports::{HostPortError, NameError};

verus! {

/// Stable repository-boundary failures without store or crypto details.
#[derive(Clone, Copy, Debug, PartialEq, Eq, Structural)]
#[non_exhaustive]
pub enum RepositoryPortError {
    Unavailable,
    WrongSecret,
    Cancelled,
    Locked,
    Busy,
    CapacityExceeded,
    AllocationFailed,
    CleanupRequired,
    PlatformFailure,
    TimedOut,
    DurabilityPending,
    IntegrityFailed,
    NotFound,
    EntropyUnavailable,
    IdentifierExhausted,
    InvalidInput,
    StaleCapability,
}

/// What a call across a port came back with.
#[derive(Clone, Copy, Debug, PartialEq, Eq)]
pub enum PortAnswer<T> {
    Returned(T),
    Panicked,
}

/// The result of a contained call: a panic is a failed execution.
pub open spec fn contained<T>(answer: PortAnswer<Result<T, ServiceError>>) -> Result<
    T,
    ServiceError,
> {
    match answer {
        PortAnswer::Returned(result) => result,
        PortAnswer::Panicked => Err(ServiceError::ExecutorFailed),
    }
}

/// Contains the panic of a call across a port.
pub fn catch_port_panic<T>(answer: PortAnswer<Result<T, ServiceError>>) -> (result: Result<
    T,
    ServiceError,
>)
    ensures
        result == contained(answer),
{
    match answer {
        PortAnswer::Returned(result) => result,
        PortAnswer::Panicked => Err(ServiceError::ExecutorFailed),
    }
}

/// Failures of the encrypted store that the service tells apart.
#[derive(Clone, Copy, Debug, PartialEq, Eq, Structural)]
pub enum StoreFailure {
    AuthenticationFailed,
    LocalStateAuthenticationFailed,
    MalformedObject,
    RollbackDetected,
    Cancelled,
    Locked,
    InvalidCapability,
    Busy,
    LimitExceeded,
    AllocationFailed,
    CleanupAfterFailure,
    TimedOut,
    DurabilityPending,
    NotFound,
    RandomSource,
    IdentityCollision,
    SessionGenerationExhausted,
    FilesystemObjectRejected,
    ImmutableObjectConflict,
    InvalidInput,
    /// An I/O failure of the platform.
    Io,
    /// A failure that has no meaning of its own at this boundary.
    Other,
}

/// How the failure of a store call reaches the service.
pub open spec fn store_failure(error: StoreFailure) -> RepositoryPortError {
    match error {
        StoreFailure::AuthenticationFailed | StoreFailure::LocalStateAuthenticationFailed | StoreFailure::MalformedObject => RepositoryPortError::IntegrityFailed,
        StoreFailure::RollbackDetected | StoreFailure::InvalidCapability => RepositoryPortError::StaleCapability,
        StoreFailure::Cancelled => RepositoryPortError::Cancelled,
        StoreFailure::Locked => RepositoryPortError::Locked,
        StoreFailure::Busy => RepositoryPortError::Busy,
        StoreFailure::LimitExceeded => RepositoryPortError::CapacityExceeded,
        StoreFailure::AllocationFailed => RepositoryPortError::AllocationFailed,
        StoreFailure::CleanupAfterFailure => RepositoryPortError::CleanupRequired,
        StoreFailure::TimedOut => RepositoryPortError::TimedOut,
        StoreFailure::DurabilityPending => RepositoryPortError::DurabilityPending,
        StoreFailure::NotFound => RepositoryPortError::NotFound,
        StoreFailure::RandomSource => RepositoryPortError::EntropyUnavailable,
        StoreFailure::IdentityCollision | StoreFailure::SessionGenerationExhausted => RepositoryPortError::IdentifierExhausted,
        StoreFailure::FilesystemObjectRejected | StoreFailure::ImmutableObjectConflict | StoreFailure::InvalidInput => RepositoryPortError::InvalidInput,
        StoreFailure::Io | StoreFailure::Other => RepositoryPortError::PlatformFailure,
    }
}

/// How the failure of a store call reaches the service.
pub fn map_store_error(error: StoreFailure) -> (mapped: RepositoryPortError)
    ensures
        mapped == store_failure(error),
{
    match error {
        StoreFailure::AuthenticationFailed | StoreFailure::LocalStateAuthenticationFailed | StoreFailure::MalformedObject => RepositoryPortError::IntegrityFailed,
        StoreFailure::RollbackDetected | StoreFailure::InvalidCapability => RepositoryPortError::StaleCapability,
        StoreFailure::Cancelled => RepositoryPortError::Cancelled,
        StoreFailure::Locked => RepositoryPortError::Locked,
        StoreFailure::Busy => RepositoryPortError::Busy,
        StoreFailure::LimitExceeded => RepositoryPortError::CapacityExceeded,
        StoreFailure::AllocationFailed => RepositoryPortError::AllocationFailed,
        StoreFailure::CleanupAfterFailure => RepositoryPortError::CleanupRequired,
        StoreFailure::TimedOut => RepositoryPortError::TimedOut,
        StoreFailure::DurabilityPending => RepositoryPortError::DurabilityPending,
        StoreFailure::NotFound => RepositoryPortError::NotFound,
        StoreFailure::RandomSource => RepositoryPortError::EntropyUnavailable,
        StoreFailure::IdentityCollision | StoreFailure::SessionGenerationExhausted => RepositoryPortError::IdentifierExhausted,
        StoreFailure::FilesystemObjectRejected | StoreFailure::ImmutableObjectConflict | StoreFailure::InvalidInput => RepositoryPortError::InvalidInput,
        StoreFailure::Io | StoreFailure::Other => RepositoryPortError::PlatformFailure,
    }
}

/// How the failure of a store unlock reaches the service: failed authentication
/// means that the secret was wrong.
pub open spec fn unlock_failure(error: StoreFailure) -> RepositoryPortError {
    match error {
        StoreFailure::AuthenticationFailed
        | StoreFailure::LocalStateAuthenticationFailed => RepositoryPortError::WrongSecret,
        other => store_failure(other),
    }
}

/// How the failure of a store unlock reaches the service.
pub fn map_unlock_error(error: StoreFailure) -> (mapped: RepositoryPortError)
    ensures
        mapped == unlock_failure(error),
{
    match error {
        StoreFailure::AuthenticationFailed
        | StoreFailure::LocalStateAuthenticationFailed => RepositoryPortError::WrongSecret,
        other => map_store_error(other),
    }
}

/// How the failure of a publication guard reaches the store.
pub open spec fn publication_guard_failure(error: RepositoryPortError) -> StoreFailure {
    match error {
        RepositoryPortError::AllocationFailed => StoreFailure::AllocationFailed,
        RepositoryPortError::CapacityExceeded => StoreFailure::LimitExceeded,
        RepositoryPortError::Cancelled => StoreFailure::Cancelled,
        RepositoryPortError::Locked => StoreFailure::Locked,
        RepositoryPortError::Busy => StoreFailure::Busy,
        RepositoryPortError::TimedOut => StoreFailure::TimedOut,
        RepositoryPortError::PlatformFailure => StoreFailure::Io,
        _ => StoreFailure::InvalidCapability,
    }
}

/// How the failure of a publication guard reaches the store.
pub fn map_repository_publication_error(error: RepositoryPortError) -> (mapped: StoreFailure)
    ensures
        mapped == publication_guard_failure(error),
{
    match error {
        RepositoryPortError::AllocationFailed => StoreFailure::AllocationFailed,
        RepositoryPortError::CapacityExceeded => StoreFailure::LimitExceeded,
        RepositoryPortError::Cancelled => StoreFailure::Cancelled,
        RepositoryPortError::Locked => StoreFailure::Locked,
        RepositoryPortError::Busy => StoreFailure::Busy,
        RepositoryPortError::TimedOut => StoreFailure::TimedOut,
        RepositoryPortError::PlatformFailure => StoreFailure::Io,
        _ => StoreFailure::InvalidCapability,
    }
}

/// How the failure to keep a workspace identity reaches the store.
pub open spec fn workspace_id_failure(error: HostPortError) -> StoreFailure {
    match error {
        HostPortError::AllocationFailed => StoreFailure::AllocationFailed,
        HostPortError::CapacityExceeded => StoreFailure::LimitExceeded,
        _ => StoreFailure::InvalidCapability,
    }
}

/// How the failure to keep a workspace identity reaches the store.
pub fn map_workspace_id_store_error(error: HostPortError) -> (mapped: StoreFailure)
    ensures
        mapped == workspace_id_failure(error),
{
    match error {
        HostPortError::AllocationFailed => StoreFailure::AllocationFailed,
        HostPortError::CapacityExceeded => StoreFailure::LimitExceeded,
        _ => StoreFailure::InvalidCapability,
    }
}

/// How the failure of the portable-name rules reaches the service.
pub open spec fn name_failure(error: NameError) -> RepositoryPortError {
    match error {
        NameError::AllocationFailed => RepositoryPortError::AllocationFailed,
        NameError::CapacityExceeded => RepositoryPortError::CapacityExceeded,
        NameError::Invalid => RepositoryPortError::InvalidInput,
    }
}

/// How the failure of the portable-name rules reaches the service.
pub fn map_core_repository_error(error: NameError) -> (mapped: RepositoryPortError)
    ensures
        mapped == name_failure(error),
{
    match error {
        NameError::AllocationFailed => RepositoryPortError::AllocationFailed,
        NameError::CapacityExceeded => RepositoryPortError::CapacityExceeded,
        NameError::Invalid => RepositoryPortError::InvalidInput,
    }
}

/// How a host failure inside a repository call reaches the service.
pub open spec fn host_repository_failure(error: HostPortError) -> RepositoryPortError {
    match error {
        HostPortError::AllocationFailed => RepositoryPortError::AllocationFailed,
        HostPortError::CapacityExceeded => RepositoryPortError::CapacityExceeded,
        _ => RepositoryPortError::InvalidInput,
    }
}

/// How a host failure inside a repository call reaches the service.
pub fn map_host_repository_error(error: HostPortError) -> (mapped: RepositoryPortError)
    ensures
        mapped == host_repository_failure(error),
{
    match error {
        HostPortError::AllocationFailed => RepositoryPortError::AllocationFailed,
        HostPortError::CapacityExceeded => RepositoryPortError::CapacityExceeded,
        _ => RepositoryPortError::InvalidInput,
    }
}

/// How the failure of an external-file adapter reaches the caller.
pub open spec fn external_host_failure(error: HostPortError) -> ServiceError {
    match error {
        HostPortError::Cancelled => ServiceError::Cancelled,
        HostPortError::CapacityExceeded => ServiceError::CapacityExceeded,
        HostPortError::AllocationFailed => ServiceError::AllocationFailed,
        HostPortError::InvalidInput | HostPortError::Denied | HostPortError::Permission => ServiceError::InvalidInput,
        HostPortError::Unavailable => ServiceError::Unavailable,
        HostPortError::DestinationExists => ServiceError::DestinationExists,
        HostPortError::StaleCapability => ServiceError::StaleCapability,
        HostPortError::DurabilityPending => ServiceError::DurabilityPending,
        HostPortError::CleanupFailed => ServiceError::CleanupRequired,
        HostPortError::LiveWorkspace => ServiceError::Busy,
        HostPortError::DetachedEditor | HostPortError::PlatformFailure => ServiceError::ExecutorFailed,
    }
}

/// How the failure of an external-file adapter reaches the caller.
pub fn map_external_host_error(error: HostPortError) -> (mapped: ServiceError)
    ensures
        mapped == external_host_failure(error),
{
    match error {
        HostPortError::Cancelled => ServiceError::Cancelled,
        HostPortError::CapacityExceeded => ServiceError::CapacityExceeded,
        HostPortError::AllocationFailed => ServiceError::AllocationFailed,
        HostPortError::InvalidInput | HostPortError::Denied | HostPortError::Permission => ServiceError::InvalidInput,
        HostPortError::Unavailable => ServiceError::Unavailable,
        HostPortError::DestinationExists => ServiceError::DestinationExists,
        HostPortError::StaleCapability => ServiceError::StaleCapability,
        HostPortError::DurabilityPending => ServiceError::DurabilityPending,
        HostPortError::CleanupFailed => ServiceError::CleanupRequired,
        HostPortError::LiveWorkspace => ServiceError::Busy,
        HostPortError::DetachedEditor | HostPortError::PlatformFailure => ServiceError::ExecutorFailed,
    }
}

/// How a repository failure reaches the caller.
pub open spec fn repository_failure(error: RepositoryPortError) -> ServiceError {
    match error {
        RepositoryPortError::WrongSecret => ServiceError::AuthenticationFailed,
        RepositoryPortError::Cancelled => ServiceError::Cancelled,
        RepositoryPortError::Locked => ServiceError::Locked,
        RepositoryPortError::Busy => ServiceError::Busy,
        RepositoryPortError::CapacityExceeded => ServiceError::CapacityExceeded,
        RepositoryPortError::AllocationFailed => ServiceError::AllocationFailed,
        RepositoryPortError::CleanupRequired | RepositoryPortError::DurabilityPending => ServiceError::CleanupRequired,
        RepositoryPortError::TimedOut => ServiceError::TimedOut,
        RepositoryPortError::IntegrityFailed => ServiceError::IntegrityFailed,
        RepositoryPortError::InvalidInput => ServiceError::InvalidInput,
        RepositoryPortError::NotFound | RepositoryPortError::Unavailable => ServiceError::Unavailable,
        RepositoryPortError::EntropyUnavailable => ServiceError::EntropyUnavailable,
        RepositoryPortError::IdentifierExhausted => ServiceError::IdentifierExhausted,
        RepositoryPortError::StaleCapability => ServiceError::StaleCapability,
        RepositoryPortError::PlatformFailure => ServiceError::ExecutorFailed,
    }
}

/// How a repository failure reaches the caller.
pub fn map_repository_error(error: RepositoryPortError) -> (mapped: ServiceError)
    ensures
        mapped == repository_failure(error),
{
    match error {
        RepositoryPortError::WrongSecret => ServiceError::AuthenticationFailed,
        RepositoryPortError::Cancelled => ServiceError::Cancelled,
        RepositoryPortError::Locked => ServiceError::Locked,
        RepositoryPortError::Busy => ServiceError::Busy,
        RepositoryPortError::CapacityExceeded => ServiceError::CapacityExceeded,
        RepositoryPortError::AllocationFailed => ServiceError::AllocationFailed,
        RepositoryPortError::CleanupRequired | RepositoryPortError::DurabilityPending => ServiceError::CleanupRequired,
        RepositoryPortError::TimedOut => ServiceError::TimedOut,
        RepositoryPortError::IntegrityFailed => ServiceError::IntegrityFailed,
        RepositoryPortError::InvalidInput => ServiceError::InvalidInput,
        RepositoryPortError::NotFound | RepositoryPortError::Unavailable => ServiceError::Unavailable,
        RepositoryPortError::EntropyUnavailable => ServiceError::EntropyUnavailable,
        RepositoryPortError::IdentifierExhausted => ServiceError::IdentifierExhausted,
        RepositoryPortError::StaleCapability => ServiceError::StaleCapability,
        RepositoryPortError::PlatformFailure => ServiceError::ExecutorFailed,
    }
}

/// How a workspace-provider failure reaches the caller.
pub open spec fn host_failure(error: HostPortError) -> ServiceError {
    match error {
        HostPortError::Cancelled => ServiceError::Cancelled,
        HostPortError::CapacityExceeded => ServiceError::CapacityExceeded,
        HostPortError::AllocationFailed => ServiceError::AllocationFailed,
        HostPortError::LiveWorkspace => ServiceError::Busy,
        HostPortError::CleanupFailed => ServiceError::CleanupRequired,
        HostPortError::DestinationExists => ServiceError::DestinationExists,
        HostPortError::StaleCapability => ServiceError::StaleCapability,
        HostPortError::DurabilityPending => ServiceError::DurabilityPending,
        HostPortError::InvalidInput => ServiceError::InvalidConfiguration,
        HostPortError::Unavailable | HostPortError::Denied | HostPortError::DetachedEditor | HostPortError::Permission | HostPortError::PlatformFailure => ServiceError::ExecutorFailed,
    }
}

/// How a workspace-provider failure reaches the caller.
pub fn map_host_error(error: HostPortError) -> (mapped: ServiceError)
    ensures
        mapped == host_failure(error),
{
    match error {
        HostPortError::Cancelled => ServiceError::Cancelled,
        HostPortError::CapacityExceeded => ServiceError::CapacityExceeded,
        HostPortError::AllocationFailed => ServiceError::AllocationFailed,
        HostPortError::LiveWorkspace => ServiceError::Busy,
        HostPortError::CleanupFailed => ServiceError::CleanupRequired,
        HostPortError::DestinationExists => ServiceError::DestinationExists,
        HostPortError::StaleCapability => ServiceError::StaleCapability,
        HostPortError::DurabilityPending => ServiceError::DurabilityPending,
        HostPortError::InvalidInput => ServiceError::InvalidConfiguration,
        HostPortError::Unavailable | HostPortError::Denied | HostPortError::DetachedEditor | HostPortError::Permission | HostPortError::PlatformFailure => ServiceError::ExecutorFailed,
    }
}

} // verus!
