//! Failures exposed by the application service.
use vstd::prelude::*;

verus! {

/// Stable, bounded failures exposed by the application service.
#[derive(Clone, Copy, Debug, PartialEq, Eq, Structural)]
#[non_exhaustive]
pub enum ServiceError {
    /// The bounded ordinary queue cannot accept more work.
    Busy,
    /// The service has shut down.
    Closed,
    /// A global security control stopped new work.
    Locked,
    /// Cooperative cancellation was observed at a safe boundary.
    Cancelled,
    /// The injected executor reported a bounded application failure.
    ExecutorFailed,
    /// An executor panicked and its operation was contained.
    WorkerPanicked,
    /// The cryptographically secure random source failed.
    EntropyUnavailable,
    /// Fresh operation identity generation exhausted its retry or lifetime bound.
    IdentifierExhausted,
    /// A runtime limit was zero, inconsistent, or could not be reserved.
    InvalidConfiguration,
    /// A bounded public collection exceeded its documented element limit.
    CapacityExceeded,
    /// A bounded collection could not reserve its required memory.
    AllocationFailed,
    /// A progress value contradicted its declared total.
    InvalidProgress,
    /// An operation exhausted its event sequence space.
    EventSequenceExhausted,
    /// A bounded observation wait elapsed without a value.
    TimedOut,
    /// A request carried a malformed or forbidden value.
    InvalidInput,
    /// A capability no longer names the state it was issued for.
    StaleCapability,
    /// Cleanup must be proven before the session can be used again.
    CleanupRequired,
    /// An export destination is already present.
    DestinationExists,
    /// A visible change is not yet proven durable.
    DurabilityPending,
    /// A required host or repository facility is absent.
    Unavailable,
    /// The presented secret was rejected.
    AuthenticationFailed,
    /// Stored data failed authentication.
    IntegrityFailed,
    /// The monotonic clock failed or moved backwards.
    ClockFailure,
}

/// The fixed message of each failure.
pub open spec fn error_message(error: ServiceError) -> &'static str {
    match error {
        ServiceError::Busy => "the service is busy",
        ServiceError::Closed => "the service is closed",
        ServiceError::Locked => "the service is locked",
        ServiceError::Cancelled => "the operation was cancelled",
        ServiceError::ExecutorFailed => "the operation executor failed",
        ServiceError::WorkerPanicked => "the operation executor panicked",
        ServiceError::EntropyUnavailable => "the operating-system random source failed",
        ServiceError::IdentifierExhausted => "operation identity generation was exhausted",
        ServiceError::InvalidConfiguration => "the service configuration is invalid",
        ServiceError::CapacityExceeded => "the bounded service capacity was exceeded",
        ServiceError::AllocationFailed => "the bounded service allocation failed",
        ServiceError::InvalidProgress => "the operation progress is invalid",
        ServiceError::EventSequenceExhausted => "the operation event sequence was exhausted",
        ServiceError::TimedOut => "the bounded service wait timed out",
        ServiceError::InvalidInput => "the request is invalid",
        ServiceError::StaleCapability => "the capability is stale",
        ServiceError::CleanupRequired => "cleanup is required",
        ServiceError::DestinationExists => "the destination already exists",
        ServiceError::DurabilityPending => "durability is pending",
        ServiceError::Unavailable => "the facility is unavailable",
        ServiceError::AuthenticationFailed => "authentication failed",
        ServiceError::IntegrityFailed => "stored data failed authentication",
        ServiceError::ClockFailure => "the monotonic clock failed",
    }
}

impl ServiceError {
    /// A fixed description that carries no path, secret or backend detail.
    pub fn message(&self) -> (message: &'static str)
        ensures
            message == error_message(*self),
    {
        match self {
            ServiceError::Busy => "the service is busy",
            ServiceError::Closed => "the service is closed",
            ServiceError::Locked => "the service is locked",
            ServiceError::Cancelled => "the operation was cancelled",
            ServiceError::ExecutorFailed => "the operation executor failed",
            ServiceError::WorkerPanicked => "the operation executor panicked",
            ServiceError::EntropyUnavailable => "the operating-system random source failed",
            ServiceError::IdentifierExhausted => "operation identity generation was exhausted",
            ServiceError::InvalidConfiguration => "the service configuration is invalid",
            ServiceError::CapacityExceeded => "the bounded service capacity was exceeded",
            ServiceError::AllocationFailed => "the bounded service allocation failed",
            ServiceError::InvalidProgress => "the operation progress is invalid",
            ServiceError::EventSequenceExhausted => "the operation event sequence was exhausted",
            ServiceError::TimedOut => "the bounded service wait timed out",
            ServiceError::InvalidInput => "the request is invalid",
            ServiceError::StaleCapability => "the capability is stale",
            ServiceError::CleanupRequired => "cleanup is required",
            ServiceError::DestinationExists => "the destination already exists",
            ServiceError::DurabilityPending => "durability is pending",
            ServiceError::Unavailable => "the facility is unavailable",
            ServiceError::AuthenticationFailed => "authentication failed",
            ServiceError::IntegrityFailed => "stored data failed authentication",
            ServiceError::ClockFailure => "the monotonic clock failed",
        }
    }
}

} // verus!
