//! Capabilities that a host and a repository implement for the service.
use vstd::prelude::*;

use crate::ports::workspace::WorkspaceId;
use crate::ports::HostPortError;
use crate::session::errors::RepositoryPortError;
use crate::session::requests::LocalVaultConfig;

verus! {

/// Service-owned guard evaluated at the final store publication boundary.
pub trait VaultPublicationGuard {
    fn validate(&mut self) -> Result<(), RepositoryPortError>;
}

/// Cancels what runs under one lease.
pub trait OperationCancellation {
    fn cancel(&self);
}

/// Keeps a workspace owned for as long as it lives.
pub trait WorkspaceOwnershipGuard {

}

/// Keeps a published file protected for as long as it lives.
pub trait PublishedWorkspaceGuard {

}

/// Held physical-absence evidence. Giving it up leaves retry-discoverable
/// provider state and never finalizes it.
pub trait WorkspaceAbsenceGuard {
    /// Releases provider-owned absence infrastructure after authenticated
    /// unregister succeeds. A failure leaves the guard retryable.
    fn finalize(&mut self) -> Result<(), HostPortError>;
}

/// A workspace that the vault knows of and that is not active yet.
pub trait RegisteredWorkspaceCapability {
    fn workspace_id(&self) -> &WorkspaceId;
}

/// A workspace that is active.
pub trait ActiveWorkspaceCapability {
    fn workspace_id(&self) -> &WorkspaceId;
}

/// One-way root revocation detached from the consuming repository capability.
pub trait VaultRootRevocation {
    fn revoke(&self);
}

/// Resolves an opaque compromise target without putting paths in UI requests.
pub trait CompromiseTargetResolver {
    fn resolve(&self, target: [u8; 16]) -> Result<LocalVaultConfig, RepositoryPortError>;
}

} // verus!
