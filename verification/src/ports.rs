//! Bounded values that cross the boundary to the host.
use vstd::prelude::*;

pub mod editor;
pub mod paths;
pub mod rehome;
pub mod secrets;
pub mod workspace;

verus! {

/// Maximum opaque stable-source evidence retained by the service.
pub const MAX_STABLE_SOURCE_TOKEN_BYTES: usize = 256;
/// Maximum native credential-store reference retained by the service.
pub const MAX_DEVICE_KEY_REFERENCE_BYTES: usize = 2 * 1024;
/// Maximum raw UTF-8 bytes accepted for one logical path component.
pub const MAX_LOGICAL_COMPONENT_BYTES: usize = 1_024;
/// Maximum component depth accepted for one logical workspace path.
pub const MAX_LOGICAL_PATH_DEPTH: usize = 16;
/// Maximum logical paths tracked and physically materialized in one workspace.
pub const MAX_WORKSPACE_PATHS: usize = 1_000_000;
/// Maximum physical directories, files, and live staging entries in one workspace.
pub const MAX_WORKSPACE_PHYSICAL_ENTRIES: usize = 1_000_000;
/// Maximum aggregate collision-key and normalized identity bytes per workspace.
pub const MAX_WORKSPACE_COLLISION_KEY_BYTES: usize = 64 * 1024 * 1024;
/// Maximum raw UTF-8 bytes accepted for one logical workspace path.
pub const MAX_LOGICAL_PATH_BYTES: usize = 16_399;
/// Maximum editor arguments accepted in one launch request.
pub const MAX_EDITOR_ARGUMENTS: usize = 64;
/// Maximum encoded bytes accepted in one editor argument.
pub const MAX_EDITOR_ARGUMENT_BYTES: usize = 4 * 1024;
/// Maximum aggregate encoded bytes accepted in one editor command line.
pub const MAX_EDITOR_COMMAND_BYTES: usize = 32 * 1024;
/// Maximum direct workspaces accounted by one startup cleanup pass.
pub const MAX_STARTUP_WORKSPACES: usize = 1_000_000;
/// Maximum recovery credential bytes accepted at the service boundary.
pub const MAX_RECOVERY_SECRET_BYTES: usize = 1_024;
/// Maximum native path bytes retained by any service-owned host value.
pub const MAX_NATIVE_PATH_BYTES: usize = 32 * 1_024;

/// Stable bounded host-boundary failures without raw platform details.
#[derive(Clone, Copy, Debug, PartialEq, Eq, Structural)]
#[non_exhaustive]
pub enum HostPortError {
    Cancelled,
    Unavailable,
    Denied,
    InvalidInput,
    CapacityExceeded,
    AllocationFailed,
    DestinationExists,
    StaleCapability,
    DurabilityPending,
    DetachedEditor,
    Permission,
    LiveWorkspace,
    CleanupFailed,
    PlatformFailure,
}

/// Failures of the portable-name rules.
#[derive(Clone, Copy, Debug, PartialEq, Eq, Structural)]
pub enum NameError {
    /// Memory for the parsed name could not be reserved.
    AllocationFailed,
    /// The name is longer than the bound it was parsed under.
    CapacityExceeded,
    /// The name is not portable.
    Invalid,
}

} // verus!
