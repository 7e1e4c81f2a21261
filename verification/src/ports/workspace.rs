//! Workspaces, their requests and the materializations in them.
use vstd::prelude::*;

use crate::bytes::same_bytes;
use crate::error::ServiceError;
use crate::memory;
use crate::memory::text_room;
use crate::ports::paths;
use crate::ports::paths::{ComponentModel, LogicalWorkspacePath, NativePath, PathModel};
use crate::ports::rehome;
use crate::ports::rehome::try_rehome_bytes;
use crate::ports::{
    HostPortError, MAX_NATIVE_PATH_BYTES, MAX_STABLE_SOURCE_TOKEN_BYTES, MAX_STARTUP_WORKSPACES,
};
use crate::secret::{secret_capacity, SecretBytes};
use crate::session::VaultId;

verus! {

/// Service failure of a selected path that could not be kept.
pub open spec fn selection_failure(path: PathModel) -> Option<ServiceError> {
    if path.encoded.len() > MAX_NATIVE_PATH_BYTES {
        Some(ServiceError::CapacityExceeded)
    } else if !paths::is_valid_absolute(path) {
        Some(ServiceError::InvalidInput)
    } else {
        None
    }
}

fn keep_selection(path: NativePath) -> (kept: Result<NativePath, ServiceError>)
    ensures
        match selection_failure(path@) {
            Some(failure) => kept == Err::<NativePath, ServiceError>(failure),
            None => match kept {
                Ok(kept) => kept@ == path@,
                Err(error) => error == ServiceError::AllocationFailed
                    && paths::path_refused(path@),
            },
        },
{
    if path.encoded_len() > MAX_NATIVE_PATH_BYTES {
        return Err(ServiceError::CapacityExceeded);
    }
    if !path.is_valid_absolute_path() {
        return Err(ServiceError::InvalidInput);
    }
    match path.try_rehome(MAX_NATIVE_PATH_BYTES) {
        Ok(kept) => Ok(kept),
        Err(HostPortError::CapacityExceeded) => Err(ServiceError::CapacityExceeded),
        Err(HostPortError::AllocationFailed) => Err(ServiceError::AllocationFailed),
        Err(_) => Err(ServiceError::InvalidInput),
    }
}

/// Private bounded caller selection for one explicit import source.
pub struct ImportSelection {
    path: NativePath,
}

impl View for ImportSelection {
    type V = PathModel;

    closed spec fn view(&self) -> PathModel {
        self.path@
    }
}

impl ImportSelection {
    /// Accepts an absolute path that the service keeps.
    pub fn try_new(path: NativePath) -> (selection: Result<Self, ServiceError>)
        ensures
            match selection_failure(path@) {
                Some(failure) => selection == Err::<Self, ServiceError>(failure),
                None => match selection {
                    Ok(selection) => selection@ == path@,
                    Err(error) => error == ServiceError::AllocationFailed
                        && paths::path_refused(path@),
                },
            },
    {
        match keep_selection(path) {
            Ok(path) => Ok(ImportSelection { path }),
            Err(error) => Err(error),
        }
    }

    /// Borrows the validated path only for the trusted external-file adapter.
    pub fn path(&self) -> (path: &NativePath)
        ensures
            path@ == self@,
    {
        &self.path
    }
}

/// Explicit overwrite authorization carried by one export selection.
#[derive(Clone, Copy, Debug, PartialEq, Eq, Structural)]
pub enum ExportOverwriteConfirmation {
    Refuse,
    Confirmed,
}

/// Private bounded caller selection for one explicit export destination.
pub struct ExportSelection {
    path: NativePath,
    overwrite: ExportOverwriteConfirmation,
}

impl View for ExportSelection {
    type V = (PathModel, ExportOverwriteConfirmation);

    closed spec fn view(&self) -> (PathModel, ExportOverwriteConfirmation) {
        (self.path@, self.overwrite)
    }
}

impl ExportSelection {
    /// Accepts an absolute path that the service keeps.
    pub fn try_new(path: NativePath, overwrite: ExportOverwriteConfirmation) -> (selection: Result<
        Self,
        ServiceError,
    >)
        ensures
            match selection_failure(path@) {
                Some(failure) => selection == Err::<Self, ServiceError>(failure),
                None => match selection {
                    Ok(selection) => selection@ == (path@, overwrite),
                    Err(error) => error == ServiceError::AllocationFailed
                        && paths::path_refused(path@),
                },
            },
    {
        match keep_selection(path) {
            Ok(path) => Ok(ExportSelection { path, overwrite }),
            Err(error) => Err(error),
        }
    }

    pub fn path(&self) -> (path: &NativePath)
        ensures
            path@ == self@.0,
    {
        &self.path
    }

    pub fn overwrite(&self) -> (overwrite: ExportOverwriteConfirmation)
        ensures
            overwrite == self@.1,
    {
        self.overwrite
    }
}

/// Lowercase hexadecimal digit of a number below sixteen.
pub open spec fn hex_digit(value: int) -> char {
    if value < 10 {
        (('0' as u32) + value) as char
    } else {
        (('a' as u32) + value - 10) as char
    }
}

/// Lowercase hexadecimal text of a byte string.
pub open spec fn hex_text(bytes: Seq<u8>) -> Seq<char> {
    Seq::new(
        2 * bytes.len(),
        |i: int|
            if i % 2 == 0 {
                hex_digit(bytes[i / 2] as int / 16)
            } else {
                hex_digit(bytes[i / 2] as int % 16)
            },
    )
}

fn hex_digit_text(value: u8) -> (digit: &'static str)
    requires
        value < 16,
    ensures
        digit@ == seq![hex_digit(value as int)],
{
    proof {
        reveal_strlit("0");
        reveal_strlit("1");
        reveal_strlit("2");
        reveal_strlit("3");
        reveal_strlit("4");
        reveal_strlit("5");
        reveal_strlit("6");
        reveal_strlit("7");
        reveal_strlit("8");
        reveal_strlit("9");
        reveal_strlit("a");
        reveal_strlit("b");
        reveal_strlit("c");
        reveal_strlit("d");
        reveal_strlit("e");
        reveal_strlit("f");
    }
    let digit = match value {
        0 => "0",
        1 => "1",
        2 => "2",
        3 => "3",
        4 => "4",
        5 => "5",
        6 => "6",
        7 => "7",
        8 => "8",
        9 => "9",
        10 => "a",
        11 => "b",
        12 => "c",
        13 => "d",
        14 => "e",
        _ => "f",
    };
    assert(digit@ =~= seq![hex_digit(value as int)]);
    digit
}

/// Store-issued opaque identity for one workspace that the service owns.
pub struct WorkspaceId {
    bytes: [u8; 16],
    child_name: String,
}

impl View for WorkspaceId {
    type V = [u8; 16];

    closed spec fn view(&self) -> [u8; 16] {
        self.bytes
    }
}

impl WorkspaceId {
    /// The child name is the hexadecimal text of the identity.
    #[verifier::type_invariant]
    pub closed spec fn child_name_is_hex(self) -> bool {
        self.child_name@ == hex_text(self.bytes@)
    }

    /// Keeps a store-issued identity with its child name.
    pub fn from_store(bytes: [u8; 16]) -> (id: Result<Self, HostPortError>)
        ensures
            match id {
                Ok(id) => id@ == bytes,
                Err(error) => error == HostPortError::AllocationFailed
                    && memory::string_refused(32),
            },
    {
        WorkspaceId::render(bytes, text_room(32))
    }

    /// Renders the child name of an identity into reserved room.
    pub fn render(bytes: [u8; 16], room: Option<String>) -> (id: Result<Self, HostPortError>)
        requires
            room is Some ==> room->0@ == Seq::<char>::empty(),
        ensures
            id is Ok <==> room is Some,
            id is Ok ==> id->Ok_0@ == bytes,
            id is Err ==> id->Err_0 == HostPortError::AllocationFailed,
    {
        let mut child_name = match room {
            Some(room) => room,
            None => return Err(HostPortError::AllocationFailed),
        };
        let mut index: usize = 0;
        assert(child_name@ =~= hex_text(bytes@.subrange(0, 0)));
        while index < 16
            invariant
                index <= 16,
                child_name@ == hex_text(bytes@.subrange(0, index as int)),
            decreases 16 - index,
        {
            let byte: u8 = bytes[index];
            let ghost before = child_name@;
            child_name.append(hex_digit_text(byte / 16));
            child_name.append(hex_digit_text(byte % 16));
            proof {
                let longer = bytes@.subrange(0, index + 1);
                assert(child_name@ =~= hex_text(longer)) by {
                    assert forall|i: int| 0 <= i < 2 * index implies #[trigger] before[i]
                        == hex_text(longer)[i] by {
                        assert(bytes@.subrange(0, index as int)[i / 2] == longer[i / 2]);
                    }
                    assert(longer[(2 * index) / 2] == byte);
                    assert(longer[(2 * index + 1) / 2] == byte);
                }
            }
            index += 1;
        }
        assert(bytes@.subrange(0, 16) =~= bytes@);
        Ok(WorkspaceId { bytes, child_name })
    }

    /// Returns the exact direct child name reserved by the store.
    pub fn child_name(&self) -> (name: &str)
        ensures
            name@ == hex_text(self@@),
    {
        proof {
            use_type_invariant(self);
        }
        self.child_name.as_str()
    }

    /// Whether two identities are the same.
    pub fn is_same(&self, other: &WorkspaceId) -> (same: bool)
        ensures
            same == (self@ == other@),
    {
        same_bytes(&self.bytes, &other.bytes)
    }

    /// The identity's bytes.
    pub fn as_bytes(&self) -> (bytes: [u8; 16])
        ensures
            bytes == self@,
    {
        self.bytes
    }

    /// A second value of the same identity.
    pub fn try_duplicate(&self) -> (copy: Result<Self, HostPortError>)
        ensures
            match copy {
                Ok(copy) => copy@ == self@,
                Err(error) => error == HostPortError::AllocationFailed
                    && memory::string_refused(32),
            },
    {
        WorkspaceId::from_store(self.bytes)
    }
}

/// Plaintext materialization scope.
#[derive(Clone, Copy, Debug, PartialEq, Eq, Structural)]
pub enum WorkspaceMode {
    Targeted,
    WholeVault,
}

/// One owned plaintext workspace below the provider's fixed base.
pub struct WorkspaceLease {
    id: WorkspaceId,
    root: NativePath,
    mode: WorkspaceMode,
}

/// Contents of a [`WorkspaceLease`].
pub struct LeaseModel {
    pub id: [u8; 16],
    pub root: PathModel,
    pub mode: WorkspaceMode,
}

impl View for WorkspaceLease {
    type V = LeaseModel;

    closed spec fn view(&self) -> LeaseModel {
        LeaseModel { id: self.id@, root: self.root@, mode: self.mode }
    }
}

/// Roots that belong to a workspace identity: plain absolute paths whose last
/// component is the child name of that identity.
pub open spec fn is_workspace_root(id: [u8; 16], root: PathModel) -> bool {
    &&& paths::is_valid_absolute(root)
    &&& root.components.len() > 0
    &&& root.components.last() == ComponentModel::Normal(
        vstd::utf8::encode_utf8(hex_text(id@)),
    )
}

impl WorkspaceLease {
    /// Accepts a provider's root for one workspace identity.
    pub fn new(id: WorkspaceId, root: NativePath, mode: WorkspaceMode) -> (lease: Result<
        Self,
        HostPortError,
    >)
        ensures
            !is_workspace_root(id@, root@) ==> lease == Err::<Self, HostPortError>(
                HostPortError::InvalidInput,
            ),
            is_workspace_root(id@, root@) ==> match lease {
                Ok(lease) => lease@ == (LeaseModel { id: id@, root: root@, mode }),
                Err(error) => error == HostPortError::AllocationFailed
                    && paths::path_refused(root@),
            },
    {
        if !root.is_valid_absolute_path() || !root.has_file_name(id.child_name().as_bytes()) {
            return Err(HostPortError::InvalidInput);
        }
        match root.try_rehome(MAX_NATIVE_PATH_BYTES) {
            Ok(root) => Ok(WorkspaceLease { id, root, mode }),
            Err(error) => Err(error),
        }
    }

    /// Constructs a targeted lease by consuming the exact provider request.
    pub fn from_target_request(request: TargetWorkspaceRequest, root: NativePath) -> (lease: Result<
        Self,
        HostPortError,
    >)
        ensures
            !is_workspace_root(request@.id, root@) ==> lease == Err::<Self, HostPortError>(
                HostPortError::InvalidInput,
            ),
            is_workspace_root(request@.id, root@) ==> match lease {
                Ok(lease) => lease@ == (LeaseModel {
                    id: request@.id,
                    root: root@,
                    mode: WorkspaceMode::Targeted,
                }),
                Err(error) => error == HostPortError::AllocationFailed
                    && paths::path_refused(root@),
            },
    {
        WorkspaceLease::new(request.id, root, WorkspaceMode::Targeted)
    }

    /// Constructs a whole-vault lease by consuming the exact provider request.
    pub fn from_vault_request(request: VaultWorkspaceRequest, root: NativePath) -> (lease: Result<
        Self,
        HostPortError,
    >)
        ensures
            !is_workspace_root(request@.id, root@) ==> lease == Err::<Self, HostPortError>(
                HostPortError::InvalidInput,
            ),
            is_workspace_root(request@.id, root@) ==> match lease {
                Ok(lease) => lease@ == (LeaseModel {
                    id: request@.id,
                    root: root@,
                    mode: WorkspaceMode::WholeVault,
                }),
                Err(error) => error == HostPortError::AllocationFailed
                    && paths::path_refused(root@),
            },
    {
        WorkspaceLease::new(request.id, root, WorkspaceMode::WholeVault)
    }

    pub fn id(&self) -> (id: &WorkspaceId)
        ensures
            id@ == self@.id,
    {
        &self.id
    }

    pub fn root(&self) -> (root: &NativePath)
        ensures
            root@ == self@.root,
    {
        &self.root
    }

    pub fn mode(&self) -> (mode: WorkspaceMode)
        ensures
            mode == self@.mode,
    {
        self.mode
    }

    /// Whether a path is a plain path strictly below the workspace root.
    pub fn contains_child(&self, path: &NativePath) -> (child: bool)
        ensures
            child == is_workspace_child(self@, path@),
    {
        path.is_valid_absolute_path() && !path.is_same_path(&self.root) && path.starts_with(
            &self.root,
        )
    }
}

/// Plain paths strictly below a workspace root.
pub open spec fn is_workspace_child(lease: LeaseModel, path: PathModel) -> bool {
    &&& paths::is_valid_absolute(path)
    &&& !paths::same_path(path, lease.root)
    &&& paths::starts_with(path, lease.root)
}

/// Bounded result of one fixed-base startup cleanup pass.
#[derive(Clone, Copy, Debug, PartialEq, Eq, Structural)]
pub struct StartupCleanupReport {
    removed: usize,
    skipped_live: usize,
}

impl View for StartupCleanupReport {
    type V = (usize, usize);

    closed spec fn view(&self) -> (usize, usize) {
        (self.removed, self.skipped_live)
    }
}

impl StartupCleanupReport {
    /// Accepts a report of at most the accounted number of workspaces.
    pub fn try_new(removed: usize, skipped_live: usize) -> (report: Result<Self, HostPortError>)
        ensures
            report is Ok <==> removed + skipped_live <= MAX_STARTUP_WORKSPACES,
            report is Ok ==> report->Ok_0@ == (removed, skipped_live),
            report is Err ==> report->Err_0 == HostPortError::CapacityExceeded,
    {
        if removed > MAX_STARTUP_WORKSPACES || skipped_live > MAX_STARTUP_WORKSPACES || removed
            + skipped_live > MAX_STARTUP_WORKSPACES {
            return Err(HostPortError::CapacityExceeded);
        }
        Ok(StartupCleanupReport { removed, skipped_live })
    }

    pub fn removed(&self) -> (removed: usize)
        ensures
            removed == self@.0,
    {
        self.removed
    }

    pub fn skipped_live(&self) -> (skipped_live: usize)
        ensures
            skipped_live == self@.1,
    {
        self.skipped_live
    }
}

/// Contents of a workspace request.
pub struct RequestModel {
    pub id: [u8; 16],
    pub vault_id: VaultId,
    pub repository_root: PathModel,
}

/// Request for one targeted workspace using a store-reserved identity.
pub struct TargetWorkspaceRequest {
    id: WorkspaceId,
    vault_id: VaultId,
    repository_root: NativePath,
}

impl View for TargetWorkspaceRequest {
    type V = RequestModel;

    closed spec fn view(&self) -> RequestModel {
        RequestModel {
            id: self.id@,
            vault_id: self.vault_id,
            repository_root: self.repository_root@,
        }
    }
}

impl TargetWorkspaceRequest {
    /// Accepts a request for a repository at a plain absolute path.
    pub fn new(id: WorkspaceId, vault_id: VaultId, repository_root: NativePath) -> (request: Result<
        Self,
        HostPortError,
    >)
        ensures
            !paths::is_valid_absolute(repository_root@) ==> request == Err::<Self, HostPortError>(
                HostPortError::InvalidInput,
            ),
            paths::is_valid_absolute(repository_root@) ==> match request {
                Ok(request) => request@ == (RequestModel {
                    id: id@,
                    vault_id,
                    repository_root: repository_root@,
                }),
                Err(error) => error == HostPortError::AllocationFailed
                    && paths::path_refused(repository_root@),
            },
    {
        if !repository_root.is_valid_absolute_path() {
            return Err(HostPortError::InvalidInput);
        }
        match repository_root.try_rehome(MAX_NATIVE_PATH_BYTES) {
            Ok(repository_root) => Ok(TargetWorkspaceRequest { id, vault_id, repository_root }),
            Err(error) => Err(error),
        }
    }

    pub fn id(&self) -> (id: &WorkspaceId)
        ensures
            id@ == self@.id,
    {
        &self.id
    }

    pub fn vault_id(&self) -> (vault_id: VaultId)
        ensures
            vault_id == self@.vault_id,
    {
        self.vault_id
    }

    pub fn repository_root(&self) -> (root: &NativePath)
        ensures
            root@ == self@.repository_root,
    {
        &self.repository_root
    }
}

/// Request for one whole-vault workspace using a store-reserved identity.
pub struct VaultWorkspaceRequest {
    id: WorkspaceId,
    vault_id: VaultId,
    repository_root: NativePath,
}

impl View for VaultWorkspaceRequest {
    type V = RequestModel;

    closed spec fn view(&self) -> RequestModel {
        RequestModel {
            id: self.id@,
            vault_id: self.vault_id,
            repository_root: self.repository_root@,
        }
    }
}

impl VaultWorkspaceRequest {
    /// Accepts a request for a repository at a plain absolute path.
    pub fn new(id: WorkspaceId, vault_id: VaultId, repository_root: NativePath) -> (request: Result<
        Self,
        HostPortError,
    >)
        ensures
            !paths::is_valid_absolute(repository_root@) ==> request == Err::<Self, HostPortError>(
                HostPortError::InvalidInput,
            ),
            paths::is_valid_absolute(repository_root@) ==> match request {
                Ok(request) => request@ == (RequestModel {
                    id: id@,
                    vault_id,
                    repository_root: repository_root@,
                }),
                Err(error) => error == HostPortError::AllocationFailed
                    && paths::path_refused(repository_root@),
            },
    {
        if !repository_root.is_valid_absolute_path() {
            return Err(HostPortError::InvalidInput);
        }
        match repository_root.try_rehome(MAX_NATIVE_PATH_BYTES) {
            Ok(repository_root) => Ok(VaultWorkspaceRequest { id, vault_id, repository_root }),
            Err(error) => Err(error),
        }
    }

    pub fn id(&self) -> (id: &WorkspaceId)
        ensures
            id@ == self@.id,
    {
        &self.id
    }

    pub fn vault_id(&self) -> (vault_id: VaultId)
        ensures
            vault_id == self@.vault_id,
    {
        self.vault_id
    }

    pub fn repository_root(&self) -> (root: &NativePath)
        ensures
            root@ == self@.repository_root,
    {
        &self.repository_root
    }
}

/// One validated logical workspace change.
pub enum WorkspaceChange {
    Created { path: LogicalWorkspacePath },
    Modified { path: LogicalWorkspacePath },
    Renamed { source: LogicalWorkspacePath, destination: LogicalWorkspacePath },
    Deleted { path: LogicalWorkspacePath },
}

/// One bounded watcher event whose path has already passed portable validation.
pub struct WorkspaceEvent {
    generation: u64,
    change: WorkspaceChange,
}

impl View for WorkspaceEvent {
    type V = (u64, WorkspaceChange);

    closed spec fn view(&self) -> (u64, WorkspaceChange) {
        (self.generation, self.change)
    }
}

impl WorkspaceEvent {
    /// Accepts an event of a workspace generation, which are counted from one.
    pub fn new(generation: u64, change: WorkspaceChange) -> (event: Result<Self, HostPortError>)
        ensures
            event is Ok <==> generation != 0,
            event is Ok ==> event->Ok_0@ == (generation, change),
            event is Err ==> event->Err_0 == HostPortError::InvalidInput,
    {
        if generation == 0 {
            return Err(HostPortError::InvalidInput);
        }
        Ok(WorkspaceEvent { generation, change })
    }

    pub fn generation(&self) -> (generation: u64)
        ensures
            generation == self@.0,
    {
        self.generation
    }

    pub fn change(&self) -> (change: &WorkspaceChange)
        ensures
            *change == self@.1,
    {
        &self.change
    }
}

/// Opaque generation-suppression identity created by the workspace adapter.
pub struct SuppressionToken([u8; 16]);

impl View for SuppressionToken {
    type V = [u8; 16];

    closed spec fn view(&self) -> [u8; 16] {
        self.0
    }
}

impl SuppressionToken {
    pub fn from_random_bytes(bytes: [u8; 16]) -> (token: Self)
        ensures
            token@ == bytes,
    {
        SuppressionToken(bytes)
    }

    pub fn as_bytes(&self) -> (bytes: &[u8; 16])
        ensures
            *bytes == self@,
    {
        &self.0
    }
}

/// Opaque stable-handle identity and generation evidence.
pub struct StableSourceToken(SecretBytes);

impl View for StableSourceToken {
    type V = Seq<u8>;

    closed spec fn view(&self) -> Seq<u8> {
        self.0@
    }
}

impl StableSourceToken {
    /// Keeps bounded evidence.
    pub fn from_bytes(bytes: Vec<u8>) -> (token: Result<Self, HostPortError>)
        ensures
            !rehome::is_bounded(bytes@, MAX_STABLE_SOURCE_TOKEN_BYTES as nat) ==> token == Err::<
                Self,
                HostPortError,
            >(HostPortError::InvalidInput),
            rehome::is_bounded(bytes@, MAX_STABLE_SOURCE_TOKEN_BYTES as nat) ==> match token {
                Ok(token) => token@ == bytes@,
                Err(error) => error == HostPortError::AllocationFailed
                    && memory::bytes_refused(bytes@.len() as int),
            },
    {
        let mut source = bytes;
        match try_rehome_bytes(&mut source, MAX_STABLE_SOURCE_TOKEN_BYTES) {
            Ok(kept) => Ok(StableSourceToken(SecretBytes::new(kept))),
            Err(error) => Err(error),
        }
    }

    pub fn as_bytes(&self) -> (bytes: &[u8])
        ensures
            bytes@ == self@,
    {
        self.0.as_slice()
    }

    /// Bytes that the allocation of the token can hold.
    pub fn retained_capacity(&self) -> (capacity: usize)
        ensures
            capacity >= self@.len(),
    {
        secret_capacity(&self.0)
    }
}

/// Opaque adapter-issued identity for one exact staged materialization.
#[derive(Clone, Copy, PartialEq, Eq, Hash)]
pub struct MaterializationId([u8; 16]);

impl View for MaterializationId {
    type V = [u8; 16];

    closed spec fn view(&self) -> [u8; 16] {
        self.0
    }
}

impl MaterializationId {
    pub fn from_random_bytes(bytes: [u8; 16]) -> (id: Self)
        ensures
            id@ == bytes,
    {
        MaterializationId(bytes)
    }

    pub fn as_bytes(&self) -> (bytes: &[u8; 16])
        ensures
            *bytes == self@,
    {
        &self.0
    }
}

/// Adapter-created private staging place and final publication binding.
pub struct MaterializationTarget {
    id: MaterializationId,
    staging_path: NativePath,
    destination: NativePath,
    suppression: SuppressionToken,
}

/// Contents of a [`MaterializationTarget`].
pub struct TargetModel {
    pub id: MaterializationId,
    pub staging_path: PathModel,
    pub destination: PathModel,
    pub suppression: [u8; 16],
}

impl View for MaterializationTarget {
    type V = TargetModel;

    closed spec fn view(&self) -> TargetModel {
        TargetModel {
            id: self.id,
            staging_path: self.staging_path@,
            destination: self.destination@,
            suppression: self.suppression@,
        }
    }
}

impl MaterializationTarget {
    /// Accepts two distinct places strictly below the workspace root.
    pub fn new(
        lease: &WorkspaceLease,
        id: MaterializationId,
        staging_path: NativePath,
        destination: NativePath,
        suppression: SuppressionToken,
    ) -> (target: Result<Self, HostPortError>)
        ensures
            ({
                let accepted = is_workspace_child(lease@, staging_path@) && is_workspace_child(
                    lease@,
                    destination@,
                ) && !paths::same_path(staging_path@, destination@);
                &&& !accepted ==> target == Err::<Self, HostPortError>(HostPortError::InvalidInput)
                &&& accepted ==> match target {
                    Ok(target) => target@ == (TargetModel {
                        id,
                        staging_path: staging_path@,
                        destination: destination@,
                        suppression: suppression@,
                    }),
                    Err(error) => error == HostPortError::AllocationFailed
                        && (paths::path_refused(staging_path@) || paths::path_refused(destination@)),
                }
            }),
    {
        if !lease.contains_child(&staging_path) || !lease.contains_child(&destination)
            || staging_path.is_same_path(&destination) {
            return Err(HostPortError::InvalidInput);
        }
        let staging_path = match staging_path.try_rehome(MAX_NATIVE_PATH_BYTES) {
            Ok(path) => path,
            Err(error) => return Err(error),
        };
        let destination = match destination.try_rehome(MAX_NATIVE_PATH_BYTES) {
            Ok(path) => path,
            Err(error) => return Err(error),
        };
        Ok(MaterializationTarget { id, staging_path, destination, suppression })
    }

    pub fn id(&self) -> (id: MaterializationId)
        ensures
            id == self@.id,
    {
        self.id
    }

    pub fn staging_path(&self) -> (path: &NativePath)
        ensures
            path@ == self@.staging_path,
    {
        &self.staging_path
    }

    pub fn destination(&self) -> (path: &NativePath)
        ensures
            path@ == self@.destination,
    {
        &self.destination
    }

    pub fn suppression(&self) -> (token: &SuppressionToken)
        ensures
            token@ == self@.suppression,
    {
        &self.suppression
    }
}

/// One atomically published workspace generation awaiting watcher arming.
///
/// The adapter's lifetime guard is held until the watcher is armed.
pub struct PublishedGeneration {
    id: MaterializationId,
    path: NativePath,
    generation: u64,
    suppression: SuppressionToken,
    guarded: bool,
    armed: bool,
}

/// Contents of a [`PublishedGeneration`].
pub struct PublishedModel {
    pub id: MaterializationId,
    pub path: PathModel,
    pub generation: u64,
    pub suppression: [u8; 16],
    pub guarded: bool,
    pub armed: bool,
}

impl View for PublishedGeneration {
    type V = PublishedModel;

    closed spec fn view(&self) -> PublishedModel {
        PublishedModel {
            id: self.id,
            path: self.path@,
            generation: self.generation,
            suppression: self.suppression@,
            guarded: self.guarded,
            armed: self.armed,
        }
    }
}

/// Linear retry authority for a visible publication whose durability is not yet proven.
pub struct PendingPublishedGeneration {
    id: MaterializationId,
    path: NativePath,
    published_path: Option<NativePath>,
    generation: u64,
    suppression: SuppressionToken,
    spent: bool,
}

/// Contents of a [`PendingPublishedGeneration`].
pub struct PendingModel {
    pub id: MaterializationId,
    pub path: PathModel,
    pub generation: u64,
    pub suppression: [u8; 16],
    pub spent: bool,
}

impl View for PendingPublishedGeneration {
    type V = PendingModel;

    closed spec fn view(&self) -> PendingModel {
        PendingModel {
            id: self.id,
            path: self.path@,
            generation: self.generation,
            suppression: self.suppression@,
            spent: self.spent,
        }
    }
}

/// Exact outcome of an atomic materialization publication attempt.
pub enum MaterializationPublication {
    Durable(PublishedGeneration),
    DurabilityPending(PendingPublishedGeneration),
}

impl PendingPublishedGeneration {
    /// A publication holds the path that it hands out until it is spent.
    #[verifier::type_invariant]
    pub closed spec fn path_is_held(self) -> bool {
        !self.spent ==> self.published_path is Some && self.published_path->0@ == self.path@
    }

    /// Records a visible publication of a materialization.
    pub fn from_materialization(
        lease: &WorkspaceLease,
        target: &MaterializationTarget,
        generation: u64,
    ) -> (pending: Result<Self, HostPortError>)
        ensures
            ({
                let accepted = is_workspace_child(lease@, target@.destination) && generation != 0;
                &&& !accepted ==> pending == Err::<Self, HostPortError>(HostPortError::InvalidInput)
                &&& accepted ==> match pending {
                    Ok(pending) => pending@ == (PendingModel {
                        id: target@.id,
                        path: target@.destination,
                        generation,
                        suppression: target@.suppression,
                        spent: false,
                    }),
                    Err(error) => error == HostPortError::AllocationFailed
                        && paths::path_refused(target@.destination),
                }
            }),
    {
        if !lease.contains_child(&target.destination) || generation == 0 {
            return Err(HostPortError::InvalidInput);
        }
        let path = match target.destination.try_copy(MAX_NATIVE_PATH_BYTES) {
            Ok(path) => path,
            Err(error) => return Err(error),
        };
        let published_path = match target.destination.try_copy(MAX_NATIVE_PATH_BYTES) {
            Ok(path) => path,
            Err(error) => return Err(error),
        };
        Ok(
            PendingPublishedGeneration {
                id: target.id,
                path,
                published_path: Some(published_path),
                generation,
                suppression: SuppressionToken::from_random_bytes(*target.suppression.as_bytes()),
                spent: false,
            },
        )
    }

    pub fn id(&self) -> (id: MaterializationId)
        ensures
            id == self@.id,
    {
        self.id
    }

    pub fn path(&self) -> (path: &NativePath)
        ensures
            path@ == self@.path,
    {
        &self.path
    }

    pub fn generation(&self) -> (generation: u64)
        ensures
            generation == self@.generation,
    {
        self.generation
    }

    pub fn suppression(&self) -> (token: &SuppressionToken)
        ensures
            token@ == self@.suppression,
    {
        &self.suppression
    }

    pub fn is_spent(&self) -> (spent: bool)
        ensures
            spent == self@.spent,
    {
        self.spent
    }

    /// Turns the pending publication into the published generation, once and
    /// only in the workspace that it lies in.
    pub fn spend(&mut self, lease: &WorkspaceLease) -> (published: Result<
        PublishedGeneration,
        HostPortError,
    >)
        ensures
            published is Ok <==> !old(self)@.spent && is_workspace_child(lease@, old(self)@.path),
            published is Err ==> published->Err_0 == HostPortError::StaleCapability
                && final(self)@ == old(self)@,
            published is Ok ==> final(self)@ == (PendingModel { spent: true, ..old(self)@ })
                && published->Ok_0@ == (PublishedModel {
                id: old(self)@.id,
                path: old(self)@.path,
                generation: old(self)@.generation,
                suppression: old(self)@.suppression,
                guarded: true,
                armed: false,
            }),
    {
        proof {
            use_type_invariant(&*self);
        }
        if self.spent || !lease.contains_child(&self.path) {
            return Err(HostPortError::StaleCapability);
        }
        self.spent = true;
        let mut published_path: Option<NativePath> = None;
        std::mem::swap(&mut published_path, &mut self.published_path);
        match published_path {
            Some(path) => Ok(
                PublishedGeneration {
                    id: self.id,
                    path,
                    generation: self.generation,
                    suppression: SuppressionToken::from_random_bytes(*self.suppression.as_bytes()),
                    guarded: true,
                    armed: false,
                },
            ),
            None => Err(HostPortError::StaleCapability),
        }
    }
}

impl PublishedGeneration {
    /// Records a durable publication of a materialization.
    pub fn from_materialization(
        lease: &WorkspaceLease,
        target: MaterializationTarget,
        generation: u64,
    ) -> (published: Result<Self, HostPortError>)
        ensures
            published is Ok <==> is_workspace_child(lease@, target@.destination) && generation
                != 0,
            published is Err ==> published->Err_0 == HostPortError::InvalidInput,
            published is Ok ==> published->Ok_0@ == (PublishedModel {
                id: target@.id,
                path: target@.destination,
                generation,
                suppression: target@.suppression,
                guarded: true,
                armed: false,
            }),
    {
        if !lease.contains_child(&target.destination) || generation == 0 {
            return Err(HostPortError::InvalidInput);
        }
        Ok(
            PublishedGeneration {
                id: target.id,
                path: target.destination,
                generation,
                suppression: target.suppression,
                guarded: true,
                armed: false,
            },
        )
    }

    pub fn id(&self) -> (id: MaterializationId)
        ensures
            id == self@.id,
    {
        self.id
    }

    pub fn path(&self) -> (path: &NativePath)
        ensures
            path@ == self@.path,
    {
        &self.path
    }

    pub fn generation(&self) -> (generation: u64)
        ensures
            generation == self@.generation,
    {
        self.generation
    }

    pub fn suppression(&self) -> (token: &SuppressionToken)
        ensures
            token@ == self@.suppression,
    {
        &self.suppression
    }

    pub fn is_armed(&self) -> (armed: bool)
        ensures
            armed == self@.armed,
    {
        self.armed
    }

    /// Records that the watcher is armed and gives up the guard, once.
    pub fn mark_armed(&mut self) -> (marked: Result<(), HostPortError>)
        ensures
            marked is Ok <==> !old(self)@.armed && old(self)@.guarded,
            marked is Err ==> marked->Err_0 == HostPortError::StaleCapability && final(self)@
                == old(self)@,
            marked is Ok ==> final(self)@ == (PublishedModel {
                guarded: false,
                armed: true,
                ..old(self)@
            }),
    {
        if self.armed || !self.guarded {
            return Err(HostPortError::StaleCapability);
        }
        self.guarded = false;
        self.armed = true;
        Ok(())
    }
}

} // verus!
