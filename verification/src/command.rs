//! Requests to the service.
use vstd::prelude::*;

pub mod result;

use crate::bytes::same_bytes;
use crate::error::ServiceError;
use crate::memory;
use crate::memory::text_room;
use crate::ports::paths;
use crate::ports::paths::{NativePath, PathModel};
use crate::ports::workspace;
use crate::ports::workspace::{ExportOverwriteConfirmation, ExportSelection, ImportSelection};
use crate::ports::{NameError, MAX_LOGICAL_COMPONENT_BYTES};
use crate::secret::SecretText;

pub use result::{
    BackupSummary, EntrySummaries, EntrySummary, ExportSummary, MutationSummary, OperationResult,
    SyncSummary, VaultStatus, WorkspaceSummary, MAX_RESULT_ENTRIES,
};

verus! {

/// Requests one bounded logical entry listing.
#[derive(Clone, Copy, Debug, PartialEq, Eq, Structural)]
pub struct ListEntries;

/// Requests authenticated current-vault status.
#[derive(Clone, Copy, Debug, PartialEq, Eq, Structural)]
pub struct VaultStatusRequest;

/// Requests one targeted editor session.
#[derive(Clone, Copy, Debug, PartialEq, Eq, Structural)]
pub struct EditFile;

/// Requests one bounded whole-vault workspace.
#[derive(Clone, Copy, Debug, PartialEq, Eq, Structural)]
pub struct OpenWholeVault;

/// Requests one synchronization.
#[derive(Clone, Copy, Debug, PartialEq, Eq, Structural)]
pub struct SyncVault;

/// Requests one encrypted backup publication.
#[derive(Clone, Copy, Debug, PartialEq, Eq, Structural)]
pub struct BackupVault;

/// Opaque service-owned logical entry identity.
#[derive(Clone, Copy, Debug, Eq, Hash)]
pub struct EntryId([u8; 16]);

impl View for EntryId {
    type V = [u8; 16];

    closed spec fn view(&self) -> [u8; 16] {
        self.0
    }
}

impl PartialEq for EntryId {
    fn eq(&self, other: &Self) -> (same: bool) {
        same_bytes(&self.0, &other.0)
    }
}

impl vstd::std_specs::cmp::PartialEqSpecImpl for EntryId {
    open spec fn obeys_eq_spec() -> bool {
        true
    }

    open spec fn eq_spec(&self, other: &Self) -> bool {
        *self == *other
    }
}

impl EntryId {
    pub fn new(bytes: [u8; 16]) -> (value: Self)
        ensures
            value@ == bytes,
    {
        EntryId(bytes)
    }

    pub fn as_bytes(&self) -> (bytes: &[u8; 16])
        ensures
            *bytes == self@,
    {
        &self.0
    }
}

/// Opaque authenticated snapshot version used for optimistic mutation binding.
#[derive(Clone, Copy, Debug, Eq, Hash)]
pub struct SnapshotVersion([u8; 32]);

impl View for SnapshotVersion {
    type V = [u8; 32];

    closed spec fn view(&self) -> [u8; 32] {
        self.0
    }
}

impl PartialEq for SnapshotVersion {
    fn eq(&self, other: &Self) -> (same: bool) {
        same_bytes(&self.0, &other.0)
    }
}

impl vstd::std_specs::cmp::PartialEqSpecImpl for SnapshotVersion {
    open spec fn obeys_eq_spec() -> bool {
        true
    }

    open spec fn eq_spec(&self, other: &Self) -> bool {
        *self == *other
    }
}

impl SnapshotVersion {
    pub fn new(bytes: [u8; 32]) -> (value: Self)
        ensures
            value@ == bytes,
    {
        SnapshotVersion(bytes)
    }

    pub fn as_bytes(&self) -> (bytes: &[u8; 32])
        ensures
            *bytes == self@,
    {
        &self.0
    }
}

/// Opaque authenticated revision version used for optimistic file binding.
#[derive(Clone, Copy, Debug, Eq, Hash)]
pub struct RevisionVersion([u8; 32]);

impl View for RevisionVersion {
    type V = [u8; 32];

    closed spec fn view(&self) -> [u8; 32] {
        self.0
    }
}

impl PartialEq for RevisionVersion {
    fn eq(&self, other: &Self) -> (same: bool) {
        same_bytes(&self.0, &other.0)
    }
}

impl vstd::std_specs::cmp::PartialEqSpecImpl for RevisionVersion {
    open spec fn obeys_eq_spec() -> bool {
        true
    }

    open spec fn eq_spec(&self, other: &Self) -> bool {
        *self == *other
    }
}

impl RevisionVersion {
    pub fn new(bytes: [u8; 32]) -> (value: Self)
        ensures
            value@ == bytes,
    {
        RevisionVersion(bytes)
    }

    pub fn as_bytes(&self) -> (bytes: &[u8; 32])
        ensures
            *bytes == self@,
    {
        &self.0
    }
}

/// What a logical entry is.
#[derive(Clone, Copy, Debug, PartialEq, Eq, Structural)]
pub enum EntryKind {
    File,
    Directory,
    Tombstone,
}

/// A name as the portable-name rules parsed it, or why they refused it.
pub type ParsedName = Result<String, NameError>;

/// Why a name is refused, with what the portable-name rules made of it.
pub open spec fn name_failure(value: Seq<char>, parsed: ParsedName) -> Option<ServiceError> {
    if paths::text_bytes(value) > MAX_LOGICAL_COMPONENT_BYTES {
        Some(ServiceError::CapacityExceeded)
    } else {
        match parsed {
            Ok(_) => None,
            Err(NameError::AllocationFailed) => Some(ServiceError::AllocationFailed),
            Err(NameError::CapacityExceeded) => Some(ServiceError::CapacityExceeded),
            Err(NameError::Invalid) => Some(ServiceError::InvalidInput),
        }
    }
}

/// Whether the allocator may have refused room for what the portable-name rules
/// made of a name.
pub open spec fn name_refused(parsed: ParsedName) -> bool {
    parsed is Ok && memory::string_refused(paths::text_bytes(parsed->Ok_0@) as int)
}

/// Whether a kept name is what the portable-name rules made of a value, or
/// which failure came of it.
pub open spec fn is_kept_name(
    kept: Result<SecretText, ServiceError>,
    value: Seq<char>,
    parsed: ParsedName,
) -> bool {
    match name_failure(value, parsed) {
        Some(failure) => kept == Err::<SecretText, ServiceError>(failure),
        None => match kept {
            Ok(name) => name@ == parsed->Ok_0@,
            Err(error) => error == ServiceError::AllocationFailed
                && name_refused(parsed),
        },
    }
}

fn copy_name(name: &str) -> (copy: Result<SecretText, ServiceError>)
    ensures
        match copy {
            Ok(copy) => copy@ == name@,
            Err(error) => error == ServiceError::AllocationFailed
                && memory::string_refused(paths::text_bytes(name@) as int),
        },
{
    keep_name(name, text_room(name.as_bytes().len()))
}

/// Keeps a name in its room, or not where the room was refused.
pub fn keep_name(name: &str, room: Option<String>) -> (kept: Result<SecretText, ServiceError>)
    requires
        room is Some ==> room->0@ == Seq::<char>::empty(),
    ensures
        room is None ==> kept == Err::<SecretText, ServiceError>(ServiceError::AllocationFailed),
        room is Some ==> kept is Ok && kept->Ok_0@ == name@,
{
    let mut owned = match room {
        Some(room) => room,
        None => return Err(ServiceError::AllocationFailed),
    };
    owned.append(name);
    assert(owned@ =~= name@);
    Ok(SecretText::new(owned))
}

/// Keeps a name that the portable-name rules accepted.
pub fn validated_name(value: &str, parsed: ParsedName) -> (kept: Result<SecretText, ServiceError>)
    ensures
        is_kept_name(kept, value@, parsed),
{
    if value.as_bytes().len() > MAX_LOGICAL_COMPONENT_BYTES {
        return Err(ServiceError::CapacityExceeded);
    }
    match parsed {
        Ok(name) => copy_name(name.as_str()),
        Err(NameError::AllocationFailed) => Err(ServiceError::AllocationFailed),
        Err(NameError::CapacityExceeded) => Err(ServiceError::CapacityExceeded),
        Err(NameError::Invalid) => Err(ServiceError::InvalidInput),
    }
}

/// Contents of a request to create an entry.
pub struct CreateModel {
    pub expected_snapshot: SnapshotVersion,
    pub parent: EntryId,
    pub name: Seq<char>,
}

struct CreateRequest {
    expected_snapshot: SnapshotVersion,
    parent: EntryId,
    name: SecretText,
}

impl View for CreateRequest {
    type V = CreateModel;

    closed spec fn view(&self) -> CreateModel {
        CreateModel {
            expected_snapshot: self.expected_snapshot,
            parent: self.parent,
            name: self.name@,
        }
    }
}

spec fn create_model(request: Option<CreateRequest>) -> Option<CreateModel> {
    match request {
        Some(request) => Some(request@),
        None => None,
    }
}

/// Validated creation of one empty logical file.
pub struct CreateFile {
    request: Option<CreateRequest>,
}

impl View for CreateFile {
    type V = Option<CreateModel>;

    closed spec fn view(&self) -> Option<CreateModel> {
        create_model(self.request)
    }
}

impl CreateFile {
    /// A request for the executor that says nothing more.
    pub fn unconfigured() -> (request: Self)
        ensures
            request@ is None,
    {
        CreateFile { request: None }
    }

    pub fn try_new(
        expected_snapshot: SnapshotVersion,
        parent: EntryId,
        name: &str,
        parsed: ParsedName,
    ) -> (request: Result<Self, ServiceError>)
        ensures
            match name_failure(name@, parsed) {
                Some(failure) => request == Err::<Self, ServiceError>(failure),
                None => match request {
                    Ok(request) => request@ == Some(
                        CreateModel { expected_snapshot, parent, name: parsed->Ok_0@ },
                    ),
                    Err(error) => error == ServiceError::AllocationFailed
                        && name_refused(parsed),
                },
            },
    {
        match validated_name(name, parsed) {
            Ok(name) => Ok(
                CreateFile { request: Some(CreateRequest { expected_snapshot, parent, name }) },
            ),
            Err(error) => Err(error),
        }
    }

    pub fn into_parts(self) -> (parts: Result<(SnapshotVersion, EntryId, SecretText), ServiceError>)
        ensures
            match self@ {
                Some(request) => parts is Ok && parts->Ok_0.0 == request.expected_snapshot
                    && parts->Ok_0.1 == request.parent && parts->Ok_0.2@ == request.name,
                None => parts == Err::<(SnapshotVersion, EntryId, SecretText), ServiceError>(
                    ServiceError::InvalidInput,
                ),
            },
    {
        match self.request {
            Some(request) => Ok((request.expected_snapshot, request.parent, request.name)),
            None => Err(ServiceError::InvalidInput),
        }
    }

    pub fn is_configured(&self) -> (configured: bool)
        ensures
            configured == (self@ is Some),
    {
        self.request.is_some()
    }
}

/// Validated creation of one logical directory.
pub struct CreateDirectory {
    request: Option<CreateRequest>,
}

impl View for CreateDirectory {
    type V = Option<CreateModel>;

    closed spec fn view(&self) -> Option<CreateModel> {
        create_model(self.request)
    }
}

impl CreateDirectory {
    /// A request for the executor that says nothing more.
    pub fn unconfigured() -> (request: Self)
        ensures
            request@ is None,
    {
        CreateDirectory { request: None }
    }

    pub fn try_new(
        expected_snapshot: SnapshotVersion,
        parent: EntryId,
        name: &str,
        parsed: ParsedName,
    ) -> (request: Result<Self, ServiceError>)
        ensures
            match name_failure(name@, parsed) {
                Some(failure) => request == Err::<Self, ServiceError>(failure),
                None => match request {
                    Ok(request) => request@ == Some(
                        CreateModel { expected_snapshot, parent, name: parsed->Ok_0@ },
                    ),
                    Err(error) => error == ServiceError::AllocationFailed
                        && name_refused(parsed),
                },
            },
    {
        match validated_name(name, parsed) {
            Ok(name) => Ok(
                CreateDirectory { request: Some(CreateRequest { expected_snapshot, parent, name }) },
            ),
            Err(error) => Err(error),
        }
    }

    pub fn into_parts(self) -> (parts: Result<(SnapshotVersion, EntryId, SecretText), ServiceError>)
        ensures
            match self@ {
                Some(request) => parts is Ok && parts->Ok_0.0 == request.expected_snapshot
                    && parts->Ok_0.1 == request.parent && parts->Ok_0.2@ == request.name,
                None => parts == Err::<(SnapshotVersion, EntryId, SecretText), ServiceError>(
                    ServiceError::InvalidInput,
                ),
            },
    {
        match self.request {
            Some(request) => Ok((request.expected_snapshot, request.parent, request.name)),
            None => Err(ServiceError::InvalidInput),
        }
    }

    pub fn is_configured(&self) -> (configured: bool)
        ensures
            configured == (self@ is Some),
    {
        self.request.is_some()
    }
}

/// A bounded import from one private explicit user-selected path.
pub struct ImportFile {
    request: Option<(CreateRequest, ImportSelection)>,
}

impl View for ImportFile {
    type V = Option<(CreateModel, PathModel)>;

    closed spec fn view(&self) -> Option<(CreateModel, PathModel)> {
        match self.request {
            Some((request, selection)) => Some((request@, selection@)),
            None => None,
        }
    }
}

impl ImportFile {
    /// A request for the executor that says nothing more.
    pub fn unconfigured() -> (request: Self)
        ensures
            request@ is None,
    {
        ImportFile { request: None }
    }

    pub fn try_new(
        expected_snapshot: SnapshotVersion,
        parent: EntryId,
        name: &str,
        parsed: ParsedName,
        source: NativePath,
    ) -> (request: Result<Self, ServiceError>)
        ensures
            match (name_failure(name@, parsed), workspace::selection_failure(source@)) {
                (Some(failure), _) => request == Err::<Self, ServiceError>(failure),
                (None, Some(failure)) => request is Err && (request->Err_0 == failure
                    || request->Err_0 == ServiceError::AllocationFailed && name_refused(parsed)),
                (None, None) => match request {
                    Ok(request) => request@ == Some(
                        (
                            CreateModel { expected_snapshot, parent, name: parsed->Ok_0@ },
                            source@,
                        ),
                    ),
                    Err(error) => error == ServiceError::AllocationFailed
                        && (name_refused(parsed) || paths::path_refused(source@)),
                },
            },
    {
        let name = match validated_name(name, parsed) {
            Ok(name) => name,
            Err(error) => return Err(error),
        };
        match ImportSelection::try_new(source) {
            Ok(selection) => Ok(
                ImportFile {
                    request: Some((CreateRequest { expected_snapshot, parent, name }, selection)),
                },
            ),
            Err(error) => Err(error),
        }
    }

    pub fn into_parts(self) -> (parts: Result<
        (SnapshotVersion, EntryId, SecretText, ImportSelection),
        ServiceError,
    >)
        ensures
            match self@ {
                Some((request, path)) => parts is Ok && parts->Ok_0.0 == request.expected_snapshot
                    && parts->Ok_0.1 == request.parent && parts->Ok_0.2@ == request.name
                    && parts->Ok_0.3@ == path,
                None => parts is Err && parts->Err_0 == ServiceError::InvalidInput,
            },
    {
        match self.request {
            Some((request, selection)) => Ok(
                (request.expected_snapshot, request.parent, request.name, selection),
            ),
            None => Err(ServiceError::InvalidInput),
        }
    }

    pub fn is_configured(&self) -> (configured: bool)
        ensures
            configured == (self@ is Some),
    {
        self.request.is_some()
    }
}

struct ExportRequest {
    expected_snapshot: SnapshotVersion,
    entry: EntryId,
    expected_revision: RevisionVersion,
    selection: ExportSelection,
}

/// Contents of an [`ExportFile`].
pub struct ExportModel {
    pub expected_snapshot: SnapshotVersion,
    pub entry: EntryId,
    pub expected_revision: RevisionVersion,
    pub destination: PathModel,
    pub overwrite: ExportOverwriteConfirmation,
}

/// Validated exact-revision export to one explicit external destination.
pub struct ExportFile {
    request: Option<ExportRequest>,
}

impl View for ExportFile {
    type V = Option<ExportModel>;

    closed spec fn view(&self) -> Option<ExportModel> {
        match self.request {
            Some(request) => Some(
                ExportModel {
                    expected_snapshot: request.expected_snapshot,
                    entry: request.entry,
                    expected_revision: request.expected_revision,
                    destination: request.selection@.0,
                    overwrite: request.selection@.1,
                },
            ),
            None => None,
        }
    }
}

impl ExportFile {
    /// A request for the executor that says nothing more.
    pub fn unconfigured() -> (request: Self)
        ensures
            request@ is None,
    {
        ExportFile { request: None }
    }

    pub fn try_new(
        expected_snapshot: SnapshotVersion,
        entry: EntryId,
        expected_revision: RevisionVersion,
        destination: NativePath,
        overwrite: ExportOverwriteConfirmation,
    ) -> (request: Result<Self, ServiceError>)
        ensures
            match workspace::selection_failure(destination@) {
                Some(failure) => request == Err::<Self, ServiceError>(failure),
                None => match request {
                    Ok(request) => request@ == Some(
                        ExportModel {
                            expected_snapshot,
                            entry,
                            expected_revision,
                            destination: destination@,
                            overwrite,
                        },
                    ),
                    Err(error) => error == ServiceError::AllocationFailed
                        && paths::path_refused(destination@),
                },
            },
    {
        match ExportSelection::try_new(destination, overwrite) {
            Ok(selection) => Ok(
                ExportFile {
                    request: Some(
                        ExportRequest { expected_snapshot, entry, expected_revision, selection },
                    ),
                },
            ),
            Err(error) => Err(error),
        }
    }

    pub fn into_parts(self) -> (parts: Result<
        (SnapshotVersion, EntryId, RevisionVersion, ExportSelection),
        ServiceError,
    >)
        ensures
            match self@ {
                Some(request) => parts is Ok && parts->Ok_0.0 == request.expected_snapshot
                    && parts->Ok_0.1 == request.entry && parts->Ok_0.2 == request.expected_revision
                    && parts->Ok_0.3@ == (request.destination, request.overwrite),
                None => parts is Err && parts->Err_0 == ServiceError::InvalidInput,
            },
    {
        match self.request {
            Some(request) => Ok(
                (
                    request.expected_snapshot,
                    request.entry,
                    request.expected_revision,
                    request.selection,
                ),
            ),
            None => Err(ServiceError::InvalidInput),
        }
    }

    pub fn is_configured(&self) -> (configured: bool)
        ensures
            configured == (self@ is Some),
    {
        self.request.is_some()
    }
}

/// Whether a kind and a revision belong together: a file has a revision, a
/// directory has none.
pub open spec fn is_entry_binding(kind: EntryKind, revision: Option<RevisionVersion>) -> bool {
    kind is File && revision is Some || kind is Directory && revision is None
}

/// Checks that a kind and a revision belong together.
pub fn validate_entry_binding(kind: EntryKind, revision: &Option<RevisionVersion>) -> (validated:
    Result<(), ServiceError>)
    ensures
        validated == if is_entry_binding(kind, *revision) {
            Ok(())
        } else {
            Err(ServiceError::InvalidInput)
        },
{
    match (kind, revision) {
        (EntryKind::File, Some(_)) => Ok(()),
        (EntryKind::Directory, None) => Ok(()),
        _ => Err(ServiceError::InvalidInput),
    }
}

/// What a relocation is bound to and where it goes.
pub struct RelocateParts {
    pub expected_snapshot: SnapshotVersion,
    pub entry: EntryId,
    pub expected_parent: EntryId,
    pub expected_name: SecretText,
    pub expected_kind: EntryKind,
    pub expected_revision: Option<RevisionVersion>,
    pub new_parent: EntryId,
    pub new_name: SecretText,
}

/// Contents of a relocation.
pub struct RelocateModel {
    pub expected_snapshot: SnapshotVersion,
    pub entry: EntryId,
    pub expected_parent: EntryId,
    pub expected_name: Seq<char>,
    pub expected_kind: EntryKind,
    pub expected_revision: Option<RevisionVersion>,
    pub new_parent: EntryId,
    pub new_name: Seq<char>,
}

impl View for RelocateParts {
    type V = RelocateModel;

    open spec fn view(&self) -> RelocateModel {
        RelocateModel {
            expected_snapshot: self.expected_snapshot,
            entry: self.entry,
            expected_parent: self.expected_parent,
            expected_name: self.expected_name@,
            expected_kind: self.expected_kind,
            expected_revision: self.expected_revision,
            new_parent: self.new_parent,
            new_name: self.new_name@,
        }
    }
}

/// Contents of a relocation that may be unconfigured.
pub open spec fn relocate_model(request: Option<RelocateParts>) -> Option<RelocateModel> {
    match request {
        Some(request) => Some(request@),
        None => None,
    }
}

/// Validated rename that retains the authenticated parent.
pub struct RenameEntry {
    request: Option<RelocateParts>,
}

impl View for RenameEntry {
    type V = Option<RelocateModel>;

    closed spec fn view(&self) -> Option<RelocateModel> {
        relocate_model(self.request)
    }
}

impl RenameEntry {
    /// A request for the executor that says nothing more.
    pub fn unconfigured() -> (request: Self)
        ensures
            request@ is None,
    {
        RenameEntry { request: None }
    }

    pub fn try_new(
        expected_snapshot: SnapshotVersion,
        entry: EntryId,
        expected_parent: EntryId,
        expected_name: &str,
        parsed_expected: ParsedName,
        expected_kind: EntryKind,
        expected_revision: Option<RevisionVersion>,
        new_name: &str,
        parsed_new: ParsedName,
    ) -> (request: Result<Self, ServiceError>)
        ensures
            !is_entry_binding(expected_kind, expected_revision) ==> request == Err::<
                Self,
                ServiceError,
            >(ServiceError::InvalidInput),
            is_entry_binding(expected_kind, expected_revision) ==> match (
                name_failure(expected_name@, parsed_expected),
                name_failure(new_name@, parsed_new),
            ) {
                (Some(failure), _) => request == Err::<Self, ServiceError>(failure),
                (None, Some(failure)) => request is Err && (request->Err_0 == failure
                    || request->Err_0 == ServiceError::AllocationFailed && name_refused(parsed_expected)),
                (None, None) => match request {
                    Ok(request) => request@ == Some(
                        RelocateModel {
                            expected_snapshot,
                            entry,
                            expected_parent,
                            expected_name: parsed_expected->Ok_0@,
                            expected_kind,
                            expected_revision,
                            new_parent: expected_parent,
                            new_name: parsed_new->Ok_0@,
                        },
                    ),
                    Err(error) => error == ServiceError::AllocationFailed
                        && (name_refused(parsed_expected) || name_refused(parsed_new)),
                },
            },
    {
        if let Err(error) = validate_entry_binding(expected_kind, &expected_revision) {
            return Err(error);
        }
        let expected_name = match validated_name(expected_name, parsed_expected) {
            Ok(name) => name,
            Err(error) => return Err(error),
        };
        let new_name = match validated_name(new_name, parsed_new) {
            Ok(name) => name,
            Err(error) => return Err(error),
        };
        Ok(
            RenameEntry {
                request: Some(
                    RelocateParts {
                        expected_snapshot,
                        entry,
                        expected_parent,
                        expected_name,
                        expected_kind,
                        expected_revision,
                        new_parent: expected_parent,
                        new_name,
                    },
                ),
            },
        )
    }

    pub fn into_parts(self) -> (parts: Result<RelocateParts, ServiceError>)
        ensures
            match self@ {
                Some(request) => parts is Ok && parts->Ok_0@ == request,
                None => parts == Err::<RelocateParts, ServiceError>(ServiceError::InvalidInput),
            },
    {
        match self.request {
            Some(request) => Ok(request),
            None => Err(ServiceError::InvalidInput),
        }
    }

    pub fn is_configured(&self) -> (configured: bool)
        ensures
            configured == (self@ is Some),
    {
        self.request.is_some()
    }
}

/// Validated move that retains the authenticated logical name.
pub struct MoveEntry {
    request: Option<RelocateParts>,
}

impl View for MoveEntry {
    type V = Option<RelocateModel>;

    closed spec fn view(&self) -> Option<RelocateModel> {
        relocate_model(self.request)
    }
}

impl MoveEntry {
    /// A request for the executor that says nothing more.
    pub fn unconfigured() -> (request: Self)
        ensures
            request@ is None,
    {
        MoveEntry { request: None }
    }

    pub fn try_new(
        expected_snapshot: SnapshotVersion,
        entry: EntryId,
        expected_parent: EntryId,
        expected_name: &str,
        parsed_expected: ParsedName,
        expected_kind: EntryKind,
        expected_revision: Option<RevisionVersion>,
        new_parent: EntryId,
    ) -> (request: Result<Self, ServiceError>)
        ensures
            !is_entry_binding(expected_kind, expected_revision) ==> request == Err::<
                Self,
                ServiceError,
            >(ServiceError::InvalidInput),
            is_entry_binding(expected_kind, expected_revision) ==> match name_failure(
                expected_name@,
                parsed_expected,
            ) {
                Some(failure) => request == Err::<Self, ServiceError>(failure),
                None => match request {
                    Ok(request) => request@ == Some(
                        RelocateModel {
                            expected_snapshot,
                            entry,
                            expected_parent,
                            expected_name: parsed_expected->Ok_0@,
                            expected_kind,
                            expected_revision,
                            new_parent,
                            new_name: parsed_expected->Ok_0@,
                        },
                    ),
                    Err(error) => error == ServiceError::AllocationFailed
                        && name_refused(parsed_expected),
                },
            },
    {
        if let Err(error) = validate_entry_binding(expected_kind, &expected_revision) {
            return Err(error);
        }
        let expected_name = match validated_name(expected_name, parsed_expected) {
            Ok(name) => name,
            Err(error) => return Err(error),
        };
        let new_name = match copy_name(expected_name.as_str()) {
            Ok(name) => name,
            Err(error) => return Err(error),
        };
        Ok(
            MoveEntry {
                request: Some(
                    RelocateParts {
                        expected_snapshot,
                        entry,
                        expected_parent,
                        expected_name,
                        expected_kind,
                        expected_revision,
                        new_parent,
                        new_name,
                    },
                ),
            },
        )
    }

    pub fn into_parts(self) -> (parts: Result<RelocateParts, ServiceError>)
        ensures
            match self@ {
                Some(request) => parts is Ok && parts->Ok_0@ == request,
                None => parts == Err::<RelocateParts, ServiceError>(ServiceError::InvalidInput),
            },
    {
        match self.request {
            Some(request) => Ok(request),
            None => Err(ServiceError::InvalidInput),
        }
    }

    pub fn is_configured(&self) -> (configured: bool)
        ensures
            configured == (self@ is Some),
    {
        self.request.is_some()
    }
}

/// What a deletion is bound to.
pub struct DeleteParts {
    pub expected_snapshot: SnapshotVersion,
    pub entry: EntryId,
    pub expected_parent: EntryId,
    pub expected_name: SecretText,
    /// The revision of a file; a directory has none.
    pub expected_revision: Option<RevisionVersion>,
}

/// Contents of a deletion.
pub struct DeleteModel {
    pub expected_snapshot: SnapshotVersion,
    pub entry: EntryId,
    pub expected_parent: EntryId,
    pub expected_name: Seq<char>,
    pub expected_revision: Option<RevisionVersion>,
}

impl View for DeleteParts {
    type V = DeleteModel;

    open spec fn view(&self) -> DeleteModel {
        DeleteModel {
            expected_snapshot: self.expected_snapshot,
            entry: self.entry,
            expected_parent: self.expected_parent,
            expected_name: self.expected_name@,
            expected_revision: self.expected_revision,
        }
    }
}

/// Validated deletion with exact authenticated kind and revision binding.
pub struct DeleteEntry {
    request: Option<DeleteParts>,
}

impl View for DeleteEntry {
    type V = Option<DeleteModel>;

    closed spec fn view(&self) -> Option<DeleteModel> {
        match self.request {
            Some(request) => Some(request@),
            None => None,
        }
    }
}

impl DeleteEntry {
    /// A request for the executor that says nothing more.
    pub fn unconfigured() -> (request: Self)
        ensures
            request@ is None,
    {
        DeleteEntry { request: None }
    }

    fn try_delete(
        expected_snapshot: SnapshotVersion,
        entry: EntryId,
        expected_parent: EntryId,
        expected_name: &str,
        parsed: ParsedName,
        expected_revision: Option<RevisionVersion>,
    ) -> (request: Result<Self, ServiceError>)
        ensures
            match name_failure(expected_name@, parsed) {
                Some(failure) => request == Err::<Self, ServiceError>(failure),
                None => match request {
                    Ok(request) => request@ == Some(
                        DeleteModel {
                            expected_snapshot,
                            entry,
                            expected_parent,
                            expected_name: parsed->Ok_0@,
                            expected_revision,
                        },
                    ),
                    Err(error) => error == ServiceError::AllocationFailed
                        && name_refused(parsed),
                },
            },
    {
        match validated_name(expected_name, parsed) {
            Ok(expected_name) => Ok(
                DeleteEntry {
                    request: Some(
                        DeleteParts {
                            expected_snapshot,
                            entry,
                            expected_parent,
                            expected_name,
                            expected_revision,
                        },
                    ),
                },
            ),
            Err(error) => Err(error),
        }
    }

    pub fn try_file(
        expected_snapshot: SnapshotVersion,
        entry: EntryId,
        expected_parent: EntryId,
        expected_name: &str,
        parsed: ParsedName,
        expected_revision: RevisionVersion,
    ) -> (request: Result<Self, ServiceError>)
        ensures
            match name_failure(expected_name@, parsed) {
                Some(failure) => request == Err::<Self, ServiceError>(failure),
                None => match request {
                    Ok(request) => request@ == Some(
                        DeleteModel {
                            expected_snapshot,
                            entry,
                            expected_parent,
                            expected_name: parsed->Ok_0@,
                            expected_revision: Some(expected_revision),
                        },
                    ),
                    Err(error) => error == ServiceError::AllocationFailed
                        && name_refused(parsed),
                },
            },
    {
        DeleteEntry::try_delete(
            expected_snapshot,
            entry,
            expected_parent,
            expected_name,
            parsed,
            Some(expected_revision),
        )
    }

    pub fn try_directory(
        expected_snapshot: SnapshotVersion,
        entry: EntryId,
        expected_parent: EntryId,
        expected_name: &str,
        parsed: ParsedName,
    ) -> (request: Result<Self, ServiceError>)
        ensures
            match name_failure(expected_name@, parsed) {
                Some(failure) => request == Err::<Self, ServiceError>(failure),
                None => match request {
                    Ok(request) => request@ == Some(
                        DeleteModel {
                            expected_snapshot,
                            entry,
                            expected_parent,
                            expected_name: parsed->Ok_0@,
                            expected_revision: None,
                        },
                    ),
                    Err(error) => error == ServiceError::AllocationFailed
                        && name_refused(parsed),
                },
            },
    {
        DeleteEntry::try_delete(
            expected_snapshot,
            entry,
            expected_parent,
            expected_name,
            parsed,
            None,
        )
    }

    pub fn into_parts(self) -> (parts: Result<DeleteParts, ServiceError>)
        ensures
            match self@ {
                Some(request) => parts is Ok && parts->Ok_0@ == request,
                None => parts == Err::<DeleteParts, ServiceError>(ServiceError::InvalidInput),
            },
    {
        match self.request {
            Some(request) => Ok(request),
            None => Err(ServiceError::InvalidInput),
        }
    }

    pub fn is_configured(&self) -> (configured: bool)
        ensures
            configured == (self@ is Some),
    {
        self.request.is_some()
    }
}

/// One ordinary service operation.
///
/// Recovery, unlock, rekey and freshness flows use methods of their own.
#[non_exhaustive]
pub enum Command {
    List(ListEntries),
    Status(VaultStatusRequest),
    CreateFile(CreateFile),
    CreateDirectory(CreateDirectory),
    ImportFile(ImportFile),
    ExportFile(ExportFile),
    EditFile(EditFile),
    RenameEntry(RenameEntry),
    MoveEntry(MoveEntry),
    DeleteEntry(DeleteEntry),
    OpenVault(OpenWholeVault),
    Sync(SyncVault),
    Backup(BackupVault),
}

/// Commands that count as activity of the user.
pub open spec fn resets_inactivity(command: Command) -> bool {
    match command {
        Command::CreateFile(_)
        | Command::CreateDirectory(_)
        | Command::ImportFile(_)
        | Command::EditFile(_)
        | Command::RenameEntry(_)
        | Command::MoveEntry(_)
        | Command::DeleteEntry(_) => true,
        _ => false,
    }
}

/// Who carries a command out.
#[derive(Clone, Copy, Debug, PartialEq, Eq, Structural)]
pub enum Dispatch {
    ListEntries,
    Status,
    CreateFile,
    CreateDirectory,
    ImportFile,
    ExportFile,
    Rename,
    MoveEntry,
    DeleteEntry,
    /// The executor of the service.
    Executor,
}

/// Who carries a command out. A configured one that the service knows is
/// carried out by the service itself where it has a session.
pub open spec fn dispatch_of(command: Command, has_session: bool) -> Dispatch {
    if !has_session {
        Dispatch::Executor
    } else {
        match command {
            Command::List(_) => Dispatch::ListEntries,
            Command::Status(_) => Dispatch::Status,
            Command::CreateFile(request) => if request@ is Some {
                Dispatch::CreateFile
            } else {
                Dispatch::Executor
            },
            Command::CreateDirectory(request) => if request@ is Some {
                Dispatch::CreateDirectory
            } else {
                Dispatch::Executor
            },
            Command::ImportFile(request) => if request@ is Some {
                Dispatch::ImportFile
            } else {
                Dispatch::Executor
            },
            Command::ExportFile(request) => if request@ is Some {
                Dispatch::ExportFile
            } else {
                Dispatch::Executor
            },
            Command::RenameEntry(request) => if request@ is Some {
                Dispatch::Rename
            } else {
                Dispatch::Executor
            },
            Command::MoveEntry(request) => if request@ is Some {
                Dispatch::MoveEntry
            } else {
                Dispatch::Executor
            },
            Command::DeleteEntry(request) => if request@ is Some {
                Dispatch::DeleteEntry
            } else {
                Dispatch::Executor
            },
            _ => Dispatch::Executor,
        }
    }
}

/// How a command is shown. Nothing that the user entered is part of it.
pub open spec fn command_label(command: Command) -> Seq<char> {
    match command {
        Command::List(_) => "Command::List"@,
        Command::Status(_) => "Command::Status"@,
        Command::CreateFile(_) => "Command::CreateFile(<redacted>)"@,
        Command::CreateDirectory(_) => "Command::CreateDirectory(<redacted>)"@,
        Command::ImportFile(_) => "Command::ImportFile(<redacted>)"@,
        Command::ExportFile(_) => "Command::ExportFile(<redacted>)"@,
        Command::EditFile(_) => "Command::EditFile"@,
        Command::RenameEntry(_) => "Command::RenameEntry(<redacted>)"@,
        Command::MoveEntry(_) => "Command::MoveEntry(<redacted>)"@,
        Command::DeleteEntry(_) => "Command::DeleteEntry(<redacted>)"@,
        Command::OpenVault(_) => "Command::OpenVault"@,
        Command::Sync(_) => "Command::Sync"@,
        Command::Backup(_) => "Command::Backup"@,
    }
}

impl Command {
    /// Whether this command counts as activity of the user.
    pub fn resets_inactivity(&self) -> (resets: bool)
        ensures
            resets == resets_inactivity(*self),
    {
        match self {
            Command::CreateFile(_)
            | Command::CreateDirectory(_)
            | Command::ImportFile(_)
            | Command::EditFile(_)
            | Command::RenameEntry(_)
            | Command::MoveEntry(_)
            | Command::DeleteEntry(_) => true,
            _ => false,
        }
    }

    /// Who carries this command out.
    pub fn dispatch(&self, has_session: bool) -> (dispatch: Dispatch)
        ensures
            dispatch == dispatch_of(*self, has_session),
    {
        if !has_session {
            return Dispatch::Executor;
        }
        let (configured, dispatch): (bool, Dispatch) = match self {
            Command::List(_) => (true, Dispatch::ListEntries),
            Command::Status(_) => (true, Dispatch::Status),
            Command::CreateFile(request) => (request.is_configured(), Dispatch::CreateFile),
            Command::CreateDirectory(request) => (
                request.is_configured(),
                Dispatch::CreateDirectory,
            ),
            Command::ImportFile(request) => (request.is_configured(), Dispatch::ImportFile),
            Command::ExportFile(request) => (request.is_configured(), Dispatch::ExportFile),
            Command::RenameEntry(request) => (request.is_configured(), Dispatch::Rename),
            Command::MoveEntry(request) => (request.is_configured(), Dispatch::MoveEntry),
            Command::DeleteEntry(request) => (request.is_configured(), Dispatch::DeleteEntry),
            _ => (false, Dispatch::Executor),
        };
        if configured {
            dispatch
        } else {
            Dispatch::Executor
        }
    }

    /// How this command is shown.
    pub fn label(&self) -> (label: &'static str)
        ensures
            label@ == command_label(*self),
    {
        match self {
            Command::List(_) => "Command::List",
            Command::Status(_) => "Command::Status",
            Command::CreateFile(_) => "Command::CreateFile(<redacted>)",
            Command::CreateDirectory(_) => "Command::CreateDirectory(<redacted>)",
            Command::ImportFile(_) => "Command::ImportFile(<redacted>)",
            Command::ExportFile(_) => "Command::ExportFile(<redacted>)",
            Command::EditFile(_) => "Command::EditFile",
            Command::RenameEntry(_) => "Command::RenameEntry(<redacted>)",
            Command::MoveEntry(_) => "Command::MoveEntry(<redacted>)",
            Command::DeleteEntry(_) => "Command::DeleteEntry(<redacted>)",
            Command::OpenVault(_) => "Command::OpenVault",
            Command::Sync(_) => "Command::Sync",
            Command::Backup(_) => "Command::Backup",
        }
    }
}

} // verus!
