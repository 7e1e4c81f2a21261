//! Values that a lease of the local vault hands to the service.
use vstd::prelude::*;

use crate::bytes::same_bytes;
use crate::command::{
    EntryKind, EntrySummaries, EntrySummary, RevisionVersion, SnapshotVersion, MAX_RESULT_ENTRIES,
};
use crate::command::result;
use crate::command::result::EntryModel;
use crate::error::ServiceError;
use crate::memory;
use crate::ports::paths;
use crate::ports::{NameError, MAX_LOGICAL_COMPONENT_BYTES};
use crate::secret::SecretText;
use crate::session::errors;
use crate::session::errors::{map_core_repository_error, RepositoryPortError};

verus! {

/// Opaque local repository entry identity.
#[derive(Clone, Copy, Debug, Eq, Hash)]
pub struct LocalEntryId([u8; 16]);

impl View for LocalEntryId {
    type V = [u8; 16];

    closed spec fn view(&self) -> [u8; 16] {
        self.0
    }
}

impl PartialEq for LocalEntryId {
    fn eq(&self, other: &Self) -> (same: bool) {
        same_bytes(&self.0, &other.0)
    }
}

impl vstd::std_specs::cmp::PartialEqSpecImpl for LocalEntryId {
    open spec fn obeys_eq_spec() -> bool {
        true
    }

    open spec fn eq_spec(&self, other: &Self) -> bool {
        *self == *other
    }
}

impl LocalEntryId {
    pub fn from_bytes(bytes: [u8; 16]) -> (id: Self)
        ensures
            id@ == bytes,
    {
        LocalEntryId(bytes)
    }

    pub fn as_bytes(&self) -> (bytes: &[u8; 16])
        ensures
            *bytes == self@,
    {
        &self.0
    }
}

/// What a local entry is.
#[derive(Clone, Copy, Debug, PartialEq, Eq, Structural)]
pub enum LocalEntryKind {
    File,
    Directory,
    Tombstone,
}

/// The kind that a listing shows.
pub open spec fn shown_kind(kind: LocalEntryKind) -> EntryKind {
    match kind {
        LocalEntryKind::File => EntryKind::File,
        LocalEntryKind::Directory => EntryKind::Directory,
        LocalEntryKind::Tombstone => EntryKind::Tombstone,
    }
}

impl LocalEntryKind {
    /// The kind that a listing shows.
    pub fn shown(self) -> (kind: EntryKind)
        ensures
            kind == shown_kind(self),
    {
        match self {
            LocalEntryKind::File => EntryKind::File,
            LocalEntryKind::Directory => EntryKind::Directory,
            LocalEntryKind::Tombstone => EntryKind::Tombstone,
        }
    }
}

/// The kind of an entry that a request may be bound to: a tombstone is none.
pub fn local_kind(kind: EntryKind) -> (local: Result<LocalEntryKind, ServiceError>)
    ensures
        match local {
            Ok(local) => shown_kind(local) == kind && !(kind is Tombstone),
            Err(error) => kind is Tombstone && error == ServiceError::InvalidInput,
        },
{
    match kind {
        EntryKind::File => Ok(LocalEntryKind::File),
        EntryKind::Directory => Ok(LocalEntryKind::Directory),
        EntryKind::Tombstone => Err(ServiceError::InvalidInput),
    }
}

/// One listed entry.
pub struct LocalListedEntry {
    id: LocalEntryId,
    parent: LocalEntryId,
    name: SecretText,
    kind: LocalEntryKind,
    revision: Option<[u8; 32]>,
}

/// Contents of a [`LocalListedEntry`].
pub struct ListedModel {
    pub id: [u8; 16],
    pub parent: [u8; 16],
    pub name: Seq<char>,
    pub kind: LocalEntryKind,
    pub revision: Option<[u8; 32]>,
}

impl View for LocalListedEntry {
    type V = ListedModel;

    closed spec fn view(&self) -> ListedModel {
        ListedModel {
            id: self.id@,
            parent: self.parent@,
            name: self.name@,
            kind: self.kind,
            revision: self.revision,
        }
    }
}

impl LocalListedEntry {
    pub fn new(
        id: LocalEntryId,
        parent: LocalEntryId,
        name: SecretText,
        kind: LocalEntryKind,
        revision: Option<[u8; 32]>,
    ) -> (entry: Self)
        ensures
            entry@ == (ListedModel { id: id@, parent: parent@, name: name@, kind, revision }),
    {
        LocalListedEntry { id, parent, name, kind, revision }
    }

    pub fn id(&self) -> (id: LocalEntryId)
        ensures
            id@ == self@.id,
    {
        self.id
    }

    pub fn parent_id(&self) -> (id: LocalEntryId)
        ensures
            id@ == self@.parent,
    {
        self.parent
    }

    pub fn name(&self) -> (name: &str)
        ensures
            name@ == self@.name,
    {
        self.name.as_str()
    }

    pub fn kind(&self) -> (kind: LocalEntryKind)
        ensures
            kind == self@.kind,
    {
        self.kind
    }

    pub fn revision_id(&self) -> (revision: Option<[u8; 32]>)
        ensures
            revision == self@.revision,
    {
        self.revision
    }
}

/// What a listing shows of an entry.
pub open spec fn summary_of(entry: ListedModel) -> EntryModel {
    EntryModel {
        opaque_id: entry.id,
        parent_id: entry.parent,
        name: entry.name,
        kind: shown_kind(entry.kind),
        revision_id: entry.revision,
    }
}

/// What a listing shows of the first entries.
pub open spec fn shown_entries(entries: Seq<ListedModel>, count: int) -> Seq<EntryModel> {
    entries.take(count).map_values(|entry: ListedModel| summary_of(entry))
}

/// Whether the allocator may have refused a listing room for these entries, at first
/// or for one of them.
pub open spec fn listing_refused(entries: Seq<ListedModel>) -> bool {
    ||| memory::vec_refused(
        Seq::<EntrySummary>::empty(),
        result::first_room(entries.len() as int),
    )
    ||| exists|count: int|
        0 <= count < entries.len() && result::entry_refused(#[trigger] shown_entries(entries, count))
}

/// Listed entries as values.
pub open spec fn listed_models(entries: Seq<LocalListedEntry>) -> Seq<ListedModel> {
    entries.map_values(|entry: LocalListedEntry| entry@)
}

/// Every entry that a lease listed.
pub struct LocalEntryList {
    entries: Vec<LocalListedEntry>,
}

impl View for LocalEntryList {
    type V = Seq<ListedModel>;

    closed spec fn view(&self) -> Seq<ListedModel> {
        listed_models(self.entries@)
    }
}

impl LocalEntryList {
    pub fn empty() -> (list: Self)
        ensures
            list@ == Seq::<ListedModel>::empty(),
    {
        let list = LocalEntryList { entries: Vec::new() };
        assert(list@ =~= Seq::<ListedModel>::empty());
        list
    }

    pub fn of(entries: Vec<LocalListedEntry>) -> (list: Self)
        ensures
            list@ == listed_models(entries@),
    {
        LocalEntryList { entries }
    }

    pub fn len(&self) -> (length: usize)
        ensures
            length == self@.len(),
    {
        self.entries.len()
    }

    pub fn is_empty(&self) -> (empty: bool)
        ensures
            empty == (self@.len() == 0),
    {
        self.entries.len() == 0
    }

    pub fn get(&self, index: usize) -> (entry: Option<&LocalListedEntry>)
        ensures
            match entry {
                Some(entry) => index < self@.len() && entry@ == self@[index as int],
                None => index >= self@.len(),
            },
    {
        if index < self.entries.len() {
            Some(&self.entries[index])
        } else {
            None
        }
    }
}

/// Fixed-size coherent status projection for one authenticated generation.
pub struct LocalAuthenticatedStatus {
    snapshot: [u8; 32],
    root: LocalEntryId,
    entry_count: usize,
}

/// Contents of a [`LocalAuthenticatedStatus`].
pub struct LocalStatusModel {
    pub snapshot: [u8; 32],
    pub root: [u8; 16],
    pub entry_count: nat,
}

impl View for LocalAuthenticatedStatus {
    type V = LocalStatusModel;

    closed spec fn view(&self) -> LocalStatusModel {
        LocalStatusModel {
            snapshot: self.snapshot,
            root: self.root@,
            entry_count: self.entry_count as nat,
        }
    }
}

impl LocalAuthenticatedStatus {
    pub fn snapshot_id(&self) -> (snapshot: [u8; 32])
        ensures
            snapshot == self@.snapshot,
    {
        self.snapshot
    }

    pub fn root_entry_id(&self) -> (root: LocalEntryId)
        ensures
            root@ == self@.root,
    {
        self.root
    }

    pub fn entry_count(&self) -> (count: usize)
        ensures
            count == self@.entry_count,
    {
        self.entry_count
    }
}

/// One bounded, generation-coherent authenticated observation of the local vault.
pub struct LocalAuthenticatedView {
    snapshot: [u8; 32],
    root: LocalEntryId,
    entries: Vec<LocalListedEntry>,
}

/// Contents of a [`LocalAuthenticatedView`].
pub struct LocalViewModel {
    pub snapshot: [u8; 32],
    pub root: [u8; 16],
    pub entries: Seq<ListedModel>,
}

impl View for LocalAuthenticatedView {
    type V = LocalViewModel;

    closed spec fn view(&self) -> LocalViewModel {
        LocalViewModel {
            snapshot: self.snapshot,
            root: self.root@,
            entries: listed_models(self.entries@),
        }
    }
}

impl LocalAuthenticatedView {
    pub fn snapshot_id(&self) -> (snapshot: [u8; 32])
        ensures
            snapshot == self@.snapshot,
    {
        self.snapshot
    }

    pub fn root_entry_id(&self) -> (root: LocalEntryId)
        ensures
            root@ == self@.root,
    {
        self.root
    }

    pub fn entry_count(&self) -> (count: usize)
        ensures
            count == self@.entries.len(),
    {
        self.entries.len()
    }

    /// The listing of this view, in its order.
    pub fn into_entry_summaries(self) -> (summaries: Result<EntrySummaries, ServiceError>)
        ensures
            match summaries {
                Ok(summaries) => self@.entries.len() <= MAX_RESULT_ENTRIES && summaries@
                    == self@.entries.map_values(|entry: ListedModel| summary_of(entry)),
                Err(error) => error == ServiceError::AllocationFailed && listing_refused(
                    self@.entries,
                ) || error == ServiceError::CapacityExceeded && self@.entries.len()
                    > MAX_RESULT_ENTRIES,
            },
    {
        let ghost all = listed_models(self.entries@);
        let ghost count = self.entries@.len();
        let mut summaries = match EntrySummaries::with_room_for(self.entries.len()) {
            Ok(summaries) => summaries,
            Err(error) => return Err(error),
        };
        let mut forward = self.entries;
        let mut rest: Vec<LocalListedEntry> = Vec::new();
        while forward.len() > 0
            invariant
                forward@.len() + rest@.len() == count,
                count == all.len(),
                listed_models(forward@) == all.take(forward@.len() as int),
                listed_models(rest@) == all.skip(forward@.len() as int).reverse(),
            decreases forward@.len(),
        {
            let ghost before = forward@;
            let ghost kept = rest@;
            match forward.pop() {
                Some(entry) => {
                    assert(entry@ == listed_models(before)[before.len() - 1]);
                    rest.push(entry);
                    assert(listed_models(forward@) =~= listed_models(before).drop_last());
                    assert(listed_models(rest@) =~= listed_models(kept).push(entry@));
                    assert(all.skip(forward@.len() as int).reverse() =~= all.skip(
                        before.len() as int,
                    ).reverse().push(entry@));
                },
                None => {},
            }
        }
        let ghost reversed = rest@;
        assert(all.skip(0) =~= all);
        let mut taken: usize = 0;
        while rest.len() > 0
            invariant
                taken + rest@.len() == count,
                count == all.len(),
                taken <= MAX_RESULT_ENTRIES,
                reversed.len() == count,
                listed_models(reversed) == all.reverse(),
                rest@ == reversed.take(count - taken),
                summaries@ == all.take(taken as int).map_values(
                    |entry: ListedModel| summary_of(entry),
                ),
                all == self@.entries,
            decreases rest@.len(),
        {
            match rest.pop() {
                None => return Ok(summaries),
                Some(entry) => {
                    assert(entry == reversed[count - taken - 1]);
                    assert(entry@ == listed_models(reversed)[count - taken - 1]);
                    assert(entry@ == all[taken as int]);
                    let summary = EntrySummary::from_authenticated_parts(
                        *entry.id.as_bytes(),
                        *entry.parent.as_bytes(),
                        entry.name,
                        entry.kind.shown(),
                        entry.revision,
                    );
                    let ghost shown = summaries@;
                    match summaries.with_entry(summary) {
                        Ok(extended) => {
                            summaries = extended;
                            assert(summaries@ =~= all.take(taken + 1).map_values(
                                |entry: ListedModel| summary_of(entry),
                            ));
                            taken = taken + 1;
                            assert(rest@ =~= reversed.take(count - taken));
                        },
                        Err(error) => {
                            assert(shown == shown_entries(self@.entries, taken as int));
                            return Err(error);
                        },
                    }
                },
            }
        }
        assert(all.take(taken as int) =~= all);
        Ok(summaries)
    }
}

/// What the answers of a lease for a whole view come to, as far as the bound
/// allows. They are asked for in this order, and the first that fails counts.
pub open spec fn view_failure(
    root: Result<LocalEntryId, RepositoryPortError>,
    snapshot: Result<SnapshotVersion, RepositoryPortError>,
    list: Result<LocalEntryList, RepositoryPortError>,
    max_entries: usize,
) -> Option<RepositoryPortError> {
    match (root, snapshot, list) {
        (Err(error), _, _) => Some(error),
        (Ok(_), Err(error), _) => Some(error),
        (Ok(_), Ok(_), Err(error)) => Some(error),
        (Ok(_), Ok(_), Ok(list)) => if list@.len() > max_entries {
            Some(RepositoryPortError::CapacityExceeded)
        } else {
            None
        },
    }
}

/// Puts a view together from the answers of a lease.
pub fn assemble_view(
    root: Result<LocalEntryId, RepositoryPortError>,
    snapshot: Result<SnapshotVersion, RepositoryPortError>,
    list: Result<LocalEntryList, RepositoryPortError>,
    max_entries: usize,
) -> (view: Result<LocalAuthenticatedView, RepositoryPortError>)
    ensures
        match view_failure(root, snapshot, list, max_entries) {
            Some(failure) => view == Err::<LocalAuthenticatedView, RepositoryPortError>(failure),
            None => view is Ok && view->Ok_0@ == (LocalViewModel {
                snapshot: snapshot->Ok_0@,
                root: root->Ok_0@,
                entries: list->Ok_0@,
            }),
        },
{
    let root = match root {
        Ok(root) => root,
        Err(error) => return Err(error),
    };
    let snapshot = match snapshot {
        Ok(snapshot) => snapshot,
        Err(error) => return Err(error),
    };
    let list = match list {
        Ok(list) => list,
        Err(error) => return Err(error),
    };
    if list.len() > max_entries {
        return Err(RepositoryPortError::CapacityExceeded);
    }
    Ok(LocalAuthenticatedView { snapshot: *snapshot.as_bytes(), root, entries: list.entries })
}

/// Puts a status together from the answers of a lease.
pub fn assemble_status(
    root: Result<LocalEntryId, RepositoryPortError>,
    snapshot: Result<SnapshotVersion, RepositoryPortError>,
    list: Result<LocalEntryList, RepositoryPortError>,
    max_entries: usize,
) -> (status: Result<LocalAuthenticatedStatus, RepositoryPortError>)
    ensures
        match view_failure(root, snapshot, list, max_entries) {
            Some(failure) => status == Err::<LocalAuthenticatedStatus, RepositoryPortError>(
                failure,
            ),
            None => status is Ok && status->Ok_0@ == (LocalStatusModel {
                snapshot: snapshot->Ok_0@,
                root: root->Ok_0@,
                entry_count: list->Ok_0@.len(),
            }),
        },
{
    match assemble_view(root, snapshot, list, max_entries) {
        Ok(view) => Ok(
            LocalAuthenticatedStatus {
                snapshot: view.snapshot,
                root: view.root,
                entry_count: view.entries.len(),
            },
        ),
        Err(error) => Err(error),
    }
}

/// A name as the portable-name rules parsed it, or why they refused it.
pub type ParsedName = Result<String, NameError>;

/// Why a repository refuses a name, with what the portable-name rules made of
/// it.
pub open spec fn entry_name_failure(value: Seq<char>, parsed: ParsedName) -> Option<
    RepositoryPortError,
> {
    if paths::text_bytes(value) > MAX_LOGICAL_COMPONENT_BYTES {
        Some(RepositoryPortError::CapacityExceeded)
    } else {
        match parsed {
            Err(error) => Some(errors::name_failure(error)),
            Ok(name) => if paths::text_bytes(name@) > MAX_LOGICAL_COMPONENT_BYTES {
                Some(RepositoryPortError::CapacityExceeded)
            } else {
                None
            },
        }
    }
}

/// Accepts a name for a repository.
pub fn validated_entry_name(value: &str, parsed: ParsedName) -> (name: Result<
    String,
    RepositoryPortError,
>)
    ensures
        match entry_name_failure(value@, parsed) {
            Some(failure) => name == Err::<String, RepositoryPortError>(failure),
            None => name is Ok && name->Ok_0@ == parsed->Ok_0@,
        },
{
    if value.as_bytes().len() > MAX_LOGICAL_COMPONENT_BYTES {
        return Err(RepositoryPortError::CapacityExceeded);
    }
    match parsed {
        Err(error) => Err(map_core_repository_error(error)),
        Ok(name) => {
            if name.as_str().as_bytes().len() > MAX_LOGICAL_COMPONENT_BYTES {
                return Err(RepositoryPortError::CapacityExceeded);
            }
            Ok(name)
        },
    }
}

/// One change of the tree of a vault, bound to what it was decided on.
pub enum LocalMutation {
    CreateDirectory { expected_snapshot: SnapshotVersion, parent: LocalEntryId, name: String },
    Rename {
        expected_snapshot: SnapshotVersion,
        entry: LocalEntryId,
        expected_parent: LocalEntryId,
        expected_name: String,
        new_parent: LocalEntryId,
        new_name: String,
    },
    DeleteFile {
        expected_snapshot: SnapshotVersion,
        entry: LocalEntryId,
        expected_parent: LocalEntryId,
        expected_name: String,
        expected_revision: RevisionVersion,
    },
    DeleteDirectory {
        expected_snapshot: SnapshotVersion,
        entry: LocalEntryId,
        expected_parent: LocalEntryId,
        expected_name: String,
    },
}

/// Contents of a [`LocalMutation`].
pub enum MutationModel {
    CreateDirectory { expected_snapshot: SnapshotVersion, parent: LocalEntryId, name: Seq<char> },
    Rename {
        expected_snapshot: SnapshotVersion,
        entry: LocalEntryId,
        expected_parent: LocalEntryId,
        expected_name: Seq<char>,
        new_parent: LocalEntryId,
        new_name: Seq<char>,
    },
    DeleteFile {
        expected_snapshot: SnapshotVersion,
        entry: LocalEntryId,
        expected_parent: LocalEntryId,
        expected_name: Seq<char>,
        expected_revision: RevisionVersion,
    },
    DeleteDirectory {
        expected_snapshot: SnapshotVersion,
        entry: LocalEntryId,
        expected_parent: LocalEntryId,
        expected_name: Seq<char>,
    },
}

impl View for LocalMutation {
    type V = MutationModel;

    open spec fn view(&self) -> MutationModel {
        match *self {
            LocalMutation::CreateDirectory {
                expected_snapshot,
                parent,
                name,
            } => MutationModel::CreateDirectory { expected_snapshot, parent, name: name@ },
            LocalMutation::Rename {
                expected_snapshot,
                entry,
                expected_parent,
                expected_name,
                new_parent,
                new_name,
            } => MutationModel::Rename {
                expected_snapshot,
                entry,
                expected_parent,
                expected_name: expected_name@,
                new_parent,
                new_name: new_name@,
            },
            LocalMutation::DeleteFile {
                expected_snapshot,
                entry,
                expected_parent,
                expected_name,
                expected_revision,
            } => MutationModel::DeleteFile {
                expected_snapshot,
                entry,
                expected_parent,
                expected_name: expected_name@,
                expected_revision,
            },
            LocalMutation::DeleteDirectory {
                expected_snapshot,
                entry,
                expected_parent,
                expected_name,
            } => MutationModel::DeleteDirectory {
                expected_snapshot,
                entry,
                expected_parent,
                expected_name: expected_name@,
            },
        }
    }
}

impl LocalMutation {
    pub fn try_create_directory(
        expected_snapshot: SnapshotVersion,
        parent: LocalEntryId,
        name: &str,
        parsed_name: ParsedName,
    ) -> (made: Result<Self, RepositoryPortError>)
        ensures
            match entry_name_failure(name@, parsed_name) {
                Some(failure) => made == Err::<Self, RepositoryPortError>(failure),
                None => made is Ok && made->Ok_0@ == (MutationModel::CreateDirectory { expected_snapshot, parent, name: parsed_name->Ok_0@ }),
            },
    {
        let name = match validated_entry_name(name, parsed_name) {
            Ok(name) => name,
            Err(error) => return Err(error),
        };
        Ok(LocalMutation::CreateDirectory { expected_snapshot, parent, name })
    }

    pub fn try_rename(
        expected_snapshot: SnapshotVersion,
        entry: LocalEntryId,
        expected_parent: LocalEntryId,
        expected_name: &str,
        parsed_expected_name: ParsedName,
        new_parent: LocalEntryId,
        new_name: &str,
        parsed_new_name: ParsedName,
    ) -> (made: Result<Self, RepositoryPortError>)
        ensures
            match (
                entry_name_failure(expected_name@, parsed_expected_name),
                entry_name_failure(new_name@, parsed_new_name),
            ) {
                (Some(failure), _) => made == Err::<Self, RepositoryPortError>(failure),
                (None, Some(failure)) => made == Err::<Self, RepositoryPortError>(failure),
                (None, None) => made is Ok && made->Ok_0@ == (MutationModel::Rename { expected_snapshot, entry, expected_parent, expected_name: parsed_expected_name->Ok_0@, new_parent, new_name: parsed_new_name->Ok_0@ }),
            },
    {
        let expected_name = match validated_entry_name(expected_name, parsed_expected_name) {
            Ok(name) => name,
            Err(error) => return Err(error),
        };
        let new_name = match validated_entry_name(new_name, parsed_new_name) {
            Ok(name) => name,
            Err(error) => return Err(error),
        };
        Ok(LocalMutation::Rename { expected_snapshot, entry, expected_parent, expected_name, new_parent, new_name })
    }

    pub fn try_delete_file(
        expected_snapshot: SnapshotVersion,
        entry: LocalEntryId,
        expected_parent: LocalEntryId,
        expected_name: &str,
        parsed_expected_name: ParsedName,
        expected_revision: RevisionVersion,
    ) -> (made: Result<Self, RepositoryPortError>)
        ensures
            match entry_name_failure(expected_name@, parsed_expected_name) {
                Some(failure) => made == Err::<Self, RepositoryPortError>(failure),
                None => made is Ok && made->Ok_0@ == (MutationModel::DeleteFile { expected_snapshot, entry, expected_parent, expected_name: parsed_expected_name->Ok_0@, expected_revision }),
            },
    {
        let expected_name = match validated_entry_name(expected_name, parsed_expected_name) {
            Ok(name) => name,
            Err(error) => return Err(error),
        };
        Ok(LocalMutation::DeleteFile { expected_snapshot, entry, expected_parent, expected_name, expected_revision })
    }

    pub fn try_delete_directory(
        expected_snapshot: SnapshotVersion,
        entry: LocalEntryId,
        expected_parent: LocalEntryId,
        expected_name: &str,
        parsed_expected_name: ParsedName,
    ) -> (made: Result<Self, RepositoryPortError>)
        ensures
            match entry_name_failure(expected_name@, parsed_expected_name) {
                Some(failure) => made == Err::<Self, RepositoryPortError>(failure),
                None => made is Ok && made->Ok_0@ == (MutationModel::DeleteDirectory { expected_snapshot, entry, expected_parent, expected_name: parsed_expected_name->Ok_0@ }),
            },
    {
        let expected_name = match validated_entry_name(expected_name, parsed_expected_name) {
            Ok(name) => name,
            Err(error) => return Err(error),
        };
        Ok(LocalMutation::DeleteDirectory { expected_snapshot, entry, expected_parent, expected_name })
    }
}

/// One revision of a file that is committed from a stream.
pub enum LocalStreamRevisionRequest {
    CreateInParent { expected_snapshot: SnapshotVersion, parent: LocalEntryId, name: String },
    Create { expected_snapshot: SnapshotVersion, name: String },
    Replace {
        expected_snapshot: SnapshotVersion,
        file: LocalEntryId,
        expected_revision: RevisionVersion,
        name: String,
    },
}

/// Contents of a [`LocalStreamRevisionRequest`].
pub enum StreamModel {
    CreateInParent { expected_snapshot: SnapshotVersion, parent: LocalEntryId, name: Seq<char> },
    Create { expected_snapshot: SnapshotVersion, name: Seq<char> },
    Replace {
        expected_snapshot: SnapshotVersion,
        file: LocalEntryId,
        expected_revision: RevisionVersion,
        name: Seq<char>,
    },
}

impl View for LocalStreamRevisionRequest {
    type V = StreamModel;

    open spec fn view(&self) -> StreamModel {
        match *self {
            LocalStreamRevisionRequest::CreateInParent {
                expected_snapshot,
                parent,
                name,
            } => StreamModel::CreateInParent { expected_snapshot, parent, name: name@ },
            LocalStreamRevisionRequest::Create { expected_snapshot, name } => StreamModel::Create {
                expected_snapshot,
                name: name@,
            },
            LocalStreamRevisionRequest::Replace {
                expected_snapshot,
                file,
                expected_revision,
                name,
            } => StreamModel::Replace { expected_snapshot, file, expected_revision, name: name@ },
        }
    }
}

impl LocalStreamRevisionRequest {
    pub fn try_create_in_parent(
        expected_snapshot: SnapshotVersion,
        parent: LocalEntryId,
        name: &str,
        parsed_name: ParsedName,
    ) -> (made: Result<Self, RepositoryPortError>)
        ensures
            match entry_name_failure(name@, parsed_name) {
                Some(failure) => made == Err::<Self, RepositoryPortError>(failure),
                None => made is Ok && made->Ok_0@ == (StreamModel::CreateInParent { expected_snapshot, parent, name: parsed_name->Ok_0@ }),
            },
    {
        let name = match validated_entry_name(name, parsed_name) {
            Ok(name) => name,
            Err(error) => return Err(error),
        };
        Ok(LocalStreamRevisionRequest::CreateInParent { expected_snapshot, parent, name })
    }

    pub fn try_create(
        expected_snapshot: SnapshotVersion,
        name: &str,
        parsed_name: ParsedName,
    ) -> (made: Result<Self, RepositoryPortError>)
        ensures
            match entry_name_failure(name@, parsed_name) {
                Some(failure) => made == Err::<Self, RepositoryPortError>(failure),
                None => made is Ok && made->Ok_0@ == (StreamModel::Create { expected_snapshot, name: parsed_name->Ok_0@ }),
            },
    {
        let name = match validated_entry_name(name, parsed_name) {
            Ok(name) => name,
            Err(error) => return Err(error),
        };
        Ok(LocalStreamRevisionRequest::Create { expected_snapshot, name })
    }

    pub fn try_replace(
        expected_snapshot: SnapshotVersion,
        file: LocalEntryId,
        expected_revision: RevisionVersion,
        name: &str,
        parsed_name: ParsedName,
    ) -> (made: Result<Self, RepositoryPortError>)
        ensures
            match entry_name_failure(name@, parsed_name) {
                Some(failure) => made == Err::<Self, RepositoryPortError>(failure),
                None => made is Ok && made->Ok_0@ == (StreamModel::Replace { expected_snapshot, file, expected_revision, name: parsed_name->Ok_0@ }),
            },
    {
        let name = match validated_entry_name(name, parsed_name) {
            Ok(name) => name,
            Err(error) => return Err(error),
        };
        Ok(LocalStreamRevisionRequest::Replace { expected_snapshot, file, expected_revision, name })
    }
}

} // verus!
