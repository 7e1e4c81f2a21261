//! Results of operations.
use vstd::prelude::*;

use crate::command::{EntryId, EntryKind, RevisionVersion, SnapshotVersion};
use crate::error::ServiceError;
use crate::memory;
use crate::memory::{capacity_of, reserve_vec, vec_room};
use crate::secret::SecretText;
use crate::session::VaultId;

verus! {

/// Maximum number of entries returned by one bounded service result.
pub const MAX_RESULT_ENTRIES: usize = 4096;

/// Immutable authenticated logical entry metadata.
pub struct EntrySummary {
    opaque_id: [u8; 16],
    parent_id: [u8; 16],
    name: SecretText,
    kind: EntryKind,
    revision_id: Option<[u8; 32]>,
}

/// Contents of an [`EntrySummary`].
pub struct EntryModel {
    pub opaque_id: [u8; 16],
    pub parent_id: [u8; 16],
    pub name: Seq<char>,
    pub kind: EntryKind,
    pub revision_id: Option<[u8; 32]>,
}

impl View for EntrySummary {
    type V = EntryModel;

    closed spec fn view(&self) -> EntryModel {
        EntryModel {
            opaque_id: self.opaque_id,
            parent_id: self.parent_id,
            name: self.name@,
            kind: self.kind,
            revision_id: self.revision_id,
        }
    }
}

impl EntrySummary {
    pub fn from_authenticated_parts(
        opaque_id: [u8; 16],
        parent_id: [u8; 16],
        name: SecretText,
        kind: EntryKind,
        revision_id: Option<[u8; 32]>,
    ) -> (summary: Self)
        ensures
            summary@ == (EntryModel { opaque_id, parent_id, name: name@, kind, revision_id }),
    {
        EntrySummary { opaque_id, parent_id, name, kind, revision_id }
    }

    pub fn opaque_id(&self) -> (id: &[u8; 16])
        ensures
            *id == self@.opaque_id,
    {
        &self.opaque_id
    }

    pub fn parent_id(&self) -> (id: &[u8; 16])
        ensures
            *id == self@.parent_id,
    {
        &self.parent_id
    }

    pub fn name(&self) -> (name: &str)
        ensures
            name@ == self@.name,
    {
        self.name.as_str()
    }

    pub fn kind(&self) -> (kind: EntryKind)
        ensures
            kind == self@.kind,
    {
        self.kind
    }

    pub fn revision_id(&self) -> (revision: Option<[u8; 32]>)
        ensures
            revision == self@.revision_id,
    {
        self.revision_id
    }
}

/// Bounded result of one durably committed local mutation.
pub struct MutationSummary {
    entry_id: EntryId,
    parent_id: EntryId,
    snapshot: SnapshotVersion,
    revision: Option<RevisionVersion>,
    name: SecretText,
    kind: EntryKind,
}

/// Contents of a [`MutationSummary`].
pub struct MutationModel {
    pub entry_id: EntryId,
    pub parent_id: EntryId,
    pub snapshot: SnapshotVersion,
    pub revision: Option<RevisionVersion>,
    pub name: Seq<char>,
    pub kind: EntryKind,
}

impl View for MutationSummary {
    type V = MutationModel;

    closed spec fn view(&self) -> MutationModel {
        MutationModel {
            entry_id: self.entry_id,
            parent_id: self.parent_id,
            snapshot: self.snapshot,
            revision: self.revision,
            name: self.name@,
            kind: self.kind,
        }
    }
}

impl MutationSummary {
    pub fn new(
        entry_id: EntryId,
        parent_id: EntryId,
        snapshot: SnapshotVersion,
        revision: Option<RevisionVersion>,
        name: SecretText,
        kind: EntryKind,
    ) -> (summary: Self)
        ensures
            summary@ == (MutationModel {
                entry_id,
                parent_id,
                snapshot,
                revision,
                name: name@,
                kind,
            }),
    {
        MutationSummary { entry_id, parent_id, snapshot, revision, name, kind }
    }

    pub fn entry_id(&self) -> (id: EntryId)
        ensures
            id == self@.entry_id,
    {
        self.entry_id
    }

    pub fn parent_id(&self) -> (id: EntryId)
        ensures
            id == self@.parent_id,
    {
        self.parent_id
    }

    pub fn snapshot(&self) -> (snapshot: SnapshotVersion)
        ensures
            snapshot == self@.snapshot,
    {
        self.snapshot
    }

    pub fn revision(&self) -> (revision: Option<RevisionVersion>)
        ensures
            revision == self@.revision,
    {
        self.revision
    }

    pub fn name(&self) -> (name: &str)
        ensures
            name@ == self@.name,
    {
        self.name.as_str()
    }

    pub fn kind(&self) -> (kind: EntryKind)
        ensures
            kind == self@.kind,
    {
        self.kind
    }
}

/// Fixed-size authenticated status for the current unlocked vault generation.
#[derive(Clone, Copy, Debug, PartialEq, Eq)]
pub struct VaultStatus {
    vault_id: VaultId,
    generation: u64,
    root_entry_id: [u8; 16],
    snapshot_id: [u8; 32],
    entry_count: usize,
}

/// Contents of a [`VaultStatus`].
pub struct StatusModel {
    pub vault_id: VaultId,
    pub generation: u64,
    pub root_entry_id: [u8; 16],
    pub snapshot_id: [u8; 32],
    pub entry_count: usize,
}

impl View for VaultStatus {
    type V = StatusModel;

    closed spec fn view(&self) -> StatusModel {
        StatusModel {
            vault_id: self.vault_id,
            generation: self.generation,
            root_entry_id: self.root_entry_id,
            snapshot_id: self.snapshot_id,
            entry_count: self.entry_count,
        }
    }
}

impl VaultStatus {
    pub fn new(
        vault_id: VaultId,
        generation: u64,
        root_entry_id: [u8; 16],
        snapshot_id: [u8; 32],
        entry_count: usize,
    ) -> (status: Self)
        ensures
            status@ == (StatusModel {
                vault_id,
                generation,
                root_entry_id,
                snapshot_id,
                entry_count,
            }),
    {
        VaultStatus { vault_id, generation, root_entry_id, snapshot_id, entry_count }
    }

    pub fn vault_id(&self) -> (id: VaultId)
        ensures
            id == self@.vault_id,
    {
        self.vault_id
    }

    pub fn generation(&self) -> (generation: u64)
        ensures
            generation == self@.generation,
    {
        self.generation
    }

    pub fn root_entry_id(&self) -> (id: &[u8; 16])
        ensures
            *id == self@.root_entry_id,
    {
        &self.root_entry_id
    }

    pub fn snapshot_id(&self) -> (id: &[u8; 32])
        ensures
            *id == self@.snapshot_id,
    {
        &self.snapshot_id
    }

    pub fn entry_count(&self) -> (count: usize)
        ensures
            count == self@.entry_count,
    {
        self.entry_count
    }
}

/// Where the entries of a listing come from.
pub trait EntrySource {
    /// How many entries there are at least.
    fn fewest(&self) -> usize;

    /// The next entry, until there is none.
    fn next_entry(&mut self) -> Option<EntrySummary>;
}

/// Whether a source may have said that it has so many entries at least.
pub open spec fn may_have<S: EntrySource>(source: S, fewest: usize) -> bool {
    call_ensures(S::fewest, (&source,), fewest)
}

/// Room that is asked for before the first entry of a source with so many entries at
/// least.
pub open spec fn first_room(fewest: int) -> int {
    if fewest <= MAX_RESULT_ENTRIES {
        fewest
    } else {
        MAX_RESULT_ENTRIES as int
    }
}

/// Whether the calls of a source, the first of them in some state, may have given
/// these answers.
pub open spec fn may_answer<S: EntrySource>(
    first: S,
    calls: Seq<&mut S>,
    answers: Seq<Option<EntrySummary>>,
) -> bool {
    &&& calls.len() == answers.len()
    &&& calls.len() > 0 ==> *calls[0] == first
    &&& forall|i: int|
        0 <= i < calls.len() ==> call_ensures(S::next_entry, (#[trigger] calls[i],), answers[i])
}

/// The answers of a source that gave these entries, and then none where it ended.
pub open spec fn answers_of(entries: Seq<EntrySummary>, ended: bool) -> Seq<Option<EntrySummary>> {
    let given = entries.map_values(|entry: EntrySummary| Some(entry));
    if ended {
        given.push(None)
    } else {
        given
    }
}

/// The models of a list of entries.
pub open spec fn entry_models(entries: Seq<EntrySummary>) -> Seq<EntryModel> {
    entries.map_values(|entry: EntrySummary| entry@)
}

/// Whether the allocator may have refused a listing room for one more entry.
pub open spec fn entry_refused(listed: Seq<EntryModel>) -> bool {
    exists|held: Seq<EntrySummary>|
        entry_models(held) == listed && #[trigger] memory::vec_refused(held, 1)
}

/// Intrinsically bounded collection returned by an entry-listing operation.
pub struct EntrySummaries {
    entries: Vec<EntrySummary>,
}

impl View for EntrySummaries {
    type V = Seq<EntryModel>;

    closed spec fn view(&self) -> Seq<EntryModel> {
        self.entries@.map_values(|entry: EntrySummary| entry@)
    }
}

impl EntrySummaries {
    /// A listing stays within its bound.
    #[verifier::type_invariant]
    pub closed spec fn is_bounded(self) -> bool {
        self.entries@.len() <= MAX_RESULT_ENTRIES
    }

    /// Creates an empty result without allocating.
    pub fn empty() -> (summaries: Self)
        ensures
            summaries@ == Seq::<EntryModel>::empty(),
    {
        let summaries = EntrySummaries { entries: Vec::new() };
        assert(summaries@ =~= Seq::<EntryModel>::empty());
        summaries
    }

    /// An empty result with room for so many entries, as far as the bound allows.
    pub(crate) fn with_room_for(fewest: usize) -> (summaries: Result<Self, ServiceError>)
        ensures
            match summaries {
                Ok(summaries) => summaries@ == Seq::<EntryModel>::empty(),
                Err(error) => error == ServiceError::AllocationFailed && memory::vec_refused(
                    Seq::<EntrySummary>::empty(),
                    first_room(fewest as int),
                ),
            },
    {
        let wanted: usize = if fewest <= MAX_RESULT_ENTRIES {
            fewest
        } else {
            MAX_RESULT_ENTRIES
        };
        EntrySummaries::over(vec_room(wanted))
    }

    /// An empty result over its room, or none where the room was refused.
    pub fn over(room: Option<Vec<EntrySummary>>) -> (summaries: Result<Self, ServiceError>)
        requires
            room is Some ==> room->0@ == Seq::<EntrySummary>::empty(),
        ensures
            match room {
                Some(_) => summaries is Ok && summaries->Ok_0@ == Seq::<EntryModel>::empty(),
                None => summaries == Err::<Self, ServiceError>(ServiceError::AllocationFailed),
            },
    {
        match room {
            Some(entries) => {
                let summaries = EntrySummaries { entries };
                assert(summaries@ =~= Seq::<EntryModel>::empty());
                Ok(summaries)
            },
            None => Err(ServiceError::AllocationFailed),
        }
    }

    /// One more entry, where there is room for it and its memory is granted.
    pub fn with_entry(self, entry: EntrySummary) -> (extended: Result<Self, ServiceError>)
        ensures
            self@.len() >= MAX_RESULT_ENTRIES ==> extended == Err::<Self, ServiceError>(
                ServiceError::CapacityExceeded,
            ),
            self@.len() < MAX_RESULT_ENTRIES ==> match extended {
                Ok(extended) => extended@ == self@.push(entry@),
                Err(error) => error == ServiceError::AllocationFailed && entry_refused(self@),
            },
    {
        proof {
            use_type_invariant(&self);
        }
        let mut entries = self.entries;
        let granted = entries.len() < MAX_RESULT_ENTRIES && reserve_vec(&mut entries, 1);
        assert(entry_models(entries@) == self@);
        EntrySummaries { entries }.extended(entry, granted)
    }

    /// One more entry, where there is room for it and the reservation of its
    /// memory was granted.
    pub fn extended(self, entry: EntrySummary, granted: bool) -> (extended: Result<
        Self,
        ServiceError,
    >)
        ensures
            self@.len() >= MAX_RESULT_ENTRIES ==> extended == Err::<Self, ServiceError>(
                ServiceError::CapacityExceeded,
            ),
            self@.len() < MAX_RESULT_ENTRIES && !granted ==> extended == Err::<Self, ServiceError>(
                ServiceError::AllocationFailed,
            ),
            self@.len() < MAX_RESULT_ENTRIES && granted ==> extended is Ok && extended->Ok_0@
                == self@.push(entry@),
    {
        let mut entries = self.entries;
        assert(self@.len() == entries@.len());
        if entries.len() >= MAX_RESULT_ENTRIES {
            return Err(ServiceError::CapacityExceeded);
        }
        if !granted {
            return Err(ServiceError::AllocationFailed);
        }
        entries.push(entry);
        let extended = EntrySummaries { entries };
        assert(extended@ =~= self@.push(entry@));
        Ok(extended)
    }

    /// Builds one bounded result with fallible service-owned growth.
    ///
    /// Room for the entries that the source says it has at least is asked for before
    /// the first is taken. The entries are those of the source, in its order. At
    /// most one value more than the result can hold is taken from the source, even
    /// if it has more.
    pub fn try_from_iter<S: EntrySource>(source: &mut S) -> (summaries: Result<Self, ServiceError>)
        ensures
            summaries matches Ok(summaries) ==> exists|
                entries: Seq<EntrySummary>,
                calls: Seq<&mut S>,
            |
                {
                    &&& #[trigger] may_answer(*old(source), calls, answers_of(entries, true))
                    &&& forall|i: int|
                        0 < i < calls.len() ==> *#[trigger] calls[i] == *final(calls[i - 1])
                    &&& *final(calls.last()) == *final(source)
                    &&& entries.len() <= MAX_RESULT_ENTRIES
                    &&& summaries@ == entry_models(entries)
                },
            summaries matches Err(error) ==> {
                ||| error == ServiceError::AllocationFailed && *final(source) == *old(source)
                    && exists|fewest: usize|
                    #[trigger] may_have(*old(source), fewest) && memory::vec_refused(
                        Seq::<EntrySummary>::empty(),
                        first_room(fewest as int),
                    )
                ||| exists|entries: Seq<EntrySummary>, calls: Seq<&mut S>|
                    {
                        &&& #[trigger] may_answer(*old(source), calls, answers_of(entries, false))
                        &&& forall|i: int|
                            0 < i < calls.len() ==> *#[trigger] calls[i] == *final(calls[i - 1])
                        &&& *final(calls.last()) == *final(source)
                        &&& if entries.len() > MAX_RESULT_ENTRIES {
                            entries.len() == MAX_RESULT_ENTRIES + 1 && error
                                == ServiceError::CapacityExceeded
                        } else {
                            entries.len() > 0 && error == ServiceError::AllocationFailed
                                && entry_refused(entry_models(entries.drop_last()))
                        }
                    }
            },
    {
        let fewest: usize = source.fewest();
        assert(may_have(*source, fewest));
        let mut summaries = match EntrySummaries::with_room_for(fewest) {
            Ok(summaries) => summaries,
            Err(error) => return Err(error),
        };
        let ghost mut entries: Seq<EntrySummary> = Seq::empty();
        assert(entry_models(entries) =~= summaries@);
        assert(may_answer(*source, Seq::<&mut S>::empty(), answers_of(entries, false)));
        loop
            invariant
                entries.len() <= MAX_RESULT_ENTRIES,
                summaries@ == entry_models(entries),
                exists|calls: Seq<&mut S>|
                    {
                        &&& #[trigger] may_answer(*old(source), calls, answers_of(entries, false))
                        &&& forall|i: int|
                            0 < i < calls.len() ==> *#[trigger] calls[i] == *final(calls[i - 1])
                        &&& *source == if calls.len() > 0 {
                            *final(calls.last())
                        } else {
                            *old(source)
                        }
                    },
            decreases MAX_RESULT_ENTRIES + 1 - entries.len(),
        {
            let ghost before = answers_of(entries, false);
            let ghost between = *source;
            let answer = source.next_entry();
            assert(exists|calls: Seq<&mut S>|
                {
                    &&& #[trigger] may_answer(*old(source), calls, before.push(answer))
                    &&& forall|i: int|
                        0 < i < calls.len() ==> *#[trigger] calls[i] == *final(calls[i - 1])
                    &&& *source == *final(calls.last())
                }) by {
                let calls = choose|calls: Seq<&mut S>|
                    {
                        &&& #[trigger] may_answer(*old(source), calls, before)
                        &&& forall|i: int|
                            0 < i < calls.len() ==> *#[trigger] calls[i] == *final(calls[i - 1])
                        &&& between == if calls.len() > 0 {
                            *final(calls.last())
                        } else {
                            *old(source)
                        }
                    };
                let asked = choose|asked: &mut S|
                    {
                        &&& *asked == between
                        &&& *final(asked) == *source
                        &&& #[trigger] call_ensures(S::next_entry, (asked,), answer)
                    };
                assert(may_answer(*old(source), calls.push(asked), before.push(answer)));
            }
            match answer {
                None => {
                    assert(answers_of(entries, true) =~= before.push(answer));
                    return Ok(summaries);
                },
                Some(entry) => {
                    proof {
                        let earlier = entries;
                        entries = entries.push(entry);
                        assert(entries.drop_last() =~= earlier);
                        assert(answers_of(entries, false) =~= before.push(answer));
                    }
                    match summaries.with_entry(entry) {
                        Ok(extended) => {
                            assert(entry_models(entries) =~= extended@);
                            summaries = extended;
                        },
                        Err(error) => return Err(error),
                    }
                },
            }
        }
    }

    pub fn len(&self) -> (length: usize)
        ensures
            length == self@.len(),
            length <= MAX_RESULT_ENTRIES,
    {
        proof {
            use_type_invariant(self);
        }
        self.entries.len()
    }

    pub fn is_empty(&self) -> (empty: bool)
        ensures
            empty == (self@.len() == 0),
    {
        self.entries.len() == 0
    }

    pub fn as_slice(&self) -> (entries: &[EntrySummary])
        ensures
            entries@.map_values(|entry: EntrySummary| entry@) == self@,
    {
        self.entries.as_slice()
    }

    /// Number of entries that the allocation can hold.
    pub fn retained_capacity(&self) -> (capacity: usize)
        ensures
            capacity >= self@.len(),
    {
        capacity_of(&self.entries)
    }
}

/// Bounded summary of one completed export.
#[derive(Clone, Copy, Debug, PartialEq, Eq)]
pub struct ExportSummary {
    opaque_id: [u8; 16],
}

impl View for ExportSummary {
    type V = [u8; 16];

    closed spec fn view(&self) -> [u8; 16] {
        self.opaque_id
    }
}

impl ExportSummary {
    pub fn new(opaque_id: [u8; 16]) -> (summary: Self)
        ensures
            summary@ == opaque_id,
    {
        ExportSummary { opaque_id }
    }

    pub fn opaque_id(&self) -> (id: &[u8; 16])
        ensures
            *id == self@,
    {
        &self.opaque_id
    }
}

/// Bounded summary of one opened workspace.
#[derive(Clone, Copy, Debug, PartialEq, Eq)]
pub struct WorkspaceSummary {
    opaque_id: [u8; 16],
}

impl View for WorkspaceSummary {
    type V = [u8; 16];

    closed spec fn view(&self) -> [u8; 16] {
        self.opaque_id
    }
}

impl WorkspaceSummary {
    pub fn new(opaque_id: [u8; 16]) -> (summary: Self)
        ensures
            summary@ == opaque_id,
    {
        WorkspaceSummary { opaque_id }
    }

    pub fn opaque_id(&self) -> (id: &[u8; 16])
        ensures
            *id == self@,
    {
        &self.opaque_id
    }
}

/// Bounded summary of one synchronization.
#[derive(Clone, Copy, Debug, PartialEq, Eq)]
pub struct SyncSummary {
    opaque_id: [u8; 16],
}

impl View for SyncSummary {
    type V = [u8; 16];

    closed spec fn view(&self) -> [u8; 16] {
        self.opaque_id
    }
}

impl SyncSummary {
    pub fn new(opaque_id: [u8; 16]) -> (summary: Self)
        ensures
            summary@ == opaque_id,
    {
        SyncSummary { opaque_id }
    }

    pub fn opaque_id(&self) -> (id: &[u8; 16])
        ensures
            *id == self@,
    {
        &self.opaque_id
    }
}

/// Bounded summary of one backup publication.
#[derive(Clone, Copy, Debug, PartialEq, Eq)]
pub struct BackupSummary {
    opaque_id: [u8; 16],
}

impl View for BackupSummary {
    type V = [u8; 16];

    closed spec fn view(&self) -> [u8; 16] {
        self.opaque_id
    }
}

impl BackupSummary {
    pub fn new(opaque_id: [u8; 16]) -> (summary: Self)
        ensures
            summary@ == opaque_id,
    {
        BackupSummary { opaque_id }
    }

    pub fn opaque_id(&self) -> (id: &[u8; 16])
        ensures
            *id == self@,
    {
        &self.opaque_id
    }
}

/// One terminal ordinary-operation result.
#[non_exhaustive]
pub enum OperationResult {
    Entries(EntrySummaries),
    Status(VaultStatus),
    EntryChanged(MutationSummary),
    Exported(ExportSummary),
    WorkspaceOpened(WorkspaceSummary),
    Synchronized(SyncSummary),
    BackedUp(BackupSummary),
}

} // verus!
