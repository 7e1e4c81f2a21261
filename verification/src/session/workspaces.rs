//! The plaintext workspaces that a session tracks.
use vstd::prelude::*;

use crate::bytes::same_bytes;
use crate::error::ServiceError;
use crate::memory;
use crate::memory::vec_room;
use crate::ports::paths;
use crate::ports::paths::{
    LogicalPathModel, LogicalWorkspacePath, RegistryModel, WorkspacePathRegistry,
};
use crate::session::errors;
use crate::session::errors::map_host_error;

verus! {

/// Maximum workspaces that a session tracks, and attempts that it makes at a time.
pub const MAX_ACTIVE_WORKSPACES: usize = 1_024;

/// One tracked workspace. A listed workspace is found by its identity and is
/// removed when the session locks.
pub struct TrackedWorkspace {
    token: u64,
    id: [u8; 16],
    generation: u64,
    listed: bool,
    paths: WorkspacePathRegistry,
}

/// Contents of one tracked workspace.
pub struct RecordModel {
    pub token: u64,
    pub id: [u8; 16],
    pub generation: u64,
    pub listed: bool,
    pub paths: RegistryModel,
}

impl View for TrackedWorkspace {
    type V = RecordModel;

    closed spec fn view(&self) -> RecordModel {
        RecordModel {
            token: self.token,
            id: self.id,
            generation: self.generation,
            listed: self.listed,
            paths: self.paths@,
        }
    }
}

/// The workspaces of a session and the attempts to create or remove one.
pub struct WorkspaceTable {
    records: Vec<TrackedWorkspace>,
    attempts: usize,
    next_token: u64,
}

/// Contents of a [`WorkspaceTable`].
pub struct TableModel {
    pub records: Seq<RecordModel>,
    pub attempts: nat,
    pub next_token: u64,
}

spec fn record_models(records: Seq<TrackedWorkspace>) -> Seq<RecordModel> {
    records.map_values(|record: TrackedWorkspace| record@)
}

/// Whether the allocator may have refused room for a table of workspaces.
pub closed spec fn table_refused(length: int) -> bool {
    memory::vec_refused(Seq::<TrackedWorkspace>::empty(), length)
}

impl View for WorkspaceTable {
    type V = TableModel;

    closed spec fn view(&self) -> TableModel {
        TableModel {
            records: record_models(self.records@),
            attempts: self.attempts as nat,
            next_token: self.next_token,
        }
    }
}

/// Number of listed workspaces.
pub open spec fn listed_count(records: Seq<RecordModel>) -> nat
    decreases records.len(),
{
    if records.len() == 0 {
        0
    } else {
        listed_count(records.drop_last()) + if records.last().listed {
            1nat
        } else {
            0nat
        }
    }
}

/// Whether a workspace of this identity is listed.
pub open spec fn is_listed(records: Seq<RecordModel>, id: [u8; 16]) -> bool {
    exists|i: int| 0 <= i < records.len() && (#[trigger] records[i]).listed && records[i].id == id
}

/// Whether the first record of this token stands at this place.
pub open spec fn stands_at(records: Seq<RecordModel>, token: u64, index: int) -> bool {
    &&& 0 <= index < records.len()
    &&& records[index].token == token
    &&& forall|i: int| 0 <= i < index ==> (#[trigger] records[i]).token != token
}

/// The place of a record, where there is one.
pub open spec fn place_of(records: Seq<RecordModel>, token: u64) -> Option<int> {
    if exists|index: int| stands_at(records, token, index) {
        Some(choose|index: int| stands_at(records, token, index))
    } else {
        None
    }
}

/// Whether the first listed record stands at this place.
pub open spec fn first_listed_at(records: Seq<RecordModel>, index: int) -> bool {
    &&& 0 <= index < records.len()
    &&& records[index].listed
    &&& forall|i: int| 0 <= i < index ==> !(#[trigger] records[i]).listed
}

/// The place of the first listed record, where there is one.
pub open spec fn first_listed(records: Seq<RecordModel>) -> Option<int> {
    if exists|index: int| first_listed_at(records, index) {
        Some(choose|index: int| first_listed_at(records, index))
    } else {
        None
    }
}

/// One record after an identity was taken from the list.
pub open spec fn unlisted_record(record: RecordModel, id: [u8; 16]) -> RecordModel {
    RecordModel { listed: record.listed && record.id != id, ..record }
}

/// The records after an identity was taken from the list.
pub open spec fn unlisted(records: Seq<RecordModel>, id: [u8; 16]) -> Seq<RecordModel> {
    records.map_values(|record: RecordModel| unlisted_record(record, id))
}

/// The records after one was taken away, with its identity.
pub open spec fn without(records: Seq<RecordModel>, index: int) -> Seq<RecordModel> {
    unlisted(records.remove(index), records[index].id)
}

/// The table after the record of a token was taken away.
pub open spec fn after_take(table: TableModel, token: u64) -> TableModel {
    match place_of(table.records, token) {
        Some(index) => TableModel { records: without(table.records, index), ..table },
        None => table,
    }
}

/// Whether two listed records never share an identity.
pub open spec fn listed_once(records: Seq<RecordModel>) -> bool {
    forall|i: int, j: int|
        0 <= i < j < records.len() && (#[trigger] records[i]).listed && (
        #[trigger] records[j]).listed ==> records[i].id != records[j].id
}

/// Whether two records never share a token, and no token is still to be given.
pub open spec fn tokens_are_distinct(records: Seq<RecordModel>, next_token: u64) -> bool {
    &&& forall|i: int| 0 <= i < records.len() ==> (#[trigger] records[i]).token < next_token
    &&& forall|i: int, j: int|
        0 <= i < j < records.len() ==> (#[trigger] records[i]).token != (
        #[trigger] records[j]).token
}

/// Invariant of the table.
pub open spec fn table_wf(table: TableModel) -> bool {
    &&& table.attempts <= MAX_ACTIVE_WORKSPACES
    &&& listed_count(table.records) <= MAX_ACTIVE_WORKSPACES
    &&& listed_once(table.records)
    &&& tokens_are_distinct(table.records, table.next_token)
}

/// A table without a workspace.
pub open spec fn empty_table() -> TableModel {
    TableModel { records: Seq::empty(), attempts: 0, next_token: 0 }
}

/// What the beginning of a workspace attempt answers.
pub open spec fn attempt_answer(table: TableModel) -> Result<(), ServiceError> {
    if table.attempts < MAX_ACTIVE_WORKSPACES {
        Ok(())
    } else {
        Err(ServiceError::CapacityExceeded)
    }
}

/// The table after a workspace attempt began.
pub open spec fn after_attempt(table: TableModel) -> TableModel {
    if attempt_answer(table) is Ok {
        TableModel { attempts: table.attempts + 1, ..table }
    } else {
        table
    }
}

/// The table after a workspace attempt ended.
pub open spec fn after_attempt_end(table: TableModel) -> TableModel {
    TableModel {
        attempts: if table.attempts == 0 {
            0
        } else {
            (table.attempts - 1) as nat
        },
        ..table
    }
}

/// What the listing of a new workspace answers, with the token of its record.
pub open spec fn list_answer(table: TableModel, id: [u8; 16]) -> Result<u64, ServiceError> {
    if listed_count(table.records) >= MAX_ACTIVE_WORKSPACES || is_listed(table.records, id) {
        Err(ServiceError::Busy)
    } else if table.next_token == u64::MAX {
        Err(ServiceError::IdentifierExhausted)
    } else {
        Ok(table.next_token)
    }
}

/// The table after the listing of a new workspace.
pub open spec fn after_list(
    table: TableModel,
    id: [u8; 16],
    generation: u64,
    paths: RegistryModel,
) -> TableModel {
    match list_answer(table, id) {
        Ok(token) => TableModel {
            records: table.records.push(RecordModel { token, id, generation, listed: true, paths }),
            next_token: (token + 1) as u64,
            ..table
        },
        Err(_) => table,
    }
}

/// What the use of a path in a workspace answers.
pub open spec fn use_path_answer(
    table: TableModel,
    token: u64,
    path: LogicalPathModel,
) -> Result<(), ServiceError> {
    match place_of(table.records, token) {
        None => Err(ServiceError::StaleCapability),
        Some(index) => match paths::insert_answer(table.records[index].paths, path) {
            Ok(()) => Ok(()),
            Err(error) => Err(errors::host_failure(error)),
        },
    }
}

/// Whether the allocator may have refused room for the use of a path in a
/// workspace, which a path that is in use already does not need.
pub open spec fn path_use_refused(table: TableModel, token: u64, path: LogicalPathModel) -> bool {
    match place_of(table.records, token) {
        None => false,
        Some(index) => paths::needs_room(table.records[index].paths, path)
            && memory::string_refused(paths::text_bytes(path.path) as int),
    }
}

/// The table after the use of a path in a workspace.
pub open spec fn after_use_path(
    table: TableModel,
    token: u64,
    path: LogicalPathModel,
) -> TableModel {
    match place_of(table.records, token) {
        None => table,
        Some(index) => TableModel {
            records: table.records.update(
                index,
                RecordModel {
                    paths: paths::after_insert(table.records[index].paths, path),
                    ..table.records[index]
                },
            ),
            ..table
        },
    }
}

/// A place found by its definition is the place.
pub proof fn lemma_place_of(records: Seq<RecordModel>, token: u64, index: int)
    requires
        stands_at(records, token, index),
    ensures
        place_of(records, token) == Some(index),
{
    let chosen = choose|index: int| stands_at(records, token, index);
    assert(stands_at(records, token, chosen));
    if chosen < index {
        assert(records[chosen].token != token);
    }
    if index < chosen {
        assert(records[index].token != token);
    }
}

/// A first listed place found by its definition is that place.
pub proof fn lemma_first_listed(records: Seq<RecordModel>, index: int)
    requires
        first_listed_at(records, index),
    ensures
        first_listed(records) == Some(index),
{
    let chosen = choose|index: int| first_listed_at(records, index);
    assert(first_listed_at(records, chosen));
    if chosen < index {
        assert(!records[chosen].listed);
    }
    if index < chosen {
        assert(!records[index].listed);
    }
}

/// A record counts for one where it is listed.
proof fn lemma_count_of_update(records: Seq<RecordModel>, index: int, record: RecordModel)
    requires
        0 <= index < records.len(),
        record.listed ==> records[index].listed,
    ensures
        listed_count(records.update(index, record)) <= listed_count(records),
        record.listed == records[index].listed ==> listed_count(records.update(index, record))
            == listed_count(records),
    decreases records.len(),
{
    let updated = records.update(index, record);
    if index == records.len() - 1 {
        assert(updated.drop_last() =~= records.drop_last());
    } else {
        assert(updated.drop_last() =~= records.drop_last().update(index, record));
        lemma_count_of_update(records.drop_last(), index, record);
    }
}

/// Taking an identity from the list never adds to it.
proof fn lemma_count_of_unlisted(records: Seq<RecordModel>, id: [u8; 16])
    ensures
        listed_count(unlisted(records, id)) <= listed_count(records),
    decreases records.len(),
{
    if records.len() > 0 {
        assert(unlisted(records, id).drop_last() =~= unlisted(records.drop_last(), id));
        lemma_count_of_unlisted(records.drop_last(), id);
    }
}

/// Taking a record away never adds to the list.
proof fn lemma_count_of_remove(records: Seq<RecordModel>, index: int)
    requires
        0 <= index < records.len(),
    ensures
        listed_count(records.remove(index)) <= listed_count(records),
    decreases records.len(),
{
    let removed = records.remove(index);
    if index == records.len() - 1 {
        assert(removed =~= records.drop_last());
    } else {
        assert(removed.drop_last() =~= records.drop_last().remove(index));
        lemma_count_of_remove(records.drop_last(), index);
    }
}

/// Every operation keeps the invariant of the table.
pub proof fn lemma_table_wf(
    table: TableModel,
    token: u64,
    id: [u8; 16],
    generation: u64,
    registry: RegistryModel,
    path: LogicalPathModel,
)
    requires
        table_wf(table),
    ensures
        table_wf(empty_table()),
        table_wf(after_attempt(table)),
        table_wf(after_attempt_end(table)),
        table_wf(TableModel { records: unlisted(table.records, id), ..table }),
        table_wf(after_take(table, token)),
        table_wf(after_list(table, id, generation, registry)),
        table_wf(after_use_path(table, token, path)),
{
    let records = table.records;
    assert(listed_count(empty_table().records) == 0);
    lemma_count_of_unlisted(records, id);
    if let Some(index) = place_of(records, token) {
        assert(stands_at(records, token, index));
        lemma_count_of_remove(records, index);
        lemma_count_of_unlisted(records.remove(index), records[index].id);
        let used = after_use_path(table, token, path).records;
        lemma_count_of_update(records, index, used[index]);
        let taken = after_take(table, token).records;
        assert forall|i: int| 0 <= i < taken.len() implies (#[trigger] taken[i]).token
            == records[if i < index { i } else { i + 1 }].token by {}
    }
    let listed = after_list(table, id, generation, registry).records;
    if list_answer(table, id) is Ok {
        assert(listed.drop_last() =~= records);
    }
}

impl WorkspaceTable {
    /// A table without a workspace, where its memory is granted.
    pub(crate) fn try_new() -> (table: Option<Self>)
        ensures
            match table {
                Some(table) => table@ == empty_table(),
                None => table_refused(MAX_ACTIVE_WORKSPACES as int),
            },
    {
        WorkspaceTable::over(vec_room(MAX_ACTIVE_WORKSPACES))
    }

    /// A table without a workspace over its reserved room, or none where the room
    /// was refused.
    pub fn over(room: Option<Vec<TrackedWorkspace>>) -> (table: Option<Self>)
        requires
            room is Some ==> room->0@ == Seq::<TrackedWorkspace>::empty(),
        ensures
            table is Some <==> room is Some,
            table is Some ==> table->0@ == empty_table(),
    {
        match room {
            None => None,
            Some(records) => {
                let table = WorkspaceTable { records, attempts: 0, next_token: 0 };
                assert(table@.records =~= Seq::empty());
                Some(table)
            },
        }
    }

    /// Begins one attempt to create or remove a workspace.
    pub(crate) fn begin_attempt(&mut self) -> (begun: Result<(), ServiceError>)
        ensures
            begun == attempt_answer(old(self)@),
            final(self)@ == after_attempt(old(self)@),
    {
        if self.attempts < MAX_ACTIVE_WORKSPACES {
            self.attempts = self.attempts + 1;
            Ok(())
        } else {
            Err(ServiceError::CapacityExceeded)
        }
    }

    /// Ends one attempt.
    pub(crate) fn end_attempt(&mut self)
        ensures
            final(self)@ == after_attempt_end(old(self)@),
    {
        if self.attempts != 0 {
            self.attempts = self.attempts - 1;
        }
    }

    /// Number of attempts under way.
    pub(crate) fn attempts(&self) -> (attempts: usize)
        ensures
            attempts == self@.attempts,
    {
        self.attempts
    }

    /// Number of listed workspaces.
    pub(crate) fn listed(&self) -> (count: usize)
        ensures
            count == listed_count(self@.records),
    {
        let mut count: usize = 0;
        let mut index: usize = 0;
        assert(record_models(self.records@).take(0) =~= Seq::empty());
        while index < self.records.len()
            invariant
                index <= self.records@.len(),
                count <= index,
                count == listed_count(record_models(self.records@).take(index as int)),
            decreases self.records@.len() - index,
        {
            proof {
                let models = record_models(self.records@);
                assert(models.take(index + 1).drop_last() =~= models.take(index as int));
                assert(models.take(index + 1).last() == self.records@[index as int]@);
            }
            if self.records[index].listed {
                count += 1;
            }
            index += 1;
        }
        assert(record_models(self.records@).take(index as int) =~= record_models(self.records@));
        count
    }

    /// Whether a workspace of this identity is listed.
    pub(crate) fn lists(&self, id: &[u8; 16]) -> (listed: bool)
        ensures
            listed == is_listed(self@.records, *id),
    {
        let mut index: usize = 0;
        while index < self.records.len()
            invariant
                index <= self.records@.len(),
                forall|i: int|
                    0 <= i < index ==> !((#[trigger] self@.records[i]).listed && self@.records[i].id
                        == *id),
            decreases self.records@.len() - index,
        {
            assert(self@.records[index as int] == self.records@[index as int]@);
            if self.records[index].listed && same_bytes(&self.records[index].id, id) {
                return true;
            }
            index += 1;
        }
        assert(self@.records.len() == self.records@.len());
        false
    }

    fn place(&self, token: u64) -> (place: Option<usize>)
        ensures
            match place {
                Some(index) => place_of(self@.records, token) == Some(index as int)
                    && stands_at(self@.records, token, index as int),
                None => place_of(self@.records, token) is None,
            },
    {
        let mut index: usize = 0;
        while index < self.records.len()
            invariant
                index <= self.records@.len(),
                self@.records.len() == self.records@.len(),
                forall|i: int| 0 <= i < index ==> (#[trigger] self@.records[i]).token != token,
            decreases self.records@.len() - index,
        {
            assert(self@.records[index as int] == self.records@[index as int]@);
            if self.records[index].token == token {
                assert(stands_at(self@.records, token, index as int));
                proof {
                    lemma_place_of(self@.records, token, index as int);
                }
                return Some(index);
            }
            index += 1;
        }
        None
    }

    /// The token of the first listed workspace.
    pub(crate) fn first_listed(&self) -> (token: Option<u64>)
        ensures
            match first_listed(self@.records) {
                Some(index) => token == Some(self@.records[index].token),
                None => token is None,
            },
    {
        let mut index: usize = 0;
        while index < self.records.len()
            invariant
                index <= self.records@.len(),
                self@.records.len() == self.records@.len(),
                forall|i: int| 0 <= i < index ==> !(#[trigger] self@.records[i]).listed,
            decreases self.records@.len() - index,
        {
            assert(self@.records[index as int] == self.records@[index as int]@);
            if self.records[index].listed {
                assert(first_listed_at(self@.records, index as int));
                proof {
                    lemma_first_listed(self@.records, index as int);
                }
                return Some(self.records[index].token);
            }
            index += 1;
        }
        None
    }

    /// Takes an identity from the list.
    pub(crate) fn unlist(&mut self, id: &[u8; 16])
        ensures
            final(self)@ == (TableModel {
                records: unlisted(old(self)@.records, *id),
                ..old(self)@
            }),
    {
        let ghost before = self.records@;
        let mut index: usize = 0;
        while index < self.records.len()
            invariant
                index <= self.records@.len(),
                self.records@.len() == before.len(),
                before == old(self).records@,
                self.attempts == old(self).attempts,
                self.next_token == old(self).next_token,
                forall|i: int|
                    0 <= i < index ==> (#[trigger] self.records@[i])@ == unlisted_record(
                        before[i]@,
                        *id,
                    ),
                forall|i: int| index <= i < before.len() ==> (#[trigger] self.records@[i])@ == before[i]@,
            decreases self.records@.len() - index,
        {
            if same_bytes(&self.records[index].id, id) {
                self.records[index].listed = false;
            }
            index += 1;
        }
        assert(record_models(self.records@) =~= unlisted(record_models(before), *id));
    }

    /// Takes the record of a token away, with its identity.
    pub(crate) fn take(&mut self, token: u64) -> (taken: bool)
        ensures
            taken == (place_of(old(self)@.records, token) is Some),
            final(self)@ == after_take(old(self)@, token),
    {
        match self.place(token) {
            None => false,
            Some(index) => {
                let ghost before = self.records@;
                let record = self.records.remove(index);
                assert(record_models(self.records@) =~= record_models(before).remove(
                    index as int,
                ));
                self.unlist(&record.id);
                true
            },
        }
    }

    /// Lists a new workspace.
    pub(crate) fn list(
        &mut self,
        id: [u8; 16],
        generation: u64,
        paths: WorkspacePathRegistry,
    ) -> (token: Result<u64, ServiceError>)
        ensures
            token == list_answer(old(self)@, id),
            final(self)@ == after_list(old(self)@, id, generation, paths@),
    {
        if self.listed() >= MAX_ACTIVE_WORKSPACES || self.lists(&id) {
            return Err(ServiceError::Busy);
        }
        if self.next_token == u64::MAX {
            return Err(ServiceError::IdentifierExhausted);
        }
        let token: u64 = self.next_token;
        let ghost before = self.records@;
        let record = TrackedWorkspace { token, id, generation, listed: true, paths };
        self.next_token = token + 1;
        self.records.push(record);
        assert(record_models(self.records@) =~= record_models(before).push(record@));
        Ok(token)
    }

    /// Registers the use of a path in a workspace. Memory for the path may be
    /// refused, and then nothing changes.
    pub(crate) fn use_path(&mut self, token: u64, path: &LogicalWorkspacePath) -> (used: Result<
        (),
        ServiceError,
    >)
        ensures
            used == use_path_answer(old(self)@, token, path@) && final(self)@ == after_use_path(
                old(self)@,
                token,
                path@,
            ) || path_use_refused(old(self)@, token, path@) && used == Err::<(), ServiceError>(
                ServiceError::AllocationFailed,
            ) && final(self)@ == old(self)@,
    {
        match self.place(token) {
            None => Err(ServiceError::StaleCapability),
            Some(index) => {
                let ghost before = self.records@;
                assert(self@.records[index as int] == before[index as int]@);
                let inserted = self.records[index].paths.insert(path);
                assert(record_models(self.records@) =~= record_models(before).update(
                    index as int,
                    self.records@[index as int]@,
                ));
                assert(record_models(before).update(index as int, before[index as int]@)
                    =~= record_models(before));
                match inserted {
                    Ok(()) => Ok(()),
                    Err(error) => Err(map_host_error(error)),
                }
            },
        }
    }
}

} // verus!
