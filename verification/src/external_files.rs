//! Exports to the outside, and the cleanup that each of them owes until it is
//! proven clean.
use vstd::prelude::*;

use crate::memory;
use crate::memory::{reserve_vec, vec_room};
use crate::ports::HostPortError;
use crate::session::errors::RepositoryPortError;

verus! {

/// Maximum exports that are on the way or owe cleanup.
pub const MAX_TRACKED_EXPORTS: usize = 32;

/// Names one export.
#[derive(Clone, Copy, Debug, PartialEq, Eq, Structural)]
pub struct ExportCleanupId(pub u64);

/// Where one export stands.
#[derive(Clone, Copy, Debug, PartialEq, Eq, Structural)]
pub enum CleanupState {
    /// It is on the way.
    InFlight,
    /// Its cleanup is tried again.
    Retrying,
    /// It owes cleanup.
    Pending,
}

/// One tracked export.
#[derive(Clone, Copy, Debug, PartialEq, Eq, Structural)]
pub struct CleanupEntry {
    pub id: ExportCleanupId,
    pub state: CleanupState,
}

/// Every export that is on the way or owes cleanup.
pub struct CleanupRegistry {
    next_id: u64,
    entries: Vec<CleanupEntry>,
    retry_in_progress: bool,
}

/// Contents of a [`CleanupRegistry`].
pub struct CleanupModel {
    pub next_id: u64,
    pub entries: Seq<CleanupEntry>,
    pub retry_in_progress: bool,
}

impl View for CleanupRegistry {
    type V = CleanupModel;

    closed spec fn view(&self) -> CleanupModel {
        CleanupModel {
            next_id: self.next_id,
            entries: self.entries@,
            retry_in_progress: self.retry_in_progress,
        }
    }
}

/// Invariant of the registry: bounded, every identity given out before the next
/// one, and each tracked once.
pub open spec fn cleanup_wf(registry: CleanupModel) -> bool {
    &&& registry.entries.len() <= MAX_TRACKED_EXPORTS
    &&& forall|i: int|
        0 <= i < registry.entries.len() ==> (#[trigger] registry.entries[i]).id.0
            < registry.next_id
    &&& forall|i: int, j: int|
        0 <= i < j < registry.entries.len() ==> (#[trigger] registry.entries[i]).id != (
        #[trigger] registry.entries[j]).id
}

/// A registry without exports.
pub open spec fn empty_cleanup() -> CleanupModel {
    CleanupModel { next_id: 1, entries: Seq::empty(), retry_in_progress: false }
}

/// Whether the first entry of an export stands at a place.
pub open spec fn entry_at(entries: Seq<CleanupEntry>, id: ExportCleanupId, index: int) -> bool {
    &&& 0 <= index < entries.len()
    &&& entries[index].id == id
    &&& forall|i: int| 0 <= i < index ==> (#[trigger] entries[i]).id != id
}

/// The place of an export, where it is tracked.
pub open spec fn place_of(entries: Seq<CleanupEntry>, id: ExportCleanupId) -> Option<int> {
    if exists|index: int| entry_at(entries, id, index) {
        Some(choose|index: int| entry_at(entries, id, index))
    } else {
        None
    }
}

/// A place found by its definition is the place.
pub proof fn lemma_place_of(entries: Seq<CleanupEntry>, id: ExportCleanupId, index: int)
    requires
        entry_at(entries, id, index),
    ensures
        place_of(entries, id) == Some(index),
{
    let chosen = choose|index: int| entry_at(entries, id, index);
    assert(entry_at(entries, id, chosen));
    if chosen < index {
        assert(entries[chosen].id != id);
    }
    if index < chosen {
        assert(entries[index].id != id);
    }
}

/// The registry after one more export was reserved.
pub open spec fn after_reserve(registry: CleanupModel) -> CleanupModel {
    CleanupModel {
        next_id: (registry.next_id + 1) as u64,
        entries: registry.entries.push(
            CleanupEntry { id: ExportCleanupId(registry.next_id), state: CleanupState::InFlight },
        ),
        ..registry
    }
}

/// A list without the entry at a place: the last one takes its place.
pub open spec fn swap_removed(entries: Seq<CleanupEntry>, index: int) -> Seq<CleanupEntry> {
    entries.update(index, entries.last()).drop_last()
}

/// What the end of an export answers.
pub open spec fn finish_answer(registry: CleanupModel, id: ExportCleanupId) -> Result<
    (),
    HostPortError,
> {
    if place_of(registry.entries, id) is Some {
        Ok(())
    } else {
        Err(HostPortError::StaleCapability)
    }
}

/// The registry after an export ended.
pub open spec fn after_finish(registry: CleanupModel, id: ExportCleanupId) -> CleanupModel {
    match place_of(registry.entries, id) {
        Some(index) => CleanupModel { entries: swap_removed(registry.entries, index), ..registry },
        None => registry,
    }
}

/// The registry after an export changed its state.
pub open spec fn with_state(registry: CleanupModel, id: ExportCleanupId, state: CleanupState) -> CleanupModel {
    match place_of(registry.entries, id) {
        Some(index) => CleanupModel {
            entries: registry.entries.update(index, CleanupEntry { id, state }),
            ..registry
        },
        None => registry,
    }
}

/// Exports among the first that owe cleanup, in order.
pub open spec fn pending_among(entries: Seq<CleanupEntry>, count: nat) -> Seq<ExportCleanupId>
    decreases count,
{
    if count == 0 {
        Seq::empty()
    } else {
        let before = pending_among(entries, (count - 1) as nat);
        if entries[count - 1].state is Pending {
            before.push(entries[count - 1].id)
        } else {
            before
        }
    }
}

/// Exports that owe cleanup, in order.
pub open spec fn pending_of(registry: CleanupModel) -> Seq<ExportCleanupId> {
    pending_among(registry.entries, registry.entries.len())
}

/// What the track of one more export meets, where room for it was granted or not.
pub open spec fn reserve_answer(registry: CleanupModel, granted: bool) -> Result<
    ExportCleanupId,
    HostPortError,
> {
    if registry.entries.len() == MAX_TRACKED_EXPORTS {
        Err(HostPortError::CapacityExceeded)
    } else if !granted {
        Err(HostPortError::AllocationFailed)
    } else if registry.next_id == u64::MAX {
        Err(HostPortError::CapacityExceeded)
    } else {
        Ok(ExportCleanupId(registry.next_id))
    }
}

/// Whether the allocator may have refused room for the identities of all exports.
pub open spec fn ids_refused(registry: CleanupModel) -> bool {
    memory::vec_refused(Seq::<ExportCleanupId>::empty(), pending_of(registry).len() as int)
}

/// Whether an export owes cleanup that nobody tries.
pub open spec fn is_pending(registry: CleanupModel, id: ExportCleanupId) -> bool {
    place_of(registry.entries, id) is Some && registry.entries[place_of(
        registry.entries,
        id,
    )->0].state is Pending
}

impl CleanupRegistry {
    pub fn new() -> (registry: Self)
        ensures
            registry@ == empty_cleanup(),
    {
        let registry = CleanupRegistry {
            next_id: 1,
            entries: Vec::new(),
            retry_in_progress: false,
        };
        assert(registry@.entries =~= Seq::<CleanupEntry>::empty());
        registry
    }

    fn place(&self, id: ExportCleanupId) -> (place: Option<usize>)
        ensures
            match place {
                Some(index) => place_of(self@.entries, id) == Some(index as int) && index
                    < self.entries@.len(),
                None => place_of(self@.entries, id) is None,
            },
    {
        let mut index: usize = 0;
        while index < self.entries.len()
            invariant
                index <= self.entries@.len(),
                forall|i: int| 0 <= i < index ==> (#[trigger] self.entries@[i]).id != id,
            decreases self.entries@.len() - index,
        {
            if self.entries[index].id == id {
                proof {
                    lemma_place_of(self@.entries, id, index as int);
                }
                return Some(index);
            }
            index += 1;
        }
        None
    }

    /// Tracks one more export that begins.
    pub fn reserve(&mut self) -> (id: Result<ExportCleanupId, HostPortError>)
        ensures
            match id {
                Ok(id) => old(self)@.entries.len() != MAX_TRACKED_EXPORTS && old(self)@.next_id
                    < u64::MAX && id == ExportCleanupId(old(self)@.next_id) && final(self)@
                    == after_reserve(old(self)@),
                Err(error) => final(self)@ == old(self)@ && if old(self)@.entries.len()
                    == MAX_TRACKED_EXPORTS {
                    error == HostPortError::CapacityExceeded
                } else {
                    error == HostPortError::AllocationFailed && memory::vec_refused(
                        old(self)@.entries,
                        1,
                    ) || error == HostPortError::CapacityExceeded && old(self)@.next_id == u64::MAX
                },
            },
    {
        let granted = self.entries.len() != MAX_TRACKED_EXPORTS && reserve_vec(
            &mut self.entries,
            1,
        );
        self.reserve_over(granted)
    }

    /// Tracks one more export that begins, where room for it was granted.
    pub fn reserve_over(&mut self, granted: bool) -> (id: Result<ExportCleanupId, HostPortError>)
        ensures
            id == reserve_answer(old(self)@, granted),
            final(self)@ == if id is Ok {
                after_reserve(old(self)@)
            } else {
                old(self)@
            },
    {
        if self.entries.len() == MAX_TRACKED_EXPORTS {
            return Err(HostPortError::CapacityExceeded);
        }
        if !granted {
            return Err(HostPortError::AllocationFailed);
        }
        if self.next_id == u64::MAX {
            return Err(HostPortError::CapacityExceeded);
        }
        let id = ExportCleanupId(self.next_id);
        self.next_id = self.next_id + 1;
        self.entries.push(CleanupEntry { id, state: CleanupState::InFlight });
        Ok(id)
    }

    /// Ends an export that owes nothing any more.
    pub fn finish(&mut self, id: ExportCleanupId) -> (finished: Result<(), HostPortError>)
        ensures
            finished == finish_answer(old(self)@, id),
            final(self)@ == after_finish(old(self)@, id),
    {
        match self.place(id) {
            None => Err(HostPortError::StaleCapability),
            Some(index) => {
                let ghost before = self.entries@;
                self.entries.swap_remove(index);
                assert(self.entries@ =~= swap_removed(before, index as int));
                Ok(())
            },
        }
    }

    /// Notes that an export owes cleanup.
    pub fn retain(&mut self, id: ExportCleanupId)
        ensures
            final(self)@ == with_state(old(self)@, id, CleanupState::Pending),
    {
        if let Some(index) = self.place(id) {
            self.entries.set(index, CleanupEntry { id, state: CleanupState::Pending });
        }
    }

    /// The exports that owe cleanup.
    pub fn pending_ids(&self) -> (ids: Result<Vec<ExportCleanupId>, HostPortError>)
        ensures
            match ids {
                Ok(ids) => ids@ == pending_of(self@),
                Err(error) => error == HostPortError::AllocationFailed && ids_refused(self@),
            },
            pending_of(self@).len() == 0 ==> ids is Ok,
    {
        self.pending_ids_over(vec_room(self.pending_count()))
    }

    /// How many exports owe cleanup.
    fn pending_count(&self) -> (count: usize)
        ensures
            count == pending_of(self@).len(),
    {
        let mut count: usize = 0;
        let mut index: usize = 0;
        while index < self.entries.len()
            invariant
                count <= index <= self.entries@.len(),
                count == pending_among(self.entries@, index as nat).len(),
            decreases self.entries@.len() - index,
        {
            if self.entries[index].state == CleanupState::Pending {
                count += 1;
            }
            index += 1;
        }
        count
    }

    /// The exports that owe cleanup, in the room for them, or not where the room was
    /// refused.
    pub fn pending_ids_over(&self, room: Option<Vec<ExportCleanupId>>) -> (ids: Result<
        Vec<ExportCleanupId>,
        HostPortError,
    >)
        requires
            room is Some ==> room->0@ == Seq::<ExportCleanupId>::empty(),
        ensures
            room is None ==> ids == Err::<Vec<ExportCleanupId>, HostPortError>(
                HostPortError::AllocationFailed,
            ),
            room is Some ==> ids is Ok && ids->Ok_0@ == pending_of(self@),
    {
        let mut ids = match room {
            Some(room) => room,
            None => return Err(HostPortError::AllocationFailed),
        };
        let mut index: usize = 0;
        while index < self.entries.len()
            invariant
                index <= self.entries@.len(),
                ids@ == pending_among(self.entries@, index as nat),
            decreases self.entries@.len() - index,
        {
            if self.entries[index].state == CleanupState::Pending {
                ids.push(self.entries[index].id);
            }
            index += 1;
        }
        Ok(ids)
    }

    /// Begins to try the cleanup again, for everything that owes it. Only one
    /// such try is made at a time.
    pub fn begin_retry(&mut self) -> (ids: Result<Vec<ExportCleanupId>, HostPortError>)
        ensures
            match ids {
                Ok(ids) => !old(self)@.retry_in_progress && ids@ == pending_of(old(self)@)
                    && final(self)@ == (CleanupModel { retry_in_progress: true, ..old(self)@ }),
                Err(error) => final(self)@ == old(self)@ && if old(self)@.retry_in_progress {
                    error == HostPortError::LiveWorkspace
                } else {
                    error == HostPortError::AllocationFailed && ids_refused(old(self)@)
                },
            },
    {
        if self.retry_in_progress {
            return Err(HostPortError::LiveWorkspace);
        }
        match self.pending_ids() {
            Ok(ids) => {
                self.retry_in_progress = true;
                Ok(ids)
            },
            Err(error) => Err(error),
        }
    }

    /// Ends a try.
    pub fn end_retry(&mut self)
        ensures
            final(self)@ == (CleanupModel { retry_in_progress: false, ..old(self)@ }),
    {
        self.retry_in_progress = false;
    }

    /// Takes an export whose cleanup is tried.
    pub fn take_pending(&mut self, id: ExportCleanupId) -> (taken: Result<(), HostPortError>)
        ensures
            taken == if is_pending(old(self)@, id) {
                Ok(())
            } else {
                Err(HostPortError::StaleCapability)
            },
            final(self)@ == if is_pending(old(self)@, id) {
                with_state(old(self)@, id, CleanupState::Retrying)
            } else {
                old(self)@
            },
    {
        match self.place(id) {
            None => Err(HostPortError::StaleCapability),
            Some(index) => {
                if self.entries[index].state != CleanupState::Pending {
                    return Err(HostPortError::StaleCapability);
                }
                self.entries.set(index, CleanupEntry { id, state: CleanupState::Retrying });
                Ok(())
            },
        }
    }
}

/// One try to clean up everything that owes it.
pub struct CleanupRetry {
    ids: Vec<ExportCleanupId>,
    next: usize,
    failed: bool,
    unexpected: Option<HostPortError>,
}

/// Contents of a [`CleanupRetry`].
pub struct RetryModel {
    pub rest: Seq<ExportCleanupId>,
    pub failed: bool,
    pub unexpected: Option<HostPortError>,
}

impl View for CleanupRetry {
    type V = RetryModel;

    closed spec fn view(&self) -> RetryModel {
        RetryModel {
            rest: self.ids@.skip(self.next as int),
            failed: self.failed,
            unexpected: self.unexpected,
        }
    }
}

/// What a whole try answers.
pub open spec fn retry_answer(retry: RetryModel) -> Result<(), HostPortError> {
    match retry.unexpected {
        Some(error) => Err(error),
        None => if retry.failed {
            Err(HostPortError::CleanupFailed)
        } else {
            Ok(())
        },
    }
}

impl CleanupRetry {
    #[verifier::type_invariant]
    closed spec fn next_is_bounded(self) -> bool {
        self.next <= self.ids@.len()
    }

    /// Begins a try.
    pub fn begin(registry: &mut CleanupRegistry) -> (retry: Result<Self, HostPortError>)
        ensures
            match retry {
                Ok(retry) => !old(registry)@.retry_in_progress && retry@ == (RetryModel {
                    rest: pending_of(old(registry)@),
                    failed: false,
                    unexpected: None,
                }) && final(registry)@ == (CleanupModel {
                    retry_in_progress: true,
                    ..old(registry)@
                }),
                Err(error) => final(registry)@ == old(registry)@ && if old(
                    registry,
                )@.retry_in_progress {
                    error == HostPortError::LiveWorkspace
                } else {
                    error == HostPortError::AllocationFailed && ids_refused(old(registry)@)
                },
            },
    {
        match registry.begin_retry() {
            Ok(ids) => {
                let retry = CleanupRetry { ids, next: 0, failed: false, unexpected: None };
                assert(retry@.rest =~= retry.ids@);
                Ok(retry)
            },
            Err(error) => Err(error),
        }
    }

    /// The next export whose cleanup is to be tried. One that owes no cleanup ends
    /// the try.
    pub fn next(self, registry: &mut CleanupRegistry) -> (turn: (Self, Option<ExportCleanupId>))
        ensures
            self@.unexpected is Some || self@.rest.len() == 0 ==> turn.0@ == self@ && turn.1
                is None && final(registry)@ == old(registry)@,
            self@.unexpected is None && self@.rest.len() > 0 ==> if is_pending(
                old(registry)@,
                self@.rest[0],
            ) {
                turn.0@ == (RetryModel { rest: self@.rest.drop_first(), ..self@ }) && turn.1
                    == Some(self@.rest[0]) && final(registry)@ == with_state(
                    old(registry)@,
                    self@.rest[0],
                    CleanupState::Retrying,
                )
            } else {
                turn.0@ == (RetryModel {
                    rest: self@.rest.drop_first(),
                    unexpected: Some(HostPortError::StaleCapability),
                    ..self@
                }) && turn.1 is None && final(registry)@ == old(registry)@
            },
    {
        proof {
            use_type_invariant(&self);
        }
        if self.unexpected.is_some() || self.next >= self.ids.len() {
            return (self, None);
        }
        let CleanupRetry { ids, next, failed, unexpected } = self;
        let id = ids[next];
        let ghost rest = ids@.skip(next as int);
        assert(ids@.skip(next + 1) =~= rest.drop_first());
        match registry.take_pending(id) {
            Ok(()) => (CleanupRetry { ids, next: next + 1, failed, unexpected }, Some(id)),
            Err(error) => (
                CleanupRetry { ids, next: next + 1, failed, unexpected: Some(error) },
                None,
            ),
        }
    }

    /// Notes whether the cleanup of an export succeeded.
    pub fn retried(self, registry: &mut CleanupRegistry, id: ExportCleanupId, clean: bool) -> (retry:
        Self)
        ensures
            retry@ == (RetryModel { failed: self@.failed || !clean, ..self@ }),
            final(registry)@ == if clean {
                after_finish(old(registry)@, id)
            } else {
                with_state(old(registry)@, id, CleanupState::Pending)
            },
    {
        proof {
            use_type_invariant(&self);
        }
        let CleanupRetry { ids, next, failed, unexpected } = self;
        if clean {
            let _ = registry.finish(id);
            CleanupRetry { ids, next, failed, unexpected }
        } else {
            registry.retain(id);
            CleanupRetry { ids, next, failed: true, unexpected }
        }
    }

    /// Ends the try.
    pub fn end(self, registry: &mut CleanupRegistry) -> (answer: Result<(), HostPortError>)
        ensures
            answer == retry_answer(self@),
            final(registry)@ == (CleanupModel { retry_in_progress: false, ..old(registry)@ }),
    {
        registry.end_retry();
        match self.unexpected {
            Some(error) => Err(error),
            None => if self.failed {
                Err(HostPortError::CleanupFailed)
            } else {
                Ok(())
            },
        }
    }
}

/// Failures of the platform that the service tells apart.
#[derive(Clone, Copy, Debug, PartialEq, Eq, Structural)]
pub enum PlatformErrorKind {
    AlreadyExists,
    InvalidData,
    InvalidInput,
    PermissionDenied,
    OutOfMemory,
    NotFound,
    Unsupported,
    Other,
}

/// How a failure of the platform reaches the service.
pub open spec fn platform_failure(kind: PlatformErrorKind) -> HostPortError {
    match kind {
        PlatformErrorKind::InvalidInput
        | PlatformErrorKind::InvalidData => HostPortError::InvalidInput,
        PlatformErrorKind::PermissionDenied => HostPortError::Denied,
        PlatformErrorKind::OutOfMemory => HostPortError::AllocationFailed,
        PlatformErrorKind::NotFound | PlatformErrorKind::Unsupported => HostPortError::Unavailable,
        _ => HostPortError::PlatformFailure,
    }
}

/// How a failure of the platform reaches the service.
pub fn map_platform_error(kind: PlatformErrorKind) -> (mapped: HostPortError)
    ensures
        mapped == platform_failure(kind),
{
    match kind {
        PlatformErrorKind::InvalidInput
        | PlatformErrorKind::InvalidData => HostPortError::InvalidInput,
        PlatformErrorKind::PermissionDenied => HostPortError::Denied,
        PlatformErrorKind::OutOfMemory => HostPortError::AllocationFailed,
        PlatformErrorKind::NotFound | PlatformErrorKind::Unsupported => HostPortError::Unavailable,
        _ => HostPortError::PlatformFailure,
    }
}

/// How a failure of the platform reaches the repository.
pub open spec fn platform_repository_failure(kind: PlatformErrorKind) -> RepositoryPortError {
    match platform_failure(kind) {
        HostPortError::InvalidInput => RepositoryPortError::InvalidInput,
        HostPortError::AllocationFailed => RepositoryPortError::AllocationFailed,
        HostPortError::Unavailable => RepositoryPortError::Unavailable,
        _ => RepositoryPortError::PlatformFailure,
    }
}

/// How a failure of the platform reaches the repository.
pub fn map_platform_repository_error(kind: PlatformErrorKind) -> (mapped: RepositoryPortError)
    ensures
        mapped == platform_repository_failure(kind),
{
    match map_platform_error(kind) {
        HostPortError::InvalidInput => RepositoryPortError::InvalidInput,
        HostPortError::AllocationFailed => RepositoryPortError::AllocationFailed,
        HostPortError::Unavailable => RepositoryPortError::Unavailable,
        _ => RepositoryPortError::PlatformFailure,
    }
}

/// How a look at an imported source that failed reaches the repository: one that
/// changed is stale.
pub fn map_import_validation(kind: PlatformErrorKind) -> (mapped: RepositoryPortError)
    ensures
        mapped == if kind is InvalidData {
            RepositoryPortError::StaleCapability
        } else {
            platform_repository_failure(kind)
        },
{
    if kind == PlatformErrorKind::InvalidData {
        RepositoryPortError::StaleCapability
    } else {
        map_platform_repository_error(kind)
    }
}

/// How an export that could not begin, and owes nothing, reaches the service.
pub open spec fn begin_failure(kind: PlatformErrorKind) -> HostPortError {
    match kind {
        PlatformErrorKind::AlreadyExists => HostPortError::DestinationExists,
        PlatformErrorKind::InvalidData => HostPortError::StaleCapability,
        PlatformErrorKind::InvalidInput => HostPortError::InvalidInput,
        PlatformErrorKind::PermissionDenied => HostPortError::Denied,
        PlatformErrorKind::OutOfMemory => HostPortError::AllocationFailed,
        PlatformErrorKind::NotFound | PlatformErrorKind::Unsupported => HostPortError::Unavailable,
        PlatformErrorKind::Other => HostPortError::PlatformFailure,
    }
}

/// Notes that an export could not begin. Where it owes cleanup, that is what the
/// service is told.
pub fn retain_and_map_export_begin_error(
    registry: &mut CleanupRegistry,
    id: ExportCleanupId,
    kind: PlatformErrorKind,
    owes_cleanup: bool,
) -> (mapped: HostPortError)
    ensures
        mapped == if owes_cleanup {
            HostPortError::CleanupFailed
        } else {
            begin_failure(kind)
        },
        final(registry)@ == if owes_cleanup {
            with_state(old(registry)@, id, CleanupState::Pending)
        } else {
            after_finish(old(registry)@, id)
        },
{
    if owes_cleanup {
        registry.retain(id);
        return HostPortError::CleanupFailed;
    }
    let _ = registry.finish(id);
    match kind {
        PlatformErrorKind::AlreadyExists => HostPortError::DestinationExists,
        PlatformErrorKind::InvalidData => HostPortError::StaleCapability,
        PlatformErrorKind::InvalidInput => HostPortError::InvalidInput,
        PlatformErrorKind::PermissionDenied => HostPortError::Denied,
        PlatformErrorKind::OutOfMemory => HostPortError::AllocationFailed,
        PlatformErrorKind::NotFound | PlatformErrorKind::Unsupported => HostPortError::Unavailable,
        PlatformErrorKind::Other => HostPortError::PlatformFailure,
    }
}

/// How a publication that failed reaches the service. One that may have had an
/// effect is not known to be durable.
pub fn map_export_publish_attempt(may_be_published: bool, kind: PlatformErrorKind) -> (mapped:
    HostPortError)
    ensures
        mapped == if may_be_published {
            HostPortError::DurabilityPending
        } else {
            match kind {
                PlatformErrorKind::AlreadyExists => HostPortError::DestinationExists,
                PlatformErrorKind::InvalidData => HostPortError::StaleCapability,
                _ => HostPortError::PlatformFailure,
            }
        },
{
    if may_be_published {
        return HostPortError::DurabilityPending;
    }
    match kind {
        PlatformErrorKind::AlreadyExists => HostPortError::DestinationExists,
        PlatformErrorKind::InvalidData => HostPortError::StaleCapability,
        _ => HostPortError::PlatformFailure,
    }
}

/// One export that began.
pub struct PlatformExportTransaction {
    id: ExportCleanupId,
    open: bool,
}

impl View for PlatformExportTransaction {
    type V = (ExportCleanupId, bool);

    closed spec fn view(&self) -> (ExportCleanupId, bool) {
        (self.id, self.open)
    }
}

/// What a publication of an export leads to.
#[derive(Clone, Copy, Debug, PartialEq, Eq)]
pub enum ExportStep {
    /// It is over.
    Ended(Result<(), HostPortError>),
    /// The export is given up, and this failure is reported if that succeeds.
    Abort(HostPortError),
}

impl PlatformExportTransaction {
    pub fn new(id: ExportCleanupId) -> (transaction: Self)
        ensures
            transaction@ == (id, true),
    {
        PlatformExportTransaction { id, open: true }
    }

    pub fn id(&self) -> (id: ExportCleanupId)
        ensures
            id == self@.0,
    {
        self.id
    }

    /// Whether the export still can be written and published.
    pub fn check_open(&self) -> (checked: Result<(), HostPortError>)
        ensures
            checked == if self@.1 {
                Ok(())
            } else {
                Err(HostPortError::StaleCapability)
            },
    {
        if self.open {
            Ok(())
        } else {
            Err(HostPortError::StaleCapability)
        }
    }

    /// Takes note of an authorized publication: what the attempt answered, where
    /// one was made, and what the authorization answered.
    pub fn published(
        &mut self,
        registry: &mut CleanupRegistry,
        attempt_failure: Option<HostPortError>,
        authorized: Result<(), HostPortError>,
    ) -> (step: ExportStep)
        ensures
            step == match (attempt_failure, authorized) {
                (Some(error), _) => ExportStep::Abort(error),
                (None, Err(error)) => ExportStep::Abort(error),
                (None, Ok(())) => ExportStep::Ended(finish_answer(old(registry)@, old(self)@.0)),
            },
            attempt_failure is None && authorized is Ok ==> final(self)@ == (
                old(self)@.0,
                false,
            ) && final(registry)@ == after_finish(old(registry)@, old(self)@.0),
            attempt_failure is Some || authorized is Err ==> final(self)@ == old(self)@
                && final(registry)@ == old(registry)@,
    {
        match (attempt_failure, authorized) {
            (Some(error), _) => ExportStep::Abort(error),
            (None, Err(error)) => ExportStep::Abort(error),
            (None, Ok(())) => {
                self.open = false;
                ExportStep::Ended(registry.finish(self.id))
            },
        }
    }

    /// Ends an export that was given up. `clean` says whether nothing is left of
    /// it; otherwise it owes cleanup.
    pub fn aborted(&mut self, registry: &mut CleanupRegistry, clean: bool) -> (answer: Result<
        (),
        HostPortError,
    >)
        ensures
            final(self)@ == (old(self)@.0, false),
            !old(self)@.1 ==> answer == Err::<(), HostPortError>(HostPortError::StaleCapability)
                && final(registry)@ == old(registry)@,
            old(self)@.1 && clean ==> answer == finish_answer(old(registry)@, old(self)@.0)
                && final(registry)@ == after_finish(old(registry)@, old(self)@.0),
            old(self)@.1 && !clean ==> answer == Err::<(), HostPortError>(
                HostPortError::CleanupFailed,
            ) && final(registry)@ == with_state(
                old(registry)@,
                old(self)@.0,
                CleanupState::Pending,
            ),
    {
        if !self.open {
            return Err(HostPortError::StaleCapability);
        }
        self.open = false;
        if clean {
            registry.finish(self.id)
        } else {
            registry.retain(self.id);
            Err(HostPortError::CleanupFailed)
        }
    }
}

/// What a publication that was given up reports.
pub fn abandoned_publication(primary: HostPortError, aborted: Result<(), HostPortError>) -> (answer:
    HostPortError)
    ensures
        answer == match aborted {
            Ok(()) => primary,
            Err(error) => error,
        },
{
    match aborted {
        Ok(()) => primary,
        Err(error) => error,
    }
}

} // verus!
