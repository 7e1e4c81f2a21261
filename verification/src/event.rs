//! Events that one operation emits.
use vstd::prelude::*;

use crate::error::ServiceError;

verus! {

/// One bounded phase in an ordinary operation.
#[derive(Clone, Copy, Debug, PartialEq, Eq, Structural)]
#[non_exhaustive]
pub enum OperationPhase {
    Preparing,
    Reading,
    Encrypting,
    Publishing,
    CleaningUp,
}

/// Unit carried by one coalesced progress dimension.
#[derive(Clone, Copy, Debug, PartialEq, Eq, Structural)]
pub enum ProgressUnit {
    Items,
    Bytes,
}

/// Replaceable bounded progress for one operation.
#[derive(Clone, Copy, Debug, PartialEq, Eq, Structural)]
pub struct Progress {
    unit: ProgressUnit,
    completed: u64,
    total: Option<u64>,
}

/// What a progress value says.
pub struct ProgressModel {
    pub unit: ProgressUnit,
    pub completed: u64,
    pub total: Option<u64>,
}

impl View for Progress {
    type V = ProgressModel;

    closed spec fn view(&self) -> ProgressModel {
        ProgressModel { unit: self.unit, completed: self.completed, total: self.total }
    }
}

/// A progress value never reports more work done than its declared total.
pub open spec fn progress_is_consistent(completed: u64, total: Option<u64>) -> bool {
    total is Some ==> completed <= total->0
}

/// Progress of these contents.
pub closed spec fn progress_of(unit: ProgressUnit, completed: u64, total: Option<u64>) -> Progress {
    Progress { unit, completed, total }
}

/// What a progress value holds.
pub proof fn lemma_progress_of(unit: ProgressUnit, completed: u64, total: Option<u64>)
    ensures
        progress_of(unit, completed, total)@ == (ProgressModel { unit, completed, total }),
{
}

impl Progress {
    /// Builds one progress value, refusing one that is past its total.
    pub fn new(unit: ProgressUnit, completed: u64, total: Option<u64>) -> (progress: Result<
        Self,
        ServiceError,
    >)
        ensures
            progress is Ok <==> progress_is_consistent(completed, total),
            progress is Err ==> progress->Err_0 == ServiceError::InvalidProgress,
            progress is Ok ==> progress->Ok_0@ == (ProgressModel { unit, completed, total })
                && progress->Ok_0 == progress_of(unit, completed, total),
    {
        if let Some(bound) = total {
            if completed > bound {
                return Err(ServiceError::InvalidProgress);
            }
        }
        Ok(Progress { unit, completed, total })
    }

    /// Builds progress counted in items.
    pub fn items(completed: u64, total: Option<u64>) -> (progress: Result<Self, ServiceError>)
        ensures
            progress is Ok <==> progress_is_consistent(completed, total),
            progress is Err ==> progress->Err_0 == ServiceError::InvalidProgress,
            progress is Ok ==> progress->Ok_0@ == (ProgressModel {
                unit: ProgressUnit::Items,
                completed,
                total,
            }) && progress->Ok_0 == progress_of(ProgressUnit::Items, completed, total),
    {
        Progress::new(ProgressUnit::Items, completed, total)
    }

    /// Builds progress counted in bytes.
    pub fn bytes(completed: u64, total: Option<u64>) -> (progress: Result<Self, ServiceError>)
        ensures
            progress is Ok <==> progress_is_consistent(completed, total),
            progress is Err ==> progress->Err_0 == ServiceError::InvalidProgress,
            progress is Ok ==> progress->Ok_0@ == (ProgressModel {
                unit: ProgressUnit::Bytes,
                completed,
                total,
            }) && progress->Ok_0 == progress_of(ProgressUnit::Bytes, completed, total),
    {
        Progress::new(ProgressUnit::Bytes, completed, total)
    }

    pub fn unit(&self) -> (unit: ProgressUnit)
        ensures
            unit == self@.unit,
    {
        self.unit
    }

    pub fn completed(&self) -> (completed: u64)
        ensures
            completed == self@.completed,
    {
        self.completed
    }

    pub fn total(&self) -> (total: Option<u64>)
        ensures
            total == self@.total,
    {
        self.total
    }
}

/// Stable warning categories with no arbitrary backend or plaintext detail.
#[derive(Clone, Copy, Debug, PartialEq, Eq, Structural)]
#[non_exhaustive]
pub enum WarningCode {
    CleanupRequired,
    DurabilityPending,
    FreshnessUnprovable,
}

/// Opaque bounded conflict summary.
#[derive(Clone, Copy, Debug, PartialEq, Eq)]
pub struct ConflictSummary([u8; 16]);

impl View for ConflictSummary {
    type V = [u8; 16];

    closed spec fn view(&self) -> [u8; 16] {
        self.0
    }
}

impl ConflictSummary {
    pub fn new(opaque_id: [u8; 16]) -> (summary: Self)
        ensures
            summary@ == opaque_id,
    {
        ConflictSummary(opaque_id)
    }

    pub fn opaque_id(&self) -> (opaque_id: &[u8; 16])
        ensures
            *opaque_id == self@,
    {
        &self.0
    }
}

/// Opaque bounded durability summary.
#[derive(Clone, Copy, Debug, PartialEq, Eq)]
pub struct DurabilitySummary([u8; 16]);

impl View for DurabilitySummary {
    type V = [u8; 16];

    closed spec fn view(&self) -> [u8; 16] {
        self.0
    }
}

/// The durability summary of an identity.
pub closed spec fn durability_summary(opaque_id: [u8; 16]) -> DurabilitySummary {
    DurabilitySummary(opaque_id)
}

impl DurabilitySummary {
    pub fn new(opaque_id: [u8; 16]) -> (summary: Self)
        ensures
            summary@ == opaque_id,
            summary == durability_summary(opaque_id),
    {
        DurabilitySummary(opaque_id)
    }

    pub fn opaque_id(&self) -> (opaque_id: &[u8; 16])
        ensures
            *opaque_id == self@,
    {
        &self.0
    }
}

/// Ordered event emitted by one operation.
#[derive(Clone, Copy, Debug, PartialEq, Eq)]
#[non_exhaustive]
pub enum OperationEvent {
    Started,
    PhaseChanged(OperationPhase),
    Progress(Progress),
    Warning(WarningCode),
    Conflict(ConflictSummary),
    RevisionDurable(DurabilitySummary),
    SaveDetected,
    SyncPublished,
    CleanupRequired,
    Cancelled,
    Completed,
    Failed(ServiceError),
}

/// Events that a later event of the same unit replaces.
pub open spec fn is_replaceable(event: OperationEvent) -> bool {
    event is Progress
}

/// Events that end an operation.
pub open spec fn is_terminal_event(event: OperationEvent) -> bool {
    event is Cancelled || event is Completed || event is Failed
}

impl OperationEvent {
    /// Whether a later event of the same unit replaces this one.
    pub fn replaceable(&self) -> (replaceable: bool)
        ensures
            replaceable == is_replaceable(*self),
    {
        matches!(self, OperationEvent::Progress(_))
    }

    /// Whether this event ends its operation.
    pub fn terminal(&self) -> (terminal: bool)
        ensures
            terminal == is_terminal_event(*self),
    {
        matches!(
            self,
            OperationEvent::Cancelled | OperationEvent::Completed | OperationEvent::Failed(_)
        )
    }
}

} // verus!
