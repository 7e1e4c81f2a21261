//! The slot of a root capability and the workspaces that a root finds again.
use vstd::prelude::*;

use crate::bytes::same_bytes;
use crate::memory;
use crate::memory::vec_room;
use crate::ports::workspace::WorkspaceId;
use crate::session::errors::RepositoryPortError;
use crate::session::workspaces::MAX_ACTIVE_WORKSPACES;

verus! {

/// Reserves room for the elements of a list that an adapter owns.
pub fn try_reserve_repository_vec<T>(length: usize, maximum: usize) -> (room: Result<
    Vec<T>,
    RepositoryPortError,
>)
    ensures
        length > maximum ==> room == Err::<Vec<T>, RepositoryPortError>(
            RepositoryPortError::CapacityExceeded,
        ),
        length <= maximum ==> match room {
            Ok(room) => room@ == Seq::<T>::empty(),
            Err(error) => error == RepositoryPortError::AllocationFailed && memory::vec_refused(
                Seq::<T>::empty(),
                length as int,
            ),
        },
        length == 0 ==> room is Ok,
{
    if length > maximum {
        return Err(RepositoryPortError::CapacityExceeded);
    }
    match vec_room(length) {
        Some(room) => Ok(room),
        None => Err(RepositoryPortError::AllocationFailed),
    }
}

/// Moves the elements of a list that an adapter owns into a list of exact room.
pub fn try_rehome_repository_vec<T>(source: Vec<T>, maximum: usize) -> (kept: Result<
    Vec<T>,
    RepositoryPortError,
>)
    ensures
        source@.len() > maximum ==> kept == Err::<Vec<T>, RepositoryPortError>(
            RepositoryPortError::CapacityExceeded,
        ),
        source@.len() <= maximum ==> match kept {
            Ok(kept) => kept@ == source@,
            Err(error) => error == RepositoryPortError::AllocationFailed && memory::vec_refused(
                Seq::<T>::empty(),
                source@.len() as int,
            ),
        },
        source@.len() == 0 ==> kept is Ok,
{
    let room = try_reserve_repository_vec(source.len(), maximum);
    rehomed(source, room)
}

/// Moves the elements of a list into its room, or not where the room was refused.
pub fn rehomed<T>(source: Vec<T>, room: Result<Vec<T>, RepositoryPortError>) -> (kept: Result<
    Vec<T>,
    RepositoryPortError,
>)
    requires
        room is Ok ==> room->Ok_0@ == Seq::<T>::empty(),
    ensures
        room matches Err(error) ==> kept == Err::<Vec<T>, RepositoryPortError>(error),
        room is Ok ==> kept is Ok && kept->Ok_0@ == source@,
{
    match room {
        Ok(room) => {
            let mut kept: Vec<T> = room;
            let mut source = source;
            kept.append(&mut source);
            Ok(kept)
        },
        Err(error) => Err(error),
    }
}

/// One root capability: whether it takes new work, and whether it is there.
pub struct RootCapabilitySlot {
    accepting: bool,
    present: bool,
}

/// Contents of a [`RootCapabilitySlot`].
pub struct SlotModel {
    pub accepting: bool,
    pub present: bool,
}

impl View for RootCapabilitySlot {
    type V = SlotModel;

    closed spec fn view(&self) -> SlotModel {
        SlotModel { accepting: self.accepting, present: self.present }
    }
}

/// What becomes of a value that a root handed out.
pub enum Handover<T> {
    /// The caller has it.
    Keep(T),
    /// It is given back, and the caller learns that the root is locked.
    GiveBack(T),
}

/// What an entry into the root answers.
pub open spec fn enter_answer(slot: SlotModel) -> Result<(), RepositoryPortError> {
    if slot.accepting && slot.present {
        Ok(())
    } else {
        Err(RepositoryPortError::Locked)
    }
}

/// What a call through the root hands on. What the root handed out after it
/// stopped taking work is given back.
pub open spec fn leave_answer<T>(slot: SlotModel, result: Result<T, RepositoryPortError>) -> Result<
    Handover<T>,
    RepositoryPortError,
> {
    match result {
        Err(error) => Err(error),
        Ok(value) => Ok(
            if slot.accepting {
                Handover::Keep(value)
            } else {
                Handover::GiveBack(value)
            },
        ),
    }
}

impl RootCapabilitySlot {
    /// The slot of a root that was just unlocked.
    pub fn new() -> (slot: Self)
        ensures
            slot@ == (SlotModel { accepting: true, present: true }),
    {
        RootCapabilitySlot { accepting: true, present: true }
    }

    /// Stops new work.
    pub fn begin_close(&mut self)
        ensures
            final(self)@ == (SlotModel { accepting: false, ..old(self)@ }),
    {
        self.accepting = false;
    }

    /// Takes the root out to close it, once.
    pub fn close(&mut self) -> (taken: Result<(), RepositoryPortError>)
        ensures
            taken == if old(self)@.present {
                Ok(())
            } else {
                Err(RepositoryPortError::Locked)
            },
            final(self)@ == (SlotModel { present: false, ..old(self)@ }),
    {
        if !self.present {
            return Err(RepositoryPortError::Locked);
        }
        self.present = false;
        Ok(())
    }

    /// Checks that the root is there.
    pub fn check_present(&self) -> (checked: Result<(), RepositoryPortError>)
        ensures
            checked == if self@.present {
                Ok(())
            } else {
                Err(RepositoryPortError::Locked)
            },
    {
        if self.present {
            Ok(())
        } else {
            Err(RepositoryPortError::Locked)
        }
    }

    /// Checks that the root takes work.
    pub fn enter(&self) -> (entered: Result<(), RepositoryPortError>)
        ensures
            entered == enter_answer(self@),
    {
        if self.accepting && self.present {
            Ok(())
        } else {
            Err(RepositoryPortError::Locked)
        }
    }

    /// Decides about the result of a call through the root.
    pub fn leave<T>(&self, result: Result<T, RepositoryPortError>) -> (left: Result<
        Handover<T>,
        RepositoryPortError,
    >)
        ensures
            left == leave_answer(self@, result),
    {
        match result {
            Err(error) => Err(error),
            Ok(value) => if self.accepting {
                Ok(Handover::Keep(value))
            } else {
                Ok(Handover::GiveBack(value))
            },
        }
    }
}

/// One workspace that the store authenticated.
pub enum AuthenticatedWorkspaceCapability {
    Registered(WorkspaceId),
    Active(WorkspaceId),
}

/// The identity of an authenticated workspace.
pub open spec fn identity_of(record: AuthenticatedWorkspaceCapability) -> [u8; 16] {
    match record {
        AuthenticatedWorkspaceCapability::Registered(id) => id@,
        AuthenticatedWorkspaceCapability::Active(id) => id@,
    }
}

impl AuthenticatedWorkspaceCapability {
    pub fn workspace_id(&self) -> (id: &WorkspaceId)
        ensures
            id@ == identity_of(*self),
    {
        match self {
            AuthenticatedWorkspaceCapability::Registered(id) => id,
            AuthenticatedWorkspaceCapability::Active(id) => id,
        }
    }
}

/// What a reconciliation does next.
#[derive(Clone, Copy, Debug, PartialEq, Eq)]
pub enum ReconcileStep {
    /// Activate the registered workspace at this place.
    Activate(usize),
    /// Unregister the active workspace at this place if it is absent.
    UnregisterAbsent(usize),
    /// The reconciliation is over.
    Done(Result<(), RepositoryPortError>),
}

/// The reconciliation of the authenticated workspaces after an unlock.
pub struct Reconciliation {
    records: Vec<AuthenticatedWorkspaceCapability>,
    index: usize,
}

/// Contents of a [`Reconciliation`].
pub struct ReconcileModel {
    pub records: Seq<AuthenticatedWorkspaceCapability>,
    pub index: usize,
}

impl View for Reconciliation {
    type V = ReconcileModel;

    closed spec fn view(&self) -> ReconcileModel {
        ReconcileModel { records: self.records@, index: self.index }
    }
}

/// The step for the workspace that comes next.
pub open spec fn next_step(model: ReconcileModel) -> ReconcileStep {
    if model.index >= model.records.len() {
        ReconcileStep::Done(Ok(()))
    } else {
        match model.records[model.index as int] {
            AuthenticatedWorkspaceCapability::Registered(_) => ReconcileStep::Activate(
                model.index,
            ),
            AuthenticatedWorkspaceCapability::Active(_) => ReconcileStep::UnregisterAbsent(
                model.index,
            ),
        }
    }
}

/// The step after the workspace that comes next was activated: the activation
/// has to name the workspace that was registered.
pub open spec fn activated_step(
    model: ReconcileModel,
    activated: Result<[u8; 16], RepositoryPortError>,
) -> ReconcileStep {
    if model.index >= model.records.len() {
        ReconcileStep::Done(Ok(()))
    } else {
        match activated {
            Err(error) => ReconcileStep::Done(Err(error)),
            Ok(id) => if id == identity_of(model.records[model.index as int]) {
                ReconcileStep::UnregisterAbsent(model.index)
            } else {
                ReconcileStep::Done(Err(RepositoryPortError::IntegrityFailed))
            },
        }
    }
}

/// The reconciliation after the workspace that comes next was looked at.
pub open spec fn advanced(model: ReconcileModel) -> ReconcileModel {
    ReconcileModel {
        index: if model.index < model.records.len() {
            (model.index + 1) as usize
        } else {
            model.index
        },
        ..model
    }
}

/// Whether a workspace that was looked at lets the reconciliation go on: it
/// left the store, or it is still in use.
pub open spec fn goes_on(unregistered: Result<(), RepositoryPortError>) -> bool {
    unregistered is Ok || unregistered == Err::<(), RepositoryPortError>(RepositoryPortError::Busy)
}

impl Reconciliation {
    /// Begins with the workspaces that the root authenticated. Their list is
    /// kept only within its bound.
    pub fn begin(
        slot: &RootCapabilitySlot,
        records: Result<Vec<AuthenticatedWorkspaceCapability>, RepositoryPortError>,
    ) -> (begun: Result<Self, RepositoryPortError>)
        ensures
            !slot@.present ==> begun == Err::<Self, RepositoryPortError>(
                RepositoryPortError::Locked,
            ),
            slot@.present ==> match records {
                Err(error) => begun == Err::<Self, RepositoryPortError>(error),
                Ok(records) => if records@.len() > MAX_ACTIVE_WORKSPACES {
                    begun == Err::<Self, RepositoryPortError>(RepositoryPortError::CapacityExceeded)
                } else {
                    match begun {
                        Ok(begun) => begun@ == (ReconcileModel { records: records@, index: 0 }),
                        Err(error) => error == RepositoryPortError::AllocationFailed
                            && memory::vec_refused(
                            Seq::<AuthenticatedWorkspaceCapability>::empty(),
                            records@.len() as int,
                        ),
                    }
                },
            },
    {
        if slot.check_present().is_err() {
            return Err(RepositoryPortError::Locked);
        }
        let records = match records {
            Ok(records) => records,
            Err(error) => return Err(error),
        };
        match try_rehome_repository_vec(records, MAX_ACTIVE_WORKSPACES) {
            Ok(records) => Ok(Reconciliation { records, index: 0 }),
            Err(error) => Err(error),
        }
    }

    /// The step for the workspace that comes next.
    pub fn next(&self) -> (step: ReconcileStep)
        ensures
            step == next_step(self@),
    {
        if self.index >= self.records.len() {
            return ReconcileStep::Done(Ok(()));
        }
        match &self.records[self.index] {
            AuthenticatedWorkspaceCapability::Registered(_) => ReconcileStep::Activate(self.index),
            AuthenticatedWorkspaceCapability::Active(_) => ReconcileStep::UnregisterAbsent(
                self.index,
            ),
        }
    }

    /// Goes on after the workspace that comes next was activated.
    pub fn activated(&self, activated: Result<[u8; 16], RepositoryPortError>) -> (step:
        ReconcileStep)
        ensures
            step == activated_step(self@, activated),
    {
        if self.index >= self.records.len() {
            return ReconcileStep::Done(Ok(()));
        }
        match activated {
            Err(error) => ReconcileStep::Done(Err(error)),
            Ok(id) => {
                let registered = self.records[self.index].workspace_id().as_bytes();
                if same_bytes(&id, &registered) {
                    ReconcileStep::UnregisterAbsent(self.index)
                } else {
                    ReconcileStep::Done(Err(RepositoryPortError::IntegrityFailed))
                }
            },
        }
    }

    /// Goes on after the store was asked to unregister the workspace if absent.
    pub fn unregistered(&mut self, unregistered: Result<(), RepositoryPortError>) -> (step:
        ReconcileStep)
        ensures
            goes_on(unregistered) ==> step == next_step(advanced(old(self)@)) && final(self)@
                == advanced(old(self)@),
            !goes_on(unregistered) ==> step == ReconcileStep::Done(unregistered) && final(self)@
                == old(self)@,
    {
        match unregistered {
            Ok(()) | Err(RepositoryPortError::Busy) => {
                if self.index < self.records.len() {
                    self.index = self.index + 1;
                }
                self.next()
            },
            Err(error) => ReconcileStep::Done(Err(error)),
        }
    }
}

} // verus!
