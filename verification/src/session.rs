//! The unlock session: its policy, its deadlines and its root capability.
use vstd::prelude::*;

pub mod capabilities;
pub mod clock;
pub mod data;
pub mod errors;
pub mod manager;
pub mod replication;
pub mod repository;
pub mod requests;
pub mod root;
pub mod workspaces;

use crate::bytes::same_bytes;
use crate::error::ServiceError;
use crate::memory;
use crate::memory::{capacity_of, vec_room};
use crate::time::Duration;

verus! {

/// Maximum warning boundaries retained for one session policy.
pub const MAX_WARNING_OFFSETS: usize = 16;

/// Maximum time granted to one explicitly armed durable final save, in nanoseconds.
pub const MAX_FINAL_SAVE_GRACE_NANOS: u128 = 30_000_000_000;

/// Opaque vault identity.
#[derive(Clone, Copy, Debug, Eq, Hash)]
pub struct VaultId([u8; 16]);

impl View for VaultId {
    type V = [u8; 16];

    closed spec fn view(&self) -> [u8; 16] {
        self.0
    }
}

impl PartialEq for VaultId {
    fn eq(&self, other: &Self) -> (same: bool) {
        same_bytes(&self.0, &other.0)
    }
}

impl vstd::std_specs::cmp::PartialEqSpecImpl for VaultId {
    open spec fn obeys_eq_spec() -> bool {
        true
    }

    open spec fn eq_spec(&self, other: &Self) -> bool {
        *self == *other
    }
}

impl VaultId {
    pub fn from_bytes(bytes: [u8; 16]) -> (id: Self)
        ensures
            id@ == bytes,
    {
        VaultId(bytes)
    }

    pub fn as_bytes(&self) -> (bytes: &[u8; 16])
        ensures
            *bytes == self@,
    {
        &self.0
    }
}

/// Validated monotonic session lifetime policy.
pub struct SessionPolicy {
    inactivity_timeout: Duration,
    absolute_timeout: Duration,
    warning_offsets: Vec<Duration>,
    final_save_grace: Duration,
}

/// Contents of a [`SessionPolicy`].
pub struct PolicyModel {
    pub inactivity_timeout: Duration,
    pub absolute_timeout: Duration,
    pub warning_offsets: Seq<Duration>,
    pub final_save_grace: Duration,
}

impl View for SessionPolicy {
    type V = PolicyModel;

    closed spec fn view(&self) -> PolicyModel {
        PolicyModel {
            inactivity_timeout: self.inactivity_timeout,
            absolute_timeout: self.absolute_timeout,
            warning_offsets: self.warning_offsets@,
            final_save_grace: self.final_save_grace,
        }
    }
}

/// The timeout that ends an untouched session, in nanoseconds.
pub open spec fn effective_timeout(policy: PolicyModel) -> nat {
    if policy.inactivity_timeout@ <= policy.absolute_timeout@ {
        policy.inactivity_timeout@
    } else {
        policy.absolute_timeout@
    }
}

/// What a valid policy promises: both timeouts are positive, the warnings are
/// few, come before the effective timeout and are listed from the earliest
/// boundary to the latest, and the final-save grace fits into both bounds.
pub open spec fn policy_is_valid(policy: PolicyModel) -> bool {
    &&& policy.inactivity_timeout@ > 0
    &&& policy.absolute_timeout@ > 0
    &&& policy.warning_offsets.len() <= MAX_WARNING_OFFSETS
    &&& policy.final_save_grace@ <= effective_timeout(policy)
    &&& policy.final_save_grace@ <= MAX_FINAL_SAVE_GRACE_NANOS
    &&& forall|i: int|
        0 <= i < policy.warning_offsets.len() ==> 0 < (#[trigger] policy.warning_offsets[i])@
            < effective_timeout(policy)
    &&& forall|i: int, j: int|
        0 <= i < j < policy.warning_offsets.len() ==> (#[trigger] policy.warning_offsets[j])@ < (
        #[trigger] policy.warning_offsets[i])@
}

impl SessionPolicy {
    /// Every policy is valid.
    #[verifier::type_invariant]
    pub open spec fn is_valid(self) -> bool {
        policy_is_valid(self@)
    }

    /// Whether these values make a valid policy.
    #[verifier::loop_isolation(false)]
    pub fn accepts(
        inactivity_timeout: Duration,
        absolute_timeout: Duration,
        warning_offsets: &Vec<Duration>,
        final_save_grace: Duration,
    ) -> (valid: bool)
        ensures
            valid == policy_is_valid(
                PolicyModel {
                    inactivity_timeout,
                    absolute_timeout,
                    warning_offsets: warning_offsets@,
                    final_save_grace,
                },
            ),
    {
        let ghost policy = PolicyModel {
            inactivity_timeout,
            absolute_timeout,
            warning_offsets: warning_offsets@,
            final_save_grace,
        };
        let effective = inactivity_timeout.shortest(absolute_timeout);
        if inactivity_timeout.is_zero() || absolute_timeout.is_zero() || warning_offsets.len()
            > MAX_WARNING_OFFSETS || effective.is_shorter_than(&final_save_grace)
            || final_save_grace.as_nanos() > MAX_FINAL_SAVE_GRACE_NANOS {
            return false;
        }
        let mut index: usize = 0;
        while index < warning_offsets.len()
            invariant
                index <= warning_offsets@.len(),
                forall|i: int|
                    0 <= i < index ==> 0 < (#[trigger] policy.warning_offsets[i])@
                        < effective_timeout(policy),
                forall|i: int, j: int|
                    0 <= i < j < index ==> (#[trigger] policy.warning_offsets[j])@ < (
                    #[trigger] policy.warning_offsets[i])@,
            decreases warning_offsets@.len() - index,
        {
            let offset = warning_offsets[index];
            assert(policy.warning_offsets[index as int] == offset);
            if offset.is_zero() || !offset.is_shorter_than(&effective) {
                return false;
            }
            if index > 0 {
                let previous = warning_offsets[index - 1];
                assert(policy.warning_offsets[index as int - 1] == previous);
                if !offset.is_shorter_than(&previous) {
                    return false;
                }
            }
            index += 1;
        }
        true
    }

    /// Validates a policy and keeps its warning offsets in memory of their exact size.
    pub fn try_new(
        inactivity_timeout: Duration,
        absolute_timeout: Duration,
        warning_offsets: Vec<Duration>,
        final_save_grace: Duration,
    ) -> (policy: Result<Self, ServiceError>)
        ensures
            ({
                let wanted = PolicyModel {
                    inactivity_timeout,
                    absolute_timeout,
                    warning_offsets: warning_offsets@,
                    final_save_grace,
                };
                &&& !policy_is_valid(wanted) ==> policy == Err::<Self, ServiceError>(
                    ServiceError::InvalidConfiguration,
                )
                &&& policy_is_valid(wanted) ==> match policy {
                    Ok(policy) => policy@ == wanted,
                    Err(error) => error == ServiceError::AllocationFailed && memory::vec_refused(
                        Seq::<Duration>::empty(),
                        warning_offsets@.len() as int,
                    ),
                }
                &&& policy_is_valid(wanted) && warning_offsets@.len() == 0 ==> policy is Ok
            }),
    {
        if !SessionPolicy::accepts(
            inactivity_timeout,
            absolute_timeout,
            &warning_offsets,
            final_save_grace,
        ) {
            return Err(ServiceError::InvalidConfiguration);
        }
        let room = vec_room(warning_offsets.len());
        SessionPolicy::over(
            inactivity_timeout,
            absolute_timeout,
            warning_offsets,
            final_save_grace,
            room,
        )
    }

    /// Keeps a valid policy with its warning offsets in their room, or not where
    /// the room was refused.
    pub fn over(
        inactivity_timeout: Duration,
        absolute_timeout: Duration,
        warning_offsets: Vec<Duration>,
        final_save_grace: Duration,
        room: Option<Vec<Duration>>,
    ) -> (policy: Result<Self, ServiceError>)
        requires
            room is Some ==> room->0@ == Seq::<Duration>::empty(),
            policy_is_valid(
                PolicyModel {
                    inactivity_timeout,
                    absolute_timeout,
                    warning_offsets: warning_offsets@,
                    final_save_grace,
                },
            ),
        ensures
            room is None ==> policy == Err::<Self, ServiceError>(ServiceError::AllocationFailed),
            room is Some ==> policy is Ok && policy->Ok_0@ == (PolicyModel {
                inactivity_timeout,
                absolute_timeout,
                warning_offsets: warning_offsets@,
                final_save_grace,
            }),
    {
        let mut retained = match room {
            Some(room) => room,
            None => return Err(ServiceError::AllocationFailed),
        };
        let mut source = warning_offsets;
        retained.append(&mut source);
        assert(retained@ =~= warning_offsets@);
        Ok(
            SessionPolicy {
                inactivity_timeout,
                absolute_timeout,
                warning_offsets: retained,
                final_save_grace,
            },
        )
    }

    pub fn inactivity_timeout(&self) -> (timeout: Duration)
        ensures
            timeout == self@.inactivity_timeout,
    {
        self.inactivity_timeout
    }

    pub fn absolute_timeout(&self) -> (timeout: Duration)
        ensures
            timeout == self@.absolute_timeout,
    {
        self.absolute_timeout
    }

    /// The warning offsets of a valid policy.
    pub fn warning_offsets(&self) -> (offsets: &[Duration])
        ensures
            offsets@ == self@.warning_offsets,
            policy_is_valid(self@),
    {
        proof {
            use_type_invariant(self);
        }
        self.warning_offsets.as_slice()
    }

    pub fn final_save_grace(&self) -> (grace: Duration)
        ensures
            grace == self@.final_save_grace,
    {
        self.final_save_grace
    }

    /// Number of warning offsets that the allocation can hold.
    pub fn retained_capacity(&self) -> (capacity: usize)
        ensures
            capacity >= self@.warning_offsets.len(),
    {
        capacity_of(&self.warning_offsets)
    }
}

/// Coherent state of the service-owned unlock capability.
#[derive(Clone, Copy, Debug, PartialEq, Eq, Structural)]
pub enum SessionState {
    Locked,
    Unlocking,
    Unlocked,
    Locking,
    CleanupRequired,
}

/// Deadline whose warning boundary was crossed.
#[derive(Clone, Copy, Debug, PartialEq, Eq, Structural)]
pub enum SessionDeadlineKind {
    Inactivity,
    Absolute,
}

/// Bounded non-secret session event for presentation layers.
#[derive(Clone, Copy, Debug, PartialEq, Eq, Structural)]
pub enum SessionEvent {
    LockWarning { remaining: Duration, deadline: SessionDeadlineKind },
}

/// Non-secret summary of one unlocked session.
#[derive(Clone, Copy, Debug, PartialEq, Eq)]
pub struct SessionSummary {
    vault_id: VaultId,
    generation: u64,
}

/// The summary of one unlocked session.
pub closed spec fn session_summary(vault_id: VaultId, generation: u64) -> SessionSummary {
    SessionSummary { vault_id, generation }
}

impl SessionSummary {
    pub(crate) fn new(vault_id: VaultId, generation: u64) -> (summary: Self)
        ensures
            summary == session_summary(vault_id, generation),
    {
        SessionSummary { vault_id, generation }
    }

    pub fn vault_id(&self) -> (vault_id: VaultId)
        ensures
            forall|id: VaultId, generation: u64|
                *self == #[trigger] session_summary(id, generation) ==> vault_id == id,
    {
        self.vault_id
    }

    pub fn generation(&self) -> (generation: u64)
        ensures
            forall|id: VaultId, epoch: u64|
                *self == #[trigger] session_summary(id, epoch) ==> generation == epoch,
    {
        self.generation
    }
}

} // verus!
