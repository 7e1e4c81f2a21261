//! The bounded service runtime: admission, priority controls, security
//! transitions and the global lock.
use vstd::prelude::*;

pub mod flows;
pub mod handles;
pub mod identity;
pub mod locking;
pub mod mailbox;
pub mod queue;
pub mod runtime;
pub mod scheduler;
pub mod transitions;
pub mod worker;

use crate::error::ServiceError;
use crate::operation::OperationId;
use crate::session::SessionState;

verus! {

/// Default number of synchronous workers.
pub const DEFAULT_WORKERS: usize = 4;
/// Default bounded ordinary-command capacity.
pub const DEFAULT_QUEUE_CAPACITY: usize = 64;
/// Default bounded lossless events retained per operation.
pub const DEFAULT_EVENT_CAPACITY: usize = 64;
/// Default number of completed operation summaries retained by the service.
pub const DEFAULT_COMPLETED_CAPACITY: usize = 256;
/// Default lifetime operation-identity budget for one service instance.
pub const DEFAULT_ISSUED_CAPACITY: u64 = u64::MAX;
/// Default collision retry budget for injected operation identity sources.
pub const DEFAULT_ID_RETRIES: usize = 8;
/// Maximum fixed worker count.
pub const MAX_WORKERS: usize = 64;
/// Maximum ordinary queue capacity.
pub const MAX_QUEUE_CAPACITY: usize = 4096;
/// Maximum lossless events retained per operation.
pub const MAX_EVENT_CAPACITY: usize = 1024;
/// Maximum completed tombstones retained by the runtime.
pub const MAX_COMPLETED_CAPACITY: usize = 4096;
/// Maximum operation-ID collision retries.
pub const MAX_ID_RETRIES: usize = 64;

/// Priority control delivered outside the bounded ordinary queue.
#[derive(Clone, Copy, Debug, PartialEq, Eq)]
#[non_exhaustive]
pub enum Control {
    LockNow,
    DeadlineExpired,
    Suspend,
    Cancel(OperationId),
    UserActivity,
}

/// Controls that stop the whole service.
pub open spec fn is_global(control: Control) -> bool {
    control is LockNow || control is DeadlineExpired || control is Suspend
}

impl Control {
    /// Whether this control stops the whole service.
    pub fn is_global(self) -> (global: bool)
        ensures
            global == is_global(self),
    {
        match self {
            Control::LockNow | Control::DeadlineExpired | Control::Suspend => true,
            Control::Cancel(_) | Control::UserActivity => false,
        }
    }
}

/// Validated hard bounds for one service runtime.
#[derive(Clone, Copy, Debug, PartialEq, Eq, Structural)]
pub struct ServiceConfig {
    queue_capacity: usize,
    workers: usize,
    event_capacity: usize,
    completed_capacity: usize,
    issued_capacity: u64,
    id_retries: usize,
}

/// Contents of a [`ServiceConfig`].
pub struct ConfigModel {
    pub queue_capacity: usize,
    pub workers: usize,
    pub event_capacity: usize,
    pub completed_capacity: usize,
    pub issued_capacity: u64,
    pub id_retries: usize,
}

impl View for ServiceConfig {
    type V = ConfigModel;

    closed spec fn view(&self) -> ConfigModel {
        ConfigModel {
            queue_capacity: self.queue_capacity,
            workers: self.workers,
            event_capacity: self.event_capacity,
            completed_capacity: self.completed_capacity,
            issued_capacity: self.issued_capacity,
            id_retries: self.id_retries,
        }
    }
}

/// Operations that can be accounted at a time: those in the queue, those on the
/// way to a worker, those on a worker, and one more.
pub open spec fn active_capacity(config: ConfigModel) -> nat {
    (config.queue_capacity + 2 * config.workers + 1) as nat
}

/// Bounds that the service accepts.
pub open spec fn config_is_valid(config: ConfigModel) -> bool {
    &&& 0 < config.queue_capacity <= MAX_QUEUE_CAPACITY
    &&& 0 < config.workers <= MAX_WORKERS
    &&& 0 < config.event_capacity <= MAX_EVENT_CAPACITY
    &&& 0 < config.completed_capacity <= MAX_COMPLETED_CAPACITY
    &&& 0 < config.id_retries <= MAX_ID_RETRIES
    &&& active_capacity(config) <= config.issued_capacity
}

impl ServiceConfig {
    /// A configuration holds bounds that the service accepts.
    #[verifier::type_invariant]
    pub closed spec fn is_valid(self) -> bool {
        config_is_valid(self@)
    }

    pub fn new(
        queue_capacity: usize,
        workers: usize,
        event_capacity: usize,
        completed_capacity: usize,
        issued_capacity: u64,
        id_retries: usize,
    ) -> (config: Result<Self, ServiceError>)
        ensures
            ({
                let model = ConfigModel {
                    queue_capacity,
                    workers,
                    event_capacity,
                    completed_capacity,
                    issued_capacity,
                    id_retries,
                };
                if config_is_valid(model) {
                    config is Ok && config->Ok_0@ == model
                } else {
                    config == Err::<Self, ServiceError>(ServiceError::InvalidConfiguration)
                }
            }),
    {
        if queue_capacity == 0 || workers == 0 || event_capacity == 0 || completed_capacity == 0
            || issued_capacity == 0 || id_retries == 0 {
            return Err(ServiceError::InvalidConfiguration);
        }
        if queue_capacity > MAX_QUEUE_CAPACITY || workers > MAX_WORKERS || event_capacity
            > MAX_EVENT_CAPACITY || completed_capacity > MAX_COMPLETED_CAPACITY || id_retries
            > MAX_ID_RETRIES {
            return Err(ServiceError::InvalidConfiguration);
        }
        let active: usize = queue_capacity + 2 * workers + 1;
        if issued_capacity < active as u64 {
            return Err(ServiceError::InvalidConfiguration);
        }
        Ok(
            ServiceConfig {
                queue_capacity,
                workers,
                event_capacity,
                completed_capacity,
                issued_capacity,
                id_retries,
            },
        )
    }

    pub fn queue_capacity(&self) -> (capacity: usize)
        ensures
            capacity == self@.queue_capacity,
            config_is_valid(self@),
    {
        proof {
            use_type_invariant(self);
        }
        self.queue_capacity
    }

    pub fn workers(&self) -> (workers: usize)
        ensures
            workers == self@.workers,
    {
        self.workers
    }

    pub fn event_capacity(&self) -> (capacity: usize)
        ensures
            capacity == self@.event_capacity,
    {
        self.event_capacity
    }

    pub fn completed_capacity(&self) -> (capacity: usize)
        ensures
            capacity == self@.completed_capacity,
    {
        self.completed_capacity
    }

    pub fn issued_capacity(&self) -> (capacity: u64)
        ensures
            capacity == self@.issued_capacity,
    {
        self.issued_capacity
    }

    pub fn id_retries(&self) -> (retries: usize)
        ensures
            retries == self@.id_retries,
    {
        self.id_retries
    }

    /// Operations that can be accounted at a time.
    pub fn active_capacity(&self) -> (capacity: usize)
        ensures
            capacity == active_capacity(self@),
            config_is_valid(self@),
    {
        proof {
            use_type_invariant(self);
        }
        self.queue_capacity + 2 * self.workers + 1
    }
}

impl Default for ServiceConfig {
    fn default() -> (config: Self)
        ensures
            config@ == (ConfigModel {
                queue_capacity: DEFAULT_QUEUE_CAPACITY,
                workers: DEFAULT_WORKERS,
                event_capacity: DEFAULT_EVENT_CAPACITY,
                completed_capacity: DEFAULT_COMPLETED_CAPACITY,
                issued_capacity: DEFAULT_ISSUED_CAPACITY,
                id_retries: DEFAULT_ID_RETRIES,
            }),
    {
        ServiceConfig {
            queue_capacity: DEFAULT_QUEUE_CAPACITY,
            workers: DEFAULT_WORKERS,
            event_capacity: DEFAULT_EVENT_CAPACITY,
            completed_capacity: DEFAULT_COMPLETED_CAPACITY,
            issued_capacity: DEFAULT_ISSUED_CAPACITY,
            id_retries: DEFAULT_ID_RETRIES,
        }
    }
}

/// Bounded coherent service state for presentation layers.
#[derive(Clone, Copy, Debug, PartialEq, Eq, Structural)]
pub struct ServiceSnapshot {
    session_state: SessionState,
    accepting_operations: bool,
    key_leases_open: bool,
    queued_operations: usize,
    running_operations: usize,
    active_operations: usize,
    retained_completed_operations: usize,
    closed: bool,
}

/// Contents of a [`ServiceSnapshot`].
pub struct SnapshotModel {
    pub session_state: SessionState,
    pub accepting_operations: bool,
    pub key_leases_open: bool,
    pub queued_operations: nat,
    pub running_operations: nat,
    pub active_operations: nat,
    pub retained_completed_operations: nat,
    pub closed: bool,
}

impl View for ServiceSnapshot {
    type V = SnapshotModel;

    closed spec fn view(&self) -> SnapshotModel {
        SnapshotModel {
            session_state: self.session_state,
            accepting_operations: self.accepting_operations,
            key_leases_open: self.key_leases_open,
            queued_operations: self.queued_operations as nat,
            running_operations: self.running_operations as nat,
            active_operations: self.active_operations as nat,
            retained_completed_operations: self.retained_completed_operations as nat,
            closed: self.closed,
        }
    }
}

impl ServiceSnapshot {
    pub(crate) fn new(
        session_state: SessionState,
        accepting_operations: bool,
        key_leases_open: bool,
        queued_operations: usize,
        running_operations: usize,
        retained_completed_operations: usize,
        closed: bool,
    ) -> (snapshot: Self)
        requires
            queued_operations + running_operations <= usize::MAX,
        ensures
            snapshot@ == (SnapshotModel {
                session_state,
                accepting_operations,
                key_leases_open,
                queued_operations: queued_operations as nat,
                running_operations: running_operations as nat,
                active_operations: (queued_operations + running_operations) as nat,
                retained_completed_operations: retained_completed_operations as nat,
                closed,
            }),
    {
        ServiceSnapshot {
            session_state,
            accepting_operations,
            key_leases_open,
            queued_operations,
            running_operations,
            active_operations: queued_operations + running_operations,
            retained_completed_operations,
            closed,
        }
    }

    pub fn session_state(&self) -> (state: SessionState)
        ensures
            state == self@.session_state,
    {
        self.session_state
    }

    pub fn accepting_operations(&self) -> (accepting: bool)
        ensures
            accepting == self@.accepting_operations,
    {
        self.accepting_operations
    }

    pub fn key_leases_open(&self) -> (open: bool)
        ensures
            open == self@.key_leases_open,
    {
        self.key_leases_open
    }

    pub fn queued_operations(&self) -> (count: usize)
        ensures
            count == self@.queued_operations,
    {
        self.queued_operations
    }

    pub fn running_operations(&self) -> (count: usize)
        ensures
            count == self@.running_operations,
    {
        self.running_operations
    }

    pub fn active_operations(&self) -> (count: usize)
        ensures
            count == self@.active_operations,
    {
        self.active_operations
    }

    pub fn retained_completed_operations(&self) -> (count: usize)
        ensures
            count == self@.retained_completed_operations,
    {
        self.retained_completed_operations
    }

    pub fn is_closed(&self) -> (closed: bool)
        ensures
            closed == self@.closed,
    {
        self.closed
    }
}

} // verus!
