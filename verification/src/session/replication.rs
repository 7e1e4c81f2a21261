//! Bounds and requests of a replication.
use vstd::prelude::*;

use crate::memory;
use crate::memory::{capacity_of, vec_room};
use crate::ports::rehome::rehome_bytes;
use crate::secret::wipe_bytes;
use crate::session::errors;
use crate::session::errors::{
    map_host_repository_error, map_store_error, RepositoryPortError, StoreFailure,
};
use crate::time::Duration;

verus! {

/// Maximum bytes of one backend observation.
pub const MAX_REPLICATION_OBSERVATION_BYTES: usize = 64 * 1024;
/// Maximum bytes of one commit request.
pub const MAX_REPLICATION_COMMIT_BYTES: usize = 64 * 1024;

/// Bounds of one replication.
#[derive(Clone, Copy, Debug)]
pub struct ReplicationLimits {
    pub max_bootstrap_bytes: u64,
    pub max_head_bytes: u64,
    pub max_chunk_object_bytes: u64,
    pub max_manifest_object_bytes: u64,
    pub max_tree_object_bytes: u64,
    pub max_snapshot_object_bytes: u64,
    pub max_aggregate_bytes: u64,
    pub max_object_count: u64,
    pub max_graph_edges: u64,
    pub max_graph_depth: u32,
    pub max_duration: Duration,
    pub progress_interval: Duration,
    pub max_quarantine_bytes: u64,
    pub free_space_reserve_bytes: u64,
}

/// Whether every bound lets something through, and progress comes within the
/// duration.
pub open spec fn limits_are_usable(limits: ReplicationLimits) -> bool {
    &&& limits.max_bootstrap_bytes > 0
    &&& limits.max_head_bytes > 0
    &&& limits.max_chunk_object_bytes > 0
    &&& limits.max_manifest_object_bytes > 0
    &&& limits.max_tree_object_bytes > 0
    &&& limits.max_snapshot_object_bytes > 0
    &&& limits.max_aggregate_bytes > 0
    &&& limits.max_object_count > 0
    &&& limits.max_graph_edges > 0
    &&& limits.max_quarantine_bytes > 0
    &&& limits.max_graph_depth > 0
    &&& limits.max_duration@ > 0
    &&& 0 < limits.progress_interval@ <= limits.max_duration@
}

/// Whether bounds are at least as strict as others.
pub open spec fn limits_are_within(limits: ReplicationLimits, outer: ReplicationLimits) -> bool {
    &&& limits.max_bootstrap_bytes <= outer.max_bootstrap_bytes
    &&& limits.max_head_bytes <= outer.max_head_bytes
    &&& limits.max_chunk_object_bytes <= outer.max_chunk_object_bytes
    &&& limits.max_manifest_object_bytes <= outer.max_manifest_object_bytes
    &&& limits.max_tree_object_bytes <= outer.max_tree_object_bytes
    &&& limits.max_snapshot_object_bytes <= outer.max_snapshot_object_bytes
    &&& limits.max_aggregate_bytes <= outer.max_aggregate_bytes
    &&& limits.max_object_count <= outer.max_object_count
    &&& limits.max_graph_edges <= outer.max_graph_edges
    &&& limits.max_graph_depth <= outer.max_graph_depth
    &&& limits.max_duration@ <= outer.max_duration@
    &&& limits.progress_interval@ <= outer.progress_interval@
    &&& limits.max_quarantine_bytes <= outer.max_quarantine_bytes
    &&& limits.free_space_reserve_bytes >= outer.free_space_reserve_bytes
}

/// Service-owned bounds for one replication operation.
#[derive(Clone, Copy, Debug)]
pub struct ReplicationLimitProfile {
    limits: ReplicationLimits,
}

impl View for ReplicationLimitProfile {
    type V = ReplicationLimits;

    closed spec fn view(&self) -> ReplicationLimits {
        self.limits
    }
}

impl ReplicationLimitProfile {
    /// The bounds that the store itself keeps.
    pub fn of_store(limits: ReplicationLimits) -> (profile: Self)
        ensures
            profile@ == limits,
    {
        ReplicationLimitProfile { limits }
    }

    /// Accepts usable bounds that are at least as strict as those of the store.
    pub fn try_new(limits: ReplicationLimits, store: ReplicationLimits) -> (profile: Result<
        Self,
        RepositoryPortError,
    >)
        ensures
            match profile {
                Ok(profile) => limits_are_usable(limits) && limits_are_within(limits, store)
                    && profile@ == limits,
                Err(error) => !(limits_are_usable(limits) && limits_are_within(limits, store))
                    && error == RepositoryPortError::InvalidInput,
            },
    {
        let usable = limits.max_bootstrap_bytes != 0 && limits.max_head_bytes != 0 && limits.max_chunk_object_bytes != 0 && limits.max_manifest_object_bytes != 0 && limits.max_tree_object_bytes != 0 && limits.max_snapshot_object_bytes != 0 && limits.max_aggregate_bytes != 0 && limits.max_object_count != 0 && limits.max_graph_edges != 0 && limits.max_quarantine_bytes != 0 && limits.max_graph_depth != 0 && !limits.max_duration.is_zero()
            && !limits.progress_interval.is_zero() && !limits.max_duration.is_shorter_than(
            &limits.progress_interval,
        );
        let within = limits.max_bootstrap_bytes <= store.max_bootstrap_bytes && limits.max_head_bytes <= store.max_head_bytes && limits.max_chunk_object_bytes <= store.max_chunk_object_bytes && limits.max_manifest_object_bytes <= store.max_manifest_object_bytes && limits.max_tree_object_bytes <= store.max_tree_object_bytes && limits.max_snapshot_object_bytes <= store.max_snapshot_object_bytes && limits.max_aggregate_bytes <= store.max_aggregate_bytes && limits.max_object_count <= store.max_object_count && limits.max_graph_edges <= store.max_graph_edges && limits.max_graph_depth <= store.max_graph_depth && !store.max_duration.is_shorter_than(
            &limits.max_duration,
        ) && !store.progress_interval.is_shorter_than(&limits.progress_interval)
            && limits.max_quarantine_bytes <= store.max_quarantine_bytes
            && limits.free_space_reserve_bytes >= store.free_space_reserve_bytes;
        if usable && within {
            Ok(ReplicationLimitProfile { limits })
        } else {
            Err(RepositoryPortError::InvalidInput)
        }
    }

    pub fn max_bootstrap_bytes(self) -> (value: u64)
        ensures
            value == self@.max_bootstrap_bytes,
    {
        self.limits.max_bootstrap_bytes
    }

    pub fn max_head_bytes(self) -> (value: u64)
        ensures
            value == self@.max_head_bytes,
    {
        self.limits.max_head_bytes
    }

    pub fn max_chunk_object_bytes(self) -> (value: u64)
        ensures
            value == self@.max_chunk_object_bytes,
    {
        self.limits.max_chunk_object_bytes
    }

    pub fn max_manifest_object_bytes(self) -> (value: u64)
        ensures
            value == self@.max_manifest_object_bytes,
    {
        self.limits.max_manifest_object_bytes
    }

    pub fn max_tree_object_bytes(self) -> (value: u64)
        ensures
            value == self@.max_tree_object_bytes,
    {
        self.limits.max_tree_object_bytes
    }

    pub fn max_snapshot_object_bytes(self) -> (value: u64)
        ensures
            value == self@.max_snapshot_object_bytes,
    {
        self.limits.max_snapshot_object_bytes
    }

    pub fn max_aggregate_bytes(self) -> (value: u64)
        ensures
            value == self@.max_aggregate_bytes,
    {
        self.limits.max_aggregate_bytes
    }

    pub fn max_object_count(self) -> (value: u64)
        ensures
            value == self@.max_object_count,
    {
        self.limits.max_object_count
    }

    pub fn max_graph_edges(self) -> (value: u64)
        ensures
            value == self@.max_graph_edges,
    {
        self.limits.max_graph_edges
    }

    pub fn max_graph_depth(self) -> (value: u32)
        ensures
            value == self@.max_graph_depth,
    {
        self.limits.max_graph_depth
    }

    pub fn max_duration(self) -> (value: Duration)
        ensures
            value == self@.max_duration,
    {
        self.limits.max_duration
    }

    pub fn progress_interval(self) -> (value: Duration)
        ensures
            value == self@.progress_interval,
    {
        self.limits.progress_interval
    }

    pub fn max_quarantine_bytes(self) -> (value: u64)
        ensures
            value == self@.max_quarantine_bytes,
    {
        self.limits.max_quarantine_bytes
    }

    pub fn free_space_reserve_bytes(self) -> (value: u64)
        ensures
            value == self@.free_space_reserve_bytes,
    {
        self.limits.free_space_reserve_bytes
    }
}

/// What kind of object a replication carries.
#[derive(Clone, Copy, Debug, PartialEq, Eq, Structural)]
pub enum ReplicationObjectKind {
    Chunk,
    Manifest,
    Tree,
    Snapshot,
}

/// What came of recording a trusted remote.
#[derive(Clone, Copy, Debug, PartialEq, Eq, Structural)]
pub enum TrustedRemoteRecordOutcome {
    Recorded,
    FreshnessAcknowledgementRequired,
}

/// Why bytes of a request are refused under a bound.
pub open spec fn request_failure(bytes: Seq<u8>, maximum: usize) -> Option<RepositoryPortError> {
    if bytes.len() == 0 {
        Some(RepositoryPortError::InvalidInput)
    } else if bytes.len() > maximum {
        Some(RepositoryPortError::CapacityExceeded)
    } else {
        None
    }
}

/// Keeps the bytes of a request in the room that they were given.
pub fn keep_request(bytes: Vec<u8>, maximum: usize, room: Option<Vec<u8>>) -> (kept: Result<
    Vec<u8>,
    RepositoryPortError,
>)
    requires
        room is Some ==> room->0@ == Seq::<u8>::empty(),
    ensures
        match (request_failure(bytes@, maximum), room) {
            (Some(failure), _) => kept == Err::<Vec<u8>, RepositoryPortError>(failure),
            (None, Some(_)) => kept is Ok && kept->Ok_0@ == bytes@,
            (None, None) => kept == Err::<Vec<u8>, RepositoryPortError>(
                RepositoryPortError::AllocationFailed,
            ),
        },
{
    let mut bytes = bytes;
    if bytes.len() == 0 {
        wipe_bytes(&mut bytes);
        return Err(RepositoryPortError::InvalidInput);
    }
    if bytes.len() > maximum {
        wipe_bytes(&mut bytes);
        return Err(RepositoryPortError::CapacityExceeded);
    }
    match rehome_bytes(&mut bytes, maximum, room) {
        Ok(kept) => Ok(kept),
        Err(error) => Err(map_host_repository_error(error)),
    }
}

/// Keeps the bytes of a request in room of their size.
fn try_keep_request(bytes: Vec<u8>, maximum: usize) -> (kept: Result<Vec<u8>, RepositoryPortError>)
    ensures
        match request_failure(bytes@, maximum) {
            Some(failure) => kept == Err::<Vec<u8>, RepositoryPortError>(failure),
            None => match kept {
                Ok(kept) => kept@ == bytes@,
                Err(error) => error == RepositoryPortError::AllocationFailed
                    && memory::bytes_refused(bytes@.len() as int),
            },
        },
{
    let room = if bytes.len() > maximum {
        None
    } else {
        vec_room(bytes.len())
    };
    keep_request(bytes, maximum, room)
}

/// One bounded observation of a backend.
pub struct ReplicationObservation {
    bytes: Vec<u8>,
}

impl View for ReplicationObservation {
    type V = Seq<u8>;

    closed spec fn view(&self) -> Seq<u8> {
        self.bytes@
    }
}

impl ReplicationObservation {
    /// Keeps an observation. `accepted` is what the store says of the bytes.
    pub fn try_new(bytes: Vec<u8>, accepted: Result<(), StoreFailure>) -> (observation: Result<
        Self,
        RepositoryPortError,
    >)
        ensures
            match (request_failure(bytes@, MAX_REPLICATION_OBSERVATION_BYTES), accepted) {
                (Some(failure), _) => observation == Err::<Self, RepositoryPortError>(failure),
                (None, Ok(())) => match observation {
                    Ok(observation) => observation@ == bytes@,
                    Err(error) => error == RepositoryPortError::AllocationFailed
                        && memory::bytes_refused(bytes@.len() as int),
                },
                (None, Err(failure)) => observation is Err && (observation->Err_0
                    == errors::store_failure(failure) || observation->Err_0
                    == RepositoryPortError::AllocationFailed && memory::bytes_refused(
                    bytes@.len() as int,
                )),
            },
    {
        let bytes = match try_keep_request(bytes, MAX_REPLICATION_OBSERVATION_BYTES) {
            Ok(bytes) => bytes,
            Err(error) => return Err(error),
        };
        match accepted {
            Ok(()) => Ok(ReplicationObservation { bytes }),
            Err(error) => Err(map_store_error(error)),
        }
    }

    pub fn as_bytes(&self) -> (bytes: &[u8])
        ensures
            bytes@ == self@,
    {
        self.bytes.as_slice()
    }

    /// Room that the observation occupies.
    pub fn retained_capacity(&self) -> (capacity: usize)
        ensures
            capacity >= self@.len(),
    {
        capacity_of(&self.bytes)
    }
}

/// One bounded request to commit a replicated snapshot.
pub struct ReplicationCommitRequest {
    intended_head: Vec<u8>,
}

impl View for ReplicationCommitRequest {
    type V = Seq<u8>;

    closed spec fn view(&self) -> Seq<u8> {
        self.intended_head@
    }
}

impl ReplicationCommitRequest {
    pub fn try_new(intended_head: Vec<u8>) -> (request: Result<Self, RepositoryPortError>)
        ensures
            match request_failure(intended_head@, MAX_REPLICATION_COMMIT_BYTES) {
                Some(failure) => request == Err::<Self, RepositoryPortError>(failure),
                None => match request {
                    Ok(request) => request@ == intended_head@,
                    Err(error) => error == RepositoryPortError::AllocationFailed
                        && memory::bytes_refused(intended_head@.len() as int),
                },
            },
    {
        match try_keep_request(intended_head, MAX_REPLICATION_COMMIT_BYTES) {
            Ok(intended_head) => Ok(ReplicationCommitRequest { intended_head }),
            Err(error) => Err(error),
        }
    }

    pub fn intended_head(&self) -> (bytes: &[u8])
        ensures
            bytes@ == self@,
    {
        self.intended_head.as_slice()
    }

    /// Room that the request occupies.
    pub fn retained_capacity(&self) -> (capacity: usize)
        ensures
            capacity >= self@.len(),
    {
        capacity_of(&self.intended_head)
    }
}

/// One object that a replication imported.
pub struct ReplicationImportedObject {
    id: [u8; 32],
    encoded_length: u64,
    references: Vec<[u8; 32]>,
}

/// Contents of a [`ReplicationImportedObject`].
pub struct ImportedModel {
    pub id: [u8; 32],
    pub encoded_length: u64,
    pub references: Seq<[u8; 32]>,
}

impl View for ReplicationImportedObject {
    type V = ImportedModel;

    closed spec fn view(&self) -> ImportedModel {
        ImportedModel {
            id: self.id,
            encoded_length: self.encoded_length,
            references: self.references@,
        }
    }
}

impl ReplicationImportedObject {
    pub fn new(id: [u8; 32], encoded_length: u64, references: Vec<[u8; 32]>) -> (object: Self)
        ensures
            object@ == (ImportedModel { id, encoded_length, references: references@ }),
    {
        ReplicationImportedObject { id, encoded_length, references }
    }

    pub fn id(&self) -> (id: [u8; 32])
        ensures
            id == self@.id,
    {
        self.id
    }

    pub fn encoded_length(&self) -> (length: u64)
        ensures
            length == self@.encoded_length,
    {
        self.encoded_length
    }

    pub fn references(&self) -> (references: &[[u8; 32]])
        ensures
            references@ == self@.references,
    {
        self.references.as_slice()
    }
}

} // verus!
