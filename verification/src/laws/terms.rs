//! The words in which the laws of whole use cases are stated.
use vstd::prelude::*;

use crate::error::ServiceError;
use crate::event::OperationEvent;
use crate::operation::{OperationId, OperationModel};
use crate::service::scheduler;
use crate::service::scheduler::SchedulerModel;
use crate::service::transitions;
use crate::service::transitions::RecordModel;

verus! {

/// An operation is accounted at a place, and at no other.
pub open spec fn stands_at(active: Seq<OperationModel>, id: OperationId, index: int) -> bool {
    &&& 0 <= index < active.len()
    &&& active[index].id == id
    &&& forall|i: int| 0 <= i < active.len() && i != index ==> (#[trigger] active[i]).id != id
}

/// An operation is not accounted.
pub open spec fn is_unknown(active: Seq<OperationModel>, id: OperationId) -> bool {
    forall|i: int| 0 <= i < active.len() ==> (#[trigger] active[i]).id != id
}

/// An operation may go on: it is past recall; or nobody cancelled it, and the
/// service accepts operations or lets it save.
pub open spec fn may_go_on(scheduler: SchedulerModel, index: int) -> bool {
    ||| scheduler.active[index].irrevocable
    ||| {
        &&& !scheduler.active[index].cancelled
        &&& scheduler.accepting || (scheduler.final_save is Some
            && scheduler.final_save->0.operation == scheduler.active[index].id)
    }
}

/// The consumer of an operation takes one more event at once.
pub open spec fn takes_event(state: OperationModel, event: OperationEvent) -> bool {
    &&& !state.events.consumer_gone
    &&& !(state.lifecycle is Terminal)
    &&& state.events.next_sequence != u64::MAX
    &&& event is Progress || (state.events.lossless.len() != state.events.lossless_capacity && (
    state.irrevocable || !state.cancelled))
}

/// An event that does not end an operation.
pub open spec fn tells_of_work(event: OperationEvent) -> bool {
    !(event is Cancelled || event is Completed || event is Failed)
}

/// What is accounted at a place is found there.
pub proof fn lemma_found(active: Seq<OperationModel>, id: OperationId, index: int)
    requires
        stands_at(active, id, index),
    ensures
        scheduler::place_of(active, id) == Some(index),
{
    assert(scheduler::operation_at(active, id, index));
    scheduler::lemma_place_of(active, id, index);
}

/// What is not accounted is not found.
pub proof fn lemma_not_found(active: Seq<OperationModel>, id: OperationId)
    requires
        is_unknown(active, id),
    ensures
        scheduler::place_of(active, id) is None,
{
    assert(forall|index: int| !scheduler::operation_at(active, id, index));
}

/// A change of one operation leaves the operations where they are.
pub proof fn lemma_changed(
    active: Seq<OperationModel>,
    id: OperationId,
    index: int,
    state: OperationModel,
)
    requires
        stands_at(active, id, index),
        state.id == id,
    ensures
        stands_at(active.update(index, state), id, index),
{
    let changed = active.update(index, state);
    assert forall|i: int| 0 <= i < changed.len() && i != index implies (#[trigger] changed[i]).id
        != id by {
        assert(changed[i] == active[i]);
    }
}

/// A transition is recorded at a place, and at no other.
pub open spec fn is_recorded(records: Seq<RecordModel>, id: OperationId, index: int) -> bool {
    &&& 0 <= index < records.len()
    &&& records[index].operation == id
    &&& forall|i: int| 0 <= i < records.len() && i != index ==> (#[trigger] records[i]).operation
        != id
}

/// A transition is not recorded.
pub open spec fn is_unrecorded(records: Seq<RecordModel>, id: OperationId) -> bool {
    forall|i: int| 0 <= i < records.len() ==> (#[trigger] records[i]).operation != id
}

/// What is recorded at a place is found there.
pub proof fn lemma_record_found(records: Seq<RecordModel>, id: OperationId, index: int)
    requires
        is_recorded(records, id, index),
    ensures
        transitions::place_of(records, id) == Some(index),
{
    assert(transitions::record_at(records, id, index));
    transitions::lemma_place_of(records, id, index);
}

/// What is not recorded is not found.
pub proof fn lemma_record_not_found(records: Seq<RecordModel>, id: OperationId)
    requires
        is_unrecorded(records, id),
    ensures
        transitions::place_of(records, id) is None,
{
    assert(forall|index: int| !transitions::record_at(records, id, index));
}

/// What is carried out at a place is found there.
pub proof fn lemma_execution_found(executions: Seq<OperationModel>, id: OperationId, index: int)
    requires
        stands_at(executions, id, index),
    ensures
        transitions::execution_of(executions, id) == Some(index),
{
    assert(transitions::execution_at(executions, id, index));
    transitions::lemma_execution_of(executions, id, index);
}

/// What is not carried out is not found.
pub proof fn lemma_execution_not_found(executions: Seq<OperationModel>, id: OperationId)
    requires
        is_unknown(executions, id),
    ensures
        transitions::execution_of(executions, id) is None,
{
    assert(forall|index: int| !transitions::execution_at(executions, id, index));
}

/// A question is resolved at a place, and at no other.
pub open spec fn is_resolved(
    resolutions: Seq<(OperationId, Result<(), ServiceError>)>,
    id: OperationId,
    index: int,
) -> bool {
    &&& 0 <= index < resolutions.len()
    &&& resolutions[index].0 == id
    &&& forall|i: int| 0 <= i < resolutions.len() && i != index ==> (#[trigger] resolutions[i]).0
        != id
}

/// A question is not resolved.
pub open spec fn is_unresolved(
    resolutions: Seq<(OperationId, Result<(), ServiceError>)>,
    id: OperationId,
) -> bool {
    forall|i: int| 0 <= i < resolutions.len() ==> (#[trigger] resolutions[i]).0 != id
}

/// What is resolved at a place is found there.
pub proof fn lemma_resolution_found(
    resolutions: Seq<(OperationId, Result<(), ServiceError>)>,
    id: OperationId,
    index: int,
)
    requires
        is_resolved(resolutions, id, index),
    ensures
        transitions::resolution_of(resolutions, id) == Some(index),
{
    assert(transitions::resolution_at(resolutions, id, index));
    transitions::lemma_resolution_of(resolutions, id, index);
}

/// What is not resolved is not found.
pub proof fn lemma_resolution_not_found(
    resolutions: Seq<(OperationId, Result<(), ServiceError>)>,
    id: OperationId,
)
    requires
        is_unresolved(resolutions, id),
    ensures
        transitions::resolution_of(resolutions, id) is None,
{
    assert(forall|index: int| !transitions::resolution_at(resolutions, id, index));
}

} // verus!
