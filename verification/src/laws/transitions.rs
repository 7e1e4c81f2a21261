//! Laws of the security transitions, of their secrets and of identities.
use vstd::prelude::*;

use crate::error::ServiceError;
use crate::operation;
use crate::operation::{OperationId, OperationModel};
use crate::ports::secrets;
use crate::service::flows;
use crate::service::handles;
use crate::service::handles::PendingModel;
use crate::service::identity;
use crate::service::runtime;
use crate::service::runtime::CoreModel;
use crate::service::scheduler;
use crate::service::transitions;
use crate::service::transitions::{RecordModel, RegistryModel, TransitionKind};
use crate::service::Control;

verus! {

proof fn lemma_place(records: Seq<RecordModel>, operation: OperationId)
    ensures
        transitions::place_of(records, operation) matches Some(index) ==> transitions::record_at(
            records,
            operation,
            index,
        ),
        transitions::place_of(records, operation) is None ==> forall|i: int|
            0 <= i < records.len() ==> (#[trigger] records[i]).operation != operation,
{
    if transitions::place_of(records, operation) is None {
        assert forall|i: int| 0 <= i < records.len() implies (#[trigger] records[i]).operation
            != operation by {
            if records[i].operation == operation {
                lemma_first_place(records, operation, i);
            }
        }
    }
}

/// An operation that occurs has a first place.
proof fn lemma_first_place(records: Seq<RecordModel>, operation: OperationId, index: int)
    requires
        0 <= index < records.len(),
        records[index].operation == operation,
    ensures
        transitions::place_of(records, operation) is Some,
    decreases index,
{
    if forall|i: int| 0 <= i < index ==> (#[trigger] records[i]).operation != operation {
        assert(transitions::record_at(records, operation, index));
    } else {
        let earlier = choose|i: int| 0 <= i < index && (#[trigger] records[i]).operation
            == operation;
        lemma_first_place(records, operation, earlier);
    }
}

/// Whether no two transitions share an operation.
spec fn operations_are_distinct(records: Seq<RecordModel>) -> bool {
    forall|i: int, j: int|
        0 <= i < j < records.len() ==> (#[trigger] records[i]).operation != (
        #[trigger] records[j]).operation
}

proof fn lemma_update_keeps_distinct(records: Seq<RecordModel>, index: int, record: RecordModel)
    requires
        operations_are_distinct(records),
        0 <= index < records.len(),
        record.operation == records[index].operation,
    ensures
        operations_are_distinct(records.update(index, record)),
{
    let after = records.update(index, record);
    assert forall|i: int, j: int| 0 <= i < j < after.len() implies (#[trigger] after[i]).operation
        != (#[trigger] after[j]).operation by {
        assert(records[i].operation != records[j].operation);
    }
}

proof fn lemma_remove_keeps_distinct(records: Seq<RecordModel>, index: int)
    requires
        operations_are_distinct(records),
        0 <= index < records.len(),
    ensures
        operations_are_distinct(records.remove(index)),
        transitions::place_of(records.remove(index), records[index].operation) is None,
{
    let rest = records.remove(index);
    assert forall|i: int, j: int| 0 <= i < j < rest.len() implies (#[trigger] rest[i]).operation
        != (#[trigger] rest[j]).operation by {
        let a = if i < index {
            i
        } else {
            i + 1
        };
        let b = if j < index {
            j
        } else {
            j + 1
        };
        assert(records[a].operation != records[b].operation);
    }
    lemma_place(rest, records[index].operation);
    if let Some(other) = transitions::place_of(rest, records[index].operation) {
        let original = if other < index {
            other
        } else {
            other + 1
        };
        assert(rest[other] == records[original]);
        assert(records[original].operation != records[index].operation);
    }
}

proof fn lemma_filter_keeps_distinct(
    records: Seq<RecordModel>,
    keep: spec_fn(RecordModel) -> bool,
)
    requires
        operations_are_distinct(records),
    ensures
        operations_are_distinct(records.filter(keep)),
        records.filter(keep).len() <= records.len(),
        forall|i: int|
            0 <= i < records.filter(keep).len() ==> keep(#[trigger] records.filter(keep)[i])
                && records.contains(records.filter(keep)[i]),
    decreases records.len(),
{
    reveal(Seq::filter);
    if records.len() > 0 {
        let front = records.drop_last();
        assert(operations_are_distinct(front)) by {
            assert forall|i: int, j: int| 0 <= i < j < front.len() implies (
            #[trigger] front[i]).operation != (#[trigger] front[j]).operation by {
                assert(records[i].operation != records[j].operation);
            }
        }
        lemma_filter_keeps_distinct(front, keep);
        let kept = front.filter(keep);
        let all = records.filter(keep);
        assert forall|i: int| 0 <= i < all.len() implies keep(#[trigger] all[i])
            && records.contains(all[i]) by {
            if i < kept.len() {
                assert(all[i] == kept[i]);
                let place = choose|k: int| 0 <= k < front.len() && front[k] == kept[i];
                assert(records[place] == all[i]);
            } else {
                assert(all[i] == records.last());
                assert(records[records.len() - 1] == all[i]);
            }
        }
        assert forall|i: int, j: int| 0 <= i < j < all.len() implies (#[trigger] all[i]).operation
            != (#[trigger] all[j]).operation by {
            assert(all[i] == kept[i]);
            if j < kept.len() {
                assert(kept[i].operation != kept[j].operation);
            } else {
                let place = choose|k: int| 0 <= k < front.len() && front[k] == kept[i];
                assert(records[place].operation != records[records.len() - 1].operation);
            }
        }
    }
}

/// Preparations keep the registry well formed, and so does the registration of a
/// transition under a fresh operation.
pub proof fn law_preparations_keep_the_registry_invariant(
    registry: RegistryModel,
    kind: TransitionKind,
    token: u64,
    valid: bool,
    record: RecordModel,
    view: [u8; 32],
    generation: u64,
)
    requires
        transitions::registry_wf(registry),
        transitions::place_of(registry.records, record.operation) is None,
    ensures
        transitions::registry_wf(transitions::empty_registry(registry.capacity)),
        transitions::registry_wf(transitions::after_begin_prepare(registry, kind, valid)),
        transitions::registry_wf(transitions::after_clear_prepare(registry, kind, token)),
        transitions::registry_wf(transitions::after_cancel_prepares(registry)),
        transitions::registry_wf(transitions::after_register(registry, token, valid, record)),
        transitions::registry_wf(
            transitions::after_freshness(registry, record.operation, generation, view),
        ),
{
    lemma_place(registry.records, record.operation);
    let pushed = registry.records.push(record);
    assert forall|i: int, j: int| 0 <= i < j < pushed.len() implies (
    #[trigger] pushed[i]).operation != (#[trigger] pushed[j]).operation by {
        if j < registry.records.len() {
            assert(registry.records[i].operation != registry.records[j].operation);
        } else {
            assert(registry.records[i].operation != record.operation);
        }
    }
    let asked = transitions::after_freshness(registry, record.operation, generation, view);
    assert forall|i: int, j: int| 0 <= i < j < asked.records.len() implies (
    #[trigger] asked.records[i]).operation != (#[trigger] asked.records[j]).operation by {
        if j < registry.records.len() {
            assert(registry.records[i].operation != registry.records[j].operation);
        } else {
            assert(registry.records[i].operation != record.operation);
        }
    }
}

/// What is done to one transition keeps the registry well formed.
pub proof fn law_transitions_keep_the_registry_invariant(
    registry: RegistryModel,
    operation: OperationId,
    valid: bool,
    execution: OperationModel,
    close_service: bool,
)
    requires
        transitions::registry_wf(registry),
    ensures
        transitions::registry_wf(transitions::after_claim(registry, operation, valid)),
        transitions::registry_wf(transitions::after_claim_execution(registry, valid, execution)),
        transitions::registry_wf(transitions::after_complete(registry, operation)),
        transitions::registry_wf(transitions::after_cancel(registry, operation)),
        transitions::registry_wf(transitions::after_offer(registry, operation)),
        transitions::registry_wf(transitions::after_take_verifier(registry, operation)),
        transitions::registry_wf(transitions::after_take_presentation(registry, operation)),
        transitions::registry_wf(transitions::after_stop(registry, close_service)),
        transitions::registry_wf(
            RegistryModel {
                records: transitions::consuming_only(registry.records),
                ..registry
            },
        ),
{
    lemma_place(registry.records, operation);
    lemma_place(registry.records, execution.id);
    assert(operations_are_distinct(registry.records));
    if let Some(index) = transitions::place_of(registry.records, operation) {
        let record = registry.records[index];
        lemma_update_keeps_distinct(
            registry.records,
            index,
            RecordModel { consuming: true, ..record },
        );
        lemma_update_keeps_distinct(
            registry.records,
            index,
            RecordModel { verifier: None, presentation: None, ..record },
        );
        lemma_update_keeps_distinct(
            registry.records,
            index,
            RecordModel { presentation: None, ..record },
        );
        lemma_update_keeps_distinct(
            registry.records,
            index,
            RecordModel { offered: true, ..record },
        );
        lemma_remove_keeps_distinct(registry.records, index);
    }
    if let Some(index) = transitions::place_of(registry.records, execution.id) {
        lemma_update_keeps_distinct(
            registry.records,
            index,
            RecordModel { consuming: true, ..registry.records[index] },
        );
    }
    lemma_filter_keeps_distinct(registry.records, |record: RecordModel| record.consuming);
}

proof fn lemma_place_after_update(
    records: Seq<RecordModel>,
    operation: OperationId,
    record: RecordModel,
)
    requires
        transitions::place_of(records, operation) is Some,
        record.operation == operation,
    ensures
        transitions::place_of(
            records.update(transitions::place_of(records, operation)->0, record),
            operation,
        ) == transitions::place_of(records, operation),
{
    lemma_place(records, operation);
    let index = transitions::place_of(records, operation)->0;
    let after = records.update(index, record);
    assert(transitions::record_at(after, operation, index)) by {
        assert forall|i: int| 0 <= i < index implies (#[trigger] after[i]).operation
            != operation by {
            assert(records[i].operation != operation);
        }
    }
    transitions::lemma_place_of(after, operation, index);
}

/// A transition is claimed once: after its claim neither another claim nor a
/// cancellation gets it.
pub proof fn law_a_transition_is_claimed_once(
    registry: RegistryModel,
    operation: OperationId,
    valid: bool,
)
    requires
        transitions::claim_answer(registry, operation, valid) is Ok,
    ensures
        ({
            let claimed = transitions::after_claim(registry, operation, valid);
            &&& transitions::claim_answer(claimed, operation, true) is Err
            &&& !transitions::is_pending(claimed, operation)
            &&& transitions::after_cancel(claimed, operation) == claimed
        }),
{
    let index = transitions::place_of(registry.records, operation)->0;
    lemma_place(registry.records, operation);
    lemma_place_after_update(
        registry.records,
        operation,
        RecordModel { consuming: true, ..registry.records[index] },
    );
}

/// A transition that was cancelled cannot be confirmed, and one that was completed
/// is gone with everything secret.
pub proof fn law_a_cancelled_transition_is_gone(registry: RegistryModel, operation: OperationId)
    requires
        transitions::registry_wf(registry),
    ensures
        transitions::is_pending(registry, operation) ==> {
            let after = transitions::after_cancel(registry, operation);
            &&& transitions::place_of(after.records, operation) is None
            &&& transitions::claim_answer(after, operation, true) is Err
        },
        transitions::verifier_of(transitions::after_complete(registry, operation), operation) is None,
        transitions::presentation_of(
            transitions::after_complete(registry, operation),
            operation,
        ) is None,
{
    lemma_place(registry.records, operation);
    assert(operations_are_distinct(registry.records));
    if let Some(index) = transitions::place_of(registry.records, operation) {
        lemma_remove_keeps_distinct(registry.records, index);
        lemma_place_after_update(
            registry.records,
            operation,
            RecordModel { verifier: None, presentation: None, ..registry.records[index] },
        );
    }
}

/// A freshness question is offered once.
pub proof fn law_freshness_is_offered_once(registry: RegistryModel, operation: OperationId)
    requires
        transitions::offer_answer(registry, operation) is Some,
    ensures
        transitions::offer_answer(
            transitions::after_offer(registry, operation),
            operation,
        ) is None,
{
    let index = transitions::place_of(registry.records, operation)->0;
    lemma_place(registry.records, operation);
    lemma_place_after_update(
        registry.records,
        operation,
        RecordModel { offered: true, ..registry.records[index] },
    );
}

/// A secret is presented once.
pub proof fn law_a_secret_is_presented_once(registry: RegistryModel, operation: OperationId)
    ensures
        transitions::presentation_of(
            transitions::after_take_presentation(registry, operation),
            operation,
        ) is None,
{
    lemma_place(registry.records, operation);
    if let Some(index) = transitions::place_of(registry.records, operation) {
        lemma_place_after_update(
            registry.records,
            operation,
            RecordModel { presentation: None, ..registry.records[index] },
        );
    }
}

/// Only transitions that are being carried out outlive a lock.
pub proof fn law_only_claimed_transitions_outlive_a_lock(
    registry: RegistryModel,
    operation: OperationId,
)
    requires
        transitions::registry_wf(registry),
    ensures
        !transitions::is_pending(
            RegistryModel {
                records: transitions::consuming_only(registry.records),
                ..registry
            },
            operation,
        ),
{
    lemma_filter_keeps_distinct(registry.records, |record: RecordModel| record.consuming);
    let kept = transitions::consuming_only(registry.records);
    lemma_place(kept, operation);
    if let Some(index) = transitions::place_of(kept, operation) {
        assert(kept[index].consuming);
    }
}

/// A lock ends every preparation: what was prepared before it is never registered
/// after it.
pub proof fn law_a_lock_ends_preparations(
    core_state: CoreModel,
    control: Control,
    close_service: bool,
    kind: TransitionKind,
    token: u64,
    valid: bool,
)
    requires
        !(kind is Freshness),
    ensures
        ({
            let locked = runtime::after_global_lock(core_state, control, close_service);
            &&& !transitions::is_prepared(locked.transitions, kind, token)
            &&& transitions::register_answer(locked.transitions, kind, token, valid) is Err
        }),
{
}

/// A compromise rekey is confirmed only while the service is open for the
/// generation that it was begun in; a recovery initialization only while the
/// session is locked.
pub proof fn law_transitions_are_bound_to_their_generation(core_state: CoreModel, id: OperationId)
    requires
        flows::claim_security_answer(core_state, id) is Ok,
    ensures
        ({
            let record = core_state.transitions.records[transitions::place_of(
                core_state.transitions.records,
                id,
            )->0];
            &&& !core_state.scheduler.closed
            &&& record.kind is Compromise ==> core_state.scheduler.accepting
                && core_state.scheduler.generation == record.generation
                && runtime::current_generation(core_state.session) == Some(record.generation)
            &&& record.kind is Recovery ==> core_state.scheduler.lock_job is None
                && core_state.session is Some && core_state.session->0.data.state is Locked
                && core_state.session->0.data.epoch == record.generation
        }),
{
}

/// The freshness question of an operation that was cancelled, or that is not
/// accounted any more, is neither offered nor acknowledged.
pub proof fn law_a_cancelled_operation_acknowledges_nothing(core_state: CoreModel, id: OperationId)
    requires
        !flows::runs(core_state.scheduler, id),
    ensures
        flows::offer_answer(core_state, id) is Err,
        flows::claim_freshness_answer(core_state, id) is Err,
        flows::after_claim_freshness(core_state, id) == core_state,
{
}

/// A lock keeps freshness from being acknowledged.
pub proof fn law_a_lock_ends_freshness(
    core_state: CoreModel,
    control: Control,
    close_service: bool,
    id: OperationId,
)
    ensures
        flows::claim_freshness_answer(
            runtime::after_global_lock(core_state, control, close_service),
            id,
        ) is Err,
{
}

/// An unlock and a recovery initialization exclude each other.
pub proof fn law_unlock_and_recovery_exclude_each_other(core_state: CoreModel)
    ensures
        runtime::unlock_job_answer(core_state) is Ok ==> flows::begin_answer(
            runtime::after_unlock_job(core_state),
            TransitionKind::Recovery,
        ) is Err,
        flows::begin_answer(core_state, TransitionKind::Recovery) is Ok
            ==> runtime::unlock_job_answer(
            flows::after_begin(core_state, TransitionKind::Recovery),
        ) is Err,
{
}

/// The secret that a verifier was made of is accepted, whatever the key.
pub proof fn law_the_presented_secret_is_accepted(key: Seq<u8>, secret: Seq<u8>)
    ensures
        secrets::accepts_secret((key, secrets::recovery_verifier(key, secret)), secret),
        flows::recovery_confirmation(
            Some((key, secrets::recovery_verifier(key, secret))),
            secret,
        ) == Ok::<(), ServiceError>(()),
        flows::compromise_confirmation(
            Some((key, secrets::recovery_verifier(key, secret))),
            secret,
            None,
            Err(ServiceError::EntropyUnavailable),
        ) == Ok::<Seq<u8>, ServiceError>(secret),
{
}

/// A secret of the user's own choice is confirmed by entering it twice.
pub proof fn law_a_chosen_secret_is_entered_twice(key: Seq<u8>, secret: Seq<u8>)
    ensures
        flows::compromise_confirmation(None, secret, Some(secret), Ok(key)) == Ok::<
            Seq<u8>,
            ServiceError,
        >(secret),
        flows::compromise_confirmation(None, secret, None, Ok(key)) == Err::<
            Seq<u8>,
            ServiceError,
        >(ServiceError::AuthenticationFailed),
{
}

/// A pending capability belongs to one service, and is spent once.
pub proof fn law_a_pending_capability_belongs_to_its_service(
    pending: PendingModel,
    expected: u64,
    origin_lives: bool,
)
    ensures
        handles::claim_answer(pending, expected, origin_lives) is Ok ==> pending.armed
            && origin_lives && pending.service == expected,
        handles::claim_answer(
            PendingModel { armed: false, ..pending },
            expected,
            origin_lives,
        ) == Err::<OperationId, ServiceError>(ServiceError::StaleCapability),
{
}

/// Two identities of one service are the same only if they have the same number.
pub proof fn law_identities_are_distinct(nonce: [u8; 8], a: u64, b: u64)
    requires
        a != b,
    ensures
        identity::identity_bytes(nonce, a) != identity::identity_bytes(nonce, b),
{
    let left = identity::identity_bytes(nonce, a);
    let right = identity::identity_bytes(nonce, b);
    if left == right {
        assert forall|i: int| 0 <= i < 8 implies identity::big_endian_byte(a, i)
            == identity::big_endian_byte(b, i) by {
            assert(left[8 + i] == identity::big_endian_byte(a, i));
            assert(right[8 + i] == identity::big_endian_byte(b, i));
        }
        lemma_big_endian(a);
        lemma_big_endian(b);
    }
}

/// A number is the sum of its bytes at their places.
pub proof fn lemma_big_endian(value: u64)
    ensures
        value == identity::big_endian_byte(value, 0) * 0x100_0000_0000_0000
            + identity::big_endian_byte(value, 1) * 0x1_0000_0000_0000
            + identity::big_endian_byte(value, 2) * 0x100_0000_0000
            + identity::big_endian_byte(value, 3) * 0x1_0000_0000
            + identity::big_endian_byte(value, 4) * 0x100_0000
            + identity::big_endian_byte(value, 5) * 0x1_0000
            + identity::big_endian_byte(value, 6) * 0x100
            + identity::big_endian_byte(value, 7),
{
    let v0 = value as int;
    let v1 = v0 / 256;
    let v2 = v1 / 256;
    let v3 = v2 / 256;
    let v4 = v3 / 256;
    let v5 = v4 / 256;
    let v6 = v5 / 256;
    let v7 = v6 / 256;
    assert(v0 / 0x100 == v1);
    assert(v0 / 0x1_0000 == v2);
    assert(v0 / 0x100_0000 == v3);
    assert(v0 / 0x1_0000_0000 == v4);
    assert(v0 / 0x100_0000_0000 == v5);
    assert(v0 / 0x1_0000_0000_0000 == v6);
    assert(v0 / 0x100_0000_0000_0000 == v7);
    assert(v7 < 256);
    assert(v0 / 1 == v0);
    assert(identity::big_endian_byte(value, 0) == v7 % 256);
    assert(identity::big_endian_byte(value, 1) == v6 % 256);
    assert(identity::big_endian_byte(value, 2) == v5 % 256);
    assert(identity::big_endian_byte(value, 3) == v4 % 256);
    assert(identity::big_endian_byte(value, 4) == v3 % 256);
    assert(identity::big_endian_byte(value, 5) == v2 % 256);
    assert(identity::big_endian_byte(value, 6) == v1 % 256);
    assert(identity::big_endian_byte(value, 7) == v0 % 256);
    assert(v0 == v1 * 256 + v0 % 256);
    assert(v1 == v2 * 256 + v1 % 256);
    assert(v2 == v3 * 256 + v2 % 256);
    assert(v3 == v4 * 256 + v3 % 256);
    assert(v4 == v5 * 256 + v4 % 256);
    assert(v5 == v6 * 256 + v5 % 256);
    assert(v6 == v7 * 256 + v6 % 256);
}

} // verus!
