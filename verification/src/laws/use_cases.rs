//! Laws of the use cases on a local vault, and of exports.
use vstd::prelude::*;

use crate::command::SnapshotVersion;
use crate::error::ServiceError;
use crate::event::{DurabilitySummary, OperationEvent};
use crate::external_files;
use crate::external_files::{CleanupEntry, CleanupModel, CleanupState, ExportCleanupId};
use crate::local_use_cases;
use crate::local_use_cases::exports;
use crate::local_use_cases::exports::{ExportRun, ExportStage};
use crate::local_use_cases::mutations;
use crate::local_use_cases::mutations::{MutationRun, MutationStage, MutationTask};
use crate::local_use_cases::reads;
use crate::local_use_cases::reads::ReadRun;
use crate::local_use_cases::{Answer, UseAction};
use crate::operation::{OperationId, OperationModel, Publication};
use crate::service::runtime;
use crate::service::runtime::CoreModel;
use crate::service::scheduler;
use crate::service::scheduler::SchedulerModel;
use crate::service::worker;

verus! {

/// Invariant of a change: one that was committed and gave its lease back knows
/// what it made, and so does one that succeeded.
pub open spec fn mutation_wf(run: MutationRun) -> bool {
    &&& run.stage is Finishing ==> (run.failure is None <==> run.committed is Some)
    &&& run.stage is Settling ==> run.failure is None && run.committed is Some
    &&& run.stage is Over && run.failure is None ==> run.committed is Some
    &&& !(run.stage is Finishing || run.stage is Settling || run.stage is Over)
        ==> run.failure is None && run.committed is None
}

/// A change that begins is well formed, and every step keeps it so.
pub proof fn law_changes_keep_their_invariant(
    core_state: CoreModel,
    task: MutationTask,
    run: MutationRun,
    id: OperationId,
    answer: Result<Answer, ServiceError>,
)
    requires
        mutation_wf(run),
    ensures
        mutation_wf(
            MutationRun {
                task,
                stage: mutations::first_stage(task),
                waited: false,
                failure: None,
                committed: None,
            },
        ),
        mutation_wf(mutations::mutation_move(core_state, run, id, answer).run),
{
}

/// A change succeeds only when it was committed, its lease was given back without a
/// failure, and its consumer was told that it is durable.
pub proof fn law_a_change_succeeds_only_when_durable(
    core_state: CoreModel,
    run: MutationRun,
    id: OperationId,
    answer: Result<Answer, ServiceError>,
)
    requires
        mutation_wf(run),
        !(run.stage is Over),
    ensures
        mutations::mutation_move(core_state, run, id, answer).action matches UseAction::End(Ok(_))
            ==> {
            &&& run.stage is Settling
            &&& run.committed is Some
            &&& worker::publish_answer(
                local_use_cases::before_announcement(core_state.scheduler, id, run.waited),
                id,
                OperationEvent::RevisionDurable(
                    local_use_cases::durable_event((run.committed->0).snapshot),
                ),
            ) == Ok::<Publication, ServiceError>(Publication::Delivered)
        },
{
}

/// How far a change is.
pub open spec fn mutation_rank(stage: MutationStage) -> nat {
    match stage {
        MutationStage::Preparing => 0,
        MutationStage::Reading => 1,
        MutationStage::Opening => 2,
        MutationStage::Encrypting => 3,
        MutationStage::Leasing => 4,
        MutationStage::Checking => 5,
        MutationStage::Building => 6,
        MutationStage::Counting => 7,
        MutationStage::Publishing => 8,
        MutationStage::Committing => 9,
        MutationStage::Finishing => 10,
        MutationStage::Settling => 11,
        MutationStage::Over => 12,
    }
}

/// A change only goes forward, and stays where it is only to wait for room.
pub proof fn law_a_change_goes_forward(
    core_state: CoreModel,
    run: MutationRun,
    id: OperationId,
    answer: Result<Answer, ServiceError>,
)
    ensures
        ({
            let step = mutations::mutation_move(core_state, run, id, answer);
            &&& step.run.task == run.task
            &&& mutation_rank(step.run.stage) > mutation_rank(run.stage) || step.run.stage
                == run.stage && (step.action is WaitForRoom || run.stage is Over)
        }),
{
}

/// A commit cannot be taken back: after it, a cancellation keeps neither the report
/// nor the announcement from the consumer, unless the consumer is gone.
pub proof fn law_a_cancellation_cannot_undo_a_commit(
    scheduler: SchedulerModel,
    id: OperationId,
    durable: DurabilitySummary,
    index: int,
)
    requires
        scheduler::place_of(scheduler.active, id) == Some(index),
        !scheduler.active[index].events.consumer_gone,
    ensures
        worker::publish_answer(
            local_use_cases::after_irrevocable(scheduler, id),
            id,
            OperationEvent::RevisionDurable(durable),
        ) != Err::<Publication, ServiceError>(ServiceError::Cancelled),
        scheduler::boundary_answer(local_use_cases::after_irrevocable(scheduler, id), id) == Ok::<
            (),
            ServiceError,
        >(()),
{
    assert(scheduler::operation_at(scheduler.active, id, index));
    let state = OperationModel { irrevocable: true, ..scheduler.active[index] };
    let after = scheduler.active.update(index, state);
    assert(scheduler::operation_at(after, id, index)) by {
        assert forall|i: int| 0 <= i < index implies (#[trigger] after[i]).id != id by {
            assert(scheduler.active[i].id != id);
        }
    }
    scheduler::lemma_place_of(after, id, index);
}

/// A lease that was taken is given back: a read that has one ends only after it was
/// given back, and what failed under it is what is reported.
pub proof fn law_a_read_gives_its_lease_back(
    core_state: CoreModel,
    run: ReadRun,
    id: OperationId,
    answer: Result<Answer, ServiceError>,
)
    ensures
        run.stage is Reading || run.stage is Guarding ==> !(reads::read_move(
            core_state,
            run,
            id,
            answer,
        ).action is End),
        run.stage is Guarding ==> reads::read_move(core_state, run, id, answer).action
            is FinishLease,
        run.stage is Finishing && run.failure is Some ==> reads::read_move(
            core_state,
            run,
            id,
            answer,
        ).action == UseAction::End(Err(run.failure->0)),
        run.stage is Finishing && run.failure is None ==> (reads::read_move(
            core_state,
            run,
            id,
            answer,
        ).action matches UseAction::End(Ok(_))) == (answer is Ok),
{
}

/// Invariant of an export: it began at the host exactly in the stages after that,
/// and only what began is given up.
pub open spec fn export_wf(run: ExportRun) -> bool {
    match run.stage {
        ExportStage::Preparing
        | ExportStage::Leasing
        | ExportStage::Comparing
        | ExportStage::Checking
        | ExportStage::Beginning => !run.began && run.failure is None,
        ExportStage::Reading
        | ExportStage::Writing
        | ExportStage::Counting
        | ExportStage::Publishing
        | ExportStage::Flushing
        | ExportStage::Guarding
        | ExportStage::Releasing => run.began && run.failure is None,
        ExportStage::Finishing => !run.began ==> run.failure is Some,
        ExportStage::Aborting(_) => run.began,
        ExportStage::Over => true,
    }
}

/// An export that begins is well formed, and every step keeps it so.
pub proof fn law_exports_keep_their_invariant(
    core_state: CoreModel,
    expected_snapshot: SnapshotVersion,
    run: ExportRun,
    id: OperationId,
    answer: Result<Answer, ServiceError>,
)
    requires
        export_wf(run),
    ensures
        export_wf(
            ExportRun {
                expected_snapshot,
                stage: ExportStage::Preparing,
                waited: false,
                began: false,
                failure: None,
                bytes: 0,
            },
        ),
        export_wf(exports::export_move(core_state, run, id, answer).run),
{
}

/// An export that began never just ends: it is published, or it is given up, or
/// the attempt to do so is what ends it.
pub proof fn law_an_export_that_began_is_settled(
    core_state: CoreModel,
    run: ExportRun,
    id: OperationId,
    answer: Result<Answer, ServiceError>,
)
    requires
        export_wf(run),
        run.began,
        exports::export_move(core_state, run, id, answer).action is End,
    ensures
        run.stage is Releasing || run.stage is Aborting || run.stage is Over,
{
}

/// An export is published only after its bytes were flushed and the operation was
/// allowed to go on.
pub proof fn law_an_export_is_published_only_when_allowed(
    core_state: CoreModel,
    run: ExportRun,
    id: OperationId,
    answer: Result<Answer, ServiceError>,
)
    requires
        exports::export_move(core_state, run, id, answer).action is Publish,
    ensures
        run.stage is Guarding,
        scheduler::boundary_answer(core_state.scheduler, id) == Ok::<(), ServiceError>(()),
{
}

/// An export of another snapshot than the expected one never begins at the host.
pub proof fn law_a_stale_export_never_begins(
    core_state: CoreModel,
    run: ExportRun,
    id: OperationId,
    snapshot: SnapshotVersion,
)
    requires
        run.stage is Comparing,
        snapshot != run.expected_snapshot,
    ensures
        ({
            let step = exports::export_move(core_state, run, id, Ok(Answer::Snapshot(snapshot)));
            &&& step.action is FinishLease
            &&& step.run.failure == Some(ServiceError::StaleCapability)
            &&& step.run.began == run.began
        }),
{
}

/// An export that leaves something behind requires cleanup: where giving it up
/// fails, the service is told so and requires it.
pub proof fn law_a_failed_abort_requires_cleanup(
    core_state: CoreModel,
    run: ExportRun,
    id: OperationId,
    primary: ServiceError,
    error: ServiceError,
)
    requires
        run.stage == ExportStage::Aborting(primary),
        core_state.session is Some,
    ensures
        ({
            let step = exports::export_move(core_state, run, id, Err(error));
            &&& step.action == UseAction::End(Err(ServiceError::CleanupRequired))
            &&& step.service == runtime::after_latch(core_state)
            &&& step.service.session is Some
            &&& step.service.session->0.data.cleanup_required
            &&& !(step.service.session->0.data.state is Unlocked)
        }),
{
}

proof fn lemma_place(entries: Seq<CleanupEntry>, id: ExportCleanupId)
    ensures
        external_files::place_of(entries, id) matches Some(index) ==> external_files::entry_at(
            entries,
            id,
            index,
        ),
        external_files::place_of(entries, id) is None ==> forall|i: int|
            0 <= i < entries.len() ==> (#[trigger] entries[i]).id != id,
{
    if external_files::place_of(entries, id) is None {
        assert forall|i: int| 0 <= i < entries.len() implies (#[trigger] entries[i]).id != id by {
            if entries[i].id == id {
                lemma_first_place(entries, id, i);
            }
        }
    }
}

/// An export that occurs has a first place.
proof fn lemma_first_place(entries: Seq<CleanupEntry>, id: ExportCleanupId, index: int)
    requires
        0 <= index < entries.len(),
        entries[index].id == id,
    ensures
        external_files::place_of(entries, id) is Some,
    decreases index,
{
    if forall|i: int| 0 <= i < index ==> (#[trigger] entries[i]).id != id {
        assert(external_files::entry_at(entries, id, index));
    } else {
        let earlier = choose|i: int| 0 <= i < index && (#[trigger] entries[i]).id == id;
        lemma_first_place(entries, id, earlier);
    }
}

/// Everything that is done to the registry of exports keeps it well formed.
pub proof fn law_the_cleanup_registry_stays_well_formed(
    registry: CleanupModel,
    id: ExportCleanupId,
    state: CleanupState,
)
    requires
        external_files::cleanup_wf(registry),
    ensures
        external_files::cleanup_wf(external_files::empty_cleanup()),
        registry.entries.len() < external_files::MAX_TRACKED_EXPORTS && registry.next_id < u64::MAX
            ==> external_files::cleanup_wf(external_files::after_reserve(registry)),
        external_files::cleanup_wf(external_files::after_finish(registry, id)),
        external_files::cleanup_wf(external_files::with_state(registry, id, state)),
{
    lemma_place(registry.entries, id);
    if let Some(index) = external_files::place_of(registry.entries, id) {
        let rest = external_files::swap_removed(registry.entries, index);
        assert forall|i: int| 0 <= i < rest.len() implies (#[trigger] rest[i]).id.0
            < registry.next_id by {
            assert(rest[i] == if i == index {
                registry.entries.last()
            } else {
                registry.entries[i]
            });
        }
        assert forall|i: int, j: int| 0 <= i < j < rest.len() implies (#[trigger] rest[i]).id != (
        #[trigger] rest[j]).id by {
            let last = registry.entries.len() - 1;
            let a = if i == index {
                last
            } else {
                i
            };
            let b = if j == index {
                last
            } else {
                j
            };
            assert(rest[i] == registry.entries[a] && rest[j] == registry.entries[b]);
            if a < b {
                assert(registry.entries[a].id != registry.entries[b].id);
            } else {
                assert(registry.entries[b].id != registry.entries[a].id);
            }
        }
        let changed = registry.entries.update(index, CleanupEntry { id, state });
        assert forall|i: int, j: int| 0 <= i < j < changed.len() implies (
        #[trigger] changed[i]).id != (#[trigger] changed[j]).id by {
            assert(registry.entries[i].id != registry.entries[j].id);
        }
    }
    if registry.entries.len() < external_files::MAX_TRACKED_EXPORTS && registry.next_id < u64::MAX {
        let added = external_files::after_reserve(registry).entries;
        assert forall|i: int, j: int| 0 <= i < j < added.len() implies (#[trigger] added[i]).id
            != (#[trigger] added[j]).id by {
            if j < registry.entries.len() {
                assert(registry.entries[i].id != registry.entries[j].id);
            } else {
                assert(registry.entries[i].id.0 < registry.next_id);
            }
        }
    }
}

/// An export that ended is tracked no more, and every other one still is as it was.
pub proof fn law_an_ended_export_is_forgotten(
    registry: CleanupModel,
    id: ExportCleanupId,
    other: ExportCleanupId,
)
    requires
        external_files::cleanup_wf(registry),
    ensures
        external_files::place_of(
            external_files::after_finish(registry, id).entries,
            id,
        ) is None,
        other != id ==> external_files::is_pending(
            external_files::after_finish(registry, id),
            other,
        ) == external_files::is_pending(registry, other),
{
    let after = external_files::after_finish(registry, id);
    law_the_cleanup_registry_stays_well_formed(registry, id, CleanupState::Pending);
    lemma_place(registry.entries, id);
    lemma_place(after.entries, id);
    lemma_place(registry.entries, other);
    lemma_place(after.entries, other);
    if let Some(index) = external_files::place_of(registry.entries, id) {
        let last = registry.entries.len() - 1;
        assert forall|i: int| 0 <= i < after.entries.len() implies #[trigger] after.entries[i]
            == registry.entries[if i == index {
            last
        } else {
            i
        }] by {}
        if let Some(place) = external_files::place_of(after.entries, id) {
            let original = if place == index {
                last
            } else {
                place
            };
            assert(registry.entries[original].id == id);
            if original < index {
                assert(registry.entries[original].id != registry.entries[index].id);
            } else if index < original {
                assert(registry.entries[index].id != registry.entries[original].id);
            }
        }
        if other != id {
            if let Some(place) = external_files::place_of(registry.entries, other) {
                let moved = if place == last {
                    index
                } else {
                    place
                };
                assert(after.entries[moved] == registry.entries[place]);
                assert(external_files::place_of(after.entries, other) is Some) by {
                    lemma_first_place(after.entries, other, moved);
                }
                let found = external_files::place_of(after.entries, other)->0;
                if found < moved {
                    assert(after.entries[found].id != after.entries[moved].id);
                } else if moved < found {
                    assert(after.entries[moved].id != after.entries[found].id);
                }
            } else if let Some(found) = external_files::place_of(after.entries, other) {
                assert(registry.entries[if found == index {
                    last
                } else {
                    found
                }].id == other);
            }
        }
    }
}

/// An export that owes cleanup owes it until its cleanup is proven: a failed try
/// leaves it pending.
pub proof fn law_owed_cleanup_stays_owed(registry: CleanupModel, id: ExportCleanupId)
    requires
        external_files::is_pending(registry, id),
    ensures
        ({
            let tried = external_files::with_state(registry, id, CleanupState::Retrying);
            let failed = external_files::with_state(tried, id, CleanupState::Pending);
            &&& !external_files::is_pending(tried, id)
            &&& external_files::is_pending(failed, id)
        }),
{
    lemma_place(registry.entries, id);
    let index = external_files::place_of(registry.entries, id)->0;
    let tried = registry.entries.update(
        index,
        CleanupEntry { id, state: CleanupState::Retrying },
    );
    assert(external_files::entry_at(tried, id, index)) by {
        assert forall|i: int| 0 <= i < index implies (#[trigger] tried[i]).id != id by {
            assert(registry.entries[i].id != id);
        }
    }
    external_files::lemma_place_of(tried, id, index);
    let failed = tried.update(index, CleanupEntry { id, state: CleanupState::Pending });
    assert(external_files::entry_at(failed, id, index)) by {
        assert forall|i: int| 0 <= i < index implies (#[trigger] failed[i]).id != id by {
            assert(tried[i].id != id);
        }
    }
    external_files::lemma_place_of(failed, id, index);
}

} // verus!
