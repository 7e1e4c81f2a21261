//! Laws of whole use cases: what a read, a change or an export comes to.
use vstd::prelude::*;

use crate::command::{EntryKind, SnapshotVersion};
use crate::error::ServiceError;
use crate::event;
use crate::event::{DurabilitySummary, OperationEvent, OperationPhase, Progress, ProgressUnit};
use crate::laws::announcing;
use crate::laws::terms;
use crate::local_use_cases;
use crate::local_use_cases::exports;
use crate::local_use_cases::exports::{ExportRun, ExportStage};
use crate::local_use_cases::mutations;
use crate::local_use_cases::mutations::{MutationRun, MutationStage, MutationTask};
use crate::local_use_cases::reads;
use crate::local_use_cases::reads::{ReadRun, ReadTask};
use crate::local_use_cases::{Answer, Commitment, UseAction};
use crate::operation::{OperationId, OperationModel, Publication};
use crate::service::runtime::CoreModel;
use crate::service::scheduler::SchedulerModel;
use crate::service::worker;

verus! {

/// An operation that may go on, and whose consumer takes an event at once.
pub open spec fn is_heard(core_state: CoreModel, id: OperationId, index: int, event: OperationEvent) -> bool {
    &&& terms::stands_at(core_state.scheduler.active, id, index)
    &&& terms::may_go_on(core_state.scheduler, index)
    &&& terms::takes_event(core_state.scheduler.active[index], event)
}

/// The only thing that changed is that the consumer of an operation has one more
/// event to take.
pub open spec fn hears(before: CoreModel, index: int, event: OperationEvent, after: CoreModel) -> bool {
    &&& after == (CoreModel {
        scheduler: SchedulerModel { active: after.scheduler.active, ..before.scheduler },
        ..before
    })
    &&& after.scheduler.active == before.scheduler.active.update(
        index,
        after.scheduler.active[index],
    )
    &&& announcing::with_event(
        before.scheduler.active[index],
        event,
        after.scheduler.active[index],
    )
}

/// An operation that may go on.
pub open spec fn is_carried(core_state: CoreModel, id: OperationId, index: int) -> bool {
    &&& terms::stands_at(core_state.scheduler.active, id, index)
    &&& terms::may_go_on(core_state.scheduler, index)
}

/// An operation is bound to a generation, in a session that knows its vault.
pub open spec fn is_bound(core_state: CoreModel, index: int) -> bool {
    &&& core_state.scheduler.active[index].session_generation is Some
    &&& core_state.session is Some
    &&& core_state.session->0.vault_id is Some
}

/// A read whose announcement is delivered goes on to take a lease; of status, exactly
/// where its operation is bound to a generation in a session that knows its vault, and
/// it is refused as locked where that binding is missing.
pub proof fn law_a_read_that_is_heard_takes_a_lease(
    core_state: CoreModel,
    run: ReadRun,
    id: OperationId,
    index: int,
    answer: Result<Answer, ServiceError>,
)
    requires
        run.stage is Announcing,
        is_heard(core_state, id, index, OperationEvent::PhaseChanged(OperationPhase::Reading)),
    ensures
        ({
            let step = reads::read_move(core_state, run, id, answer);
            let reading = OperationEvent::PhaseChanged(OperationPhase::Reading);
            &&& hears(core_state, index, reading, step.service)
            &&& step.action == UseAction::TakeLease <==> (run.task is List || is_bound(
                core_state,
                index,
            ))
            &&& step.action == UseAction::End(Err::<(), ServiceError>(ServiceError::Locked)) <==> (
            run.task is Status && !is_bound(core_state, index))
        }),
{
    let reading = OperationEvent::PhaseChanged(OperationPhase::Reading);
    announcing::law_an_announcement_is_delivered(
        core_state.scheduler,
        id,
        index,
        reading,
        run.waited,
    );
    let told = worker::after_emit(core_state.scheduler, id, reading, run.waited);
    terms::lemma_changed(core_state.scheduler.active, id, index, told.active[index]);
    terms::lemma_found(told.active, id, index);
    assert(told.active[index].session_generation
        == core_state.scheduler.active[index].session_generation);
}

/// A read that is heard, and of status bound to a generation in a session that knows
/// its vault, takes a lease, reads, looks whether it may go on, gives the lease back
/// and ends with success, where all of these succeed; whatever becomes of the service
/// between the steps.
pub proof fn law_a_read_comes_to_its_end(
    task: ReadTask,
    fresh: ReadRun,
    id: OperationId,
    cores: Seq<CoreModel>,
    first_place: int,
    last_place: int,
    unused: Result<Answer, ServiceError>,
    leased: Answer,
    shown: Answer,
    returned: Answer,
)
    requires
        call_ensures(ReadRun::new, (task,), fresh),
        is_heard(
            cores[0],
            id,
            first_place,
            OperationEvent::PhaseChanged(OperationPhase::Reading),
        ),
        task is Status ==> is_bound(cores[0], first_place),
        is_carried(cores[3], id, last_place),
    ensures
        ({
            let one = reads::read_move(cores[0], fresh, id, unused);
            let two = reads::read_move(cores[1], one.run, id, Ok(leased));
            let three = reads::read_move(cores[2], two.run, id, Ok(shown));
            let four = reads::read_move(cores[3], three.run, id, unused);
            let five = reads::read_move(cores[4], four.run, id, Ok(returned));
            let six = reads::read_move(cores[5], five.run, id, unused);
            &&& one.action == UseAction::TakeLease
            &&& two.action == UseAction::Read && two.service == cores[1]
            &&& three.action == UseAction::Continue && three.service == cores[2]
            &&& four.action == UseAction::FinishLease && four.service == cores[3]
            &&& five.action == UseAction::End(Ok::<(), ServiceError>(())) && five.service
                == cores[4]
            &&& six.action == UseAction::End(Ok::<(), ServiceError>(())) && six.service == cores[5]
        }),
{
    law_a_read_that_is_heard_takes_a_lease(cores[0], fresh, id, first_place, unused);
    announcing::law_a_boundary_is_passed_by_what_may_go_on(cores[3].scheduler, id, last_place);
}

/// A read that is not heard waits for room, and then goes on where it stood, or ends
/// with what its announcement failed with.
pub proof fn law_a_read_that_is_not_heard_waits_or_ends(
    core_state: CoreModel,
    run: ReadRun,
    id: OperationId,
    answer: Result<Answer, ServiceError>,
)
    requires
        run.stage is Announcing,
    ensures
        ({
            let step = reads::read_move(core_state, run, id, answer);
            let reading = OperationEvent::PhaseChanged(OperationPhase::Reading);
            &&& step.service == (CoreModel {
                scheduler: worker::after_emit(core_state.scheduler, id, reading, run.waited),
                ..core_state
            })
            &&& match worker::emit_answer(core_state.scheduler, id, reading, run.waited) {
                Ok(Publication::Delivered) => true,
                Ok(Publication::WaitForRoom) => step.action == UseAction::WaitForRoom && step.run
                    == (ReadRun { waited: true, ..run }),
                Err(error) => step.action == UseAction::End(Err::<(), ServiceError>(error)),
            }
        }),
{
}

/// A read that is refused its lease ends with that refusal. What fails under the
/// lease is what the read ends with once the lease was given back, whatever came of
/// that; and where nothing else failed, it ends with what failed in giving it back.
pub proof fn law_a_read_ends_with_what_failed_first(
    core_state: CoreModel,
    later: CoreModel,
    run: ReadRun,
    id: OperationId,
    index: int,
    error: ServiceError,
    answer: Result<Answer, ServiceError>,
    returned: Result<Answer, ServiceError>,
)
    requires
        run.failure is None,
    ensures
        run.stage is Leasing ==> reads::read_move(core_state, run, id, Err(error)).action
            == UseAction::End(Err::<(), ServiceError>(error)),
        run.stage is Reading ==> {
            let failed = reads::read_move(core_state, run, id, Err(error));
            &&& failed.action == UseAction::FinishLease && failed.service == core_state
            &&& reads::read_move(later, failed.run, id, returned).action == UseAction::End(
                Err::<(), ServiceError>(error),
            )
            &&& reads::read_move(later, failed.run, id, returned).service == later
        },
        run.stage is Guarding && terms::stands_at(core_state.scheduler.active, id, index)
            && !terms::may_go_on(core_state.scheduler, index) ==> {
            let failed = reads::read_move(core_state, run, id, answer);
            &&& failed.action == UseAction::FinishLease
            &&& reads::read_move(later, failed.run, id, returned).action == UseAction::End(
                Err::<(), ServiceError>(ServiceError::Cancelled),
            )
        },
        run.stage is Guarding && terms::is_unknown(core_state.scheduler.active, id) ==> {
            let failed = reads::read_move(core_state, run, id, answer);
            &&& failed.action == UseAction::FinishLease
            &&& reads::read_move(later, failed.run, id, returned).action == UseAction::End(
                Err::<(), ServiceError>(ServiceError::Cancelled),
            )
        },
        run.stage is Finishing ==> reads::read_move(core_state, run, id, Err(error)).action
            == UseAction::End(Err::<(), ServiceError>(error)),
{
    if terms::stands_at(core_state.scheduler.active, id, index) {
        announcing::law_a_boundary_is_passed_by_what_may_go_on(core_state.scheduler, id, index);
    }
    if terms::is_unknown(core_state.scheduler.active, id) {
        terms::lemma_not_found(core_state.scheduler.active, id);
    }
}

/// One step of a change.
#[verifier::opaque]
pub open spec fn change_step(
    core_state: CoreModel,
    run: MutationRun,
    id: OperationId,
    answer: Result<Answer, ServiceError>,
) -> mutations::MutationMove {
    mutations::mutation_move(core_state, run, id, answer)
}

/// A change that is answered with success goes on.
proof fn lemma_an_answered_change_goes_on(
    core_state: CoreModel,
    run: MutationRun,
    id: OperationId,
    answer: Answer,
)
    requires
        run.failure is None,
        run.stage is Leasing ==> run.task != MutationTask::Relocate(EntryKind::Tombstone),
        run.stage is Opening || run.stage is Leasing || run.stage is Checking
            || run.stage is Building || run.stage is Finishing || (run.stage is Committing
            && answer is Committed),
    ensures
        ({
            let step = change_step(core_state, run, id, Ok(answer));
            let committed = match answer {
                Answer::Committed(committed) if run.stage is Committing => Some(committed),
                _ => run.committed,
            };
            &&& step.service == core_state
            &&& step.run == (MutationRun {
                stage: mutations::next_stage(run.task, run.stage),
                waited: false,
                committed,
                ..run
            })
            &&& step.action == mutations::stage_action(
                mutations::next_stage(run.task, run.stage),
            )
        }),
{
    reveal(change_step);
}

/// A change that announces where it stands, and is heard, goes on.
proof fn lemma_a_heard_change_goes_on(
    core_state: CoreModel,
    run: MutationRun,
    id: OperationId,
    index: int,
    event: OperationEvent,
    answer: Result<Answer, ServiceError>,
)
    requires
        mutations::stage_event(run.stage) == Some(event),
        terms::tells_of_work(event),
        is_heard(core_state, id, index, event),
    ensures
        ({
            let step = change_step(core_state, run, id, answer);
            &&& hears(core_state, index, event, step.service)
            &&& step.run == (MutationRun {
                stage: mutations::next_stage(run.task, run.stage),
                waited: false,
                ..run
            })
            &&& step.action == mutations::stage_action(
                mutations::next_stage(run.task, run.stage),
            )
        }),
{
    reveal(change_step);
    announcing::law_an_announcement_is_delivered(
        core_state.scheduler,
        id,
        index,
        event,
        run.waited,
    );
}

/// A relocation of a file or of a directory, or a deletion, that is heard takes a
/// lease, checks what it is bound to and is built, where lease and check succeed.
pub proof fn law_a_relocation_or_deletion_is_built(
    task: MutationTask,
    fresh: MutationRun,
    id: OperationId,
    cores: Seq<CoreModel>,
    place: int,
    unused: Result<Answer, ServiceError>,
    leased: Answer,
    checked: Answer,
)
    requires
        call_ensures(MutationRun::new, (task,), fresh),
        task == MutationTask::Relocate(EntryKind::File) || task == MutationTask::Relocate(
            EntryKind::Directory,
        ) || task is Delete,
        is_heard(cores[0], id, place, OperationEvent::PhaseChanged(OperationPhase::Preparing)),
    ensures
        ({
            let one = change_step(cores[0], fresh, id, unused);
            let two = change_step(cores[1], one.run, id, Ok(leased));
            let three = change_step(cores[2], two.run, id, Ok(checked));
            let preparing = OperationEvent::PhaseChanged(OperationPhase::Preparing);
            &&& one.action == UseAction::TakeLease && hears(cores[0], place, preparing, one.service)
            &&& two.action == UseAction::CheckBinding && two.service == cores[1]
            &&& three.action == UseAction::Build && three.service == cores[2]
            &&& three.run.stage is Building && three.run.task == task
            &&& three.run.failure is None && three.run.committed is None
        }),
{
    let preparing = OperationEvent::PhaseChanged(OperationPhase::Preparing);
    lemma_a_heard_change_goes_on(cores[0], fresh, id, place, preparing, unused);
    let one = change_step(cores[0], fresh, id, unused);
    lemma_an_answered_change_goes_on(cores[1], one.run, id, leased);
    let two = change_step(cores[1], one.run, id, Ok(leased));
    lemma_an_answered_change_goes_on(cores[2], two.run, id, checked);
}

/// A directory or a file that is created and is heard takes a lease and is built,
/// where the lease is granted; a directory announces that it prepares, and a file
/// that it encrypts.
pub proof fn law_a_creation_is_built(
    task: MutationTask,
    fresh: MutationRun,
    id: OperationId,
    cores: Seq<CoreModel>,
    place: int,
    announcement: OperationEvent,
    unused: Result<Answer, ServiceError>,
    leased: Answer,
)
    requires
        call_ensures(MutationRun::new, (task,), fresh),
        task is CreateDirectory && announcement == OperationEvent::PhaseChanged(
            OperationPhase::Preparing,
        ) || task is CreateFile && announcement == OperationEvent::PhaseChanged(
            OperationPhase::Encrypting,
        ),
        is_heard(cores[0], id, place, announcement),
    ensures
        ({
            let one = change_step(cores[0], fresh, id, unused);
            let two = change_step(cores[1], one.run, id, Ok(leased));
            &&& one.action == UseAction::TakeLease && hears(
                cores[0],
                place,
                announcement,
                one.service,
            )
            &&& two.action == UseAction::Build && two.service == cores[1]
            &&& two.run.stage is Building && two.run.task == task
            &&& two.run.failure is None && two.run.committed is None
        }),
{
    lemma_a_heard_change_goes_on(cores[0], fresh, id, place, announcement, unused);
    let one = change_step(cores[0], fresh, id, unused);
    lemma_an_answered_change_goes_on(cores[1], one.run, id, leased);
}

/// An import that is heard announces that it prepares and that it reads, opens its
/// source, announces that it encrypts, takes a lease and is built, where the source
/// opens and the lease is granted.
pub proof fn law_an_import_is_built(
    fresh: MutationRun,
    id: OperationId,
    cores: Seq<CoreModel>,
    places: Seq<int>,
    unused: Result<Answer, ServiceError>,
    opened: Answer,
    leased: Answer,
)
    requires
        call_ensures(MutationRun::new, (MutationTask::ImportFile,), fresh),
        is_heard(cores[0], id, places[0], OperationEvent::PhaseChanged(OperationPhase::Preparing)),
        is_heard(cores[1], id, places[1], OperationEvent::PhaseChanged(OperationPhase::Reading)),
        is_heard(cores[3], id, places[3], OperationEvent::PhaseChanged(OperationPhase::Encrypting)),
    ensures
        ({
            let one = change_step(cores[0], fresh, id, unused);
            let two = change_step(cores[1], one.run, id, unused);
            let three = change_step(cores[2], two.run, id, Ok(opened));
            let four = change_step(cores[3], three.run, id, unused);
            let five = change_step(cores[4], four.run, id, Ok(leased));
            &&& one.action == UseAction::Continue && hears(
                cores[0],
                places[0],
                OperationEvent::PhaseChanged(OperationPhase::Preparing),
                one.service,
            )
            &&& two.action == UseAction::OpenImport && hears(
                cores[1],
                places[1],
                OperationEvent::PhaseChanged(OperationPhase::Reading),
                two.service,
            )
            &&& three.action == UseAction::Continue && three.service == cores[2]
            &&& four.action == UseAction::TakeLease && hears(
                cores[3],
                places[3],
                OperationEvent::PhaseChanged(OperationPhase::Encrypting),
                four.service,
            )
            &&& five.action == UseAction::Build && five.service == cores[4]
            &&& five.run.stage is Building && five.run.task is ImportFile
            &&& five.run.failure is None && five.run.committed is None
        }),
{
    let one = change_step(cores[0], fresh, id, unused);
    let two = change_step(cores[1], one.run, id, unused);
    let three = change_step(cores[2], two.run, id, Ok(opened));
    let four = change_step(cores[3], three.run, id, unused);
    lemma_a_heard_change_goes_on(
        cores[0],
        fresh,
        id,
        places[0],
        OperationEvent::PhaseChanged(OperationPhase::Preparing),
        unused,
    );
    lemma_a_heard_change_goes_on(
        cores[1],
        one.run,
        id,
        places[1],
        OperationEvent::PhaseChanged(OperationPhase::Reading),
        unused,
    );
    lemma_an_answered_change_goes_on(cores[2], two.run, id, opened);
    lemma_a_heard_change_goes_on(
        cores[3],
        three.run,
        id,
        places[3],
        OperationEvent::PhaseChanged(OperationPhase::Encrypting),
        unused,
    );
    lemma_an_answered_change_goes_on(cores[4], four.run, id, leased);
}

/// The consumer of an operation can be told that its change is durable, cancelled or
/// not.
pub open spec fn can_be_told(core_state: CoreModel, id: OperationId, index: int) -> bool {
    &&& terms::stands_at(core_state.scheduler.active, id, index)
    &&& !core_state.scheduler.active[index].events.consumer_gone
    &&& !(core_state.scheduler.active[index].lifecycle is Terminal)
    &&& core_state.scheduler.active[index].events.lossless.len()
        != core_state.scheduler.active[index].events.lossless_capacity
    &&& core_state.scheduler.active[index].events.next_sequence != u64::MAX
}

/// What is past recall is announced where its consumer can be told.
proof fn lemma_a_durable_change_is_announced(
    scheduler: SchedulerModel,
    id: OperationId,
    index: int,
    event: OperationEvent,
)
    requires
        terms::stands_at(scheduler.active, id, index),
        event is RevisionDurable,
        !scheduler.active[index].events.consumer_gone,
        !(scheduler.active[index].lifecycle is Terminal),
        scheduler.active[index].events.lossless.len()
            != scheduler.active[index].events.lossless_capacity,
        scheduler.active[index].events.next_sequence != u64::MAX,
    ensures
        ({
            let before = local_use_cases::before_announcement(scheduler, id, false);
            let after = worker::after_publish(before, id, event);
            let past_recall = OperationModel { irrevocable: true, ..scheduler.active[index] };
            &&& worker::publish_answer(before, id, event) == Ok::<Publication, ServiceError>(
                Publication::Delivered,
            )
            &&& after == (SchedulerModel { active: after.active, ..scheduler })
            &&& after.active == scheduler.active.update(index, after.active[index])
            &&& announcing::with_event(past_recall, event, after.active[index])
        }),
{
    terms::lemma_found(scheduler.active, id, index);
    let past_recall = OperationModel { irrevocable: true, ..scheduler.active[index] };
    terms::lemma_changed(scheduler.active, id, index, past_recall);
    terms::lemma_found(scheduler.active.update(index, past_recall), id, index);
    let before = local_use_cases::before_announcement(scheduler, id, false);
    let after = worker::after_publish(before, id, event);
    assert(after.active =~= scheduler.active.update(index, after.active[index]));
}

/// A committed change that can be told of is: its operation is past recall from then
/// on, its consumer has the announcement of the snapshot to take, and the change ends
/// with success, cancelled or not.
pub proof fn law_a_committed_change_is_told_of(
    core_state: CoreModel,
    run: MutationRun,
    id: OperationId,
    index: int,
    committed: Commitment,
    summary: DurabilitySummary,
    answer: Result<Answer, ServiceError>,
)
    requires
        run.stage is Settling,
        !run.waited,
        run.committed == Some(committed),
        can_be_told(core_state, id, index),
        call_ensures(local_use_cases::durability, (committed.snapshot,), summary),
    ensures
        ({
            let step = change_step(core_state, run, id, answer);
            let past_recall = OperationModel {
                irrevocable: true,
                ..core_state.scheduler.active[index]
            };
            &&& step.action == UseAction::End(Ok::<(), ServiceError>(()))
            &&& step.run.stage is Over && step.run.failure == run.failure
            &&& step.run.committed == Some(committed)
            &&& step.service == (CoreModel {
                scheduler: SchedulerModel {
                    active: step.service.scheduler.active,
                    ..core_state.scheduler
                },
                ..core_state
            })
            &&& step.service.scheduler.active == core_state.scheduler.active.update(
                index,
                step.service.scheduler.active[index],
            )
            &&& announcing::with_event(
                past_recall,
                OperationEvent::RevisionDurable(summary),
                step.service.scheduler.active[index],
            )
        }),
        forall|i: int| 0 <= i < 16 ==> #[trigger] summary@@[i] == committed.snapshot@@[i],
{
    reveal(change_step);
    let announcement = OperationEvent::RevisionDurable(summary);
    lemma_a_durable_change_is_announced(core_state.scheduler, id, index, announcement);
    assert(committed.snapshot@@.len() == 32);
}

/// A committed change whose consumer has no room waits for it, past recall; it is told
/// of once there is room, and ends with success then. A consumer that is gone, an
/// operation that has ended or is accounted no longer, and numbers that are used up end
/// it with that; and a change without a commit is a failure of the executor.
pub proof fn law_a_committed_change_waits_to_be_told_of(
    core_state: CoreModel,
    run: MutationRun,
    id: OperationId,
    index: int,
    committed: Commitment,
    answer: Result<Answer, ServiceError>,
)
    requires
        run.stage is Settling,
        run.committed == Some(committed),
        terms::stands_at(core_state.scheduler.active, id, index),
    ensures
        ({
            let step = change_step(core_state, run, id, answer);
            let state = core_state.scheduler.active[index];
            let full = state.events.lossless.len() == state.events.lossless_capacity;
            let open = !state.events.consumer_gone && !(state.lifecycle is Terminal);
            &&& !run.waited ==> step.service.scheduler.active[index].irrevocable
            &&& open && full && (!run.waited || state.irrevocable) ==> step.action
                == UseAction::WaitForRoom && step.run == (MutationRun { waited: true, ..run })
            &&& open && !full && run.waited && state.irrevocable && state.events.next_sequence
                != u64::MAX ==> step.action == UseAction::End(Ok::<(), ServiceError>(()))
            &&& state.events.consumer_gone ==> step.action == UseAction::End(
                Err::<(), ServiceError>(ServiceError::Cancelled),
            )
            &&& !state.events.consumer_gone && state.lifecycle is Terminal ==> step.action
                == UseAction::End(Err::<(), ServiceError>(ServiceError::Closed))
            &&& open && !full && !run.waited && state.events.next_sequence == u64::MAX
                ==> step.action == UseAction::End(
                Err::<(), ServiceError>(ServiceError::EventSequenceExhausted),
            )
            &&& change_step(
                core_state,
                MutationRun { committed: None, ..run },
                id,
                answer,
            ).action == UseAction::End(Err::<(), ServiceError>(ServiceError::ExecutorFailed))
        }),
{
    reveal(change_step);
    terms::lemma_found(core_state.scheduler.active, id, index);
    let past_recall = OperationModel { irrevocable: true, ..core_state.scheduler.active[index] };
    terms::lemma_changed(core_state.scheduler.active, id, index, past_recall);
    terms::lemma_found(core_state.scheduler.active.update(index, past_recall), id, index);
}

/// A change that is over answers again what it ended with, and changes nothing.
pub proof fn law_a_change_stays_over(
    core_state: CoreModel,
    run: MutationRun,
    id: OperationId,
    answer: Result<Answer, ServiceError>,
)
    requires
        run.stage is Over,
    ensures
        ({
            let step = change_step(core_state, run, id, answer);
            &&& step.service == core_state && step.run == run
            &&& run.failure is None ==> step.action == UseAction::End(Ok::<(), ServiceError>(()))
            &&& run.failure is Some ==> step.action == UseAction::End(
                Err::<(), ServiceError>(run.failure->0),
            )
        }),
{
    reveal(change_step);
}

/// A change that was built, that is heard, and whose commit and end of lease succeed,
/// announces that nothing of one item is done and that it publishes, is committed
/// once, gives its lease back, tells of the snapshot and ends with success.
pub proof fn law_a_built_change_is_committed(
    run: MutationRun,
    id: OperationId,
    cores: Seq<CoreModel>,
    places: Seq<int>,
    progress: Progress,
    unused: Result<Answer, ServiceError>,
    built: Answer,
    committed: Commitment,
    returned: Answer,
    summary: DurabilitySummary,
)
    requires
        run.stage is Building,
        run.failure is None,
        call_ensures(Progress::items, (0, Some(1)), Ok(progress)),
        call_ensures(local_use_cases::durability, (committed.snapshot,), summary),
        is_heard(cores[1], id, places[1], OperationEvent::Progress(progress)),
        is_heard(cores[2], id, places[2], OperationEvent::PhaseChanged(OperationPhase::Publishing)),
        can_be_told(cores[5], id, places[5]),
    ensures
        ({
            let one = change_step(cores[0], run, id, Ok(built));
            let two = change_step(cores[1], one.run, id, unused);
            let three = change_step(cores[2], two.run, id, unused);
            let four = change_step(
                cores[3],
                three.run,
                id,
                Ok(Answer::Committed(committed)),
            );
            let five = change_step(cores[4], four.run, id, Ok(returned));
            let six = change_step(cores[5], five.run, id, unused);
            let seven = change_step(cores[6], six.run, id, unused);
            &&& one.action == UseAction::Continue && one.service == cores[0]
            &&& two.action == UseAction::Continue && hears(
                cores[1],
                places[1],
                OperationEvent::Progress(progress),
                two.service,
            )
            &&& three.action == UseAction::Commit && hears(
                cores[2],
                places[2],
                OperationEvent::PhaseChanged(OperationPhase::Publishing),
                three.service,
            )
            &&& four.action == UseAction::FinishLease && four.service == cores[3]
            &&& five.action == UseAction::Continue && five.service == cores[4]
            &&& six.action == UseAction::End(Ok::<(), ServiceError>(()))
            &&& six.run.committed == Some(committed)
            &&& seven.action == UseAction::End(Ok::<(), ServiceError>(())) && seven.service
                == cores[6]
        }),
        progress@.unit is Items && progress@.completed == 0 && progress@.total == Some(1u64),
{
    event::lemma_progress_of(ProgressUnit::Items, 0, Some(1));
    let one = change_step(cores[0], run, id, Ok(built));
    let two = change_step(cores[1], one.run, id, unused);
    let three = change_step(cores[2], two.run, id, unused);
    let four = change_step(cores[3], three.run, id, Ok(Answer::Committed(committed)));
    let five = change_step(cores[4], four.run, id, Ok(returned));
    let six = change_step(cores[5], five.run, id, unused);
    lemma_an_answered_change_goes_on(cores[0], run, id, built);
    lemma_a_heard_change_goes_on(
        cores[1],
        one.run,
        id,
        places[1],
        OperationEvent::Progress(progress),
        unused,
    );
    lemma_a_heard_change_goes_on(
        cores[2],
        two.run,
        id,
        places[2],
        OperationEvent::PhaseChanged(OperationPhase::Publishing),
        unused,
    );
    lemma_an_answered_change_goes_on(cores[3], three.run, id, Answer::Committed(committed));
    lemma_an_answered_change_goes_on(cores[4], four.run, id, returned);
    law_a_committed_change_is_told_of(
        cores[5],
        five.run,
        id,
        places[5],
        committed,
        summary,
        unused,
    );
    law_a_change_stays_over(cores[6], six.run, id, unused);
}

/// A relocation of a file or of a directory whose announcements are delivered, and
/// whose lease, check of its binding, build, commit and end of lease succeed, is
/// committed and ends with success, whatever becomes of the service between the steps.
pub proof fn law_a_relocation_comes_to_its_end(
    kind: EntryKind,
    fresh: MutationRun,
    id: OperationId,
    cores: Seq<CoreModel>,
    places: Seq<int>,
    progress: Progress,
    unused: Result<Answer, ServiceError>,
    answers: Seq<Answer>,
    committed: Commitment,
    summary: DurabilitySummary,
)
    requires
        call_ensures(MutationRun::new, (MutationTask::Relocate(kind),), fresh),
        kind is File || kind is Directory,
        cores.len() == 10,
        places.len() == 10,
        call_ensures(Progress::items, (0, Some(1)), Ok(progress)),
        call_ensures(local_use_cases::durability, (committed.snapshot,), summary),
        is_heard(cores[0], id, places[0], OperationEvent::PhaseChanged(OperationPhase::Preparing)),
        is_heard(cores[4], id, places[4], OperationEvent::Progress(progress)),
        is_heard(cores[5], id, places[5], OperationEvent::PhaseChanged(OperationPhase::Publishing)),
        can_be_told(cores[8], id, places[8]),
    ensures
        ({
            let one = change_step(cores[0], fresh, id, unused);
            let two = change_step(cores[1], one.run, id, Ok(answers[0]));
            let three = change_step(cores[2], two.run, id, Ok(answers[1]));
            let four = change_step(cores[3], three.run, id, Ok(answers[2]));
            let five = change_step(cores[4], four.run, id, unused);
            let six = change_step(cores[5], five.run, id, unused);
            let seven = change_step(
                cores[6],
                six.run,
                id,
                Ok(Answer::Committed(committed)),
            );
            let eight = change_step(cores[7], seven.run, id, Ok(answers[3]));
            let nine = change_step(cores[8], eight.run, id, unused);
            &&& one.action == UseAction::TakeLease
            &&& two.action == UseAction::CheckBinding
            &&& three.action == UseAction::Build
            &&& four.action == UseAction::Continue
            &&& five.action == UseAction::Continue
            &&& six.action == UseAction::Commit
            &&& seven.action == UseAction::FinishLease
            &&& eight.action == UseAction::Continue
            &&& nine.action == UseAction::End(Ok::<(), ServiceError>(()))
            &&& nine.run.committed == Some(committed)
        }),
{
    law_a_relocation_or_deletion_is_built(
        MutationTask::Relocate(kind),
        fresh,
        id,
        cores,
        places[0],
        unused,
        answers[0],
        answers[1],
    );
    let one = change_step(cores[0], fresh, id, unused);
    let two = change_step(cores[1], one.run, id, Ok(answers[0]));
    let three = change_step(cores[2], two.run, id, Ok(answers[1]));
    law_a_built_change_is_committed(
        three.run,
        id,
        cores.skip(3),
        places.skip(3),
        progress,
        unused,
        answers[2],
        committed,
        answers[3],
        summary,
    );
}

/// A step of a change that was answered with success refuses it as invalid exactly
/// where a tombstone is to be relocated and its lease was just granted.
pub proof fn law_only_a_tombstone_cannot_be_relocated(
    core_state: CoreModel,
    run: MutationRun,
    id: OperationId,
    answer: Answer,
)
    requires
        run.stage is Opening || run.stage is Leasing || run.stage is Checking
            || run.stage is Building,
    ensures
        ({
            let step = change_step(core_state, run, id, Ok(answer));
            &&& step.service == core_state
            &&& step.action is End <==> run.stage is Leasing && run.task == MutationTask::Relocate(
                EntryKind::Tombstone,
            )
            &&& step.action is End ==> step.action == UseAction::End(
                Err::<(), ServiceError>(ServiceError::InvalidInput),
            )
        }),
{
    reveal(change_step);
}

/// A change that is not heard waits for room, and then goes on where it stood, or ends
/// with what its announcement failed with.
pub proof fn law_a_change_that_is_not_heard_waits_or_ends(
    core_state: CoreModel,
    run: MutationRun,
    id: OperationId,
    progress: Progress,
    answer: Result<Answer, ServiceError>,
)
    requires
        call_ensures(Progress::items, (0, Some(1)), Ok(progress)),
        run.stage is Preparing || run.stage is Reading || run.stage is Encrypting
            || run.stage is Counting || run.stage is Publishing,
    ensures
        ({
            let step = change_step(core_state, run, id, answer);
            let announcement = match run.stage {
                MutationStage::Preparing => OperationEvent::PhaseChanged(OperationPhase::Preparing),
                MutationStage::Reading => OperationEvent::PhaseChanged(OperationPhase::Reading),
                MutationStage::Encrypting => OperationEvent::PhaseChanged(
                    OperationPhase::Encrypting,
                ),
                MutationStage::Counting => OperationEvent::Progress(progress),
                _ => OperationEvent::PhaseChanged(OperationPhase::Publishing),
            };
            &&& step.service == (CoreModel {
                scheduler: worker::after_emit(core_state.scheduler, id, announcement, run.waited),
                ..core_state
            })
            &&& match worker::emit_answer(core_state.scheduler, id, announcement, run.waited) {
                Ok(Publication::Delivered) => !(step.action is End) && !step.run.waited,
                Ok(Publication::WaitForRoom) => step.action == UseAction::WaitForRoom && step.run
                    == (MutationRun { waited: true, ..run }),
                Err(error) => step.action == UseAction::End(Err::<(), ServiceError>(error)),
            }
        }),
{
    reveal(change_step);
}

/// What fails before a change is handed over ends it with that error. What the
/// commit fails with is what the change ends with once the lease was given back,
/// whatever came of that; a commit that made nothing counts as a failure of the
/// executor; and where nothing else failed, the change ends with what failed in
/// giving the lease back.
pub proof fn law_a_change_ends_with_what_failed_first(
    core_state: CoreModel,
    later: CoreModel,
    run: MutationRun,
    id: OperationId,
    error: ServiceError,
    made: Answer,
    returned: Result<Answer, ServiceError>,
)
    requires
        run.failure is None,
    ensures
        run.stage is Opening || run.stage is Leasing || run.stage is Checking
            || run.stage is Building || run.stage is Finishing ==> {
            let failed = change_step(core_state, run, id, Err(error));
            failed.action == UseAction::End(Err::<(), ServiceError>(error)) && failed.service
                == core_state
        },
        run.stage is Committing ==> {
            let failed = change_step(core_state, run, id, Err(error));
            let ended = change_step(later, failed.run, id, returned);
            &&& failed.action == UseAction::FinishLease && failed.service == core_state
            &&& ended.action == UseAction::End(Err::<(), ServiceError>(error)) && ended.service
                == later
        },
        run.stage is Committing && !(made is Committed) ==> {
            let failed = change_step(core_state, run, id, Ok(made));
            let ended = change_step(later, failed.run, id, returned);
            &&& failed.action == UseAction::FinishLease
            &&& ended.action == UseAction::End(
                Err::<(), ServiceError>(ServiceError::ExecutorFailed),
            )
        },
{
    reveal(change_step);
}

/// One step of an export.
#[verifier::opaque]
pub open spec fn export_step(
    core_state: CoreModel,
    run: ExportRun,
    id: OperationId,
    answer: Result<Answer, ServiceError>,
) -> exports::ExportMove {
    exports::export_move(core_state, run, id, answer)
}

/// What an export announces where it announces something.
pub open spec fn announcement_of(stage: ExportStage, progress: Progress) -> OperationEvent {
    match stage {
        ExportStage::Preparing => OperationEvent::PhaseChanged(OperationPhase::Preparing),
        ExportStage::Reading => OperationEvent::PhaseChanged(OperationPhase::Reading),
        ExportStage::Counting => OperationEvent::Progress(progress),
        _ => OperationEvent::PhaseChanged(OperationPhase::Publishing),
    }
}

/// An export that is heard goes on: from its beginning to its lease, from there on to
/// writing, and after it was written to the announcement that it publishes and to
/// flushing.
pub proof fn law_an_export_that_is_heard_goes_on(
    core_state: CoreModel,
    run: ExportRun,
    id: OperationId,
    index: int,
    progress: Progress,
    answer: Result<Answer, ServiceError>,
)
    requires
        run.stage is Preparing || run.stage is Reading || run.stage is Counting
            || run.stage is Publishing,
        call_ensures(Progress::bytes, (run.bytes, Some(run.bytes)), Ok(progress)),
        is_heard(core_state, id, index, announcement_of(run.stage, progress)),
    ensures
        ({
            let step = export_step(core_state, run, id, answer);
            &&& hears(core_state, index, announcement_of(run.stage, progress), step.service)
            &&& run.stage is Preparing ==> step.action == UseAction::TakeLease
                && step.run.stage is Leasing
            &&& run.stage is Reading ==> step.action == UseAction::Export
                && step.run.stage is Writing
            &&& run.stage is Counting ==> step.action == UseAction::Continue
                && step.run.stage is Publishing
            &&& run.stage is Publishing ==> step.action == UseAction::Flush
                && step.run.stage is Flushing
            &&& step.run == (ExportRun { stage: step.run.stage, waited: false, ..run })
        }),
        progress@.unit is Bytes && progress@.completed == run.bytes && progress@.total == Some(
            run.bytes,
        ),
{
    event::lemma_progress_of(ProgressUnit::Bytes, run.bytes, Some(run.bytes));
    reveal(export_step);
    announcing::law_an_announcement_is_delivered(
        core_state.scheduler,
        id,
        index,
        announcement_of(run.stage, progress),
        run.waited,
    );
}

/// An export whose lease, snapshot, check and beginning at the host succeed does them
/// in this order, where the snapshot is the one that was asked for, and then announces
/// that it reads.
pub proof fn law_an_export_of_the_asked_snapshot_begins(
    run: ExportRun,
    id: OperationId,
    cores: Seq<CoreModel>,
    answers: Seq<Answer>,
)
    requires
        run.stage is Leasing,
    ensures
        ({
            let one = export_step(cores[0], run, id, Ok(answers[0]));
            let two = export_step(
                cores[1],
                one.run,
                id,
                Ok(Answer::Snapshot(run.expected_snapshot)),
            );
            let three = export_step(cores[2], two.run, id, Ok(answers[2]));
            let four = export_step(cores[3], three.run, id, Ok(answers[3]));
            &&& one.action == UseAction::ReadSnapshot && one.service == cores[0]
            &&& two.action == UseAction::CheckBinding && two.service == cores[1]
            &&& three.action == UseAction::BeginExport && three.service == cores[2]
            &&& four.action == UseAction::Continue && four.service == cores[3]
            &&& four.run == (ExportRun {
                stage: ExportStage::Reading,
                began: true,
                waited: false,
                ..run
            })
        }),
{
    reveal(export_step);
}

/// An export that was written gives its lease back, announces what it
/// wrote and that it publishes, is flushed, looks whether it may go on, is published at
/// the host and ends with success, where all of these succeed.
pub proof fn law_a_written_export_is_published(
    run: ExportRun,
    id: OperationId,
    cores: Seq<CoreModel>,
    places: Seq<int>,
    bytes: u64,
    progress: Progress,
    unused: Result<Answer, ServiceError>,
    answers: Seq<Answer>,
)
    requires
        run.stage is Writing,
        run.failure is None,
        run.began,
        call_ensures(Progress::bytes, (bytes, Some(bytes)), Ok(progress)),
        is_heard(cores[2], id, places[2], OperationEvent::Progress(progress)),
        is_heard(cores[3], id, places[3], OperationEvent::PhaseChanged(OperationPhase::Publishing)),
        is_carried(cores[5], id, places[5]),
    ensures
        ({
            let one = export_step(cores[0], run, id, Ok(Answer::Exported(bytes)));
            let two = export_step(cores[1], one.run, id, Ok(answers[1]));
            let three = export_step(cores[2], two.run, id, unused);
            let four = export_step(cores[3], three.run, id, unused);
            let five = export_step(cores[4], four.run, id, Ok(answers[4]));
            let six = export_step(cores[5], five.run, id, unused);
            let seven = export_step(cores[6], six.run, id, Ok(answers[6]));
            &&& one.action == UseAction::FinishLease && one.service == cores[0]
            &&& two.action == UseAction::Continue && two.service == cores[1]
            &&& three.action == UseAction::Continue && hears(
                cores[2],
                places[2],
                OperationEvent::Progress(progress),
                three.service,
            )
            &&& four.action == UseAction::Flush && hears(
                cores[3],
                places[3],
                OperationEvent::PhaseChanged(OperationPhase::Publishing),
                four.service,
            )
            &&& five.action == UseAction::Continue && five.service == cores[4]
            &&& six.action == UseAction::Publish && six.service == cores[5]
            &&& seven.action == UseAction::End(Ok::<(), ServiceError>(())) && seven.service
                == cores[6]
            &&& seven.run.bytes == bytes && seven.run.failure is None && seven.run.stage is Over
        }),
{
    let one = export_step(cores[0], run, id, Ok(Answer::Exported(bytes)));
    let two = export_step(cores[1], one.run, id, Ok(answers[1]));
    let three = export_step(cores[2], two.run, id, unused);
    let four = export_step(cores[3], three.run, id, unused);
    let five = export_step(cores[4], four.run, id, Ok(answers[4]));
    let six = export_step(cores[5], five.run, id, unused);
    lemma_an_answered_export_goes_on(cores[0], run, id, Answer::Exported(bytes));
    lemma_an_answered_export_goes_on(cores[1], one.run, id, answers[1]);
    law_an_export_that_is_heard_goes_on(cores[2], two.run, id, places[2], progress, unused);
    law_an_export_that_is_heard_goes_on(cores[3], three.run, id, places[3], progress, unused);
    lemma_an_answered_export_goes_on(cores[4], four.run, id, answers[4]);
    lemma_a_carried_export_is_published(cores[5], five.run, id, places[5], unused);
    lemma_an_answered_export_goes_on(cores[6], six.run, id, answers[6]);
}

/// An export that is answered with success after it was written goes on.
proof fn lemma_an_answered_export_goes_on(
    core_state: CoreModel,
    run: ExportRun,
    id: OperationId,
    answer: Answer,
)
    requires
        run.failure is None,
        run.stage is Finishing || run.stage is Flushing || run.stage is Releasing || (
        run.stage is Writing && answer is Exported),
    ensures
        ({
            let step = export_step(core_state, run, id, Ok(answer));
            let stage = match run.stage {
                ExportStage::Writing => ExportStage::Finishing,
                ExportStage::Finishing => ExportStage::Counting,
                ExportStage::Flushing => ExportStage::Guarding,
                _ => ExportStage::Over,
            };
            let bytes = match answer {
                Answer::Exported(bytes) if run.stage is Writing => bytes,
                _ => run.bytes,
            };
            &&& step.service == core_state
            &&& step.run == (ExportRun { stage, waited: false, bytes, ..run })
            &&& step.action == exports::export_action(stage)
        }),
{
    reveal(export_step);
}

/// An export that was flushed and may go on is published.
proof fn lemma_a_carried_export_is_published(
    core_state: CoreModel,
    run: ExportRun,
    id: OperationId,
    index: int,
    answer: Result<Answer, ServiceError>,
)
    requires
        run.stage is Guarding,
        is_carried(core_state, id, index),
    ensures
        ({
            let step = export_step(core_state, run, id, answer);
            &&& step.service == core_state
            &&& step.run == (ExportRun { stage: ExportStage::Releasing, waited: false, ..run })
            &&& step.action == UseAction::Publish
        }),
{
    reveal(export_step);
    announcing::law_a_boundary_is_passed_by_what_may_go_on(core_state.scheduler, id, index);
}

/// An export ends with success exactly where it was published at the host and the host
/// answered that with success; and one that ended with success answers so again.
pub proof fn law_an_export_succeeds_only_once_published(
    core_state: CoreModel,
    run: ExportRun,
    id: OperationId,
    answer: Result<Answer, ServiceError>,
)
    ensures
        export_step(core_state, run, id, answer).action == UseAction::End(
            Ok::<(), ServiceError>(()),
        ) <==> (run.stage is Releasing && answer is Ok) || (run.stage is Over
            && run.failure is None),
        export_step(core_state, run, id, answer).action == UseAction::Publish ==> run.stage is Guarding,
        run.stage is Releasing || run.stage is Over ==> export_step(
            core_state,
            run,
            id,
            answer,
        ).action is End,
{
    reveal(export_step);
}

/// What an export of a snapshot begins with: nothing has been done yet, and it
/// announces that it prepares.
pub proof fn law_an_export_prepares_first(snapshot: SnapshotVersion, fresh: ExportRun)
    requires
        call_ensures(ExportRun::new, (snapshot,), fresh),
    ensures
        fresh.expected_snapshot == snapshot,
        fresh.stage is Preparing,
        !fresh.began && !fresh.waited,
        fresh.failure is None,
        fresh.bytes == 0,
{
}

/// Where the host refuses to begin an export or to publish it, the export ends with
/// the error of the host; where the lease is refused, or the snapshot cannot be read,
/// with that error; and where what is read is no snapshot, as a failure of the
/// executor. A service that was told of no cleanup stays as it is.
pub proof fn law_an_export_that_is_refused_ends_with_the_refusal(
    core_state: CoreModel,
    run: ExportRun,
    id: OperationId,
    error: ServiceError,
    answer: Answer,
)
    ensures
        run.stage is Leasing || run.stage is Comparing || run.stage is Beginning
            || run.stage is Releasing ==> {
            let step = export_step(core_state, run, id, Err(error));
            &&& step.action == UseAction::End(Err::<(), ServiceError>(error))
            &&& step.run.stage is Over && step.run.failure == Some(error)
            &&& run.stage is Leasing || run.stage is Comparing || error
                != ServiceError::CleanupRequired ==> step.service == core_state
        },
        run.stage is Comparing && !(answer is Snapshot) ==> export_step(
            core_state,
            run,
            id,
            Ok(answer),
        ).action == UseAction::End(Err::<(), ServiceError>(ServiceError::ExecutorFailed)),
{
    reveal(export_step);
}

/// Where the host asks for cleanup when an export begins or is published, the session
/// asks for cleanup from then on, and the service accepts nothing where it was unlocked.
pub proof fn law_an_export_that_asks_for_cleanup_locks(
    core_state: CoreModel,
    run: ExportRun,
    id: OperationId,
)
    requires
        run.stage is Beginning || run.stage is Releasing,
        core_state.session is Some,
    ensures
        ({
            let step = export_step(core_state, run, id, Err(ServiceError::CleanupRequired));
            &&& step.service.session is Some && step.service.session->0.data.cleanup_required
            &&& core_state.session->0.data.state is Unlocked ==> !step.service.scheduler.accepting
                && !step.service.scheduler.key_leases_open && step.service.scheduler.closed
                == core_state.scheduler.closed
            &&& step.service.session->0.data.state is CleanupRequired
            &&& !(core_state.session->0.data.state is Unlocked) ==> step.service.scheduler
                == core_state.scheduler
        }),
{
    reveal(export_step);
}

/// What fails under the lease of an export before it began is what the export ends
/// with once the lease was given back; where it is a snapshot that was not asked for,
/// as stale.
pub proof fn law_an_export_that_fails_before_it_began_ends(
    core_state: CoreModel,
    later: CoreModel,
    run: ExportRun,
    id: OperationId,
    error: ServiceError,
    snapshot: SnapshotVersion,
    returned: Result<Answer, ServiceError>,
)
    requires
        !run.began,
    ensures
        run.stage is Checking ==> {
            let failed = export_step(core_state, run, id, Err(error));
            &&& failed.action == UseAction::FinishLease && failed.service == core_state
            &&& export_step(later, failed.run, id, returned).action == UseAction::End(
                Err::<(), ServiceError>(error),
            )
        },
        run.stage is Comparing && snapshot != run.expected_snapshot ==> {
            let failed = export_step(core_state, run, id, Ok(Answer::Snapshot(snapshot)));
            &&& failed.action == UseAction::FinishLease && failed.service == core_state
            &&& export_step(later, failed.run, id, returned).action == UseAction::End(
                Err::<(), ServiceError>(ServiceError::StaleCapability),
            )
        },
{
    reveal(export_step);
}

/// What fails when an export was begun is what it ends with, after the lease was given
/// back and the host gave the export up; where the host fails in that, it ends with
/// cleanup to be done.
pub proof fn law_an_export_that_fails_once_it_began_is_given_up(
    core_state: CoreModel,
    later: CoreModel,
    last: CoreModel,
    run: ExportRun,
    id: OperationId,
    index: int,
    error: ServiceError,
    answer: Answer,
    returned: Result<Answer, ServiceError>,
    given_up: Result<Answer, ServiceError>,
)
    requires
        run.began,
        run.failure is None,
    ensures
        run.stage is Writing ==> {
            let failed = export_step(core_state, run, id, Err(error));
            let back = export_step(later, failed.run, id, returned);
            &&& failed.action == UseAction::FinishLease && failed.service == core_state
            &&& back.action == UseAction::AbortExport && back.service == later
            &&& gives_up(last, back.run, id, error, given_up)
        },
        run.stage is Writing && !(answer is Exported) ==> {
            let failed = export_step(core_state, run, id, Ok(answer));
            let back = export_step(later, failed.run, id, returned);
            &&& failed.action == UseAction::FinishLease && failed.service == core_state
            &&& back.action == UseAction::AbortExport && back.service == later
            &&& gives_up(last, back.run, id, ServiceError::ExecutorFailed, given_up)
        },
        run.stage is Finishing || run.stage is Flushing ==> {
            let failed = export_step(core_state, run, id, Err(error));
            &&& failed.action == UseAction::AbortExport && failed.service == core_state
            &&& gives_up(last, failed.run, id, error, given_up)
        },
        run.stage is Guarding && (terms::is_unknown(core_state.scheduler.active, id) || (
        terms::stands_at(core_state.scheduler.active, id, index) && !terms::may_go_on(
            core_state.scheduler,
            index,
        ))) ==> {
            let failed = export_step(core_state, run, id, returned);
            &&& failed.action == UseAction::AbortExport
            &&& gives_up(last, failed.run, id, ServiceError::Cancelled, given_up)
        },
{
    reveal(export_step);
    if terms::stands_at(core_state.scheduler.active, id, index) {
        announcing::law_a_boundary_is_passed_by_what_may_go_on(core_state.scheduler, id, index);
    }
    if terms::is_unknown(core_state.scheduler.active, id) {
        terms::lemma_not_found(core_state.scheduler.active, id);
    }
}

/// An export that is given up for a reason ends with it where the host gives it up,
/// and with cleanup to be done where the host fails in that.
pub open spec fn gives_up(
    core_state: CoreModel,
    run: ExportRun,
    id: OperationId,
    error: ServiceError,
    given_up: Result<Answer, ServiceError>,
) -> bool {
    let step = export_step(core_state, run, id, given_up);
    &&& given_up is Ok ==> step.action == UseAction::End(Err::<(), ServiceError>(error))
        && step.service == core_state
    &&& given_up is Err ==> step.action == UseAction::End(
        Err::<(), ServiceError>(ServiceError::CleanupRequired),
    )
}

/// An export that is not heard waits for room, and then goes on where it stood; or
/// ends with what its announcement failed with, given up at the host first where it
/// began there.
pub proof fn law_an_export_that_is_not_heard_waits_or_ends(
    core_state: CoreModel,
    later: CoreModel,
    run: ExportRun,
    id: OperationId,
    progress: Progress,
    answer: Result<Answer, ServiceError>,
    given_up: Result<Answer, ServiceError>,
)
    requires
        run.stage is Preparing || run.stage is Reading || run.stage is Counting
            || run.stage is Publishing,
        call_ensures(Progress::bytes, (run.bytes, Some(run.bytes)), Ok(progress)),
    ensures
        ({
            let step = export_step(core_state, run, id, answer);
            &&& step.service == (CoreModel {
                scheduler: worker::after_emit(
                    core_state.scheduler,
                    id,
                    announcement_of(run.stage, progress),
                    run.waited,
                ),
                ..core_state
            })
            &&& match worker::emit_answer(
                core_state.scheduler,
                id,
                announcement_of(run.stage, progress),
                run.waited,
            ) {
                Ok(Publication::Delivered) => !(step.action is End) && !(step.action is AbortExport),
                Ok(Publication::WaitForRoom) => step.action == UseAction::WaitForRoom && step.run
                    == (ExportRun { waited: true, ..run }),
                Err(error) => if run.began {
                    step.action == UseAction::AbortExport && gives_up(
                        later,
                        step.run,
                        id,
                        error,
                        given_up,
                    )
                } else {
                    step.action == UseAction::End(Err::<(), ServiceError>(error))
                },
            }
        }),
{
    reveal(export_step);
}

} // verus!
