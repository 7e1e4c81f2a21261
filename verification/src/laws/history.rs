//! Laws of whole histories of a service.
use vstd::prelude::*;

use crate::command::OperationResult;
use crate::error::ServiceError;
use crate::event::OperationEvent;
use crate::laws::service as steps;
use crate::laws::transitions as numbers;
use crate::operation;
use crate::operation::{OperationId, OperationModel};
use crate::service;
use crate::service::flows;
use crate::service::handles;
use crate::service::identity;
use crate::service::identity::IdentityModel;
use crate::service::locking;
use crate::service::mailbox::PendingControl;
use crate::service::runtime;
use crate::service::runtime::CoreModel;
use crate::service::scheduler;
use crate::service::scheduler::{Grace, LockJob, SchedulerModel};
use crate::service::transitions;
use crate::service::transitions::TransitionKind;
use crate::service::worker;
use crate::service::{ConfigModel, Control};
use crate::session::data::SessionObservation;
use crate::session::errors::{PortAnswer, RepositoryPortError};
use crate::session::manager::ManagerModel;
use crate::session::SessionState;
use crate::time::Duration;

verus! {

/// One step of a scheduler.
pub enum Step {
    /// An operation is admitted.
    Admit(OperationModel),
    /// A worker begins an operation.
    Begin(OperationId),
    /// The operation at a place is retired.
    Retire(int),
    /// Something changes that neither opens nor closes the service, admits or
    /// retires nothing, and begins nothing.
    Quiet(SchedulerModel),
    /// A lock begins.
    Lock { control: Control, close_service: bool, root: Option<u64> },
    /// A closed service gives up what it still accounts.
    GiveUp,
    /// An unlock opens the service for a generation.
    Open(u64),
}

/// Whether operations stay the same ones, and none begins to run.
pub open spec fn none_begins(before: Seq<OperationModel>, after: Seq<OperationModel>) -> bool {
    &&& before.len() == after.len()
    &&& forall|i: int|
        0 <= i < after.len() ==> (#[trigger] after[i]).id == before[i].id && (
        after[i].lifecycle is Running ==> before[i].lifecycle is Running)
}

/// Whether one scheduler becomes another without an admission, a begin, a
/// retirement, a lock or an unlock.
pub open spec fn is_quiet(before: SchedulerModel, after: SchedulerModel) -> bool {
    &&& after.config == before.config
    &&& after.accepting == before.accepting
    &&& after.key_leases_open == before.key_leases_open
    &&& after.closed == before.closed
    &&& after.completed == before.completed
    &&& none_begins(before.active, after.active)
}

/// Whether a step can be taken.
pub open spec fn is_allowed(scheduler: SchedulerModel, step: Step) -> bool {
    match step {
        Step::Admit(state) => scheduler::admission_answer(scheduler) is Ok && scheduler::place_of(
            scheduler.active,
            state.id,
        ) is None && !(state.lifecycle is Running),
        Step::Begin(_) => true,
        Step::Retire(index) => 0 <= index < scheduler.active.len(),
        Step::Quiet(after) => is_quiet(scheduler, after) && scheduler::scheduler_wf(after),
        Step::Lock { .. } => true,
        Step::GiveUp => scheduler.closed,
        Step::Open(_) => !scheduler.closed,
    }
}

/// The scheduler after a step.
pub open spec fn after_step(scheduler: SchedulerModel, step: Step) -> SchedulerModel {
    match step {
        Step::Admit(state) => scheduler::after_insert(scheduler, state),
        Step::Begin(id) => worker::after_work_step(scheduler, id),
        Step::Retire(index) => scheduler::after_retire(scheduler, index),
        Step::Quiet(after) => after,
        Step::Lock { control, close_service, root } => scheduler::after_lock(
            scheduler,
            control,
            close_service,
            root,
        ),
        Step::GiveUp => SchedulerModel { active: Seq::empty(), ..scheduler },
        Step::Open(generation) => scheduler::opened(scheduler, generation),
    }
}

/// The scheduler after a history of steps.
pub open spec fn after_steps(scheduler: SchedulerModel, history: Seq<Step>) -> SchedulerModel
    decreases history.len(),
{
    if history.len() == 0 {
        scheduler
    } else {
        after_step(after_steps(scheduler, history.drop_last()), history.last())
    }
}

/// Whether each step of a history can be taken where it stands.
pub open spec fn is_history(scheduler: SchedulerModel, history: Seq<Step>) -> bool
    decreases history.len(),
{
    history.len() == 0 || is_history(scheduler, history.drop_last()) && is_allowed(
        after_steps(scheduler, history.drop_last()),
        history.last(),
    )
}

/// What concerns one operation or the controls of a service is quiet.
pub proof fn law_requests_and_work_are_quiet(
    scheduler: SchedulerModel,
    id: OperationId,
    generation: u64,
    grace: Grace,
    published: bool,
    event: OperationEvent,
    waited: bool,
    final_save: Option<OperationId>,
    held: Option<OperationId>,
    observed: PendingControl,
    control: Control,
    token: u64,
    answer: PortAnswer<Result<OperationResult, ServiceError>>,
    job: LockJob,
)
    requires
        scheduler::scheduler_wf(scheduler),
    ensures
        is_quiet(scheduler, worker::marked_cancelled(scheduler, id)),
        is_quiet(scheduler, worker::after_register(scheduler, id, token)),
        is_quiet(scheduler, worker::before_outcome(scheduler, id, answer)),
        is_quiet(scheduler, locking::after_take_up(scheduler, job)),
        is_quiet(scheduler, scheduler::after_cancel(scheduler, id)),
        is_quiet(scheduler, scheduler::after_arm(scheduler, id)),
        is_quiet(scheduler, scheduler::after_disarm(scheduler, id, generation)),
        is_quiet(scheduler, scheduler::after_final_save_step(scheduler, id, generation, grace)),
        is_quiet(scheduler, scheduler::after_authorize(scheduler, id)),
        is_quiet(scheduler, scheduler::after_publication(scheduler, id, published)),
        is_quiet(scheduler, scheduler::after_boundary(scheduler, id)),
        is_quiet(scheduler, worker::after_publish(scheduler, id, event)),
        is_quiet(scheduler, worker::after_emit(scheduler, id, event, waited)),
        is_quiet(scheduler, scheduler::after_stop(scheduler, final_save)),
        is_quiet(scheduler, scheduler::after_coordinator_step(scheduler, held)),
        is_quiet(scheduler, scheduler::after_observation(scheduler, observed)),
        is_quiet(scheduler, scheduler::after_activity(scheduler)),
        is_quiet(scheduler, runtime::after_local_control(scheduler, control)),
{
    let looked = if waited {
        scheduler
    } else {
        scheduler::after_boundary(scheduler, id)
    };
    assert(is_quiet(scheduler, looked));
    assert(is_quiet(looked, worker::after_publish(looked, id, event)));
    let published_event = worker::after_publish(looked, id, event);
    assert(is_quiet(published_event, scheduler::after_boundary(published_event, id)));
    if let Control::Cancel(own) = control {
        assert(is_quiet(scheduler, scheduler::after_cancel(scheduler, own)));
    }
}

/// The end of an operation is a quiet step, with a retirement behind it where the
/// operation owes no notice.
pub proof fn law_an_end_is_quiet_or_a_retirement(
    scheduler: SchedulerModel,
    id: OperationId,
    outcome: Result<OperationResult, ServiceError>,
)
    ensures
        ({
            let after = scheduler::after_finish(scheduler, id, outcome);
            ||| is_quiet(scheduler, after)
            ||| exists|ended: SchedulerModel, index: int|
                is_quiet(scheduler, ended) && 0 <= index < ended.active.len() && after
                    == #[trigger] scheduler::after_retire(ended, index)
        }),
        ({
            let after = scheduler::after_acknowledge(scheduler, id);
            ||| is_quiet(scheduler, after)
            ||| exists|told: SchedulerModel, index: int|
                is_quiet(scheduler, told) && 0 <= index < told.active.len() && after
                    == #[trigger] scheduler::after_retire(told, index)
        }),
{
    if let Some(index) = scheduler::place_of(scheduler.active, id) {
        let ended = SchedulerModel {
            active: scheduler.active.update(
                index,
                operation::after_finish(scheduler.active[index], outcome),
            ),
            final_save: if scheduler.final_save is Some && scheduler.final_save->0.operation == id {
                None
            } else {
                scheduler.final_save
            },
            ..scheduler
        };
        assert(is_quiet(scheduler, ended));
        let told = SchedulerModel {
            active: scheduler.active.update(
                index,
                scheduler::acknowledged(scheduler.active[index]),
            ),
            ..scheduler
        };
        assert(is_quiet(scheduler, told));
        assert(scheduler::after_retire(ended, index).active.len() >= 0);
        assert(scheduler::after_retire(told, index).active.len() >= 0);
    }
}

/// Every history keeps the scheduler well formed.
pub proof fn law_every_history_keeps_the_invariant(scheduler: SchedulerModel, history: Seq<Step>)
    requires
        scheduler::scheduler_wf(scheduler),
        is_history(scheduler, history),
    ensures
        scheduler::scheduler_wf(after_steps(scheduler, history)),
    decreases history.len(),
{
    if history.len() > 0 {
        let before = after_steps(scheduler, history.drop_last());
        law_every_history_keeps_the_invariant(scheduler, history.drop_last());
        lemma_step_keeps_the_invariant(before, history.last());
    }
}

proof fn lemma_step_keeps_the_invariant(before: SchedulerModel, step: Step)
    requires
        scheduler::scheduler_wf(before),
        is_allowed(before, step),
    ensures
        scheduler::scheduler_wf(after_step(before, step)),
{
    match step {
        Step::Admit(state) => {
            steps::law_admission_keeps_the_scheduler_invariant(
                before.config,
                true,
                before,
                before.generation,
                state,
            );
        },
        Step::Begin(id) => {
            steps::law_work_keeps_the_scheduler_invariant(
                before,
                id,
                OperationEvent::Started,
                false,
            );
        },
        Step::Retire(index) => {
            steps::lemma_retire_keeps_wf(before, index);
        },
        Step::Lock { control, close_service, root } => {
            steps::lemma_lock_keeps_wf(before, control, close_service, root);
        },
        Step::Open(generation) => {
            steps::lemma_open_keeps_wf(before, generation);
        },
        _ => {},
    }
}

/// Key leases are open exactly while submissions are accepted, at every time in
/// the life of a service.
pub proof fn law_leases_are_open_exactly_while_submissions_are_accepted(
    config: ConfigModel,
    has_session: bool,
    history: Seq<Step>,
    session_state: SessionState,
)
    requires
        service::config_is_valid(config),
        is_history(scheduler::new_scheduler(config, has_session), history),
    ensures
        ({
            let shown = scheduler::snapshot_of(
                after_steps(scheduler::new_scheduler(config, has_session), history),
                session_state,
            );
            shown.key_leases_open == shown.accepting_operations
        }),
{
    law_every_history_keeps_the_invariant(
        scheduler::new_scheduler(config, has_session),
        history,
    );
}

/// Whether no step of a history opens the service.
pub open spec fn opens_nothing(history: Seq<Step>) -> bool {
    forall|i: int| 0 <= i < history.len() ==> !(#[trigger] history[i] is Open)
}

/// A service that a global control locked refuses every submission and every lease
/// until the next unlock opens it. The control itself always succeeds.
pub proof fn law_a_lock_lasts_until_the_next_unlock(
    core_state: CoreModel,
    control: Control,
    history: Seq<Step>,
    session_state: SessionState,
    generation: u64,
    id: OperationId,
)
    requires
        service::is_global(control),
        is_history(runtime::after_control(core_state, control).scheduler, history),
        opens_nothing(history),
    ensures
        runtime::control_answer(core_state, control) is Ok,
        ({
            let later = after_steps(
                runtime::after_control(core_state, control).scheduler,
                history,
            );
            let shown = scheduler::snapshot_of(later, session_state);
            &&& !shown.accepting_operations
            &&& !shown.key_leases_open
            &&& scheduler::admission_answer(later) is Err
            &&& scheduler::readmission_answer(later, generation) is Err
            &&& scheduler::lease_answer(later, id) is Err
        }),
{
    lemma_refusal_lasts(runtime::after_control(core_state, control).scheduler, history);
}

/// Whether a service refuses every submission and every lease.
pub open spec fn refuses(core_state: CoreModel) -> bool {
    !core_state.scheduler.accepting && !core_state.scheduler.key_leases_open
}

/// A service that refuses goes on refusing whatever its callers, its workers and
/// its clock do: only the success of an unlock opens it.
pub proof fn law_only_an_unlock_opens_a_service(
    core_state: CoreModel,
    control: Control,
    close_service: bool,
    observed: Result<SessionObservation, ServiceError>,
    now: nat,
    generation: u64,
    sample: Option<Duration>,
    state: OperationModel,
    activity: Result<Duration, ServiceError>,
    error: ServiceError,
    pending: PendingControl,
    delivered: bool,
    id: OperationId,
    local: bool,
    acquired: Result<(), RepositoryPortError>,
    token: u64,
)
    requires
        refuses(core_state),
    ensures
        refuses(runtime::after_global_lock(core_state, control, close_service)),
        refuses(runtime::after_shutdown(core_state)),
        refuses(runtime::after_latch(core_state)),
        refuses(runtime::after_deadline(core_state, observed)),
        refuses(runtime::after_recorded(core_state, now)),
        refuses(runtime::after_admit(core_state, generation, sample, state)),
        refuses(runtime::after_control(core_state, control)),
        refuses(runtime::after_trusted_activity(core_state, activity)),
        refuses(runtime::after_unlock_job(core_state)),
        refuses(runtime::after_unlock_end(core_state, Err(error))),
        refuses(runtime::after_retry(core_state)),
        refuses(worker::after_control_step(core_state, pending)),
        refuses(worker::observed(core_state, pending)),
        refuses(worker::after_delivery(core_state, pending, delivered)),
        refuses(worker::after_lease_failure(core_state, id, error, local)),
        refuses(worker::after_lease(core_state, id, generation, acquired, token, local)),
        refuses(worker::after_detach(core_state, id)),
        refuses(worker::after_cancel_operation(core_state, id)),
        refuses(locking::after_queue_leases(core_state, id)),
        refuses(handles::abandoned(core_state, id)),
{
}

/// A service that refuses goes on refusing whatever becomes of its transitions.
pub proof fn law_no_transition_opens_a_service(
    core_state: CoreModel,
    kind: TransitionKind,
    generation: u64,
    token: u64,
    prepared: PortAnswer<Result<(), RepositoryPortError>>,
    id: OperationId,
    verifier: Option<(Seq<u8>, Seq<u8>)>,
    presentation: Option<Seq<u8>>,
    outcome: Result<(), ServiceError>,
    cancellation: PortAnswer<u64>,
    view: PortAnswer<[u8; 32]>,
    bound: PortAnswer<bool>,
    failed: bool,
)
    requires
        refuses(core_state),
    ensures
        refuses(flows::after_begin(core_state, kind)),
        refuses(flows::after_prepared(core_state, kind, generation, token, prepared)),
        refuses(
            flows::after_registered(
                core_state,
                kind,
                generation,
                token,
                id,
                verifier,
                presentation,
            ),
        ),
        refuses(flows::after_claim_security(core_state, id)),
        refuses(flows::after_transition_end(core_state, id, outcome)),
        refuses(flows::after_guard(core_state, id, cancellation)),
        refuses(flows::after_execution_begin(core_state, id)),
        refuses(flows::after_executed(core_state, id, prepared)),
        refuses(flows::after_freshness(core_state, id, view, bound)),
        refuses(flows::after_offer(core_state, id)),
        refuses(flows::after_claim_freshness(core_state, id)),
        refuses(flows::after_acknowledged(core_state, id, prepared)),
        refuses(flows::after_aborted(core_state, id, kind, failed)),
{
}

proof fn lemma_refusal_lasts(scheduler: SchedulerModel, history: Seq<Step>)
    requires
        !scheduler.accepting,
        !scheduler.key_leases_open,
        is_history(scheduler, history),
        opens_nothing(history),
    ensures
        !after_steps(scheduler, history).accepting,
        !after_steps(scheduler, history).key_leases_open,
    decreases history.len(),
{
    if history.len() > 0 {
        assert forall|i: int| 0 <= i < history.drop_last().len() implies !(
        #[trigger] history.drop_last()[i] is Open) by {
            assert(history.drop_last()[i] == history[i]);
        }
        lemma_refusal_lasts(scheduler, history.drop_last());
        assert(!(history[history.len() - 1] is Open));
    }
}

/// The operations that a history retires, in order.
pub open spec fn retired(scheduler: SchedulerModel, history: Seq<Step>) -> Seq<OperationId>
    decreases history.len(),
{
    if history.len() == 0 {
        Seq::empty()
    } else {
        let before = after_steps(scheduler, history.drop_last());
        match history.last() {
            Step::Retire(index) => retired(scheduler, history.drop_last()).push(
                before.active[index].id,
            ),
            _ => retired(scheduler, history.drop_last()),
        }
    }
}

/// The last elements of a list, as many as are asked for.
pub open spec fn newest(ids: Seq<OperationId>, count: nat) -> Seq<OperationId> {
    if ids.len() <= count {
        ids
    } else {
        ids.skip(ids.len() - count)
    }
}

/// A service retains the newest of the operations that were retired, as many as it
/// has room for, and no others.
pub proof fn law_the_newest_retired_operations_are_retained(
    config: ConfigModel,
    has_session: bool,
    history: Seq<Step>,
    session_state: SessionState,
)
    requires
        service::config_is_valid(config),
        is_history(scheduler::new_scheduler(config, has_session), history),
    ensures
        ({
            let fresh = scheduler::new_scheduler(config, has_session);
            let later = after_steps(fresh, history);
            let ended = retired(fresh, history);
            let shown = scheduler::snapshot_of(later, session_state);
            &&& later.completed == newest(ended, config.completed_capacity as nat)
            &&& shown.retained_completed_operations == if ended.len()
                <= config.completed_capacity {
                ended.len()
            } else {
                config.completed_capacity as nat
            }
        }),
{
    lemma_newest_are_retained(config, has_session, history);
}

proof fn lemma_newest_are_retained(config: ConfigModel, has_session: bool, history: Seq<Step>)
    requires
        service::config_is_valid(config),
        is_history(scheduler::new_scheduler(config, has_session), history),
    ensures
        ({
            let fresh = scheduler::new_scheduler(config, has_session);
            let later = after_steps(fresh, history);
            &&& later.config == config
            &&& later.completed == newest(
                retired(fresh, history),
                config.completed_capacity as nat,
            )
        }),
    decreases history.len(),
{
    let fresh = scheduler::new_scheduler(config, has_session);
    let capacity = config.completed_capacity as nat;
    if history.len() > 0 {
        lemma_newest_are_retained(config, has_session, history.drop_last());
        let before = after_steps(fresh, history.drop_last());
        let ended = retired(fresh, history.drop_last());
        match history.last() {
            Step::Retire(index) => {
                let id = before.active[index].id;
                assert(scheduler::remembered(newest(ended, capacity), config.completed_capacity, id)
                    =~= newest(ended.push(id), capacity));
            },
            _ => {},
        }
    }
}

/// The workers of a service, with the operation that each carries out.
pub struct PoolModel {
    pub scheduler: SchedulerModel,
    pub busy: Seq<Option<OperationId>>,
}

/// One step of a service with its workers.
pub enum PoolStep {
    /// A worker that carries nothing out begins an operation.
    Take(int, OperationId),
    /// A worker is done with its operation, which does not run any more.
    Leave(int),
    /// A step that no worker takes.
    Elsewhere(Step),
}

/// Whether an accounted operation of this identity runs.
pub open spec fn is_running(scheduler: SchedulerModel, id: OperationId) -> bool {
    exists|i: int|
        0 <= i < scheduler.active.len() && (#[trigger] scheduler.active[i]).id == id
            && scheduler.active[i].lifecycle is Running
}

/// Whether a step of a service with its workers can be taken.
pub open spec fn pool_allows(pool: PoolModel, step: PoolStep) -> bool {
    match step {
        PoolStep::Take(worker, _) => 0 <= worker < pool.busy.len() && pool.busy[worker] is None,
        PoolStep::Leave(worker) => 0 <= worker < pool.busy.len() && (
        pool.busy[worker] matches Some(id) ==> !is_running(pool.scheduler, id)),
        PoolStep::Elsewhere(step) => !(step is Begin) && is_allowed(pool.scheduler, step),
    }
}

/// The service with its workers after a step.
pub open spec fn after_pool_step(pool: PoolModel, step: PoolStep) -> PoolModel {
    match step {
        PoolStep::Take(worker, id) => PoolModel {
            scheduler: after_step(pool.scheduler, Step::Begin(id)),
            busy: pool.busy.update(worker, Some(id)),
        },
        PoolStep::Leave(worker) => PoolModel {
            busy: pool.busy.update(worker, None),
            ..pool
        },
        PoolStep::Elsewhere(step) => PoolModel {
            scheduler: after_step(pool.scheduler, step),
            ..pool
        },
    }
}

/// The service with its workers after a history.
pub open spec fn after_pool(pool: PoolModel, history: Seq<PoolStep>) -> PoolModel
    decreases history.len(),
{
    if history.len() == 0 {
        pool
    } else {
        after_pool_step(after_pool(pool, history.drop_last()), history.last())
    }
}

/// Whether each step of a service with its workers can be taken where it stands.
pub open spec fn is_pool_history(pool: PoolModel, history: Seq<PoolStep>) -> bool
    decreases history.len(),
{
    history.len() == 0 || is_pool_history(pool, history.drop_last()) && pool_allows(
        after_pool(pool, history.drop_last()),
        history.last(),
    )
}

/// A service that was just made, with workers that carry nothing out.
pub open spec fn new_pool(config: ConfigModel, has_session: bool) -> PoolModel {
    PoolModel {
        scheduler: scheduler::new_scheduler(config, has_session),
        busy: Seq::new(config.workers as nat, |i: int| None),
    }
}

/// The end of the work on an operation leaves it not running.
pub proof fn law_an_operation_that_ended_does_not_run(
    scheduler: SchedulerModel,
    id: OperationId,
    answer: PortAnswer<Result<OperationResult, ServiceError>>,
)
    requires
        scheduler::scheduler_wf(scheduler),
    ensures
        !is_running(
            scheduler::after_finish(
                worker::before_outcome(scheduler, id, answer),
                id,
                worker::work_outcome(scheduler, id, answer),
            ),
            id,
        ),
{
    let looked = worker::before_outcome(scheduler, id, answer);
    steps::law_work_keeps_the_scheduler_invariant(scheduler, id, OperationEvent::Started, false);
    let outcome = worker::work_outcome(scheduler, id, answer);
    let after = scheduler::after_finish(looked, id, outcome);
    steps::lemma_place(looked.active, id);
    assert forall|i: int| 0 <= i < after.active.len() && (#[trigger] after.active[i]).id
        == id implies !(after.active[i].lifecycle is Running) by {
        if let Some(index) = scheduler::place_of(looked.active, id) {
            if after.active.len() < looked.active.len() {
                let place = if i < index {
                    i
                } else {
                    i + 1
                };
                assert(after.active[i].id == looked.active[place].id);
                assert(looked.active[index].id == id);
            } else if i != index {
                assert(after.active[i] == looked.active[i]);
                assert(looked.active[index].id == id);
            }
        }
    }
}

/// Every operation that runs is carried out by a worker.
spec fn is_staffed(pool: PoolModel) -> bool {
    forall|i: int|
        0 <= i < pool.scheduler.active.len() && (
        #[trigger] pool.scheduler.active[i]).lifecycle is Running ==> pool.busy.contains(
            Some(pool.scheduler.active[i].id),
        )
}

proof fn lemma_pool_step(pool: PoolModel, step: PoolStep)
    requires
        scheduler::scheduler_wf(pool.scheduler),
        is_staffed(pool),
        pool_allows(pool, step),
    ensures
        scheduler::scheduler_wf(after_pool_step(pool, step).scheduler),
        is_staffed(after_pool_step(pool, step)),
        after_pool_step(pool, step).busy.len() == pool.busy.len(),
        after_pool_step(pool, step).scheduler.config == pool.scheduler.config,
{
    let after = after_pool_step(pool, step);
    match step {
        PoolStep::Take(worker, id) => {
            lemma_step_keeps_the_invariant(pool.scheduler, Step::Begin(id));
            steps::lemma_place(pool.scheduler.active, id);
            assert(after.busy[worker] == Some(id));
            assert forall|i: int|
                0 <= i < after.scheduler.active.len() && (
                #[trigger] after.scheduler.active[i]).lifecycle is Running implies after.busy.contains(
                Some(after.scheduler.active[i].id),
            ) by {
                if after.scheduler.active[i].id != id {
                    let own = Some(pool.scheduler.active[i].id);
                    assert(after.scheduler.active[i] == pool.scheduler.active[i]);
                    let at = choose|at: int| 0 <= at < pool.busy.len() && pool.busy[at] == own;
                    assert(after.busy[at] == own);
                }
            }
        },
        PoolStep::Leave(worker) => {
            assert forall|i: int|
                0 <= i < after.scheduler.active.len() && (
                #[trigger] after.scheduler.active[i]).lifecycle is Running implies after.busy.contains(
                Some(after.scheduler.active[i].id),
            ) by {
                let own = Some(pool.scheduler.active[i].id);
                let at = choose|at: int| 0 <= at < pool.busy.len() && pool.busy[at] == own;
                if at == worker {
                    assert(is_running(pool.scheduler, pool.scheduler.active[i].id));
                }
                assert(after.busy[at] == own);
            }
        },
        PoolStep::Elsewhere(step) => {
            lemma_step_keeps_the_invariant(pool.scheduler, step);
            lemma_none_begins_elsewhere(pool.scheduler, step);
            assert forall|i: int|
                0 <= i < after.scheduler.active.len() && (
                #[trigger] after.scheduler.active[i]).lifecycle is Running implies after.busy.contains(
                Some(after.scheduler.active[i].id),
            ) by {
                let from = choose|from: int|
                    0 <= from < pool.scheduler.active.len() && (
                    #[trigger] pool.scheduler.active[from]).lifecycle is Running
                        && pool.scheduler.active[from].id == after.scheduler.active[i].id;
                assert(pool.busy.contains(Some(pool.scheduler.active[from].id)));
            }
        },
    }
}

/// What runs after a step that begins nothing ran before.
proof fn lemma_none_begins_elsewhere(before: SchedulerModel, step: Step)
    requires
        is_allowed(before, step),
        !(step is Begin),
    ensures
        ({
            let after = after_step(before, step);
            forall|i: int|
                0 <= i < after.active.len() && (#[trigger] after.active[i]).lifecycle is Running
                    ==> exists|from: int|
                    0 <= from < before.active.len() && (
                    #[trigger] before.active[from]).lifecycle is Running && before.active[from].id
                        == after.active[i].id
        }),
{
    let after = after_step(before, step);
    assert forall|i: int|
        0 <= i < after.active.len() && (#[trigger] after.active[i]).lifecycle is Running implies exists|
        from: int,
    |
        0 <= from < before.active.len() && (#[trigger] before.active[from]).lifecycle is Running
            && before.active[from].id == after.active[i].id by {
        match step {
            Step::Retire(index) => {
                let from = if i < index {
                    i
                } else {
                    i + 1
                };
                assert(after.active[i] == before.active[from]);
            },
            Step::Lock { control, close_service, root } => {
                assert(after.active[i] == scheduler::locked_operation(
                    before.publications,
                    scheduler::lock_final_save(before, close_service),
                    close_service,
                    before.active[i],
                ));
                assert(before.active[i].lifecycle is Running);
            },
            _ => {
                assert(before.active[i].lifecycle is Running);
            },
        }
    }
}

/// At most as many operations run as the service has workers, whatever was
/// submitted, cancelled or locked: each worker carries out one at a time.
pub proof fn law_no_more_operations_run_than_there_are_workers(
    config: ConfigModel,
    has_session: bool,
    history: Seq<PoolStep>,
    session_state: SessionState,
)
    requires
        service::config_is_valid(config),
        is_pool_history(new_pool(config, has_session), history),
    ensures
        scheduler::snapshot_of(
            after_pool(new_pool(config, has_session), history).scheduler,
            session_state,
        ).running_operations <= config.workers,
{
    lemma_pool_is_staffed(config, has_session, history);
    let pool = after_pool(new_pool(config, has_session), history);
    lemma_running_are_staffed(pool);
}

proof fn lemma_pool_is_staffed(config: ConfigModel, has_session: bool, history: Seq<PoolStep>)
    requires
        service::config_is_valid(config),
        is_pool_history(new_pool(config, has_session), history),
    ensures
        ({
            let pool = after_pool(new_pool(config, has_session), history);
            &&& scheduler::scheduler_wf(pool.scheduler)
            &&& is_staffed(pool)
            &&& pool.busy.len() == config.workers
        }),
    decreases history.len(),
{
    if history.len() > 0 {
        lemma_pool_is_staffed(config, has_session, history.drop_last());
        lemma_pool_step(after_pool(new_pool(config, has_session), history.drop_last()), history.last());
    }
}

/// The identities of the operations that run among the first ones.
spec fn running_ids(active: Seq<OperationModel>, count: nat) -> Seq<Option<OperationId>>
    decreases count,
{
    if count == 0 {
        Seq::empty()
    } else if active[count - 1].lifecycle is Running {
        running_ids(active, (count - 1) as nat).push(Some(active[count - 1].id))
    } else {
        running_ids(active, (count - 1) as nat)
    }
}

proof fn lemma_running_ids(active: Seq<OperationModel>, count: nat)
    requires
        count <= active.len(),
        scheduler::ids_are_distinct(active),
    ensures
        running_ids(active, count).len() == scheduler::running_count(active, count),
        running_ids(active, count).no_duplicates(),
        forall|own: Option<OperationId>|
            #[trigger] running_ids(active, count).contains(own) ==> exists|i: int|
                0 <= i < count && own == Some((#[trigger] active[i]).id)
                    && active[i].lifecycle is Running,
    decreases count,
{
    if count > 0 {
        let fewer = (count - 1) as nat;
        lemma_running_ids(active, fewer);
        let earlier = running_ids(active, fewer);
        let last = active[count - 1];
        let ids = running_ids(active, count);
        if last.lifecycle is Running {
            if earlier.contains(Some(last.id)) {
                let i = choose|i: int|
                    0 <= i < fewer && Some(last.id) == Some((#[trigger] active[i]).id)
                        && active[i].lifecycle is Running;
                assert(active[i].id != active[count - 1].id);
            }
            assert forall|own: Option<OperationId>| #[trigger] ids.contains(own) implies exists|
                i: int,
            |
                0 <= i < count && own == Some((#[trigger] active[i]).id)
                    && active[i].lifecycle is Running by {
                let at = choose|at: int| 0 <= at < ids.len() && ids[at] == own;
                if at < earlier.len() {
                    assert(earlier[at] == own);
                    assert(earlier.contains(own));
                } else {
                    assert(own == Some(active[count - 1].id));
                }
            }
        }
    }
}

proof fn lemma_running_are_staffed(pool: PoolModel)
    requires
        scheduler::scheduler_wf(pool.scheduler),
        is_staffed(pool),
    ensures
        scheduler::running_count(pool.scheduler.active, pool.scheduler.active.len())
            <= pool.busy.len(),
{
    let active = pool.scheduler.active;
    let ids = running_ids(active, active.len());
    lemma_running_ids(active, active.len());
    ids.unique_seq_to_set();
    pool.busy.lemma_cardinality_of_set();
    assert(ids.to_set().subset_of(pool.busy.to_set())) by {
        assert forall|own: Option<OperationId>| ids.to_set().contains(own) implies pool.busy.to_set().contains(
            own,
        ) by {
            assert(ids.contains(own));
            let i = choose|i: int|
                0 <= i < active.len() && own == Some((#[trigger] active[i]).id)
                    && active[i].lifecycle is Running;
            assert(pool.busy.contains(Some(active[i].id)));
        }
    }
    vstd::set_lib::lemma_len_subset(ids.to_set(), pool.busy.to_set());
}

/// One step of the identities of a service.
pub enum IdentityStep {
    /// A nonce is drawn.
    Draw([u8; 8]),
    /// The next identity is given to an operation or to a transition.
    Issue,
}

/// The identities after a step.
pub open spec fn after_identity_step(identity: IdentityModel, step: IdentityStep) -> IdentityModel {
    match step {
        IdentityStep::Draw(nonce) => identity::after_nonce(identity, nonce),
        IdentityStep::Issue => IdentityModel { next: (identity.next + 1) as u64, ..identity },
    }
}

/// The identities after a history of steps.
pub open spec fn after_identity_steps(
    identity: IdentityModel,
    history: Seq<IdentityStep>,
) -> IdentityModel
    decreases history.len(),
{
    if history.len() == 0 {
        identity
    } else {
        after_identity_step(after_identity_steps(identity, history.drop_last()), history.last())
    }
}

/// Whether a history gives out an identity only where one can be made.
pub open spec fn is_identity_history(
    identity: IdentityModel,
    issued_capacity: u64,
    history: Seq<IdentityStep>,
) -> bool
    decreases history.len(),
{
    history.len() == 0 || {
        &&& is_identity_history(identity, issued_capacity, history.drop_last())
        &&& history.last() is Issue ==> !identity::is_exhausted(
            after_identity_steps(identity, history.drop_last()),
            issued_capacity,
        )
    }
}

/// The identities that a history gives out, in order.
pub open spec fn issued_ids(identity: IdentityModel, history: Seq<IdentityStep>) -> Seq<Seq<u8>>
    decreases history.len(),
{
    if history.len() == 0 {
        Seq::empty()
    } else {
        let before = after_identity_steps(identity, history.drop_last());
        match history.last() {
            IdentityStep::Issue => issued_ids(identity, history.drop_last()).push(
                identity::identity_bytes(before.nonce->0, before.next),
            ),
            _ => issued_ids(identity, history.drop_last()),
        }
    }
}

/// An admission and a registration leave the identities as they are where they
/// fail, and give out the next one where they succeed.
pub proof fn law_a_success_gives_out_one_identity(
    core_state: CoreModel,
    generation: u64,
    sample: Option<Duration>,
    state: OperationModel,
    kind: TransitionKind,
    token: u64,
    id: OperationId,
    verifier: Option<(Seq<u8>, Seq<u8>)>,
    presentation: Option<Seq<u8>>,
)
    ensures
        runtime::after_admit(core_state, generation, sample, state).identity
            == if runtime::admit_answer(core_state, generation, sample) is Ok {
            after_identity_step(core_state.identity, IdentityStep::Issue)
        } else {
            core_state.identity
        },
        flows::after_registered(
            core_state,
            kind,
            generation,
            token,
            id,
            verifier,
            presentation,
        ).identity == if transitions::register_answer(
            core_state.transitions,
            kind,
            token,
            flows::binding_is_valid(core_state, kind, generation),
        ) is Ok {
            after_identity_step(core_state.identity, IdentityStep::Issue)
        } else {
            core_state.identity
        },
{
}

/// The number at the end of an identity, its highest byte first.
pub open spec fn number_of(id: Seq<u8>) -> int {
    id[8] * 0x100_0000_0000_0000 + id[9] * 0x1_0000_0000_0000 + id[10] * 0x100_0000_0000 + id[11]
        * 0x1_0000_0000 + id[12] * 0x100_0000 + id[13] * 0x1_0000 + id[14] * 0x100 + id[15]
}

/// The identities of one service never repeat, are as many as it may issue at
/// most, all start with one nonce that is not all zero, and end with numbers that
/// grow and stay below what it may issue.
pub proof fn law_identities_of_a_service_never_repeat(
    service: u64,
    config: ConfigModel,
    session: Option<ManagerModel>,
    history: Seq<IdentityStep>,
)
    requires
        is_identity_history(
            runtime::new_core(service, config, session).identity,
            config.issued_capacity,
            history,
        ),
    ensures
        ({
            let fresh = runtime::new_core(service, config, session).identity;
            let ids = issued_ids(fresh, history);
            let nonce = after_identity_steps(fresh, history).nonce;
            &&& ids.no_duplicates()
            &&& ids.len() <= config.issued_capacity
            &&& ids.len() > 0 ==> nonce is Some && identity::is_usable_nonce(nonce->0)
            &&& forall|i: int|
                0 <= i < ids.len() ==> (#[trigger] ids[i]).len() == 16 && nonce->0@.is_prefix_of(
                    ids[i],
                ) && number_of(ids[i]) < config.issued_capacity
            &&& forall|i: int, j: int|
                0 <= i < j < ids.len() ==> number_of(#[trigger] ids[i]) < number_of(
                    #[trigger] ids[j],
                )
        }),
{
    let fresh = runtime::new_core(service, config, session).identity;
    lemma_issued_in_order(fresh, config.issued_capacity, history);
    let ids = issued_ids(fresh, history);
    let nonce = after_identity_steps(fresh, history).nonce;
    assert forall|i: int, j: int| 0 <= i < ids.len() && 0 <= j < ids.len() && i != j implies ids[i]
        != ids[j] by {
        numbers::law_identities_are_distinct(nonce->0, i as u64, j as u64);
    }
    assert forall|i: int| 0 <= i < ids.len() implies (#[trigger] ids[i]).len() == 16
        && nonce->0@.is_prefix_of(ids[i]) && number_of(ids[i]) == i by {
        numbers::lemma_big_endian(i as u64);
    }
}

/// The identities that were given out are numbered in order, all with the nonce
/// that the service has.
proof fn lemma_issued_in_order(
    fresh: IdentityModel,
    issued_capacity: u64,
    history: Seq<IdentityStep>,
)
    requires
        fresh == (IdentityModel { nonce: None, next: 0 }),
        is_identity_history(fresh, issued_capacity, history),
    ensures
        ({
            let ids = issued_ids(fresh, history);
            let later = after_identity_steps(fresh, history);
            &&& ids.len() == later.next <= issued_capacity
            &&& later.nonce is Some ==> identity::is_usable_nonce(later.nonce->0)
            &&& later.next > 0 ==> later.nonce is Some
            &&& forall|i: int|
                0 <= i < ids.len() ==> #[trigger] ids[i] == identity::identity_bytes(
                    later.nonce->0,
                    i as u64,
                )
        }),
    decreases history.len(),
{
    if history.len() > 0 {
        lemma_issued_in_order(fresh, issued_capacity, history.drop_last());
    }
}

} // verus!
