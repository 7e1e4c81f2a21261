//! The session manager: one clock, one session and the workspaces it tracks.
use vstd::prelude::*;

use crate::bytes::same_bytes;
use crate::error::ServiceError;
use crate::memory;
use crate::memory::vec_room;
use crate::ports::paths;
use crate::ports::paths::{
    LogicalPathModel, LogicalWorkspacePath, NativePath, RegistryModel, WorkspacePathRegistry,
};
use crate::ports::workspace::{
    RequestModel, TargetWorkspaceRequest, VaultWorkspaceRequest, WorkspaceId, WorkspaceMode,
};
use crate::ports::{HostPortError, MAX_WORKSPACE_PATHS};
use crate::session;
use crate::session::clock::MonotonicClock;
use crate::session::data;
use crate::session::data::{
    DueEvent, DueObservation, RepositoryAnswer, SessionData, SessionModel, SessionObservation,
    UnlockStep,
};
use crate::session::errors;
use crate::session::errors::{
    catch_port_panic, map_host_error, map_repository_error, PortAnswer, RepositoryPortError,
};
use crate::session::workspaces;
use crate::session::workspaces::{TableModel, WorkspaceTable, MAX_ACTIVE_WORKSPACES};
use crate::session::{PolicyModel, SessionEvent, SessionPolicy, SessionState, VaultId};
use crate::time::Duration;

verus! {

/// The owner of one unlock session.
pub struct SessionManager {
    identity: u64,
    policy: SessionPolicy,
    vault_id: Option<VaultId>,
    data: SessionData,
    clock_sequence: usize,
    observed_sequence: usize,
    observed_at: Duration,
    workspaces: WorkspaceTable,
}

/// Contents of a [`SessionManager`].
pub struct ManagerModel {
    pub identity: u64,
    pub policy: PolicyModel,
    pub vault_id: Option<VaultId>,
    pub data: SessionModel,
    pub clock_sequence: usize,
    pub observed_sequence: usize,
    pub observed_at: nat,
    pub workspaces: TableModel,
}

impl View for SessionManager {
    type V = ManagerModel;

    closed spec fn view(&self) -> ManagerModel {
        ManagerModel {
            identity: self.identity,
            policy: self.policy@,
            vault_id: self.vault_id,
            data: self.data@,
            clock_sequence: self.clock_sequence,
            observed_sequence: self.observed_sequence,
            observed_at: self.observed_at@,
            workspaces: self.workspaces@,
        }
    }
}

/// Invariant of the manager.
pub open spec fn manager_wf(manager: ManagerModel) -> bool {
    &&& data::session_wf(manager.data)
    &&& workspaces::table_wf(manager.workspaces)
    &&& session::policy_is_valid(manager.policy)
}

/// The manager with another session state.
pub open spec fn with_data(manager: ManagerModel, data: SessionModel) -> ManagerModel {
    ManagerModel { data, ..manager }
}

/// The manager with another workspace table.
pub open spec fn with_workspaces(manager: ManagerModel, workspaces: TableModel) -> ManagerModel {
    ManagerModel { workspaces, ..manager }
}

/// The manager after cleanup became required.
pub open spec fn after_mark(manager: ManagerModel) -> ManagerModel {
    with_data(manager, data::after_cleanup_required(manager.data))
}

/// The manager after a workspace attempt ended.
pub open spec fn after_end(manager: ManagerModel) -> ManagerModel {
    with_workspaces(manager, workspaces::after_attempt_end(manager.workspaces))
}

/// Whether a generation is the one that is unlocked.
pub open spec fn is_current(data: SessionModel, generation: u64) -> bool {
    data.state is Unlocked && data.epoch == generation
}

/// Whether the root capability of a generation can be used.
pub open spec fn root_is_usable(data: SessionModel, generation: u64) -> bool {
    is_current(data, generation) && data.unlocked is Some
}

/// A manager that was just made.
pub open spec fn new_manager(
    identity: u64,
    policy: PolicyModel,
    vault_id: Option<VaultId>,
    now: nat,
) -> ManagerModel {
    ManagerModel {
        identity,
        policy,
        vault_id,
        data: data::locked_session(now),
        clock_sequence: 0,
        observed_sequence: 0,
        observed_at: now,
        workspaces: workspaces::empty_table(),
    }
}

/// Why a manager cannot be made from what its repository and its clock answer.
pub open spec fn new_manager_failure(
    vault_id: PortAnswer<Result<Option<VaultId>, RepositoryPortError>>,
    now: PortAnswer<Result<Duration, ServiceError>>,
) -> Option<ServiceError> {
    match vault_id {
        PortAnswer::Panicked => Some(ServiceError::ExecutorFailed),
        PortAnswer::Returned(Err(error)) => Some(errors::repository_failure(error)),
        PortAnswer::Returned(Ok(_)) => match errors::contained(now) {
            Err(error) => Some(error),
            Ok(_) => None,
        },
    }
}

/// What the beginning of a clock sample answers.
pub open spec fn begin_sample_answer(manager: ManagerModel) -> Result<usize, ServiceError> {
    if manager.clock_sequence == usize::MAX {
        Err(ServiceError::ClockFailure)
    } else {
        Ok((manager.clock_sequence + 1) as usize)
    }
}

/// The manager after a clock sample began.
pub open spec fn after_begin_sample(manager: ManagerModel) -> ManagerModel {
    match begin_sample_answer(manager) {
        Ok(sequence) => ManagerModel { clock_sequence: sequence, ..manager },
        Err(_) => manager,
    }
}

/// What a clock sample answers. A sample that was overtaken never goes back
/// behind the later one; the latest sample may not go back at all.
pub open spec fn finish_sample_answer(
    manager: ManagerModel,
    sequence: usize,
    now: PortAnswer<Result<Duration, ServiceError>>,
) -> Result<nat, ServiceError> {
    match errors::contained(now) {
        Err(error) => Err(error),
        Ok(now) => if sequence < manager.observed_sequence {
            Ok(if now@ <= manager.observed_at {
                manager.observed_at
            } else {
                now@
            })
        } else if now@ < manager.observed_at {
            Err(ServiceError::ClockFailure)
        } else {
            Ok(now@)
        },
    }
}

/// The manager after a clock sample.
pub open spec fn after_finish_sample(
    manager: ManagerModel,
    sequence: usize,
    now: PortAnswer<Result<Duration, ServiceError>>,
) -> ManagerModel {
    match finish_sample_answer(manager, sequence, now) {
        Ok(sampled) if sequence >= manager.observed_sequence => ManagerModel {
            observed_sequence: sequence,
            observed_at: sampled,
            ..manager
        },
        _ => manager,
    }
}

/// A sampled instant, in nanoseconds.
pub open spec fn sampled_instant(sampled: Result<Duration, ServiceError>) -> Result<
    nat,
    ServiceError,
> {
    match sampled {
        Ok(sampled) => Ok(sampled@),
        Err(error) => Err(error),
    }
}

/// The answer of the repository to an unlock, as the session takes it.
pub open spec fn unlock_answer(
    answer: PortAnswer<Result<(), RepositoryPortError>>,
) -> RepositoryAnswer {
    match answer {
        PortAnswer::Panicked => RepositoryAnswer::Panicked,
        PortAnswer::Returned(Ok(())) => RepositoryAnswer::Unlocked,
        PortAnswer::Returned(Err(error)) => RepositoryAnswer::Failed(
            errors::repository_failure(error),
        ),
    }
}

/// The manager after the last step of an unlock: an opened session remembers
/// the identity of its vault.
pub open spec fn after_sampled(
    manager: ManagerModel,
    generation: u64,
    vault_id: VaultId,
    sampled: Result<Duration, ServiceError>,
) -> ManagerModel {
    let (data, step) = data::sampled_step(
        manager.data,
        manager.policy,
        generation,
        vault_id,
        sampled,
    );
    ManagerModel {
        data,
        vault_id: if step matches UnlockStep::Done(Ok(_)) {
            Some(vault_id)
        } else {
            manager.vault_id
        },
        ..manager
    }
}

/// Whether a lock whose root was taken over cleans up after itself, and if it
/// does, whether it failed already.
pub open spec fn lock_cleanup(
    manager: ManagerModel,
    root_was_present: bool,
    close_failed: bool,
    editors_quiescent: bool,
) -> Option<bool> {
    if manager.data.cleanup_owner && root_was_present {
        Some(close_failed || !editors_quiescent || manager.workspaces.attempts != 0)
    } else {
        None
    }
}

/// The manager after a lock cleaned up.
pub open spec fn after_lock_cleanup(manager: ManagerModel, failed: bool) -> ManagerModel {
    with_data(
        manager,
        SessionModel {
            state: data::resting_state(failed || manager.data.cleanup_required),
            cleanup_owner: false,
            ..manager.data
        },
    )
}

/// What the beginning of a cleanup retry answers.
pub open spec fn retry_answer(manager: ManagerModel) -> Result<(), ServiceError> {
    data::begin_retry_answer(manager.data, manager.workspaces.attempts)
}

/// The manager after a cleanup retry began.
pub open spec fn after_begin_retry(manager: ManagerModel) -> ManagerModel {
    if retry_answer(manager) is Ok {
        with_data(
            manager,
            SessionModel { state: SessionState::Locking, cleanup_owner: true, ..manager.data },
        )
    } else {
        manager
    }
}

/// What becomes of a lease that the repository handed out.
#[derive(Clone, Copy, Debug, PartialEq, Eq, Structural)]
pub enum LeaseStep {
    /// The caller has it.
    Granted,
    /// The session moved on meanwhile: cancel and finish it, and report that
    /// the session is locked.
    GiveBack,
    /// The repository refused.
    Refused(ServiceError),
}

/// What becomes of a lease of a generation.
pub open spec fn lease_step(
    manager: ManagerModel,
    generation: u64,
    acquired: Result<(), RepositoryPortError>,
) -> LeaseStep {
    match acquired {
        Err(error) => LeaseStep::Refused(errors::repository_failure(error)),
        Ok(()) => if is_current(manager.data, generation) {
            LeaseStep::Granted
        } else {
            LeaseStep::GiveBack
        },
    }
}

/// Whether an observation needs room for warnings: the session is unlocked and has
/// warnings to give.
pub open spec fn needs_warning_room(session: ManagerModel) -> bool {
    session.data.state is Unlocked && session.policy.warning_offsets.len() > 0
}

/// Whether the allocator may have refused an observation room for the warnings of
/// both deadlines.
pub open spec fn warnings_refused(session: ManagerModel) -> bool {
    &&& needs_warning_room(session)
    &&& memory::vec_refused(
        Seq::<DueEvent>::empty(),
        2 * session.policy.warning_offsets.len() as int,
    )
}

/// Whether the allocator may have refused an observation at `now` room to tell the
/// warnings that became due.
pub open spec fn telling_refused(session: ManagerModel, now: nat) -> bool {
    let due = data::observed_warnings(session.data, session.policy, now);
    due.len() > 0 && memory::vec_refused(Seq::<SessionEvent>::empty(), due.len() as int)
}

impl SessionManager {
    /// Makes the manager of a repository from what the repository says of its
    /// vault and from a first sample of the clock.
    pub fn new(
        identity: u64,
        policy: SessionPolicy,
        vault_id: PortAnswer<Result<Option<VaultId>, RepositoryPortError>>,
        now: PortAnswer<Result<Duration, ServiceError>>,
    ) -> (manager: Result<Self, ServiceError>)
        ensures
            match new_manager_failure(vault_id, now) {
                Some(error) => manager == Err::<Self, ServiceError>(error),
                None => match manager {
                    Ok(manager) => manager@ == new_manager(
                        identity,
                        policy@,
                        vault_id->Returned_0->Ok_0,
                        errors::contained(now)->Ok_0@,
                    ) && manager_wf(manager@),
                    Err(error) => error == ServiceError::AllocationFailed
                        && workspaces::table_refused(MAX_ACTIVE_WORKSPACES as int),
                },
            },
    {
        let vault_id = match vault_id {
            PortAnswer::Panicked => return Err(ServiceError::ExecutorFailed),
            PortAnswer::Returned(Err(error)) => return Err(map_repository_error(error)),
            PortAnswer::Returned(Ok(vault_id)) => vault_id,
        };
        let now = match catch_port_panic(now) {
            Ok(now) => now,
            Err(error) => return Err(error),
        };
        SessionManager::over(identity, policy, vault_id, now, WorkspaceTable::try_new())
    }

    /// A locked manager over its table of workspaces, or none where the table was
    /// refused.
    pub fn over(
        identity: u64,
        policy: SessionPolicy,
        vault_id: Option<VaultId>,
        now: Duration,
        workspaces: Option<WorkspaceTable>,
    ) -> (manager: Result<Self, ServiceError>)
        requires
            workspaces is Some ==> workspaces->0@ == workspaces::empty_table(),
        ensures
            workspaces is None ==> manager == Err::<Self, ServiceError>(
                ServiceError::AllocationFailed,
            ),
            workspaces is Some ==> manager is Ok && manager->Ok_0@ == new_manager(
                identity,
                policy@,
                vault_id,
                now@,
            ) && manager_wf(manager->Ok_0@),
    {
        let workspaces = match workspaces {
            Some(workspaces) => workspaces,
            None => return Err(ServiceError::AllocationFailed),
        };
        proof {
            use_type_invariant(&policy);
        }
        Ok(
            SessionManager {
                identity,
                policy,
                vault_id,
                data: SessionData::locked_at(now),
                clock_sequence: 0,
                observed_sequence: 0,
                observed_at: now,
                workspaces,
            },
        )
    }

    pub fn state(&self) -> (state: SessionState)
        ensures
            state == self@.data.state,
    {
        self.data.state()
    }

    /// The generation that is unlocked, where one is.
    pub fn current_generation(&self) -> (generation: Option<u64>)
        ensures
            generation == if self@.data.state is Unlocked {
                Some(self@.data.epoch)
            } else {
                None
            },
    {
        if self.data.state() == SessionState::Unlocked {
            Some(self.data.epoch())
        } else {
            None
        }
    }

    /// The last generation that was begun.
    pub fn binding_epoch(&self) -> (epoch: u64)
        ensures
            epoch == self@.data.epoch,
    {
        self.data.epoch()
    }

    pub fn current_vault_id(&self) -> (vault_id: Option<VaultId>)
        ensures
            vault_id == self@.vault_id,
    {
        self.vault_id
    }

    pub fn final_save_grace(&self) -> (grace: Duration)
        ensures
            grace == self@.policy.final_save_grace,
    {
        self.policy.final_save_grace()
    }

    /// Requires cleanup before the next unlock.
    pub fn mark_cleanup_required(&mut self)
        ensures
            final(self)@ == after_mark(old(self)@),
    {
        self.data.require_cleanup();
    }

    /// Begins one sample of the clock and numbers it.
    pub fn begin_sample(&mut self) -> (sequence: Result<usize, ServiceError>)
        ensures
            sequence == begin_sample_answer(old(self)@),
            final(self)@ == after_begin_sample(old(self)@),
    {
        match self.clock_sequence.checked_add(1) {
            Some(sequence) => {
                self.clock_sequence = sequence;
                Ok(sequence)
            },
            None => Err(ServiceError::ClockFailure),
        }
    }

    /// Ends the numbered sample with what the clock answered.
    pub fn finish_sample(
        &mut self,
        sequence: usize,
        now: PortAnswer<Result<Duration, ServiceError>>,
    ) -> (sampled: Result<Duration, ServiceError>)
        ensures
            sampled_instant(sampled) == finish_sample_answer(old(self)@, sequence, now),
            final(self)@ == after_finish_sample(old(self)@, sequence, now),
    {
        let now = match catch_port_panic(now) {
            Ok(now) => now,
            Err(error) => return Err(error),
        };
        if sequence < self.observed_sequence {
            return Ok(self.observed_at.longest(now));
        }
        if now.is_shorter_than(&self.observed_at) {
            return Err(ServiceError::ClockFailure);
        }
        self.observed_sequence = sequence;
        self.observed_at = now;
        Ok(now)
    }

    /// Samples a clock.
    pub fn sample_now<C: MonotonicClock>(&mut self, clock: &C) -> (sampled: Result<
        Duration,
        ServiceError,
    >)
        ensures
            old(self)@.clock_sequence == usize::MAX ==> sampled == Err::<Duration, ServiceError>(
                ServiceError::ClockFailure,
            ) && final(self)@ == old(self)@,
            begin_sample_answer(old(self)@) matches Ok(sequence) ==> exists|
                now: Result<Duration, ServiceError>,
            |
                {
                    &&& #[trigger] call_ensures(C::elapsed, (clock,), now)
                    &&& sampled_instant(sampled) == finish_sample_answer(
                        after_begin_sample(old(self)@),
                        sequence,
                        PortAnswer::Returned(now),
                    )
                    &&& final(self)@ == after_finish_sample(
                        after_begin_sample(old(self)@),
                        sequence,
                        PortAnswer::Returned(now),
                    )
                },
            final(self)@ == (ManagerModel {
                clock_sequence: final(self)@.clock_sequence,
                observed_sequence: final(self)@.observed_sequence,
                observed_at: final(self)@.observed_at,
                ..old(self)@
            }),
            old(self)@.observed_at <= final(self)@.observed_at,
            sampled is Ok ==> old(self)@.observed_at <= sampled->Ok_0@,
    {
        let sequence: usize = match self.begin_sample() {
            Ok(sequence) => sequence,
            Err(error) => return Err(error),
        };
        let now = clock.elapsed();
        self.finish_sample(sequence, PortAnswer::Returned(now))
    }

    /// Records trusted activity at a sampled instant.
    pub fn record_trusted_activity_at(&mut self, now: Duration) -> (recorded: Result<
        (),
        ServiceError,
    >)
        ensures
            recorded == data::activity_answer(old(self)@.data, old(self)@.policy, now@),
            final(self)@ == with_data(
                old(self)@,
                data::after_activity(old(self)@.data, old(self)@.policy, now@),
            ),
    {
        self.data.record_activity(&self.policy, now)
    }

    /// Observes the deadlines at a sampled instant. Memory for the warnings is asked
    /// for twice. Where it is refused at first, only an expiry is remembered; where
    /// it is refused to tell the warnings, they count as given.
    pub fn observe_at(&mut self, now: Duration) -> (observed: Result<
        SessionObservation,
        ServiceError,
    >)
        ensures
            match observed {
                Ok(observation) => data::observation_is(
                    observation,
                    old(self)@.data,
                    old(self)@.policy,
                    now@,
                ) && final(self)@ == with_data(
                    old(self)@,
                    data::after_observation(old(self)@.data, old(self)@.policy, now@),
                ),
                Err(error) => error == ServiceError::AllocationFailed && {
                    ||| warnings_refused(old(self)@) && final(self)@ == with_data(
                        old(self)@,
                        data::after_refused_observation(old(self)@.data, now@),
                    )
                    ||| telling_refused(old(self)@, now@) && final(self)@ == with_data(
                        old(self)@,
                        data::after_observation(old(self)@.data, old(self)@.policy, now@),
                    )
                },
            },
            !needs_warning_room(old(self)@) ==> observed is Ok,
    {
        let offsets = self.policy.warning_offsets();
        let room = if self.data.state() == SessionState::Unlocked {
            vec_room(2 * offsets.len())
        } else {
            Some(Vec::new())
        };
        match room {
            Some(room) => {
                let found = self.observe_with_room(now, room);
                let told = vec_room(found.count());
                found.told(told)
            },
            None => {
                self.data.note_expiry(now);
                Err(ServiceError::AllocationFailed)
            },
        }
    }

    /// Observes the deadlines with room for the warnings that become due.
    pub fn observe_with_room(&mut self, now: Duration, room: Vec<DueEvent>) -> (found:
        DueObservation)
        requires
            room@ == Seq::<DueEvent>::empty(),
        ensures
            found@ == data::observed(old(self)@.data, old(self)@.policy, now@),
            final(self)@ == with_data(
                old(self)@,
                data::after_observation(old(self)@.data, old(self)@.policy, now@),
            ),
    {
        self.data.observe(&self.policy, now, room)
    }

    /// Begins an unlock. The startup cleanup comes next.
    pub fn begin_unlock(&mut self) -> (generation: Result<u64, ServiceError>)
        ensures
            generation == data::begin_unlock_answer(old(self)@.data),
            final(self)@ == with_data(old(self)@, data::after_begin_unlock(old(self)@.data)),
    {
        self.data.begin_unlock()
    }

    /// Whether an unlock may go on. Its repository looks at this while it works.
    pub fn unlock_is_live(&self, generation: u64) -> (live: bool)
        ensures
            live == data::attempt_is_live(self@.data, generation),
    {
        self.data.is_live(generation)
    }

    /// Goes on with an unlock after the startup cleanup.
    pub fn startup_cleaned(&mut self, cleaned: bool) -> (step: UnlockStep)
        ensures
            step == data::startup_cleaned_step(old(self)@.data, cleaned).1,
            final(self)@ == with_data(
                old(self)@,
                data::startup_cleaned_step(old(self)@.data, cleaned).0,
            ),
    {
        self.data.startup_cleaned(cleaned)
    }

    /// Goes on with an unlock after the repository answered.
    pub fn repository_answered(
        &mut self,
        generation: u64,
        answer: PortAnswer<Result<(), RepositoryPortError>>,
    ) -> (step: UnlockStep)
        ensures
            step == data::repository_step(old(self)@.data, generation, unlock_answer(answer)).1,
            final(self)@ == with_data(
                old(self)@,
                data::repository_step(old(self)@.data, generation, unlock_answer(answer)).0,
            ),
    {
        let answer = match answer {
            PortAnswer::Panicked => RepositoryAnswer::Panicked,
            PortAnswer::Returned(Ok(())) => RepositoryAnswer::Unlocked,
            PortAnswer::Returned(Err(error)) => RepositoryAnswer::Failed(
                map_repository_error(error),
            ),
        };
        self.data.repository_answered(generation, answer)
    }

    /// Goes on with an unlock after the root capability was wrapped, or was not.
    pub fn root_wrapped(&mut self, generation: u64, wrapped: bool) -> (step: UnlockStep)
        ensures
            step == data::wrapped_step(old(self)@.data, generation, wrapped).1,
            final(self)@ == with_data(
                old(self)@,
                data::wrapped_step(old(self)@.data, generation, wrapped).0,
            ),
    {
        self.data.root_wrapped(generation, wrapped)
    }

    /// Goes on with an unlock after the workspaces were reconciled, or were not.
    pub fn workspaces_reconciled(&mut self, generation: u64, reconciled: bool) -> (step: UnlockStep)
        ensures
            step == data::reconciled_step(old(self)@.data, generation, reconciled).1,
            final(self)@ == with_data(
                old(self)@,
                data::reconciled_step(old(self)@.data, generation, reconciled).0,
            ),
    {
        if reconciled {
            UnlockStep::ReadVaultId
        } else {
            self.data.fail_provisional(generation)
        }
    }

    /// Goes on with an unlock after the vault named itself, or did not.
    pub fn vault_identified(&mut self, generation: u64, identified: bool) -> (step: UnlockStep)
        ensures
            step == data::identified_step(old(self)@.data, generation, identified).1,
            final(self)@ == with_data(
                old(self)@,
                data::identified_step(old(self)@.data, generation, identified).0,
            ),
    {
        if identified {
            UnlockStep::SampleClock
        } else {
            self.data.fail_provisional(generation)
        }
    }

    /// Ends an unlock after the clock was sampled.
    pub fn clock_sampled(
        &mut self,
        generation: u64,
        vault_id: VaultId,
        sampled: Result<Duration, ServiceError>,
    ) -> (step: UnlockStep)
        ensures
            step == data::sampled_step(
                old(self)@.data,
                old(self)@.policy,
                generation,
                vault_id,
                sampled,
            ).1,
            final(self)@ == after_sampled(old(self)@, generation, vault_id, sampled),
    {
        let step = self.data.clock_sampled(&self.policy, generation, vault_id, sampled);
        if let UnlockStep::Done(Ok(_)) = step {
            self.vault_id = Some(vault_id);
        }
        step
    }

    /// Gives an unlock up after its root, which could not be wrapped, was closed.
    pub fn unwrapped_root_closed(&mut self) -> (step: UnlockStep)
        ensures
            step == (UnlockStep::CleanBase { error: ServiceError::CleanupRequired }),
            final(self)@ == with_data(
                old(self)@,
                data::after_unwrapped_closed(old(self)@.data),
            ),
    {
        self.data.unwrapped_closed();
        UnlockStep::CleanBase { error: ServiceError::CleanupRequired }
    }

    /// Goes on with an unlock that was given up, after its root was closed.
    pub fn root_closed(&mut self, latch: bool, failed: bool, error: ServiceError) -> (step:
        UnlockStep)
        ensures
            step == (UnlockStep::CleanBase { error }),
            final(self)@ == with_data(
                old(self)@,
                data::after_root_closed(old(self)@.data, latch, failed),
            ),
    {
        if latch || failed {
            self.data.require_cleanup();
        }
        UnlockStep::CleanBase { error }
    }

    /// Ends an unlock that was given up, after the host's base was cleaned.
    pub fn base_cleaned(&mut self, cleaned: bool, error: ServiceError) -> (step: UnlockStep)
        ensures
            step == UnlockStep::Done(Err(error)),
            final(self)@ == with_data(
                old(self)@,
                data::after_given_up_cleanup(old(self)@.data, cleaned),
            ),
    {
        let failed = !cleaned || self.data.cleanup_required();
        self.data.rest(failed);
        UnlockStep::Done(Err(error))
    }

    /// Begins a lock and takes over the root capability.
    pub fn begin_lock(&mut self) -> (root: Option<u64>)
        ensures
            root == data::lock_takes(old(self)@.data),
            final(self)@ == with_data(old(self)@, data::after_begin_lock(old(self)@.data)),
    {
        self.data.begin_lock()
    }

    /// Whether a lock cleans up after its root was closed, and whether it failed
    /// already.
    pub fn begin_lock_cleanup(
        &self,
        root_was_present: bool,
        close_failed: bool,
        editors_quiescent: bool,
    ) -> (failed: Option<bool>)
        ensures
            failed == lock_cleanup(self@, root_was_present, close_failed, editors_quiescent),
    {
        if !self.data.owns_cleanup() || !root_was_present {
            return None;
        }
        Some(close_failed || !editors_quiescent || self.workspaces.attempts() != 0)
    }

    /// Ends a lock that cleaned up.
    pub fn finish_lock_after_close(&mut self, failed: bool)
        ensures
            final(self)@ == after_lock_cleanup(old(self)@, failed),
    {
        let failed = failed || self.data.cleanup_required();
        self.data.rest(failed);
    }

    /// Begins a retry of the cleanup.
    pub fn begin_retry_cleanup(&mut self) -> (begun: Result<(), ServiceError>)
        ensures
            begun == retry_answer(old(self)@),
            final(self)@ == after_begin_retry(old(self)@),
    {
        if self.data.state() != SessionState::CleanupRequired {
            return Err(ServiceError::Locked);
        }
        if self.data.is_unlocking() || self.data.owns_cleanup() {
            return Err(ServiceError::Busy);
        }
        if self.workspaces.attempts() != 0 {
            return Err(ServiceError::Busy);
        }
        self.data.begin_retry();
        Ok(())
    }

    /// Ends a retry of the cleanup: it is proven only where the tracked
    /// workspaces, the base and the external files are all clean.
    pub fn finish_retry_cleanup(
        &mut self,
        tracked_clean: bool,
        base_clean: bool,
        external_clean: bool,
    ) -> (finished: Result<(), ServiceError>)
        ensures
            finished == if tracked_clean && base_clean && external_clean {
                Ok(())
            } else {
                Err(ServiceError::CleanupRequired)
            },
            final(self)@ == with_data(
                old(self)@,
                data::after_retry(
                    old(self)@.data,
                    tracked_clean && base_clean && external_clean,
                ),
            ),
    {
        let clean = tracked_clean && base_clean && external_clean;
        self.data.finish_retry(clean);
        if clean {
            Ok(())
        } else {
            Err(ServiceError::CleanupRequired)
        }
    }

    /// Checks that the root of a generation can be used.
    pub fn check_root(&self, generation: u64) -> (checked: Result<(), ServiceError>)
        ensures
            checked == if root_is_usable(self@.data, generation) {
                Ok(())
            } else {
                Err(ServiceError::Locked)
            },
    {
        if self.data.state() != SessionState::Unlocked || self.data.epoch() != generation
            || !self.data.holds_root() {
            Err(ServiceError::Locked)
        } else {
            Ok(())
        }
    }

    fn is_current(&self, generation: u64) -> (current: bool)
        ensures
            current == is_current(self@.data, generation),
    {
        self.data.state() == SessionState::Unlocked && self.data.epoch() == generation
    }

    /// Decides about a lease that was acquired for a generation.
    pub fn lease_acquired(
        &self,
        generation: u64,
        acquired: Result<(), RepositoryPortError>,
    ) -> (step: LeaseStep)
        ensures
            step == lease_step(self@, generation, acquired),
    {
        match acquired {
            Err(error) => LeaseStep::Refused(map_repository_error(error)),
            Ok(()) => if self.is_current(generation) {
                LeaseStep::Granted
            } else {
                LeaseStep::GiveBack
            },
        }
    }
}

/// Linear handle to one service-tracked plaintext workspace.
pub struct WorkspaceSession {
    manager: u64,
    token: u64,
    generation: u64,
}

/// Contents of a [`WorkspaceSession`].
pub struct HandleModel {
    pub manager: u64,
    pub token: u64,
    pub generation: u64,
}

impl View for WorkspaceSession {
    type V = HandleModel;

    closed spec fn view(&self) -> HandleModel {
        HandleModel { manager: self.manager, token: self.token, generation: self.generation }
    }
}

impl WorkspaceSession {
    /// The token of the tracked workspace.
    pub fn token(&self) -> (token: u64)
        ensures
            token == self@.token,
    {
        self.token
    }
}

/// Whether a manager issued a handle for a generation.
pub open spec fn owns(manager: ManagerModel, handle: HandleModel, generation: u64) -> bool {
    handle.manager == manager.identity && handle.generation == generation
}

/// Request to the workspace provider.
pub enum WorkspaceCreateRequest {
    Target(TargetWorkspaceRequest),
    WholeVault(VaultWorkspaceRequest),
}

/// Contents of a request to the workspace provider.
pub open spec fn request_contents(request: WorkspaceCreateRequest) -> (WorkspaceMode, RequestModel) {
    match request {
        WorkspaceCreateRequest::Target(request) => (WorkspaceMode::Targeted, request@),
        WorkspaceCreateRequest::WholeVault(request) => (WorkspaceMode::WholeVault, request@),
    }
}

/// One workspace that is being created.
pub struct WorkspaceCreation {
    generation: u64,
    mode: WorkspaceMode,
    vault_id: VaultId,
    paths: WorkspacePathRegistry,
    id: Option<[u8; 16]>,
}

/// Contents of a [`WorkspaceCreation`].
pub struct CreationModel {
    pub generation: u64,
    pub mode: WorkspaceMode,
    pub vault_id: VaultId,
    pub paths: RegistryModel,
    pub id: Option<[u8; 16]>,
}

impl View for WorkspaceCreation {
    type V = CreationModel;

    closed spec fn view(&self) -> CreationModel {
        CreationModel {
            generation: self.generation,
            mode: self.mode,
            vault_id: self.vault_id,
            paths: self.paths@,
            id: self.id,
        }
    }
}

/// What the creation of a workspace does next.
#[derive(Clone, Copy, Debug, PartialEq, Eq, Structural)]
pub enum CreateStep {
    /// Activate the registered workspace.
    Activate,
    /// Take the registration back with a failure. A workspace that was created
    /// for it is removed first; otherwise its absence is verified first.
    RollBack { created: bool, error: ServiceError },
    /// Remove the workspace that was not asked for, and take the registration
    /// back.
    RemoveWrong,
    /// Remove the workspace whose activation named another one.
    RemoveMismatched,
    /// Remove the active workspace and unregister it, with a failure.
    RollBackActive { error: ServiceError },
    /// Remove the active workspace as a tracked one, because it cannot be listed.
    RemoveRecord,
    /// The creation is over.
    Failed(ServiceError),
}

/// What the removal of a workspace does next.
#[derive(Clone, Copy, Debug, PartialEq, Eq, Structural)]
pub enum RemoveStep {
    /// Unregister the removed workspace from the store.
    Unregister,
    /// The removal is over.
    Failed(ServiceError),
}

/// What the beginning of a creation answers: the identity of the vault.
pub open spec fn begin_workspace_answer(manager: ManagerModel, generation: u64) -> Result<
    VaultId,
    ServiceError,
> {
    if !root_is_usable(manager.data, generation) || manager.vault_id is None {
        Err(ServiceError::Locked)
    } else if workspaces::attempt_answer(manager.workspaces) is Err || workspaces::listed_count(
        manager.workspaces.records,
    ) >= MAX_ACTIVE_WORKSPACES {
        Err(ServiceError::CapacityExceeded)
    } else {
        Ok(manager.vault_id->0)
    }
}

/// The manager after a creation began.
pub open spec fn after_begin_workspace(manager: ManagerModel, generation: u64) -> ManagerModel {
    if begin_workspace_answer(manager, generation) is Ok {
        with_workspaces(manager, workspaces::after_attempt(manager.workspaces))
    } else {
        manager
    }
}

/// What a creation does after the provider answered with the identity and the
/// mode of the workspace that it made.
pub open spec fn created_step(
    manager: ManagerModel,
    creation: CreationModel,
    answer: PortAnswer<Result<([u8; 16], WorkspaceMode), HostPortError>>,
) -> CreateStep {
    match answer {
        PortAnswer::Panicked => CreateStep::RollBack {
            created: false,
            error: ServiceError::CleanupRequired,
        },
        PortAnswer::Returned(Err(error)) => CreateStep::RollBack {
            created: false,
            error: errors::host_failure(error),
        },
        PortAnswer::Returned(Ok((id, mode))) => if creation.id != Some(id) || creation.mode
            != mode {
            CreateStep::RemoveWrong
        } else if !is_current(manager.data, creation.generation) {
            CreateStep::RollBack { created: true, error: ServiceError::Cancelled }
        } else {
            CreateStep::Activate
        },
    }
}

/// What a creation does after the registered workspace was activated, and the
/// token of its record where it is done.
pub open spec fn activated_step(
    manager: ManagerModel,
    creation: CreationModel,
    activated: Result<[u8; 16], RepositoryPortError>,
) -> Result<u64, CreateStep> {
    match activated {
        Err(_) => Err(
            CreateStep::RollBack { created: true, error: ServiceError::CleanupRequired },
        ),
        Ok(id) => if creation.id != Some(id) {
            Err(CreateStep::RemoveMismatched)
        } else if !is_current(manager.data, creation.generation) {
            Err(CreateStep::RollBackActive { error: ServiceError::Cancelled })
        } else {
            match workspaces::list_answer(manager.workspaces, id) {
                Ok(token) => Ok(token),
                Err(ServiceError::Busy) => Err(CreateStep::RemoveRecord),
                Err(error) => Err(CreateStep::RollBackActive { error }),
            }
        },
    }
}

/// The manager after the registered workspace was activated: it is listed, and
/// the attempt is over, in one step with the look at the session. A workspace
/// that cannot be listed leaves no workspace of its identity in the list.
pub open spec fn after_activated(
    manager: ManagerModel,
    creation: CreationModel,
    activated: Result<[u8; 16], RepositoryPortError>,
) -> ManagerModel {
    match activated_step(manager, creation, activated) {
        Ok(_) => after_end(
            with_workspaces(
                manager,
                workspaces::after_list(
                    manager.workspaces,
                    activated->Ok_0,
                    creation.generation,
                    creation.paths,
                ),
            ),
        ),
        Err(CreateStep::RemoveRecord) => with_workspaces(
            manager,
            TableModel {
                records: workspaces::unlisted(manager.workspaces.records, activated->Ok_0),
                ..manager.workspaces
            },
        ),
        Err(_) => manager,
    }
}

/// The manager after a creation was taken back.
pub open spec fn after_rolled_back(manager: ManagerModel, rolled_back: bool) -> ManagerModel {
    if rolled_back {
        after_end(manager)
    } else {
        after_end(after_mark(manager))
    }
}

/// What the beginning of a removal answers.
pub open spec fn begin_remove_answer(
    manager: ManagerModel,
    handle: HandleModel,
    generation: u64,
) -> Result<(), ServiceError> {
    if !owns(manager, handle, generation) || !is_current(manager.data, generation) {
        Err(ServiceError::StaleCapability)
    } else if workspaces::attempt_answer(manager.workspaces) is Err {
        Err(ServiceError::CapacityExceeded)
    } else if workspaces::place_of(manager.workspaces.records, handle.token) is None {
        Err(ServiceError::StaleCapability)
    } else {
        Ok(())
    }
}

/// The manager after a removal began.
pub open spec fn after_begin_remove(
    manager: ManagerModel,
    handle: HandleModel,
    generation: u64,
) -> ManagerModel {
    if begin_remove_answer(manager, handle, generation) is Ok {
        with_workspaces(
            manager,
            workspaces::after_attempt(workspaces::after_take(manager.workspaces, handle.token)),
        )
    } else {
        manager
    }
}

/// What a removal does after the host was asked to remove the workspace.
pub open spec fn removed_step(manager: ManagerModel, removed: bool) -> RemoveStep {
    if !removed {
        RemoveStep::Failed(ServiceError::CleanupRequired)
    } else if manager.data.unlocked is None {
        RemoveStep::Failed(ServiceError::Locked)
    } else {
        RemoveStep::Unregister
    }
}

/// The manager after the host was asked to remove the workspace.
pub open spec fn after_removed(manager: ManagerModel, removed: bool) -> ManagerModel {
    if !removed {
        after_end(after_mark(manager))
    } else if manager.data.unlocked is None {
        after_end(manager)
    } else {
        manager
    }
}

/// What the use of a path for a stable revision answers.
pub open spec fn begin_stable_commit_answer(
    manager: ManagerModel,
    handle: HandleModel,
    path: LogicalPathModel,
) -> Result<(), ServiceError> {
    if !is_current(manager.data, handle.generation) {
        Err(ServiceError::StaleCapability)
    } else {
        workspaces::use_path_answer(manager.workspaces, handle.token, path)
    }
}

/// The manager after the use of a path for a stable revision.
pub open spec fn after_begin_stable_commit(
    manager: ManagerModel,
    handle: HandleModel,
    path: LogicalPathModel,
) -> ManagerModel {
    if !is_current(manager.data, handle.generation) {
        manager
    } else {
        with_workspaces(
            manager,
            workspaces::after_use_path(manager.workspaces, handle.token, path),
        )
    }
}

/// What a stable revision answers after its source was opened.
pub open spec fn source_opened_answer(
    manager: ManagerModel,
    handle: HandleModel,
    opened: PortAnswer<Result<(), HostPortError>>,
) -> Result<(), ServiceError> {
    match opened {
        PortAnswer::Panicked => Err(ServiceError::ExecutorFailed),
        PortAnswer::Returned(Err(error)) => Err(errors::host_failure(error)),
        PortAnswer::Returned(Ok(())) => if is_current(manager.data, handle.generation) {
            Ok(())
        } else {
            Err(ServiceError::StaleCapability)
        },
    }
}

/// Whether a registration may be taken back: the evidence of absence is only
/// ever used for the identity that it was acquired for.
pub fn may_unregister(id: &[u8; 16], registered: &[u8; 16], active: &[u8; 16]) -> (allowed: bool)
    ensures
        allowed == (*registered == *id && *active == *id),
{
    same_bytes(registered, id) && same_bytes(active, id)
}

/// What came of the name of a registered workspace and of the request for it.
pub enum NamedWorkspace {
    /// Memory for its name was refused.
    Unnamed,
    /// It was named, and its request was refused.
    Refused,
    /// It was named, and this is its request.
    Requested(WorkspaceCreateRequest),
}

impl WorkspaceCreation {
    fn is_for(&self, id: &[u8; 16]) -> (same: bool)
        ensures
            same == (self@.id == Some(*id)),
    {
        match &self.id {
            Some(own) => same_bytes(own, id),
            None => false,
        }
    }

    /// The request to the provider for the registered identity.
    fn request(&self, id: WorkspaceId, repository_root: NativePath) -> (request: Result<
        WorkspaceCreateRequest,
        HostPortError,
    >)
        ensures
            match request {
                Ok(request) => paths::is_valid_absolute(repository_root@)
                    && request_contents(request) == (
                    self@.mode,
                    RequestModel {
                        id: id@,
                        vault_id: self@.vault_id,
                        repository_root: repository_root@,
                    },
                ),
                Err(error) => !paths::is_valid_absolute(repository_root@) || error
                    == HostPortError::AllocationFailed && paths::path_refused(repository_root@),
            },
    {
        match self.mode {
            WorkspaceMode::Targeted => match TargetWorkspaceRequest::new(
                id,
                self.vault_id,
                repository_root,
            ) {
                Ok(request) => Ok(WorkspaceCreateRequest::Target(request)),
                Err(error) => Err(error),
            },
            WorkspaceMode::WholeVault => match VaultWorkspaceRequest::new(
                id,
                self.vault_id,
                repository_root,
            ) {
                Ok(request) => Ok(WorkspaceCreateRequest::WholeVault(request)),
                Err(error) => Err(error),
            },
        }
    }
}

impl SessionManager {
    /// Whether this manager issued a handle for a generation.
    pub fn owns_workspace(&self, workspace: &WorkspaceSession, generation: u64) -> (owned: bool)
        ensures
            owned == owns(self@, workspace@, generation),
    {
        workspace.generation == generation && workspace.manager == self.identity
    }

    /// Begins the creation of a workspace. Its registration comes next.
    pub fn begin_workspace(&mut self, generation: u64, mode: WorkspaceMode) -> (creation: Result<
        WorkspaceCreation,
        ServiceError,
    >)
        ensures
            match begin_workspace_answer(old(self)@, generation) {
                Ok(vault_id) => creation is Ok && creation->Ok_0@ == (CreationModel {
                    generation,
                    mode,
                    vault_id,
                    paths: RegistryModel {
                        maximum: MAX_WORKSPACE_PATHS,
                        collision_key_bytes: 0,
                        paths: Map::empty(),
                    },
                    id: None,
                }),
                Err(error) => creation == Err::<WorkspaceCreation, ServiceError>(error),
            },
            final(self)@ == after_begin_workspace(old(self)@, generation),
    {
        if self.check_root(generation).is_err() {
            return Err(ServiceError::Locked);
        }
        let vault_id = match self.vault_id {
            Some(vault_id) => vault_id,
            None => return Err(ServiceError::Locked),
        };
        let paths = match WorkspacePathRegistry::new(MAX_WORKSPACE_PATHS) {
            Ok(paths) => paths,
            Err(error) => return Err(map_host_error(error)),
        };
        if self.workspaces.listed() >= MAX_ACTIVE_WORKSPACES {
            return Err(ServiceError::CapacityExceeded);
        }
        match self.workspaces.begin_attempt() {
            Ok(()) => Ok(WorkspaceCreation { generation, mode, vault_id, paths, id: None }),
            Err(error) => Err(error),
        }
    }

    /// Goes on with a creation after the store was asked to register a workspace:
    /// asks the provider for it. Memory may be refused on the way; a workspace
    /// that was registered and cannot be named requires cleanup.
    pub fn workspace_registered(
        &mut self,
        creation: &mut WorkspaceCreation,
        registered: Result<[u8; 16], RepositoryPortError>,
        repository_root: NativePath,
    ) -> (request: Result<WorkspaceCreateRequest, CreateStep>)
        ensures
            match registered {
                Err(error) => request == Err::<WorkspaceCreateRequest, CreateStep>(
                    CreateStep::Failed(errors::repository_failure(error)),
                ) && final(self)@ == after_end(old(self)@) && final(creation)@ == old(creation)@,
                Ok(id) => match request {
                    Ok(request) => paths::is_valid_absolute(repository_root@)
                        && request_contents(request) == (
                        old(creation)@.mode,
                        RequestModel {
                            id,
                            vault_id: old(creation)@.vault_id,
                            repository_root: repository_root@,
                        },
                    ) && final(self)@ == old(self)@ && final(creation)@ == (CreationModel {
                        id: Some(id),
                        ..old(creation)@
                    }),
                    Err(CreateStep::RollBack { created, error }) => !created && error
                        == ServiceError::ExecutorFailed && (!paths::is_valid_absolute(
                        repository_root@,
                    ) || paths::path_refused(repository_root@)) && final(self)@ == old(self)@
                        && final(creation)@ == (CreationModel { id: Some(id), ..old(creation)@ }),
                    Err(step) => step == CreateStep::Failed(ServiceError::CleanupRequired)
                        && memory::string_refused(32) && final(self)@ == after_end(after_mark(old(self)@))
                        && final(creation)@ == old(creation)@,
                },
            },
    {
        let bytes = match registered {
            Ok(bytes) => bytes,
            Err(error) => {
                self.workspaces.end_attempt();
                return Err(CreateStep::Failed(map_repository_error(error)));
            },
        };
        let named = match WorkspaceId::from_store(bytes) {
            Ok(id) => match creation.request(id, repository_root) {
                Ok(request) => NamedWorkspace::Requested(request),
                Err(_) => NamedWorkspace::Refused,
            },
            Err(_) => NamedWorkspace::Unnamed,
        };
        self.workspace_named(creation, bytes, named)
    }

    /// Goes on with a creation after the registered workspace was named and its
    /// request was made, or one of them was refused.
    pub fn workspace_named(
        &mut self,
        creation: &mut WorkspaceCreation,
        id: [u8; 16],
        named: NamedWorkspace,
    ) -> (request: Result<WorkspaceCreateRequest, CreateStep>)
        ensures
            match named {
                NamedWorkspace::Unnamed => request == Err::<WorkspaceCreateRequest, CreateStep>(
                    CreateStep::Failed(ServiceError::CleanupRequired),
                ) && final(self)@ == after_end(after_mark(old(self)@)) && final(creation)@ == old(
                    creation,
                )@,
                NamedWorkspace::Refused => request == Err::<WorkspaceCreateRequest, CreateStep>(
                    CreateStep::RollBack { created: false, error: ServiceError::ExecutorFailed },
                ) && final(self)@ == old(self)@ && final(creation)@ == (CreationModel {
                    id: Some(id),
                    ..old(creation)@
                }),
                NamedWorkspace::Requested(wanted) => request == Ok::<
                    WorkspaceCreateRequest,
                    CreateStep,
                >(wanted) && final(self)@ == old(self)@ && final(creation)@ == (CreationModel {
                    id: Some(id),
                    ..old(creation)@
                }),
            },
    {
        match named {
            NamedWorkspace::Unnamed => {
                self.mark_cleanup_required();
                self.workspaces.end_attempt();
                Err(CreateStep::Failed(ServiceError::CleanupRequired))
            },
            NamedWorkspace::Refused => {
                creation.id = Some(id);
                Err(CreateStep::RollBack { created: false, error: ServiceError::ExecutorFailed })
            },
            NamedWorkspace::Requested(request) => {
                creation.id = Some(id);
                Ok(request)
            },
        }
    }

    /// Goes on with a creation after the provider answered.
    pub fn workspace_created(
        &self,
        creation: &WorkspaceCreation,
        answer: PortAnswer<Result<([u8; 16], WorkspaceMode), HostPortError>>,
    ) -> (step: CreateStep)
        ensures
            step == created_step(self@, creation@, answer),
    {
        let (id, mode) = match answer {
            PortAnswer::Panicked => return CreateStep::RollBack {
                created: false,
                error: ServiceError::CleanupRequired,
            },
            PortAnswer::Returned(Err(error)) => return CreateStep::RollBack {
                created: false,
                error: map_host_error(error),
            },
            PortAnswer::Returned(Ok(made)) => made,
        };
        if !creation.is_for(&id) || creation.mode != mode {
            return CreateStep::RemoveWrong;
        }
        if !self.is_current(creation.generation) {
            return CreateStep::RollBack { created: true, error: ServiceError::Cancelled };
        }
        CreateStep::Activate
    }

    /// Ends a creation after the registered workspace was activated.
    pub fn workspace_activated(
        &mut self,
        creation: WorkspaceCreation,
        activated: Result<[u8; 16], RepositoryPortError>,
    ) -> (created: Result<WorkspaceSession, CreateStep>)
        ensures
            match activated_step(old(self)@, creation@, activated) {
                Ok(token) => created is Ok && created->Ok_0@ == (HandleModel {
                    manager: old(self)@.identity,
                    token,
                    generation: creation@.generation,
                }),
                Err(step) => created == Err::<WorkspaceSession, CreateStep>(step),
            },
            final(self)@ == after_activated(old(self)@, creation@, activated),
    {
        let id = match activated {
            Ok(id) => id,
            Err(_) => return Err(
                CreateStep::RollBack { created: true, error: ServiceError::CleanupRequired },
            ),
        };
        if !creation.is_for(&id) {
            return Err(CreateStep::RemoveMismatched);
        }
        let generation: u64 = creation.generation;
        if !self.is_current(generation) {
            return Err(CreateStep::RollBackActive { error: ServiceError::Cancelled });
        }
        match self.workspaces.list(id, generation, creation.paths) {
            Ok(token) => {
                self.workspaces.end_attempt();
                Ok(WorkspaceSession { manager: self.identity, token, generation })
            },
            Err(ServiceError::Busy) => {
                self.workspaces.unlist(&id);
                Err(CreateStep::RemoveRecord)
            },
            Err(error) => Err(CreateStep::RollBackActive { error }),
        }
    }

    /// Ends a creation that was taken back, or could not be.
    pub fn creation_rolled_back(&mut self, error: ServiceError, rolled_back: bool) -> (failure:
        ServiceError)
        ensures
            failure == if rolled_back {
                error
            } else {
                ServiceError::CleanupRequired
            },
            final(self)@ == after_rolled_back(old(self)@, rolled_back),
    {
        let failure = if rolled_back {
            error
        } else {
            self.mark_cleanup_required();
            ServiceError::CleanupRequired
        };
        self.workspaces.end_attempt();
        failure
    }

    /// Begins the removal of a workspace. The host removes it next.
    pub fn begin_remove_workspace(&mut self, workspace: WorkspaceSession, generation: u64) -> (begun:
        Result<(), ServiceError>)
        ensures
            begun == begin_remove_answer(old(self)@, workspace@, generation),
            final(self)@ == after_begin_remove(old(self)@, workspace@, generation),
    {
        if !self.owns_workspace(&workspace, generation) || !self.is_current(generation) {
            return Err(ServiceError::StaleCapability);
        }
        if self.workspaces.attempts() >= MAX_ACTIVE_WORKSPACES {
            return Err(ServiceError::CapacityExceeded);
        }
        if !self.workspaces.take(workspace.token) {
            return Err(ServiceError::StaleCapability);
        }
        self.workspaces.begin_attempt()
    }

    /// Goes on with a removal after the host was asked to remove the workspace.
    pub fn workspace_removed(&mut self, removed: bool) -> (step: RemoveStep)
        ensures
            step == removed_step(old(self)@, removed),
            final(self)@ == after_removed(old(self)@, removed),
    {
        if !removed {
            self.mark_cleanup_required();
            self.workspaces.end_attempt();
            return RemoveStep::Failed(ServiceError::CleanupRequired);
        }
        if !self.data.holds_root() {
            self.workspaces.end_attempt();
            return RemoveStep::Failed(ServiceError::Locked);
        }
        RemoveStep::Unregister
    }

    /// Ends a removal after the store was asked to unregister the workspace.
    /// `outcome` is what the caller learns where all went well: nothing of a
    /// removal that was asked for, a failure of a creation that was in the way.
    pub fn workspace_unregistered(
        &mut self,
        unregistered: bool,
        outcome: Result<(), ServiceError>,
    ) -> (finished: Result<(), ServiceError>)
        ensures
            finished == if unregistered {
                outcome
            } else {
                Err(ServiceError::CleanupRequired)
            },
            final(self)@ == after_rolled_back(old(self)@, unregistered),
    {
        if unregistered {
            self.workspaces.end_attempt();
            outcome
        } else {
            self.mark_cleanup_required();
            self.workspaces.end_attempt();
            Err(ServiceError::CleanupRequired)
        }
    }

    /// The next workspace that a lock has to remove. It is off the list at once.
    pub fn take_tracked_workspace(&mut self) -> (token: Option<u64>)
        ensures
            match workspaces::first_listed(old(self)@.workspaces.records) {
                Some(index) => token == Some(old(self)@.workspaces.records[index].token)
                    && final(self)@ == with_workspaces(
                    old(self)@,
                    workspaces::after_take(
                        old(self)@.workspaces,
                        old(self)@.workspaces.records[index].token,
                    ),
                ),
                None => token is None && final(self)@ == old(self)@,
            },
    {
        match self.workspaces.first_listed() {
            Some(token) => {
                self.workspaces.take(token);
                Some(token)
            },
            None => None,
        }
    }

    /// Registers the path of a stable revision in its workspace. Memory for the
    /// path may be refused, and then nothing changes.
    pub fn begin_stable_commit(
        &mut self,
        workspace: &WorkspaceSession,
        path: &LogicalWorkspacePath,
    ) -> (begun: Result<(), ServiceError>)
        ensures
            begun == begin_stable_commit_answer(old(self)@, workspace@, path@) && final(self)@
                == after_begin_stable_commit(old(self)@, workspace@, path@)
                || begin_stable_commit_answer(old(self)@, workspace@, path@) is Ok
                && workspaces::path_use_refused(
                old(self)@.workspaces,
                workspace@.token,
                path@,
            ) && begun == Err::<(), ServiceError>(ServiceError::AllocationFailed) && final(self)@
                == old(self)@,
    {
        if !self.is_current(workspace.generation) {
            return Err(ServiceError::StaleCapability);
        }
        self.workspaces.use_path(workspace.token, path)
    }

    /// Decides about a stable revision after its source was opened.
    pub fn stable_source_opened(
        &self,
        workspace: &WorkspaceSession,
        opened: PortAnswer<Result<(), HostPortError>>,
    ) -> (answer: Result<(), ServiceError>)
        ensures
            answer == source_opened_answer(self@, workspace@, opened),
    {
        match opened {
            PortAnswer::Panicked => Err(ServiceError::ExecutorFailed),
            PortAnswer::Returned(Err(error)) => Err(map_host_error(error)),
            PortAnswer::Returned(Ok(())) => if self.is_current(workspace.generation) {
                Ok(())
            } else {
                Err(ServiceError::StaleCapability)
            },
        }
    }
}

} // verus!
