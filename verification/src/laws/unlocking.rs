//! Laws of a session from one lock to the next: what an unlock, an activity, a look at
//! the clock, a lock and its cleanup come to.
use vstd::prelude::*;

use crate::error::ServiceError;
use crate::session::data;
use crate::session::data::{RepositoryAnswer, SessionModel, UnlockAttempt, UnlockStep};
use crate::session::manager;
use crate::session::manager::ManagerModel;
use crate::session::{PolicyModel, SessionState, SessionSummary, VaultId};
use crate::time;
use crate::time::Duration;

verus! {

/// A session that is locked and that nobody unlocks.
pub open spec fn rests_locked(session: SessionModel) -> bool {
    &&& session.state is Locked
    &&& session.unlock_attempt is None
    &&& !session.cleanup_required
}

/// The later of two instants.
pub open spec fn later_of(one: nat, other: nat) -> nat {
    if one <= other {
        other
    } else {
        one
    }
}

/// A session is open in a generation, from an instant on, for the times of a policy.
pub open spec fn is_open_from(
    session: SessionModel,
    policy: PolicyModel,
    generation: u64,
    now: nat,
) -> bool {
    &&& session.state is Unlocked
    &&& session.epoch == generation
    &&& session.unlocked == Some(generation)
    &&& session.inactivity_deadline == Some(now + policy.inactivity_timeout@)
    &&& session.absolute_deadline == Some(now + policy.absolute_timeout@)
    &&& session.inactivity_warnings == 0
    &&& session.absolute_warnings == 0
    &&& !session.expired
}

/// An unlock begins exactly in a session that is locked, that nobody unlocks, and that
/// has generations left. It opens the generation after the last one, and nothing else
/// of the session changes but that the unlock owns its cleanup.
pub proof fn law_a_locked_session_can_be_unlocked(session: SessionModel)
    ensures
        data::begin_unlock_answer(session) is Ok <==> session.state is Locked
            && session.unlock_attempt is None && session.epoch < u64::MAX,
        data::begin_unlock_answer(session) is Ok ==> data::begin_unlock_answer(session)->Ok_0
            == session.epoch + 1,
        data::begin_unlock_answer(session) is Err && !(session.state is Locked
            && session.unlock_attempt is None) ==> data::begin_unlock_answer(session)->Err_0
            == ServiceError::Locked,
        data::begin_unlock_answer(session) is Err && session.state is Locked
            && session.unlock_attempt is None ==> data::begin_unlock_answer(session)->Err_0
            == ServiceError::IdentifierExhausted,
        data::begin_unlock_answer(session) is Err ==> data::after_begin_unlock(session) == session,
        data::begin_unlock_answer(session) is Ok ==> data::after_begin_unlock(session) == (
        SessionModel {
            epoch: data::begin_unlock_answer(session)->Ok_0,
            unlock_attempt: Some(
                UnlockAttempt {
                    generation: data::begin_unlock_answer(session)->Ok_0,
                    cancelled: false,
                },
            ),
            cleanup_owner: true,
            ..session
        }),
{
}

/// An unlock of a locked session whose start is cleaned, and whose repository, root,
/// workspaces, vault and clock all answer, comes to an open session: its summary names
/// the vault and the generation after the last one; it expires the inactivity timeout
/// after the sampled instant, and at the latest the absolute timeout after it.
pub proof fn law_an_unlock_opens_the_session(
    session: SessionModel,
    policy: PolicyModel,
    vault_id: VaultId,
    now: Duration,
)
    requires
        rests_locked(session),
        session.epoch < u64::MAX,
        now@ + policy.inactivity_timeout@ <= time::MAX_DURATION_NANOS,
        now@ + policy.absolute_timeout@ <= time::MAX_DURATION_NANOS,
    ensures
        ({
            let generation = (session.epoch + 1) as u64;
            let begun = data::after_begin_unlock(session);
            let (cleaned, one) = data::startup_cleaned_step(begun, true);
            let (unlocked, two) = data::repository_step(
                cleaned,
                generation,
                RepositoryAnswer::Unlocked,
            );
            let (wrapped, three) = data::wrapped_step(unlocked, generation, true);
            let (reconciled, four) = data::reconciled_step(wrapped, generation, true);
            let (identified, five) = data::identified_step(reconciled, generation, true);
            let (opened, six) = data::sampled_step(
                identified,
                policy,
                generation,
                vault_id,
                Ok(now),
            );
            &&& begun.state is Locked && cleaned.state is Unlocking && identified.state is Unlocking
            &&& one is UnlockRepository
            &&& two is WrapRoot
            &&& three is Reconcile
            &&& four is ReadVaultId
            &&& five is SampleClock
            &&& six matches UnlockStep::Done(Ok(summary)) && (forall|shown: VaultId|
                #[trigger] call_ensures(SessionSummary::vault_id, (&summary,), shown) ==> shown
                    == vault_id) && (forall|shown: u64|
                #[trigger] call_ensures(SessionSummary::generation, (&summary,), shown) ==> shown
                    == generation)
            &&& is_open_from(opened, policy, generation, now@)
            &&& opened.unlock_attempt is None && opened.provisional_unlock is None
            &&& !opened.cleanup_owner && !opened.cleanup_required
            &&& opened.last_observed == later_of(session.last_observed, now@)
        }),
{
}

/// A session that opened at an instant is not expired at that instant, nor at any
/// instant less than both timeouts later: a look at the clock finds it alive, and an
/// activity then is recorded and puts the end of inactivity its timeout after it,
/// while the absolute end stays. From either deadline on it is expired, and an
/// activity is refused as locked.
pub proof fn law_an_open_session_lives_until_its_deadlines(
    session: SessionModel,
    policy: PolicyModel,
    generation: u64,
    opened: nat,
    now: nat,
)
    requires
        is_open_from(session, policy, generation, opened),
        session.last_observed <= now,
        opened <= now,
    ensures
        now < opened + policy.inactivity_timeout@ && now < opened + policy.absolute_timeout@ ==> {
            let active = data::after_activity(session, policy, now);
            &&& !data::observed(session, policy, now).expired
            &&& !data::after_observation(session, policy, now).expired
            &&& data::after_observation(session, policy, now).state is Unlocked
            &&& now + policy.inactivity_timeout@ <= time::MAX_DURATION_NANOS ==> {
                &&& data::activity_answer(session, policy, now) is Ok
                &&& active.inactivity_deadline == Some(now + policy.inactivity_timeout@)
                &&& active.inactivity_warnings == 0
                &&& active == (SessionModel {
                    inactivity_deadline: active.inactivity_deadline,
                    inactivity_warnings: 0,
                    last_observed: now,
                    ..session
                })
            }
            &&& now + policy.inactivity_timeout@ > time::MAX_DURATION_NANOS ==> {
                &&& data::activity_answer(session, policy, now) == Err::<(), ServiceError>(
                    ServiceError::ClockFailure,
                )
                &&& active == (SessionModel { last_observed: now, ..session })
            }
        },
        now >= opened + policy.inactivity_timeout@ || now >= opened + policy.absolute_timeout@ ==> {
            &&& data::observed(session, policy, now).expired
            &&& data::after_observation(session, policy, now) == (SessionModel {
                expired: true,
                last_observed: now,
                ..session
            })
            &&& data::activity_answer(session, policy, now) == Err::<(), ServiceError>(
                ServiceError::Locked,
            )
            &&& data::after_activity(session, policy, now) == (SessionModel {
                expired: true,
                last_observed: now,
                ..session
            })
        },
{
}

/// A session that just opened is not expired at the instant of its opening, whatever
/// positive timeouts its policy has.
pub proof fn law_an_unlock_never_opens_an_expired_session(
    session: SessionModel,
    policy: PolicyModel,
    generation: u64,
    vault_id: VaultId,
    now: Duration,
    then: nat,
)
    requires
        session.state is Unlocking,
        session.last_observed <= now@,
        data::sampled_step(session, policy, generation, vault_id, Ok(now)).0.state is Unlocked,
        now@ <= then < now@ + policy.inactivity_timeout@,
        then < now@ + policy.absolute_timeout@,
    ensures
        ({
            let opened = data::sampled_step(session, policy, generation, vault_id, Ok(now)).0;
            &&& !data::is_expired(opened, then)
            &&& !data::observed(opened, policy, then).expired
            &&& data::is_expired(opened, now@ + policy.inactivity_timeout@)
            &&& data::is_expired(opened, now@ + policy.absolute_timeout@)
        }),
{
}

/// A session is expired at an instant exactly where it was found expired before, or
/// one of its deadlines is not later than the instant; a session that is not open is
/// never found expired, and no activity is recorded in it.
pub proof fn law_a_session_expires_at_its_first_deadline(
    session: SessionModel,
    policy: PolicyModel,
    now: nat,
)
    ensures
        ({
            let seen = later_of(session.last_observed, now);
            &&& data::observed(session, policy, now).expired <==> session.state is Unlocked && (
            session.expired || (session.inactivity_deadline is Some
                && session.inactivity_deadline->0 <= seen) || (session.absolute_deadline is Some
                && session.absolute_deadline->0 <= seen))
            &&& data::after_observation(session, policy, now).last_observed == seen
            &&& data::after_activity(session, policy, now).last_observed == seen
            &&& !(session.state is Unlocked) ==> data::activity_answer(session, policy, now)
                == Err::<(), ServiceError>(ServiceError::Locked)
            &&& !(session.state is Unlocked) ==> data::after_activity(session, policy, now) == (
            SessionModel { last_observed: seen, ..session }) && data::after_observation(
                session,
                policy,
                now,
            ) == (SessionModel { last_observed: seen, ..session })
        }),
{
}

/// A clock whose deadlines do not fit, or that fails, opens nothing: the provisional
/// root is closed, and the unlock reports the failure of the clock.
pub proof fn law_a_clock_that_fails_opens_nothing(
    session: SessionModel,
    policy: PolicyModel,
    generation: u64,
    vault_id: VaultId,
    sampled: Result<Duration, ServiceError>,
)
    requires
        session.epoch == generation,
        session.unlock_attempt == Some(UnlockAttempt { generation, cancelled: false }),
        !session.cleanup_required,
        session.provisional_unlock == Some(generation),
        sampled is Ok ==> sampled->Ok_0@ + policy.inactivity_timeout@ > time::MAX_DURATION_NANOS
            || sampled->Ok_0@ + policy.absolute_timeout@ > time::MAX_DURATION_NANOS,
    ensures
        ({
            let (after, step) = data::sampled_step(session, policy, generation, vault_id, sampled);
            let error = if sampled is Err {
                sampled->Err_0
            } else {
                ServiceError::ClockFailure
            };
            &&& step == (UnlockStep::CloseRoot { latch: false, error })
            &&& after.state is Locking && after.unlocked == session.unlocked
            &&& after.unlock_attempt is None && after.provisional_unlock is None
        }),
{
}

/// A stopped unlock opens nothing at any of its steps, whatever the step answered:
/// what was handed out is closed, and the unlock reports that it was cancelled, or
/// that cleanup is to be done.
pub proof fn law_a_stopped_unlock_opens_nothing(
    session: SessionModel,
    policy: PolicyModel,
    generation: u64,
    vault_id: VaultId,
    answer: RepositoryAnswer,
    sampled: Result<Duration, ServiceError>,
)
    requires
        session.unlock_attempt is Some,
        session.unlock_attempt->0.cancelled,
    ensures
        ({
            let error = if session.cleanup_required {
                ServiceError::CleanupRequired
            } else {
                ServiceError::Cancelled
            };
            let (start, one) = data::startup_cleaned_step(session, true);
            let (repository, two) = data::repository_step(session, generation, answer);
            let (wrapped, three) = data::wrapped_step(session, generation, true);
            let (opened, four) = data::sampled_step(session, policy, generation, vault_id, sampled);
            &&& one == UnlockStep::Done(Err(error)) && start.unlock_attempt is None
                && !start.cleanup_owner
            &&& session.cleanup_required ==> start.state is CleanupRequired
            &&& !session.cleanup_required ==> start.state is Locked
            &&& answer is Unlocked ==> two == (UnlockStep::CloseRoot { latch: false, error })
            &&& !(answer is Unlocked) ==> two == (UnlockStep::CleanBase { error })
            &&& repository.state is Locking && repository.unlock_attempt is None
            &&& three == (UnlockStep::CloseRoot { latch: false, error: ServiceError::Cancelled })
            &&& wrapped.state is Locking && wrapped.unlock_attempt is None
            &&& session.provisional_unlock == Some(generation) ==> four == (UnlockStep::CloseRoot {
                latch: false,
                error,
            }) && opened.state is Locking && opened.provisional_unlock is None
            &&& session.provisional_unlock != Some(generation) ==> four == UnlockStep::Done(
                Err(error),
            ) && opened.state == session.state
            &&& opened.unlock_attempt is None
        }),
{
}

/// What fails in an unlock is what the unlock reports: a start that cannot be cleaned
/// asks for cleanup; a repository that refuses leaves the session locked, or asks for
/// cleanup where it does; a repository that panics, a root without a handle, workspaces
/// or a vault that do not answer ask for cleanup.
pub proof fn law_a_failed_unlock_reports_its_failure(
    session: SessionModel,
    generation: u64,
    error: ServiceError,
    clean: bool,
    close_failed: bool,
)
    requires
        session.epoch == generation,
        session.unlock_attempt == Some(UnlockAttempt { generation, cancelled: false }),
        !session.cleanup_required,
        session.state is Unlocking,
    ensures
        ({
            let (after, step) = data::startup_cleaned_step(session, false);
            &&& step == UnlockStep::Done(Err(ServiceError::CleanupRequired))
            &&& after.state is CleanupRequired && after.unlock_attempt is None
                && !after.cleanup_owner
        }),
        ({
            let (after, step) = data::repository_step(
                session,
                generation,
                RepositoryAnswer::Failed(error),
            );
            &&& step == UnlockStep::Done(Err(error))
            &&& after.unlock_attempt is None && !after.cleanup_owner
            &&& error is CleanupRequired ==> after.state is CleanupRequired
                && after.cleanup_required
            &&& !(error is CleanupRequired) ==> after.state is Locked && !after.cleanup_required
        }),
        ({
            let (after, step) = data::repository_step(
                session,
                generation,
                RepositoryAnswer::Panicked,
            );
            &&& step == (UnlockStep::CleanBase { error: ServiceError::CleanupRequired })
            &&& after.cleanup_required && after.unlock_attempt is None
            &&& data::after_given_up_cleanup(after, clean).state is CleanupRequired
            &&& !data::after_given_up_cleanup(after, clean).cleanup_owner
        }),
        data::wrapped_step(session, generation, false) == (session, UnlockStep::CloseUnwrapped),
        ({
            let closed = data::after_unwrapped_closed(session);
            &&& closed.cleanup_required && closed.unlock_attempt is None
            &&& data::after_given_up_cleanup(closed, clean).state is CleanupRequired
        }),
        session.provisional_unlock == Some(generation) ==> {
            let (after, step) = data::reconciled_step(session, generation, false);
            &&& step == (UnlockStep::CloseRoot {
                latch: true,
                error: ServiceError::CleanupRequired,
            })
            &&& data::identified_step(session, generation, false) == (after, step)
            &&& after.state is Locking && after.unlock_attempt is None
                && after.provisional_unlock is None
            &&& data::after_root_closed(after, true, close_failed).cleanup_required
            &&& data::after_given_up_cleanup(
                data::after_root_closed(after, true, close_failed),
                clean,
            ).state is CleanupRequired
        },
        session.provisional_unlock != Some(generation) ==> {
            let (after, step) = data::reconciled_step(session, generation, false);
            &&& step == UnlockStep::Done(Err(ServiceError::CleanupRequired))
            &&& data::identified_step(session, generation, false) == (after, step)
            &&& after.cleanup_required && after.unlock_attempt is None
        },
{
}

/// A root that was given up leaves the session locked exactly where it closed, its
/// base was cleaned, and nothing asked for cleanup; the cleanup has no owner then.
pub proof fn law_a_given_up_root_leaves_the_session_locked(
    session: SessionModel,
    close_failed: bool,
    clean: bool,
)
    requires
        session.state is Locking,
    ensures
        ({
            let closed = data::after_root_closed(session, false, close_failed);
            let rested = data::after_given_up_cleanup(closed, clean);
            &&& rested.state is Locked <==> !close_failed && clean && !session.cleanup_required
            &&& !(rested.state is Locked) ==> rested.state is CleanupRequired
            &&& !rested.cleanup_owner
            &&& closed.cleanup_required <==> close_failed || session.cleanup_required
            &&& rested.cleanup_required == closed.cleanup_required
            &&& rested.epoch == session.epoch && rested.unlocked == session.unlocked
        }),
{
}

/// A lock of an open session takes its root and ends it: no deadline and no warning
/// is left, the lock owns the cleanup, and nothing can be unlocked until that is over.
/// A lock of a session that is being unlocked stops the unlock and takes its root. In
/// any other state a lock only stops an unlock.
pub proof fn law_a_lock_ends_the_session(session: SessionModel)
    ensures
        ({
            let locked = data::after_begin_lock(session);
            let stopped = match session.unlock_attempt {
                Some(attempt) => Some(
                    UnlockAttempt { generation: attempt.generation, cancelled: true },
                ),
                None => None,
            };
            &&& session.state is Unlocked ==> locked == (SessionModel {
                state: SessionState::Locking,
                cleanup_owner: true,
                inactivity_deadline: None,
                absolute_deadline: None,
                inactivity_warnings: 0,
                absolute_warnings: 0,
                expired: false,
                unlocked: None,
                unlock_attempt: stopped,
                ..session
            }) && data::lock_takes(session) == session.unlocked
            &&& session.state is Unlocking ==> locked == (SessionModel {
                state: SessionState::Locking,
                cleanup_owner: true,
                provisional_unlock: None,
                unlock_attempt: stopped,
                ..session
            }) && data::lock_takes(session) == session.provisional_unlock
            &&& !(session.state is Unlocked || session.state is Unlocking) ==> locked == (
            SessionModel { unlock_attempt: stopped, ..session }) && data::lock_takes(
                session,
            ) is None
            &&& data::begin_unlock_answer(locked) is Ok ==> session.state is Locked
                && session.unlock_attempt is None
        }),
{
}

/// Cleanup that becomes required stops an unlock; an open session stays open until it
/// is locked, and any other asks for cleanup at once.
pub proof fn law_required_cleanup_stops_an_unlock(session: SessionModel)
    ensures
        ({
            let marked = data::after_cleanup_required(session);
            &&& marked.cleanup_required
            &&& session.state is Unlocked ==> marked.state is Unlocked
            &&& !(session.state is Unlocked) ==> marked.state is CleanupRequired
            &&& session.unlock_attempt is Some ==> marked.unlock_attempt == Some(
                UnlockAttempt {
                    generation: session.unlock_attempt->0.generation,
                    cancelled: true,
                },
            )
            &&& session.unlock_attempt is None ==> marked.unlock_attempt is None
            &&& marked == (SessionModel {
                cleanup_required: true,
                state: marked.state,
                unlock_attempt: marked.unlock_attempt,
                ..session
            })
        }),
{
}

/// A lock that owns the cleanup of a root settles it: it fails where the root did not
/// close, an editor lives on or a workspace is still worked on; the session then asks
/// for cleanup, and is locked where nothing did. A lock without a root, or one that
/// does not own the cleanup, settles nothing.
pub proof fn law_a_lock_settles_its_cleanup(
    session: ManagerModel,
    root_was_present: bool,
    close_failed: bool,
    editors_quiescent: bool,
    failed: bool,
)
    ensures
        manager::lock_cleanup(session, root_was_present, close_failed, editors_quiescent) is Some
            <==> session.data.cleanup_owner && root_was_present,
        session.data.cleanup_owner && root_was_present ==> (manager::lock_cleanup(
            session,
            root_was_present,
            close_failed,
            editors_quiescent,
        ) == Some(false) <==> !close_failed && editors_quiescent && session.workspaces.attempts
            == 0),
        ({
            let rested = manager::after_lock_cleanup(session, failed);
            &&& rested.data.state is Locked <==> !failed && !session.data.cleanup_required
            &&& !(rested.data.state is Locked) ==> rested.data.state is CleanupRequired
            &&& !rested.data.cleanup_owner
            &&& rested == (ManagerModel {
                data: SessionModel {
                    state: rested.data.state,
                    cleanup_owner: false,
                    ..session.data
                },
                ..session
            })
        }),
{
}

/// Cleanup can be retried exactly in a session that asks for it, that nobody unlocks,
/// whose cleanup nobody owns and none of whose workspaces is worked on. A retry that
/// leaves nothing locks the session, and one that leaves something asks again.
pub proof fn law_required_cleanup_can_be_retried(session: ManagerModel, clean: bool)
    ensures
        ({
            let answer = manager::retry_answer(session);
            let begun = manager::after_begin_retry(session);
            let ended = data::after_retry(begun.data, clean);
            &&& answer is Ok <==> session.data.state is CleanupRequired
                && session.data.unlock_attempt is None && !session.data.cleanup_owner
                && session.workspaces.attempts == 0
            &&& !(session.data.state is CleanupRequired) ==> answer == Err::<(), ServiceError>(
                ServiceError::Locked,
            )
            &&& session.data.state is CleanupRequired && answer is Err ==> answer == Err::<
                (),
                ServiceError,
            >(ServiceError::Busy)
            &&& answer is Err ==> begun == session
            &&& answer is Ok ==> {
                &&& begun == (ManagerModel {
                    data: SessionModel {
                        state: SessionState::Locking,
                        cleanup_owner: true,
                        ..session.data
                    },
                    ..session
                })
                &&& clean ==> ended.state is Locked && !ended.cleanup_required
                &&& !clean ==> ended.state is CleanupRequired && ended.cleanup_required
                    == session.data.cleanup_required
                &&& !ended.cleanup_owner
            }
        }),
{
}

/// A session that was cleaned, or locked without a failure, can be unlocked again.
pub proof fn law_a_cleaned_session_can_be_unlocked_again(session: ManagerModel)
    requires
        session.data.epoch < u64::MAX,
        session.data.unlock_attempt is None,
    ensures
        data::begin_unlock_answer(data::after_retry(session.data, true)) is Ok,
        !session.data.cleanup_required ==> data::begin_unlock_answer(
            manager::after_lock_cleanup(session, false).data,
        ) is Ok,
        data::begin_unlock_answer(data::after_retry(session.data, false)) == Err::<
            u64,
            ServiceError,
        >(ServiceError::Locked),
        data::begin_unlock_answer(manager::after_lock_cleanup(session, true).data) == Err::<
            u64,
            ServiceError,
        >(ServiceError::Locked),
{
}

/// What an unlock of a session makes known is its vault, and only once it opened.
pub proof fn law_an_open_session_knows_its_vault(
    session: ManagerModel,
    generation: u64,
    vault_id: VaultId,
    sampled: Result<Duration, ServiceError>,
)
    ensures
        ({
            let after = manager::after_sampled(session, generation, vault_id, sampled);
            let (sampled_data, step) = data::sampled_step(
                session.data,
                session.policy,
                generation,
                vault_id,
                sampled,
            );
            &&& after.data == sampled_data
            &&& step is Done && step->Done_0 is Ok ==> after.vault_id == Some(vault_id)
                && after.data.state is Unlocked
            &&& !(step is Done && step->Done_0 is Ok) ==> after.vault_id == session.vault_id
            &&& after == (ManagerModel {
                data: after.data,
                vault_id: after.vault_id,
                ..session
            })
        }),
{
}

} // verus!
