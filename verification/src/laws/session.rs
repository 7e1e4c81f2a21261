//! Laws of the session: unlock, lock, deadlines and warnings.
use vstd::prelude::*;

use crate::error::ServiceError;
use crate::session;
use crate::session::data;
use crate::session::data::{DueWarning, RepositoryAnswer, SessionModel, UnlockStep};
use crate::session::errors::PortAnswer;
use crate::session::manager;
use crate::session::manager::ManagerModel;
use crate::session::{PolicyModel, SessionDeadlineKind, VaultId};
use crate::time::Duration;

verus! {

/// A session that was never unlocked is well formed, and every look at the
/// clock, every activity, every lock and every requirement of cleanup keeps a
/// session well formed.
pub proof fn law_session_invariant_is_kept(data: SessionModel, policy: PolicyModel, now: nat)
    requires
        data::session_wf(data),
    ensures
        data::session_wf(data::locked_session(now)),
        data::session_wf(data::after_sample_seen(data, now)),
        data::session_wf(data::after_activity(data, policy, now)),
        data::session_wf(data::after_observation(data, policy, now)),
        data::session_wf(data::after_refused_observation(data, now)),
        data::session_wf(data::after_cleanup_required(data)),
        data::session_wf(data::after_begin_unlock(data)),
        data::session_wf(data::after_begin_lock(data)),
{
}

/// Whether an unlock is under way for a generation.
pub open spec fn unlock_is_under_way(data: SessionModel, generation: u64) -> bool {
    data.unlock_attempt is Some && data.unlock_attempt->0.generation == generation
}

/// Every step of the unlock that is under way keeps the session well formed. The
/// steps before the root is provisional find no provisional root.
pub proof fn law_unlock_keeps_the_session_invariant(
    data: SessionModel,
    policy: PolicyModel,
    generation: u64,
    vault_id: VaultId,
    answer: RepositoryAnswer,
    succeeded: bool,
    sampled: Result<Duration, ServiceError>,
)
    requires
        data::session_wf(data),
        unlock_is_under_way(data, generation),
    ensures
        data.provisional_unlock is None ==> {
            &&& data::session_wf(data::startup_cleaned_step(data, succeeded).0)
            &&& data::session_wf(data::repository_step(data, generation, answer).0)
            &&& data::session_wf(data::wrapped_step(data, generation, succeeded).0)
            &&& data::session_wf(data::after_unwrapped_closed(data))
        },
        data::session_wf(data::reconciled_step(data, generation, succeeded).0),
        data::session_wf(data::identified_step(data, generation, succeeded).0),
        data::session_wf(data::sampled_step(data, policy, generation, vault_id, sampled).0),
{
}

/// The cleanup that ends an unlock, a lock or a retry leaves a well-formed
/// session at rest.
pub proof fn law_cleanup_keeps_the_session_invariant(data: SessionModel, latch: bool, clean: bool)
    requires
        data::session_wf(data),
        !(data.state is Unlocked),
    ensures
        data::session_wf(data::after_root_closed(data, latch, clean)),
        data::session_wf(data::after_given_up_cleanup(data, clean)),
        data::session_wf(data::after_retry(data, clean)),
        !(data::after_retry(data, clean).state is Unlocked),
{
}

/// An unlock opens the session only as its own live attempt, with the root that
/// it made provisional, and then for the generation that it began with.
pub proof fn law_only_a_live_attempt_opens_the_session(
    data: SessionModel,
    policy: PolicyModel,
    generation: u64,
    vault_id: VaultId,
    sampled: Result<Duration, ServiceError>,
)
    ensures
        ({
            let (opened, step) = data::sampled_step(data, policy, generation, vault_id, sampled);
            (step matches UnlockStep::Done(Ok(_))) <==> (data::attempt_is_live(data, generation)
                && data::holds_provisional(data, generation) && data::opening_deadlines(
                policy,
                sampled,
            ) is Ok)
        }),
        ({
            let (opened, step) = data::sampled_step(data, policy, generation, vault_id, sampled);
            step matches UnlockStep::Done(Ok(summary)) ==> {
                &&& summary == session::session_summary(vault_id, generation)
                &&& opened.state is Unlocked
                &&& manager::root_is_usable(opened, generation)
                &&& !opened.expired
                &&& opened.unlock_attempt is None
            }
        }),
{
}

/// Every step of the session that could follow a cancelled unlock, beside the
/// steps of that unlock itself.
pub open spec fn follows(before: SessionModel, after: SessionModel, policy: PolicyModel, now: nat) -> bool {
    ||| after == data::after_sample_seen(before, now)
    ||| after == data::after_activity(before, policy, now)
    ||| after == data::after_observation(before, policy, now)
    ||| after == data::after_refused_observation(before, now)
    ||| after == data::after_cleanup_required(before)
    ||| after == data::after_begin_unlock(before)
    ||| after == data::after_begin_lock(before)
}

/// A lock, or a requirement of cleanup, ends the unlock that is under way: its
/// attempt is not live any more, and nothing that follows makes it live again.
pub proof fn law_a_stopped_unlock_stays_stopped(
    data: SessionModel,
    after: SessionModel,
    policy: PolicyModel,
    now: nat,
    generation: u64,
)
    requires
        data::session_wf(data),
        unlock_is_under_way(data, generation),
    ensures
        !data::attempt_is_live(data::after_begin_lock(data), generation),
        !data::attempt_is_live(data::after_cleanup_required(data), generation),
        !data::attempt_is_live(data, generation) && follows(data, after, policy, now)
            ==> !data::attempt_is_live(after, generation) && unlock_is_under_way(
            after,
            generation,
        ),
{
}

/// A lock takes the root away from the session: no generation can use it any
/// more, and the lock has it.
pub proof fn law_a_lock_takes_the_root(data: SessionModel, generation: u64)
    requires
        data::session_wf(data),
    ensures
        !manager::root_is_usable(data::after_begin_lock(data), generation),
        data::after_begin_lock(data).unlocked is None,
        data.state is Unlocked ==> data::lock_takes(data) == Some(data.epoch),
        data.state is Unlocking ==> data::lock_takes(data) == data.provisional_unlock
            && data::after_begin_lock(data).provisional_unlock is None,
        data::lock_takes(data::after_begin_lock(data)) is None,
{
}

/// A second lock changes nothing.
pub proof fn law_a_lock_is_idempotent(data: SessionModel)
    ensures
        data::after_begin_lock(data::after_begin_lock(data)) == data::after_begin_lock(data),
{
}

/// Only a proven cleanup lifts the requirement of one, and until then no session
/// is opened.
pub proof fn law_required_cleanup_stays_required(
    data: SessionModel,
    policy: PolicyModel,
    now: nat,
    generation: u64,
    vault_id: VaultId,
    answer: RepositoryAnswer,
    succeeded: bool,
    latch: bool,
    sampled: Result<Duration, ServiceError>,
)
    requires
        data.cleanup_required,
    ensures
        data::after_sample_seen(data, now).cleanup_required,
        data::after_activity(data, policy, now).cleanup_required,
        data::after_observation(data, policy, now).cleanup_required,
        data::after_refused_observation(data, now).cleanup_required,
        data::after_cleanup_required(data).cleanup_required,
        data::after_begin_unlock(data).cleanup_required,
        data::after_begin_lock(data).cleanup_required,
        data::startup_cleaned_step(data, succeeded).0.cleanup_required,
        data::repository_step(data, generation, answer).0.cleanup_required,
        data::wrapped_step(data, generation, succeeded).0.cleanup_required,
        data::reconciled_step(data, generation, succeeded).0.cleanup_required,
        data::identified_step(data, generation, succeeded).0.cleanup_required,
        data::sampled_step(data, policy, generation, vault_id, sampled).0.cleanup_required,
        data::after_root_closed(data, latch, succeeded).cleanup_required,
        data::after_given_up_cleanup(data, succeeded).cleanup_required,
        data::after_given_up_cleanup(data, succeeded).state is CleanupRequired,
        data::after_retry(data, false).cleanup_required,
        data::after_retry(data, false).state is CleanupRequired,
        !data::after_retry(data, true).cleanup_required,
        !(data::sampled_step(data, policy, generation, vault_id, sampled).1
            matches UnlockStep::Done(Ok(_))),
{
}

/// Generations only grow: an unlock that begins has a new one, and nothing else
/// changes it.
pub proof fn law_generations_grow(
    data: SessionModel,
    policy: PolicyModel,
    now: nat,
    generation: u64,
    vault_id: VaultId,
    answer: RepositoryAnswer,
    succeeded: bool,
    sampled: Result<Duration, ServiceError>,
)
    ensures
        data::begin_unlock_answer(data) is Ok ==> data::begin_unlock_answer(data)->Ok_0
            == data.epoch + 1 && data::after_begin_unlock(data).epoch == data.epoch + 1,
        data::begin_unlock_answer(data) is Err ==> data::after_begin_unlock(data) == data,
        data::after_activity(data, policy, now).epoch == data.epoch,
        data::after_observation(data, policy, now).epoch == data.epoch,
        data::after_refused_observation(data, now).epoch == data.epoch,
        data::after_cleanup_required(data).epoch == data.epoch,
        data::after_begin_lock(data).epoch == data.epoch,
        data::startup_cleaned_step(data, succeeded).0.epoch == data.epoch,
        data::repository_step(data, generation, answer).0.epoch == data.epoch,
        data::wrapped_step(data, generation, succeeded).0.epoch == data.epoch,
        data::reconciled_step(data, generation, succeeded).0.epoch == data.epoch,
        data::identified_step(data, generation, succeeded).0.epoch == data.epoch,
        data::sampled_step(data, policy, generation, vault_id, sampled).0.epoch == data.epoch,
        data::after_given_up_cleanup(data, succeeded).epoch == data.epoch,
        data::after_retry(data, succeeded).epoch == data.epoch,
{
}

/// The instant that the session last saw never goes back.
pub proof fn law_the_seen_instant_never_goes_back(data: SessionModel, policy: PolicyModel, now: nat)
    ensures
        data.last_observed <= data::after_activity(data, policy, now).last_observed,
        data.last_observed <= data::after_observation(data, policy, now).last_observed,
        data.last_observed <= data::after_refused_observation(data, now).last_observed,
        now <= data::after_observation(data, policy, now).last_observed,
{
}

/// A clock sample is never before one that was accepted earlier, and a clock
/// that goes back is refused.
pub proof fn law_clock_samples_never_go_back(
    manager: ManagerModel,
    sequence: usize,
    now: PortAnswer<Result<Duration, ServiceError>>,
)
    ensures
        manager::finish_sample_answer(manager, sequence, now) is Ok ==> manager.observed_at
            <= manager::finish_sample_answer(manager, sequence, now)->Ok_0,
        manager.observed_at <= manager::after_finish_sample(manager, sequence, now).observed_at,
        manager.observed_sequence <= manager::after_finish_sample(
            manager,
            sequence,
            now,
        ).observed_sequence,
        now matches PortAnswer::Returned(Ok(sampled)) ==> sampled@ < manager.observed_at
            && sequence >= manager.observed_sequence ==> manager::finish_sample_answer(
            manager,
            sequence,
            now,
        ) == Err::<nat, ServiceError>(ServiceError::ClockFailure),
{
}

/// Activity never revives a session that has expired, and never moves its
/// absolute deadline.
pub proof fn law_activity_never_revives_an_expired_session(
    data: SessionModel,
    policy: PolicyModel,
    now: nat,
)
    ensures
        data::is_expired(data, now) && data.state is Unlocked ==> {
            &&& data::activity_answer(data, policy, now) == Err::<(), ServiceError>(
                ServiceError::Locked,
            )
            &&& data::after_activity(data, policy, now).expired
            &&& data::after_activity(data, policy, now).inactivity_deadline
                == data.inactivity_deadline
        },
        data::after_activity(data, policy, now).absolute_deadline == data.absolute_deadline,
        data::after_activity(data, policy, now).absolute_warnings == data.absolute_warnings,
{
}

/// An expiry that was seen is seen again by every later look, until the session
/// is locked.
pub proof fn law_expiry_is_remembered(data: SessionModel, policy: PolicyModel, now: nat, later: nat)
    requires
        data.state is Unlocked,
        data::is_expired(data, now),
    ensures
        data::after_observation(data, policy, now).expired,
        data::after_refused_observation(data, now).expired,
        data::observed_warnings(data, policy, now) == Seq::<DueWarning>::empty(),
        data::is_expired(data::after_observation(data, policy, now), later),
        data::after_observation(data::after_observation(data, policy, now), policy, later).expired,
{
}

/// A warning of a deadline is given once: what became due at one look does not
/// become due at a later one.
pub proof fn law_a_warning_is_given_once(
    deadline: Option<nat>,
    warned: u32,
    offsets: Seq<Duration>,
    now: nat,
    later: nat,
    index: int,
)
    requires
        offsets.len() <= session::MAX_WARNING_OFFSETS,
        0 <= index < offsets.len(),
    ensures
        data::becomes_due(deadline, warned, offsets, now, index) ==> !data::becomes_due(
            deadline,
            data::warned_after(deadline, warned, offsets, now, offsets.len()),
            offsets,
            later,
            index,
        ),
        data::is_warned(warned, index) ==> data::is_warned(
            data::warned_after(deadline, warned, offsets, now, offsets.len()),
            index,
        ),
{
    data::lemma_warned_after(deadline, warned, offsets, now, offsets.len(), index);
}

/// No warning is lost: one whose boundary has passed was given before or is given
/// by this look.
pub proof fn law_no_warning_is_lost(
    deadline: Option<nat>,
    warned: u32,
    offsets: Seq<Duration>,
    now: nat,
    index: int,
)
    requires
        offsets.len() <= session::MAX_WARNING_OFFSETS,
        0 <= index < offsets.len(),
        data::has_passed(data::boundary(deadline, offsets[index]), now),
    ensures
        data::is_warned(
            data::warned_after(deadline, warned, offsets, now, offsets.len()),
            index,
        ),
{
    data::lemma_warned_after(deadline, warned, offsets, now, offsets.len(), index);
}

/// Whether warnings are listed by boundary, the earliest first.
pub open spec fn in_boundary_order(due: Seq<DueWarning>) -> bool {
    forall|i: int, j: int|
        0 <= i <= j < due.len() ==> (#[trigger] due[i]).boundary <= (#[trigger] due[j]).boundary
}

/// Warnings of one deadline lie at the boundaries of the offsets before `count`.
proof fn lemma_due_in_order(
    kind: SessionDeadlineKind,
    deadline: Option<nat>,
    warned: u32,
    offsets: Seq<Duration>,
    now: nat,
    count: nat,
)
    requires
        count <= offsets.len(),
        forall|i: int, j: int|
            0 <= i < j < offsets.len() ==> (#[trigger] offsets[j])@ < (#[trigger] offsets[i])@,
    ensures
        in_boundary_order(data::due_warnings(kind, deadline, warned, offsets, now, count)),
        deadline is Some && count > 0 ==> forall|i: int|
            0 <= i < data::due_warnings(kind, deadline, warned, offsets, now, count).len() ==> (
            #[trigger] data::due_warnings(
                kind,
                deadline,
                warned,
                offsets,
                now,
                count,
            )[i]).boundary <= deadline->0 - offsets[count - 1]@,
        deadline is None ==> data::due_warnings(kind, deadline, warned, offsets, now, count).len()
            == 0,
    decreases count,
{
    if count > 0 {
        lemma_due_in_order(kind, deadline, warned, offsets, now, (count - 1) as nat);
        let before = data::due_warnings(
            kind,
            deadline,
            warned,
            offsets,
            now,
            (count - 1) as nat,
        );
        let all = data::due_warnings(kind, deadline, warned, offsets, now, count);
        if count > 1 {
            assert(offsets[count - 1]@ < offsets[count - 2]@);
        }
        assert forall|i: int| 0 <= i < before.len() implies all[i] == before[i] by {}
        if deadline is Some {
            assert forall|i: int| 0 <= i < all.len() implies (#[trigger] all[i]).boundary
                <= deadline->0 - offsets[count - 1]@ by {
                if i < before.len() {
                    assert(before[i].boundary <= deadline->0 - offsets[count - 2]@);
                }
            }
        }
    }
}

/// Two ordered lists are merged into an ordered one.
proof fn lemma_merged_in_order(first: Seq<DueWarning>, second: Seq<DueWarning>)
    requires
        in_boundary_order(first),
        in_boundary_order(second),
    ensures
        in_boundary_order(data::merged(first, second)),
        data::merged(first, second).len() == first.len() + second.len(),
        forall|bound: nat|
            #![trigger at_least(first, bound)]
            at_least(first, bound) && at_least(second, bound) ==> at_least(
                data::merged(first, second),
                bound,
            ),
    decreases first.len() + second.len(),
{
    if first.len() > 0 && second.len() > 0 {
        if first[0].boundary <= second[0].boundary {
            let rest = first.drop_first();
            assert forall|i: int, j: int| 0 <= i <= j < rest.len() implies (
            #[trigger] rest[i]).boundary <= (#[trigger] rest[j]).boundary by {
                assert(first[i + 1].boundary <= first[j + 1].boundary);
            }
            lemma_merged_in_order(rest, second);
            let tail = data::merged(rest, second);
            let bound = first[0].boundary;
            assert(at_least(rest, bound)) by {
                assert forall|i: int| 0 <= i < rest.len() implies bound <= (
                #[trigger] rest[i]).boundary by {
                    assert(first[0].boundary <= first[i + 1].boundary);
                }
            }
            assert(at_least(second, bound)) by {
                assert forall|i: int| 0 <= i < second.len() implies bound <= (
                #[trigger] second[i]).boundary by {
                    assert(second[0].boundary <= second[i].boundary);
                }
            }
            assert(at_least(tail, bound));
            let all = data::merged(first, second);
            assert(all =~= seq![first[0]] + tail);
            lemma_cons_in_order(first[0], tail);
            assert forall|bound: nat| #[trigger]
                at_least(first, bound) && at_least(second, bound) implies at_least(all, bound) by {
                assert(at_least(rest, bound)) by {
                    assert forall|i: int| 0 <= i < rest.len() implies bound <= (
                    #[trigger] rest[i]).boundary by {
                        assert(bound <= first[i + 1].boundary);
                    }
                }
                assert(at_least(tail, bound));
                assert(bound <= first[0].boundary);
                lemma_cons_at_least(first[0], tail, bound);
            }
        } else {
            let rest = second.drop_first();
            assert forall|i: int, j: int| 0 <= i <= j < rest.len() implies (
            #[trigger] rest[i]).boundary <= (#[trigger] rest[j]).boundary by {
                assert(second[i + 1].boundary <= second[j + 1].boundary);
            }
            lemma_merged_in_order(first, rest);
            let tail = data::merged(first, rest);
            let bound = second[0].boundary;
            assert(at_least(rest, bound)) by {
                assert forall|i: int| 0 <= i < rest.len() implies bound <= (
                #[trigger] rest[i]).boundary by {
                    assert(second[0].boundary <= second[i + 1].boundary);
                }
            }
            assert(at_least(first, bound)) by {
                assert forall|i: int| 0 <= i < first.len() implies bound <= (
                #[trigger] first[i]).boundary by {
                    assert(first[0].boundary <= first[i].boundary);
                }
            }
            assert(at_least(tail, bound));
            let all = data::merged(first, second);
            assert(all =~= seq![second[0]] + tail);
            lemma_cons_in_order(second[0], tail);
            assert forall|bound: nat| #[trigger]
                at_least(first, bound) && at_least(second, bound) implies at_least(all, bound) by {
                assert(at_least(rest, bound)) by {
                    assert forall|i: int| 0 <= i < rest.len() implies bound <= (
                    #[trigger] rest[i]).boundary by {
                        assert(bound <= second[i + 1].boundary);
                    }
                }
                assert(at_least(tail, bound));
                assert(bound <= second[0].boundary);
                lemma_cons_at_least(second[0], tail, bound);
            }
        }
    }
}

/// Whether no warning lies before a boundary.
spec fn at_least(due: Seq<DueWarning>, bound: nat) -> bool {
    forall|i: int| 0 <= i < due.len() ==> bound <= (#[trigger] due[i]).boundary
}

proof fn lemma_cons_in_order(head: DueWarning, tail: Seq<DueWarning>)
    requires
        in_boundary_order(tail),
        at_least(tail, head.boundary),
    ensures
        in_boundary_order(seq![head] + tail),
{
    let all = seq![head] + tail;
    assert forall|i: int, j: int| 0 <= i <= j < all.len() implies (#[trigger] all[i]).boundary <= (
    #[trigger] all[j]).boundary by {
        if i > 0 {
            assert(all[i] == tail[i - 1] && all[j] == tail[j - 1]);
        } else if j > 0 {
            assert(all[j] == tail[j - 1]);
        }
    }
}

proof fn lemma_cons_at_least(head: DueWarning, tail: Seq<DueWarning>, bound: nat)
    requires
        at_least(tail, bound),
        bound <= head.boundary,
    ensures
        at_least(seq![head] + tail, bound),
{
    let all = seq![head] + tail;
    assert forall|i: int| 0 <= i < all.len() implies bound <= (#[trigger] all[i]).boundary by {
        if i > 0 {
            assert(all[i] == tail[i - 1]);
        }
    }
}

/// The warnings of one look come in the order of their boundaries.
pub proof fn law_warnings_come_in_order(data: SessionModel, policy: PolicyModel, now: nat)
    requires
        session::policy_is_valid(policy),
    ensures
        in_boundary_order(data::observed_warnings(data, policy, now)),
{
    let seen = data::after_sample_seen(data, now);
    let offsets = policy.warning_offsets;
    lemma_due_in_order(
        SessionDeadlineKind::Inactivity,
        seen.inactivity_deadline,
        seen.inactivity_warnings,
        offsets,
        seen.last_observed,
        offsets.len(),
    );
    lemma_due_in_order(
        SessionDeadlineKind::Absolute,
        seen.absolute_deadline,
        seen.absolute_warnings,
        offsets,
        seen.last_observed,
        offsets.len(),
    );
    lemma_merged_in_order(
        data::due_warnings(
            SessionDeadlineKind::Inactivity,
            seen.inactivity_deadline,
            seen.inactivity_warnings,
            offsets,
            seen.last_observed,
            offsets.len(),
        ),
        data::due_warnings(
            SessionDeadlineKind::Absolute,
            seen.absolute_deadline,
            seen.absolute_warnings,
            offsets,
            seen.last_observed,
            offsets.len(),
        ),
    );
}

proof fn lemma_next_boundary_is_earliest(
    deadline: Option<nat>,
    warned: u32,
    offsets: Seq<Duration>,
    count: nat,
    index: int,
)
    requires
        0 <= index < count <= offsets.len(),
        !data::is_warned(warned, index),
        data::boundary(deadline, offsets[index]) is Some,
    ensures
        data::next_boundary(deadline, warned, offsets, count) is Some,
        data::next_boundary(deadline, warned, offsets, count)->0 <= data::boundary(
            deadline,
            offsets[index],
        )->0,
    decreases count,
{
    if index < count - 1 {
        lemma_next_boundary_is_earliest(deadline, warned, offsets, (count - 1) as nat, index);
    }
}

/// The next instant at which a session is looked at comes no later than either
/// deadline, and no later than the boundary of a warning that was not given.
pub proof fn law_the_next_look_is_not_too_late(data: SessionModel, policy: PolicyModel, index: int)
    requires
        session::policy_is_valid(policy),
        data.inactivity_deadline is Some,
        data.absolute_deadline is Some,
    ensures
        data::next_instant(data, policy) is Some,
        data::next_instant(data, policy)->0 <= data.inactivity_deadline->0,
        data::next_instant(data, policy)->0 <= data.absolute_deadline->0,
        0 <= index < policy.warning_offsets.len() && !data::is_warned(
            data.inactivity_warnings,
            index,
        ) && data::boundary(data.inactivity_deadline, policy.warning_offsets[index]) is Some
            ==> data::next_instant(data, policy)->0 <= data::boundary(
            data.inactivity_deadline,
            policy.warning_offsets[index],
        )->0,
        0 <= index < policy.warning_offsets.len() && !data::is_warned(
            data.absolute_warnings,
            index,
        ) && data::boundary(data.absolute_deadline, policy.warning_offsets[index]) is Some
            ==> data::next_instant(data, policy)->0 <= data::boundary(
            data.absolute_deadline,
            policy.warning_offsets[index],
        )->0,
{
    let offsets = policy.warning_offsets;
    if 0 <= index < offsets.len() {
        if !data::is_warned(data.inactivity_warnings, index) && data::boundary(
            data.inactivity_deadline,
            offsets[index],
        ) is Some {
            lemma_next_boundary_is_earliest(
                data.inactivity_deadline,
                data.inactivity_warnings,
                offsets,
                offsets.len(),
                index,
            );
        }
        if !data::is_warned(data.absolute_warnings, index) && data::boundary(
            data.absolute_deadline,
            offsets[index],
        ) is Some {
            lemma_next_boundary_is_earliest(
                data.absolute_deadline,
                data.absolute_warnings,
                offsets,
                offsets.len(),
                index,
            );
        }
    }
}

/// A lease is handed out only in the generation that is unlocked, and a lock ends
/// that.
pub proof fn law_no_lease_outlives_a_lock(manager: ManagerModel, generation: u64)
    requires
        manager::manager_wf(manager),
    ensures
        manager::lease_step(manager, generation, Ok(())) is Granted ==> manager.data.state is Unlocked
            && manager.data.epoch == generation,
        manager::lease_step(
            manager::with_data(manager, data::after_begin_lock(manager.data)),
            generation,
            Ok(()),
        ) is GiveBack,
{
}

} // verus!
