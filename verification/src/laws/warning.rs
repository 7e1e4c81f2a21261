//! Laws of when a session warns, and of how long it is left alone.
use vstd::prelude::*;

use crate::session::data;
use crate::session::data::{DueWarning, SessionModel};
use crate::session::{PolicyModel, SessionDeadlineKind, SessionEvent};
use crate::time::Duration;

verus! {

/// The last instant that a session has seen, at a look.
pub open spec fn seen_at(session: SessionModel, now: nat) -> nat {
    if session.last_observed <= now {
        now
    } else {
        session.last_observed
    }
}

/// A session is open and none of its deadlines has come at an instant.
pub open spec fn is_alive(session: SessionModel, now: nat) -> bool {
    &&& session.state is Unlocked
    &&& !session.expired
    &&& session.inactivity_deadline is Some ==> seen_at(session, now)
        < session.inactivity_deadline->0
    &&& session.absolute_deadline is Some ==> seen_at(session, now) < session.absolute_deadline->0
}

/// A notice before a deadline was not given yet, and its time has come.
pub open spec fn is_due(deadline: Option<nat>, warned: u32, offsets: Seq<Duration>, index: int, now: nat) -> bool {
    &&& 0 <= index < offsets.len()
    &&& !data::is_warned(warned, index)
    &&& deadline is Some
    &&& offsets[index]@ <= deadline->0
    &&& deadline->0 - offsets[index]@ <= now
}

proof fn lemma_is_given(
    kind: SessionDeadlineKind,
    deadline: Option<nat>,
    warned: u32,
    offsets: Seq<Duration>,
    now: nat,
    count: nat,
    index: int,
) -> (place: int)
    requires
        count <= offsets.len(),
        index < count,
        is_due(deadline, warned, offsets, index, now),
    ensures
        0 <= place < data::due_warnings(kind, deadline, warned, offsets, now, count).len(),
        data::due_warnings(kind, deadline, warned, offsets, now, count)[place].event == (
        SessionEvent::LockWarning { remaining: offsets[index], deadline: kind }),
    decreases count,
{
    let due = data::due_warnings(kind, deadline, warned, offsets, now, count);
    if index == count - 1 {
        due.len() - 1
    } else {
        lemma_is_given(kind, deadline, warned, offsets, now, (count - 1) as nat, index)
    }
}

proof fn lemma_was_due(
    kind: SessionDeadlineKind,
    deadline: Option<nat>,
    warned: u32,
    offsets: Seq<Duration>,
    now: nat,
    count: nat,
    place: int,
) -> (index: int)
    requires
        count <= offsets.len(),
        0 <= place < data::due_warnings(kind, deadline, warned, offsets, now, count).len(),
    ensures
        index < count,
        is_due(deadline, warned, offsets, index, now),
        data::due_warnings(kind, deadline, warned, offsets, now, count)[place].event == (
        SessionEvent::LockWarning { remaining: offsets[index], deadline: kind }),
    decreases count,
{
    let before = data::due_warnings(kind, deadline, warned, offsets, now, (count - 1) as nat);
    if place < before.len() {
        lemma_was_due(kind, deadline, warned, offsets, now, (count - 1) as nat, place)
    } else {
        count - 1
    }
}

proof fn lemma_merged(first: Seq<DueWarning>, second: Seq<DueWarning>, warning: DueWarning)
    ensures
        data::merged(first, second).contains(warning) <==> first.contains(warning)
            || second.contains(warning),
    decreases first.len() + second.len(),
{
    if first.len() > 0 && second.len() > 0 {
        if first[0].boundary <= second[0].boundary {
            let rest = first.drop_first();
            lemma_merged(rest, second, warning);
            lemma_put_before(first[0], data::merged(rest, second), warning);
            lemma_put_before(first[0], rest, warning);
            assert(seq![first[0]] + rest =~= first);
        } else {
            let rest = second.drop_first();
            lemma_merged(first, rest, warning);
            lemma_put_before(second[0], data::merged(first, rest), warning);
            lemma_put_before(second[0], rest, warning);
            assert(seq![second[0]] + rest =~= second);
        }
    }
}

proof fn lemma_put_before(head: DueWarning, rest: Seq<DueWarning>, warning: DueWarning)
    ensures
        (seq![head] + rest).contains(warning) <==> head == warning || rest.contains(warning),
{
    let all = seq![head] + rest;
    if head == warning {
        assert(all[0] == warning);
    }
    if rest.contains(warning) {
        let k = choose|k: int| 0 <= k < rest.len() && rest[k] == warning;
        assert(all[k + 1] == warning);
    }
    if all.contains(warning) {
        let k = choose|k: int| 0 <= k < all.len() && all[k] == warning;
        if k > 0 {
            assert(rest[k - 1] == warning);
        }
    }
}

/// The notices of either deadline that a look gives.
spec fn due_before(session: SessionModel, policy: PolicyModel, now: nat, kind: SessionDeadlineKind) -> Seq<
    DueWarning,
> {
    match kind {
        SessionDeadlineKind::Inactivity => data::due_warnings(
            kind,
            session.inactivity_deadline,
            session.inactivity_warnings,
            policy.warning_offsets,
            seen_at(session, now),
            policy.warning_offsets.len(),
        ),
        SessionDeadlineKind::Absolute => data::due_warnings(
            kind,
            session.absolute_deadline,
            session.absolute_warnings,
            policy.warning_offsets,
            seen_at(session, now),
            policy.warning_offsets.len(),
        ),
    }
}

proof fn lemma_told(session: SessionModel, policy: PolicyModel, now: nat, warning: DueWarning)
    requires
        is_alive(session, now),
        due_before(session, policy, now, SessionDeadlineKind::Inactivity).contains(warning)
            || due_before(session, policy, now, SessionDeadlineKind::Absolute).contains(warning),
    ensures
        data::observed(session, policy, now).warnings.contains(warning.event),
{
    let first = due_before(session, policy, now, SessionDeadlineKind::Inactivity);
    let second = due_before(session, policy, now, SessionDeadlineKind::Absolute);
    lemma_merged(first, second, warning);
    let all = data::observed_warnings(session, policy, now);
    assert(all == data::merged(first, second));
    let place = choose|place: int| 0 <= place < all.len() && all[place] == warning;
    assert(data::observed(session, policy, now).warnings[place] == warning.event);
}

/// A look at a session that is alive gives every notice, before either deadline, whose
/// time has come and that was not given yet.
pub proof fn law_a_session_warns_in_time(
    session: SessionModel,
    policy: PolicyModel,
    now: nat,
    index: int,
)
    requires
        is_alive(session, now),
    ensures
        is_due(
            session.inactivity_deadline,
            session.inactivity_warnings,
            policy.warning_offsets,
            index,
            seen_at(session, now),
        ) ==> data::observed(session, policy, now).warnings.contains(
            SessionEvent::LockWarning {
                remaining: policy.warning_offsets[index],
                deadline: SessionDeadlineKind::Inactivity,
            },
        ),
        is_due(
            session.absolute_deadline,
            session.absolute_warnings,
            policy.warning_offsets,
            index,
            seen_at(session, now),
        ) ==> data::observed(session, policy, now).warnings.contains(
            SessionEvent::LockWarning {
                remaining: policy.warning_offsets[index],
                deadline: SessionDeadlineKind::Absolute,
            },
        ),
{
    let seen = seen_at(session, now);
    let offsets = policy.warning_offsets;
    if is_due(session.inactivity_deadline, session.inactivity_warnings, offsets, index, seen) {
        let kind = SessionDeadlineKind::Inactivity;
        let place = lemma_is_given(
            kind,
            session.inactivity_deadline,
            session.inactivity_warnings,
            offsets,
            seen,
            offsets.len(),
            index,
        );
        let warning = due_before(session, policy, now, kind)[place];
        assert(due_before(session, policy, now, kind).contains(warning));
        lemma_told(session, policy, now, warning);
    }
    if is_due(session.absolute_deadline, session.absolute_warnings, offsets, index, seen) {
        let kind = SessionDeadlineKind::Absolute;
        let place = lemma_is_given(
            kind,
            session.absolute_deadline,
            session.absolute_warnings,
            offsets,
            seen,
            offsets.len(),
            index,
        );
        let warning = due_before(session, policy, now, kind)[place];
        assert(due_before(session, policy, now, kind).contains(warning));
        lemma_told(session, policy, now, warning);
    }
}

/// Every notice that a look gives is one whose time has come before one of the
/// deadlines, and that was not given yet: the law names its deadline and its place in
/// the policy. A session that is not alive gives none.
pub proof fn law_a_session_warns_of_nothing_else(
    session: SessionModel,
    policy: PolicyModel,
    now: nat,
    place: int,
) -> (found: (SessionDeadlineKind, int))
    requires
        0 <= place < data::observed(session, policy, now).warnings.len(),
    ensures
        is_alive(session, now),
        data::observed(session, policy, now).warnings[place] == (SessionEvent::LockWarning {
            remaining: policy.warning_offsets[found.1],
            deadline: found.0,
        }),
        found.0 is Inactivity ==> is_due(
            session.inactivity_deadline,
            session.inactivity_warnings,
            policy.warning_offsets,
            found.1,
            seen_at(session, now),
        ),
        found.0 is Absolute ==> is_due(
            session.absolute_deadline,
            session.absolute_warnings,
            policy.warning_offsets,
            found.1,
            seen_at(session, now),
        ),
{
    let seen = seen_at(session, now);
    let offsets = policy.warning_offsets;
    let first = due_before(session, policy, now, SessionDeadlineKind::Inactivity);
    let second = due_before(session, policy, now, SessionDeadlineKind::Absolute);
    let all = data::observed_warnings(session, policy, now);
    assert(data::observed(session, policy, now).warnings[place] == all[place].event);
    assert(all == data::merged(first, second));
    assert(all.contains(all[place]));
    lemma_merged(first, second, all[place]);
    if first.contains(all[place]) {
        let k = choose|k: int| 0 <= k < first.len() && first[k] == all[place];
        let index = lemma_was_due(
            SessionDeadlineKind::Inactivity,
            session.inactivity_deadline,
            session.inactivity_warnings,
            offsets,
            seen,
            offsets.len(),
            k,
        );
        (SessionDeadlineKind::Inactivity, index)
    } else {
        let k = choose|k: int| 0 <= k < second.len() && second[k] == all[place];
        let index = lemma_was_due(
            SessionDeadlineKind::Absolute,
            session.absolute_deadline,
            session.absolute_warnings,
            offsets,
            seen,
            offsets.len(),
            k,
        );
        (SessionDeadlineKind::Absolute, index)
    }
}

/// A session without warnings is left alone until its first deadline, and no longer;
/// one that has warnings no longer than that either. A session that is not open is left
/// alone.
pub proof fn law_a_session_is_left_alone_until_its_deadline(
    session: SessionModel,
    policy: PolicyModel,
    now: nat,
)
    requires
        session.inactivity_deadline is Some,
        session.absolute_deadline is Some,
    ensures
        ({
            let wait = data::observed(session, policy, now).next_wait;
            let seen = seen_at(session, now);
            let inactivity = session.inactivity_deadline->0;
            let absolute = session.absolute_deadline->0;
            &&& !(session.state is Unlocked) ==> wait is None
            &&& session.state is Unlocked ==> wait is Some
            &&& is_alive(session, now) ==> seen + wait->0 <= inactivity && seen + wait->0
                <= absolute
            &&& is_alive(session, now) && policy.warning_offsets.len() == 0 ==> seen + wait->0
                == inactivity || seen + wait->0 == absolute
        }),
{
}

/// A session that is alive is looked at again no later than any notice that is still
/// to be given.
pub proof fn law_a_session_is_looked_at_for_its_next_warning(
    session: SessionModel,
    policy: PolicyModel,
    now: nat,
    index: int,
)
    requires
        crate::session::policy_is_valid(policy),
        is_alive(session, now),
        session.inactivity_deadline is Some,
        session.absolute_deadline is Some,
        0 <= index < policy.warning_offsets.len(),
        policy.warning_offsets[index]@ <= session.inactivity_deadline->0,
        seen_at(session, now) < session.inactivity_deadline->0 - policy.warning_offsets[index]@,
        !data::is_warned(session.inactivity_warnings, index),
    ensures
        data::observed(session, policy, now).next_wait is Some,
        seen_at(session, now) + data::observed(session, policy, now).next_wait->0
            <= session.inactivity_deadline->0 - policy.warning_offsets[index]@,
{
    let after = data::after_observation(session, policy, now);
    let offsets = policy.warning_offsets;
    data::lemma_warned_after(
        session.inactivity_deadline,
        session.inactivity_warnings,
        offsets,
        seen_at(session, now),
        offsets.len(),
        index,
    );
    crate::laws::session::law_the_next_look_is_not_too_late(after, policy, index);
}

} // verus!
