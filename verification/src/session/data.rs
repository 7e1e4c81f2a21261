//! The session state: deadlines, unlock and lock.
use vstd::prelude::*;

use crate::error::ServiceError;
use crate::session;
use crate::session::{
    PolicyModel, SessionDeadlineKind, SessionEvent, SessionPolicy, SessionState, SessionSummary,
    VaultId,
};
use crate::time;
use crate::time::Duration;

verus! {

/// One attempt to unlock, named by the generation that it would open.
#[derive(Clone, Copy, Debug, PartialEq, Eq, Structural)]
pub struct UnlockAttempt {
    pub generation: u64,
    pub cancelled: bool,
}

/// State of the session. Root capabilities are named by the generation that
/// they were unlocked for.
pub struct SessionData {
    state: SessionState,
    epoch: u64,
    last_observed: Duration,
    inactivity_deadline: Option<Duration>,
    absolute_deadline: Option<Duration>,
    unlocked: Option<u64>,
    provisional_unlock: Option<u64>,
    unlock_attempt: Option<UnlockAttempt>,
    cleanup_owner: bool,
    inactivity_warnings: u32,
    absolute_warnings: u32,
    expired: bool,
    cleanup_required: bool,
}

/// Contents of the session. Instants are nanoseconds on the session clock.
pub struct SessionModel {
    pub state: SessionState,
    pub epoch: u64,
    pub last_observed: nat,
    pub inactivity_deadline: Option<nat>,
    pub absolute_deadline: Option<nat>,
    pub unlocked: Option<u64>,
    pub provisional_unlock: Option<u64>,
    pub unlock_attempt: Option<UnlockAttempt>,
    pub cleanup_owner: bool,
    pub inactivity_warnings: u32,
    pub absolute_warnings: u32,
    pub expired: bool,
    pub cleanup_required: bool,
}

/// An instant, where there is one, in nanoseconds.
pub open spec fn instant(span: Option<Duration>) -> Option<nat> {
    match span {
        Some(span) => Some(span@),
        None => None,
    }
}

impl View for SessionData {
    type V = SessionModel;

    closed spec fn view(&self) -> SessionModel {
        SessionModel {
            state: self.state,
            epoch: self.epoch,
            last_observed: self.last_observed@,
            inactivity_deadline: instant(self.inactivity_deadline),
            absolute_deadline: instant(self.absolute_deadline),
            unlocked: self.unlocked,
            provisional_unlock: self.provisional_unlock,
            unlock_attempt: self.unlock_attempt,
            cleanup_owner: self.cleanup_owner,
            inactivity_warnings: self.inactivity_warnings,
            absolute_warnings: self.absolute_warnings,
            expired: self.expired,
            cleanup_required: self.cleanup_required,
        }
    }
}

/// Invariant of the session. It is unlocked exactly while it holds a root
/// capability: then both deadlines run, no unlock is under way and the root is
/// the one of the current generation. An unlock under way is the one of the
/// current generation, and a provisional root belongs to it.
pub open spec fn session_wf(data: SessionModel) -> bool {
    &&& data.state is Unlocked <==> data.unlocked is Some
    &&& data.state is Unlocked ==> {
        &&& data.inactivity_deadline is Some
        &&& data.absolute_deadline is Some
        &&& data.unlock_attempt is None
        &&& data.unlocked == Some(data.epoch)
    }
    &&& data.unlock_attempt is Some ==> data.unlock_attempt->0.generation == data.epoch
    &&& data.provisional_unlock is Some ==> data.unlock_attempt is Some
        && data.provisional_unlock == Some(data.epoch)
}

/// The session after one clock sample was seen.
pub open spec fn after_sample_seen(data: SessionModel, now: nat) -> SessionModel {
    SessionModel {
        last_observed: if data.last_observed <= now {
            now
        } else {
            data.last_observed
        },
        ..data
    }
}

/// Whether a deadline has passed at `now`.
pub open spec fn has_passed(deadline: Option<nat>, now: nat) -> bool {
    deadline is Some && deadline->0 <= now
}

/// Whether the session is past one of its deadlines at `now`.
pub open spec fn is_expired(data: SessionModel, now: nat) -> bool {
    data.expired || has_passed(data.inactivity_deadline, now) || has_passed(
        data.absolute_deadline,
        now,
    )
}

/// What the recording of trusted activity answers.
pub open spec fn activity_answer(data: SessionModel, policy: PolicyModel, now: nat) -> Result<
    (),
    ServiceError,
> {
    let seen = after_sample_seen(data, now);
    if !(data.state is Unlocked) || is_expired(seen, seen.last_observed) {
        Err(ServiceError::Locked)
    } else if seen.last_observed + policy.inactivity_timeout@ > time::MAX_DURATION_NANOS {
        Err(ServiceError::ClockFailure)
    } else {
        Ok(())
    }
}

/// The session after trusted activity: a live session gets its full inactivity
/// timeout and its inactivity warnings back, an expired one stays expired.
pub open spec fn after_activity(
    data: SessionModel,
    policy: PolicyModel,
    now: nat,
) -> SessionModel {
    let seen = after_sample_seen(data, now);
    if !(data.state is Unlocked) {
        seen
    } else if is_expired(seen, seen.last_observed) {
        SessionModel { expired: true, ..seen }
    } else if activity_answer(data, policy, now) is Ok {
        SessionModel {
            inactivity_deadline: Some(seen.last_observed + policy.inactivity_timeout@),
            inactivity_warnings: 0,
            ..seen
        }
    } else {
        seen
    }
}

/// Whether warning `index` was given.
pub open spec fn is_warned(warned: u32, index: int) -> bool {
    warned & (1u32 << (index as u32)) != 0
}

/// Boundary of one warning before its deadline.
pub open spec fn boundary(deadline: Option<nat>, offset: Duration) -> Option<nat> {
    if deadline is Some && offset@ <= deadline->0 {
        Some((deadline->0 - offset@) as nat)
    } else {
        None
    }
}

/// One warning whose boundary was crossed.
pub struct DueWarning {
    pub boundary: nat,
    pub event: SessionEvent,
}

/// Whether warning `index` becomes due at `now`.
pub open spec fn becomes_due(
    deadline: Option<nat>,
    warned: u32,
    offsets: Seq<Duration>,
    now: nat,
    index: int,
) -> bool {
    !is_warned(warned, index) && has_passed(boundary(deadline, offsets[index]), now)
}

/// The first `count` warnings of one deadline that become due at `now`, in
/// policy order.
pub open spec fn due_warnings(
    kind: SessionDeadlineKind,
    deadline: Option<nat>,
    warned: u32,
    offsets: Seq<Duration>,
    now: nat,
    count: nat,
) -> Seq<DueWarning>
    decreases count,
{
    if count == 0 {
        Seq::empty()
    } else {
        let before = due_warnings(kind, deadline, warned, offsets, now, (count - 1) as nat);
        let index = count - 1;
        if becomes_due(deadline, warned, offsets, now, index) {
            before.push(
                DueWarning {
                    boundary: boundary(deadline, offsets[index])->0,
                    event: SessionEvent::LockWarning { remaining: offsets[index], deadline: kind },
                },
            )
        } else {
            before
        }
    }
}

/// The given warnings after those among the first `count` that become due at `now`.
pub open spec fn warned_after(
    deadline: Option<nat>,
    warned: u32,
    offsets: Seq<Duration>,
    now: nat,
    count: nat,
) -> u32
    decreases count,
{
    if count == 0 {
        warned
    } else {
        let before = warned_after(deadline, warned, offsets, now, (count - 1) as nat);
        if becomes_due(deadline, warned, offsets, now, count - 1) {
            before | (1u32 << ((count - 1) as u32))
        } else {
            before
        }
    }
}

/// Two lists of warnings in one list by boundary. At one boundary the first
/// list comes first.
pub open spec fn merged(first: Seq<DueWarning>, second: Seq<DueWarning>) -> Seq<DueWarning>
    decreases first.len() + second.len(),
{
    if first.len() == 0 {
        second
    } else if second.len() == 0 {
        first
    } else if first[0].boundary <= second[0].boundary {
        seq![first[0]] + merged(first.drop_first(), second)
    } else {
        seq![second[0]] + merged(first, second.drop_first())
    }
}

/// The events of a list of warnings.
pub open spec fn warning_events(due: Seq<DueWarning>) -> Seq<SessionEvent> {
    due.map_values(|warning: DueWarning| warning.event)
}

/// The earlier of two instants, where there is one.
pub open spec fn earlier(a: Option<nat>, b: Option<nat>) -> Option<nat> {
    match (a, b) {
        (Some(a), Some(b)) => Some(if a <= b {
            a
        } else {
            b
        }),
        (Some(a), None) => Some(a),
        (None, b) => b,
    }
}

/// The earliest boundary among the first `count` warnings that were not given.
pub open spec fn next_boundary(
    deadline: Option<nat>,
    warned: u32,
    offsets: Seq<Duration>,
    count: nat,
) -> Option<nat>
    decreases count,
{
    if count == 0 {
        None
    } else {
        let before = next_boundary(deadline, warned, offsets, (count - 1) as nat);
        if is_warned(warned, count - 1) {
            before
        } else {
            earlier(before, boundary(deadline, offsets[count - 1]))
        }
    }
}

/// The session after its deadlines were observed at `now`: an expiry is
/// remembered, and a live session remembers the warnings that became due.
pub open spec fn after_observation(
    data: SessionModel,
    policy: PolicyModel,
    now: nat,
) -> SessionModel {
    let seen = after_sample_seen(data, now);
    let offsets = policy.warning_offsets;
    if !(data.state is Unlocked) {
        seen
    } else if is_expired(seen, seen.last_observed) {
        SessionModel { expired: true, ..seen }
    } else {
        SessionModel {
            expired: false,
            inactivity_warnings: warned_after(
                seen.inactivity_deadline,
                seen.inactivity_warnings,
                offsets,
                seen.last_observed,
                offsets.len(),
            ),
            absolute_warnings: warned_after(
                seen.absolute_deadline,
                seen.absolute_warnings,
                offsets,
                seen.last_observed,
                offsets.len(),
            ),
            ..seen
        }
    }
}

/// The session after an observation that could not report its warnings: an
/// expiry is remembered.
pub open spec fn after_refused_observation(data: SessionModel, now: nat) -> SessionModel {
    let seen = after_sample_seen(data, now);
    if !(data.state is Unlocked) {
        seen
    } else {
        SessionModel { expired: is_expired(seen, seen.last_observed), ..seen }
    }
}

/// The warnings that an observation at `now` reports, earliest boundary first.
pub open spec fn observed_warnings(
    data: SessionModel,
    policy: PolicyModel,
    now: nat,
) -> Seq<DueWarning> {
    let seen = after_sample_seen(data, now);
    let offsets = policy.warning_offsets;
    if !(data.state is Unlocked) || is_expired(seen, seen.last_observed) {
        Seq::empty()
    } else {
        merged(
            due_warnings(
                SessionDeadlineKind::Inactivity,
                seen.inactivity_deadline,
                seen.inactivity_warnings,
                offsets,
                seen.last_observed,
                offsets.len(),
            ),
            due_warnings(
                SessionDeadlineKind::Absolute,
                seen.absolute_deadline,
                seen.absolute_warnings,
                offsets,
                seen.last_observed,
                offsets.len(),
            ),
        )
    }
}

/// The next instant at which an observed session needs to be looked at.
pub open spec fn next_instant(data: SessionModel, policy: PolicyModel) -> Option<nat> {
    let offsets = policy.warning_offsets;
    earlier(
        earlier(data.inactivity_deadline, data.absolute_deadline),
        earlier(
            next_boundary(
                data.inactivity_deadline,
                data.inactivity_warnings,
                offsets,
                offsets.len(),
            ),
            next_boundary(
                data.absolute_deadline,
                data.absolute_warnings,
                offsets,
                offsets.len(),
            ),
        ),
    )
}

/// How long to wait at `now` for an instant.
pub open spec fn wait_for(target: Option<nat>, now: nat) -> Option<nat> {
    match target {
        Some(target) => Some(if now <= target {
            (target - now) as nat
        } else {
            0
        }),
        None => None,
    }
}

/// What one observation of the deadlines reports.
pub struct SessionObservation {
    pub expired: bool,
    pub warnings: Vec<SessionEvent>,
    pub next_wait: Option<Duration>,
}

/// Whether an observation reports what was found.
pub open spec fn reports(observation: SessionObservation, found: DueModel) -> bool {
    &&& observation.expired == found.expired
    &&& observation.warnings@ == found.warnings
    &&& instant(observation.next_wait) == found.next_wait
}

/// What an observation of the deadlines at `now` reports.
pub open spec fn observation_is(
    observation: SessionObservation,
    data: SessionModel,
    policy: PolicyModel,
    now: nat,
) -> bool {
    reports(observation, observed(data, policy, now))
}

/// One crossed warning with its boundary.
pub struct DueEvent {
    boundary: Duration,
    event: SessionEvent,
}

spec fn due_view(due: Seq<DueEvent>) -> Seq<DueWarning> {
    due.map_values(
        |warning: DueEvent| DueWarning { boundary: warning.boundary@, event: warning.event },
    )
}

/// What one observation of the deadlines found, before its warnings are told.
pub struct DueObservation {
    expired: bool,
    /// The crossed warnings, those of one deadline before those of the other.
    due: Vec<DueEvent>,
    split: usize,
    next_wait: Option<Duration>,
}

/// Contents of a [`DueObservation`]: what it reports once its warnings are told.
pub struct DueModel {
    pub expired: bool,
    pub warnings: Seq<SessionEvent>,
    pub next_wait: Option<nat>,
}

impl View for DueObservation {
    type V = DueModel;

    closed spec fn view(&self) -> DueModel {
        DueModel {
            expired: self.expired,
            warnings: warning_events(
                merged(
                    due_view(self.due@.take(self.split as int)),
                    due_view(self.due@.skip(self.split as int)),
                ),
            ),
            next_wait: instant(self.next_wait),
        }
    }
}

/// What an observation of the deadlines at `now` finds.
pub open spec fn observed(data: SessionModel, policy: PolicyModel, now: nat) -> DueModel {
    let after = after_observation(data, policy, now);
    DueModel {
        expired: data.state is Unlocked && is_expired(
            after_sample_seen(data, now),
            after.last_observed,
        ),
        warnings: warning_events(observed_warnings(data, policy, now)),
        next_wait: if data.state is Unlocked {
            wait_for(next_instant(after, policy), after.last_observed)
        } else {
            None
        },
    }
}

impl DueObservation {
    /// The places of both deadlines lie in the list.
    #[verifier::type_invariant]
    pub closed spec fn is_split(self) -> bool {
        self.split <= self.due@.len()
    }

    /// How many warnings are to be told.
    pub fn count(&self) -> (count: usize)
        ensures
            count == self@.warnings.len(),
    {
        proof {
            use_type_invariant(self);
            lemma_merged_len(
                due_view(self.due@.take(self.split as int)),
                due_view(self.due@.skip(self.split as int)),
            );
        }
        self.due.len()
    }

    /// Tells the warnings in their room, or not where the room was refused.
    pub fn told(self, room: Option<Vec<SessionEvent>>) -> (observation: Result<
        SessionObservation,
        ServiceError,
    >)
        requires
            room is Some ==> room->0@ == Seq::<SessionEvent>::empty(),
        ensures
            match room {
                Some(_) => observation is Ok && reports(observation->Ok_0, self@),
                None => observation == Err::<SessionObservation, ServiceError>(
                    ServiceError::AllocationFailed,
                ),
            },
    {
        proof {
            use_type_invariant(&self);
        }
        let mut warnings = match room {
            Some(room) => room,
            None => return Err(ServiceError::AllocationFailed),
        };
        append_merged(&self.due, self.split, &mut warnings);
        Ok(SessionObservation { expired: self.expired, warnings, next_wait: self.next_wait })
    }
}

/// Two lists in one list keep all their warnings.
proof fn lemma_merged_len(first: Seq<DueWarning>, second: Seq<DueWarning>)
    ensures
        merged(first, second).len() == first.len() + second.len(),
    decreases first.len() + second.len(),
{
    if first.len() > 0 && second.len() > 0 {
        lemma_merged_len(first.drop_first(), second);
        lemma_merged_len(first, second.drop_first());
    }
}

fn passed(deadline: &Option<Duration>, now: Duration) -> (passed: bool)
    ensures
        passed == has_passed(instant(*deadline), now@),
{
    match deadline {
        Some(deadline) => !now.is_shorter_than(deadline),
        None => false,
    }
}

fn boundary_of(deadline: &Option<Duration>, offset: Duration) -> (found: Option<Duration>)
    ensures
        instant(found) == boundary(instant(*deadline), offset),
{
    match deadline {
        Some(deadline) => deadline.checked_sub(offset),
        None => None,
    }
}

fn earlier_of(a: Option<Duration>, b: Option<Duration>) -> (found: Option<Duration>)
    ensures
        instant(found) == earlier(instant(a), instant(b)),
{
    match (a, b) {
        (Some(a), Some(b)) => Some(a.shortest(b)),
        (Some(a), None) => Some(a),
        (None, b) => b,
    }
}

/// Setting one bit changes the reading of that bit alone.
proof fn lemma_set_bit(warned: u32, set: u32, read: u32)
    requires
        set < 32,
        read < 32,
    ensures
        ((warned | (1u32 << set)) & (1u32 << read) != 0) == (warned & (1u32 << read) != 0 || set
            == read),
{
    assert(((warned | (1u32 << set)) & (1u32 << read) != 0) == (warned & (1u32 << read) != 0 || set
        == read)) by (bit_vector)
        requires
            set < 32,
            read < 32,
    ;
}

/// A warning is given after an observation if it was given before or became due.
pub proof fn lemma_warned_after(
    deadline: Option<nat>,
    warned: u32,
    offsets: Seq<Duration>,
    now: nat,
    count: nat,
    index: int,
)
    requires
        count <= offsets.len(),
        offsets.len() <= 32,
        0 <= index < 32,
    ensures
        is_warned(warned_after(deadline, warned, offsets, now, count), index) == (is_warned(
            warned,
            index,
        ) || index < count && becomes_due(deadline, warned, offsets, now, index)),
    decreases count,
{
    if count > 0 {
        lemma_warned_after(deadline, warned, offsets, now, (count - 1) as nat, index);
        let before = warned_after(deadline, warned, offsets, now, (count - 1) as nat);
        lemma_set_bit(before, (count - 1) as u32, index as u32);
    }
}

/// Collects the warnings of one deadline that become due behind those that were
/// found before. The answer is which warnings are given then.
fn collect_due(
    kind: SessionDeadlineKind,
    deadline: Option<Duration>,
    warned: u32,
    offsets: &[Duration],
    now: Duration,
    due: &mut Vec<DueEvent>,
) -> (marked: u32)
    requires
        offsets@.len() <= 32,
    ensures
        old(due)@.is_prefix_of(final(due)@),
        due_view(final(due)@.skip(old(due)@.len() as int)) == due_warnings(
            kind,
            instant(deadline),
            warned,
            offsets@,
            now@,
            offsets@.len(),
        ),
        marked == warned_after(instant(deadline), warned, offsets@, now@, offsets@.len()),
{
    let ghost start = due@;
    let mut marked: u32 = warned;
    let mut index: usize = 0;
    assert(due_view(due@.skip(start.len() as int)) =~= Seq::<DueWarning>::empty());
    while index < offsets.len()
        invariant
            index <= offsets@.len() <= 32,
            start.is_prefix_of(due@),
            due_view(due@.skip(start.len() as int)) == due_warnings(
                kind,
                instant(deadline),
                warned,
                offsets@,
                now@,
                index as nat,
            ),
            marked == warned_after(instant(deadline), warned, offsets@, now@, index as nat),
        decreases offsets@.len() - index,
    {
        let offset = offsets[index];
        let bit: u32 = 1u32 << (index as u32);
        let crossed = boundary_of(&deadline, offset);
        if warned & bit == 0 && passed(&crossed, now) {
            if let Some(boundary) = crossed {
                let ghost before = due@;
                due.push(
                    DueEvent {
                        boundary,
                        event: SessionEvent::LockWarning { remaining: offset, deadline: kind },
                    },
                );
                assert(due_view(due@.skip(start.len() as int)) =~= due_view(
                    before.skip(start.len() as int),
                ).push(
                    DueWarning {
                        boundary: boundary@,
                        event: SessionEvent::LockWarning { remaining: offset, deadline: kind },
                    },
                ));
                marked = marked | bit;
            }
        }
        index += 1;
    }
    marked
}

/// Appends the events of the two parts of a list in boundary order.
fn append_merged(due: &Vec<DueEvent>, split: usize, events: &mut Vec<SessionEvent>)
    requires
        split <= due@.len(),
        old(events)@ == Seq::<SessionEvent>::empty(),
    ensures
        final(events)@ == warning_events(
            merged(due_view(due@.take(split as int)), due_view(due@.skip(split as int))),
        ),
{
    let ghost first = due@.take(split as int);
    let ghost second = due@.skip(split as int);
    let ghost all = merged(due_view(first), due_view(second));
    let total: usize = due.len();
    let rest: usize = total - split;
    let mut i: usize = 0;
    let mut j: usize = 0;
    assert(due_view(first).skip(0) =~= due_view(first));
    assert(due_view(second).skip(0) =~= due_view(second));
    assert(events@ + warning_events(
        merged(due_view(first).skip(0), due_view(second).skip(0)),
    ) =~= warning_events(all));
    while i < split || j < rest
        invariant
            total == due@.len(),
            split + rest == total,
            first == due@.take(split as int),
            second == due@.skip(split as int),
            i <= split,
            j <= rest,
            events@ + warning_events(
                merged(due_view(first).skip(i as int), due_view(second).skip(j as int)),
            ) == warning_events(all),
        decreases split - i + rest - j,
    {
        let ghost rest_first = due_view(first).skip(i as int);
        let ghost rest_second = due_view(second).skip(j as int);
        let ghost before = events@;
        let take_first = if i == split {
            false
        } else if j == rest {
            true
        } else {
            !due[split + j].boundary.is_shorter_than(&due[i].boundary)
        };
        proof {
            if take_first {
                assert(due_view(first).skip(i + 1) =~= rest_first.drop_first());
                if j == rest {
                    assert(rest_first =~= seq![rest_first[0]] + rest_first.drop_first());
                    assert(merged(rest_first.drop_first(), rest_second)
                        =~= rest_first.drop_first());
                }
                assert(merged(rest_first, rest_second) =~= seq![rest_first[0]] + merged(
                    rest_first.drop_first(),
                    rest_second,
                ));
                lemma_events_of_cons(rest_first[0], merged(rest_first.drop_first(), rest_second));
            } else {
                assert(due_view(second).skip(j + 1) =~= rest_second.drop_first());
                if i == split {
                    assert(rest_second =~= seq![rest_second[0]] + rest_second.drop_first());
                    assert(merged(rest_first, rest_second.drop_first())
                        =~= rest_second.drop_first());
                }
                assert(merged(rest_first, rest_second) =~= seq![rest_second[0]] + merged(
                    rest_first,
                    rest_second.drop_first(),
                ));
                lemma_events_of_cons(
                    rest_second[0],
                    merged(rest_first, rest_second.drop_first()),
                );
            }
        }
        if take_first {
            events.push(due[i].event);
            i += 1;
            assert(events@ + warning_events(
                merged(due_view(first).skip(i as int), rest_second),
            ) =~= before + warning_events(merged(rest_first, rest_second)));
        } else {
            events.push(due[split + j].event);
            j += 1;
            assert(events@ + warning_events(
                merged(rest_first, due_view(second).skip(j as int)),
            ) =~= before + warning_events(merged(rest_first, rest_second)));
        }
    }
    assert(due_view(first).skip(i as int) =~= Seq::<DueWarning>::empty());
    assert(due_view(second).skip(j as int) =~= Seq::<DueWarning>::empty());
    assert(events@ =~= warning_events(all));
}

proof fn lemma_events_of_cons(head: DueWarning, tail: Seq<DueWarning>)
    ensures
        warning_events(seq![head] + tail) == seq![head.event] + warning_events(tail),
{
    assert(warning_events(seq![head] + tail) =~= seq![head.event] + warning_events(tail));
}

/// Finds the earliest boundary of one deadline that was not given.
fn find_next_boundary(deadline: Option<Duration>, warned: u32, offsets: &[Duration]) -> (found:
    Option<Duration>)
    requires
        offsets@.len() <= 32,
    ensures
        instant(found) == next_boundary(instant(deadline), warned, offsets@, offsets@.len()),
{
    let mut found: Option<Duration> = None;
    let mut index: usize = 0;
    while index < offsets.len()
        invariant
            index <= offsets@.len() <= 32,
            instant(found) == next_boundary(instant(deadline), warned, offsets@, index as nat),
        decreases offsets@.len() - index,
    {
        let bit: u32 = 1u32 << (index as u32);
        if warned & bit == 0 {
            found = earlier_of(found, boundary_of(&deadline, offsets[index]));
        }
        index += 1;
    }
    found
}

impl SessionData {
    fn see_sample(&mut self, now: Duration)
        ensures
            final(self)@ == after_sample_seen(old(self)@, now@),
    {
        self.last_observed = self.last_observed.longest(now);
    }

    fn deadline_passed(&self) -> (expired: bool)
        ensures
            expired == is_expired(self@, self@.last_observed),
    {
        self.expired || passed(&self.inactivity_deadline, self.last_observed) || passed(
            &self.absolute_deadline,
            self.last_observed,
        )
    }

    pub(crate) fn record_activity(&mut self, policy: &SessionPolicy, now: Duration) -> (recorded: Result<
        (),
        ServiceError,
    >)
        ensures
            recorded == activity_answer(old(self)@, policy@, now@),
            final(self)@ == after_activity(old(self)@, policy@, now@),
    {
        self.see_sample(now);
        if self.state != SessionState::Unlocked {
            return Err(ServiceError::Locked);
        }
        if self.deadline_passed() {
            self.expired = true;
            return Err(ServiceError::Locked);
        }
        match self.last_observed.checked_add(policy.inactivity_timeout()) {
            Some(deadline) => {
                self.inactivity_deadline = Some(deadline);
                self.inactivity_warnings = 0;
                Ok(())
            },
            None => Err(ServiceError::ClockFailure),
        }
    }

    /// Remembers an expiry.
    pub(crate) fn note_expiry(&mut self, now: Duration)
        ensures
            final(self)@ == after_refused_observation(old(self)@, now@),
    {
        self.see_sample(now);
        if self.state == SessionState::Unlocked {
            self.expired = self.deadline_passed();
        }
    }

    /// Observes the deadlines with room for the warnings that become due.
    pub(crate) fn observe(
        &mut self,
        policy: &SessionPolicy,
        now: Duration,
        room: Vec<DueEvent>,
    ) -> (found: DueObservation)
        requires
            room@ == Seq::<DueEvent>::empty(),
        ensures
            final(self)@ == after_observation(old(self)@, policy@, now@),
            found@ == observed(old(self)@, policy@, now@),
    {
        let mut due = room;
        let mut split: usize = 0;
        assert(due_view(due@.take(0)) =~= Seq::<DueWarning>::empty());
        assert(due_view(due@.skip(0)) =~= Seq::<DueWarning>::empty());
        self.see_sample(now);
        if self.state != SessionState::Unlocked {
            return DueObservation { expired: false, due, split, next_wait: None };
        }
        let expired = self.deadline_passed();
        self.expired = expired;
        let offsets = policy.warning_offsets();
        if !expired {
            self.inactivity_warnings = collect_due(
                SessionDeadlineKind::Inactivity,
                self.inactivity_deadline,
                self.inactivity_warnings,
                offsets,
                self.last_observed,
                &mut due,
            );
            split = due.len();
            let ghost inactivity = due@;
            assert(inactivity.skip(0) =~= inactivity);
            self.absolute_warnings = collect_due(
                SessionDeadlineKind::Absolute,
                self.absolute_deadline,
                self.absolute_warnings,
                offsets,
                self.last_observed,
                &mut due,
            );
            assert(due@.take(split as int) =~= inactivity);
        }
        let next = earlier_of(
            earlier_of(self.inactivity_deadline, self.absolute_deadline),
            earlier_of(
                find_next_boundary(self.inactivity_deadline, self.inactivity_warnings, offsets),
                find_next_boundary(self.absolute_deadline, self.absolute_warnings, offsets),
            ),
        );
        let next_wait = match next {
            Some(next) => Some(next.saturating_sub(self.last_observed)),
            None => None,
        };
        DueObservation { expired, due, split, next_wait }
    }
}

/// The session after cleanup became required. The requirement stays until a
/// cleanup is proven. An unlock under way is cancelled.
pub open spec fn after_cleanup_required(data: SessionModel) -> SessionModel {
    SessionModel {
        cleanup_required: true,
        unlock_attempt: cancelled_attempt(data.unlock_attempt),
        state: if data.state is Unlocked {
            SessionState::Unlocked
        } else {
            SessionState::CleanupRequired
        },
        ..data
    }
}

/// An attempt after it was cancelled.
pub open spec fn cancelled_attempt(attempt: Option<UnlockAttempt>) -> Option<UnlockAttempt> {
    match attempt {
        Some(attempt) => Some(UnlockAttempt { cancelled: true, ..attempt }),
        None => None,
    }
}

/// What the repository answered to an unlock.
#[derive(Clone, Copy, Debug, PartialEq, Eq, Structural)]
pub enum RepositoryAnswer {
    /// It handed out a root capability.
    Unlocked,
    /// It refused.
    Failed(ServiceError),
    /// It panicked.
    Panicked,
}

/// What an unlock does next.
#[derive(Clone, Copy, Debug, PartialEq, Eq)]
pub enum UnlockStep {
    /// Unlock the repository with the secret.
    UnlockRepository,
    /// Take the revocation handle of the new root capability.
    WrapRoot,
    /// Reconcile the authenticated workspaces of the new root.
    Reconcile,
    /// Ask the repository for its vault identity.
    ReadVaultId,
    /// Sample the clock.
    SampleClock,
    /// Close the new root capability, which has no revocation handle.
    CloseUnwrapped,
    /// Revoke and close the new root capability.
    CloseRoot {
        /// Cleanup becomes required even where the close succeeds.
        latch: bool,
        /// Failure that the unlock reports in the end.
        error: ServiceError,
    },
    /// Clean the base directory that the host owns.
    CleanBase { error: ServiceError },
    /// The unlock is over.
    Done(Result<SessionSummary, ServiceError>),
}

/// What the beginning of an unlock answers.
pub open spec fn begin_unlock_answer(data: SessionModel) -> Result<u64, ServiceError> {
    if !(data.state is Locked) || data.unlock_attempt is Some {
        Err(ServiceError::Locked)
    } else if data.epoch == u64::MAX {
        Err(ServiceError::IdentifierExhausted)
    } else {
        Ok((data.epoch + 1) as u64)
    }
}

/// The session after an unlock began: its generation is new.
pub open spec fn after_begin_unlock(data: SessionModel) -> SessionModel {
    match begin_unlock_answer(data) {
        Ok(generation) => SessionModel {
            epoch: generation,
            unlock_attempt: Some(UnlockAttempt { generation, cancelled: false }),
            cleanup_owner: true,
            ..data
        },
        Err(_) => data,
    }
}

/// The state of a session at rest.
pub open spec fn resting_state(failed: bool) -> SessionState {
    if failed {
        SessionState::CleanupRequired
    } else {
        SessionState::Locked
    }
}

/// An unlock after the startup cleanup.
pub open spec fn startup_cleaned_step(data: SessionModel, cleaned: bool) -> (
    SessionModel,
    UnlockStep,
) {
    if data.unlock_attempt is None {
        (data, UnlockStep::Done(Err(ServiceError::Cancelled)))
    } else if !cleaned {
        (
            SessionModel {
                unlock_attempt: None,
                cleanup_owner: false,
                state: SessionState::CleanupRequired,
                ..data
            },
            UnlockStep::Done(Err(ServiceError::CleanupRequired)),
        )
    } else if data.unlock_attempt->0.cancelled {
        (
            SessionModel {
                unlock_attempt: None,
                cleanup_owner: false,
                state: resting_state(data.cleanup_required),
                ..data
            },
            UnlockStep::Done(Err(refusal(data))),
        )
    } else {
        (SessionModel { state: SessionState::Unlocking, ..data }, UnlockStep::UnlockRepository)
    }
}

/// Whether an unlock may go on: it is the current one, it was not cancelled and
/// no cleanup is required.
pub open spec fn attempt_is_live(data: SessionModel, generation: u64) -> bool {
    &&& data.epoch == generation
    &&& data.unlock_attempt == Some(UnlockAttempt { generation, cancelled: false })
    &&& !data.cleanup_required
}

/// The failure of an unlock that may not go on.
pub open spec fn refusal(data: SessionModel) -> ServiceError {
    if data.cleanup_required {
        ServiceError::CleanupRequired
    } else {
        ServiceError::Cancelled
    }
}

/// The session after an unlock was given up before its root was provisional.
pub open spec fn given_up(data: SessionModel) -> SessionModel {
    SessionModel { unlock_attempt: None, state: SessionState::Locking, ..data }
}

/// Whether the session still holds the provisional root of an unlock.
pub open spec fn holds_provisional(data: SessionModel, generation: u64) -> bool {
    data.provisional_unlock == Some(generation)
}

/// The session after an unlock was given up whose root was made provisional. A
/// root that a lock took over stays with that lock.
pub open spec fn given_up_provisional(data: SessionModel, generation: u64) -> SessionModel {
    if holds_provisional(data, generation) {
        SessionModel { provisional_unlock: None, ..given_up(data) }
    } else {
        SessionModel { unlock_attempt: None, ..data }
    }
}

/// An unlock after the repository answered.
pub open spec fn repository_step(
    data: SessionModel,
    generation: u64,
    answer: RepositoryAnswer,
) -> (SessionModel, UnlockStep) {
    if !attempt_is_live(data, generation) {
        (
            given_up(data),
            if answer is Unlocked {
                UnlockStep::CloseRoot { latch: false, error: refusal(data) }
            } else {
                UnlockStep::CleanBase { error: refusal(data) }
            },
        )
    } else {
        match answer {
            RepositoryAnswer::Unlocked => (data, UnlockStep::WrapRoot),
            RepositoryAnswer::Panicked => (
                after_cleanup_required(given_up(data)),
                UnlockStep::CleanBase { error: ServiceError::CleanupRequired },
            ),
            RepositoryAnswer::Failed(error) => (
                SessionModel {
                    unlock_attempt: None,
                    cleanup_owner: false,
                    cleanup_required: error is CleanupRequired,
                    state: resting_state(error is CleanupRequired),
                    ..data
                },
                UnlockStep::Done(Err(error)),
            ),
        }
    }
}

/// An unlock after the root capability was asked for its revocation handle.
pub open spec fn wrapped_step(data: SessionModel, generation: u64, wrapped: bool) -> (
    SessionModel,
    UnlockStep,
) {
    if !wrapped {
        (data, UnlockStep::CloseUnwrapped)
    } else if !(data.state is Unlocking) || !attempt_is_live(data, generation) {
        (
            given_up(data),
            UnlockStep::CloseRoot { latch: false, error: ServiceError::Cancelled },
        )
    } else {
        (
            SessionModel { provisional_unlock: Some(generation), ..data },
            UnlockStep::Reconcile,
        )
    }
}

/// An unlock that failed on its provisional root.
pub open spec fn provisional_failure(data: SessionModel, generation: u64) -> (
    SessionModel,
    UnlockStep,
) {
    if holds_provisional(data, generation) {
        (
            given_up_provisional(data, generation),
            UnlockStep::CloseRoot { latch: true, error: ServiceError::CleanupRequired },
        )
    } else {
        (
            after_cleanup_required(given_up_provisional(data, generation)),
            UnlockStep::Done(Err(ServiceError::CleanupRequired)),
        )
    }
}

/// An unlock after the workspaces were reconciled.
pub open spec fn reconciled_step(data: SessionModel, generation: u64, reconciled: bool) -> (
    SessionModel,
    UnlockStep,
) {
    if reconciled {
        (data, UnlockStep::ReadVaultId)
    } else {
        provisional_failure(data, generation)
    }
}

/// An unlock after the vault was asked for its identity.
pub open spec fn identified_step(data: SessionModel, generation: u64, identified: bool) -> (
    SessionModel,
    UnlockStep,
) {
    if identified {
        (data, UnlockStep::SampleClock)
    } else {
        provisional_failure(data, generation)
    }
}

/// Deadlines of a session that is opened at `now`.
pub open spec fn opening_deadlines(policy: PolicyModel, sampled: Result<Duration, ServiceError>) -> Result<
    (nat, nat),
    ServiceError,
> {
    match sampled {
        Err(error) => Err(error),
        Ok(now) => if now@ + policy.inactivity_timeout@ > time::MAX_DURATION_NANOS || now@
            + policy.absolute_timeout@ > time::MAX_DURATION_NANOS {
            Err(ServiceError::ClockFailure)
        } else {
            Ok((now@ + policy.inactivity_timeout@, now@ + policy.absolute_timeout@))
        },
    }
}

/// The step that gives a provisional root back with a failure.
pub open spec fn give_back_step(data: SessionModel, generation: u64, error: ServiceError) -> UnlockStep {
    if holds_provisional(data, generation) {
        UnlockStep::CloseRoot { latch: false, error }
    } else {
        UnlockStep::Done(Err(error))
    }
}

/// An unlock after the clock was sampled: the last look at everything that
/// could have stopped it, and then the session is open.
pub open spec fn sampled_step(
    data: SessionModel,
    policy: PolicyModel,
    generation: u64,
    vault_id: VaultId,
    sampled: Result<Duration, ServiceError>,
) -> (SessionModel, UnlockStep) {
    if !attempt_is_live(data, generation) {
        (
            given_up_provisional(data, generation),
            give_back_step(data, generation, refusal(data)),
        )
    } else {
        let seen = match sampled {
            Ok(now) => after_sample_seen(data, now@),
            Err(_) => data,
        };
        match opening_deadlines(policy, sampled) {
            Err(error) => (
                given_up_provisional(seen, generation),
                give_back_step(seen, generation, error),
            ),
            Ok((inactivity, absolute)) => {
                let armed = SessionModel {
                    inactivity_deadline: Some(inactivity),
                    absolute_deadline: Some(absolute),
                    inactivity_warnings: 0,
                    absolute_warnings: 0,
                    expired: false,
                    provisional_unlock: None,
                    unlock_attempt: None,
                    ..seen
                };
                if holds_provisional(seen, generation) {
                    (
                        SessionModel {
                            unlocked: Some(generation),
                            cleanup_owner: false,
                            state: SessionState::Unlocked,
                            ..armed
                        },
                        UnlockStep::Done(Ok(session::session_summary(vault_id, generation))),
                    )
                } else {
                    (armed, UnlockStep::Done(Err(ServiceError::Cancelled)))
                }
            },
        }
    }
}

/// An unlock after its root was closed.
pub open spec fn after_root_closed(data: SessionModel, latch: bool, failed: bool) -> SessionModel {
    if latch || failed {
        after_cleanup_required(data)
    } else {
        data
    }
}

/// An unlock after its root, which could not be wrapped, was closed.
pub open spec fn after_unwrapped_closed(data: SessionModel) -> SessionModel {
    after_cleanup_required(given_up(data))
}

/// The session after the cleanup of an unlock that was given up.
pub open spec fn after_given_up_cleanup(data: SessionModel, cleaned: bool) -> SessionModel {
    SessionModel {
        state: resting_state(!cleaned || data.cleanup_required),
        cleanup_owner: false,
        ..data
    }
}

/// The session after a lock began: its root, if any, is handed to the lock.
pub open spec fn after_begin_lock(data: SessionModel) -> SessionModel {
    let stopped = SessionModel {
        unlock_attempt: cancelled_attempt(data.unlock_attempt),
        ..data
    };
    match data.state {
        SessionState::Unlocked => SessionModel {
            state: SessionState::Locking,
            cleanup_owner: true,
            inactivity_deadline: None,
            absolute_deadline: None,
            inactivity_warnings: 0,
            absolute_warnings: 0,
            expired: false,
            unlocked: None,
            ..stopped
        },
        SessionState::Unlocking => SessionModel {
            state: SessionState::Locking,
            cleanup_owner: true,
            provisional_unlock: None,
            ..stopped
        },
        _ => stopped,
    }
}

/// The root that a lock takes over.
pub open spec fn lock_takes(data: SessionModel) -> Option<u64> {
    match data.state {
        SessionState::Unlocked => data.unlocked,
        SessionState::Unlocking => data.provisional_unlock,
        _ => None,
    }
}

/// What the beginning of a cleanup retry answers.
pub open spec fn begin_retry_answer(data: SessionModel, workspace_attempts: nat) -> Result<
    (),
    ServiceError,
> {
    if !(data.state is CleanupRequired) {
        Err(ServiceError::Locked)
    } else if data.unlock_attempt is Some || data.cleanup_owner || workspace_attempts != 0 {
        Err(ServiceError::Busy)
    } else {
        Ok(())
    }
}

/// The session after a cleanup retry ended.
pub open spec fn after_retry(data: SessionModel, clean: bool) -> SessionModel {
    SessionModel {
        state: resting_state(!clean),
        cleanup_required: data.cleanup_required && !clean,
        cleanup_owner: false,
        ..data
    }
}

impl SessionData {
    pub(crate) fn state(&self) -> (state: SessionState)
        ensures
            state == self@.state,
    {
        self.state
    }

    pub(crate) fn epoch(&self) -> (epoch: u64)
        ensures
            epoch == self@.epoch,
    {
        self.epoch
    }

    pub(crate) fn holds_root(&self) -> (held: bool)
        ensures
            held == (self@.unlocked is Some),
    {
        self.unlocked.is_some()
    }

    pub(crate) fn owns_cleanup(&self) -> (owned: bool)
        ensures
            owned == self@.cleanup_owner,
    {
        self.cleanup_owner
    }

    pub(crate) fn cleanup_required(&self) -> (required: bool)
        ensures
            required == self@.cleanup_required,
    {
        self.cleanup_required
    }

    pub(crate) fn is_unlocking(&self) -> (unlocking: bool)
        ensures
            unlocking == (self@.unlock_attempt is Some),
    {
        self.unlock_attempt.is_some()
    }

    /// Begins a retry of the cleanup.
    pub(crate) fn begin_retry(&mut self)
        ensures
            final(self)@ == (SessionModel {
                state: SessionState::Locking,
                cleanup_owner: true,
                ..old(self)@
            }),
    {
        self.state = SessionState::Locking;
        self.cleanup_owner = true;
    }

    /// Ends a retry of the cleanup: only a clean one lifts the requirement.
    pub(crate) fn finish_retry(&mut self, clean: bool)
        ensures
            final(self)@ == after_retry(old(self)@, clean),
    {
        if clean {
            self.cleanup_required = false;
        }
        self.rest(!clean);
    }

    /// A locked session that was never unlocked.
    pub(crate) fn locked_at(now: Duration) -> (data: Self)
        ensures
            data@ == locked_session(now@),
    {
        SessionData {
            state: SessionState::Locked,
            epoch: 0,
            last_observed: now,
            inactivity_deadline: None,
            absolute_deadline: None,
            unlocked: None,
            provisional_unlock: None,
            unlock_attempt: None,
            cleanup_owner: false,
            inactivity_warnings: 0,
            absolute_warnings: 0,
            expired: false,
            cleanup_required: false,
        }
    }

    pub(crate) fn require_cleanup(&mut self)
        ensures
            final(self)@ == after_cleanup_required(old(self)@),
    {
        self.cleanup_required = true;
        self.cancel_attempt();
        if self.state != SessionState::Unlocked {
            self.state = SessionState::CleanupRequired;
        }
    }

    fn cancel_attempt(&mut self)
        ensures
            final(self)@ == (SessionModel {
                unlock_attempt: cancelled_attempt(old(self)@.unlock_attempt),
                ..old(self)@
            }),
    {
        if let Some(attempt) = self.unlock_attempt {
            self.unlock_attempt =
            Some(UnlockAttempt { generation: attempt.generation, cancelled: true });
        }
    }

    pub(crate) fn is_live(&self, generation: u64) -> (live: bool)
        ensures
            live == attempt_is_live(self@, generation),
    {
        let exact = match self.unlock_attempt {
            Some(attempt) => attempt.generation == generation && !attempt.cancelled,
            None => false,
        };
        self.epoch == generation && exact && !self.cleanup_required
    }

    fn refusal_error(&self) -> (error: ServiceError)
        ensures
            error == refusal(self@),
    {
        if self.cleanup_required {
            ServiceError::CleanupRequired
        } else {
            ServiceError::Cancelled
        }
    }

    fn holds(&self, generation: u64) -> (held: bool)
        ensures
            held == holds_provisional(self@, generation),
    {
        match self.provisional_unlock {
            Some(root) => root == generation,
            None => false,
        }
    }

    fn give_up(&mut self)
        ensures
            final(self)@ == given_up(old(self)@),
    {
        self.unlock_attempt = None;
        self.state = SessionState::Locking;
    }

    fn give_up_provisional(&mut self, generation: u64) -> (held: bool)
        ensures
            held == holds_provisional(old(self)@, generation),
            final(self)@ == given_up_provisional(old(self)@, generation),
    {
        let held = self.holds(generation);
        self.unlock_attempt = None;
        if held {
            self.provisional_unlock = None;
            self.state = SessionState::Locking;
        }
        held
    }

    pub(crate) fn fail_provisional(&mut self, generation: u64) -> (step: UnlockStep)
        ensures
            (final(self)@, step) == provisional_failure(old(self)@, generation),
    {
        if self.give_up_provisional(generation) {
            UnlockStep::CloseRoot { latch: true, error: ServiceError::CleanupRequired }
        } else {
            self.require_cleanup();
            UnlockStep::Done(Err(ServiceError::CleanupRequired))
        }
    }

    pub(crate) fn begin_unlock(&mut self) -> (generation: Result<u64, ServiceError>)
        ensures
            generation == begin_unlock_answer(old(self)@),
            final(self)@ == after_begin_unlock(old(self)@),
    {
        if self.state != SessionState::Locked || self.unlock_attempt.is_some() {
            return Err(ServiceError::Locked);
        }
        if self.epoch == u64::MAX {
            return Err(ServiceError::IdentifierExhausted);
        }
        self.epoch = self.epoch + 1;
        self.unlock_attempt = Some(UnlockAttempt { generation: self.epoch, cancelled: false });
        self.cleanup_owner = true;
        Ok(self.epoch)
    }

    pub(crate) fn startup_cleaned(&mut self, cleaned: bool) -> (step: UnlockStep)
        ensures
            (final(self)@, step) == startup_cleaned_step(old(self)@, cleaned),
    {
        let attempt = match self.unlock_attempt {
            Some(attempt) => attempt,
            None => return UnlockStep::Done(Err(ServiceError::Cancelled)),
        };
        if !cleaned {
            self.unlock_attempt = None;
            self.cleanup_owner = false;
            self.state = SessionState::CleanupRequired;
            return UnlockStep::Done(Err(ServiceError::CleanupRequired));
        }
        if attempt.cancelled {
            let error = self.refusal_error();
            self.unlock_attempt = None;
            self.cleanup_owner = false;
            self.state = if self.cleanup_required {
                SessionState::CleanupRequired
            } else {
                SessionState::Locked
            };
            return UnlockStep::Done(Err(error));
        }
        self.state = SessionState::Unlocking;
        UnlockStep::UnlockRepository
    }

    pub(crate) fn repository_answered(&mut self, generation: u64, answer: RepositoryAnswer) -> (step:
        UnlockStep)
        ensures
            (final(self)@, step) == repository_step(old(self)@, generation, answer),
    {
        if !self.is_live(generation) {
            let error = self.refusal_error();
            self.give_up();
            return match answer {
                RepositoryAnswer::Unlocked => UnlockStep::CloseRoot { latch: false, error },
                _ => UnlockStep::CleanBase { error },
            };
        }
        match answer {
            RepositoryAnswer::Unlocked => UnlockStep::WrapRoot,
            RepositoryAnswer::Panicked => {
                self.give_up();
                self.require_cleanup();
                UnlockStep::CleanBase { error: ServiceError::CleanupRequired }
            },
            RepositoryAnswer::Failed(error) => {
                let cleanup_required = error == ServiceError::CleanupRequired;
                self.unlock_attempt = None;
                self.cleanup_required = cleanup_required;
                self.state = if cleanup_required {
                    SessionState::CleanupRequired
                } else {
                    SessionState::Locked
                };
                self.cleanup_owner = false;
                UnlockStep::Done(Err(error))
            },
        }
    }

    pub(crate) fn root_wrapped(&mut self, generation: u64, wrapped: bool) -> (step: UnlockStep)
        ensures
            (final(self)@, step) == wrapped_step(old(self)@, generation, wrapped),
    {
        if !wrapped {
            return UnlockStep::CloseUnwrapped;
        }
        if self.state != SessionState::Unlocking || !self.is_live(generation) {
            self.give_up();
            return UnlockStep::CloseRoot { latch: false, error: ServiceError::Cancelled };
        }
        self.provisional_unlock = Some(generation);
        UnlockStep::Reconcile
    }

    pub(crate) fn unwrapped_closed(&mut self)
        ensures
            final(self)@ == after_unwrapped_closed(old(self)@),
    {
        self.give_up();
        self.require_cleanup();
    }

    pub(crate) fn clock_sampled(
        &mut self,
        policy: &SessionPolicy,
        generation: u64,
        vault_id: VaultId,
        sampled: Result<Duration, ServiceError>,
    ) -> (step: UnlockStep)
        ensures
            (final(self)@, step) == sampled_step(
                old(self)@,
                policy@,
                generation,
                vault_id,
                sampled,
            ),
    {
        if !self.is_live(generation) {
            let error = self.refusal_error();
            return if self.give_up_provisional(generation) {
                UnlockStep::CloseRoot { latch: false, error }
            } else {
                UnlockStep::Done(Err(error))
            };
        }
        let deadlines: Result<(Duration, Duration), ServiceError> = match sampled {
            Err(error) => Err(error),
            Ok(now) => {
                self.see_sample(now);
                match (
                    now.checked_add(policy.inactivity_timeout()),
                    now.checked_add(policy.absolute_timeout()),
                ) {
                    (Some(inactivity), Some(absolute)) => Ok((inactivity, absolute)),
                    _ => Err(ServiceError::ClockFailure),
                }
            },
        };
        let (inactivity, absolute) = match deadlines {
            Ok(deadlines) => deadlines,
            Err(error) => {
                return if self.give_up_provisional(generation) {
                    UnlockStep::CloseRoot { latch: false, error }
                } else {
                    UnlockStep::Done(Err(error))
                };
            },
        };
        let held = self.holds(generation);
        self.inactivity_deadline = Some(inactivity);
        self.absolute_deadline = Some(absolute);
        self.inactivity_warnings = 0;
        self.absolute_warnings = 0;
        self.expired = false;
        self.provisional_unlock = None;
        self.unlock_attempt = None;
        if !held {
            return UnlockStep::Done(Err(ServiceError::Cancelled));
        }
        self.unlocked = Some(generation);
        self.cleanup_owner = false;
        self.state = SessionState::Unlocked;
        UnlockStep::Done(Ok(SessionSummary::new(vault_id, generation)))
    }

    pub(crate) fn rest(&mut self, failed: bool)
        ensures
            final(self)@ == (SessionModel {
                state: resting_state(failed),
                cleanup_owner: false,
                ..old(self)@
            }),
    {
        self.state = if failed {
            SessionState::CleanupRequired
        } else {
            SessionState::Locked
        };
        self.cleanup_owner = false;
    }

    pub(crate) fn begin_lock(&mut self) -> (root: Option<u64>)
        ensures
            root == lock_takes(old(self)@),
            final(self)@ == after_begin_lock(old(self)@),
    {
        self.cancel_attempt();
        match self.state {
            SessionState::Unlocked => {
                self.state = SessionState::Locking;
                self.cleanup_owner = true;
                self.inactivity_deadline = None;
                self.absolute_deadline = None;
                self.inactivity_warnings = 0;
                self.absolute_warnings = 0;
                self.expired = false;
                self.unlocked.take()
            },
            SessionState::Unlocking => {
                self.state = SessionState::Locking;
                self.cleanup_owner = true;
                self.provisional_unlock.take()
            },
            _ => None,
        }
    }
}

/// A locked session that was never unlocked.
pub open spec fn locked_session(now: nat) -> SessionModel {
    SessionModel {
        state: SessionState::Locked,
        epoch: 0,
        last_observed: now,
        inactivity_deadline: None,
        absolute_deadline: None,
        unlocked: None,
        provisional_unlock: None,
        unlock_attempt: None,
        cleanup_owner: false,
        inactivity_warnings: 0,
        absolute_warnings: 0,
        expired: false,
        cleanup_required: false,
    }
}

} // verus!
