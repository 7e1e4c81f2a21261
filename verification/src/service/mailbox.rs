//! The mailbox of priority controls.
use std::collections::VecDeque;

use vstd::prelude::*;

use crate::error::ServiceError;
use crate::memory;
use crate::memory::queue_room;
use crate::service;
use crate::service::Control;

verus! {

/// One control that waits for the coordinator.
#[derive(Clone, Copy, Debug, PartialEq, Eq)]
pub struct PendingControl {
    pub control: Control,
    pub generation: u64,
    pub trusted_activity: bool,
}

/// Coalesced priority controls. A global control and trusted activity have a
/// place of their own, so that a full queue never delays them.
pub struct ControlMailbox {
    pending: VecDeque<PendingControl>,
    global_notified: Option<u64>,
    global_control: Option<PendingControl>,
    trusted_activity_pending: Option<u64>,
    trusted_activity_dispatched: Option<u64>,
    untrusted_activity_pending: Option<u64>,
    capacity: usize,
}

/// Contents of a [`ControlMailbox`].
pub struct MailboxModel {
    pub pending: Seq<PendingControl>,
    pub global_notified: Option<u64>,
    pub global_control: Option<PendingControl>,
    pub trusted_activity_pending: Option<u64>,
    pub trusted_activity_dispatched: Option<u64>,
    pub untrusted_activity_pending: Option<u64>,
    pub capacity: usize,
}

impl View for ControlMailbox {
    type V = MailboxModel;

    closed spec fn view(&self) -> MailboxModel {
        MailboxModel {
            pending: self.pending@,
            global_notified: self.global_notified,
            global_control: self.global_control,
            trusted_activity_pending: self.trusted_activity_pending,
            trusted_activity_dispatched: self.trusted_activity_dispatched,
            untrusted_activity_pending: self.untrusted_activity_pending,
            capacity: self.capacity,
        }
    }
}

/// Whether the allocator may have refused room for the controls of a mailbox.
pub open spec fn mailbox_refused(capacity: int) -> bool {
    memory::queue_refused(Seq::<PendingControl>::empty(), capacity)
}

/// An empty mailbox.
pub open spec fn empty_mailbox(capacity: usize) -> MailboxModel {
    MailboxModel {
        pending: Seq::empty(),
        global_notified: None,
        global_control: None,
        trusted_activity_pending: None,
        trusted_activity_dispatched: None,
        untrusted_activity_pending: None,
        capacity,
    }
}

/// Invariant of a mailbox.
pub open spec fn mailbox_wf(mailbox: MailboxModel) -> bool {
    mailbox.pending.len() <= mailbox.capacity
}

/// The mailbox after one control was put in, if there is room.
pub open spec fn after_push(
    mailbox: MailboxModel,
    control: Control,
    generation: u64,
    trusted_activity: bool,
) -> MailboxModel {
    if mailbox.pending.len() >= mailbox.capacity {
        mailbox
    } else {
        MailboxModel {
            pending: mailbox.pending.push(PendingControl { control, generation, trusted_activity }),
            ..mailbox
        }
    }
}

/// The mailbox after the oldest control was taken out.
pub open spec fn after_pop(mailbox: MailboxModel) -> MailboxModel {
    if mailbox.pending.len() == 0 {
        mailbox
    } else {
        let taken = mailbox.pending[0];
        MailboxModel {
            pending: mailbox.pending.drop_first(),
            global_notified: if service::is_global(taken.control) && mailbox.global_notified
                == Some(taken.generation) {
                None
            } else {
                mailbox.global_notified
            },
            trusted_activity_pending: if taken.control is UserActivity && taken.trusted_activity
                && mailbox.trusted_activity_pending == Some(taken.generation) {
                None
            } else {
                mailbox.trusted_activity_pending
            },
            untrusted_activity_pending: if taken.control is UserActivity && !taken.trusted_activity
                && mailbox.untrusted_activity_pending == Some(taken.generation) {
                None
            } else {
                mailbox.untrusted_activity_pending
            },
            ..mailbox
        }
    }
}

/// Trusted activity that was not dispatched yet.
pub open spec fn trusted_activity(mailbox: MailboxModel) -> Option<PendingControl> {
    match mailbox.trusted_activity_pending {
        Some(generation) if mailbox.trusted_activity_dispatched != Some(generation) => Some(
            PendingControl { control: Control::UserActivity, generation, trusted_activity: true },
        ),
        _ => None,
    }
}

/// The control that the coordinator sees next: a global one, then trusted
/// activity, then the oldest of the others.
pub open spec fn next_control(mailbox: MailboxModel) -> Option<PendingControl> {
    if mailbox.global_control is Some {
        mailbox.global_control
    } else if trusted_activity(mailbox) is Some {
        trusted_activity(mailbox)
    } else if mailbox.pending.len() > 0 {
        Some(mailbox.pending[0])
    } else {
        None
    }
}

/// The mailbox after the coordinator took the next control.
pub open spec fn after_next(mailbox: MailboxModel) -> MailboxModel {
    if mailbox.global_control is Some {
        MailboxModel { global_control: None, ..mailbox }
    } else if trusted_activity(mailbox) is Some {
        MailboxModel {
            trusted_activity_dispatched: mailbox.trusted_activity_pending,
            ..mailbox
        }
    } else {
        after_pop(mailbox)
    }
}

/// Number of controls that the coordinator can still take.
pub open spec fn backlog(mailbox: MailboxModel) -> nat {
    mailbox.pending.len() + (if mailbox.global_control is Some {
        1nat
    } else {
        0nat
    }) + (if trusted_activity(mailbox) is Some {
        1nat
    } else {
        0nat
    })
}

/// The control that the coordinator handles next: those of another generation
/// are dropped on the way.
pub open spec fn current_control(mailbox: MailboxModel, generation: u64) -> Option<PendingControl>
    decreases backlog(mailbox),
{
    match next_control(mailbox) {
        None => None,
        Some(control) => if control.generation == generation {
            Some(control)
        } else {
            current_control(after_next(mailbox), generation)
        },
    }
}

/// The mailbox after the coordinator took the control that it handles next.
pub open spec fn after_current(mailbox: MailboxModel, generation: u64) -> MailboxModel
    decreases backlog(mailbox),
{
    match next_control(mailbox) {
        None => mailbox,
        Some(control) => if control.generation == generation {
            after_next(mailbox)
        } else {
            after_current(after_next(mailbox), generation)
        },
    }
}

/// The mailbox after a global control was asked for. One is enough for a
/// generation.
pub open spec fn after_global(mailbox: MailboxModel, control: Control, generation: u64) -> MailboxModel {
    if mailbox.global_notified == Some(generation) {
        mailbox
    } else {
        MailboxModel {
            global_notified: Some(generation),
            global_control: Some(PendingControl { control, generation, trusted_activity: false }),
            ..mailbox
        }
    }
}

/// The mailbox after trusted activity.
pub open spec fn after_trusted(mailbox: MailboxModel, generation: u64) -> MailboxModel {
    MailboxModel { trusted_activity_pending: Some(generation), ..mailbox }
}

/// Whether untrusted activity is to be noted.
pub open spec fn notes_untrusted(mailbox: MailboxModel, generation: u64) -> bool {
    mailbox.untrusted_activity_pending != Some(generation)
}

/// The mailbox after untrusted activity: one note is enough for a generation.
pub open spec fn after_untrusted(mailbox: MailboxModel, generation: u64) -> MailboxModel {
    if notes_untrusted(mailbox, generation) {
        after_push(
            MailboxModel { untrusted_activity_pending: Some(generation), ..mailbox },
            Control::UserActivity,
            generation,
            false,
        )
    } else {
        mailbox
    }
}

/// The mailbox after a control was observed.
pub open spec fn after_observed(mailbox: MailboxModel, observed: PendingControl) -> MailboxModel {
    if observed.trusted_activity && mailbox.trusted_activity_pending == Some(observed.generation) {
        MailboxModel {
            trusted_activity_pending: None,
            trusted_activity_dispatched: None,
            ..mailbox
        }
    } else {
        mailbox
    }
}

/// The controls of one generation.
pub open spec fn of_generation(pending: Seq<PendingControl>, generation: u64) -> Seq<PendingControl> {
    pending.filter(|control: PendingControl| control.generation == generation)
}

/// The mailbox at the beginning of a generation.
pub open spec fn after_reset(mailbox: MailboxModel, generation: u64) -> MailboxModel {
    MailboxModel {
        pending: of_generation(mailbox.pending, generation),
        ..empty_mailbox(mailbox.capacity)
    }
}

/// The mailbox keeps its bound.
pub proof fn lemma_mailbox_wf(
    mailbox: MailboxModel,
    control: Control,
    generation: u64,
    observed: PendingControl,
)
    requires
        mailbox_wf(mailbox),
    ensures
        mailbox_wf(empty_mailbox(mailbox.capacity)),
        mailbox_wf(after_push(mailbox, control, generation, observed.trusted_activity)),
        mailbox_wf(after_current(mailbox, generation)),
        mailbox_wf(after_global(mailbox, control, generation)),
        mailbox_wf(after_trusted(mailbox, generation)),
        mailbox_wf(after_untrusted(mailbox, generation)),
        mailbox_wf(after_observed(mailbox, observed)),
        mailbox_wf(after_reset(mailbox, generation)),
    decreases backlog(mailbox),
{
    mailbox.pending.lemma_filter_len(
        |control: PendingControl| control.generation == generation,
    );
    if let Some(next) = next_control(mailbox) {
        if next.generation != generation {
            lemma_mailbox_wf(after_next(mailbox), control, generation, observed);
        }
    }
}

fn is_generation(slot: &Option<u64>, generation: u64) -> (same: bool)
    ensures
        same == (*slot == Some(generation)),
{
    match slot {
        Some(own) => *own == generation,
        None => false,
    }
}

impl ControlMailbox {
    /// An empty mailbox.
    pub fn new(capacity: usize) -> (mailbox: Result<Self, ServiceError>)
        ensures
            match mailbox {
                Ok(mailbox) => mailbox@ == empty_mailbox(capacity),
                Err(error) => error == ServiceError::InvalidConfiguration && mailbox_refused(
                    capacity as int,
                ),
            },
    {
        ControlMailbox::over(capacity, queue_room(capacity))
    }

    /// An empty mailbox over its queue, or none where the queue was refused.
    pub fn over(capacity: usize, room: Option<VecDeque<PendingControl>>) -> (mailbox: Result<
        Self,
        ServiceError,
    >)
        requires
            room is Some ==> room->0@ == Seq::<PendingControl>::empty(),
        ensures
            room is None ==> mailbox == Err::<Self, ServiceError>(
                ServiceError::InvalidConfiguration,
            ),
            room is Some ==> mailbox is Ok && mailbox->Ok_0@ == empty_mailbox(capacity),
    {
        match room {
            None => Err(ServiceError::InvalidConfiguration),
            Some(pending) => Ok(
                ControlMailbox {
                    pending,
                    global_notified: None,
                    global_control: None,
                    trusted_activity_pending: None,
                    trusted_activity_dispatched: None,
                    untrusted_activity_pending: None,
                    capacity,
                },
            ),
        }
    }

    /// Puts one control behind those that wait.
    pub fn push(&mut self, control: Control, generation: u64, trusted_activity: bool) -> (pushed:
        bool)
        ensures
            pushed == (old(self)@.pending.len() < old(self)@.capacity),
            final(self)@ == after_push(old(self)@, control, generation, trusted_activity),
    {
        if self.pending.len() >= self.capacity {
            return false;
        }
        self.pending.push_back(PendingControl { control, generation, trusted_activity });
        true
    }

    fn pop(&mut self) -> (popped: Option<PendingControl>)
        ensures
            popped == if old(self)@.pending.len() > 0 {
                Some(old(self)@.pending[0])
            } else {
                None
            },
            final(self)@ == after_pop(old(self)@),
    {
        let taken = match self.pending.pop_front() {
            Some(taken) => taken,
            None => return None,
        };
        assert(self.pending@ =~= old(self)@.pending.drop_first());
        if taken.control.is_global() && is_generation(&self.global_notified, taken.generation) {
            self.global_notified = None;
        }
        if let Control::UserActivity = taken.control {
            if taken.trusted_activity {
                if is_generation(&self.trusted_activity_pending, taken.generation) {
                    self.trusted_activity_pending = None;
                }
            } else if is_generation(&self.untrusted_activity_pending, taken.generation) {
                self.untrusted_activity_pending = None;
            }
        }
        Some(taken)
    }

    fn pop_trusted_activity(&mut self) -> (popped: Option<PendingControl>)
        ensures
            popped == trusted_activity(old(self)@),
            final(self)@ == if trusted_activity(old(self)@) is Some {
                MailboxModel {
                    trusted_activity_dispatched: old(self)@.trusted_activity_pending,
                    ..old(self)@
                }
            } else {
                old(self)@
            },
    {
        let generation: u64 = match self.trusted_activity_pending {
            Some(generation) => generation,
            None => return None,
        };
        if is_generation(&self.trusted_activity_dispatched, generation) {
            return None;
        }
        self.trusted_activity_dispatched = Some(generation);
        Some(PendingControl { control: Control::UserActivity, generation, trusted_activity: true })
    }

    fn pop_next(&mut self) -> (next: Option<PendingControl>)
        ensures
            next == next_control(old(self)@),
            final(self)@ == after_next(old(self)@),
    {
        if self.global_control.is_some() {
            return self.global_control.take();
        }
        match self.pop_trusted_activity() {
            Some(control) => Some(control),
            None => self.pop(),
        }
    }

    /// Takes the next control of a generation and drops those of others before it.
    pub fn pop_current(&mut self, generation: u64) -> (control: Option<PendingControl>)
        ensures
            control == current_control(old(self)@, generation),
            final(self)@ == after_current(old(self)@, generation),
    {
        loop
            invariant
                current_control(self@, generation) == current_control(old(self)@, generation),
                after_current(self@, generation) == after_current(old(self)@, generation),
            decreases backlog(self@),
        {
            match self.pop_next() {
                None => return None,
                Some(control) => {
                    if control.generation == generation {
                        return Some(control);
                    }
                },
            }
        }
    }

    /// Asks for a global control.
    pub fn request_global(&mut self, control: Control, generation: u64)
        ensures
            final(self)@ == after_global(old(self)@, control, generation),
    {
        if !is_generation(&self.global_notified, generation) {
            self.global_notified = Some(generation);
            self.global_control =
            Some(PendingControl { control, generation, trusted_activity: false });
        }
    }

    /// Notes trusted activity.
    pub fn note_trusted(&mut self, generation: u64)
        ensures
            final(self)@ == after_trusted(old(self)@, generation),
    {
        self.trusted_activity_pending = Some(generation);
    }

    /// Notes untrusted activity. The answer is whether the mailbox was full.
    pub fn note_untrusted(&mut self, generation: u64) -> (overflow: bool)
        ensures
            overflow == (notes_untrusted(old(self)@, generation) && old(self)@.pending.len()
                >= old(self)@.capacity),
            final(self)@ == after_untrusted(old(self)@, generation),
    {
        if is_generation(&self.untrusted_activity_pending, generation) {
            return false;
        }
        self.untrusted_activity_pending = Some(generation);
        !self.push(Control::UserActivity, generation, false)
    }

    /// Notes that a control was observed.
    pub fn observed(&mut self, observed: PendingControl)
        ensures
            final(self)@ == after_observed(old(self)@, observed),
    {
        if observed.trusted_activity && is_generation(
            &self.trusted_activity_pending,
            observed.generation,
        ) {
            self.trusted_activity_pending = None;
            self.trusted_activity_dispatched = None;
        }
    }

    /// Begins a generation: nothing of another one stays.
    pub fn reset_for_generation(&mut self, generation: u64)
        ensures
            final(self)@ == after_reset(old(self)@, generation),
    {
        let ghost all = self.pending@;
        let ghost same = |control: PendingControl| control.generation == generation;
        let mut kept: VecDeque<PendingControl> = VecDeque::new();
        let mut index: usize = 0;
        assert(all.take(0).filter(same) =~= Seq::<PendingControl>::empty()) by {
            reveal(Seq::filter);
        }
        while index < self.pending.len()
            invariant
                index <= self.pending@.len(),
                self.pending@ == all,
                kept@ == all.take(index as int).filter(same),
                same == (|control: PendingControl| control.generation == generation),
                *self == *old(self),
            decreases self.pending@.len() - index,
        {
            let control = self.pending[index];
            proof {
                assert(all.take(index + 1) =~= all.take(index as int).push(control));
                reveal(Seq::filter);
                assert(all.take(index + 1).drop_last() =~= all.take(index as int));
            }
            if control.generation == generation {
                kept.push_back(control);
            }
            index += 1;
        }
        assert(all.take(index as int) =~= all);
        self.pending = kept;
        self.global_notified = None;
        self.global_control = None;
        self.trusted_activity_pending = None;
        self.trusted_activity_dispatched = None;
        self.untrusted_activity_pending = None;
    }
}

} // verus!
