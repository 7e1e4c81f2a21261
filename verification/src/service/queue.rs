//! The bounded ordinary queue.
use crossbeam_channel::{Receiver, Sender};
use vstd::prelude::*;

use crate::operation::OperationId;
use crate::service::MAX_QUEUE_CAPACITY;

verus! {

/// Both ends of one bounded channel that nobody else holds an end of.
///
/// A channel is two values that share what waits in it, so that no contract
/// over one of them says what a call on the other changes. Here they are one
/// value.
#[verifier::external_body]
pub struct WorkQueue {
    sender: Sender<OperationId>,
    receiver: Receiver<OperationId>,
}

/// What waits in a queue, oldest first.
pub uninterp spec fn waiting(queue: WorkQueue) -> Seq<OperationId>;

/// How many a queue can hold.
pub uninterp spec fn room_of(queue: WorkQueue) -> nat;

/// `crossbeam_channel::bounded`: a new channel is empty and holds at most
/// `capacity` messages. A channel without room is another kind of channel, and
/// one of a size that cannot be allocated panics: both are left out.
#[verifier::external_body]
fn open_channel(capacity: usize) -> (queue: WorkQueue)
    requires
        0 < capacity <= MAX_QUEUE_CAPACITY,
    ensures
        waiting(queue) == Seq::<OperationId>::empty(),
        room_of(queue) == capacity,
{
    let (sender, receiver) = crossbeam_channel::bounded(capacity);
    WorkQueue { sender, receiver }
}

/// `Sender::is_full`: whether as many messages wait as the channel holds.
#[verifier::external_body]
fn channel_is_full(queue: &WorkQueue) -> (full: bool)
    ensures
        full == (waiting(*queue).len() >= room_of(*queue)),
{
    queue.sender.is_full()
}

/// `Sender::try_send`: a message goes behind those that wait, if there is room.
/// A full channel stays as it is. The receiver is held beside the sender, so
/// the channel is never disconnected.
#[verifier::external_body]
fn send(queue: &mut WorkQueue, id: OperationId) -> (sent: bool)
    ensures
        room_of(*final(queue)) == room_of(*old(queue)),
        sent == (waiting(*old(queue)).len() < room_of(*old(queue))),
        sent ==> waiting(*final(queue)) == waiting(*old(queue)).push(id),
        !sent ==> waiting(*final(queue)) == waiting(*old(queue)),
{
    queue.sender.try_send(id).is_ok()
}

/// `Receiver::try_recv`: takes the oldest message that waits. Nothing comes from
/// an empty channel.
#[verifier::external_body]
fn receive(queue: &mut WorkQueue) -> (received: Option<OperationId>)
    ensures
        room_of(*final(queue)) == room_of(*old(queue)),
        waiting(*old(queue)).len() == 0 ==> received is None && waiting(*final(queue)) == waiting(
            *old(queue),
        ),
        waiting(*old(queue)).len() > 0 ==> received == Some(waiting(*old(queue))[0]) && waiting(
            *final(queue),
        ) == waiting(*old(queue)).drop_first(),
{
    queue.receiver.try_recv().ok()
}

/// Contents of a [`WorkQueue`].
pub struct QueueModel {
    pub waiting: Seq<OperationId>,
    pub room: nat,
}

impl View for WorkQueue {
    type V = QueueModel;

    open spec fn view(&self) -> QueueModel {
        QueueModel { waiting: waiting(*self), room: room_of(*self) }
    }
}

/// Whether a queue takes one more.
pub open spec fn has_room(queue: QueueModel) -> bool {
    queue.waiting.len() < queue.room
}

impl WorkQueue {
    /// An empty queue.
    pub fn with_capacity(capacity: usize) -> (queue: Self)
        requires
            0 < capacity <= MAX_QUEUE_CAPACITY,
        ensures
            queue@ == (QueueModel { waiting: Seq::empty(), room: capacity as nat }),
    {
        open_channel(capacity)
    }

    /// Whether the queue takes no more.
    pub fn is_full(&self) -> (full: bool)
        ensures
            full == !has_room(self@),
    {
        channel_is_full(self)
    }

    /// Puts one operation behind those that wait.
    pub fn try_push(&mut self, id: OperationId) -> (pushed: bool)
        ensures
            pushed == has_room(old(self)@),
            final(self)@ == if has_room(old(self)@) {
                QueueModel { waiting: old(self)@.waiting.push(id), ..old(self)@ }
            } else {
                old(self)@
            },
    {
        send(self, id)
    }

    /// Takes the operation that waits longest.
    pub fn try_pop(&mut self) -> (popped: Option<OperationId>)
        ensures
            popped == if old(self)@.waiting.len() > 0 {
                Some(old(self)@.waiting[0])
            } else {
                None
            },
            final(self)@ == if old(self)@.waiting.len() > 0 {
                QueueModel { waiting: old(self)@.waiting.drop_first(), ..old(self)@ }
            } else {
                old(self)@
            },
    {
        receive(self)
    }
}

} // verus!
