//! One operation: its life cycle, its cancellation and its ordered events.
use std::collections::VecDeque;

use vstd::prelude::*;

use crate::bytes::same_bytes;
use crate::command::OperationResult;
use crate::error::ServiceError;
use crate::event;
use crate::event::{OperationEvent, ProgressUnit};
use crate::memory;
use crate::memory::queue_room;

verus! {

/// Maximum number of lease cancellations that one operation registers.
pub const MAX_OPERATION_LEASES: usize = 8;

/// A service-generated opaque operation identifier.
#[derive(Clone, Copy, Debug, Eq, Hash)]
pub struct OperationId(pub(crate) [u8; 16]);

impl View for OperationId {
    type V = [u8; 16];

    closed spec fn view(&self) -> [u8; 16] {
        self.0
    }
}

impl PartialEq for OperationId {
    fn eq(&self, other: &Self) -> (same: bool) {
        same_bytes(&self.0, &other.0)
    }
}

impl vstd::std_specs::cmp::PartialEqSpecImpl for OperationId {
    open spec fn obeys_eq_spec() -> bool {
        true
    }

    open spec fn eq_spec(&self, other: &Self) -> bool {
        *self == *other
    }
}

impl OperationId {
    pub(crate) fn from_bytes(bytes: [u8; 16]) -> (id: Self)
        ensures
            id@ == bytes,
    {
        OperationId(bytes)
    }

    /// Borrows the opaque bytes for correlation only.
    pub fn as_bytes(&self) -> (bytes: &[u8; 16])
        ensures
            *bytes == self@,
    {
        &self.0
    }
}

/// Stage of one operation. An operation only moves forward.
#[derive(Clone, Copy, Debug, PartialEq, Eq, Structural)]
pub enum Lifecycle {
    Accepted,
    Running,
    Terminal,
}

/// One event with its position in the operation's event order.
#[derive(Clone, Copy, Debug, PartialEq, Eq)]
pub struct SequencedEvent {
    pub sequence: u64,
    pub event: OperationEvent,
}

/// Events of one operation that its consumer has not yet taken.
///
/// Lossless events queue up to a bound. A progress event replaces the pending
/// progress event of its unit. At most one terminal event is pending.
pub struct EventBuffer {
    lossless: VecDeque<SequencedEvent>,
    item_progress: Option<SequencedEvent>,
    byte_progress: Option<SequencedEvent>,
    terminal: Option<SequencedEvent>,
    next_sequence: u64,
    lossless_capacity: usize,
    consumer_gone: bool,
}

/// Contents of an [`EventBuffer`].
pub struct EventModel {
    pub lossless: Seq<SequencedEvent>,
    pub item_progress: Option<SequencedEvent>,
    pub byte_progress: Option<SequencedEvent>,
    pub terminal: Option<SequencedEvent>,
    pub next_sequence: u64,
    pub lossless_capacity: usize,
    pub consumer_gone: bool,
}

impl View for EventBuffer {
    type V = EventModel;

    closed spec fn view(&self) -> EventModel {
        EventModel {
            lossless: self.lossless@,
            item_progress: self.item_progress,
            byte_progress: self.byte_progress,
            terminal: self.terminal,
            next_sequence: self.next_sequence,
            lossless_capacity: self.lossless_capacity,
            consumer_gone: self.consumer_gone,
        }
    }
}

/// A buffer that no event has entered.
pub open spec fn fresh_events(capacity: usize) -> EventModel {
    EventModel {
        lossless: Seq::empty(),
        item_progress: None,
        byte_progress: None,
        terminal: None,
        next_sequence: 0,
        lossless_capacity: capacity,
        consumer_gone: false,
    }
}

/// Whether an event is pending in a buffer.
pub open spec fn is_pending(events: EventModel, event: SequencedEvent) -> bool {
    ||| events.lossless.contains(event)
    ||| events.item_progress == Some(event)
    ||| events.byte_progress == Some(event)
    ||| events.terminal == Some(event)
}

/// Invariant of a buffer: the queue is bounded and in order, every pending
/// position is used once and lies before the next one, and only the terminal
/// event stands at the next position.
pub open spec fn events_wf(events: EventModel) -> bool {
    &&& events.lossless.len() <= events.lossless_capacity
    &&& forall|i: int|
        0 <= i < events.lossless.len() ==> (#[trigger] events.lossless[i]).sequence
            < events.next_sequence && !event::is_replaceable(events.lossless[i].event)
            && !event::is_terminal_event(events.lossless[i].event)
    &&& forall|i: int, j: int|
        0 <= i < j < events.lossless.len() ==> (#[trigger] events.lossless[i]).sequence < (
        #[trigger] events.lossless[j]).sequence
    &&& events.item_progress is Some ==> {
        &&& events.item_progress->0.sequence < events.next_sequence
        &&& events.item_progress->0.event is Progress
        &&& forall|i: int|
            0 <= i < events.lossless.len() ==> (#[trigger] events.lossless[i]).sequence
                != events.item_progress->0.sequence
    }
    &&& events.byte_progress is Some ==> {
        &&& events.byte_progress->0.sequence < events.next_sequence
        &&& events.byte_progress->0.event is Progress
        &&& forall|i: int|
            0 <= i < events.lossless.len() ==> (#[trigger] events.lossless[i]).sequence
                != events.byte_progress->0.sequence
    }
    &&& events.item_progress is Some && events.byte_progress is Some
        ==> events.item_progress->0.sequence != events.byte_progress->0.sequence
    &&& events.terminal is Some ==> events.terminal->0.sequence == events.next_sequence
        && event::is_terminal_event(events.terminal->0.event)
    &&& events.consumer_gone ==> events.lossless.len() == 0 && events.item_progress is None
        && events.byte_progress is None && events.terminal is None
}

/// Whether `event` stands no later than `other`, where there is another.
pub open spec fn not_after(event: SequencedEvent, other: Option<SequencedEvent>) -> bool {
    other is Some ==> event.sequence <= other->0.sequence
}

/// First lossless event.
pub open spec fn first_lossless(events: EventModel) -> Option<SequencedEvent> {
    if events.lossless.len() > 0 {
        Some(events.lossless[0])
    } else {
        None
    }
}

/// Whether a slot holds the earliest pending event.
pub open spec fn is_earliest(slot: Option<SequencedEvent>, events: EventModel) -> bool {
    &&& slot is Some
    &&& not_after(slot->0, first_lossless(events))
    &&& not_after(slot->0, events.item_progress)
    &&& not_after(slot->0, events.byte_progress)
    &&& not_after(slot->0, events.terminal)
}

/// The pending event that is taken next.
pub open spec fn next_pending(events: EventModel) -> Option<SequencedEvent> {
    if is_earliest(first_lossless(events), events) {
        first_lossless(events)
    } else if is_earliest(events.item_progress, events) {
        events.item_progress
    } else if is_earliest(events.byte_progress, events) {
        events.byte_progress
    } else {
        events.terminal
    }
}

/// The buffer after its next event was taken.
pub open spec fn after_pop(events: EventModel) -> EventModel {
    if is_earliest(first_lossless(events), events) {
        EventModel { lossless: events.lossless.drop_first(), ..events }
    } else if is_earliest(events.item_progress, events) {
        EventModel { item_progress: None, ..events }
    } else if is_earliest(events.byte_progress, events) {
        EventModel { byte_progress: None, ..events }
    } else {
        EventModel { terminal: None, ..events }
    }
}

/// The event that a taken buffer slot carries.
pub open spec fn event_of(slot: Option<SequencedEvent>) -> Option<OperationEvent> {
    match slot {
        Some(sequenced) => Some(sequenced.event),
        None => None,
    }
}

fn is_no_later(event: &Option<SequencedEvent>, other: &Option<SequencedEvent>) -> (no_later: bool)
    requires
        event is Some,
    ensures
        no_later == not_after(event->0, *other),
{
    match (event, other) {
        (Some(event), Some(other)) => event.sequence <= other.sequence,
        _ => true,
    }
}

impl EventBuffer {
    fn over(lossless: VecDeque<SequencedEvent>, capacity: usize) -> (events: Self)
        requires
            lossless@ == Seq::<SequencedEvent>::empty(),
        ensures
            events@ == fresh_events(capacity),
    {
        EventBuffer {
            lossless,
            item_progress: None,
            byte_progress: None,
            terminal: None,
            next_sequence: 0,
            lossless_capacity: capacity,
            consumer_gone: false,
        }
    }

    fn sequence(&mut self, event: OperationEvent) -> (sequenced: Result<SequencedEvent, ServiceError>)
        ensures
            old(self)@.next_sequence == u64::MAX ==> sequenced == Err::<
                SequencedEvent,
                ServiceError,
            >(ServiceError::EventSequenceExhausted) && final(self)@ == old(self)@,
            old(self)@.next_sequence < u64::MAX ==> sequenced == Ok::<
                SequencedEvent,
                ServiceError,
            >(SequencedEvent { sequence: old(self)@.next_sequence, event }) && final(self)@ == (
            EventModel { next_sequence: (old(self)@.next_sequence + 1) as u64, ..old(self)@ }),
    {
        if self.next_sequence == u64::MAX {
            return Err(ServiceError::EventSequenceExhausted);
        }
        let sequence: u64 = self.next_sequence;
        self.next_sequence = sequence + 1;
        Ok(SequencedEvent { sequence, event })
    }

    fn terminal_sequence(&self, event: OperationEvent) -> (sequenced: SequencedEvent)
        ensures
            sequenced == (SequencedEvent { sequence: self@.next_sequence, event }),
    {
        SequencedEvent { sequence: self.next_sequence, event }
    }

    fn pop_next(&mut self) -> (next: Option<OperationEvent>)
        ensures
            next == event_of(next_pending(old(self)@)),
            final(self)@ == after_pop(old(self)@),
    {
        let lossless: Option<SequencedEvent> = if self.lossless.len() > 0 {
            Some(self.lossless[0])
        } else {
            None
        };
        if lossless.is_some() && is_no_later(&lossless, &self.item_progress) && is_no_later(
            &lossless,
            &self.byte_progress,
        ) && is_no_later(&lossless, &self.terminal) {
            let popped = self.lossless.pop_front();
            assert(self.lossless@ =~= old(self)@.lossless.drop_first());
            return match popped {
                Some(sequenced) => Some(sequenced.event),
                None => None,
            };
        }
        if self.item_progress.is_some() && is_no_later(&self.item_progress, &lossless)
            && is_no_later(&self.item_progress, &self.byte_progress) && is_no_later(
            &self.item_progress,
            &self.terminal,
        ) {
            return match self.item_progress.take() {
                Some(sequenced) => Some(sequenced.event),
                None => None,
            };
        }
        if self.byte_progress.is_some() && is_no_later(&self.byte_progress, &lossless)
            && is_no_later(&self.byte_progress, &self.item_progress) && is_no_later(
            &self.byte_progress,
            &self.terminal,
        ) {
            return match self.byte_progress.take() {
                Some(sequenced) => Some(sequenced.event),
                None => None,
            };
        }
        match self.terminal.take() {
            Some(sequenced) => Some(sequenced.event),
            None => None,
        }
    }
}


/// Outcome of one attempt to publish an event.
#[derive(Clone, Copy, Debug, PartialEq, Eq, Structural)]
pub enum Publication {
    /// The event is pending for the consumer.
    Delivered,
    /// The lossless queue is full: publish again once the consumer took an event.
    WaitForRoom,
}

/// Outcome of one look at the event queue by a waiting consumer.
#[derive(Clone, Copy, Debug, PartialEq, Eq)]
pub enum EventPoll {
    /// The wait is over with this event, or with none.
    Ready(Option<OperationEvent>),
    /// Nothing is pending yet and the operation can still emit.
    Wait,
}

/// State of one accepted operation.
pub struct OperationState {
    id: OperationId,
    lifecycle: Lifecycle,
    cancelled: bool,
    repository_cancelled: bool,
    irrevocable: bool,
    cancel_notification_pending: bool,
    cancel_notification_acknowledged: bool,
    events: EventBuffer,
    result: Option<Result<OperationResult, ServiceError>>,
    transition_result: Option<Result<(), ServiceError>>,
    session_generation: Option<u64>,
    mutating: bool,
    lease_cancellations: Vec<u64>,
    lease_cancellation_queued: bool,
    lease_cancellation_dispatched: bool,
}

/// Contents of an [`OperationState`].
pub struct OperationModel {
    pub id: OperationId,
    pub lifecycle: Lifecycle,
    pub cancelled: bool,
    pub repository_cancelled: bool,
    pub irrevocable: bool,
    pub cancel_notification_pending: bool,
    pub cancel_notification_acknowledged: bool,
    pub events: EventModel,
    pub result: Option<Result<OperationResult, ServiceError>>,
    pub transition_result: Option<Result<(), ServiceError>>,
    pub session_generation: Option<u64>,
    pub mutating: bool,
    pub lease_cancellations: Seq<u64>,
    pub lease_cancellation_queued: bool,
    pub lease_cancellation_dispatched: bool,
}

impl View for OperationState {
    type V = OperationModel;

    closed spec fn view(&self) -> OperationModel {
        OperationModel {
            id: self.id,
            lifecycle: self.lifecycle,
            cancelled: self.cancelled,
            repository_cancelled: self.repository_cancelled,
            irrevocable: self.irrevocable,
            cancel_notification_pending: self.cancel_notification_pending,
            cancel_notification_acknowledged: self.cancel_notification_acknowledged,
            events: self.events@,
            result: self.result,
            transition_result: self.transition_result,
            session_generation: self.session_generation,
            mutating: self.mutating,
            lease_cancellations: self.lease_cancellations@,
            lease_cancellation_queued: self.lease_cancellation_queued,
            lease_cancellation_dispatched: self.lease_cancellation_dispatched,
        }
    }
}

/// Invariant of an operation.
pub open spec fn operation_wf(state: OperationModel) -> bool {
    &&& events_wf(state.events)
    &&& state.lease_cancellations.len() <= MAX_OPERATION_LEASES
    &&& state.events.terminal is Some ==> state.lifecycle is Terminal
    &&& state.result is Some || state.transition_result is Some ==> state.lifecycle is Terminal
    &&& state.repository_cancelled ==> state.cancelled
    &&& state.events.consumer_gone ==> state.cancelled
}

/// A newly accepted operation.
pub open spec fn accepted_operation(
    id: OperationId,
    event_capacity: usize,
    session_generation: Option<u64>,
    mutating: bool,
) -> OperationModel {
    OperationModel {
        id,
        lifecycle: Lifecycle::Accepted,
        cancelled: false,
        repository_cancelled: false,
        irrevocable: false,
        cancel_notification_pending: false,
        cancel_notification_acknowledged: false,
        events: fresh_events(event_capacity),
        result: None,
        transition_result: None,
        session_generation,
        mutating,
        lease_cancellations: Seq::empty(),
        lease_cancellation_queued: false,
        lease_cancellation_dispatched: false,
    }
}

/// Whether the allocator may have refused room for the events of an operation.
pub open spec fn events_refused(event_capacity: usize) -> bool {
    memory::queue_refused(Seq::<SequencedEvent>::empty(), event_capacity as int)
}

/// The operation after cancellation was requested.
pub open spec fn after_cancel(state: OperationModel) -> OperationModel {
    OperationModel { cancelled: true, repository_cancelled: true, ..state }
}

/// What one attempt to publish answers.
///
/// A terminal event is refused: only the end of the operation emits one. A
/// progress event never waits. Another event waits while the queue is full. An
/// operation whose effect is irrevocable still reports after its cancellation.
pub open spec fn publish_answer(state: OperationModel, event: OperationEvent) -> Result<
    Publication,
    ServiceError,
> {
    if event::is_terminal_event(event) {
        Err(ServiceError::ExecutorFailed)
    } else if state.events.consumer_gone {
        Err(ServiceError::Cancelled)
    } else if state.lifecycle is Terminal {
        Err(ServiceError::Closed)
    } else if !event::is_replaceable(event) && state.cancelled && !state.irrevocable {
        Err(ServiceError::Cancelled)
    } else if !event::is_replaceable(event) && state.events.lossless.len()
        == state.events.lossless_capacity {
        Ok(Publication::WaitForRoom)
    } else if state.events.next_sequence == u64::MAX {
        Err(ServiceError::EventSequenceExhausted)
    } else {
        Ok(Publication::Delivered)
    }
}

/// The events after one attempt to publish.
pub open spec fn after_publish(state: OperationModel, event: OperationEvent) -> OperationModel {
    if publish_answer(state, event) == Ok::<Publication, ServiceError>(Publication::Delivered) {
        let sequenced = SequencedEvent { sequence: state.events.next_sequence, event };
        let next_sequence = (state.events.next_sequence + 1) as u64;
        let events = match event {
            OperationEvent::Progress(progress) => match progress@.unit {
                ProgressUnit::Items => EventModel {
                    item_progress: Some(sequenced),
                    next_sequence,
                    ..state.events
                },
                ProgressUnit::Bytes => EventModel {
                    byte_progress: Some(sequenced),
                    next_sequence,
                    ..state.events
                },
            },
            _ => EventModel {
                lossless: state.events.lossless.push(sequenced),
                next_sequence,
                ..state.events
            },
        };
        OperationModel { events, ..state }
    } else {
        state
    }
}

/// The terminal event that an outcome is announced by.
pub open spec fn terminal_event(outcome: Result<OperationResult, ServiceError>) -> OperationEvent {
    match outcome {
        Ok(_) => OperationEvent::Completed,
        Err(ServiceError::Cancelled) => OperationEvent::Cancelled,
        Err(error) => OperationEvent::Failed(error),
    }
}

/// The operation after it was given its outcome. Only the first outcome counts.
pub open spec fn after_finish(
    state: OperationModel,
    outcome: Result<OperationResult, ServiceError>,
) -> OperationModel {
    if state.lifecycle is Terminal {
        state
    } else {
        OperationModel {
            lifecycle: Lifecycle::Terminal,
            events: if state.events.consumer_gone {
                state.events
            } else {
                EventModel {
                    terminal: Some(
                        SequencedEvent {
                            sequence: state.events.next_sequence,
                            event: terminal_event(outcome),
                        },
                    ),
                    ..state.events
                }
            },
            result: Some(outcome),
            ..state
        }
    }
}

/// The operation after its security transition was given its outcome.
pub open spec fn after_finish_transition(
    state: OperationModel,
    outcome: Result<(), ServiceError>,
) -> OperationModel {
    if state.lifecycle is Terminal {
        state
    } else {
        OperationModel {
            lifecycle: Lifecycle::Terminal,
            transition_result: Some(outcome),
            ..state
        }
    }
}

/// The operation after its consumer went away: nothing stays pending.
pub open spec fn after_abandon(state: OperationModel) -> OperationModel {
    OperationModel {
        cancelled: true,
        events: EventModel {
            lossless: Seq::empty(),
            item_progress: None,
            byte_progress: None,
            terminal: None,
            consumer_gone: true,
            ..state.events
        },
        ..state
    }
}

/// What the registration of one more lease cancellation answers.
pub open spec fn register_lease_answer(state: OperationModel) -> Result<(), ServiceError> {
    if state.cancelled {
        Err(ServiceError::Cancelled)
    } else if state.lease_cancellations.len() >= MAX_OPERATION_LEASES {
        Err(ServiceError::CapacityExceeded)
    } else {
        Ok(())
    }
}

impl OperationState {
    /// Builds a newly accepted operation over an empty queue.
    pub fn over(
        id: OperationId,
        queue: VecDeque<SequencedEvent>,
        event_capacity: usize,
        session_generation: Option<u64>,
        mutating: bool,
    ) -> (state: Self)
        requires
            queue@ == Seq::<SequencedEvent>::empty(),
        ensures
            state@ == accepted_operation(id, event_capacity, session_generation, mutating),
            operation_wf(state@),
    {
        OperationState {
            id,
            lifecycle: Lifecycle::Accepted,
            cancelled: false,
            repository_cancelled: false,
            irrevocable: false,
            cancel_notification_pending: false,
            cancel_notification_acknowledged: false,
            events: EventBuffer::over(queue, event_capacity),
            result: None,
            transition_result: None,
            session_generation,
            mutating,
            lease_cancellations: Vec::new(),
            lease_cancellation_queued: false,
            lease_cancellation_dispatched: false,
        }
    }

    /// Builds a newly accepted operation, reserving its event queue.
    pub fn new(
        id: OperationId,
        event_capacity: usize,
        session_generation: Option<u64>,
        mutating: bool,
    ) -> (state: Result<Self, ServiceError>)
        ensures
            state is Ok ==> state->Ok_0@ == accepted_operation(
                id,
                event_capacity,
                session_generation,
                mutating,
            ) && operation_wf(state->Ok_0@),
            state is Err ==> state->Err_0 == ServiceError::InvalidConfiguration && events_refused(
                event_capacity,
            ),
    {
        match queue_room(event_capacity) {
            Some(queue) => Ok(
                OperationState::over(id, queue, event_capacity, session_generation, mutating),
            ),
            None => Err(ServiceError::InvalidConfiguration),
        }
    }

    pub fn id(&self) -> (id: OperationId)
        ensures
            id == self@.id,
    {
        self.id
    }

    pub fn session_generation(&self) -> (generation: Option<u64>)
        ensures
            generation == self@.session_generation,
    {
        self.session_generation
    }

    pub fn is_mutating(&self) -> (mutating: bool)
        ensures
            mutating == self@.mutating,
    {
        self.mutating
    }

    pub fn is_cancelled(&self) -> (cancelled: bool)
        ensures
            cancelled == self@.cancelled,
    {
        self.cancelled
    }

    /// Whether repository calls of this operation must stop.
    pub fn is_repository_cancelled(&self) -> (cancelled: bool)
        ensures
            cancelled == self@.repository_cancelled,
    {
        self.repository_cancelled
    }

    /// Whether the operation has an effect that cancellation cannot undo.
    pub fn is_durable(&self) -> (durable: bool)
        ensures
            durable == self@.irrevocable,
    {
        self.irrevocable
    }

    pub fn is_accepted(&self) -> (accepted: bool)
        ensures
            accepted == (self@.lifecycle is Accepted),
    {
        self.lifecycle == Lifecycle::Accepted
    }

    pub fn is_running(&self) -> (running: bool)
        ensures
            running == (self@.lifecycle is Running),
    {
        self.lifecycle == Lifecycle::Running
    }

    pub fn is_terminal(&self) -> (terminal: bool)
        ensures
            terminal == (self@.lifecycle is Terminal),
    {
        self.lifecycle == Lifecycle::Terminal
    }

    /// Moves an accepted operation to running. Answers whether this call did.
    pub fn mark_running(&mut self) -> (started: bool)
        ensures
            started == (old(self)@.lifecycle is Accepted),
            final(self)@ == (if started {
                OperationModel { lifecycle: Lifecycle::Running, ..old(self)@ }
            } else {
                old(self)@
            }),
            operation_wf(old(self)@) ==> operation_wf(final(self)@),
    {
        if self.lifecycle == Lifecycle::Accepted {
            self.lifecycle = Lifecycle::Running;
            true
        } else {
            false
        }
    }

    /// Requests cooperative cancellation of the operation and of its repository calls.
    pub fn mark_cancelled(&mut self)
        ensures
            final(self)@ == after_cancel(old(self)@),
            operation_wf(old(self)@) ==> operation_wf(final(self)@),
    {
        self.cancelled = true;
        self.repository_cancelled = true;
    }

    /// Records that the operation has an effect that cancellation cannot undo.
    pub fn mark_irrevocable(&mut self)
        ensures
            final(self)@ == (OperationModel { irrevocable: true, ..old(self)@ }),
            operation_wf(old(self)@) ==> operation_wf(final(self)@),
    {
        self.irrevocable = true;
    }

    /// Claims the one cancellation notice. Answers whether this call did.
    pub fn claim_cancel_notification(&mut self) -> (claimed: bool)
        ensures
            claimed == !old(self)@.cancel_notification_pending,
            final(self)@ == (OperationModel { cancel_notification_pending: true, ..old(self)@ }),
            operation_wf(old(self)@) ==> operation_wf(final(self)@),
    {
        let claimed = !self.cancel_notification_pending;
        self.cancel_notification_pending = true;
        claimed
    }

    /// Records that the cancellation notice was delivered.
    pub fn acknowledge_cancel_notification(&mut self)
        ensures
            final(self)@ == (OperationModel {
                cancel_notification_acknowledged: true,
                ..old(self)@
            }),
            operation_wf(old(self)@) ==> operation_wf(final(self)@),
    {
        self.cancel_notification_acknowledged = true;
    }

    /// Whether a cancellation notice is owed and not yet delivered.
    pub fn awaits_cancel_notification(&self) -> (awaits: bool)
        ensures
            awaits == (self@.cancel_notification_pending && !self@.cancel_notification_acknowledged),
    {
        self.cancel_notification_pending && !self.cancel_notification_acknowledged
    }

    /// Registers the cancellation of one lease under the caller's token.
    ///
    /// On an error the caller cancels that lease itself.
    pub fn register_lease_cancellation(&mut self, token: u64) -> (registered: Result<
        (),
        ServiceError,
    >)
        ensures
            registered == register_lease_answer(old(self)@),
            final(self)@ == (if registered is Ok {
                OperationModel {
                    lease_cancellations: old(self)@.lease_cancellations.push(token),
                    ..old(self)@
                }
            } else {
                old(self)@
            }),
            operation_wf(old(self)@) ==> operation_wf(final(self)@),
    {
        if self.cancelled {
            return Err(ServiceError::Cancelled);
        }
        if self.lease_cancellations.len() >= MAX_OPERATION_LEASES {
            return Err(ServiceError::CapacityExceeded);
        }
        self.lease_cancellations.push(token);
        Ok(())
    }

    /// Claims the one dispatch of lease cancellations to the cancellation worker.
    pub fn mark_lease_cancellation_queued(&mut self) -> (claimed: bool)
        ensures
            claimed == !old(self)@.lease_cancellation_queued,
            final(self)@ == (OperationModel { lease_cancellation_queued: true, ..old(self)@ }),
            operation_wf(old(self)@) ==> operation_wf(final(self)@),
    {
        let claimed = !self.lease_cancellation_queued;
        self.lease_cancellation_queued = true;
        claimed
    }

    /// Hands out the tokens of the leases to cancel, the first time only.
    pub fn cancel_registered_leases(&mut self) -> (tokens: Option<Vec<u64>>)
        ensures
            tokens is Some <==> !old(self)@.lease_cancellation_dispatched,
            tokens is Some ==> tokens->0@ == old(self)@.lease_cancellations,
            final(self)@ == (OperationModel { lease_cancellation_dispatched: true, ..old(self)@ }),
            operation_wf(old(self)@) ==> operation_wf(final(self)@),
    {
        if self.lease_cancellation_dispatched {
            return None;
        }
        self.lease_cancellation_dispatched = true;
        let mut tokens: Vec<u64> = Vec::new();
        let mut index: usize = 0;
        while index < self.lease_cancellations.len()
            invariant
                index <= self.lease_cancellations@.len(),
                tokens@ =~= self.lease_cancellations@.subrange(0, index as int),
            decreases self.lease_cancellations@.len() - index,
        {
            tokens.push(self.lease_cancellations[index]);
            index += 1;
        }
        assert(tokens@ =~= self.lease_cancellations@);
        Some(tokens)
    }

    /// Publishes one event for the consumer, or says why not.
    pub fn publish(&mut self, event: OperationEvent) -> (answer: Result<Publication, ServiceError>)
        ensures
            answer == publish_answer(old(self)@, event),
            final(self)@ == after_publish(old(self)@, event),
            operation_wf(old(self)@) ==> operation_wf(final(self)@),
    {
        if event.terminal() {
            return Err(ServiceError::ExecutorFailed);
        }
        if self.events.consumer_gone {
            return Err(ServiceError::Cancelled);
        }
        if self.lifecycle == Lifecycle::Terminal {
            return Err(ServiceError::Closed);
        }
        if let OperationEvent::Progress(progress) = event {
            let unit = progress.unit();
            let sequenced = match self.events.sequence(event) {
                Ok(sequenced) => sequenced,
                Err(error) => return Err(error),
            };
            match unit {
                ProgressUnit::Items => self.events.item_progress = Some(sequenced),
                ProgressUnit::Bytes => self.events.byte_progress = Some(sequenced),
            }
            return Ok(Publication::Delivered);
        }
        if self.cancelled && !self.irrevocable {
            return Err(ServiceError::Cancelled);
        }
        if self.events.lossless.len() == self.events.lossless_capacity {
            return Ok(Publication::WaitForRoom);
        }
        let sequenced = match self.events.sequence(event) {
            Ok(sequenced) => sequenced,
            Err(error) => return Err(error),
        };
        self.events.lossless.push_back(sequenced);
        Ok(Publication::Delivered)
    }

    /// Ends the operation with its outcome. Answers whether this call ended it.
    pub fn finish(&mut self, outcome: Result<OperationResult, ServiceError>) -> (ended: bool)
        ensures
            ended == !(old(self)@.lifecycle is Terminal),
            final(self)@ == after_finish(old(self)@, outcome),
            operation_wf(old(self)@) ==> operation_wf(final(self)@),
    {
        if self.lifecycle == Lifecycle::Terminal {
            return false;
        }
        self.lifecycle = Lifecycle::Terminal;
        let event = match &outcome {
            Ok(_) => OperationEvent::Completed,
            Err(ServiceError::Cancelled) => OperationEvent::Cancelled,
            Err(error) => OperationEvent::Failed(*error),
        };
        if !self.events.consumer_gone {
            let sequenced = self.events.terminal_sequence(event);
            self.events.terminal = Some(sequenced);
        }
        self.result = Some(outcome);
        true
    }

    /// Ends a security transition with its outcome. Answers whether this call ended it.
    pub fn finish_transition(&mut self, outcome: Result<(), ServiceError>) -> (ended: bool)
        ensures
            ended == !(old(self)@.lifecycle is Terminal),
            final(self)@ == after_finish_transition(old(self)@, outcome),
            operation_wf(old(self)@) ==> operation_wf(final(self)@),
    {
        if self.lifecycle == Lifecycle::Terminal {
            return false;
        }
        self.lifecycle = Lifecycle::Terminal;
        self.transition_result = Some(outcome);
        true
    }

    /// Takes the next event in order.
    pub fn next_event(&mut self) -> (next: Option<OperationEvent>)
        ensures
            next == event_of(next_pending(old(self)@.events)),
            final(self)@ == (OperationModel { events: after_pop(old(self)@.events), ..old(self)@ }),
            operation_wf(old(self)@) ==> operation_wf(final(self)@),
    {
        proof {
            if operation_wf(self@) {
                lemma_pop_keeps_wf(self@.events);
            }
        }
        self.events.pop_next()
    }

    /// One look of a waiting consumer. `expired` says that its time is up.
    pub fn poll_event(&mut self, expired: bool) -> (poll: EventPoll)
        ensures
            final(self)@ == (OperationModel { events: after_pop(old(self)@.events), ..old(self)@ }),
            poll == (if next_pending(old(self)@.events) is Some {
                EventPoll::Ready(event_of(next_pending(old(self)@.events)))
            } else if old(self)@.lifecycle is Terminal || old(self)@.events.consumer_gone
                || expired {
                EventPoll::Ready(None)
            } else {
                EventPoll::Wait
            }),
            operation_wf(old(self)@) ==> operation_wf(final(self)@),
    {
        let next = self.next_event();
        if next.is_some() || self.lifecycle == Lifecycle::Terminal || self.events.consumer_gone
            || expired {
            EventPoll::Ready(next)
        } else {
            EventPoll::Wait
        }
    }

    /// Takes the outcome, which is handed out once.
    pub fn take_result(&mut self) -> (taken: Option<Result<OperationResult, ServiceError>>)
        ensures
            taken == old(self)@.result,
            final(self)@ == (OperationModel { result: None, ..old(self)@ }),
            operation_wf(old(self)@) ==> operation_wf(final(self)@),
    {
        self.result.take()
    }

    /// One look of a caller that waits for the outcome. `None` means to wait on.
    pub fn poll_result(&mut self, expired: bool) -> (poll: Option<
        Result<OperationResult, ServiceError>,
    >)
        ensures
            poll == (match old(self)@.result {
                Some(outcome) => Some(outcome),
                None => if expired {
                    Some(Err::<OperationResult, ServiceError>(ServiceError::TimedOut))
                } else {
                    None
                },
            }),
            final(self)@ == (OperationModel { result: None, ..old(self)@ }),
            operation_wf(old(self)@) ==> operation_wf(final(self)@),
    {
        match self.result.take() {
            Some(outcome) => Some(outcome),
            None => if expired {
                Some(Err(ServiceError::TimedOut))
            } else {
                None
            },
        }
    }

    /// One look of a caller that waits for a security transition. `None` means to wait on.
    pub fn poll_transition_result(&mut self, expired: bool) -> (poll: Option<
        Result<(), ServiceError>,
    >)
        ensures
            poll == (match old(self)@.transition_result {
                Some(outcome) => Some(outcome),
                None => if expired {
                    Some(Err::<(), ServiceError>(ServiceError::TimedOut))
                } else {
                    None
                },
            }),
            final(self)@ == (OperationModel { transition_result: None, ..old(self)@ }),
            operation_wf(old(self)@) ==> operation_wf(final(self)@),
    {
        match self.transition_result.take() {
            Some(outcome) => Some(outcome),
            None => if expired {
                Some(Err(ServiceError::TimedOut))
            } else {
                None
            },
        }
    }

    /// Drops everything pending for a consumer that went away and requests cancellation.
    pub fn abandon_consumer(&mut self)
        ensures
            final(self)@ == after_abandon(old(self)@),
            operation_wf(old(self)@) ==> operation_wf(final(self)@),
    {
        self.events.consumer_gone = true;
        self.events.lossless.clear();
        self.events.item_progress = None;
        self.events.byte_progress = None;
        self.events.terminal = None;
        self.cancelled = true;
    }
}

/// Taking the next event keeps the buffer's invariant.
proof fn lemma_pop_keeps_wf(events: EventModel)
    requires
        events_wf(events),
    ensures
        events_wf(after_pop(events)),
{
    let popped = after_pop(events);
    if is_earliest(first_lossless(events), events) {
        assert forall|i: int| 0 <= i < popped.lossless.len() implies #[trigger] popped.lossless[i]
            == events.lossless[i + 1] by {}
    }
}

} // verus!
