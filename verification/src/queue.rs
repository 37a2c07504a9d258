//! The bounded queue between the event handler and the delivery worker.

use crate::payload::{NotificationPayload, PayloadView};
use std::collections::VecDeque;
use vstd::prelude::*;

verus! {

/// The capacity that the relay gives its queue.
pub const REFERENCE_CAPACITY: usize = 1024;

/// What a queue holds: the payloads that wait, oldest first, the number it
/// may hold, and whether it was closed.
pub struct QueueView {
    pub items: Seq<PayloadView>,
    pub capacity: nat,
    pub closed: bool,
}

impl QueueView {
    /// The queue holds no more than its capacity.
    pub open spec fn wf(self) -> bool {
        self.items.len() <= self.capacity
    }

    /// The queue takes one more payload: it is open and has room.
    pub open spec fn can_accept(self) -> bool {
        !self.closed && self.items.len() < self.capacity
    }

    /// The queue after an attempt to add `payload` at the tail. A queue that
    /// cannot accept stays as it is.
    pub open spec fn after_enqueue(self, payload: PayloadView) -> QueueView {
        if self.can_accept() {
            QueueView { items: self.items.push(payload), ..self }
        } else {
            self
        }
    }

    /// How an attempt to add `payload` ends.
    pub open spec fn enqueue_outcome(self, payload: PayloadView) -> EnqueueOutcomeView {
        if self.closed {
            EnqueueOutcomeView::QueueClosed(payload)
        } else if self.items.len() >= self.capacity {
            EnqueueOutcomeView::WouldSuspend(payload)
        } else {
            EnqueueOutcomeView::Accepted
        }
    }

    /// How an attempt to take the head ends.
    pub open spec fn dequeue_outcome(self) -> DequeueOutcomeView {
        match self.head() {
            Some(payload) => DequeueOutcomeView::Item(payload),
            None => if self.closed {
                DequeueOutcomeView::Drained
            } else {
                DequeueOutcomeView::WouldSuspend
            },
        }
    }

    /// The payload at the head, if any waits.
    pub open spec fn head(self) -> Option<PayloadView> {
        if self.items.len() > 0 {
            Some(self.items[0])
        } else {
            None
        }
    }

    /// The queue after an attempt to take the head. An empty queue stays as
    /// it is.
    pub open spec fn after_dequeue(self) -> QueueView {
        if self.items.len() > 0 {
            QueueView { items: self.items.skip(1), ..self }
        } else {
            self
        }
    }

    /// The queue after it was closed: what waits stays.
    pub open spec fn after_close(self) -> QueueView {
        QueueView { closed: true, ..self }
    }

    /// The queue after attempts to add each of `payloads` in turn.
    pub open spec fn after_enqueue_all(self, payloads: Seq<PayloadView>) -> QueueView
        decreases payloads.len(),
    {
        if payloads.len() == 0 {
            self
        } else {
            self.after_enqueue_all(payloads.drop_last()).after_enqueue(payloads.last())
        }
    }

    /// The payloads that come out, in order, when the head is taken until
    /// the queue is empty.
    pub open spec fn drained(self) -> Seq<PayloadView>
        decreases self.items.len(),
    {
        match self.head() {
            None => Seq::empty(),
            Some(first) => seq![first] + self.after_dequeue().drained(),
        }
    }
}

/// How an attempt to add a payload ended.
#[derive(Debug, PartialEq, Eq)]
pub enum EnqueueOutcome {
    /// The payload waits at the tail.
    Accepted,
    /// The queue is full. The payload comes back: the caller waits until a
    /// payload is taken, then offers it again.
    WouldSuspend(NotificationPayload),
    /// The queue was closed. The payload comes back and will not be sent.
    QueueClosed(NotificationPayload),
}

/// How an attempt to take a payload ended.
#[derive(Debug, PartialEq, Eq)]
pub enum DequeueOutcome {
    /// The payload that waited longest.
    Item(NotificationPayload),
    /// Nothing waits, and more may come: the caller waits until a payload
    /// is added, then asks again.
    WouldSuspend,
    /// Nothing waits and the queue was closed: nothing will come.
    Drained,
}

/// The mathematical value of an `EnqueueOutcome`.
pub enum EnqueueOutcomeView {
    Accepted,
    WouldSuspend(PayloadView),
    QueueClosed(PayloadView),
}

impl View for EnqueueOutcome {
    type V = EnqueueOutcomeView;

    open spec fn view(&self) -> EnqueueOutcomeView {
        match self {
            EnqueueOutcome::Accepted => EnqueueOutcomeView::Accepted,
            EnqueueOutcome::WouldSuspend(payload) => EnqueueOutcomeView::WouldSuspend(payload@),
            EnqueueOutcome::QueueClosed(payload) => EnqueueOutcomeView::QueueClosed(payload@),
        }
    }
}

/// The mathematical value of a `DequeueOutcome`.
pub enum DequeueOutcomeView {
    Item(PayloadView),
    WouldSuspend,
    Drained,
}

impl View for DequeueOutcome {
    type V = DequeueOutcomeView;

    open spec fn view(&self) -> DequeueOutcomeView {
        match self {
            DequeueOutcome::Item(payload) => DequeueOutcomeView::Item(payload@),
            DequeueOutcome::WouldSuspend => DequeueOutcomeView::WouldSuspend,
            DequeueOutcome::Drained => DequeueOutcomeView::Drained,
        }
    }
}

/// A bounded first-in, first-out queue of notifications. It never holds more
/// than its capacity, and it hands payloads out in the order in which it
/// took them.
pub struct DispatchQueue {
    items: VecDeque<NotificationPayload>,
    capacity: usize,
    closed: bool,
}

impl View for DispatchQueue {
    type V = QueueView;

    closed spec fn view(&self) -> QueueView {
        QueueView {
            items: self.items@.map_values(|p: NotificationPayload| p@),
            capacity: self.capacity as nat,
            closed: self.closed,
        }
    }
}

impl DispatchQueue {
    #[verifier::type_invariant]
    spec fn bounded(self) -> bool {
        self.items@.len() <= self.capacity
    }

    /// An empty, open queue that holds up to `capacity` payloads.
    pub fn new(capacity: usize) -> (queue: DispatchQueue)
        ensures
            queue@ == (QueueView { items: Seq::empty(), capacity: capacity as nat, closed: false }),
    {
        let queue = DispatchQueue { items: VecDeque::new(), capacity, closed: false };
        assert(queue@.items =~= Seq::empty());
        queue
    }

    /// The number of payloads that wait.
    pub fn len(&self) -> (len: usize)
        ensures
            len == self@.items.len(),
            len <= self@.capacity,
    {
        proof {
            use_type_invariant(self);
        }
        self.items.len()
    }

    /// The number of payloads that the queue may hold.
    pub fn capacity(&self) -> (capacity: usize)
        ensures
            capacity == self@.capacity,
            self@.wf(),
    {
        proof {
            use_type_invariant(self);
        }
        self.capacity
    }

    /// Whether nothing waits.
    pub fn is_empty(&self) -> (empty: bool)
        ensures
            empty == (self@.items.len() == 0),
    {
        self.items.len() == 0
    }

    /// Whether the queue holds as many payloads as it may.
    pub fn is_full(&self) -> (full: bool)
        ensures
            full == (self@.items.len() == self@.capacity),
    {
        proof {
            use_type_invariant(self);
        }
        self.items.len() >= self.capacity
    }

    /// Whether the queue was closed.
    pub fn is_closed(&self) -> (closed: bool)
        ensures
            closed == self@.closed,
    {
        self.closed
    }

    /// Offers a payload for the tail of the queue. An open queue with room
    /// takes it; a full one hands it back for the caller to wait and offer
    /// again; a closed one hands it back for good. Nothing that waits is
    /// dropped or reordered.
    pub fn enqueue(&mut self, payload: NotificationPayload) -> (outcome: EnqueueOutcome)
        ensures
            final(self)@ == old(self)@.after_enqueue(payload@),
            outcome@ == old(self)@.enqueue_outcome(payload@),
            final(self)@.wf(),
    {
        proof {
            use_type_invariant(&*self);
        }
        if self.closed {
            EnqueueOutcome::QueueClosed(payload)
        } else if self.items.len() >= self.capacity {
            EnqueueOutcome::WouldSuspend(payload)
        } else {
            // The buffer is moved out while it changes, so that the queue is
            // within its bound at every step.
            let ghost before = self.items@;
            let mut items = VecDeque::new();
            std::mem::swap(&mut self.items, &mut items);
            items.push_back(payload);
            std::mem::swap(&mut self.items, &mut items);
            assert(self.items@.map_values(|p: NotificationPayload| p@) =~= before.map_values(
                |p: NotificationPayload| p@,
            ).push(payload@));
            EnqueueOutcome::Accepted
        }
    }

    /// Takes the payload that waited longest. An empty queue says whether
    /// more may come.
    pub fn dequeue(&mut self) -> (outcome: DequeueOutcome)
        ensures
            final(self)@ == old(self)@.after_dequeue(),
            outcome@ == old(self)@.dequeue_outcome(),
            final(self)@.wf(),
    {
        proof {
            use_type_invariant(&*self);
        }
        let ghost before = self.items@;
        let mut items = VecDeque::new();
        std::mem::swap(&mut self.items, &mut items);
        let first = items.pop_front();
        std::mem::swap(&mut self.items, &mut items);
        match first {
            Some(payload) => {
                assert(self.items@.map_values(|p: NotificationPayload| p@) =~= before.map_values(
                    |p: NotificationPayload| p@,
                ).skip(1));
                DequeueOutcome::Item(payload)
            },
            None => {
                if self.closed {
                    DequeueOutcome::Drained
                } else {
                    DequeueOutcome::WouldSuspend
                }
            },
        }
    }

    /// Closes the queue: it takes no more payloads, and what waits can still
    /// be taken.
    pub fn close(&mut self)
        ensures
            final(self)@ == old(self)@.after_close(),
    {
        proof {
            use_type_invariant(&*self);
        }
        self.closed = true;
    }
}

/// An open queue with room for all of `payloads` takes them at its tail, in
/// the order in which they were offered.
pub proof fn lemma_enqueue_all_appends(queue: QueueView, payloads: Seq<PayloadView>)
    requires
        !queue.closed,
        queue.items.len() + payloads.len() <= queue.capacity,
    ensures
        queue.after_enqueue_all(payloads) == (QueueView {
            items: queue.items + payloads,
            ..queue
        }),
    decreases payloads.len(),
{
    if payloads.len() > 0 {
        lemma_enqueue_all_appends(queue, payloads.drop_last());
        assert((queue.items + payloads.drop_last()).push(payloads.last()) =~= queue.items
            + payloads);
    }
}

/// Taking the head until the queue is empty hands out exactly what waited,
/// each payload once, oldest first.
pub proof fn lemma_drained_is_contents(queue: QueueView)
    ensures
        queue.drained() == queue.items,
    decreases queue.items.len(),
{
    if queue.items.len() > 0 {
        lemma_drained_is_contents(queue.after_dequeue());
    }
}

/// First in, first out: payloads offered in some order to an open queue with
/// room come out in that order, after what waited before them.
pub proof fn lemma_fifo(queue: QueueView, payloads: Seq<PayloadView>)
    requires
        !queue.closed,
        queue.items.len() + payloads.len() <= queue.capacity,
    ensures
        queue.after_enqueue_all(payloads).drained() == queue.items + payloads,
{
    lemma_enqueue_all_appends(queue, payloads);
    lemma_drained_is_contents(queue.after_enqueue_all(payloads));
}

/// One thing done to a queue: a payload is offered, the head is asked for, or
/// the queue is closed.
pub enum QueueOp {
    Offer(PayloadView),
    Take,
    Close,
}

/// A queue after some things were done to it, with the payloads that it
/// took and those that it handed out, each in the order in which it happened.
pub struct QueueTrace {
    pub queue: QueueView,
    pub accepted: Seq<PayloadView>,
    pub taken: Seq<PayloadView>,
}

/// What becomes of `queue` when `ops` are done to it one after the other.
pub open spec fn after_ops(queue: QueueView, ops: Seq<QueueOp>) -> QueueTrace
    decreases ops.len(),
{
    if ops.len() == 0 {
        QueueTrace { queue, accepted: Seq::empty(), taken: Seq::empty() }
    } else {
        let before = after_ops(queue, ops.drop_last());
        match ops.last() {
            QueueOp::Offer(payload) => QueueTrace {
                queue: before.queue.after_enqueue(payload),
                accepted: if before.queue.can_accept() {
                    before.accepted.push(payload)
                } else {
                    before.accepted
                },
                taken: before.taken,
            },
            QueueOp::Take => QueueTrace {
                queue: before.queue.after_dequeue(),
                accepted: before.accepted,
                taken: match before.queue.head() {
                    Some(payload) => before.taken.push(payload),
                    None => before.taken,
                },
            },
            QueueOp::Close => QueueTrace { queue: before.queue.after_close(), ..before },
        }
    }
}

/// Whatever is done to a queue, in whatever order: what it handed out,
/// followed by what still waits, is what waited at first followed by what it
/// took. Nothing is lost, nothing comes twice, nothing overtakes; and the
/// queue never holds more than its capacity.
pub proof fn lemma_order_is_kept(queue: QueueView, ops: Seq<QueueOp>)
    requires
        queue.wf(),
    ensures
        after_ops(queue, ops).taken + after_ops(queue, ops).queue.items == queue.items
            + after_ops(queue, ops).accepted,
        after_ops(queue, ops).queue.wf(),
        after_ops(queue, ops).queue.capacity == queue.capacity,
    decreases ops.len(),
{
    if ops.len() > 0 {
        lemma_order_is_kept(queue, ops.drop_last());
        let before = after_ops(queue, ops.drop_last());
        let after = after_ops(queue, ops);
        match ops.last() {
            QueueOp::Offer(payload) => {
                if before.queue.can_accept() {
                    assert(after.taken + after.queue.items =~= (before.taken
                        + before.queue.items).push(payload));
                }
            },
            _ => {},
        }
    }
}

/// Backpressure: a full queue does not take a payload, hands it back and
/// loses none of those that wait; once its head was taken it takes the
/// payload at the tail.
pub proof fn lemma_backpressure(queue: QueueView, payload: PayloadView)
    requires
        !queue.closed,
        queue.items.len() == queue.capacity,
    ensures
        queue.enqueue_outcome(payload) == EnqueueOutcomeView::WouldSuspend(payload),
        queue.after_enqueue(payload) == queue,
        queue.capacity > 0 ==> queue.after_dequeue().can_accept(),
        queue.capacity > 0 ==> queue.after_dequeue().after_enqueue(payload).items
            == queue.items.skip(1).push(payload),
{
}

/// A closed queue takes nothing, full or not: it hands the payload back and
/// says that it was closed. What waits in it can still be taken.
pub proof fn lemma_closed_queue_refuses(queue: QueueView, payload: PayloadView)
    ensures
        queue.after_close().enqueue_outcome(payload) == EnqueueOutcomeView::QueueClosed(payload),
        queue.after_close().after_enqueue(payload) == queue.after_close(),
        queue.after_close().drained() == queue.items,
{
    lemma_drained_is_contents(queue.after_close());
}

/// No attempt to add or take a payload makes the queue hold more than its
/// capacity, and an attempt to add one keeps all that waited, in place.
pub proof fn lemma_bounded(queue: QueueView, payload: PayloadView)
    requires
        queue.wf(),
    ensures
        queue.after_enqueue(payload).wf(),
        queue.after_dequeue().wf(),
        queue.after_close().wf(),
        queue.after_enqueue(payload).items.take(queue.items.len() as int) == queue.items,
{
}

} // verus!
