//! The delivery worker: what it does next, given what just happened.
//!
//! The worker takes one payload at a time from the queue and has it sent
//! once. The sending itself, and the waiting for a payload, are the
//! caller's: after each call of [`DeliveryWorker::advance`] the caller does
//! what the returned action says and comes back with the matching event.

use crate::payload::{NotificationPayload, PayloadView};
use crate::queue::{DequeueOutcome, DispatchQueue, QueueView};
use vstd::prelude::*;

verus! {

/// Why a payload was not delivered.
#[derive(Clone, Copy, Debug, PartialEq, Eq, Structural)]
pub enum DeliveryError {
    /// The endpoint could not be reached.
    Network,
    /// The endpoint answered, and not with success.
    NonSuccess,
}

/// Where the worker stands in its round.
#[derive(Clone, Copy, Debug, PartialEq, Eq, Structural)]
pub enum WorkerState {
    /// Between two payloads.
    Idle,
    /// Waiting for a payload to take.
    Dequeuing,
    /// A payload is being sent.
    Delivering,
    /// The queue was closed and is empty: the worker is done for good.
    Stopped,
}

/// What the caller reports to the worker.
#[derive(Clone, Copy, Debug, PartialEq, Eq, Structural)]
pub enum WorkerEvent {
    /// The worker starts, or the last action asked for nothing more.
    Resumed,
    /// The wait that the worker asked for is over.
    Woken,
    /// The payload was sent.
    Delivered,
    /// The attempt to send the payload failed.
    Failed(DeliveryError),
}

/// What the worker asks of the caller.
#[derive(Debug, PartialEq, Eq)]
pub enum WorkerAction {
    /// Wait until the queue changes, then report `Woken`.
    Wait,
    /// Send this payload once, then report `Delivered` or `Failed`.
    Deliver(NotificationPayload),
    /// Nothing to do: report `Resumed`.
    Proceed,
    /// Record that the last payload was lost to this error, then report
    /// `Resumed`. The payload is not sent again.
    Report(DeliveryError),
    /// End the loop.
    Stop,
}

/// The mathematical value of a `WorkerAction`.
pub enum WorkerActionView {
    Wait,
    Deliver(PayloadView),
    Proceed,
    Report(DeliveryError),
    Stop,
}

impl View for WorkerAction {
    type V = WorkerActionView;

    open spec fn view(&self) -> WorkerActionView {
        match self {
            WorkerAction::Wait => WorkerActionView::Wait,
            WorkerAction::Deliver(payload) => WorkerActionView::Deliver(payload@),
            WorkerAction::Proceed => WorkerActionView::Proceed,
            WorkerAction::Report(error) => WorkerActionView::Report(*error),
            WorkerAction::Stop => WorkerActionView::Stop,
        }
    }
}

/// The worker turns to the queue: it takes the head and has it sent; with
/// nothing to take it waits, or stops if the queue was closed.
pub open spec fn polled(queue: QueueView) -> (WorkerState, QueueView, WorkerActionView) {
    match queue.head() {
        Some(payload) => (
            WorkerState::Delivering,
            queue.after_dequeue(),
            WorkerActionView::Deliver(payload),
        ),
        None => if queue.closed {
            (WorkerState::Stopped, queue, WorkerActionView::Stop)
        } else {
            (WorkerState::Dequeuing, queue, WorkerActionView::Wait)
        },
    }
}

/// The worker's step: the state and the queue after `event`, and the action
/// asked for. `None` where the event does not fit the state.
pub open spec fn advanced(state: WorkerState, queue: QueueView, event: WorkerEvent) -> Option<
    (WorkerState, QueueView, WorkerActionView),
> {
    match (state, event) {
        (WorkerState::Stopped, _) => Some((WorkerState::Stopped, queue, WorkerActionView::Stop)),
        (WorkerState::Idle, WorkerEvent::Resumed) => Some(polled(queue)),
        (WorkerState::Dequeuing, WorkerEvent::Woken) => Some(polled(queue)),
        (WorkerState::Delivering, WorkerEvent::Delivered) => Some(
            (WorkerState::Idle, queue, WorkerActionView::Proceed),
        ),
        (WorkerState::Delivering, WorkerEvent::Failed(error)) => Some(
            (WorkerState::Idle, queue, WorkerActionView::Report(error)),
        ),
        _ => None,
    }
}

/// The single consumer of a queue.
#[derive(Debug)]
pub struct DeliveryWorker {
    state: WorkerState,
}

impl View for DeliveryWorker {
    type V = WorkerState;

    closed spec fn view(&self) -> WorkerState {
        self.state
    }
}

impl DeliveryWorker {
    /// A worker that has not started: it is idle.
    pub fn new() -> (worker: DeliveryWorker)
        ensures
            worker@ == WorkerState::Idle,
    {
        DeliveryWorker { state: WorkerState::Idle }
    }

    /// Where the worker stands.
    pub fn state(&self) -> (state: WorkerState)
        ensures
            state == self@,
    {
        self.state
    }

    /// Tells the worker what happened and asks what to do next. An event
    /// that does not fit the worker's state changes nothing and gives
    /// `None`.
    pub fn advance(&mut self, queue: &mut DispatchQueue, event: WorkerEvent) -> (action: Option<
        WorkerAction,
    >)
        ensures
            match advanced(old(self)@, old(queue)@, event) {
                Some((state, waiting, asked)) => {
                    &&& final(self)@ == state
                    &&& final(queue)@ == waiting
                    &&& action matches Some(a) && a@ == asked
                },
                None => {
                    &&& final(self)@ == old(self)@
                    &&& final(queue)@ == old(queue)@
                    &&& action is None
                },
            },
    {
        match (self.state, event) {
            (WorkerState::Stopped, _) => Some(WorkerAction::Stop),
            (WorkerState::Idle, WorkerEvent::Resumed) | (WorkerState::Dequeuing, WorkerEvent::Woken) => {
                match queue.dequeue() {
                    DequeueOutcome::Item(payload) => {
                        self.state = WorkerState::Delivering;
                        Some(WorkerAction::Deliver(payload))
                    },
                    DequeueOutcome::WouldSuspend => {
                        self.state = WorkerState::Dequeuing;
                        Some(WorkerAction::Wait)
                    },
                    DequeueOutcome::Drained => {
                        self.state = WorkerState::Stopped;
                        Some(WorkerAction::Stop)
                    },
                }
            },
            (WorkerState::Delivering, WorkerEvent::Delivered) => {
                self.state = WorkerState::Idle;
                Some(WorkerAction::Proceed)
            },
            (WorkerState::Delivering, WorkerEvent::Failed(error)) => {
                self.state = WorkerState::Idle;
                Some(WorkerAction::Report(error))
            },
            _ => None,
        }
    }
}

/// The payloads that an idle worker hands out for delivery, in order, while
/// the deliveries end as `outcomes` say, one entry for each: `None` for a
/// payload that was sent, the error for one that was not.
pub open spec fn handed_out(queue: QueueView, outcomes: Seq<Option<DeliveryError>>) -> Seq<
    PayloadView,
>
    decreases outcomes.len(),
{
    if outcomes.len() == 0 {
        Seq::empty()
    } else {
        match advanced(WorkerState::Idle, queue, WorkerEvent::Resumed) {
            Some((WorkerState::Delivering, waiting, WorkerActionView::Deliver(payload))) => {
                let event = match outcomes[0] {
                    None => WorkerEvent::Delivered,
                    Some(error) => WorkerEvent::Failed(error),
                };
                match advanced(WorkerState::Delivering, waiting, event) {
                    Some((WorkerState::Idle, rest, _)) => seq![payload] + handed_out(
                        rest,
                        outcomes.skip(1),
                    ),
                    _ => seq![payload],
                }
            },
            _ => Seq::empty(),
        }
    }
}

/// A failed delivery neither holds up nor changes what follows: whatever the
/// outcomes are, the worker hands out the payloads that wait, each once and
/// in the order of the queue, one for every outcome until the queue is
/// empty.
pub proof fn lemma_failures_do_not_block(queue: QueueView, outcomes: Seq<Option<DeliveryError>>)
    ensures
        handed_out(queue, outcomes) == if outcomes.len() <= queue.items.len() {
            queue.items.take(outcomes.len() as int)
        } else {
            queue.items
        },
    decreases outcomes.len(),
{
    if outcomes.len() > 0 && queue.items.len() > 0 {
        lemma_failures_do_not_block(queue.after_dequeue(), outcomes.skip(1));
    }
}

/// After a delivery, failed or not, the worker is idle with the queue
/// untouched, and its next step hands out the head of the queue unchanged.
pub proof fn lemma_failure_is_isolated(queue: QueueView, error: DeliveryError)
    requires
        queue.items.len() > 0,
    ensures
        advanced(WorkerState::Delivering, queue, WorkerEvent::Delivered) == Some(
            (WorkerState::Idle, queue, WorkerActionView::Proceed),
        ),
        advanced(WorkerState::Delivering, queue, WorkerEvent::Failed(error)) == Some(
            (WorkerState::Idle, queue, WorkerActionView::Report(error)),
        ),
        advanced(WorkerState::Idle, queue, WorkerEvent::Resumed) == Some(
            (
                WorkerState::Delivering,
                queue.after_dequeue(),
                WorkerActionView::Deliver(queue.items[0]),
            ),
        ),
{
}

} // verus!
