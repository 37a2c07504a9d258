use cln_ntfy::payload::build_payload;
use cln_ntfy::queue::{DequeueOutcome, DispatchQueue, EnqueueOutcome, REFERENCE_CAPACITY};

#[test]
fn a_new_queue_is_empty_and_open() {
    let queue = DispatchQueue::new(3);
    assert_eq!(queue.len(), 0);
    assert_eq!(queue.capacity(), 3);
    assert!(queue.is_empty());
    assert!(!queue.is_full());
    assert!(!queue.is_closed());
}

#[test]
fn payloads_come_out_in_the_order_they_went_in() {
    let mut queue = DispatchQueue::new(8);
    assert_eq!(queue.enqueue(build_payload(1, "t")), EnqueueOutcome::Accepted);
    assert_eq!(queue.enqueue(build_payload(2, "t")), EnqueueOutcome::Accepted);
    assert_eq!(queue.enqueue(build_payload(3, "t")), EnqueueOutcome::Accepted);
    assert_eq!(queue.len(), 3);
    assert_eq!(queue.dequeue(), DequeueOutcome::Item(build_payload(1, "t")));
    assert_eq!(queue.dequeue(), DequeueOutcome::Item(build_payload(2, "t")));
    assert_eq!(queue.dequeue(), DequeueOutcome::Item(build_payload(3, "t")));
    assert_eq!(queue.dequeue(), DequeueOutcome::WouldSuspend);
    assert!(queue.is_empty());
}

#[test]
fn order_holds_when_adding_and_taking_alternate() {
    let mut queue = DispatchQueue::new(2);
    assert_eq!(queue.enqueue(build_payload(1, "t")), EnqueueOutcome::Accepted);
    assert_eq!(queue.enqueue(build_payload(2, "t")), EnqueueOutcome::Accepted);
    assert_eq!(queue.dequeue(), DequeueOutcome::Item(build_payload(1, "t")));
    assert_eq!(queue.enqueue(build_payload(3, "t")), EnqueueOutcome::Accepted);
    assert_eq!(queue.dequeue(), DequeueOutcome::Item(build_payload(2, "t")));
    assert_eq!(queue.enqueue(build_payload(4, "t")), EnqueueOutcome::Accepted);
    assert_eq!(queue.dequeue(), DequeueOutcome::Item(build_payload(3, "t")));
    assert_eq!(queue.dequeue(), DequeueOutcome::Item(build_payload(4, "t")));
    assert_eq!(queue.dequeue(), DequeueOutcome::WouldSuspend);
}

#[test]
fn a_full_queue_hands_the_payload_back_and_keeps_what_waits() {
    let mut queue = DispatchQueue::new(2);
    assert_eq!(queue.enqueue(build_payload(1, "t")), EnqueueOutcome::Accepted);
    assert!(!queue.is_full());
    assert_eq!(queue.enqueue(build_payload(2, "t")), EnqueueOutcome::Accepted);
    assert!(queue.is_full());
    assert_eq!(
        queue.enqueue(build_payload(3, "t")),
        EnqueueOutcome::WouldSuspend(build_payload(3, "t"))
    );
    assert_eq!(queue.len(), 2);
    assert_eq!(queue.dequeue(), DequeueOutcome::Item(build_payload(1, "t")));
    assert_eq!(queue.enqueue(build_payload(3, "t")), EnqueueOutcome::Accepted);
    assert_eq!(queue.dequeue(), DequeueOutcome::Item(build_payload(2, "t")));
    assert_eq!(queue.dequeue(), DequeueOutcome::Item(build_payload(3, "t")));
}

#[test]
fn the_queue_never_holds_more_than_its_capacity() {
    let mut queue = DispatchQueue::new(4);
    let mut accepted = 0;
    for amount in 0..10u64 {
        match queue.enqueue(build_payload(amount, "t")) {
            EnqueueOutcome::Accepted => accepted += 1,
            EnqueueOutcome::WouldSuspend(back) => assert_eq!(back, build_payload(amount, "t")),
            EnqueueOutcome::QueueClosed(_) => panic!("the queue is open"),
        }
        assert!(queue.len() <= queue.capacity());
    }
    assert_eq!(accepted, 4);
    assert_eq!(queue.len(), 4);
}

#[test]
fn a_queue_without_capacity_takes_nothing() {
    let mut queue = DispatchQueue::new(0);
    assert!(queue.is_full());
    assert!(queue.is_empty());
    assert_eq!(
        queue.enqueue(build_payload(1, "t")),
        EnqueueOutcome::WouldSuspend(build_payload(1, "t"))
    );
    assert_eq!(queue.dequeue(), DequeueOutcome::WouldSuspend);
}

#[test]
fn a_closed_queue_refuses_and_can_be_drained() {
    let mut queue = DispatchQueue::new(4);
    assert_eq!(queue.enqueue(build_payload(1, "t")), EnqueueOutcome::Accepted);
    assert_eq!(queue.enqueue(build_payload(2, "t")), EnqueueOutcome::Accepted);
    queue.close();
    assert!(queue.is_closed());
    assert_eq!(queue.len(), 2);
    assert_eq!(
        queue.enqueue(build_payload(3, "t")),
        EnqueueOutcome::QueueClosed(build_payload(3, "t"))
    );
    assert_eq!(queue.len(), 2);
    assert_eq!(queue.dequeue(), DequeueOutcome::Item(build_payload(1, "t")));
    assert_eq!(queue.dequeue(), DequeueOutcome::Item(build_payload(2, "t")));
    assert_eq!(queue.dequeue(), DequeueOutcome::Drained);
    assert_eq!(queue.dequeue(), DequeueOutcome::Drained);
}

#[test]
fn a_full_closed_queue_reports_the_closure() {
    let mut queue = DispatchQueue::new(1);
    assert_eq!(queue.enqueue(build_payload(1, "t")), EnqueueOutcome::Accepted);
    queue.close();
    queue.close();
    assert_eq!(
        queue.enqueue(build_payload(2, "t")),
        EnqueueOutcome::QueueClosed(build_payload(2, "t"))
    );
}

#[test]
fn the_reference_capacity_holds_1024_payloads() {
    assert_eq!(REFERENCE_CAPACITY, 1024);
    let mut queue = DispatchQueue::new(REFERENCE_CAPACITY);
    for amount in 0..1024u64 {
        assert_eq!(queue.enqueue(build_payload(amount, "t")), EnqueueOutcome::Accepted);
    }
    assert!(queue.is_full());
    assert_eq!(
        queue.enqueue(build_payload(1024, "t")),
        EnqueueOutcome::WouldSuspend(build_payload(1024, "t"))
    );
    for amount in 0..1024u64 {
        assert_eq!(queue.dequeue(), DequeueOutcome::Item(build_payload(amount, "t")));
    }
    assert_eq!(queue.dequeue(), DequeueOutcome::WouldSuspend);
}
