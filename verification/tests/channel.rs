use wolf_engine::channel::{EventQueue, ReceiverDroppedError};

#[test]
fn should_deliver_events_in_submission_order() {
    let mut queue: EventQueue<u32> = EventQueue::new();

    queue.push(1).unwrap();
    queue.push(2).unwrap();
    queue.push(3).unwrap();

    assert_eq!(queue.pop(), Some(1));
    assert_eq!(queue.pop(), Some(2));
    assert_eq!(queue.pop(), Some(3));
    assert_eq!(queue.pop(), None);
}

#[test]
fn should_return_none_on_every_pop_of_an_empty_queue() {
    let mut queue: EventQueue<u32> = EventQueue::new();

    assert_eq!(queue.pop(), None);
    assert_eq!(queue.pop(), None);
    assert_eq!(queue.pop(), None);
}

#[test]
fn should_fail_pushes_after_the_receiver_is_released() {
    let mut queue: EventQueue<u32> = EventQueue::new();
    queue.push(1).unwrap();

    queue.close();

    assert_eq!(queue.push(2), Err(ReceiverDroppedError));
    assert_eq!(queue.pop(), Some(1), "events queued before the close are kept");
    assert_eq!(queue.pop(), None);
}

#[test]
fn should_keep_order_across_interleaved_pops() {
    let mut queue: EventQueue<u32> = EventQueue::new();

    queue.push(10).unwrap();
    queue.push(20).unwrap();
    assert_eq!(queue.pop(), Some(10));
    queue.push(30).unwrap();
    assert_eq!(queue.pop(), Some(20));
    assert_eq!(queue.pop(), Some(30));
    assert_eq!(queue.pop(), None);
}

#[test]
fn should_report_queue_length() {
    let mut queue: EventQueue<u32> = EventQueue::new();
    assert_eq!(queue.len(), 0);
    queue.push(1).unwrap();
    queue.push(2).unwrap();
    assert_eq!(queue.len(), 2);
    queue.pop();
    assert_eq!(queue.len(), 1);
}
