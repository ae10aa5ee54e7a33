use worker_pool::queue::ChannelClosed;
use worker_pool::queue::JobQueue;
use worker_pool::queue::RecvOutcome;

#[test]
fn new_queue_is_empty_and_open() {
    let q = JobQueue::new();
    assert_eq!(q.items.len(), 0);
    assert!(q.sender_open);
    assert!(q.receiver_open);
}

#[test]
fn delivery_is_first_in_first_out() {
    let mut q = JobQueue::new();
    assert_eq!(q.send(10), Ok(()));
    assert_eq!(q.send(20), Ok(()));
    assert_eq!(q.send(30), Ok(()));
    assert_eq!(q.receive(), RecvOutcome::Job(10));
    assert_eq!(q.receive(), RecvOutcome::Job(20));
    q.close_sender();
    assert_eq!(q.receive(), RecvOutcome::Job(30));
    assert_eq!(q.receive(), RecvOutcome::Closed);
}

#[test]
fn send_fails_once_receivers_are_gone() {
    let mut q = JobQueue::new();
    q.close_receiver();
    assert_eq!(q.send(1), Err(ChannelClosed));
    assert_eq!(q.items.len(), 0);
}

#[test]
fn queued_jobs_survive_sender_closure() {
    let mut q = JobQueue::new();
    assert_eq!(q.send(7), Ok(()));
    q.close_sender();
    assert_eq!(q.items, vec![7]);
    assert_eq!(q.receive(), RecvOutcome::Job(7));
    assert_eq!(q.receive(), RecvOutcome::Closed);
}
