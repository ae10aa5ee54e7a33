use worker_pool::queue::RecvOutcome;
use worker_pool::worker::on_recv;
use worker_pool::worker::Worker;
use worker_pool::worker::WorkerAction;

#[test]
fn new_worker_is_running_under_its_id() {
    let w = Worker::new(4);
    assert_eq!(w.id, 4);
    assert!(w.running);
}

#[test]
fn a_received_job_is_run() {
    assert_eq!(on_recv(RecvOutcome::Job(9)), WorkerAction::Run(9));
    assert_eq!(on_recv(RecvOutcome::Job(0)), WorkerAction::Run(0));
}

#[test]
fn the_closed_signal_ends_the_loop() {
    assert_eq!(on_recv(RecvOutcome::Closed), WorkerAction::Exit);
}
