use worker_pool::pool::ThreadPool;
use worker_pool::queue::RecvOutcome;

#[test]
fn pool_has_exactly_that_many_workers() {
    for size in 1..6usize {
        let p = ThreadPool::new(size);
        assert_eq!(p.workers.len(), size);
        for (i, w) in p.workers.iter().enumerate() {
            assert_eq!(w.id, i);
            assert!(w.running);
        }
    }
}

#[test]
fn zero_workers_is_invalid_configuration() {
    assert!(!ThreadPool::valid_size(0));
    assert!(ThreadPool::valid_size(1));
    assert!(ThreadPool::valid_size(usize::MAX));
}

#[test]
fn new_pool_is_active_and_idle() {
    let p = ThreadPool::new(2);
    assert!(p.queue.sender_open);
    assert!(p.queue.receiver_open);
    assert_eq!(p.queue.items.len(), 0);
    assert_eq!(p.executed.len(), 0);
    assert_eq!(p.next_job, 0);
}

#[test]
fn every_submitted_task_runs_exactly_once() {
    let mut p = ThreadPool::new(3);
    for expected in 0..5usize {
        let id = p.execute();
        assert_eq!(id, expected);
    }
    p.shutdown();
    assert_eq!(p.executed, vec![0, 1, 2, 3, 4]);
}

#[test]
fn teardown_of_an_idle_pool_runs_nothing() {
    let mut p = ThreadPool::new(1);
    p.shutdown();
    assert_eq!(p.executed.len(), 0);
    assert!(!p.workers[0].running);
}

#[test]
fn teardown_drains_queued_tasks_and_joins_every_worker() {
    let mut p = ThreadPool::new(2);
    for _ in 0..4 {
        p.execute();
    }
    assert_eq!(p.queue.items.len(), 4);
    p.shutdown();
    assert_eq!(p.executed, vec![0, 1, 2, 3]);
    assert_eq!(p.queue.items.len(), 0);
    assert!(!p.queue.sender_open);
    for w in p.workers.iter() {
        assert!(!w.running);
    }
}

#[test]
fn workers_take_jobs_in_submission_order() {
    let mut p = ThreadPool::new(2);
    p.execute();
    p.execute();
    let ran = p.worker_step(0);
    assert!(ran);
    assert_eq!(p.executed, vec![0]);
    let ran = p.worker_step(1);
    assert!(ran);
    assert_eq!(p.executed, vec![0, 1]);
}

#[test]
fn worker_exits_only_on_closed_and_drained_queue() {
    let mut p = ThreadPool::new(1);
    p.execute();
    p.queue.close_sender();
    let ran = p.worker_step(0);
    assert!(ran);
    assert_eq!(p.executed, vec![0]);
    assert!(p.workers[0].running);
    let ran = p.worker_step(0);
    assert!(!ran);
    assert!(!p.workers[0].running);
}

#[test]
fn two_workers_four_tasks_complete_in_two_rounds() {
    let mut p = ThreadPool::new(2);
    for _ in 0..4 {
        p.execute();
    }
    p.shutdown();
    let mut seen = p.executed.clone();
    seen.sort();
    assert_eq!(seen, vec![0, 1, 2, 3]);
    for w in p.workers.iter() {
        assert!(!w.running);
    }
    assert_eq!(worker_pool::schedule::rounds_needed(4, 2), 2);
}

#[test]
fn receive_reports_closure_after_teardown() {
    let mut p = ThreadPool::new(1);
    p.shutdown();
    assert_eq!(p.queue.receive(), RecvOutcome::Closed);
}
