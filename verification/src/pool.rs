//! The worker pool: construction, submission, the worker run-loop step,
//! and teardown, as a verified state machine.

use vstd::prelude::*;

use crate::queue::ChannelClosed;
use crate::queue::JobQueue;
use crate::queue::RecvOutcome;
use crate::worker::Worker;
use crate::worker::WorkerAction;
use crate::worker::on_recv;

verus! {

/// The pool's lifecycle: active while its sender is open; shutting down
/// while workers drain what remains; terminated once the queue is empty
/// and every worker has exited and been joined.
#[derive(Clone, Copy, Debug, PartialEq, Eq, Structural)]
pub enum PoolState {
    Active,
    ShuttingDown,
    Terminated,
}

/// A fixed-size worker pool over a first-in, first-out job queue.
///
/// Tasks are carried as the consecutive integer ids the pool assigns at
/// submission, so the submission history is exactly the ids below
/// `next_job`, in order. `executed` is the log of tasks run so far, in
/// the order the workers took them.
pub struct ThreadPool {
    /// The workers, in id order; exactly as many as the pool was built with.
    pub workers: Vec<Worker>,
    /// The shared job channel; the pool alone holds the sending side.
    pub queue: JobQueue,
    /// Ids of the tasks already executed, in execution order.
    pub executed: Vec<usize>,
    /// The id the next submitted task will get; also how many were submitted.
    pub next_job: usize,
}

impl ThreadPool {
    /// Every task submitted so far, in submission order: the ids are
    /// handed out consecutively from zero.
    pub open spec fn submitted(self) -> Seq<usize> {
        Seq::new(self.next_job as nat, |i: int| i as usize)
    }

    /// No worker's run-loop has exited yet.
    pub open spec fn workers_all_running(self) -> bool {
        forall|i: int| 0 <= i < self.workers@.len() ==> (#[trigger] self.workers@[i]).running
    }

    /// Every worker has exited its run-loop and been joined.
    pub open spec fn workers_all_stopped(self) -> bool {
        forall|i: int| 0 <= i < self.workers@.len() ==> !(#[trigger] self.workers@[i]).running
    }

    /// Well-formedness, established at construction and kept by every
    /// operation: there is at least one worker; each worker's stable id
    /// is its position; nothing submitted is lost or duplicated — the
    /// log so far, then the queue, in order, is exactly the submission
    /// sequence; no worker exits while the sender is open, since only
    /// closure ends a run-loop; and the receiving side outlives the pool,
    /// so the pool's own sends cannot fail.
    pub open spec fn wf(self) -> bool {
        &&& self.workers@.len() >= 1
        &&& forall|i: int| 0 <= i < self.workers@.len() ==> (#[trigger] self.workers@[i]).id == i
        &&& self.executed@ + self.queue.items@ == self.submitted()
        &&& self.queue.sender_open ==> self.workers_all_running()
        &&& self.queue.receiver_open
    }

    /// Where the pool stands in its lifecycle.
    pub open spec fn state(self) -> PoolState {
        if self.queue.sender_open {
            PoolState::Active
        } else if self.queue.items@.len() > 0 || !self.workers_all_stopped() {
            PoolState::ShuttingDown
        } else {
            PoolState::Terminated
        }
    }

    /// Whether `size` is a valid pool size: every positive count is, and
    /// only zero is refused. Constructing with zero is an invalid
    /// configuration, not a silent no-op, so a caller that cannot vouch
    /// for its count checks here first and fails fast, before any worker
    /// is spawned.
    pub fn valid_size(size: usize) -> (ok: bool)
        ensures
            ok == (size >= 1),
    {
        size >= 1
    }

    /// Construct the job queue, then exactly `size` workers, each sharing
    /// the queue's receiving side. The pool returned is active, its log
    /// and queue empty, its workers running and numbered from zero.
    pub fn new(size: usize) -> (p: ThreadPool)
        requires
            size >= 1,
        ensures
            p.wf(),
            p.state() == PoolState::Active,
            p.workers@.len() == size,
            p.executed@.len() == 0,
            p.queue.items@.len() == 0,
            p.next_job == 0,
    {
        let queue = JobQueue::new();
        let mut workers: Vec<Worker> = Vec::new();
        for id in 0..size
            invariant
                workers@.len() == id,
                forall|i: int| 0 <= i < id ==> (#[trigger] workers@[i]).id == i,
                forall|i: int| 0 <= i < id ==> (#[trigger] workers@[i]).running,
        {
            workers.push(Worker::new(id));
        }
        let p = ThreadPool { workers, queue, executed: Vec::new(), next_job: 0 };
        proof {
            assert(p.executed@ + p.queue.items@ =~= p.submitted());
        }
        p
    }

    /// Submit a task: assign it the next id and enqueue it on the job
    /// queue, to be run by exactly one currently-or-eventually-idle
    /// worker. Returns the task's id. The caller is not blocked beyond
    /// the enqueue; and since only teardown closes the sending side, a
    /// send from a live, active pool cannot find the channel closed.
    pub fn execute(&mut self) -> (job: usize)
        requires
            old(self).wf(),
            old(self).state() == PoolState::Active,
            old(self).next_job < usize::MAX,
        ensures
            final(self).wf(),
            final(self).state() == PoolState::Active,
            job == old(self).next_job,
            final(self).next_job == old(self).next_job + 1,
            final(self).queue.items@ == old(self).queue.items@.push(job),
            final(self).executed@ == old(self).executed@,
            final(self).workers@ == old(self).workers@,
    {
        let job = self.next_job;
        self.next_job = self.next_job + 1;
        let r = self.queue.send(job);
        // the receiving side is open for as long as the pool is, so the
        // contract of `send` rules the failure out
        assert(r == Ok::<(), ChannelClosed>(()));
        proof {
            let before = old(self).executed@ + old(self).queue.items@;
            assert(self.executed@ + self.queue.items@ =~= before.push(job));
            assert(before.push(job) =~= self.submitted());
        }
        job
    }

    /// One turn of worker `wid`'s run-loop: take exclusive access to the
    /// queue's receiving side just long enough to receive, release it,
    /// then act on the outcome — a job is executed on this worker's
    /// thread and logged; the closed signal makes the worker exit its
    /// loop. A real worker blocks while the queue is empty but open, so
    /// a step is taken only when an outcome is available.
    pub fn worker_step(&mut self, wid: usize) -> (ran: bool)
        requires
            old(self).wf(),
            wid < old(self).workers@.len(),
            old(self).workers@[wid as int].running,
            old(self).queue.items@.len() > 0 || !old(self).queue.sender_open,
        ensures
            final(self).wf(),
            final(self).next_job == old(self).next_job,
            final(self).queue.sender_open == old(self).queue.sender_open,
            final(self).workers@.len() == old(self).workers@.len(),
            old(self).queue.items@.len() > 0 ==> ({
                &&& ran
                &&& final(self).executed@ == old(self).executed@.push(old(self).queue.items@[0])
                &&& final(self).queue.items@ == old(self).queue.items@.drop_first()
                &&& final(self).workers@ == old(self).workers@
            }),
            old(self).queue.items@.len() == 0 ==> ({
                &&& !ran
                &&& final(self).executed@ == old(self).executed@
                &&& final(self).queue.items@ == old(self).queue.items@
                &&& final(self).workers@[wid as int].id == wid
                &&& !final(self).workers@[wid as int].running
                &&& forall|i: int|
                    0 <= i < final(self).workers@.len() && i != wid
                        ==> final(self).workers@[i] == old(self).workers@[i]
            }),
    {
        let outcome = self.queue.receive();
        match on_recv(outcome) {
            WorkerAction::Run(job) => {
                self.executed.push(job);
                proof {
                    assert(self.executed@ + self.queue.items@ =~= self.submitted());
                }
                true
            }
            WorkerAction::Exit => {
                self.workers.set(wid, Worker { id: wid, running: false });
                false
            }
        }
    }

    /// Teardown: close the sending side, let the workers drain every
    /// task still queued — each runs to completion — then join each
    /// worker in turn. When it returns, everything ever submitted has
    /// been executed, in submission order, the queue is empty, and no
    /// worker thread is left running: none is leaked.
    pub fn shutdown(&mut self)
        requires
            old(self).wf(),
            old(self).state() == PoolState::Active,
        ensures
            final(self).wf(),
            final(self).state() == PoolState::Terminated,
            final(self).executed@ == old(self).executed@ + old(self).queue.items@,
            final(self).queue.items@.len() == 0,
            final(self).next_job == old(self).next_job,
            final(self).workers@.len() == old(self).workers@.len(),
    {
        self.queue.close_sender();
        while self.queue.items.len() > 0
            invariant
                self.wf(),
                !self.queue.sender_open,
                self.workers_all_running(),
                self.next_job == old(self).next_job,
                self.workers@.len() == old(self).workers@.len(),
                self.executed@ + self.queue.items@
                    == old(self).executed@ + old(self).queue.items@,
            decreases self.queue.items@.len(),
        {
            let _ran = self.worker_step(0);
            proof {
                assert(self.executed@ + self.queue.items@
                    =~= old(self).executed@ + old(self).queue.items@);
            }
        }
        proof {
            assert(self.executed@ =~= old(self).executed@ + old(self).queue.items@);
        }
        let n = self.workers.len();
        let mut wid: usize = 0;
        while wid < n
            invariant
                self.wf(),
                !self.queue.sender_open,
                self.queue.items@.len() == 0,
                n == self.workers@.len(),
                wid <= n,
                self.next_job == old(self).next_job,
                self.executed@ == old(self).executed@ + old(self).queue.items@,
                forall|i: int| 0 <= i < wid ==> !(#[trigger] self.workers@[i]).running,
                forall|i: int| wid <= i < n ==> (#[trigger] self.workers@[i]).running,
            decreases n - wid,
        {
            let _ran = self.worker_step(wid);
            wid = wid + 1;
        }
    }

    /// Every submitted task is executed exactly once, whatever the pool
    /// size and however many tasks were submitted: once the pool has
    /// terminated, the execution log is exactly the submission sequence —
    /// task `k` stands at position `k`, no id is missing, and no id
    /// appears twice. No task is dropped, and none runs a second time.
    pub proof fn lemma_executed_exactly_once(p: ThreadPool)
        requires
            p.wf(),
            p.state() == PoolState::Terminated,
        ensures
            p.executed@ == p.submitted(),
            p.executed@.len() == p.next_job,
            forall|k: int| 0 <= k < p.executed@.len() ==> p.executed@[k] == k as usize,
            forall|j: usize| j < p.next_job ==> p.executed@.contains(j),
            forall|k1: int, k2: int|
                0 <= k1 < k2 < p.executed@.len() ==> p.executed@[k1] != p.executed@[k2],
    {
        assert(p.executed@ =~= p.submitted());
        assert forall|j: usize| j < p.next_job implies p.executed@.contains(j) by {
            assert(p.executed@[j as int] == j);
        }
    }
}

} // verus!

