//! The job queue: a single-producer, multi-consumer channel of tasks.

use vstd::prelude::*;

verus! {

/// Error returned by [`JobQueue::send`] when no receiving side remains:
/// no worker could ever pick the task up, and the caller must know.
#[derive(Clone, Copy, Debug, PartialEq, Eq, Structural)]
pub struct ChannelClosed;

/// What a worker sees when it asks the queue for work: either the oldest
/// queued job, or the signal that the sending side is closed and nothing
/// is left to drain.
#[derive(Clone, Copy, Debug, PartialEq, Eq, Structural)]
pub enum RecvOutcome {
    Job(usize),
    Closed,
}

/// The pool's job channel, modeled as explicit state.
///
/// Jobs are carried as the integer ids the pool assigns at submission.
/// Delivery is first-in, first-out across all enqueued jobs. Receiving
/// takes `&mut self`: the exclusive borrow stands for the mutual
/// exclusion consumers must hold around a dequeue, so any job is handed
/// to exactly one of them.
pub struct JobQueue {
    /// Jobs sent but not yet handed to a worker, oldest first.
    pub items: Vec<usize>,
    /// Whether the sending side is still open.
    pub sender_open: bool,
    /// Whether a receiving side remains.
    pub receiver_open: bool,
}

impl JobQueue {
    /// A fresh queue: empty, both ends open.
    pub fn new() -> (q: JobQueue)
        ensures
            q.items@.len() == 0,
            q.sender_open,
            q.receiver_open,
    {
        JobQueue { items: Vec::new(), sender_open: true, receiver_open: true }
    }

    /// Enqueue a job for eventual execution by exactly one worker.
    /// Succeeds and appends exactly when a receiver remains; fails with
    /// `ChannelClosed`, leaving the queue unchanged, exactly when none does.
    pub fn send(&mut self, job: usize) -> (r: Result<(), ChannelClosed>)
        ensures
            final(self).sender_open == old(self).sender_open,
            final(self).receiver_open == old(self).receiver_open,
            old(self).receiver_open ==> r == Ok::<(), ChannelClosed>(())
                && final(self).items@ == old(self).items@.push(job),
            !old(self).receiver_open ==> r == Err::<(), ChannelClosed>(ChannelClosed)
                && final(self).items@ == old(self).items@,
    {
        if self.receiver_open {
            self.items.push(job);
            Ok(())
        } else {
            Err(ChannelClosed)
        }
    }

    /// Hand out the oldest queued job, or report closure once the sender
    /// is gone and the queue is drained. A real receiver blocks while the
    /// queue is empty but still open, so a call is made only when one of
    /// the two outcomes is available.
    pub fn receive(&mut self) -> (r: RecvOutcome)
        requires
            old(self).items@.len() > 0 || !old(self).sender_open,
        ensures
            final(self).sender_open == old(self).sender_open,
            final(self).receiver_open == old(self).receiver_open,
            old(self).items@.len() > 0 ==> r == RecvOutcome::Job(old(self).items@[0])
                && final(self).items@ == old(self).items@.drop_first(),
            old(self).items@.len() == 0 ==> r == RecvOutcome::Closed
                && final(self).items@ == old(self).items@,
    {
        if self.items.len() > 0 {
            let j = self.items.remove(0);
            proof {
                assert(self.items@ =~= old(self).items@.drop_first());
            }
            RecvOutcome::Job(j)
        } else {
            RecvOutcome::Closed
        }
    }

    /// Close the sending side: what is queued can still be drained, and a
    /// receiver then sees `Closed`. Models the pool releasing its sender
    /// at teardown.
    pub fn close_sender(&mut self)
        ensures
            final(self).items@ == old(self).items@,
            !final(self).sender_open,
            final(self).receiver_open == old(self).receiver_open,
    {
        self.sender_open = false;
    }

    /// Close the receiving side: models the last consumer handle going
    /// away. Every later `send` fails with `ChannelClosed`.
    pub fn close_receiver(&mut self)
        ensures
            final(self).items@ == old(self).items@,
            final(self).sender_open == old(self).sender_open,
            !final(self).receiver_open,
    {
        self.receiver_open = false;
    }
}

} // verus!
