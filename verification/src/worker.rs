//! A worker and the decision at the head of its run-loop.

use vstd::prelude::*;

use crate::queue::RecvOutcome;

verus! {

/// One worker of the pool, identified by a stable integer id.
///
/// In place of a thread handle, the model keeps whether the worker's
/// run-loop is still running or has exited and been joined.
pub struct Worker {
    /// The worker's position in the pool, fixed at construction.
    pub id: usize,
    /// Whether the run-loop is still going; false once the worker has
    /// observed queue closure and exited.
    pub running: bool,
}

impl Worker {
    /// A freshly spawned worker with the given id, its run-loop running.
    pub fn new(id: usize) -> (w: Worker)
        ensures
            w.id == id,
            w.running,
    {
        Worker { id, running: true }
    }
}

/// What a worker does with what `receive` handed it.
#[derive(Clone, Copy, Debug, PartialEq, Eq, Structural)]
pub enum WorkerAction {
    /// Invoke the job synchronously on this worker's thread, then loop.
    Run(usize),
    /// The channel is closed and drained: leave the loop; the thread ends.
    Exit,
}

/// The action each receive outcome calls for: a job is run, and only the
/// closed signal ends the loop.
pub open spec fn action_for(outcome: RecvOutcome) -> WorkerAction {
    match outcome {
        RecvOutcome::Job(j) => WorkerAction::Run(j),
        RecvOutcome::Closed => WorkerAction::Exit,
    }
}

/// The decision at the head of the worker run-loop. It is taken after the
/// exclusive access used for the dequeue has been released, so workers
/// never hold the queue while a job runs.
pub fn on_recv(outcome: RecvOutcome) -> (a: WorkerAction)
    ensures
        a == action_for(outcome),
{
    match outcome {
        RecvOutcome::Job(j) => WorkerAction::Run(j),
        RecvOutcome::Closed => WorkerAction::Exit,
    }
}

} // verus!
