//! A fixed-size worker pool, modeled and verified.
//!
//! A pool owns N long-lived workers that pull units of work from a shared
//! first-in, first-out job queue. Submission is decoupled from execution:
//! `execute` enqueues a task, and exactly one currently-or-eventually-idle
//! worker runs it, exactly once. Teardown closes the submission side,
//! drains every task still queued, and joins every worker.
//!
//! The library holds the pool's logic as a state machine over plain values:
//! tasks are identified by the integer ids the pool hands out, and the
//! queue, the workers and the execution log are explicit state. The thread
//! and channel plumbing that carries this logic at run time lives outside
//! the library; every decision it takes — what a valid size is, what a
//! worker does with what it received, what teardown must drain — is taken
//! here, under contract.

pub mod pool;
pub mod queue;
pub mod schedule;
pub mod worker;
