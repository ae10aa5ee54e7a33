//! A round-based model of how the pool's timing behaves.
//!
//! With `n` workers and tasks of equal duration submitted up front, the
//! pool dispatches first-in, first-out: the first `n` tasks start at
//! once, and each later task starts when an earlier one completes. Time
//! then divides into rounds of `n` concurrent tasks: task `k` (counted
//! from zero) starts in round `k / n`, and the whole batch takes as many
//! rounds as the last task's round, plus one — not one round per task.

use vstd::prelude::*;

verus! {

/// The round in which task `k` starts, with `n` workers.
pub open spec fn start_round(k: int, n: int) -> int
    recommends
        n >= 1,
        k >= 0,
{
    k / n
}

/// How many rounds `m` tasks take with `n` workers: none for an empty
/// batch, otherwise the last task's round, plus one.
pub open spec fn total_rounds(m: int, n: int) -> int
    recommends
        n >= 1,
        m >= 0,
{
    if m == 0 {
        0
    } else {
        start_round(m - 1, n) + 1
    }
}

/// The start round of each of `m` tasks, in submission order.
pub fn assign_start_rounds(m: usize, n: usize) -> (rounds: Vec<usize>)
    requires
        n >= 1,
    ensures
        rounds@.len() == m,
        forall|k: int| 0 <= k < m ==> #[trigger] rounds@[k] as int == start_round(k, n as int),
{
    let mut rounds: Vec<usize> = Vec::new();
    let mut k: usize = 0;
    while k < m
        invariant
            n >= 1,
            k <= m,
            rounds@.len() == k,
            forall|i: int| 0 <= i < k ==> #[trigger] rounds@[i] as int == start_round(i, n as int),
        decreases m - k,
    {
        rounds.push(k / n);
        k = k + 1;
    }
    rounds
}

/// How many rounds `m` tasks take with `n` workers.
pub fn rounds_needed(m: usize, n: usize) -> (r: usize)
    requires
        n >= 1,
    ensures
        r as int == total_rounds(m as int, n as int),
{
    if m == 0 {
        0
    } else {
        proof {
            assert((m - 1) / (n as int) <= m - 1) by (nonlinear_arith)
                requires
                    n >= 1,
                    m >= 1,
            ;
        }
        (m - 1) / n + 1
    }
}

/// While the pool has capacity to spare — no more tasks than workers —
/// every task starts in the first round: all of them run concurrently,
/// and a non-empty batch completes in one round, not one per task.
pub proof fn lemma_within_capacity_all_concurrent(m: int, n: int)
    requires
        1 <= n,
        0 <= m <= n,
    ensures
        forall|k: int| 0 <= k < m ==> start_round(k, n) == 0,
        m >= 1 ==> total_rounds(m, n) == 1,
{
    assert forall|k: int| 0 <= k < m implies start_round(k, n) == 0 by {
        assert(k / n == 0) by (nonlinear_arith)
            requires
                0 <= k < n,
        ;
    }
}

/// With more tasks than workers, the task past capacity queues: task `n`
/// — the `(n+1)`-th submitted — starts only in round one, after the
/// first-round tasks, once one of them has completed; and the batch
/// needs at least two rounds.
pub proof fn lemma_excess_task_queued(m: int, n: int)
    requires
        1 <= n,
        n < m,
    ensures
        start_round(n, n) == 1,
        forall|k: int| 0 <= k < n ==> start_round(k, n) == 0,
        total_rounds(m, n) >= 2,
{
    assert(n / n == 1) by (nonlinear_arith)
        requires
            n >= 1,
    ;
    assert forall|k: int| 0 <= k < n implies start_round(k, n) == 0 by {
        assert(k / n == 0) by (nonlinear_arith)
            requires
                0 <= k < n,
        ;
    }
    assert((m - 1) / n >= 1) by (nonlinear_arith)
        requires
            n >= 1,
            m - 1 >= n,
    ;
}

} // verus!
