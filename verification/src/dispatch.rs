//! The dispatcher: a fixed pool of independent executors with least-loaded
//! task placement.
//!
//! The pool keeps one inflight-task counter per executor.  To place a task
//! the dispatcher scans the counters, picks the executor with the strictly
//! smallest count (ties broken by the lowest index), increments that
//! counter, and decrements it again when the task's future resolves.  The
//! counters are the only shared dispatch state: no lock guards submission.
//! The balance theorem below shows the discipline keeps the pool even: as
//! long as every placement goes to a least-loaded executor, no counter ever
//! exceeds the ceiling of (total inflight tasks / pool size).

use vstd::prelude::*;

verus! {

/// Sum of a load vector.
pub open spec fn spec_sum(loads: Seq<u64>) -> int
    decreases loads.len(),
{
    if loads.len() == 0 {
        0
    } else {
        spec_sum(loads.drop_last()) + loads.last()
    }
}

/// The pool is balanced: no executor holds more than the ceiling of the
/// mean load.  Stated multiplicatively — `c <= ceil(sum / n)` exactly when
/// `(c - 1) * n < sum` — so the theorem needs no division.
pub open spec fn spec_balanced(loads: Seq<u64>) -> bool {
    forall|k: int|
        0 <= k < loads.len() ==> (((#[trigger] loads[k]) - 1) * loads.len() < spec_sum(loads))
}

/// The sum of a vector bounds any element from below times the minimum.
proof fn lemma_min_times_len_le_sum(loads: Seq<u64>, m: int)
    requires
        forall|k: int| 0 <= k < loads.len() ==> m <= #[trigger] loads[k],
    ensures
        m * loads.len() <= spec_sum(loads),
    decreases loads.len(),
{
    if loads.len() == 0 {
    } else {
        lemma_min_times_len_le_sum(loads.drop_last(), m);
        assert(m * (loads.len() - 1) + m == m * loads.len()) by (nonlinear_arith);
    }
}

/// Replacing one element changes the sum by the difference.
pub proof fn lemma_sum_update(loads: Seq<u64>, i: int, v: u64)
    requires
        0 <= i < loads.len(),
    ensures
        spec_sum(loads.update(i, v)) == spec_sum(loads) - loads[i] + v,
    decreases loads.len(),
{
    let updated = loads.update(i, v);
    if i == loads.len() - 1 {
        assert(updated.drop_last() =~= loads.drop_last());
    } else {
        assert(updated.drop_last() =~= loads.drop_last().update(i, v));
        lemma_sum_update(loads.drop_last(), i, v);
    }
}

/// An all-zero load vector sums to zero.
pub proof fn lemma_sum_zero(loads: Seq<u64>)
    requires
        forall|k: int| 0 <= k < loads.len() ==> #[trigger] loads[k] == 0,
    ensures
        spec_sum(loads) == 0,
    decreases loads.len(),
{
    if loads.len() > 0 {
        lemma_sum_zero(loads.drop_last());
    }
}

/// Balance theorem: placing a task on a least-loaded executor keeps the
/// pool balanced.  If no counter exceeds the ceiling of the mean and the
/// chosen executor's count is the minimum, then after the increment no
/// counter exceeds the ceiling of the new mean.
pub proof fn lemma_least_loaded_preserves_balance(loads: Seq<u64>, i: int)
    requires
        0 <= i < loads.len(),
        loads[i] < u64::MAX,
        forall|k: int| 0 <= k < loads.len() ==> loads[i] <= #[trigger] loads[k],
        spec_balanced(loads),
    ensures
        spec_balanced(loads.update(i, (loads[i] + 1) as u64)),
{
    let n = loads.len() as int;
    let m = loads[i] as int;
    let updated = loads.update(i, (m + 1) as u64);
    lemma_min_times_len_le_sum(loads, m);
    lemma_sum_update(loads, i, (m + 1) as u64);
    assert(spec_sum(updated) == spec_sum(loads) + 1);
    assert forall|k: int| 0 <= k < updated.len() implies (((#[trigger] updated[k]) - 1) * n
        < spec_sum(updated)) by {
        if k == i {
            assert((updated[k] - 1) * n == m * n);
        } else {
            assert((loads[k] - 1) * n < spec_sum(loads));
        }
    }
}

/// A balanced pool whose total load is at most `bound` tasks per executor
/// holds at most `bound` tasks on every executor.
pub proof fn lemma_balance_bounds_load(loads: Seq<u64>, bound: int)
    requires
        loads.len() >= 1,
        spec_balanced(loads),
        spec_sum(loads) <= bound * loads.len(),
    ensures
        forall|k: int| 0 <= k < loads.len() ==> #[trigger] loads[k] <= bound,
{
    let n = loads.len() as int;
    assert forall|k: int| 0 <= k < loads.len() implies #[trigger] loads[k] <= bound by {
        assert((loads[k] - 1) * n < bound * n);
        assert(loads[k] - 1 < bound) by (nonlinear_arith)
            requires
                (loads[k] - 1) * n < bound * n,
                n >= 1,
        ;
    }
}

/// The pool after a run of placements: each pick increments its
/// executor's counter in turn.
pub open spec fn spec_run(loads: Seq<u64>, picks: Seq<int>) -> Seq<u64>
    decreases picks.len(),
{
    if picks.len() == 0 {
        loads
    } else {
        let i = picks[0];
        spec_run(loads.update(i, (loads[i] + 1) as u64), picks.drop_first())
    }
}

/// Every pick of the run lands on an executor that is least loaded at
/// its own step (with room left in its counter).
pub open spec fn spec_least_loaded_run(loads: Seq<u64>, picks: Seq<int>) -> bool
    decreases picks.len(),
{
    if picks.len() == 0 {
        true
    } else {
        let i = picks[0];
        &&& 0 <= i < loads.len()
        &&& loads[i] < u64::MAX
        &&& (forall|k: int| 0 <= k < loads.len() ==> loads[i] <= #[trigger] loads[k])
        &&& spec_least_loaded_run(loads.update(i, (loads[i] + 1) as u64), picks.drop_first())
    }
}

/// A least-loaded run keeps a balanced pool balanced, adds one task per
/// pick to the total, and never changes the pool's size.
pub proof fn lemma_run_preserves_balance(loads: Seq<u64>, picks: Seq<int>)
    requires
        spec_balanced(loads),
        spec_least_loaded_run(loads, picks),
    ensures
        spec_balanced(spec_run(loads, picks)),
        spec_sum(spec_run(loads, picks)) == spec_sum(loads) + picks.len(),
        spec_run(loads, picks).len() == loads.len(),
    decreases picks.len(),
{
    if picks.len() > 0 {
        let i = picks[0];
        let placed = loads.update(i, (loads[i] + 1) as u64);
        lemma_least_loaded_preserves_balance(loads, i);
        lemma_sum_update(loads, i, (loads[i] + 1) as u64);
        lemma_run_preserves_balance(placed, picks.drop_first());
    }
}

/// Law: starting from an idle pool of `n` executors, submitting `2 * n`
/// tasks — each placed on a least-loaded executor, none finishing in
/// between — leaves no executor holding more than two tasks.  The same
/// bound holds at any instant of the run: the placements made so far are
/// themselves a shorter run from the idle pool, with a smaller total.
pub proof fn lemma_two_n_tasks_bounded(loads: Seq<u64>, picks: Seq<int>)
    requires
        loads.len() >= 1,
        forall|k: int| 0 <= k < loads.len() ==> #[trigger] loads[k] == 0,
        picks.len() == 2 * loads.len(),
        spec_least_loaded_run(loads, picks),
    ensures
        forall|k: int| 0 <= k < loads.len() ==> #[trigger] spec_run(loads, picks)[k] <= 2,
{
    lemma_sum_zero(loads);
    assert forall|k: int| 0 <= k < loads.len() implies (((#[trigger] loads[k]) - 1) * loads.len()
        < spec_sum(loads)) by {
        assert((loads[k] - 1) * loads.len() == -loads.len()) by (nonlinear_arith)
            requires
                loads[k] == 0,
        ;
    }
    assert(spec_balanced(loads));
    lemma_run_preserves_balance(loads, picks);
    lemma_balance_bounds_load(spec_run(loads, picks), 2);
}

/// A fixed-size pool of executors, each with an inflight-task counter.
pub struct ExecutorPool {
    inflight: Vec<u64>,
}

impl ExecutorPool {
    /// The inflight counters, one per executor.
    pub closed spec fn loads(self) -> Seq<u64> {
        self.inflight@
    }

    /// A pool of `n` executors with nothing inflight.
    pub fn new(n: usize) -> (pool: Self)
        requires
            n >= 1,
        ensures
            pool.loads().len() == n,
            forall|k: int| 0 <= k < n ==> #[trigger] pool.loads()[k] == 0,
    {
        let mut inflight: Vec<u64> = Vec::new();
        let mut i: usize = 0;
        while i < n
            invariant
                i <= n,
                inflight@.len() == i,
                forall|k: int| 0 <= k < i ==> #[trigger] inflight@[k] == 0,
            decreases n - i,
        {
            inflight.push(0);
            i = i + 1;
        }
        ExecutorPool { inflight }
    }

    /// The inflight count of executor `i`.
    pub fn load_of(&self, i: usize) -> (c: u64)
        requires
            i < self.loads().len(),
        ensures
            c == self.loads()[i as int],
    {
        self.inflight[i]
    }

    /// Scans the counters and returns the executor with the strictly
    /// smallest inflight count, ties broken by the lowest index.
    pub fn pick_executor(&self) -> (chosen: usize)
        requires
            self.loads().len() >= 1,
        ensures
            chosen < self.loads().len(),
            forall|k: int|
                0 <= k < self.loads().len() ==> self.loads()[chosen as int]
                    <= #[trigger] self.loads()[k],
            forall|k: int|
                0 <= k < chosen ==> self.loads()[chosen as int] < #[trigger] self.loads()[k],
    {
        let mut chosen: usize = 0;
        let mut i: usize = 1;
        while i < self.inflight.len()
            invariant
                self.loads().len() >= 1,
                chosen < i <= self.loads().len(),
                forall|k: int|
                    0 <= k < i ==> self.loads()[chosen as int] <= #[trigger] self.loads()[k],
                forall|k: int|
                    0 <= k < chosen ==> self.loads()[chosen as int] < #[trigger] self.loads()[k],
            decreases self.loads().len() - i,
        {
            if self.inflight[i] < self.inflight[chosen] {
                chosen = i;
            }
            i = i + 1;
        }
        chosen
    }

    /// Records a task placed on executor `i`.
    pub fn task_submitted(&mut self, i: usize)
        requires
            i < old(self).loads().len(),
            old(self).loads()[i as int] < u64::MAX,
        ensures
            final(self).loads() == old(self).loads().update(
                i as int,
                (old(self).loads()[i as int] + 1) as u64,
            ),
    {
        let updated = self.inflight[i] + 1;
        self.inflight[i] = updated;
    }

    /// Records that the task on executor `i` resolved (with success or
    /// failure, a propagated panic included).
    pub fn task_finished(&mut self, i: usize)
        requires
            i < old(self).loads().len(),
            old(self).loads()[i as int] > 0,
        ensures
            final(self).loads() == old(self).loads().update(
                i as int,
                (old(self).loads()[i as int] - 1) as u64,
            ),
    {
        let updated = self.inflight[i] - 1;
        self.inflight[i] = updated;
    }

    /// Places one task: picks the least-loaded executor, increments its
    /// counter, and returns its index.  A balanced pool stays balanced.
    pub fn submit_next(&mut self) -> (chosen: usize)
        requires
            old(self).loads().len() >= 1,
            forall|k: int| 0 <= k < old(self).loads().len() ==> #[trigger] old(self).loads()[k]
                < u64::MAX,
        ensures
            chosen < old(self).loads().len(),
            forall|k: int|
                0 <= k < old(self).loads().len() ==> old(self).loads()[chosen as int]
                    <= #[trigger] old(self).loads()[k],
            final(self).loads() == old(self).loads().update(
                chosen as int,
                (old(self).loads()[chosen as int] + 1) as u64,
            ),
            spec_balanced(old(self).loads()) ==> spec_balanced(final(self).loads()),
    {
        let chosen = self.pick_executor();
        proof {
            if spec_balanced(self.loads()) {
                lemma_least_loaded_preserves_balance(self.loads(), chosen as int);
            }
        }
        self.task_submitted(chosen);
        chosen
    }
}

} // verus!
