//! The unit of work the engine runs, as plain data.
//!
//! A [`Task`] names a value to produce (or a deliberate failure) together
//! with an optional delay before it settles. The delay only stretches the
//! time a task takes; it never changes the outcome, so [`task_outcome`]
//! speaks of the work alone.

use vstd::prelude::*;

verus! {

/// What a task computes once a worker picks it up: either it produces a
/// value, or it fails on purpose.
#[derive(Clone, Copy, PartialEq, Eq, Debug, Structural)]
pub enum Work {
    Produce(i64),
    Fail,
}

/// A unit of asynchronous work. It has no identity beyond its position in a
/// submitted batch or the handle returned for it; `delay_ms` is how long the
/// task suspends cooperatively before settling.
#[derive(Clone, Copy, PartialEq, Eq, Debug, Structural)]
pub struct Task {
    pub delay_ms: u64,
    pub work: Work,
}

/// The settled state of a task: it completed with a value, or it failed.
#[derive(Clone, Copy, PartialEq, Eq, Debug, Structural)]
pub enum Outcome {
    Completed(i64),
    Failed,
}

/// The outcome a task settles to. It depends on the task's work alone:
/// neither the delay, nor which worker ran it, nor when, can change it.
pub open spec fn task_outcome(t: Task) -> Outcome {
    match t.work {
        Work::Produce(v) => Outcome::Completed(v),
        Work::Fail => Outcome::Failed,
    }
}

impl Task {
    /// A task that completes at once with `value`.
    pub fn ready(value: i64) -> (t: Task)
        ensures
            t.delay_ms == 0,
            t.work == Work::Produce(value),
    {
        Task { delay_ms: 0, work: Work::Produce(value) }
    }

    /// A task that suspends for `delay_ms` milliseconds, then completes
    /// with `value`.
    pub fn delayed(delay_ms: u64, value: i64) -> (t: Task)
        ensures
            t.delay_ms == delay_ms,
            t.work == Work::Produce(value),
    {
        Task { delay_ms, work: Work::Produce(value) }
    }

    /// A task that fails on purpose.
    pub fn failing() -> (t: Task)
        ensures
            t.delay_ms == 0,
            t.work == Work::Fail,
    {
        Task { delay_ms: 0, work: Work::Fail }
    }

    /// Run the task's own computation to its settled outcome.
    pub fn step(&self) -> (r: Outcome)
        ensures
            r == task_outcome(*self),
    {
        match self.work {
            Work::Produce(v) => Outcome::Completed(v),
            Work::Fail => Outcome::Failed,
        }
    }
}

/// Collapse a batch of outcomes to its values: `Some` of the values, in
/// order, when every task completed; `None` as soon as any task failed.
pub fn all_values(results: &Vec<Outcome>) -> (r: Option<Vec<i64>>)
    ensures
        match r {
            Some(vals) => {
                &&& vals@.len() == results@.len()
                &&& forall|i: int|
                    0 <= i < results@.len() ==> #[trigger] results@[i] == Outcome::Completed(
                        vals@[i],
                    )
            },
            None => exists|i: int| 0 <= i < results@.len() && results@[i] == Outcome::Failed,
        },
{
    let mut vals: Vec<i64> = Vec::new();
    let mut idx: usize = 0;
    while idx < results.len()
        invariant
            idx <= results@.len(),
            vals@.len() == idx,
            forall|i: int| 0 <= i < idx ==> #[trigger] results@[i] == Outcome::Completed(vals@[i]),
        decreases results@.len() - idx,
    {
        match results[idx] {
            Outcome::Completed(v) => {
                vals.push(v);
            }
            Outcome::Failed => {
                return None;
            }
        }
        idx = idx + 1;
    }
    Some(vals)
}

/// Law: a batch of tasks that each produce their index plus one settles to
/// the outcomes `1, 2, ..., k`, whatever the delays, the pool size, or the
/// order of completion.
pub proof fn lemma_indexed_batch(tasks: Seq<Task>, results: Seq<Outcome>)
    requires
        results.len() == tasks.len(),
        forall|i: int| 0 <= i < tasks.len() ==> results[i] == task_outcome(tasks[i]),
        forall|i: int| 0 <= i < tasks.len() ==> tasks[i].work == Work::Produce((i + 1) as i64),
    ensures
        forall|i: int|
            0 <= i < results.len() ==> results[i] == Outcome::Completed((i + 1) as i64),
{
}

/// Law: where one task of a batch fails, the settled batch reports a failure
/// at exactly that task's position, and the siblings' outcomes stand beside
/// it untouched.
pub proof fn lemma_failure_propagates(tasks: Seq<Task>, results: Seq<Outcome>, j: int)
    requires
        results.len() == tasks.len(),
        forall|i: int| 0 <= i < tasks.len() ==> results[i] == task_outcome(tasks[i]),
        0 <= j < tasks.len(),
        tasks[j].work == Work::Fail,
    ensures
        results[j] == Outcome::Failed,
        exists|i: int| 0 <= i < results.len() && results[i] == Outcome::Failed,
{
    assert(results[j] == Outcome::Failed);
}

} // verus!
