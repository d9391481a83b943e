//! The worker-pool engine.
//!
//! [`Engine`] owns a fixed-size pool of worker threads and schedules
//! [`Task`]s onto it, either as a batch that is awaited jointly
//! ([`Engine::run_tasks`]) or one at a time with a [`Handle`] to wait on
//! later ([`Engine::spawn`]). The pool itself is an opaque scheduler of an
//! outside crate; every call into it stands behind a trusted item whose
//! contract says no more than that crate's documentation.

use crate::task::{task_outcome, Outcome, Task};
use vstd::prelude::*;

verus! {

#[verifier::external_type_specification]
#[verifier::external_body]
pub struct ExRuntime(tokio::runtime::Runtime);

#[verifier::external_type_specification]
#[verifier::external_body]
#[verifier::reject_recursive_types(T)]
pub struct ExJoinHandle<T>(tokio::task::JoinHandle<T>);

#[verifier::external_type_specification]
#[verifier::external_body]
pub struct ExJoinError(tokio::task::JoinError);

/// The outcome that the task behind a pending join handle settles to.
pub uninterp spec fn join_outcome(h: tokio::task::JoinHandle<Outcome>) -> Outcome;

/// Relies on tokio's runtime `Builder`: `new_multi_thread` with
/// `worker_threads(n)` builds a pool of exactly `n` workers, and `build`
/// fails only when the host cannot supply the resources. `worker_threads`
/// panics when given zero, so zero is left out here.
#[verifier::external_body]
fn build_runtime(worker_threads: usize) -> (r: Option<tokio::runtime::Runtime>)
    requires
        worker_threads >= 1,
{
    tokio::runtime::Builder::new_multi_thread()
        .worker_threads(worker_threads)
        .enable_all()
        .build()
        .ok()
}

/// Relies on num_cpus::get: the number of logical processors available to
/// the process, queried at call time; its documentation promises at least 1.
#[verifier::external_body]
fn cpu_count() -> (n: usize)
    ensures
        n >= 1,
{
    num_cpus::get()
}

/// Relies on futures::future::join_all, which runs every future and
/// collects the outputs in the order the futures were given (not the order
/// they finished in), and on Runtime::block_on, which returns that
/// collected output. Each future sleeps out its task's delay through
/// tokio::time::sleep (created under Runtime::enter so the timer can
/// register) and then, through futures::FutureExt::map, runs the verified
/// `Task::step`.
#[verifier::external_body]
fn run_all(rt: &tokio::runtime::Runtime, tasks: Vec<Task>) -> (r: Vec<Outcome>)
    ensures
        r@.len() == tasks@.len(),
        forall|i: int| 0 <= i < tasks@.len() ==> r@[i] == task_outcome(tasks@[i]),
{
    let _guard = rt.enter();
    rt.block_on(futures::future::join_all(tasks.into_iter().map(|t| {
        futures::FutureExt::map(
            tokio::time::sleep(std::time::Duration::from_millis(t.delay_ms)),
            move |_| t.step(),
        )
    })))
}

/// Relies on Runtime::spawn: the future starts running on the pool at once,
/// and the returned handle resolves to that future's output. The spawned
/// future sleeps out the task's delay through tokio::time::sleep (created
/// under Runtime::enter so the timer can register) and then, through
/// futures::FutureExt::map, runs the verified `Task::step`, so the handle
/// settles to the task's outcome.
#[verifier::external_body]
fn spawn_task(rt: &tokio::runtime::Runtime, t: Task) -> (h: tokio::task::JoinHandle<Outcome>)
    ensures
        join_outcome(h) == task_outcome(t),
{
    let _guard = rt.enter();
    rt.spawn(futures::FutureExt::map(
        tokio::time::sleep(std::time::Duration::from_millis(t.delay_ms)),
        move |_| t.step(),
    ))
}

/// Relies on Runtime::block_on and on JoinHandle's Future impl: awaiting
/// the handle yields `Ok` of the task's output once the task ran to
/// completion, and `Err` of a JoinError only when the task panicked or was
/// aborted.
#[verifier::external_body]
fn join_task(rt: &tokio::runtime::Runtime, h: tokio::task::JoinHandle<Outcome>) -> (r: Result<
    Outcome,
    tokio::task::JoinError,
>)
    ensures
        r matches Ok(o) ==> o == join_outcome(h),
{
    rt.block_on(h)
}

/// The one way construction can fail: the host refused the engine the
/// resources for its worker pool.
#[derive(Clone, Copy, PartialEq, Eq, Debug, Structural)]
pub enum EngineError {
    RuntimeBuild,
}

/// A caller-owned reference to a spawned task's eventual outcome. Waiting
/// on it through [`Engine::wait`] consumes it.
pub struct Handle {
    inner: tokio::task::JoinHandle<Outcome>,
}

impl Handle {
    /// The outcome the task behind this handle settles to.
    pub closed spec fn outcome(&self) -> Outcome {
        join_outcome(self.inner)
    }
}

/// A fixed-size worker pool that runs tasks concurrently and collects their
/// outcomes.
pub struct Engine {
    runtime: tokio::runtime::Runtime,
    workers: usize,
}

impl Engine {
    /// The number of worker threads the pool was built with.
    pub closed spec fn workers(&self) -> usize {
        self.workers
    }

    /// A well-formed engine has at least one worker.
    pub open spec fn wf(&self) -> bool {
        self.workers() >= 1
    }

    /// Build an engine with exactly `worker_threads` workers. Returns an
    /// error only when the host cannot supply the pool's resources.
    pub fn new(worker_threads: usize) -> (r: Result<Engine, EngineError>)
        requires
            worker_threads >= 1,
        ensures
            r matches Ok(e) ==> e.wf() && e.workers() == worker_threads,
    {
        match build_runtime(worker_threads) {
            Some(rt) => Ok(Engine { runtime: rt, workers: worker_threads }),
            None => Err(EngineError::RuntimeBuild),
        }
    }

    /// Build an engine sized to the number of logical processors the host
    /// reports at call time.
    pub fn new_auto() -> (r: Result<Engine, EngineError>)
        ensures
            r matches Ok(e) ==> e.wf(),
    {
        let workers = cpu_count();
        Engine::new(workers)
    }

    /// The number of worker threads of the pool.
    pub fn worker_count(&self) -> (n: usize)
        ensures
            n == self.workers(),
    {
        self.workers
    }

    /// Run a batch of tasks concurrently across the pool and block until
    /// every one of them settled. The outcomes come back positionally: the
    /// outcome at index `i` is task `i`'s, whatever order the tasks finished
    /// in. An empty batch comes back empty at once, without touching the
    /// pool.
    pub fn run_tasks(&self, tasks: Vec<Task>) -> (r: Vec<Outcome>)
        ensures
            r@.len() == tasks@.len(),
            forall|i: int| 0 <= i < tasks@.len() ==> r@[i] == task_outcome(tasks@[i]),
    {
        if tasks.len() == 0 {
            Vec::new()
        } else {
            run_all(&self.runtime, tasks)
        }
    }

    /// Schedule one task onto the pool and return at once, without waiting
    /// for it: the task runs concurrently with the caller, and the handle
    /// settles to the task's outcome.
    pub fn spawn(&self, task: Task) -> (h: Handle)
        ensures
            h.outcome() == task_outcome(task),
    {
        Handle { inner: spawn_task(&self.runtime, task) }
    }

    /// Block until the task behind the handle settled and report its
    /// outcome. A task that failed yields [`Outcome::Failed`] here; it never
    /// tears the waiting caller down. Only if the scheduler lost the task
    /// can a completing task be reported as failed; a failed task is never
    /// reported as completed.
    pub fn wait(&self, h: Handle) -> (r: Outcome)
        ensures
            r == h.outcome() || r == Outcome::Failed,
            h.outcome() == Outcome::Failed ==> r == Outcome::Failed,
    {
        settle(join_task(&self.runtime, h.inner))
    }
}

/// What waiting reports for each way the scheduler can answer: the task's
/// own output when it ran to completion, and a failure where the scheduler
/// reports the task panicked or was aborted.
pub fn settle(j: Result<Outcome, tokio::task::JoinError>) -> (r: Outcome)
    ensures
        j matches Ok(o) ==> r == o,
        j matches Err(_) ==> r == Outcome::Failed,
{
    match j {
        Ok(o) => o,
        Err(_) => Outcome::Failed,
    }
}

} // verus!
