//! A bounded worker-pool executor: it owns a fixed number of worker threads,
//! runs submitted tasks concurrently, and hands their outcomes back in the
//! order of submission.
//!
//! [`task`] models a unit of work as plain data and says what outcome it
//! settles to; [`engine`] owns the pool and schedules the work.

pub mod engine;
pub mod task;
