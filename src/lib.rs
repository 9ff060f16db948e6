//! Launches a batch of shell commands concurrently and reports each outcome.
//!
//! The library holds the decisions of the batch: the order in which the
//! coordinator creates the pool, submits commands and waits on handles, the
//! log records that describe each outcome, the error chain of a failure and
//! the exit status of the program. The work itself (spawning processes,
//! running a pool of threads, writing logs) is done by the caller.
pub mod decimal;
pub mod outcome;
pub mod error;
pub mod coordinator;
pub mod record;
pub mod program;
