//! Read-only diagnostic library for reporting the scheduling policy and
//! real-time priority of operating-system tasks.
//!
//! The crate holds the pure core of the pipeline: identifier parsing,
//! discovery filtering, best-effort record assembly, and classification of
//! raw scheduler values into human-readable labels. All contact with the
//! operating system (reading the process table, querying the scheduler)
//! happens outside this crate; callers hand the raw results in as plain
//! values and every function here is verified.

pub mod classify;
pub mod discovery;
pub mod errors;
pub mod parse;
pub mod process;
pub mod trim;
