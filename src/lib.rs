//! Content hashing of a file set under interchangeable scheduling strategies.
//!
//! The library holds the decisions of the program: which strategies run and
//! in what order, how a file's bytes are streamed into a SHA-256 digest, how
//! each per-file outcome is rendered, how many asynchronous reads may be in
//! flight, and how a comparison report is written. Reading files, spawning
//! threads and printing are left to the caller.

pub mod budget;
pub mod config;
pub mod digest;
pub mod outcome;
pub mod report;

pub use budget::{concurrency_budget, fd_limit_for, Platform, FALLBACK_FD_LIMIT, SAFETY_MARGIN};
pub use digest::{digest_bytes, ChunkStep, DigestSession, Sha256State};
pub use config::{verbosity_for, ConfigError, Configuration, Implementation, Verbosity};
pub use outcome::{
    failure_line, render, route_from_worker, success_line, Emission, HashOutcome, SequentialPass,
    WorkerRoute,
};
pub use report::{ComparisonRun, Elapsed, TimingEntry};
