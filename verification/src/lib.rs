//! A job queue on top of a PostgreSQL database.
//!
//! This crate holds what the queue's client decides: which statements are sent to the database
//! and with which values, what is done with the rows that a poll returns, when to poll and how
//! long to wait, how running jobs are kept alive and completed, which function runs a job, and
//! what the arguments of the attribute that marks a job stand for. Talking to the database,
//! sleeping and running the jobs is left to the caller.
pub mod checkpoint;
pub mod current_job;
pub mod decimal;
pub mod duration;
pub mod hidden;
pub mod job_attr;
pub mod options;
pub mod payload;
pub mod poll;
pub mod registry;
pub mod runner;
pub mod spawn;
pub mod statement;
pub mod stress;
pub mod utils;

pub use crate::checkpoint::Checkpoint;
pub use crate::current_job::CurrentJob;
pub use crate::options::JobRunnerOptions;
pub use crate::registry::{JobRegistry, NamedJob, UnknownJobError};
pub use crate::runner::JobRunnerHandle;
pub use crate::spawn::TaskBuilder;
pub use crate::utils::OwnedHandle;
