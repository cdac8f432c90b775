//! Retrying of store operations with exponential backoff.
//!
//! An operation that fails may be tried again after a pause. This crate holds
//! the decisions of such a loop: which failures are worth another attempt, how
//! long each pause is, which error comes back when no attempt is left, what a
//! half-consumed upload has to replay and how a file is brought back to where
//! the upload began. Waiting, streaming and file access stay with the caller,
//! who reports what happened and performs the step that is handed back.
pub mod backoff;
pub mod backoff_laws;
pub mod cell;
pub mod chunk;
pub mod codes;
pub mod config;
pub mod duration;
pub mod error;
pub mod file;
pub mod file_laws;
pub mod file_runs;
pub mod hooks;
pub mod reader;
pub mod retrier;
pub mod retrier_laws;
pub mod runs;
pub mod step;
pub mod upload;
pub mod upload_laws;
pub mod upload_runs;
pub mod wrapper;
pub mod wrapper_laws;
