//! Failure reports for continuous-integration runs.
//!
//! The library reads the summary of a failed run and the logs of its failed
//! jobs, finds in each log the summary of the error, the task that failed and
//! the log file that the log names, and makes of them the issue that reports
//! the run. It tells whether an issue with nearly the same body was reported
//! before, and finds a log file on a machine where the path in the log leads
//! nowhere.
//!
//! Nothing here reads a file, runs a process or talks to a server: what comes
//! from outside is handed in, and every function says in its contract what it
//! makes of it. Searching with patterns is left to the `regex` crate, the
//! distance of two texts to the `distance` crate, the reading of versions to
//! the `semver` crate, and packing to the `bzip2` crate; their results carry
//! names of which the contracts speak.
//!
//! - [`text`] and [`path`]: texts and paths as sequences of chars.
//! - [`pattern`]: the search patterns and what they find.
//! - [`util`]: the summary of a run, what changes from run to run, paths in
//!   a text.
//! - [`errlog`]: the log of a failed job.
//! - [`err_msg_parse`]: the error summary of a log.
//! - [`issue`]: the issue and its text.
//! - [`commands`]: making the issue step by step, telling duplicates, and
//!   finding a log file.
//! - [`gh`]: what is asked of GitHub.
//! - [`version`]: the version of the command-line tool.
//! - [`archive`]: packing and unpacking bytes.
//! - [`error`]: what can go wrong.

pub mod archive;
pub mod commands;
pub mod err_msg_parse;
pub mod errlog;
pub mod error;
pub mod gh;
pub mod issue;
pub mod path;
pub mod pattern;
pub mod text;
pub mod util;
pub mod version;
