//! Supervision of long-running external tool runs: splitting their output
//! into progress records, turning records into progress events, tracking the
//! single active job, and deciding how a finished job is reported.

pub mod digits;
pub mod records;
pub mod text;
pub mod pattern;
pub mod progress;
pub mod job;
pub mod seed;
pub mod validate;
pub mod options;
pub mod download;
pub mod diagnostics;
pub mod args;
pub mod encode;
pub mod fetch;
pub mod extract;
pub mod paths;
pub mod gif;
pub mod media;
pub mod files;
