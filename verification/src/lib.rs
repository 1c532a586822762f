//! The decisions of a release run, apart from the processes and files they act on.
//!
//! A run bumps the pre-release version in a package's manifest to the next minor
//! release, updates the lock file, commits, and creates a signed tag. [`workflow::step`]
//! tells the driver what to do next; the driver runs commands and touches files.

pub mod command;
pub mod error;
pub mod manifest;
pub mod metadata;
pub mod release;
pub mod version;
pub mod workflow;
