//! Assembly of a clean, distributable copy of a version-controlled project tree.
//!
//! The library decides; its caller touches the disk. Every function here maps plain
//! values (paths as strings, flags, listings) to plain values (copy tasks, filesystem
//! actions, errors), so that each rule of the assembly is stated in a contract:
//!
//! - [`mapping`]: the declared `source -> destination` pairs and their parsing,
//! - [`output`]: what has to happen to the output directory before anything is copied,
//! - [`assembly`]: the run context, the explicit mapper and the walker's decisions,
//! - [`copy`]: the shallow copy of one entry, as a list of filesystem actions,
//! - [`cli`]: the command surface,
//! - [`error`]: the failures of a run and their messages,
//! - [`paths`]: the path operations borrowed from the standard library.

pub mod error;
pub mod mapping;
pub mod paths;
pub mod output;
pub mod cli;
pub mod copy;
pub mod assembly;
