//! Verified core of a bridge to the `jj` version-control tool.
//!
//! The library builds the argument vector for each supported operation,
//! classifies the outcome of the spawned process, and decodes the tool's
//! JSON-templated output into typed records.  Spawning the process itself
//! is input/output and stays with the caller: it hands the captured exit
//! status and output bytes back to [`executor::classify_outcome`].

pub mod error;
pub mod executor;
pub mod json;
pub mod models;
pub mod parser;
pub mod text;
