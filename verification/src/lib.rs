//! A command-line substring search library: given a root path and a literal
//! query, decide which files under that root contain the query, optionally
//! case-insensitively (ASCII-only folding) and recursively.
//!
//! The library holds the decision logic: option cataloguing, argument
//! parsing, configuration validation, enumeration over a snapshot of the
//! file tree, the substring search itself, and the per-file report loop.
//! All filesystem access happens outside, except for a single existence
//! probe on the root path.

pub mod config;
pub mod fstree;
pub mod options;
pub mod report;
pub mod search;
