//! Sandbox boundary of a multi-tenant function-execution runtime.
//!
//! Two pieces compose around one worker's lifetime: an execution
//! supervisor that settles a run to exactly one terminal outcome, and a
//! read-only overlay filesystem that serves the sandboxed code from a
//! static file table and a backing virtual-filesystem image, validating
//! npm-style package paths against a dependency resolution snapshot.

pub mod file_table;
pub mod outcome;
pub mod pathutil;
pub mod static_fs;
pub mod strutil;
pub mod supervisor;
pub mod version;
