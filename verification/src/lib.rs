//! Verified core of a `mkdir -p` operation.
//!
//! The library models a filesystem path as a flag for absoluteness plus a
//! list of segments, and drives directory creation as a small state
//! machine: the machine names the next ancestor to attempt, the caller
//! performs the single-level create and reports what happened, and the
//! machine decides how to go on.  All decisions — when to recurse toward
//! the root, when an "already exists" report is benign, which created
//! directory is reported to the caller, and when to give up — are made
//! here and verified; the caller contributes only the filesystem calls.

pub mod dir_path;
pub mod ensure;
pub mod laws;
