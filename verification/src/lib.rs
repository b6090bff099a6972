//! Concurrent filesystem-scanning engine for forensic triage.
//!
//! The library walks a directory tree, applies include/exclude glob filters,
//! runs a per-entry analysis (SHA-256 content hashing, or signature matching)
//! and streams results incrementally to the caller while tolerating per-file
//! failures.  The traversal decisions, the filter compiler, the entry
//! normalizer, both analyzers' payload construction and the scan lifecycle are
//! verified; the operating-system walker, the worker thread and the channel
//! live outside the library and drive it.

pub mod digest;
pub mod direntry;
pub mod entry;
pub mod errors;
pub mod filter;
pub mod options;
pub mod report;
pub mod scan;
pub mod scan_result;
pub mod scandir;
pub mod scandir_result;
pub mod traversal;

pub use options::Options;
