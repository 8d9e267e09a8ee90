//! Verified core of a single-shot package fetcher.
//!
//! Given an `owner/repo` pair, the program resolves the latest published
//! release of that repository, selects the first asset whose name carries the
//! package suffix, downloads it, and marks the downloaded file executable.
//! This crate holds everything the program decides or computes: argument
//! parsing, endpoint construction, asset selection, and the interpretation of
//! the HTTP responses. The surrounding binary performs the network calls and
//! the file writes, and feeds their results back in as plain values.

pub mod outcome;
pub mod release;
pub mod repo;
pub mod urls;
