//! Workspace indexing and search services.
//!
//! The crate offers three query services over a user-selected workspace
//! directory: fuzzy filename lookup over an in-memory path index, line
//! oriented content search with a bounded result set, and a single-path
//! change watcher with soft cancellation.  A grace-period license model
//! accompanies them.  Directory walking, pattern matching and fuzzy scoring
//! are delegated to outside crates behind trusted wrappers; every decision
//! around them is verified.

pub mod content_search;
pub mod file_search;
pub mod files;
pub mod file_watcher;
pub mod license;
pub mod walk;
