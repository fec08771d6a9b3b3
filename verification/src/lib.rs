//! Configuration model and version resolution for a manifest-driven task runner.
//!
//! A manifest declares named tasks and pins the versions of the tools the tasks
//! run under. This crate holds the typed model of such a manifest, the rules
//! that accept or reject it, and the step that turns a pinned tool into a
//! version-manager handle.

pub mod config;
pub mod error;
pub mod version_manager;
pub mod versions;
