//! Decision core of a provisioning run for a GNU build environment on Windows.
//!
//! The host is never touched here: each module turns what a caller observed
//! (exit statuses, captured output, which files exist) into the next decision.

pub mod classify;
pub mod config;
pub mod install;
pub mod orchestrator;
pub mod outcome;
pub mod probe;
pub mod smoke;
pub mod text;
