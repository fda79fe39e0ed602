//! Decision logic of a one-shot toolchain installer.
//!
//! The crate holds everything the installer decides: which architecture is
//! supported, which release file is chosen from a catalog, whether a
//! downloaded archive carries the expected SHA-256 digest, and in which order
//! the steps of a run follow each other. Network and filesystem work is left
//! to the caller, who performs the actions that [`pipeline::step`] hands out
//! and reports what happened.

pub mod catalog;
pub mod config;
pub mod digest;
pub mod error;
pub mod integrity;
pub mod pipeline;
pub mod platform;
pub mod text;
