//! The core of a self-updating launcher. It resolves the latest release of
//! a named binary by following one HTTP redirect hop, caches the binary on
//! disk under a fingerprint of its download URL, and supervises it as a
//! child process, killing it when a shutdown signal arrives.
//!
//! The network, the disk and the child process live outside this library;
//! what is verified here is everything the launcher decides and computes:
//! how URLs, fingerprints, cache paths, environment entries and argument
//! lists are built, what a cache visit may change, and which action each
//! supervision event demands.

pub mod cache;
pub mod config;
pub mod errors;
pub mod fingerprint;
pub mod resolver;
pub mod supervisor;
pub mod urls;
