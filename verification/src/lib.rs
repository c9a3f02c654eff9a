//! A declarative reconciliation engine for a Linux host's installed packages
//! and hostname.
//!
//! Heterogeneous package and service managers are described by small data
//! descriptors read from script files; the engine selects the active backend
//! (from a cache or by probing candidates), diffs the desired package set
//! against what is installed, and applies an ordered pipeline of idempotent
//! stages. Everything that touches the outside world (reading files,
//! evaluating descriptor scripts, spawning commands) is handed in as plain
//! values; the decisions taken on those values are specified and verified
//! here.

pub mod cache;
pub mod config;
pub mod differ;
pub mod errors;
pub mod from_file;
pub mod goat;
pub mod json;
pub mod package_manager;
pub mod resolver;
pub mod script;
pub mod service_manager;
pub mod stage;
pub mod text;
