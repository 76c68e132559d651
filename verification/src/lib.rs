//! Build orchestration for Yarn-managed Node.js applications.
//!
//! The crate holds the decisions of a build: which release of the tool a
//! version range selects, when a cached directory may be kept, whether a
//! fetched artifact may be unpacked, how the outcome of a command is read and
//! which step follows which. Every function carries a contract that Verus
//! proves. Reading files, spawning processes and fetching artifacts is left to
//! the caller, who hands the results in as plain values.

pub mod cache;
pub mod catalog;
pub mod command;
pub mod constraint;
pub mod digest;
pub mod environment;
pub mod error;
pub mod installer;
pub mod inventory;
pub mod notation;
pub mod orchestrator;
pub mod plan;
pub mod text;
pub mod version;
