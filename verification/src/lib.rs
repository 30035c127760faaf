//! A uniform abstraction over external encrypted-filesystem tools.
//!
//! A vault is a directory whose contents an external tool stores encrypted on
//! disk. Each supported tool gets one adapter, which knows the tool's
//! executable names, the shape of its command lines, and its table translating
//! process exit codes into failure reasons. The adapters expose a common
//! lifecycle: probe availability, create a vault, mount it, close it again.
//!
//! This crate holds the decision logic of the adapters: which program to run
//! with which arguments, what to feed the spawned process on standard input,
//! and how to read its exit status. Spawning the process itself is left to the
//! caller, which hands the observed exit status back to the interpretation
//! functions here.

pub mod backend;
pub mod gocryptfs;
