//! A verified core for a minimal container runtime.
//!
//! Nothing in this crate touches the kernel. Every operation is a function
//! from what the kernel has answered so far to either the next request for
//! the kernel or the operation's result; a thin driver performs the requests
//! and hands the replies back. The contracts say which requests are made, in
//! which order, and what is returned for every possible sequence of replies.

pub mod child;
pub mod config;
pub mod container;
pub mod errors;
pub mod ipc;
pub mod kernel;
pub mod mounts;
pub mod namespace;
pub mod resources;
pub mod runs;
