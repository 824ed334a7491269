//! Lifecycle core of a long-running mining task exposed to a host runtime.
//!
//! The crate verifies the session lifecycle controller: a registry holding at
//! most one mining session, a start/stop state machine whose transitions are
//! pinned by contracts, and the boundary layer that converts host-provided
//! primitive arguments into a configuration and translates every outcome —
//! including a captured crash — into a status code and an exception message.
//! The mining algorithm itself, the foreign-function surface and the task
//! spawning are unverified plumbing that lives outside this library.

pub mod boundary;
pub mod config;
pub mod controller;
pub mod registry;
