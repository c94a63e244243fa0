//! A relay core for bridging two established duplex byte streams.
//!
//! The crate holds the decisions of a bridge session: how the configured
//! durations are clamped, how a copier reacts to the outcome of each read and
//! write, how the idle supervisor counts silent intervals, and how shutdown is
//! coordinated so that every endpoint is closed exactly once. Blocking I/O,
//! timers and worker scheduling are left to the caller, which performs the
//! actions these state machines ask for and reports back what happened.

pub mod config;
pub mod coordinator;
pub mod copier;
pub mod endpoint;
pub mod relay;
pub mod session;
pub mod supervisor;
pub mod traffic;
