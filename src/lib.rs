//! Shared presence state of a real-time coordination server.
//!
//! The registry of open connections, the per-connection hooks that mutate it
//! and the broadcasts that each hook emits, with their behaviour stated and
//! proved. Transport, framing and encoding live with the caller.
pub mod protocol;
pub mod registry;
pub mod coordinator;
pub mod laws;
