//! Core decision logic of a message-bus-to-file bridge.
//!
//! The bridge subscribes to a topic hierarchy and writes each received
//! message's payload to a file named by the message's metadata.  This crate
//! holds the verified core: session identity and policy, subscription
//! reconciliation, the bounded reconnection budget, the dual-phase
//! consumption loop, and persistence planning.  The transport client,
//! filesystem and signal wiring live outside, in the surrounding binary.

pub mod identity;
pub mod message;
pub mod persist;
pub mod reconnect;
pub mod runtime;
pub mod session;
pub mod verbosity;
