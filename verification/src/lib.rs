//! An interactive agent loop: a conversation history, a completion client,
//! a tool registry and dispatcher, and the control-handoff rule that
//! decides whether the human operator or the agent acts next.
//!
//! Everything that the engine decides is verified; the transport to the
//! completion endpoint, the shell, and the operator's terminal are external
//! collaborators behind small traits.

pub mod client;
pub mod errors;
pub mod json_model;
pub mod laws;
pub mod message;
pub mod session;
pub mod tools;
pub mod wire;
