//! Granting a packet-routing core binary the privileges it needs to run
//! without an elevation prompt on every start.
//!
//! The library holds the decisions: whether a binary already carries the
//! marks, how the elevation command is built, and what each outcome of the
//! outside work means. Reading metadata, probing for an agent and spawning
//! processes are left to the caller, who feeds the results back in.
pub mod platform;
pub mod inspect;
pub mod escape;
pub mod command;
pub mod flow;
