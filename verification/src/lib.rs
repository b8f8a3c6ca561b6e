//! Reaction-driven pin toggling for chat messages.
//!
//! A message is pinned when it receives the first reaction with the target
//! emoji and unpinned when the last such reaction is removed. This crate holds
//! the decisions only: the caller talks to the chat platform and reports back
//! what it saw.

pub mod engine;
pub mod guarantees;
pub mod model;
pub mod pipeline;
pub mod router;
