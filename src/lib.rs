//! Decision logic of an SSH-agent proxy that announces signing requests.
//!
//! The proxy forwards every agent request unchanged. For a signing request it
//! first looks up which identity is asked for and opens a desktop notice; once
//! the target agent has answered, the answer is classified and the notice is
//! completed with the outcome. This crate holds that logic as verified
//! functions over plain values; the transport and the notification backend
//! stay with the caller.

pub mod identity;
pub mod outcome;
pub mod notice;
pub mod peer;
pub mod session;
