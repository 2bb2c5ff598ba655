//! Core logic of a line-to-webhook forwarder: every line read from standard
//! input becomes one chat message, posted to a Slack-compatible incoming
//! webhook no faster than the service's posting guidance allows.
//!
//! The crate holds the decisions only. Reading input, sleeping and talking
//! HTTP are left to the caller, which is told what to do next by
//! [`driver::Driver`].

pub mod config;
pub mod driver;
pub mod endpoint;
pub mod error;
pub mod limiter;
pub mod line;
pub mod message;
pub mod report;
pub mod resolve;
pub mod session;
