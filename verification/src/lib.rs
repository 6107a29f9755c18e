//! Core of a client library for a remote bot messaging platform.
//!
//! Typed API calls are turned into wire request descriptors, response
//! envelopes are resolved into typed results or structured errors, and
//! inbound events (updates) are decoded from their raw envelope and consumed
//! either through a long-polling source or a webhook receiver.

pub mod api;
pub mod errors;
pub mod inline;
pub mod methods;
pub mod poll;
pub mod request;
pub mod types;
pub mod update;
pub mod webhook;
