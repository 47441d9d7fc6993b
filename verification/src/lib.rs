//! Query execution lifecycle and streaming delivery.
//!
//! A submitted statement runs as an independent producer that drains the
//! interpreter's batch stream into a bounded delivery channel, while the
//! guarded lifecycle state records exactly one terminal outcome out of
//! three racing completion sources: exhaustion, a stream error, and a
//! cooperative abort signal.

pub mod error;
pub mod progress;
pub mod data;
pub mod channel;
pub mod state;
pub mod producer;
pub mod laws;
pub mod grant;
pub mod meta_auth;
pub mod date_serializer;
