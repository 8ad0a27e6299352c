//! An authenticated HTTP-to-HTTP relay library.
//!
//! The library holds the verified core of the relay: validating a caller's
//! shared secret, building the outbound message envelope and its JSON wire
//! form, the upstream endpoint URLs, and the per-request decision pipeline
//! (reject, fetch a token, send the message, answer). The surrounding
//! process — environment loading, the HTTP listener and the HTTP client —
//! lives outside and drives the pipeline by performing the actions it asks
//! for.

pub mod config;
pub mod json;
pub mod laws;
pub mod message;
pub mod relay;
