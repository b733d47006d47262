//! A verified core for a serverless-extension sidecar.
//!
//! The sidecar has two duties: take part in the host's extension lifecycle
//! protocol (register once, then poll for the next event forever, so the
//! execution environment stays alive), and serve a small local HTTP endpoint
//! that issues a signed token on demand.
//!
//! This crate holds the decision logic of both duties: the write-once
//! configuration and identity cells, the lifecycle state machine and the
//! request plans it emits, the JSON rendering of the responses, and the
//! routing of inbound requests. The transport itself (the HTTP client and
//! server) lives outside, feeds plain values in, and carries plain values
//! back out.

pub mod errors;
pub mod env;
pub mod jsonfmt;
pub mod lifecycle;
pub mod token;
pub mod server;
