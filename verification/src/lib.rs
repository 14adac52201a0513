//! Request-admission core of a device-management daemon.
//!
//! Every module on an edge device shares one local management endpoint, so
//! each incoming request must be routed to exactly one handler and checked
//! against a per-route authorization policy before any business logic runs.
//! This crate holds that security boundary: a versioned route table, the
//! policy gate, and the dispatch decision, all with verified contracts.
//! Transport, handler bodies, and identity lookup are external collaborators.

pub mod auth;
pub mod laws;
pub mod route;
pub mod service;
pub mod table;
pub mod text;
pub mod version;
