//! An API-key authentication and rate-limiting gate.
//!
//! A caller-supplied key is resolved against a pluggable key store,
//! a per-key quota is enforced by a pluggable limiter, and the request
//! is either forwarded or answered with a structured rejection.

pub mod assoc;
pub mod errors;
pub mod headers;
pub mod layer;
pub mod limiters;
pub mod manager;
pub mod mock;
pub mod storage;
pub mod traits;
pub mod types;
