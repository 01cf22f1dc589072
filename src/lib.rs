//! Lifecycle control for a locally supervised companion server: the start and
//! stop protocol around a single child handle, readiness polling, health probe
//! classification and the access-point subnet test.
//!
//! Every operation here is a decision on plain values. The process spawning,
//! HTTP probing, sleeping and socket work are done by the host, which feeds the
//! outcomes back in and performs the actions handed out.

pub mod health;
pub mod network;
pub mod readiness;
pub mod supervisor;
pub mod text;
