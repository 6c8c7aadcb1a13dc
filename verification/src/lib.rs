//! Upgrade governance for a long-lived stateful service.
//!
//! The crate models who may replace the running code of such a service and
//! under what conditions: a trust configuration chosen exactly once at
//! initialization (either a single admin principal or an N-of-M signer set
//! with a threshold), a proposal/approval/execution pipeline for the multisig
//! path, a caller-driven version registry, and telemetry that aggregates
//! operation outcomes and per-operation latency.
//!
//! The host that embeds this core (durable storage, the authorization
//! primitive that proves a caller controls a principal, the code-replacement
//! primitive, and the clock) stays outside: every function here is a pure
//! state transition over plain values, with its behaviour stated in its
//! contract.

pub mod errors;
pub mod governance;
pub mod laws;
pub mod monitoring;
