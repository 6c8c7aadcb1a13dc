//! The error taxonomy of the governance core.
//!
//! Every rejected operation surfaces one of these stable identifiers, so a
//! caller can tell "not yet enough signatures" from "unauthorized" from "bad
//! configuration". All of them are fatal to the call: a function that returns
//! one of these leaves the state exactly as it was.

use vstd::prelude::*;

verus! {

#[derive(Clone, Copy, Debug, PartialEq, Eq, Structural)]
pub enum UpgradeError {
    /// An initializer ran while a prior initialization already exists.
    AlreadyInitialized,
    /// The caller's principal does not carry the required authority.
    Unauthorized,
    /// The admin, proposal, or configuration needed by the call is missing.
    NotFound,
    /// An execution was attempted without enough distinct approvals.
    ThresholdNotMet,
    /// The proposal was already executed; execution is exactly-once.
    AlreadyExecuted,
}

} // verus!
