//! Error types of the administration subprotocol.

use vstd::prelude::*;

use crate::admin::actions::UpdateId;

verus! {

/// A multisig configuration update could not be applied.
#[derive(Debug, Clone, PartialEq, Eq)]
pub struct MultisigConfigError {
    pub reason: String,
}

/// An aggregated vote did not validate an action.
#[derive(Debug, Clone, PartialEq, Eq)]
pub struct VoteValidationError {
    pub reason: String,
}

/// Top-level error type for the administration subprotocol.
#[derive(Debug, Clone, PartialEq, Eq)]
pub enum AdministrationError {
    /// The specified role is not recognized.
    UnknownRole,
    /// The specified action ID does not correspond to any pending update.
    UnknownAction(UpdateId),
    /// A validation failure on a multisig configuration or threshold.
    MultisigConfig(MultisigConfigError),
    /// A failure when validating a vote.
    Vote(VoteValidationError),
}

} // verus!
