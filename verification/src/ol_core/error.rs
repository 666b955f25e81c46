//! Error types of the OL core subprotocol.

use vstd::prelude::*;

verus! {

/// Errors that can occur in the OL core subprotocol.
#[derive(Debug, Clone, PartialEq, Eq)]
pub enum CoreError {
    /// Invalid signature on checkpoint.
    InvalidSignature,
    /// Invalid epoch number.
    InvalidEpoch { expected: u32, actual: u32 },
    /// Invalid L2 block slot: the new slot must be greater than the previous slot.
    InvalidL2BlockSlot { prev_slot: u64, new_slot: u64 },
    /// Invalid L1 block height.
    InvalidL1BlockHeight(String),
    /// Invalid L2 to L1 message.
    InvalidL2ToL1Msg { index: usize, reason: String },
    /// L1 to L2 message range commitment does not match.
    L1ToL2RangeMismatch,
    /// Malformed signed checkpoint.
    MalformedSignedCheckpoint(String),
    /// Failed to serialize data.
    SerializationError,
    /// Failed to parse transaction data.
    TxParsingError(String),
    /// Invalid ZK proof.
    InvalidProof,
    /// Invalid verifying key format.
    InvalidVerifyingKeyFormat(String),
}

/// Message of an L1 height that does not progress.
#[verifier::external_body]
pub(crate) fn l1_height_not_increasing_message(new_height: u64, prev_height: u64) -> String {
    format!("new L1 height {new_height} must be greater than previous height {prev_height}")
}

/// Message of an L1 height range whose start is above its end.
#[verifier::external_body]
pub(crate) fn l1_range_reversed_message(start_height: u64, end_height: u64) -> String {
    format!("start height {start_height} cannot be greater than end height {end_height}")
}

} // verus!
