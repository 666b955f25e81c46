//! Error types of the bridge subprotocol.

use vstd::prelude::*;

use crate::primitives::{Buf32, OperatorIdx, TxType};

verus! {

/// An "expected vs got" pair reported by a failed check.
#[derive(Debug, Clone, PartialEq, Eq)]
pub struct Mismatch<T> {
    /// The value that was expected.
    pub expected: T,
    /// The value that was actually encountered.
    pub got: T,
}

/// Errors that can occur when validating deposit transactions at the subprotocol level.
///
/// These errors represent state-level validation failures that occur after successful
/// transaction parsing.
#[derive(Debug, Clone, PartialEq, Eq)]
pub enum DepositValidationError {
    /// The DRT spending signature or the deposit output lock failed to validate.
    InvalidSignature { reason: String },
    /// The deposit amount does not match the expected amount for this bridge configuration.
    MismatchDepositAmount(Mismatch<u64>),
    /// A deposit with this index already exists in the deposits table.
    DepositIdxAlreadyExists(u32),
    /// Cannot create deposit entry with empty operators list.
    EmptyOperators,
}

/// Errors that can occur when parsing a deposit transaction.
#[derive(Debug, Clone, PartialEq, Eq)]
pub enum DepositTxParseError {
    /// The transaction type of the tag is not the deposit type.
    InvalidTxType(TxType),
    /// The auxiliary data is shorter than the fixed deposit fields; holds its length.
    InvalidAuxiliaryData(usize),
    /// The transaction has no deposit output.
    MissingDepositOutput,
}

/// Errors that can occur when validating withdrawal fulfillment transactions.
///
/// When these validation errors occur, they are logged and the transaction is skipped.
#[derive(Debug, Clone, PartialEq, Eq)]
pub enum WithdrawalValidationError {
    /// No assignment found for the deposit.
    NoAssignmentFound { deposit_idx: u32 },
    /// Operator performing withdrawal doesn't match assigned operator.
    OperatorMismatch(Mismatch<OperatorIdx>),
    /// Deposit txid in withdrawal doesn't match the actual deposit.
    DepositTxidMismatch(Mismatch<Buf32>),
    /// Withdrawal amount doesn't match assignment amount.
    AmountMismatch(Mismatch<u64>),
    /// Withdrawal destination doesn't match assignment destination.
    DestinationMismatch(Mismatch<Vec<u8>>),
}

/// Errors that can occur when processing withdrawal commands.
///
/// These errors indicate critical system issues that require investigation.
#[derive(Debug, Clone, PartialEq, Eq)]
pub enum WithdrawalCommandError {
    /// No unassigned deposits are available for processing.
    NoUnassignedDeposits,
    /// No current multisig operator found among the deposit's notary operators.
    NoEligibleOperators { deposit_idx: u32 },
    /// Deposit amount doesn't match withdrawal command total value.
    DepositWithdrawalAmountMismatch(Mismatch<u64>),
}

} // verus!
