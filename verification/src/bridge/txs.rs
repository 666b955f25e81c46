//! Dispatch of the bridge's transactions by their type.

use vstd::prelude::*;

use crate::bridge::constants::{DEPOSIT_TX_TYPE, WITHDRAWAL_TX_TYPE};
use crate::bridge::errors::{DepositTxParseError, DepositValidationError, WithdrawalValidationError};
use crate::bridge::parse::{parse_deposit_tx, parsed_deposit_matches, DepositInfo};
use crate::bridge::state::WithdrawalFulfillmentInfo;
use crate::btc::TxInputRef;
use crate::primitives::TxType;

verus! {

/// Errors of the bridge subprotocol's transaction processing.
#[derive(Debug, Clone, PartialEq, Eq)]
pub enum BridgeSubprotocolError {
    /// A deposit transaction failed to parse.
    DepositTxParse(DepositTxParseError),
    /// A deposit transaction failed to validate.
    DepositTxProcess(DepositValidationError),
    /// A withdrawal fulfillment transaction failed to parse; holds the parser's message.
    WithdrawalTxParse(String),
    /// A withdrawal fulfillment transaction failed to validate.
    WithdrawalTxProcess(WithdrawalValidationError),
    /// The transaction type is not one the bridge handles.
    UnsupportedTxType(TxType),
}

/// A bridge transaction, parsed according to its type.
#[derive(Debug, Clone, PartialEq, Eq)]
pub enum ParsedTx {
    /// A deposit transaction, which locks funds in the bridge.
    Deposit(DepositInfo),
    /// A withdrawal fulfillment transaction, which releases funds from the bridge.
    WithdrawalFulfillment(WithdrawalFulfillmentInfo),
}

/// Parses a transaction according to the type in its tag: a deposit is parsed by
/// [`parse_deposit_tx`], a withdrawal fulfillment by `parse_withdrawal` (the withdrawal
/// fulfillment parser, whose errors are reported by their message); any other type is
/// [`BridgeSubprotocolError::UnsupportedTxType`].
pub fn parse_tx<W>(tx: &TxInputRef, parse_withdrawal: &W) -> (r: Result<ParsedTx, BridgeSubprotocolError>) where
    W: Fn(&TxInputRef) -> Result<WithdrawalFulfillmentInfo, String>,

    requires
        parse_withdrawal.requires((tx,)),
    ensures
        ({
            let t = tx.tag.tx_type;
            let aux = tx.tag.aux_data@;
            &&& t == DEPOSIT_TX_TYPE ==> {
                &&& r is Ok <==> aux.len() >= 36 && tx.tx.outputs@.len() >= 2
                &&& aux.len() < 36 ==> r == Err::<ParsedTx, _>(
                    BridgeSubprotocolError::DepositTxParse(
                        DepositTxParseError::InvalidAuxiliaryData(aux.len() as usize),
                    ),
                )
                &&& aux.len() >= 36 && tx.tx.outputs@.len() < 2 ==> r == Err::<ParsedTx, _>(
                    BridgeSubprotocolError::DepositTxParse(DepositTxParseError::MissingDepositOutput),
                )
                &&& r matches Ok(p) ==> (p matches ParsedTx::Deposit(info) && parsed_deposit_matches(
                    *tx,
                    info,
                ))
            }
            &&& t == WITHDRAWAL_TX_TYPE ==> {
                &&& r matches Ok(p) ==> (p matches ParsedTx::WithdrawalFulfillment(info)
                    && parse_withdrawal.ensures((tx,), Ok(info)))
                &&& r matches Err(e) ==> (e matches BridgeSubprotocolError::WithdrawalTxParse(m)
                    && parse_withdrawal.ensures((tx,), Err(m)))
            }
            &&& t != DEPOSIT_TX_TYPE && t != WITHDRAWAL_TX_TYPE ==> r == Err::<ParsedTx, _>(
                BridgeSubprotocolError::UnsupportedTxType(t),
            )
        }),
{
    let tx_type = tx.tag().tx_type;
    if tx_type == DEPOSIT_TX_TYPE {
        match parse_deposit_tx(tx) {
            Ok(info) => Ok(ParsedTx::Deposit(info)),
            Err(e) => Err(BridgeSubprotocolError::DepositTxParse(e)),
        }
    } else if tx_type == WITHDRAWAL_TX_TYPE {
        match parse_withdrawal(tx) {
            Ok(info) => Ok(ParsedTx::WithdrawalFulfillment(info)),
            Err(m) => Err(BridgeSubprotocolError::WithdrawalTxParse(m)),
        }
    } else {
        Err(BridgeSubprotocolError::UnsupportedTxType(tx_type))
    }
}

} // verus!
