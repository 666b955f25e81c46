//! Identifiers and layout constants of the bridge subprotocol.

use vstd::prelude::*;

use crate::primitives::{SubprotocolId, TxType};

verus! {

/// The unique identifier for the Bridge V1 subprotocol within the Anchor State Machine.
pub const BRIDGE_V1_SUBPROTOCOL_ID: SubprotocolId = 2;

/// Transaction type of deposit transactions.
pub const DEPOSIT_TX_TYPE: TxType = 1;

/// Transaction type of withdrawal fulfillment transactions.
pub const WITHDRAWAL_TX_TYPE: TxType = 2;

/// Index of the deposit output in a deposit transaction.
pub const DEPOSIT_OUTPUT_INDEX: u32 = 1;

} // verus!
