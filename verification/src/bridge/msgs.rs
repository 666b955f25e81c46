//! Messages the bridge subprotocol receives from other subprotocols.

use vstd::prelude::*;

use crate::bridge::assignment::WithdrawOutput;
use crate::bridge::constants::BRIDGE_V1_SUBPROTOCOL_ID;
use crate::common::relay::InterprotoMsg;
use crate::primitives::SubprotocolId;

verus! {

/// Incoming message types received from other subprotocols.
///
/// All subprotocols are assumed to cooperate, so the bridge acts on an incoming message
/// without verifying its source.
#[derive(Debug, Clone, PartialEq, Eq)]
pub enum BridgeIncomingMsg {
    /// Emitted after a checkpoint proof has been validated: the withdrawal to dispatch,
    /// its destination and the requested amount (the user receives this less the
    /// operator fee). The bridge answers it by assigning an unassigned deposit to an
    /// operator.
    DispatchWithdrawal(WithdrawOutput),
}

impl InterprotoMsg for BridgeIncomingMsg {
    fn id(&self) -> (r: SubprotocolId)
        ensures
            r == BRIDGE_V1_SUBPROTOCOL_ID,
    {
        BRIDGE_V1_SUBPROTOCOL_ID
    }
}

} // verus!
