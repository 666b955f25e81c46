//! The interfaces through which subprotocols relay messages to each other, emit logs and
//! request auxiliary inputs.

use vstd::prelude::*;

use crate::aux::AuxRequest;
use crate::bridge::msgs::BridgeIncomingMsg;
use crate::common::log::AsmLogEntry;
use crate::primitives::SubprotocolId;

verus! {

/// A message exchanged between subprotocols.
pub trait InterprotoMsg {
    /// The ID of the subprotocol the message is addressed to.
    fn id(&self) -> (r: SubprotocolId);
}

/// Message relayer through which subprotocols send messages to other subprotocols and
/// emit output logs.
///
/// `relayed` is the sequence of messages relayed so far, `logs` the sequence of the bytes
/// of the logs emitted so far.
pub trait MsgRelayer {
    spec fn relayed(&self) -> Seq<BridgeIncomingMsg>;

    spec fn logs(&self) -> Seq<Seq<u8>>;

    /// Relays a message to its destination subprotocol.
    fn relay_msg(&mut self, m: BridgeIncomingMsg)
        ensures
            final(self).relayed() == old(self).relayed().push(m),
            final(self).logs() == old(self).logs(),
    ;

    /// Emits an output log.
    fn emit_log(&mut self, log: AsmLogEntry)
        ensures
            final(self).logs() == old(self).logs().push(log@),
            final(self).relayed() == old(self).relayed(),
    ;
}

/// Records the requests for auxiliary input data made during pre-processing.
///
/// `requested` is the sequence of the request bytes recorded so far.
pub trait AuxInputCollector {
    spec fn requested(&self) -> Seq<Seq<u8>>;

    /// Records that this exact request will be needed later as auxiliary input.
    fn request_aux_input(&mut self, req: AuxRequest)
        ensures
            final(self).requested() == old(self).requested().push(req@),
    ;
}

} // verus!
