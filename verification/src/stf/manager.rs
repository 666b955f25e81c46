//! Collects the messages, logs and auxiliary requests produced by the subprotocols
//! during one state transition.

use vstd::prelude::*;

use crate::aux::AuxRequest;
use crate::bridge::msgs::BridgeIncomingMsg;
use crate::common::log::AsmLogEntry;
use crate::common::relay::{AuxInputCollector, MsgRelayer};

verus! {

/// The bytes of each log of `logs`, in order.
pub open spec fn log_bytes(logs: Seq<AsmLogEntry>) -> Seq<Seq<u8>> {
    logs.map_values(|l: AsmLogEntry| l@)
}

/// The bytes of each request of `reqs`, in order.
pub open spec fn request_bytes(reqs: Seq<AuxRequest>) -> Seq<Seq<u8>> {
    reqs.map_values(|r: AuxRequest| r@)
}

/// Buffers the messages relayed to the bridge subprotocol, and accumulates the emitted
/// logs and the auxiliary input requests, each in the order they arrive.
#[derive(Debug)]
pub struct SubprotoManager {
    bridge_msgs: Vec<BridgeIncomingMsg>,
    logs: Vec<AsmLogEntry>,
    aux_requests: Vec<AuxRequest>,
}

impl SubprotoManager {
    pub closed spec fn spec_bridge_msgs(&self) -> Seq<BridgeIncomingMsg> {
        self.bridge_msgs@
    }

    pub closed spec fn spec_logs(&self) -> Seq<AsmLogEntry> {
        self.logs@
    }

    pub closed spec fn spec_aux_requests(&self) -> Seq<AuxRequest> {
        self.aux_requests@
    }

    /// A manager with nothing buffered.
    pub fn new() -> (r: Self)
        ensures
            r.spec_bridge_msgs().len() == 0,
            r.spec_logs().len() == 0,
            r.spec_aux_requests().len() == 0,
    {
        Self { bridge_msgs: Vec::new(), logs: Vec::new(), aux_requests: Vec::new() }
    }

    /// The messages relayed to the bridge subprotocol, in order.
    pub fn bridge_msgs(&self) -> (r: &[BridgeIncomingMsg])
        ensures
            r@ == self.spec_bridge_msgs(),
    {
        self.bridge_msgs.as_slice()
    }

    /// The logs emitted so far, in order.
    pub fn logs(&self) -> (r: &[AsmLogEntry])
        ensures
            r@ == self.spec_logs(),
    {
        self.logs.as_slice()
    }

    /// Consumes the manager and returns the emitted logs, in order.
    pub fn export_logs(self) -> (r: Vec<AsmLogEntry>)
        ensures
            r@ == self.spec_logs(),
    {
        self.logs
    }

    /// Consumes the manager and returns the auxiliary requests, in order.
    pub fn export_aux_requests(self) -> (r: Vec<AuxRequest>)
        ensures
            r@ == self.spec_aux_requests(),
    {
        self.aux_requests
    }
}

impl MsgRelayer for SubprotoManager {
    open spec fn relayed(&self) -> Seq<BridgeIncomingMsg> {
        self.spec_bridge_msgs()
    }

    open spec fn logs(&self) -> Seq<Seq<u8>> {
        log_bytes(self.spec_logs())
    }

    fn relay_msg(&mut self, m: BridgeIncomingMsg) {
        self.bridge_msgs.push(m);
    }

    fn emit_log(&mut self, log: AsmLogEntry) {
        self.logs.push(log);
        assert(log_bytes(self.logs@) =~= log_bytes(old(self).logs@).push(self.logs@.last()@));
    }
}

impl AuxInputCollector for SubprotoManager {
    open spec fn requested(&self) -> Seq<Seq<u8>> {
        request_bytes(self.spec_aux_requests())
    }

    fn request_aux_input(&mut self, req: AuxRequest) {
        self.aux_requests.push(req);
        assert(request_bytes(self.aux_requests@) =~= request_bytes(old(self).aux_requests@).push(
            self.aux_requests@.last()@,
        ));
    }
}

} // verus!
