//! Debug subprotocol: processes special L1 transactions that inject mock logs and mock
//! withdrawal intents into the ASM, for testing.

use vstd::prelude::*;

use crate::bridge::assignment::WithdrawOutput;
use crate::bridge::msgs::BridgeIncomingMsg;
use crate::common::error::AsmError;
use crate::common::log::AsmLogEntry;
use crate::common::relay::MsgRelayer;

verus! {

/// A parsed debug transaction.
#[derive(Debug, Clone, PartialEq, Eq)]
pub enum ParsedDebugTx {
    /// The raw bytes of a log to emit.
    MockAsmLog(Vec<u8>),
    /// A withdrawal to dispatch to the bridge subprotocol.
    MockWithdrawIntent(WithdrawOutput),
}

/// The logs a batch of debug transactions emits, in order.
pub open spec fn debug_logs(txs: Seq<ParsedDebugTx>) -> Seq<Seq<u8>>
    decreases txs.len(),
{
    if txs.len() == 0 {
        Seq::empty()
    } else {
        let rest = debug_logs(txs.drop_last());
        match txs.last() {
            ParsedDebugTx::MockAsmLog(b) => rest.push(b@),
            ParsedDebugTx::MockWithdrawIntent(_) => rest,
        }
    }
}

/// The messages a batch of debug transactions relays to the bridge, in order.
pub open spec fn debug_msgs(txs: Seq<ParsedDebugTx>) -> Seq<BridgeIncomingMsg>
    decreases txs.len(),
{
    if txs.len() == 0 {
        Seq::empty()
    } else {
        let rest = debug_msgs(txs.drop_last());
        match txs.last() {
            ParsedDebugTx::MockAsmLog(_) => rest,
            ParsedDebugTx::MockWithdrawIntent(w) => rest.push(
                BridgeIncomingMsg::DispatchWithdrawal(w),
            ),
        }
    }
}

/// Processes a parsed debug transaction: a mock log is emitted as a log entry of its raw
/// bytes; a mock withdrawal intent is relayed to the bridge as a withdrawal to dispatch.
pub fn process_parsed_debug_tx<R: MsgRelayer>(parsed_tx: ParsedDebugTx, relayer: &mut R) -> (r:
    Result<(), AsmError>)
    ensures
        r is Ok,
        final(relayer).logs() == old(relayer).logs() + debug_logs(seq![parsed_tx]),
        final(relayer).relayed() == old(relayer).relayed() + debug_msgs(seq![parsed_tx]),
{
    proof {
        reveal_with_fuel(debug_logs, 2);
        reveal_with_fuel(debug_msgs, 2);
        assert(seq![parsed_tx].drop_last() =~= Seq::<ParsedDebugTx>::empty());
    }
    match parsed_tx {
        ParsedDebugTx::MockAsmLog(bytes) => {
            let ghost b = bytes@;
            let log_entry = AsmLogEntry::from_raw(bytes);
            relayer.emit_log(log_entry);
            assert(final(relayer).logs() =~= old(relayer).logs() + seq![b]);
            assert(final(relayer).relayed() =~= old(relayer).relayed() + Seq::empty());
        },
        ParsedDebugTx::MockWithdrawIntent(withdraw_output) => {
            let bridge_msg = BridgeIncomingMsg::DispatchWithdrawal(withdraw_output);
            relayer.relay_msg(bridge_msg);
            assert(final(relayer).relayed() =~= old(relayer).relayed() + seq![bridge_msg]);
            assert(final(relayer).logs() =~= old(relayer).logs() + Seq::empty());
        },
    }
    Ok(())
}

/// Debug subprotocol.
#[derive(Debug, Clone, Copy)]
pub struct DebugSubproto;

impl DebugSubproto {
    /// Processes a batch of parsed debug transactions in order.
    pub fn process_txs<R: MsgRelayer>(txs: Vec<ParsedDebugTx>, relayer: &mut R)
        ensures
            final(relayer).logs() == old(relayer).logs() + debug_logs(txs@),
            final(relayer).relayed() == old(relayer).relayed() + debug_msgs(txs@),
    {
        let ghost all = txs@;
        let mut i: usize = 0;
        let n = txs.len();
        let mut txs = txs;
        while i < n
            invariant
                n == all.len(),
                i <= n,
                txs@ == all.skip(i as int),
                relayer.logs() == old(relayer).logs() + debug_logs(all.take(i as int)),
                relayer.relayed() == old(relayer).relayed() + debug_msgs(all.take(i as int)),
            decreases n - i,
        {
            let tx = txs.remove(0);
            let ghost pre_logs = relayer.logs();
            let ghost pre_msgs = relayer.relayed();
            let _ = process_parsed_debug_tx(tx, relayer);
            proof {
                let t = all.take(i as int + 1);
                assert(t.drop_last() =~= all.take(i as int));
                assert(t.last() == tx);
                assert(txs@ =~= all.skip(i as int + 1));
                reveal_with_fuel(debug_logs, 2);
                reveal_with_fuel(debug_msgs, 2);
                assert(seq![tx].drop_last() =~= Seq::<ParsedDebugTx>::empty());
                assert(relayer.logs() =~= old(relayer).logs() + debug_logs(t));
                assert(relayer.relayed() =~= old(relayer).relayed() + debug_msgs(t));
            }
            i = i + 1;
        }
        assert(all.take(n as int) =~= all);
    }
}

/// Every debug transaction produces exactly one output: a log or a relayed message.
pub proof fn lemma_each_debug_tx_has_one_effect(txs: Seq<ParsedDebugTx>)
    ensures
        debug_logs(txs).len() + debug_msgs(txs).len() == txs.len(),
    decreases txs.len(),
{
    if txs.len() > 0 {
        lemma_each_debug_tx_has_one_effect(txs.drop_last());
    }
}

} // verus!
