//! The bridge subprotocol's handling of the messages it receives.

use vstd::prelude::*;

use crate::bridge::assignment::WithdrawOutput;
use crate::bridge::assignment::has_assignment;
use crate::bridge::deposit::{strictly_sorted, DepositEntry};
use crate::bridge::laws::lemma_insert_keeps_other_assignments;
use crate::bridge::errors::WithdrawalCommandError;
use crate::bridge::msgs::BridgeIncomingMsg;
use crate::bridge::state::{eligible_operators, same_operators, BridgeV1Config, BridgeV1State};
use crate::primitives::{Buf32, L1BlockCommitment, OperatorIdx};

verus! {

/// The withdrawal a message dispatches.
pub open spec fn dispatched(m: BridgeIncomingMsg) -> WithdrawOutput {
    match m {
        BridgeIncomingMsg::DispatchWithdrawal(w) => w,
    }
}

/// Whether deposit `d` can back the withdrawal `w`: same amount, and at least one of its
/// notary operators is in the current multisig `current`.
pub open spec fn deposit_serves(d: DepositEntry, w: WithdrawOutput, current: Seq<OperatorIdx>) -> bool {
    &&& d.spec_amt() == w.amt
    &&& eligible_operators(d.spec_notary_operators(), current).len() > 0
}

/// Whether the messages `msgs`, taken in order, can each be served by the deposits
/// `deposits` taken oldest first.
pub open spec fn msgs_servable(
    deposits: Seq<DepositEntry>,
    msgs: Seq<BridgeIncomingMsg>,
    current: Seq<OperatorIdx>,
) -> bool {
    &&& msgs.len() <= deposits.len()
    &&& forall|k: int| 0 <= k < msgs.len() ==> deposit_serves(#[trigger] deposits[k], dispatched(msgs[k]), current)
}

/// Bridge V1 subprotocol.
#[derive(Debug, Clone, Copy)]
pub struct BridgeV1Subproto;

impl BridgeV1Subproto {
    /// The initial state: empty tables under the configured operators and parameters.
    pub fn init(config: &BridgeV1Config) -> (r: BridgeV1State)
        ensures
            r.wf(),
            same_operators(r.spec_operators(), config.operators),
            r.spec_deposits()@.len() == 0,
            r.spec_assignments()@.len() == 0,
            r.spec_denomination() == config.denomination,
            r.spec_deadline_duration() == config.deadline_duration,
            r.spec_operator_fee() == config.operator_fee,
    {
        BridgeV1State::new(config)
    }

    /// Processes the messages received from other subprotocols, in order: each withdrawal
    /// to dispatch gets a withdrawal assignment
    /// ([`BridgeV1State::create_withdrawal_assignment`], at the placeholder L1 block of
    /// height 0 and a zero block id), which consumes the oldest unassigned deposit.
    ///
    /// A failed assignment breaks the bridge's honesty assumption and must abort the
    /// state transition: processing stops at the first failure and returns its error.
    /// Processing succeeds exactly when the messages can each be served by the deposits
    /// in order.
    pub fn process_msgs<F: Fn(&[OperatorIdx], &Buf32) -> usize>(
        state: &mut BridgeV1State,
        msgs: &[BridgeIncomingMsg],
        select: &F,
    ) -> (r: Result<(), WithdrawalCommandError>)
        requires
            old(state).wf(),
            forall|e: &[OperatorIdx], s: &Buf32| select.requires((e, s)),
        ensures
            final(state).wf(),
            old(state).same_config(&*final(state)),
            r is Ok <==> msgs_servable(
                old(state).spec_deposits()@,
                msgs@,
                old(state).spec_operators().spec_current_multisig(),
            ),
            r is Ok ==> final(state).spec_deposits()@ == old(state).spec_deposits()@.skip(
                msgs@.len() as int,
            ),
            r is Ok ==> forall|k: int|
                0 <= k < msgs@.len() ==> has_assignment(
                    final(state).spec_assignments()@,
                    #[trigger] old(state).spec_deposits()@[k].spec_idx(),
                ),
    {
        let ghost deps = state.spec_deposits()@;
        let ghost current = state.spec_operators().spec_current_multisig();
        let l1blk = L1BlockCommitment::new(0, [0u8; 32]);
        let mut i: usize = 0;
        while i < msgs.len()
            invariant
                i <= msgs@.len(),
                l1blk.height == 0,
                state.wf(),
                old(state).same_config(&*state),
                current == state.spec_operators().spec_current_multisig(),
                deps == old(state).spec_deposits()@,
                current == old(state).spec_operators().spec_current_multisig(),
                i <= deps.len(),
                state.spec_deposits()@ == deps.skip(i as int),
                forall|k: int| 0 <= k < i ==> deposit_serves(#[trigger] deps[k], dispatched(msgs@[k]), current),
                strictly_sorted(deps),
                forall|k: int|
                    0 <= k < i ==> has_assignment(state.spec_assignments()@, #[trigger] deps[k].spec_idx()),
                forall|e: &[OperatorIdx], s: &Buf32| select.requires((e, s)),
            decreases msgs@.len() - i,
        {
            let ghost pre = *state;
            match &msgs[i] {
                BridgeIncomingMsg::DispatchWithdrawal(withdrawal_output) => {
                    let res = state.create_withdrawal_assignment(withdrawal_output, &l1blk, select);
                    proof {
                        if deps.len() > i {
                            assert(pre.spec_deposits()@[0] == deps[i as int]);
                            assert(state.spec_deposits()@ =~= deps.skip(i as int + 1));
                        }
                    }
                    match res {
                        Ok(()) => {
                            proof {
                                let a2 = state.spec_assignments()@;
                                let a1 = pre.spec_assignments()@;
                                assert(a2[a2.len() - 1].deposit_idx == deps[i as int].spec_idx());
                                assert forall|k: int| 0 <= k < i + 1 implies has_assignment(
                                    a2,
                                    #[trigger] deps[k].spec_idx(),
                                ) by {
                                    if k < i {
                                        assert(deps[k].spec_idx() < deps[i as int].spec_idx());
                                        lemma_insert_keeps_other_assignments(
                                            a1,
                                            deps[i as int].spec_idx(),
                                            deps[k].spec_idx(),
                                        );
                                        let j = choose|j: int|
                                            0 <= j < a2.drop_last().len()
                                                && a2.drop_last()[j].deposit_idx == deps[k].spec_idx();
                                        assert(a2[j] == a2.drop_last()[j]);
                                    } else {
                                        assert(a2[a2.len() - 1].deposit_idx == deps[k].spec_idx());
                                    }
                                }
                            }
                        },
                        Err(e) => {
                            proof {
                                if deps.len() > i {
                                    assert(!deposit_serves(deps[i as int], dispatched(msgs@[i as int]), current));
                                }
                                assert(!msgs_servable(deps, msgs@, current));
                            }
                            return Err(e);
                        },
                    }
                },
            }
            i = i + 1;
        }
        Ok(())
    }
}

} // verus!
