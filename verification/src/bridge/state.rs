//! The bridge subprotocol's state and its transitions: recording deposits, assigning
//! withdrawals to operators, and accepting withdrawal fulfillments.

use vstd::prelude::*;

use crate::bridge::assignment::{
    assignment_for, has_assignment, kept_on_insert, AssignmentEntry, AssignmentTable, WithdrawOutput,
    WithdrawalCommand,
};
use crate::bridge::deposit::{has_idx, DepositEntry, DepositsTable};
use crate::bridge::errors::{
    DepositValidationError, Mismatch, WithdrawalCommandError, WithdrawalValidationError,
};
use crate::bridge::parse::DepositInfo;
use crate::bridge::validation::{
    deposit_output_locked, drt_sighash_computable, drt_spending_signature_ok,
    is_invalid_signature, tweak_failed_reason, validate_deposit_output_lock, validate_drt_spending_signature,
};
use crate::btc::{compute_txid, spec_tap_tweak, spec_tap_tweak_ok, spec_txid, BitcoinTx, XOnlyPk};
use crate::primitives::{buf32_eq, bytes_eq, Buf32, L1BlockCommitment, OperatorIdx};

verus! {

/// The bridge operators: the aggregated key of the current N/N multisig and the indices
/// of the operators that form it.
#[derive(Debug, Clone, PartialEq, Eq)]
pub struct OperatorTable {
    agg_key: XOnlyPk,
    current_multisig: Vec<OperatorIdx>,
}

impl OperatorTable {
    /// The aggregated key of the current multisig.
    pub closed spec fn spec_agg_key(&self) -> XOnlyPk {
        self.agg_key
    }

    /// The operators of the current multisig.
    pub closed spec fn spec_current_multisig(&self) -> Seq<OperatorIdx> {
        self.current_multisig@
    }

    pub fn new(agg_key: XOnlyPk, current_multisig: Vec<OperatorIdx>) -> (r: Self)
        ensures
            r.spec_agg_key() == agg_key,
            r.spec_current_multisig() == current_multisig@,
    {
        Self { agg_key, current_multisig }
    }

    /// The aggregated public key of the current multisig.
    pub fn agg_key(&self) -> (r: &XOnlyPk)
        ensures
            *r == self.spec_agg_key(),
    {
        &self.agg_key
    }

    /// The indices of the operators in the current multisig.
    pub fn current_multisig_indices(&self) -> (r: Vec<OperatorIdx>)
        ensures
            r@ == self.spec_current_multisig(),
    {
        let mut r: Vec<OperatorIdx> = Vec::new();
        let n = self.current_multisig.len();
        let mut i: usize = 0;
        while i < n
            invariant
                n == self.current_multisig@.len(),
                0 <= i <= n,
                r@ == self.current_multisig@.subrange(0, i as int),
            decreases n - i,
        {
            r.push(self.current_multisig[i]);
            i = i + 1;
            assert(r@ =~= self.current_multisig@.subrange(0, i as int));
        }
        assert(r@ =~= self.current_multisig@);
        r
    }
}

/// Configuration of the bridge.
#[derive(Debug, Clone, PartialEq, Eq)]
pub struct BridgeV1Config {
    /// The operators.
    pub operators: OperatorTable,
    /// The amount (in satoshis) expected to be locked in the N/N multisig per deposit.
    pub denomination: u64,
    /// The duration (in blocks) for assignment execution deadlines.
    pub deadline_duration: u64,
    /// Amount the operator can take as fees for processing a withdrawal.
    pub operator_fee: u64,
}

/// Information parsed from a withdrawal fulfillment transaction.
#[derive(Debug, Clone, PartialEq, Eq)]
pub struct WithdrawalFulfillmentInfo {
    /// The operator that performed the withdrawal.
    pub operator_idx: OperatorIdx,
    /// The deposit whose funds were used.
    pub deposit_idx: u32,
    /// The id of that deposit's transaction.
    pub deposit_txid: Buf32,
    /// The locking script the funds were sent to.
    pub withdrawal_destination: Vec<u8>,
    /// The amount sent, in satoshis.
    pub withdrawal_amount: u64,
}

/// What an accepted withdrawal fulfillment unlocks for the operator's claim.
#[derive(Debug, Clone, PartialEq, Eq)]
pub struct OperatorClaimUnlock {
    pub withdrawal_txid: Buf32,
    pub deposit_txid: Buf32,
    pub deposit_idx: u32,
    pub operator_idx: OperatorIdx,
}

/// Main state container for the Bridge V1 subprotocol.
#[derive(Debug, Clone, PartialEq, Eq)]
pub struct BridgeV1State {
    operators: OperatorTable,
    deposits: DepositsTable,
    assignments: AssignmentTable,
    denomination: u64,
    deadline_duration: u64,
    operator_fee: u64,
}

/// The operators of `notary` that are also in `current`, in the order of `notary`.
pub open spec fn eligible_operators(notary: Seq<OperatorIdx>, current: Seq<OperatorIdx>) -> Seq<
    OperatorIdx,
> {
    notary.filter(|o: OperatorIdx| current.contains(o))
}

/// `a` is the fresh assignment of deposit `d` to `assignee`, with command `cmd` and
/// execution deadline `exec_deadline`.
pub open spec fn is_new_assignment(
    a: AssignmentEntry,
    d: DepositEntry,
    cmd: WithdrawalCommand,
    exec_deadline: u64,
    assignee: OperatorIdx,
) -> bool {
    &&& a.deposit_idx == d.spec_idx()
    &&& a.deposit_txid == d.spec_output().txid
    &&& a.withdrawal_command.output.destination@ == cmd.output.destination@
    &&& a.withdrawal_command.output.amt == cmd.output.amt
    &&& a.withdrawal_command.operator_fee == cmd.operator_fee
    &&& a.current_assignee == assignee
    &&& a.previous_assignees@.len() == 0
    &&& a.exec_deadline == exec_deadline
}

/// Two operator tables with the same key and operators.
pub open spec fn same_operators(a: OperatorTable, b: OperatorTable) -> bool {
    a.spec_agg_key() == b.spec_agg_key() && a.spec_current_multisig() == b.spec_current_multisig()
}

impl BridgeV1State {
    pub closed spec fn spec_operators(&self) -> OperatorTable {
        self.operators
    }

    pub closed spec fn spec_deposits(&self) -> DepositsTable {
        self.deposits
    }

    pub closed spec fn spec_assignments(&self) -> AssignmentTable {
        self.assignments
    }

    pub closed spec fn spec_denomination(&self) -> u64 {
        self.denomination
    }

    pub closed spec fn spec_deadline_duration(&self) -> u64 {
        self.deadline_duration
    }

    pub closed spec fn spec_operator_fee(&self) -> u64 {
        self.operator_fee
    }

    /// The tables' invariants.
    pub open spec fn wf(&self) -> bool {
        self.spec_deposits().wf() && self.spec_assignments().wf()
    }

    /// Whether `other` differs from `self` in its tables only.
    pub open spec fn same_config(&self, other: &Self) -> bool {
        &&& same_operators(other.spec_operators(), self.spec_operators())
        &&& other.spec_denomination() == self.spec_denomination()
        &&& other.spec_deadline_duration() == self.spec_deadline_duration()
        &&& other.spec_operator_fee() == self.spec_operator_fee()
    }

    /// Creates a new bridge state with empty deposit and assignment tables.
    pub fn new(config: &BridgeV1Config) -> (r: Self)
        ensures
            r.wf(),
            same_operators(r.spec_operators(), config.operators),
            r.spec_deposits()@ == Seq::<DepositEntry>::empty(),
            r.spec_assignments()@ == Seq::<AssignmentEntry>::empty(),
            r.spec_denomination() == config.denomination,
            r.spec_deadline_duration() == config.deadline_duration,
            r.spec_operator_fee() == config.operator_fee,
    {
        Self {
            operators: OperatorTable::new(
                *config.operators.agg_key(),
                config.operators.current_multisig_indices(),
            ),
            deposits: DepositsTable::new_empty(),
            assignments: AssignmentTable::new_empty(),
            denomination: config.denomination,
            deadline_duration: config.deadline_duration,
            operator_fee: config.operator_fee,
        }
    }

    /// Returns a reference to the operator table.
    pub fn operators(&self) -> (r: &OperatorTable)
        ensures
            *r == self.spec_operators(),
    {
        &self.operators
    }

    /// Returns a reference to the deposits table.
    pub fn deposits(&self) -> (r: &DepositsTable)
        ensures
            *r == self.spec_deposits(),
    {
        &self.deposits
    }

    /// Returns a reference to the assignments table.
    pub fn assignments(&self) -> (r: &AssignmentTable)
        ensures
            *r == self.spec_assignments(),
    {
        &self.assignments
    }

    /// Returns the expected deposit amount.
    pub fn denomination(&self) -> (r: u64)
        ensures
            r == self.spec_denomination(),
    {
        self.denomination
    }

    /// Returns the deadline duration for assignment execution.
    pub fn deadline_duration(&self) -> (r: u64)
        ensures
            r == self.spec_deadline_duration(),
    {
        self.deadline_duration
    }

    /// Whether a deposit passes every check of [`BridgeV1State::validate_deposit`].
    pub open spec fn deposit_valid(&self, tx: BitcoinTx, info: DepositInfo) -> bool {
        let key = self.spec_operators().spec_agg_key()@;
        &&& info.amt == self.spec_denomination()
        &&& drt_spending_signature_ok(tx@, info.drt_tapscript_merkle_root@, key, info.amt)
        &&& deposit_output_locked(tx@, key)
        &&& !has_idx(self.spec_deposits()@, info.deposit_idx)
    }

    /// The errors of [`BridgeV1State::validate_deposit`], in the order of its checks: the
    /// first check that fails gives `r`'s error.
    pub open spec fn deposit_checked(
        &self,
        tx: BitcoinTx,
        info: DepositInfo,
        r: Result<(), DepositValidationError>,
    ) -> bool {
        let key = self.spec_operators().spec_agg_key()@;
        let sig_ok = drt_spending_signature_ok(tx@, info.drt_tapscript_merkle_root@, key, info.amt);
        &&& info.amt != self.spec_denomination() ==> r == Err::<(), _>(
            DepositValidationError::MismatchDepositAmount(
                Mismatch { expected: self.spec_denomination(), got: info.amt },
            ),
        )
        &&& info.amt == self.spec_denomination() && !sig_ok ==> (r is Err
            && r->Err_0 is InvalidSignature)
        &&& info.amt == self.spec_denomination() && sig_ok && !deposit_output_locked(tx@, key)
            ==> is_invalid_signature(
            r,
            if spec_tap_tweak_ok(key, None) {
                "Deposit output is not locked to the aggregated operator key"@
            } else {
                tweak_failed_reason()
            },
        )
        &&& info.amt == self.spec_denomination() && sig_ok && deposit_output_locked(tx@, key)
            && has_idx(self.spec_deposits()@, info.deposit_idx) ==> r == Err::<(), _>(
            DepositValidationError::DepositIdxAlreadyExists(info.deposit_idx),
        )
    }

    /// Output 1 of `tx` is locked to the aggregated operator key: its script is the
    /// key-spend-only P2TR script `OP_1 OP_PUSHBYTES_32 <key tweaked with no merkle root>`.
    pub open spec fn output_locked_to_operators(&self, tx: BitcoinTx) -> bool {
        let key = self.spec_operators().spec_agg_key()@;
        &&& tx@.outputs.len() >= 2
        &&& spec_tap_tweak_ok(key, None)
        &&& tx@.outputs[1].script_pubkey == seq![0x51u8, 0x20u8] + spec_tap_tweak(key, None)
    }

    /// The inputs on which the deposit checks are defined: the signature check needs its
    /// sighash to be computable, and the output lock check needs output 1; each is reached
    /// only when the checks before it pass.
    pub open spec fn deposit_checkable(&self, tx: BitcoinTx, info: DepositInfo) -> bool {
        let key = self.spec_operators().spec_agg_key()@;
        &&& info.amt == self.spec_denomination() ==> drt_sighash_computable(tx@)
        &&& info.amt == self.spec_denomination() && drt_spending_signature_ok(
            tx@,
            info.drt_tapscript_merkle_root@,
            key,
            info.amt,
        ) ==> tx@.outputs.len() >= 2
    }

    /// Validates a deposit transaction and info against the bridge state.
    ///
    /// Checks, in order: the amount equals the denomination
    /// ([`DepositValidationError::MismatchDepositAmount`]); the DRT spending signature
    /// verifies under the aggregated operator key and the deposit output is locked to that
    /// key ([`DepositValidationError::InvalidSignature`]); the deposit index is not in the
    /// table yet ([`DepositValidationError::DepositIdxAlreadyExists`]).
    pub fn validate_deposit(&self, tx: &BitcoinTx, info: &DepositInfo) -> (r: Result<
        (),
        DepositValidationError,
    >)
        requires
            self.wf(),
            self.deposit_checkable(*tx, *info),
        ensures
            self.deposit_checked(*tx, *info, r),
            r is Ok <==> self.deposit_valid(*tx, *info),
            r is Ok ==> self.output_locked_to_operators(*tx),
            info.amt == self.spec_denomination() && drt_spending_signature_ok(
                tx@,
                info.drt_tapscript_merkle_root@,
                self.spec_operators().spec_agg_key()@,
                info.amt,
            ) && !self.output_locked_to_operators(*tx) ==> r is Err && r->Err_0 is InvalidSignature,
    {
        if info.amt != self.denomination {
            return Err(
                DepositValidationError::MismatchDepositAmount(
                    Mismatch { expected: self.denomination, got: info.amt },
                ),
            );
        }
        validate_drt_spending_signature(
            tx,
            info.drt_tapscript_merkle_root,
            self.operators().agg_key(),
            info.amt,
        )?;
        validate_deposit_output_lock(tx, self.operators().agg_key())?;
        if self.deposits().get_deposit(info.deposit_idx).is_some() {
            return Err(DepositValidationError::DepositIdxAlreadyExists(info.deposit_idx));
        }
        Ok(())
    }

    /// Processes a deposit: validates it ([`BridgeV1State::validate_deposit`]) and records a
    /// deposit entry whose notary operators are the current multisig operators.
    ///
    /// Returns [`DepositValidationError::EmptyOperators`] if the current multisig is empty.
    /// On any error the state is unchanged.
    pub fn process_deposit_tx(&mut self, tx: &BitcoinTx, info: &DepositInfo) -> (r: Result<
        (),
        DepositValidationError,
    >)
        requires
            old(self).wf(),
            old(self).deposit_checkable(*tx, *info),
        ensures
            final(self).wf(),
            old(self).same_config(&*final(self)),
            final(self).spec_assignments() == old(self).spec_assignments(),
            old(self).deposit_checked(*tx, *info, r),
            r is Err ==> *final(self) == *old(self),
            r is Ok ==> old(self).output_locked_to_operators(*tx),
            info.amt == old(self).spec_denomination() && drt_spending_signature_ok(
                tx@,
                info.drt_tapscript_merkle_root@,
                old(self).spec_operators().spec_agg_key()@,
                info.amt,
            ) && !old(self).output_locked_to_operators(*tx) ==> r is Err && r->Err_0 is InvalidSignature,
            !old(self).deposit_valid(*tx, *info) ==> r is Err,
            old(self).deposit_valid(*tx, *info) && old(self).spec_operators().spec_current_multisig().len() == 0 ==> r == Err::<(), _>(
                DepositValidationError::EmptyOperators,
            ),
            r is Ok <==> (old(self).deposit_valid(*tx, *info) && old(self).spec_operators().spec_current_multisig().len() > 0),
            r is Err ==> final(self).spec_deposits() == old(self).spec_deposits(),
            r is Ok ==> exists|p: int, e: DepositEntry|
                0 <= p <= old(self).spec_deposits()@.len() && final(self).spec_deposits()@ == old(self).spec_deposits()@.insert(p, e) && e.spec_idx() == info.deposit_idx
                    && e.spec_output() == info.outpoint && e.spec_amt() == info.amt
                    && e.spec_notary_operators() == old(self).spec_operators().spec_current_multisig(),
    {
        match self.validate_deposit(tx, info) {
            Ok(()) => {},
            Err(e) => return Err(e),
        }
        let notary_operators = self.operators().current_multisig_indices();
        let entry = match DepositEntry::new(
            info.deposit_idx,
            info.outpoint,
            notary_operators,
            info.amt,
        ) {
            Ok(e) => e,
            Err(e) => return Err(e),
        };
        let ins = self.deposits.insert_deposit(entry);
        match ins {
            Ok(()) => Ok(()),
            Err(e) => Err(e),
        }
    }

    /// Creates a withdrawal assignment for a withdrawal output.
    ///
    /// Takes the oldest deposit out of the deposits table
    /// ([`WithdrawalCommandError::NoUnassignedDeposits`] if there is none). Its amount must
    /// equal the requested amount
    /// ([`WithdrawalCommandError::DepositWithdrawalAmountMismatch`]; the deposit stays out
    /// of the table). The assignee is chosen by `select` among the deposit's notary
    /// operators that are in the current multisig
    /// ([`WithdrawalCommandError::NoEligibleOperators`] if there are none), seeded with the
    /// L1 block id; the execution deadline is the block height plus the deadline duration.
    pub fn create_withdrawal_assignment<F: Fn(&[OperatorIdx], &Buf32) -> usize>(
        &mut self,
        withdrawal_output: &WithdrawOutput,
        l1_block: &L1BlockCommitment,
        select: &F,
    ) -> (r: Result<(), WithdrawalCommandError>)
        requires
            old(self).wf(),
            old(self).spec_deposits()@.len() > 0 ==> l1_block.height
                + old(self).spec_deadline_duration() <= u64::MAX,
            forall|e: &[OperatorIdx], s: &Buf32| select.requires((e, s)),
        ensures
            final(self).wf(),
            old(self).same_config(&*final(self)),
            old(self).spec_deposits()@.len() == 0 ==> r == Err::<(), _>(
                WithdrawalCommandError::NoUnassignedDeposits,
            ) && final(self).spec_deposits()@ == old(self).spec_deposits()@
                && final(self).spec_assignments() == old(self).spec_assignments(),
            old(self).spec_deposits()@.len() > 0 ==> {
                let d = old(self).spec_deposits()@[0];
                let eligible = eligible_operators(
                    d.spec_notary_operators(),
                    old(self).spec_operators().spec_current_multisig(),
                );
                let cmd = WithdrawalCommand {
                    output: *withdrawal_output,
                    operator_fee: old(self).spec_operator_fee(),
                };
                let deadline = (l1_block.height + old(self).spec_deadline_duration()) as u64;
                &&& final(self).spec_deposits()@ == old(self).spec_deposits()@.drop_first()
                &&& d.spec_amt() != withdrawal_output.amt ==> r == Err::<(), _>(
                    WithdrawalCommandError::DepositWithdrawalAmountMismatch(
                        Mismatch { expected: d.spec_amt(), got: withdrawal_output.amt },
                    ),
                )
                &&& d.spec_amt() == withdrawal_output.amt && eligible.len() == 0 ==> r == Err::<
                    (),
                    _,
                >(WithdrawalCommandError::NoEligibleOperators { deposit_idx: d.spec_idx() })
                &&& r is Err ==> final(self).spec_assignments() == old(self).spec_assignments()
                &&& r is Ok <==> d.spec_amt() == withdrawal_output.amt && eligible.len() > 0
                &&& r is Ok ==> exists|e: &[OperatorIdx], k: usize|
                    e@ == eligible && select.ensures((e, &l1_block.blkid), k) && is_new_assignment(
                        final(self).spec_assignments()@.last(),
                        d,
                        cmd,
                        deadline,
                        eligible[k as int % eligible.len() as int],
                    ) && final(self).spec_assignments()@.len() >= 1
                &&& r is Ok ==> final(self).spec_assignments()@.drop_last() == kept_on_insert(
                    old(self).spec_assignments()@,
                    d.spec_idx(),
                )
                &&& r is Ok && !has_assignment(old(self).spec_assignments()@, d.spec_idx())
                    ==> final(self).spec_assignments()@.len() == old(self).spec_assignments()@.len()
                    + 1
            },
    {
        let deposit = match self.deposits.remove_oldest_deposit() {
            Some(d) => d,
            None => return Err(WithdrawalCommandError::NoUnassignedDeposits),
        };
        let exec_deadline = l1_block.height + self.deadline_duration;
        if deposit.amt() != withdrawal_output.amt() {
            return Err(
                WithdrawalCommandError::DepositWithdrawalAmountMismatch(
                    Mismatch { expected: deposit.amt(), got: withdrawal_output.amt() },
                ),
            );
        }
        let current = self.operators.current_multisig_indices();
        let eligible = select_eligible(deposit.notary_operators(), current.as_slice());
        if eligible.len() == 0 {
            return Err(WithdrawalCommandError::NoEligibleOperators { deposit_idx: deposit.idx() });
        }
        let chosen = select(eligible.as_slice(), &l1_block.blkid);
        let k = if chosen < eligible.len() {
            chosen
        } else {
            chosen % eligible.len()
        };
        proof {
            if chosen < eligible.len() {
                vstd::arithmetic::div_mod::lemma_small_mod(chosen as nat, eligible@.len() as nat);
            }
        }
        assert(k as int == chosen as int % eligible@.len() as int);
        let output = WithdrawOutput::new(clone_bytes(&withdrawal_output.destination), withdrawal_output.amt);
        let cmd = WithdrawalCommand::new(output, self.operator_fee);
        let entry = AssignmentEntry {
            deposit_idx: deposit.idx(),
            deposit_txid: deposit.output().txid,
            withdrawal_command: cmd,
            current_assignee: eligible[k],
            previous_assignees: Vec::new(),
            exec_deadline,
        };
        self.assignments.insert(entry);
        Ok(())
    }

    /// Whether a withdrawal fulfillment passes every check of
    /// [`BridgeV1State::validate_withdrawal_fulfillment`].
    pub open spec fn fulfillment_valid(&self, info: WithdrawalFulfillmentInfo) -> bool {
        let s = self.spec_assignments()@;
        let a = assignment_for(s, info.deposit_idx);
        &&& has_assignment(s, info.deposit_idx)
        &&& a.current_assignee == info.operator_idx
        &&& a.deposit_txid@ == info.deposit_txid@
        &&& a.withdrawal_command.spec_net_amount() == info.withdrawal_amount
        &&& a.withdrawal_command.output.destination@ == info.withdrawal_destination@
    }

    /// What a fulfillment of `info` must satisfy, stated from the assignment's fields alone:
    /// it is accepted only if an assignment exists for the deposit and the amount paid is the
    /// requested amount less the operator fee (zero if the fee exceeds it); once the assignee
    /// and the deposit txid match, any other amount, below or above, is an
    /// [`WithdrawalValidationError::AmountMismatch`] against that owed amount.
    pub open spec fn fulfillment_pays_owed(
        &self,
        info: WithdrawalFulfillmentInfo,
        ok: bool,
        err: Option<WithdrawalValidationError>,
    ) -> bool {
        let asg = self.spec_assignments()@;
        let a = assignment_for(asg, info.deposit_idx);
        let amt = a.withdrawal_command.output.amt;
        let fee = a.withdrawal_command.operator_fee;
        let owed: int = if amt >= fee {
            amt - fee
        } else {
            0
        };
        &&& ok ==> has_assignment(asg, info.deposit_idx) && info.withdrawal_amount as int == owed
        &&& has_assignment(asg, info.deposit_idx) && a.current_assignee == info.operator_idx
            && a.deposit_txid@ == info.deposit_txid@ && info.withdrawal_amount as int != owed ==> !ok
            && err == Some(
            WithdrawalValidationError::AmountMismatch(
                Mismatch { expected: owed as u64, got: info.withdrawal_amount },
            ),
        )
    }

    /// The outcome of the checks of [`BridgeV1State::validate_withdrawal_fulfillment`]: the
    /// first failing check gives the error, and the result is `Ok` when all pass.
    pub open spec fn fulfillment_checked(
        &self,
        withdrawal_info: WithdrawalFulfillmentInfo,
        r: Result<(), WithdrawalValidationError>,
    ) -> bool {
                let s = self.spec_assignments()@;
                let info = withdrawal_info;
                let a = assignment_for(s, info.deposit_idx);
                &&& !has_assignment(s, info.deposit_idx) ==> r == Err::<(), _>(
                    WithdrawalValidationError::NoAssignmentFound { deposit_idx: info.deposit_idx },
                )
                &&& has_assignment(s, info.deposit_idx) && a.current_assignee != info.operator_idx
                    ==> r == Err::<(), _>(
                    WithdrawalValidationError::OperatorMismatch(
                        Mismatch { expected: a.current_assignee, got: info.operator_idx },
                    ),
                )
                &&& has_assignment(s, info.deposit_idx) && a.current_assignee == info.operator_idx
                    && a.deposit_txid@ != info.deposit_txid@ ==> r == Err::<(), _>(
                    WithdrawalValidationError::DepositTxidMismatch(
                        Mismatch { expected: a.deposit_txid, got: info.deposit_txid },
                    ),
                )
                &&& has_assignment(s, info.deposit_idx) && a.current_assignee == info.operator_idx
                    && a.deposit_txid@ == info.deposit_txid@
                    && a.withdrawal_command.spec_net_amount() != info.withdrawal_amount ==> r
                    == Err::<(), _>(
                    WithdrawalValidationError::AmountMismatch(
                        Mismatch {
                            expected: a.withdrawal_command.spec_net_amount(),
                            got: info.withdrawal_amount,
                        },
                    ),
                )
                &&& has_assignment(s, info.deposit_idx) && a.current_assignee == info.operator_idx
                    && a.deposit_txid@ == info.deposit_txid@
                    && a.withdrawal_command.spec_net_amount() == info.withdrawal_amount
                    && a.withdrawal_command.output.destination@ != info.withdrawal_destination@
                    ==> (r matches Err(WithdrawalValidationError::DestinationMismatch(m)) && m.expected@
                    == a.withdrawal_command.output.destination@ && m.got@
                    == info.withdrawal_destination@)
                &&& r is Ok <==> self.fulfillment_valid(info)
            }

    /// Validates parsed withdrawal fulfillment information against the assignment of its
    /// deposit.
    ///
    /// Checks, in order: an assignment exists for the deposit
    /// ([`WithdrawalValidationError::NoAssignmentFound`]); the operator is the current
    /// assignee ([`WithdrawalValidationError::OperatorMismatch`]); the deposit txid matches
    /// ([`WithdrawalValidationError::DepositTxidMismatch`]); the amount is the command's net
    /// amount ([`WithdrawalValidationError::AmountMismatch`]); the destination is the
    /// command's destination ([`WithdrawalValidationError::DestinationMismatch`]).
    pub fn validate_withdrawal_fulfillment(&self, withdrawal_info: &WithdrawalFulfillmentInfo) -> (r:
        Result<(), WithdrawalValidationError>)
        requires
            self.wf(),
        ensures
            self.fulfillment_checked(*withdrawal_info, r),
            self.fulfillment_pays_owed(
                *withdrawal_info,
                r is Ok,
                match r {
                    Ok(_) => None,
                    Err(e) => Some(e),
                },
            ),
    {
        let deposit_idx = withdrawal_info.deposit_idx;
        let assignment = match self.assignments.get_assignment(deposit_idx) {
            Some(a) => a,
            None => return Err(WithdrawalValidationError::NoAssignmentFound { deposit_idx }),
        };
        proof {
            let s = self.spec_assignments()@;
            let i = choose|i: int| 0 <= i < s.len() && s[i] == *assignment;
            let j = choose|j: int| 0 <= j < s.len() && s[j].deposit_idx == deposit_idx;
            assert(i == j);
        }
        let expected_operator = assignment.current_assignee();
        let actual_operator = withdrawal_info.operator_idx;
        if expected_operator != actual_operator {
            return Err(
                WithdrawalValidationError::OperatorMismatch(
                    Mismatch { expected: expected_operator, got: actual_operator },
                ),
            );
        }
        let expected_txid = assignment.deposit_txid();
        let actual_txid = withdrawal_info.deposit_txid;
        if !buf32_eq(&expected_txid, &actual_txid) {
            return Err(
                WithdrawalValidationError::DepositTxidMismatch(
                    Mismatch { expected: expected_txid, got: actual_txid },
                ),
            );
        }
        let expected_amount = assignment.withdrawal_command().net_amount();
        let actual_amount = withdrawal_info.withdrawal_amount;
        if expected_amount != actual_amount {
            return Err(
                WithdrawalValidationError::AmountMismatch(
                    Mismatch { expected: expected_amount, got: actual_amount },
                ),
            );
        }
        let expected_destination = assignment.withdrawal_command().destination();
        let actual_destination = &withdrawal_info.withdrawal_destination;
        if !bytes_eq(expected_destination.as_slice(), actual_destination.as_slice()) {
            return Err(
                WithdrawalValidationError::DestinationMismatch(
                    Mismatch {
                        expected: clone_bytes(expected_destination),
                        got: clone_bytes(actual_destination),
                    },
                ),
            );
        }
        Ok(())
    }

    /// Processes a withdrawal fulfillment transaction: validates it
    /// ([`BridgeV1State::validate_withdrawal_fulfillment`]) and removes the assignment of its
    /// deposit, returning what the fulfillment unlocks for the operator. On error the state
    /// is unchanged.
    pub fn process_withdrawal_fulfillment_tx(
        &mut self,
        tx: &BitcoinTx,
        withdrawal_info: &WithdrawalFulfillmentInfo,
    ) -> (r: Result<OperatorClaimUnlock, WithdrawalValidationError>)
        requires
            old(self).wf(),
        ensures
            final(self).wf(),
            old(self).same_config(&*final(self)),
            final(self).spec_deposits() == old(self).spec_deposits(),
            r is Ok <==> old(self).fulfillment_valid(*withdrawal_info),
            r is Err ==> *final(self) == *old(self),
            r matches Ok(claim) ==> {
                let s = old(self).spec_assignments()@;
                let a = assignment_for(s, withdrawal_info.deposit_idx);
                &&& claim.withdrawal_txid@ == spec_txid(tx@)
                &&& claim.deposit_txid == a.deposit_txid
                &&& claim.deposit_idx == withdrawal_info.deposit_idx
                &&& claim.operator_idx == withdrawal_info.operator_idx
                &&& exists|i: int|
                    0 <= i < s.len() && s[i] == a && final(self).spec_assignments()@ == s.remove(i)
                &&& !has_assignment(final(self).spec_assignments()@, withdrawal_info.deposit_idx)
            },
            r matches Err(e) ==> old(self).fulfillment_checked(*withdrawal_info, Err(e)),
            old(self).fulfillment_pays_owed(
                *withdrawal_info,
                r is Ok,
                match r {
                    Ok(_) => None,
                    Err(e) => Some(e),
                },
            ),
    {
        self.validate_withdrawal_fulfillment(withdrawal_info)?;
        let ghost s = self.assignments@;
        let removed = self.assignments.remove_assignment(withdrawal_info.deposit_idx);
        let removed = match removed {
            Some(a) => a,
            None => {
                assert(false);
                return Err(
                    WithdrawalValidationError::NoAssignmentFound {
                        deposit_idx: withdrawal_info.deposit_idx,
                    },
                );
            },
        };
        proof {
            let i = choose|i: int|
                0 <= i < s.len() && s[i] == removed && self.assignments@ == s.remove(i);
            let j = choose|j: int| 0 <= j < s.len() && s[j].deposit_idx == withdrawal_info.deposit_idx;
            assert(i == j);
        }
        Ok(
            OperatorClaimUnlock {
                withdrawal_txid: compute_txid(tx),
                deposit_txid: removed.deposit_txid(),
                deposit_idx: removed.deposit_idx(),
                operator_idx: withdrawal_info.operator_idx,
            },
        )
    }
}

/// Copies a byte vector.
fn clone_bytes(v: &Vec<u8>) -> (r: Vec<u8>)
    ensures
        r@ == v@,
{
    vstd::slice::slice_to_vec(v.as_slice())
}

/// The operators of `notary` that are in `current`, in the order of `notary`.
fn select_eligible(notary: &[OperatorIdx], current: &[OperatorIdx]) -> (r: Vec<OperatorIdx>)
    ensures
        r@ == eligible_operators(notary@, current@),
{
    let mut r: Vec<OperatorIdx> = Vec::new();
    let n = notary.len();
    let mut i: usize = 0;
    while i < n
        invariant
            n == notary@.len(),
            0 <= i <= n,
            r@ == eligible_operators(notary@.subrange(0, i as int), current@),
        decreases n - i,
    {
        let o = notary[i];
        let mut found = false;
        let m = current.len();
        let mut j: usize = 0;
        while j < m
            invariant
                m == current@.len(),
                0 <= j <= m,
                found <==> exists|k: int| 0 <= k < j && current@[k] == o,
            decreases m - j,
        {
            if current[j] == o {
                found = true;
            }
            j = j + 1;
        }
        assert(found <==> current@.contains(o));
        proof {
            let pred = |x: OperatorIdx| current@.contains(x);
            let s = notary@.subrange(0, i as int);
            assert(notary@.subrange(0, i + 1) == s.push(o));
            s.lemma_filter_push(o, pred);
            assert(eligible_operators(s.push(o), current@) == if current@.contains(o) {
                eligible_operators(s, current@).push(o)
            } else {
                eligible_operators(s, current@)
            });
        }
        if found {
            r.push(o);
        }
        i = i + 1;
    }
    assert(notary@.subrange(0, n as int) =~= notary@);
    r
}

} // verus!
