//! Withdrawal assignments: which operator must fulfill the withdrawal backed by a
//! deposit, with which command, and by when.

use vstd::prelude::*;

use crate::primitives::{Buf32, OperatorIdx};

verus! {

/// Specification of a withdrawal output: where the funds go (as a locking script) and
/// how much is requested.
#[derive(Debug, Clone, PartialEq, Eq)]
pub struct WithdrawOutput {
    /// Locking script of the destination.
    pub destination: Vec<u8>,
    /// Requested amount in satoshis.
    pub amt: u64,
}

impl WithdrawOutput {
    pub fn new(destination: Vec<u8>, amt: u64) -> (r: Self)
        ensures
            r.destination@ == destination@,
            r.amt == amt,
    {
        Self { destination, amt }
    }

    /// The requested amount.
    pub fn amt(&self) -> (r: u64)
        ensures
            r == self.amt,
    {
        self.amt
    }
}

/// A withdrawal command: the output to pay and the fee the operator keeps.
#[derive(Debug, Clone, PartialEq, Eq)]
pub struct WithdrawalCommand {
    pub output: WithdrawOutput,
    pub operator_fee: u64,
}

impl WithdrawalCommand {
    pub fn new(output: WithdrawOutput, operator_fee: u64) -> (r: Self)
        ensures
            r.output == output,
            r.operator_fee == operator_fee,
    {
        Self { output, operator_fee }
    }

    /// The amount the user receives: the requested amount less the operator fee
    /// (zero if the fee exceeds it).
    pub open spec fn spec_net_amount(&self) -> u64 {
        if self.output.amt >= self.operator_fee {
            (self.output.amt - self.operator_fee) as u64
        } else {
            0
        }
    }

    /// The amount the user receives.
    pub fn net_amount(&self) -> (r: u64)
        ensures
            r == self.spec_net_amount(),
    {
        self.output.amt.saturating_sub(self.operator_fee)
    }

    /// The destination's locking script.
    pub fn destination(&self) -> (r: &Vec<u8>)
        ensures
            r@ == self.output.destination@,
    {
        &self.output.destination
    }
}

/// An assignment of the withdrawal backed by a deposit to an operator.
#[derive(Debug, Clone, PartialEq, Eq)]
pub struct AssignmentEntry {
    pub deposit_idx: u32,
    pub deposit_txid: Buf32,
    pub withdrawal_command: WithdrawalCommand,
    pub current_assignee: OperatorIdx,
    pub previous_assignees: Vec<OperatorIdx>,
    pub exec_deadline: u64,
}

impl AssignmentEntry {
    pub fn deposit_idx(&self) -> (r: u32)
        ensures
            r == self.deposit_idx,
    {
        self.deposit_idx
    }

    pub fn deposit_txid(&self) -> (r: Buf32)
        ensures
            r == self.deposit_txid,
    {
        self.deposit_txid
    }

    pub fn current_assignee(&self) -> (r: OperatorIdx)
        ensures
            r == self.current_assignee,
    {
        self.current_assignee
    }

    pub fn withdrawal_command(&self) -> (r: &WithdrawalCommand)
        ensures
            *r == self.withdrawal_command,
    {
        &self.withdrawal_command
    }

    pub fn exec_deadline(&self) -> (r: u64)
        ensures
            r == self.exec_deadline,
    {
        self.exec_deadline
    }
}

/// No two entries of `s` are for the same deposit.
pub open spec fn unique_deposits(s: Seq<AssignmentEntry>) -> bool {
    forall|i: int, j: int|
        0 <= i < s.len() && 0 <= j < s.len() && i != j ==> s[i].deposit_idx != s[j].deposit_idx
}

/// Some entry of `s` is for deposit `idx`.
pub open spec fn has_assignment(s: Seq<AssignmentEntry>, idx: u32) -> bool {
    exists|i: int| 0 <= i < s.len() && s[i].deposit_idx == idx
}

/// The entry of `s` for deposit `idx` (meaningful when there is one).
pub open spec fn assignment_for(s: Seq<AssignmentEntry>, idx: u32) -> AssignmentEntry {
    s[choose|i: int| 0 <= i < s.len() && s[i].deposit_idx == idx]
}

/// The assignments of `s` that remain when an assignment for deposit `idx` is added: all
/// of them, except the one already held for `idx` (if any).
pub open spec fn kept_on_insert(s: Seq<AssignmentEntry>, idx: u32) -> Seq<AssignmentEntry> {
    if has_assignment(s, idx) {
        s.remove(choose|i: int| 0 <= i < s.len() && s[i].deposit_idx == idx)
    } else {
        s
    }
}

/// Table of withdrawal assignments, at most one per deposit.
#[derive(Debug, Clone, PartialEq, Eq)]
pub struct AssignmentTable {
    assignments: Vec<AssignmentEntry>,
}

impl View for AssignmentTable {
    type V = Seq<AssignmentEntry>;

    closed spec fn view(&self) -> Seq<AssignmentEntry> {
        self.assignments@
    }
}

impl AssignmentTable {
    /// The table holds at most one assignment per deposit.
    pub open spec fn wf(&self) -> bool {
        unique_deposits(self@)
    }

    /// Creates a new empty table.
    pub fn new_empty() -> (r: Self)
        ensures
            r@ == Seq::<AssignmentEntry>::empty(),
            r.wf(),
    {
        Self { assignments: Vec::new() }
    }

    /// The number of assignments, as a `u32`.
    pub fn len(&self) -> (r: u32)
        ensures
            r == self@.len() as u32,
    {
        self.assignments.len() as u32
    }

    /// Whether the table has no assignment.
    pub fn is_empty(&self) -> (r: bool)
        ensures
            r == (self@.len() == 0),
    {
        self.assignments.len() == 0
    }

    /// All assignments, in the order they were made.
    pub fn assignments(&self) -> (r: &[AssignmentEntry])
        ensures
            r@ == self@,
    {
        self.assignments.as_slice()
    }

    /// Position of the assignment for a deposit.
    fn find(&self, deposit_idx: u32) -> (r: Option<usize>)
        requires
            self.wf(),
        ensures
            r is None <==> !has_assignment(self@, deposit_idx),
            r matches Some(i) ==> i < self@.len() && self@[i as int].deposit_idx == deposit_idx,
    {
        let n = self.assignments.len();
        let mut i: usize = 0;
        while i < n
            invariant
                n == self@.len(),
                0 <= i <= n,
                forall|k: int| 0 <= k < i ==> self@[k].deposit_idx != deposit_idx,
            decreases n - i,
        {
            if self.assignments[i].deposit_idx == deposit_idx {
                return Some(i);
            }
            i = i + 1;
        }
        None
    }

    /// The assignment for a deposit, if any.
    pub fn get_assignment(&self, deposit_idx: u32) -> (r: Option<&AssignmentEntry>)
        requires
            self.wf(),
        ensures
            r is None <==> !has_assignment(self@, deposit_idx),
            r matches Some(e) ==> e.deposit_idx == deposit_idx && exists|i: int|
                0 <= i < self@.len() && self@[i] == *e,
    {
        match self.find(deposit_idx) {
            Some(i) => Some(&self.assignments[i]),
            None => None,
        }
    }

    /// Removes and returns the assignment for a deposit, if any; the other assignments keep
    /// their order.
    pub fn remove_assignment(&mut self, deposit_idx: u32) -> (r: Option<AssignmentEntry>)
        requires
            old(self).wf(),
        ensures
            final(self).wf(),
            r is None <==> !has_assignment(old(self)@, deposit_idx),
            r is None ==> final(self)@ == old(self)@,
            r matches Some(e) ==> e.deposit_idx == deposit_idx && exists|i: int|
                0 <= i < old(self)@.len() && old(self)@[i] == e && final(self)@ == old(self)@.remove(i),
            !has_assignment(final(self)@, deposit_idx),
    {
        match self.find(deposit_idx) {
            Some(i) => {
                let ghost pre = self@;
                let e = self.assignments.remove(i);
                proof {
                    assert forall|a: int, b: int|
                        0 <= a < self@.len() && 0 <= b < self@.len() && a != b implies self@[a].deposit_idx
                        != self@[b].deposit_idx by {
                        let a2 = if a < i { a } else { a + 1 };
                        let b2 = if b < i { b } else { b + 1 };
                        assert(self@[a] == pre[a2]);
                        assert(self@[b] == pre[b2]);
                    }
                    assert forall|k: int| 0 <= k < self@.len() implies self@[k].deposit_idx
                        != deposit_idx by {
                        let k2 = if k < i { k } else { k + 1 };
                        assert(self@[k] == pre[k2]);
                    }
                }
                Some(e)
            },
            None => None,
        }
    }

    /// Adds an assignment. An assignment already held for the same deposit is replaced.
    pub fn insert(&mut self, entry: AssignmentEntry)
        requires
            old(self).wf(),
        ensures
            final(self).wf(),
            has_assignment(final(self)@, entry.deposit_idx),
            final(self)@.last() == entry,
            final(self)@.drop_last() == kept_on_insert(old(self)@, entry.deposit_idx),
    {
        let ghost pre = self@;
        let removed = self.remove_assignment(entry.deposit_idx);
        proof {
            if has_assignment(pre, entry.deposit_idx) {
                let i = choose|i: int| 0 <= i < pre.len() && pre[i].deposit_idx == entry.deposit_idx;
                let j = choose|j: int| 0 <= j < pre.len() && pre[j] == removed->0 && self@ == pre.remove(j);
                assert(pre[j].deposit_idx == entry.deposit_idx);
                assert(i == j);
            }
        }
        let ghost mid = self@;
        self.assignments.push(entry);
        proof {
            assert(self@.drop_last() =~= mid);
            assert(self@[self@.len() - 1] == entry);
        }
    }
}

} // verus!
