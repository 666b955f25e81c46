//! Bitcoin deposit management.
//!
//! Deposits represent Bitcoin UTXOs locked to N/N multisig addresses where N are the
//! notary operators. The historical operator set that controlled each deposit is kept
//! since the operator set may change over time.

use vstd::prelude::*;

use crate::bridge::errors::DepositValidationError;
use crate::primitives::{OperatorIdx, OutputRef};

verus! {

/// Bitcoin deposit entry containing UTXO reference and historical multisig operators.
///
/// - **`deposit_idx`** - Unique identifier assigned by the bridge for this deposit
/// - **`output`** - Bitcoin UTXO reference (transaction hash + output index)
/// - **`notary_operators`** - The N operators that make up the N/N multisig
/// - **`amt`** - Amount of Bitcoin locked in this deposit (in satoshis)
#[derive(Debug, Clone, PartialEq, Eq)]
pub struct DepositEntry {
    deposit_idx: u32,
    output: OutputRef,
    notary_operators: Vec<OperatorIdx>,
    amt: u64,
}

impl DepositEntry {
    /// The deposit index.
    pub closed spec fn spec_idx(&self) -> u32 {
        self.deposit_idx
    }

    /// The deposit UTXO.
    pub closed spec fn spec_output(&self) -> OutputRef {
        self.output
    }

    /// The notary operators.
    pub closed spec fn spec_notary_operators(&self) -> Seq<OperatorIdx> {
        self.notary_operators@
    }

    /// The deposited amount in satoshis.
    pub closed spec fn spec_amt(&self) -> u64 {
        self.amt
    }

    /// Creates a new deposit entry.
    ///
    /// Returns [`DepositValidationError::EmptyOperators`] if the operators list is empty:
    /// each deposit must have at least one notary operator.
    pub fn new(idx: u32, output: OutputRef, operators: Vec<OperatorIdx>, amt: u64) -> (r: Result<
        Self,
        DepositValidationError,
    >)
        ensures
            operators@.len() == 0 <==> r == Err::<Self, _>(DepositValidationError::EmptyOperators),
            r is Ok <==> operators@.len() > 0,
            r matches Ok(e) ==> {
                &&& e.spec_idx() == idx
                &&& e.spec_output() == output
                &&& e.spec_notary_operators() == operators@
                &&& e.spec_amt() == amt
            },
    {
        if operators.len() == 0 {
            return Err(DepositValidationError::EmptyOperators);
        }
        Ok(Self { deposit_idx: idx, output, notary_operators: operators, amt })
    }

    /// Returns the unique deposit identifier.
    pub fn idx(&self) -> (r: u32)
        ensures
            r == self.spec_idx(),
    {
        self.deposit_idx
    }

    /// Returns a reference to the Bitcoin UTXO being tracked.
    pub fn output(&self) -> (r: &OutputRef)
        ensures
            *r == self.spec_output(),
    {
        &self.output
    }

    /// Returns the historical set of operators that formed the N/N multisig.
    pub fn notary_operators(&self) -> (r: &[OperatorIdx])
        ensures
            r@ == self.spec_notary_operators(),
    {
        self.notary_operators.as_slice()
    }

    /// Returns the amount of Bitcoin locked in this deposit.
    pub fn amt(&self) -> (r: u64)
        ensures
            r == self.spec_amt(),
    {
        self.amt
    }
}

/// The entries of `s` have strictly increasing deposit indices.
pub open spec fn strictly_sorted(s: Seq<DepositEntry>) -> bool {
    forall|i: int, j: int| 0 <= i < j < s.len() ==> s[i].spec_idx() < s[j].spec_idx()
}

/// Some entry of `s` has deposit index `idx`.
pub open spec fn has_idx(s: Seq<DepositEntry>, idx: u32) -> bool {
    exists|i: int| 0 <= i < s.len() && s[i].spec_idx() == idx
}

/// Table of Bitcoin deposits, kept sorted by deposit index.
///
/// # Ordering Invariant
///
/// The deposits are strictly increasing by deposit index ([`DepositsTable::wf`]);
/// lookups use binary search.
#[derive(Debug, Clone, PartialEq, Eq)]
pub struct DepositsTable {
    deposits: Vec<DepositEntry>,
}

impl View for DepositsTable {
    type V = Seq<DepositEntry>;

    closed spec fn view(&self) -> Seq<DepositEntry> {
        self.deposits@
    }
}

impl DepositsTable {
    /// The table's ordering invariant.
    pub open spec fn wf(&self) -> bool {
        strictly_sorted(self@)
    }

    /// Creates a new empty deposits table.
    pub fn new_empty() -> (r: Self)
        ensures
            r@ == Seq::<DepositEntry>::empty(),
            r.wf(),
    {
        Self { deposits: Vec::new() }
    }

    /// Returns the number of deposits being tracked, as a `u32`.
    pub fn len(&self) -> (r: u32)
        ensures
            r == self@.len() as u32,
    {
        self.deposits.len() as u32
    }

    /// Returns whether the deposits table is empty (its `u32` length is zero).
    pub fn is_empty(&self) -> (r: bool)
        ensures
            r == (self@.len() as u32 == 0),
    {
        self.len() == 0
    }

    /// Retrieves a deposit entry by its index using binary search.
    pub fn get_deposit(&self, deposit_idx: u32) -> (r: Option<&DepositEntry>)
        requires
            self.wf(),
        ensures
            r is None <==> !has_idx(self@, deposit_idx),
            r matches Some(e) ==> exists|i: int|
                0 <= i < self@.len() && self@[i] == *e && e.spec_idx() == deposit_idx,
    {
        let n = self.deposits.len();
        let mut lo: usize = 0;
        let mut hi: usize = n;
        while lo < hi
            invariant
                n == self@.len(),
                self.wf(),
                0 <= lo <= hi <= n,
                forall|i: int| 0 <= i < lo ==> self@[i].spec_idx() < deposit_idx,
                forall|i: int| hi <= i < n ==> self@[i].spec_idx() > deposit_idx,
            decreases hi - lo,
        {
            let mid = lo + (hi - lo) / 2;
            let cur = self.deposits[mid].idx();
            if cur < deposit_idx {
                lo = mid + 1;
            } else if cur > deposit_idx {
                hi = mid;
            } else {
                return Some(&self.deposits[mid]);
            }
        }
        None
    }

    /// Returns all deposit entries, in increasing order of deposit index.
    pub fn deposits(&self) -> (r: &[DepositEntry])
        ensures
            r@ == self@,
    {
        self.deposits.as_slice()
    }

    /// Position at which an entry with index `idx` belongs (number of entries below it).
    fn lower_bound(&self, idx: u32) -> (r: usize)
        requires
            self.wf(),
        ensures
            r <= self@.len(),
            forall|i: int| 0 <= i < r ==> self@[i].spec_idx() < idx,
            forall|i: int| r <= i < self@.len() ==> self@[i].spec_idx() >= idx,
    {
        let n = self.deposits.len();
        let mut lo: usize = 0;
        let mut hi: usize = n;
        while lo < hi
            invariant
                n == self@.len(),
                self.wf(),
                0 <= lo <= hi <= n,
                forall|i: int| 0 <= i < lo ==> self@[i].spec_idx() < idx,
                forall|i: int| hi <= i < n ==> self@[i].spec_idx() >= idx,
            decreases hi - lo,
        {
            let mid = lo + (hi - lo) / 2;
            if self.deposits[mid].idx() < idx {
                lo = mid + 1;
            } else {
                hi = mid;
            }
        }
        lo
    }

    /// Inserts a deposit entry into the table at the position that keeps it sorted.
    ///
    /// Returns [`DepositValidationError::DepositIdxAlreadyExists`] (and leaves the table
    /// unchanged) if a deposit with the same index already exists.
    pub fn insert_deposit(&mut self, entry: DepositEntry) -> (r: Result<(), DepositValidationError>)
        requires
            old(self).wf(),
        ensures
            final(self).wf(),
            has_idx(old(self)@, entry.spec_idx()) <==> r == Err::<(), _>(
                DepositValidationError::DepositIdxAlreadyExists(entry.spec_idx()),
            ),
            r is Err ==> *final(self) == *old(self),
            r is Ok <==> !has_idx(old(self)@, entry.spec_idx()),
            r is Ok ==> exists|p: int|
                0 <= p <= old(self)@.len() && final(self)@ == old(self)@.insert(p, entry),
    {
        let idx = entry.idx();
        if self.get_deposit(idx).is_some() {
            return Err(DepositValidationError::DepositIdxAlreadyExists(idx));
        }
        let pos = self.lower_bound(idx);
        proof {
            assert forall|i: int| pos <= i < self@.len() implies self@[i].spec_idx() > idx by {
                assert(self@[i].spec_idx() >= idx);
                if self@[i].spec_idx() == idx {
                    assert(has_idx(self@, idx));
                }
            }
        }
        let ghost pre = self@;
        self.deposits.insert(pos, entry);
        proof {
            let s = self@;
            assert(s == pre.insert(pos as int, entry));
            assert forall|i: int, j: int| 0 <= i < j < s.len() implies s[i].spec_idx()
                < s[j].spec_idx() by {
                if j < pos {
                } else if j == pos {
                    assert(s[i] == pre[i]);
                } else if i < pos {
                    assert(s[j] == pre[j - 1]);
                } else if i == pos {
                    assert(s[j] == pre[j - 1]);
                } else {
                    assert(s[i] == pre[i - 1]);
                    assert(s[j] == pre[j - 1]);
                }
            }
        }
        Ok(())
    }

    /// Removes and returns the oldest deposit (the one with the smallest index).
    pub fn remove_oldest_deposit(&mut self) -> (r: Option<DepositEntry>)
        requires
            old(self).wf(),
        ensures
            final(self).wf(),
            old(self)@.len() == 0 <==> r is None,
            r is None ==> final(self)@ == old(self)@,
            r matches Some(e) ==> e == old(self)@[0] && final(self)@ == old(self)@.drop_first(),
    {
        if self.deposits.len() == 0 {
            None
        } else {
            let oldest = self.deposits.remove(0);
            Some(oldest)
        }
    }
}

} // verus!
