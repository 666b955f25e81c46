//! Laws of the bridge's deposit table.

use vstd::prelude::*;

use crate::bridge::assignment::{has_assignment, kept_on_insert, AssignmentEntry};
use crate::bridge::deposit::{has_idx, strictly_sorted, DepositEntry};
use crate::bridge::errors::WithdrawalValidationError;
use crate::bridge::parse::DepositInfo;
use crate::bridge::state::{BridgeV1State, WithdrawalFulfillmentInfo};
use crate::btc::BitcoinTx;

verus! {

/// A deposit inserted into the table at any position that keeps it sorted is found
/// afterwards, and no other deposit index appears or disappears.
pub proof fn lemma_inserted_deposit_is_found(
    s: Seq<DepositEntry>,
    entry: DepositEntry,
    p: int,
)
    requires
        0 <= p <= s.len(),
        strictly_sorted(s.insert(p, entry)),
    ensures
        has_idx(s.insert(p, entry), entry.spec_idx()),
        s.insert(p, entry).len() == s.len() + 1,
        forall|idx: u32|
            idx != entry.spec_idx() ==> (has_idx(s.insert(p, entry), idx) <==> has_idx(s, idx)),
{
    let s2 = s.insert(p, entry);
    assert(s2[p] == entry);
    assert forall|idx: u32| idx != entry.spec_idx() implies (has_idx(s2, idx) <==> has_idx(s, idx)) by {
        if has_idx(s, idx) {
            let k = choose|k: int| 0 <= k < s.len() && s[k].spec_idx() == idx;
            if k < p {
                assert(s2[k] == s[k]);
            } else {
                assert(s2[k + 1] == s[k]);
            }
        }
        if has_idx(s2, idx) {
            let k = choose|k: int| 0 <= k < s2.len() && s2[k].spec_idx() == idx;
            if k < p {
                assert(s2[k] == s[k]);
            } else if k > p {
                assert(s2[k] == s[k - 1]);
            }
        }
    }
}

/// The oldest deposit of a sorted table has the smallest deposit index, and the table
/// without it is still sorted.
pub proof fn lemma_oldest_deposit_has_smallest_idx(s: Seq<DepositEntry>)
    requires
        strictly_sorted(s),
        s.len() > 0,
    ensures
        forall|i: int| 0 < i < s.len() ==> s[0].spec_idx() < #[trigger] s[i].spec_idx(),
        strictly_sorted(s.drop_first()),
{
    assert forall|i: int, j: int| 0 <= i < j < s.drop_first().len() implies s.drop_first()[i].spec_idx()
        < s.drop_first()[j].spec_idx() by {
        assert(s.drop_first()[i] == s[i + 1]);
        assert(s.drop_first()[j] == s[j + 1]);
    }
}

/// Adding an assignment for one deposit keeps the assignments of every other deposit.
pub proof fn lemma_insert_keeps_other_assignments(s: Seq<AssignmentEntry>, idx: u32, other: u32)
    requires
        has_assignment(s, other),
        other != idx,
    ensures
        has_assignment(kept_on_insert(s, idx), other),
{
    let j = choose|j: int| 0 <= j < s.len() && s[j].deposit_idx == other;
    if has_assignment(s, idx) {
        let c = choose|i: int| 0 <= i < s.len() && s[i].deposit_idx == idx;
        let t = s.remove(c);
        if j < c {
            assert(t[j] == s[j]);
        } else {
            assert(t[j - 1] == s[j]);
        }
    }
}

/// The checks of a withdrawal fulfillment accept it only when it pays exactly what the
/// assignment owes the user (the requested amount less the operator fee), and refuse any
/// other amount, below or above, with an amount mismatch against that owed amount.
pub proof fn lemma_fulfillment_pays_exactly_owed(
    s: BridgeV1State,
    info: WithdrawalFulfillmentInfo,
    r: Result<(), WithdrawalValidationError>,
)
    requires
        s.fulfillment_checked(info, r),
    ensures
        s.fulfillment_pays_owed(
            info,
            r is Ok,
            match r {
                Ok(_) => None,
                Err(e) => Some(e),
            },
        ),
{
}

/// A deposit passes validation only if its funds (output 1) are locked to the operators'
/// aggregated key by the key-spend-only P2TR script of that key.
pub proof fn lemma_valid_deposit_is_locked_to_operators(
    s: BridgeV1State,
    tx: BitcoinTx,
    info: DepositInfo,
)
    requires
        s.deposit_valid(tx, info),
        tx@.outputs.len() >= 2,
    ensures
        s.output_locked_to_operators(tx),
{
}

} // verus!
