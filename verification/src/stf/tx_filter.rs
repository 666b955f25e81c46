//! Grouping of the tagged transactions of a block by the subprotocol they target.

use std::collections::BTreeMap;

use vstd::prelude::*;

use crate::btc::{BitcoinTx, TagData, TxInputRef};
use crate::primitives::SubprotocolId;

verus! {

broadcast use {vstd::std_specs::btree::group_btree_axioms, vstd::laws_cmp::group_laws_cmp};

/// The transactions of `candidates` tagged for subprotocol `id`, with their tags, in
/// order. A candidate without a tag (its header did not parse) belongs to no group.
pub open spec fn txs_for(candidates: Seq<(BitcoinTx, Option<TagData>)>, id: SubprotocolId) -> Seq<
    TxInputRef,
>
    decreases candidates.len(),
{
    if candidates.len() == 0 {
        Seq::empty()
    } else {
        let rest = txs_for(candidates.drop_last(), id);
        let (tx, tag) = candidates.last();
        match tag {
            Some(t) => if t.subproto_id == id {
                rest.push(TxInputRef { tx, tag: t })
            } else {
                rest
            },
            None => rest,
        }
    }
}

/// Whether candidate `c` is tagged for subprotocol `id`.
pub open spec fn targets(c: (BitcoinTx, Option<TagData>), id: SubprotocolId) -> bool {
    match c.1 {
        Some(t) => t.subproto_id == id,
        None => false,
    }
}

/// The number of candidates of `candidates` tagged for subprotocol `id`.
pub open spec fn num_targeting(candidates: Seq<(BitcoinTx, Option<TagData>)>, id: SubprotocolId) -> nat
    decreases candidates.len(),
{
    if candidates.len() == 0 {
        0
    } else {
        num_targeting(candidates.drop_last(), id) + if targets(candidates.last(), id) {
            1nat
        } else {
            0nat
        }
    }
}

/// Every transaction tagged for a subprotocol reaches that subprotocol's group, with its
/// tag, and in order: the group has one transaction per candidate tagged for the
/// subprotocol, and the `n`-th candidate tagged for it (counting from 0) is at position `n`.
pub proof fn lemma_group_holds_every_tagged_tx_in_order(
    candidates: Seq<(BitcoinTx, Option<TagData>)>,
    id: SubprotocolId,
)
    ensures
        txs_for(candidates, id).len() == num_targeting(candidates, id),
        forall|k: int|
            0 <= k < candidates.len() && #[trigger] targets(candidates[k], id) ==> num_targeting(
                candidates.take(k),
                id,
            ) < txs_for(candidates, id).len() && txs_for(candidates, id)[num_targeting(
                candidates.take(k),
                id,
            ) as int] == (TxInputRef { tx: candidates[k].0, tag: candidates[k].1->Some_0 }),
    decreases candidates.len(),
{
    if candidates.len() > 0 {
        let p = candidates.drop_last();
        lemma_group_holds_every_tagged_tx_in_order(p, id);
        let n = candidates.len() - 1;
        assert forall|k: int|
            0 <= k < candidates.len() && #[trigger] targets(candidates[k], id) implies num_targeting(
                candidates.take(k),
                id,
            ) < txs_for(candidates, id).len() && txs_for(candidates, id)[num_targeting(
                candidates.take(k),
                id,
            ) as int] == (TxInputRef { tx: candidates[k].0, tag: candidates[k].1->Some_0 }) by {
            if k < n {
                assert(candidates.take(k) =~= p.take(k));
                assert(candidates[k] == p[k]);
                assert(targets(p[k], id));
            } else {
                assert(candidates.take(k) =~= p);
            }
        }
    }
}

/// Groups the tagged transactions by the subprotocol their tag targets, keeping their
/// order; untagged transactions are filtered out. A subprotocol has a group exactly when
/// at least one transaction targets it.
///
/// Each candidate comes with the result of parsing its SPS-50 header (`None` when the
/// magic bytes, the `OP_RETURN` in output 0 or the payload length are wrong).
pub fn group_txs_by_subprotocol(candidates: Vec<(BitcoinTx, Option<TagData>)>) -> (r: BTreeMap<
    SubprotocolId,
    Vec<TxInputRef>,
>)
    ensures
        forall|id: SubprotocolId| #[trigger]
            r@.contains_key(id) <==> txs_for(candidates@, id).len() > 0,
        forall|id: SubprotocolId|
            r@.contains_key(id) ==> (#[trigger] r@[id])@ == txs_for(candidates@, id),
        forall|id: SubprotocolId| #[trigger]
            r@.contains_key(id) <==> num_targeting(candidates@, id) > 0,
        forall|k: int|
            0 <= k < candidates@.len() && (#[trigger] candidates@[k]).1 is Some ==> ({
                let id = candidates@[k].1->Some_0.subproto_id;
                &&& r@.contains_key(id)
                &&& r@[id]@.len() == num_targeting(candidates@, id)
                &&& r@[id]@[num_targeting(candidates@.take(k), id) as int] == (TxInputRef {
                    tx: candidates@[k].0,
                    tag: candidates@[k].1->Some_0,
                })
            }),
{
    let ghost all = candidates@;
    let mut map: BTreeMap<SubprotocolId, Vec<TxInputRef>> = BTreeMap::new();
    let mut rest = candidates;
    let n = rest.len();
    let mut i: usize = 0;
    while i < n
        invariant
            n == all.len(),
            i <= n,
            rest@ == all.skip(i as int),
            forall|id: SubprotocolId| #[trigger]
                map@.contains_key(id) <==> txs_for(all.take(i as int), id).len() > 0,
            forall|id: SubprotocolId|
                map@.contains_key(id) ==> (#[trigger] map@[id])@ == txs_for(all.take(i as int), id),
        decreases n - i,
    {
        let ghost pre = map@;
        let (tx, tag) = rest.remove(0);
        proof {
            let t = all.take(i as int + 1);
            assert(t.drop_last() =~= all.take(i as int));
            assert(t.last() == (tx, tag));
            assert(rest@ =~= all.skip(i as int + 1));
        }
        match tag {
            Some(tag) => {
                let id = tag.subproto_id;
                let mut group = match map.remove(&id) {
                    Some(v) => v,
                    None => Vec::new(),
                };
                let ghost g0 = group@;
                group.push(TxInputRef::new(tx, tag));
                map.insert(id, group);
                proof {
                    let t = all.take(i as int + 1);
                    assert(g0 == txs_for(all.take(i as int), id));
                    assert forall|k: SubprotocolId| #[trigger] map@.contains_key(k) <==> txs_for(
                        t,
                        k,
                    ).len() > 0 by {
                        if k != id {
                            assert(map@.contains_key(k) == pre.contains_key(k));
                        }
                    }
                    assert forall|k: SubprotocolId| map@.contains_key(k) implies (#[trigger] map@[k])@
                        == txs_for(t, k) by {
                        if k != id {
                            assert(map@[k] == pre[k]);
                        }
                    }
                }
            },
            None => {
                proof {
                    let t = all.take(i as int + 1);
                    assert forall|k: SubprotocolId| #[trigger] map@.contains_key(k) <==> txs_for(
                        t,
                        k,
                    ).len() > 0 by {}
                    assert forall|k: SubprotocolId| map@.contains_key(k) implies (#[trigger] map@[k])@
                        == txs_for(t, k) by {}
                }
            },
        }
        i = i + 1;
    }
    proof {
        assert(all.take(n as int) =~= all);
        assert forall|id: SubprotocolId| #[trigger]
            map@.contains_key(id) <==> num_targeting(all, id) > 0 by {
            lemma_group_holds_every_tagged_tx_in_order(all, id);
        }
        assert forall|k: int| 0 <= k < all.len() && (#[trigger] all[k]).1 is Some implies ({
            let id = all[k].1->Some_0.subproto_id;
            &&& map@.contains_key(id)
            &&& map@[id]@.len() == num_targeting(all, id)
            &&& map@[id]@[num_targeting(all.take(k), id) as int] == (TxInputRef {
                tx: all[k].0,
                tag: all[k].1->Some_0,
            })
        }) by {
            let id = all[k].1->Some_0.subproto_id;
            lemma_group_holds_every_tagged_tx_in_order(all, id);
            assert(targets(all[k], id));
        }
    }
    map
}

/// Every transaction of a subprotocol's group is tagged for that subprotocol, and the
/// group holds no more transactions than the block.
pub proof fn lemma_group_members_target_their_subprotocol(
    candidates: Seq<(BitcoinTx, Option<TagData>)>,
    id: SubprotocolId,
)
    ensures
        forall|k: int|
            0 <= k < txs_for(candidates, id).len() ==> (#[trigger] txs_for(candidates, id)[k]).tag.subproto_id
                == id,
        txs_for(candidates, id).len() <= candidates.len(),
    decreases candidates.len(),
{
    if candidates.len() > 0 {
        lemma_group_members_target_their_subprotocol(candidates.drop_last(), id);
    }
}

} // verus!
