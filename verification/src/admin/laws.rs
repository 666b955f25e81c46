//! Laws of the administration subprotocol's update queue.

use vstd::prelude::*;

use crate::admin::actions::{
    role_index, spec_required_role, MultisigAction, Role, UpdateAction, UpdateId,
};
use crate::admin::handler::action_role;
use crate::admin::handler::action_applied;
use crate::admin::queued_update::QueuedUpdate;
use crate::admin::state::{
    first_queued, has_queued, pending_at, ready_at, AdministrationSubprotoState,
};

verus! {

/// The queued updates have pairwise distinct ids, all below `next_id`.
pub open spec fn queue_ids_fresh(q: Seq<QueuedUpdate>, next_id: UpdateId) -> bool {
    &&& forall|i: int| 0 <= i < q.len() ==> #[trigger] q[i].spec_id() < next_id
    &&& forall|i: int, j: int|
        0 <= i < q.len() && 0 <= j < q.len() && i != j ==> #[trigger] q[i].spec_id()
            != #[trigger] q[j].spec_id()
}

/// The state's queue has fresh ids ([`queue_ids_fresh`]).
pub open spec fn state_ids_fresh(s: AdministrationSubprotoState) -> bool {
    queue_ids_fresh(s.spec_queued(), s.spec_next_update_id())
}

/// An update enqueued under an id that no queued update has is found afterwards, and it
/// is the first with its id.
pub proof fn lemma_enqueued_update_is_found(q: Seq<QueuedUpdate>, u: QueuedUpdate)
    requires
        !has_queued(q, u.spec_id()),
    ensures
        has_queued(q.push(u), u.spec_id()),
        first_queued(q.push(u), u.spec_id(), q.len() as int),
        q.push(u)[q.len() as int] == u,
{
    let q2 = q.push(u);
    assert(q2[q.len() as int] == u);
    assert forall|j: int| 0 <= j < q.len() implies q2[j].spec_id() != u.spec_id() by {
        assert(q2[j] == q[j]);
        if q[j].spec_id() == u.spec_id() {
            assert(has_queued(q, u.spec_id()));
        }
    }
}

/// Removing the first update with id `id` (by swapping the last update into its place)
/// removes every update with that id when the ids are distinct, and keeps every other
/// update.
pub proof fn lemma_removed_update_is_gone(q: Seq<QueuedUpdate>, id: UpdateId, i: int)
    requires
        first_queued(q, id, i),
        forall|a: int, b: int|
            0 <= a < q.len() && 0 <= b < q.len() && a != b ==> #[trigger] q[a].spec_id()
                != #[trigger] q[b].spec_id(),
    ensures
        ({
            let q2 = q.update(i, q.last()).drop_last();
            &&& q2.len() == q.len() - 1
            &&& !has_queued(q2, id)
            &&& forall|other: UpdateId| other != id ==> (has_queued(q2, other) <==> has_queued(q, other))
        }),
{
    let n = q.len() as int;
    let q2 = q.update(i, q.last()).drop_last();
    assert forall|k: int| 0 <= k < q2.len() implies q2[k].spec_id() != id by {
        if k == i {
            assert(q2[k] == q[n - 1]);
            assert(n - 1 != i);
        } else {
            assert(q2[k] == q[k]);
        }
    }
    assert forall|other: UpdateId| other != id implies (has_queued(q2, other) <==> has_queued(
        q,
        other,
    )) by {
        if has_queued(q, other) {
            let k = choose|k: int| 0 <= k < q.len() && q[k].spec_id() == other;
            if k == n - 1 {
                if i < n - 1 {
                    assert(q2[i] == q[n - 1]);
                } else {
                    assert(q[k].spec_id() == id);
                }
            } else {
                assert(k != i);
                assert(q2[k] == q[k]);
            }
        }
        if has_queued(q2, other) {
            let k = choose|k: int| 0 <= k < q2.len() && q2[k].spec_id() == other;
            if k == i {
                assert(q[n - 1].spec_id() == other);
            } else {
                assert(q[k].spec_id() == other);
            }
        }
    }
}

/// Every queued update is either ready or pending at a height, never both: the ready
/// updates have activation height at most `h`, the pending ones above it, and together
/// they are as many as the queue.
pub proof fn lemma_ready_pending_partition(q: Seq<QueuedUpdate>, h: u64)
    ensures
        ready_at(q, h).len() + pending_at(q, h).len() == q.len(),
        forall|k: int| 0 <= k < ready_at(q, h).len() ==> #[trigger] ready_at(q, h)[k].spec_activation_height() <= h,
        forall|k: int| 0 <= k < pending_at(q, h).len() ==> #[trigger] pending_at(q, h)[k].spec_activation_height() > h,
    decreases q.len(),
{
    let pr = |u: QueuedUpdate| u.spec_activation_height() <= h;
    let pp = |u: QueuedUpdate| u.spec_activation_height() > h;
    q.filter_lemma(pr);
    q.filter_lemma(pp);
    if q.len() > 0 {
        let p = q.drop_last();
        lemma_ready_pending_partition(p, h);
        assert(q == p.push(q.last()));
        p.lemma_filter_push(q.last(), pr);
        p.lemma_filter_push(q.last(), pp);
    } else {
        assert(ready_at(q, h) =~= Seq::<QueuedUpdate>::empty());
        assert(pending_at(q, h) =~= Seq::<QueuedUpdate>::empty());
    }
}

/// Handling an approved action keeps the queued ids distinct and below the next update
/// id.
pub proof fn lemma_action_keeps_ids_fresh(
    s: AdministrationSubprotoState,
    s2: AdministrationSubprotoState,
    action: MultisigAction,
    current_height: u64,
    confirmation_depth: u16,
)
    requires
        state_ids_fresh(s),
        action_applied(s, s2, action, current_height, confirmation_depth),
    ensures
        state_ids_fresh(s2),
{
    let q = s.spec_queued();
    let q2 = s2.spec_queued();
    match action {
        MultisigAction::Update(u) => {
            if !(u is Sequencer) {
                assert forall|i: int| 0 <= i < q2.len() implies #[trigger] q2[i].spec_id()
                    < s2.spec_next_update_id() by {
                    if i < q.len() {
                        assert(q2[i] == q2.drop_last()[i]);
                    }
                }
                assert forall|i: int, j: int|
                    0 <= i < q2.len() && 0 <= j < q2.len() && i != j implies #[trigger] q2[i].spec_id()
                        != #[trigger] q2[j].spec_id() by {
                    if i < q.len() {
                        assert(q2[i] == q2.drop_last()[i]);
                    }
                    if j < q.len() {
                        assert(q2[j] == q2.drop_last()[j]);
                    }
                }
            }
        },
        MultisigAction::Cancel(c) => {
            let i = choose|i: int|
                first_queued(q, c.target_id, i) && q2 == q.update(i, q.last()).drop_last();
            let n = q.len() as int;
            assert forall|k: int| 0 <= k < q2.len() implies (k == i ==> q2[k] == q[n - 1]) && (k
                != i ==> q2[k] == q[k]) by {}
            assert forall|a: int| 0 <= a < q2.len() implies #[trigger] q2[a].spec_id()
                < s2.spec_next_update_id() by {
                if a == i {
                    assert(q2[a] == q[n - 1]);
                } else {
                    assert(q2[a] == q[a]);
                }
            }
            assert forall|a: int, b: int|
                0 <= a < q2.len() && 0 <= b < q2.len() && a != b implies #[trigger] q2[a].spec_id()
                    != #[trigger] q2[b].spec_id() by {
                let ia = if a == i { n - 1 } else { a };
                let ib = if b == i { n - 1 } else { b };
                assert(q2[a] == q[ia]);
                assert(q2[b] == q[ib]);
                assert(ia != ib);
            }
        },
    }
}

/// Enacting the ready updates keeps the remaining queued ids distinct and below the next
/// update id.
pub proof fn lemma_process_queued_keeps_ids_fresh(q: Seq<QueuedUpdate>, next_id: UpdateId, h: u64)
    requires
        queue_ids_fresh(q, next_id),
    ensures
        queue_ids_fresh(pending_at(q, h), next_id),
    decreases q.len(),
{
    let pp = |u: QueuedUpdate| u.spec_activation_height() > h;
    if q.len() > 0 {
        let p = q.drop_last();
        assert(queue_ids_fresh(p, next_id)) by {
            assert forall|i: int| 0 <= i < p.len() implies #[trigger] p[i].spec_id() < next_id by {
                assert(p[i] == q[i]);
            }
            assert forall|i: int, j: int|
                0 <= i < p.len() && 0 <= j < p.len() && i != j implies #[trigger] p[i].spec_id()
                    != #[trigger] p[j].spec_id() by {
                assert(p[i] == q[i]);
                assert(p[j] == q[j]);
            }
        }
        lemma_process_queued_keeps_ids_fresh(p, next_id, h);
        assert(q == p.push(q.last()));
        p.lemma_filter_push(q.last(), pp);
        let f = pending_at(p, h);
        if pp(q.last()) {
            let f2 = f.push(q.last());
            assert(pending_at(q, h) == f2);
            assert forall|i: int| 0 <= i < f.len() implies #[trigger] f[i].spec_id() != q.last().spec_id() by {
                assert(f.contains(f[i]));
                p.lemma_filter_contains_rev(pp, f[i]);
                let k = choose|k: int| 0 <= k < p.len() && p[k] == f[i];
                assert(p[k] == q[k]);
                assert(k != q.len() - 1);
            }
            assert forall|i: int| 0 <= i < f2.len() implies #[trigger] f2[i].spec_id() < next_id by {
                if i < f.len() {
                    assert(f2[i] == f[i]);
                }
            }
            assert forall|i: int, j: int|
                0 <= i < f2.len() && 0 <= j < f2.len() && i != j implies #[trigger] f2[i].spec_id()
                    != #[trigger] f2[j].spec_id() by {
                if i < f.len() {
                    assert(f2[i] == f[i]);
                }
                if j < f.len() {
                    assert(f2[j] == f[j]);
                }
            }
        }
    } else {
        assert(pending_at(q, h) =~= Seq::<QueuedUpdate>::empty());
    }
}

/// A queued update becomes ready exactly at its activation height: at a height at or
/// above it the update is among the ready updates, below it the update stays pending.
pub proof fn lemma_update_ready_from_activation(q: Seq<QueuedUpdate>, h: u64, k: int)
    requires
        0 <= k < q.len(),
    ensures
        q[k].spec_activation_height() <= h ==> ready_at(q, h).contains(q[k]),
        q[k].spec_activation_height() > h ==> pending_at(q, h).contains(q[k]),
        q[k].spec_activation_height() <= h ==> !pending_at(q, h).contains(q[k]),
        q[k].spec_activation_height() > h ==> !ready_at(q, h).contains(q[k]),
{
    let pr = |u: QueuedUpdate| u.spec_activation_height() <= h;
    let pp = |u: QueuedUpdate| u.spec_activation_height() > h;
    if q[k].spec_activation_height() <= h {
        q.lemma_filter_contains(pr, k);
        if pending_at(q, h).contains(q[k]) {
            let j = choose|j: int| 0 <= j < pending_at(q, h).len() && pending_at(q, h)[j] == q[k];
            q.lemma_filter_pred(pp, j);
        }
    } else {
        q.lemma_filter_contains(pp, k);
        if ready_at(q, h).contains(q[k]) {
            let j = choose|j: int| 0 <= j < ready_at(q, h).len() && ready_at(q, h)[j] == q[k];
            q.lemma_filter_pred(pr, j);
        }
    }
}

/// Sequencer key updates are approved by the sequencer manager's multisig, the
/// authority at position 1; every other kind of update by the administrator's multisig,
/// the authority at position 0. A cancellation is approved by the role that approves the
/// update it cancels.
pub proof fn lemma_approving_role_of_updates(s: AdministrationSubprotoState, u: UpdateAction)
    ensures
        u is Sequencer ==> spec_required_role(u) == Role::StrataSequencerManager && role_index(
            spec_required_role(u),
        ) == 1,
        !(u is Sequencer) ==> spec_required_role(u) == Role::StrataAdministrator && role_index(
            spec_required_role(u),
        ) == 0,
        u is Sequencer ==> action_role(s, MultisigAction::Update(u)) == Some(
            Role::StrataSequencerManager,
        ),
        !(u is Sequencer) ==> action_role(s, MultisigAction::Update(u)) == Some(
            Role::StrataAdministrator,
        ),
{
}

} // verus!
