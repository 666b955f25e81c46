//! Handling of multisig actions and enactment of queued updates.

use vstd::prelude::*;

use crate::admin::actions::{
    role_index, spec_required_role, MultisigAction, MultisigConfig, MultisigConfigUpdate, Role,
    UpdateAction,
};
use crate::admin::authority::MultisigAuthority;
use crate::admin::error::{AdministrationError, MultisigConfigError, VoteValidationError};
use crate::admin::queued_update::QueuedUpdate;
use crate::admin::state::{
    first_queued, has_queued, pending_at, ready_at, AdministrationSubprotoParams,
    AdministrationSubprotoState,
};

verus! {

/// The role whose authority must approve `action` in `state`: the required role of an
/// update; for a cancellation, the required role of the first queued update it targets
/// (`None` if no queued update has that id).
pub open spec fn action_role(state: AdministrationSubprotoState, action: MultisigAction) -> Option<
    Role,
> {
    match action {
        MultisigAction::Update(u) => Some(spec_required_role(u)),
        MultisigAction::Cancel(c) => {
            let q = state.spec_queued();
            if has_queued(q, c.target_id) {
                let i = choose|i: int| first_queued(q, c.target_id, i);
                Some(spec_required_role(q[i].spec_action()))
            } else {
                None
            }
        },
    }
}

/// `new` is `old` with the sequence number of the authority at position `i` incremented.
pub open spec fn seqno_incremented(
    old: Seq<MultisigAuthority>,
    new: Seq<MultisigAuthority>,
    i: int,
) -> bool {
    &&& new.len() == old.len()
    &&& 0 <= i < old.len()
    &&& forall|j: int| 0 <= j < old.len() && j != i ==> #[trigger] new[j] == old[j]
    &&& new[i].spec_seqno() == old[i].spec_seqno() + 1
    &&& new[i].spec_role() == old[i].spec_role()
    &&& new[i].spec_config() == old[i].spec_config()
}

/// The effect of an approved action on the queue and the update id counter: an update
/// other than a sequencer update is queued with the next update id, to be enacted
/// `confirmation_depth` blocks after `current_height`; every update consumes an id; a
/// cancellation removes the first queued update with its target id (by swapping the last
/// queued update into its place).
pub open spec fn action_applied(
    old: AdministrationSubprotoState,
    new: AdministrationSubprotoState,
    action: MultisigAction,
    current_height: u64,
    confirmation_depth: u16,
) -> bool {
    let q = old.spec_queued();
    let q2 = new.spec_queued();
    match action {
        MultisigAction::Update(u) => {
            &&& new.spec_next_update_id() == old.spec_next_update_id() + 1
            &&& if u is Sequencer {
                q2 == q
            } else {
                &&& q2.len() == q.len() + 1
                &&& q2.drop_last() == q
                &&& q2.last().spec_id() == old.spec_next_update_id()
                &&& q2.last().spec_action() == u
                &&& q2.last().spec_activation_height() == current_height + confirmation_depth
            }
        },
        MultisigAction::Cancel(c) => {
            &&& new.spec_next_update_id() == old.spec_next_update_id()
            &&& exists|i: int|
                first_queued(q, c.target_id, i) && q2 == q.update(i, q.last()).drop_last()
        },
    }
}

/// The machine limits that the handling arithmetic must stay within: the update id counter
/// (for an update), the activation height (for a queued update) and the sequence number of
/// the approving authority.
pub open spec fn action_within_limits(
    state: AdministrationSubprotoState,
    action: MultisigAction,
    current_height: u64,
    confirmation_depth: u16,
) -> bool {
    &&& action is Update ==> state.spec_next_update_id() < u32::MAX
    &&& (action matches MultisigAction::Update(u) && !(u is Sequencer)) ==> current_height
        + confirmation_depth <= u64::MAX
    &&& action_role(state, action) matches Some(role) ==> (role_index(role)
        < state.spec_authorities().len() ==> state.spec_authorities()[role_index(
        role,
    )].spec_seqno() < u64::MAX)
}

/// Processes a multisig action.
///
/// The approving role is the update's required role, or for a cancellation the required
/// role of the queued update it targets ([`AdministrationError::UnknownAction`] if no queued
/// update has that id). Its authority ([`AdministrationError::UnknownRole`] if there is none)
/// and the action are handed to `validate`, which checks the aggregated vote
/// ([`AdministrationError::Vote`] with its error if it refuses). Then an update is queued
/// (a sequencer update is not) and consumes an update id, or a cancellation removes its
/// target from the queue; finally the authority's sequence number is incremented. On any
/// error nothing changes.
pub fn handle_action<V>(
    state: &mut AdministrationSubprotoState,
    action: MultisigAction,
    validate: &V,
    current_height: u64,
    params: &AdministrationSubprotoParams,
) -> (r: Result<(), AdministrationError>) where
    V: Fn(&MultisigAuthority, &MultisigAction) -> Result<(), VoteValidationError>,

    requires
        forall|a: &MultisigAuthority, m: &MultisigAction| validate.requires((a, m)),
        action_within_limits(*old(state), action, current_height, params.confirmation_depth),
    ensures
        r is Ok && (action matches MultisigAction::Update(u) && u is Sequencer) ==> seqno_incremented(
            old(state).spec_authorities(),
            final(state).spec_authorities(),
            1,
        ),
        r is Ok && (action matches MultisigAction::Update(u) && !(u is Sequencer))
            ==> seqno_incremented(old(state).spec_authorities(), final(state).spec_authorities(), 0),
        ({
            let s = *old(state);
            let s2 = *final(state);
            &&& r is Err ==> s2 == s
            &&& action_role(s, action) is None ==> r == Err::<(), _>(
                AdministrationError::UnknownAction(action->Cancel_0.target_id),
            )
            &&& action_role(s, action) matches Some(role) ==> {
                let i = role_index(role);
                let a = s.spec_authorities()[i];
                &&& i >= s.spec_authorities().len() ==> r == Err::<(), _>(
                    AdministrationError::UnknownRole,
                )
                &&& i < s.spec_authorities().len() ==> {
                    &&& r matches Err(AdministrationError::Vote(e)) ==> validate.ensures(
                        (&a, &action),
                        Err(e),
                    )
                    &&& r matches Err(e) ==> e is Vote
                    &&& r is Ok ==> exists|v: Result<(), VoteValidationError>|
                        v is Ok && validate.ensures((&a, &action), v)
                    &&& r is Ok ==> seqno_incremented(
                        s.spec_authorities(),
                        s2.spec_authorities(),
                        i,
                    )
                    &&& r is Ok ==> action_applied(
                        s,
                        s2,
                        action,
                        current_height,
                        params.confirmation_depth,
                    )
                }
            }
        }),
{
    let ghost s0 = *state;
    let role = match &action {
        MultisigAction::Update(update) => update.required_role(),
        MultisigAction::Cancel(cancel) => {
            let target_action_id = cancel.target_id();
            match state.find_queued(target_action_id) {
                Some(queued) => {
                    proof {
                        let q = s0.spec_queued();
                        let i = choose|i: int| first_queued(q, cancel.target_id, i) && q[i] == *queued;
                        let j = choose|j: int| first_queued(q, cancel.target_id, j);
                        assert(i == j);
                    }
                    queued.action().required_role()
                },
                None => return Err(AdministrationError::UnknownAction(*target_action_id)),
            }
        },
    };
    let authority = match state.authority(role) {
        Some(a) => a,
        None => return Err(AdministrationError::UnknownRole),
    };
    let verdict = validate(authority, &action);
    proof {
        assert(*authority == s0.spec_authorities()[role_index(role)]);
        assert(validate.ensures((authority, &action), verdict));
        assert(action_role(s0, action) == Some(role));
    }
    if let Err(e) = verdict {
        return Err(AdministrationError::Vote(e));
    }
    proof {
        let a = s0.spec_authorities()[role_index(role)];
        assert(validate.ensures((&a, &action), verdict));
    }
    match action {
        MultisigAction::Update(update) => {
            let id = state.next_update_id();
            match update {
                UpdateAction::Sequencer(_) => {},
                action => {
                    let activation_height = current_height + params.confirmation_depth as u64;
                    let queued_update = QueuedUpdate::new(id, action, activation_height);
                    state.enqueue(queued_update);
                    assert(state.spec_queued().drop_last() =~= s0.spec_queued());
                },
            }
            state.increment_next_update_id();
        },
        MultisigAction::Cancel(cancel) => {
            state.remove_queued(cancel.target_id());
        },
    }
    let res = state.increment_authority_seqno(role);
    assert(res is Ok);
    Ok(())
}

/// A ready update reconfigures the multisig of the role at position `i`.
pub open spec fn reconfigures(ready: Seq<QueuedUpdate>, i: int) -> bool {
    exists|k: int|
        0 <= k < ready.len() && (#[trigger] ready[k].spec_action() matches UpdateAction::Multisig(
            m,
        ) && role_index(m.role) == i)
}

/// The multisig configuration updates that the updates of `ready` make, in order, to the
/// role at position `i`.
pub open spec fn role_config_updates(ready: Seq<QueuedUpdate>, i: int) -> Seq<MultisigConfigUpdate>
    decreases ready.len(),
{
    if ready.len() == 0 {
        Seq::empty()
    } else {
        let rest = role_config_updates(ready.drop_last(), i);
        match ready.last().spec_action() {
            UpdateAction::Multisig(m) => if role_index(m.role) == i {
                rest.push(m.config)
            } else {
                rest
            },
            _ => rest,
        }
    }
}

/// `next` is what applying `update` to `cur` through `apply` can give: the configuration
/// `apply` returns, or `cur` itself if `apply` refuses the update.
pub open spec fn config_step<F>(
    apply: F,
    cur: MultisigConfig,
    update: MultisigConfigUpdate,
    next: MultisigConfig,
) -> bool where
    F: Fn(&MultisigConfig, &MultisigConfigUpdate) -> Result<MultisigConfig, MultisigConfigError>,
 {
    ||| apply.ensures((&cur, &update), Ok(next))
    ||| (next == cur && exists|e: MultisigConfigError| apply.ensures((&cur, &update), Err(e)))
}

/// `out` is a configuration that applying `updates` in order to `c` through `apply` can
/// give ([`config_step`] for each update).
pub open spec fn config_reached<F>(
    apply: F,
    c: MultisigConfig,
    updates: Seq<MultisigConfigUpdate>,
    out: MultisigConfig,
) -> bool where
    F: Fn(&MultisigConfig, &MultisigConfigUpdate) -> Result<MultisigConfig, MultisigConfigError>,
 {
    exists|chain: Seq<MultisigConfig>|
        #![trigger chain.len()]
        chain.len() == updates.len() + 1 && chain[0] == c && chain.last() == out && forall|j: int|
            0 <= j < updates.len() ==> #[trigger] config_step(apply, chain[j], updates[j], chain[j + 1])
}

/// Enacts the queued updates that are ready at `current_height`.
///
/// The ready updates leave the queue ([`AdministrationSubprotoState::process_queued`]) and
/// are enacted in queue order: a multisig update reconfigures the multisig of its role
/// through `apply` (an update that `apply` refuses, or for a role without authority, is
/// skipped); the other kinds of update have no effect here. Sequence numbers, roles and the
/// update id counter do not change, and neither does the configuration of a role that no
/// ready update reconfigures.
pub fn handle_pending_updates<F>(
    state: &mut AdministrationSubprotoState,
    current_height: u64,
    apply: &F,
) where
    F: Fn(&MultisigConfig, &MultisigConfigUpdate) -> Result<MultisigConfig, MultisigConfigError>,

    requires
        forall|c: &MultisigConfig, u: &MultisigConfigUpdate| apply.requires((c, u)),
    ensures
        ({
            let s = *old(state);
            let s2 = *final(state);
            let ready = ready_at(s.spec_queued(), current_height);
            &&& s2.spec_queued() == pending_at(s.spec_queued(), current_height)
            &&& s2.spec_next_update_id() == s.spec_next_update_id()
            &&& s2.spec_authorities().len() == s.spec_authorities().len()
            &&& forall|i: int|
                0 <= i < s.spec_authorities().len() ==> {
                    &&& #[trigger] s2.spec_authorities()[i].spec_role()
                        == s.spec_authorities()[i].spec_role()
                    &&& s2.spec_authorities()[i].spec_seqno()
                        == s.spec_authorities()[i].spec_seqno()
                    &&& !reconfigures(ready, i) ==> s2.spec_authorities()[i].spec_config()
                        == s.spec_authorities()[i].spec_config()
                    &&& config_reached(
                        *apply,
                        s.spec_authorities()[i].spec_config(),
                        role_config_updates(ready, i),
                        s2.spec_authorities()[i].spec_config(),
                    )
                }
        }),
{
    let ghost s0 = *state;
    let actions_to_enact = state.process_queued(current_height);
    let ghost s1 = *state;
    proof {
        let none = actions_to_enact@.subrange(0, 0);
        assert forall|i: int| 0 <= i < s1.spec_authorities().len() implies config_reached(
            *apply,
            s1.spec_authorities()[i].spec_config(),
            role_config_updates(none, i),
            s1.spec_authorities()[i].spec_config(),
        ) by {
            let c = s1.spec_authorities()[i].spec_config();
            let chain = seq![c];
            assert(role_config_updates(none, i) =~= Seq::<MultisigConfigUpdate>::empty());
            assert(chain.len() == 1);
        }
    }
    let n = actions_to_enact.len();
    let mut k: usize = 0;
    while k < n
        invariant
            n == actions_to_enact@.len(),
            0 <= k <= n,
            forall|c: &MultisigConfig, u: &MultisigConfigUpdate| apply.requires((c, u)),
            state.spec_queued() == s1.spec_queued(),
            state.spec_next_update_id() == s1.spec_next_update_id(),
            state.spec_authorities().len() == s1.spec_authorities().len(),
            forall|i: int|
                0 <= i < s1.spec_authorities().len() ==> {
                    &&& #[trigger] state.spec_authorities()[i].spec_role()
                        == s1.spec_authorities()[i].spec_role()
                    &&& state.spec_authorities()[i].spec_seqno()
                        == s1.spec_authorities()[i].spec_seqno()
                    &&& !reconfigures(actions_to_enact@.subrange(0, k as int), i)
                        ==> state.spec_authorities()[i].spec_config()
                        == s1.spec_authorities()[i].spec_config()
                    &&& config_reached(
                        *apply,
                        s1.spec_authorities()[i].spec_config(),
                        role_config_updates(actions_to_enact@.subrange(0, k as int), i),
                        state.spec_authorities()[i].spec_config(),
                    )
                },
        decreases n - k,
    {
        let ghost before = *state;
        let action = actions_to_enact[k].action();
        match action {
            UpdateAction::Multisig(update) => {
                let res = state.apply_multisig_update(update.role, &update.config, apply);
                proof {
                    let pre = actions_to_enact@.subrange(0, k as int);
                    let post = actions_to_enact@.subrange(0, k + 1);
                    assert(post.drop_last() =~= pre);
                    assert(post.last() == actions_to_enact@[k as int]);
                    let ri = role_index(update.role);
                    assert forall|i: int| 0 <= i < s1.spec_authorities().len() implies config_reached(
                        *apply,
                        s1.spec_authorities()[i].spec_config(),
                        role_config_updates(post, i),
                        state.spec_authorities()[i].spec_config(),
                    ) by {
                        assert(before.spec_authorities()[i].spec_role() == s1.spec_authorities()[i].spec_role());
                        let c0 = s1.spec_authorities()[i].spec_config();
                        let ups = role_config_updates(post, i);
                        let mid = before.spec_authorities()[i].spec_config();
                        let out = state.spec_authorities()[i].spec_config();
                        assert(post.last().spec_action() == UpdateAction::Multisig(*update));
                        if i == ri {
                            assert(ups.drop_last() =~= role_config_updates(pre, i));
                            assert(ups.last() == update.config);
                            assert(config_reached(*apply, c0, ups.drop_last(), mid));
                            let chain = choose|chain: Seq<MultisigConfig>|
                                #![trigger chain.len()]
                                chain.len() == ups.drop_last().len() + 1 && chain[0] == c0
                                    && chain.last() == mid && forall|j: int|
                                    0 <= j < ups.drop_last().len() ==> #[trigger] config_step(
                                        *apply,
                                        chain[j],
                                        ups.drop_last()[j],
                                        chain[j + 1],
                                    );
                            let chain2 = chain.push(out);
                            match res {
                                Ok(()) => {
                                    assert((*apply).ensures((&mid, &ups.last()), Ok(out)));
                                },
                                Err(e) => {
                                    assert(out == mid);
                                    assert((*apply).ensures(
                                        (&mid, &ups.last()),
                                        Err(e->MultisigConfig_0),
                                    ));
                                },
                            }
                            assert(config_step(*apply, mid, ups.last(), out));
                            assert forall|j: int| 0 <= j < ups.len() implies #[trigger] config_step(
                                *apply,
                                chain2[j],
                                ups[j],
                                chain2[j + 1],
                            ) by {
                                if j < ups.len() - 1 {
                                    assert(ups[j] == ups.drop_last()[j]);
                                    assert(chain2[j] == chain[j]);
                                    assert(chain2[j + 1] == chain[j + 1]);
                                    assert(config_step(*apply, chain[j], ups.drop_last()[j], chain[j + 1]));
                                }
                            }
                            assert(chain2.len() == ups.len() + 1);
                        } else {
                            assert(ups =~= role_config_updates(pre, i));
                            assert(out == mid);
                        }
                    }
                }
            },
            UpdateAction::VerifyingKey(_) => {},
            UpdateAction::OperatorSet(_) => {},
            UpdateAction::Sequencer(_) => {},
        }
        proof {
            let pre = actions_to_enact@.subrange(0, k as int);
            let post = actions_to_enact@.subrange(0, k + 1);
            assert(post.drop_last() =~= pre);
            assert(post.last() == actions_to_enact@[k as int]);
            if !(actions_to_enact@[k as int].spec_action() is Multisig) {
                assert forall|i: int| 0 <= i < s1.spec_authorities().len() implies config_reached(
                    *apply,
                    s1.spec_authorities()[i].spec_config(),
                    role_config_updates(post, i),
                    state.spec_authorities()[i].spec_config(),
                ) by {
                    assert(before.spec_authorities()[i].spec_role() == s1.spec_authorities()[i].spec_role());
                    assert(role_config_updates(post, i) =~= role_config_updates(pre, i));
                }
            }
            assert forall|i: int|
                0 <= i < s1.spec_authorities().len() && !reconfigures(post, i) implies !reconfigures(
                pre,
                i,
            ) by {
                if reconfigures(pre, i) {
                    let j = choose|j: int|
                        0 <= j < pre.len() && (#[trigger] pre[j].spec_action() matches UpdateAction::Multisig(
                            m,
                        ) && role_index(m.role) == i);
                    assert(post[j] == pre[j]);
                }
            }
            assert forall|i: int|
                0 <= i < s1.spec_authorities().len() && !reconfigures(post, i)
                    && state.spec_authorities()[i].spec_config() != before.spec_authorities()[i].spec_config()
                    implies false by {
                if let UpdateAction::Multisig(m) = actions_to_enact@[k as int].spec_action() {
                    assert(post[k as int] == actions_to_enact@[k as int]);
                }
            }
        }
        k = k + 1;
    }
    proof {
        assert(actions_to_enact@.subrange(0, n as int) =~= actions_to_enact@);
    }
}

} // verus!
