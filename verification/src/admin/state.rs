//! The administration subprotocol's state: the multisig authorities, the queue of
//! pending updates and the next update id.

use vstd::prelude::*;

use crate::admin::actions::{
    role_index, MultisigConfig, MultisigConfigUpdate, Role, UpdateId,
};
use crate::admin::authority::{copy_config, MultisigAuthority};
use crate::admin::error::{AdministrationError, MultisigConfigError};
use crate::admin::queued_update::QueuedUpdate;

verus! {

/// Parameters of the administration subprotocol.
#[derive(Debug, Clone, PartialEq, Eq)]
pub struct AdministrationSubprotoParams {
    /// Signers of the administrator role.
    pub strata_administrator: MultisigConfig,
    /// Signers of the sequencer manager role.
    pub strata_sequencer_manager: MultisigConfig,
    /// Number of blocks an update waits in the queue before it is enacted.
    pub confirmation_depth: u16,
}

/// Some update of `q` has id `id`.
pub open spec fn has_queued(q: Seq<QueuedUpdate>, id: UpdateId) -> bool {
    exists|i: int| 0 <= i < q.len() && q[i].spec_id() == id
}

/// `i` is the position of the first update of `q` with id `id`.
pub open spec fn first_queued(q: Seq<QueuedUpdate>, id: UpdateId, i: int) -> bool {
    &&& 0 <= i < q.len()
    &&& q[i].spec_id() == id
    &&& forall|j: int| 0 <= j < i ==> q[j].spec_id() != id
}

/// The updates of `q` that are ready at height `h`, in queue order.
pub open spec fn ready_at(q: Seq<QueuedUpdate>, h: u64) -> Seq<QueuedUpdate> {
    q.filter(|u: QueuedUpdate| u.spec_activation_height() <= h)
}

/// The updates of `q` that are not ready at height `h`, in queue order.
pub open spec fn pending_at(q: Seq<QueuedUpdate>, h: u64) -> Seq<QueuedUpdate> {
    q.filter(|u: QueuedUpdate| u.spec_activation_height() > h)
}

/// Holds the state for the administration subprotocol: the multisignature authorities
/// and the updates still pending execution.
#[derive(Debug, Clone, PartialEq, Eq)]
pub struct AdministrationSubprotoState {
    authorities: Vec<MultisigAuthority>,
    queued: Vec<QueuedUpdate>,
    next_update_id: UpdateId,
}

impl AdministrationSubprotoState {
    pub closed spec fn spec_authorities(&self) -> Seq<MultisigAuthority> {
        self.authorities@
    }

    pub closed spec fn spec_queued(&self) -> Seq<QueuedUpdate> {
        self.queued@
    }

    pub closed spec fn spec_next_update_id(&self) -> UpdateId {
        self.next_update_id
    }

    /// Creates the state: one authority per role, with sequence number 0, in role order;
    /// an empty queue; next update id 0.
    pub fn new(config: &AdministrationSubprotoParams) -> (r: Self)
        ensures
            r.spec_authorities().len() == 2,
            r.spec_authorities()[0].spec_role() == Role::StrataAdministrator,
            r.spec_authorities()[0].spec_config().keys@ == config.strata_administrator.keys@,
            r.spec_authorities()[0].spec_config().threshold == config.strata_administrator.threshold,
            r.spec_authorities()[1].spec_role() == Role::StrataSequencerManager,
            r.spec_authorities()[1].spec_config().keys@
                == config.strata_sequencer_manager.keys@,
            r.spec_authorities()[1].spec_config().threshold
                == config.strata_sequencer_manager.threshold,
            forall|i: int| 0 <= i < 2 ==> #[trigger] r.spec_authorities()[i].spec_seqno() == 0,
            r.spec_queued().len() == 0,
            r.spec_next_update_id() == 0,
    {
        let mut authorities: Vec<MultisigAuthority> = Vec::new();
        authorities.push(
            MultisigAuthority::new(
                Role::StrataAdministrator,
                copy_config(&config.strata_administrator),
            ),
        );
        authorities.push(
            MultisigAuthority::new(
                Role::StrataSequencerManager,
                copy_config(&config.strata_sequencer_manager),
            ),
        );
        Self { authorities, queued: Vec::new(), next_update_id: 0 }
    }

    /// Get a reference to the authority for the given role (the authority at the role's
    /// position in the list of authorities).
    pub fn authority(&self, role: Role) -> (r: Option<&MultisigAuthority>)
        ensures
            r is Some <==> role_index(role) < self.spec_authorities().len(),
            r matches Some(a) ==> *a == self.spec_authorities()[role_index(role)],
    {
        let i = role.index();
        if i < self.authorities.len() {
            Some(&self.authorities[i])
        } else {
            None
        }
    }

    /// Increments the sequence number of the authority for the given role.
    ///
    /// Returns [`AdministrationError::UnknownRole`] (and changes nothing) if there is no
    /// authority for the role.
    pub fn increment_authority_seqno(&mut self, role: Role) -> (r: Result<(), AdministrationError>)
        requires
            role_index(role) < old(self).spec_authorities().len() ==> old(self).spec_authorities()[role_index(role)].spec_seqno() < u64::MAX,
        ensures
            r is Ok <==> role_index(role) < old(self).spec_authorities().len(),
            r is Err ==> r == Err::<(), _>(AdministrationError::UnknownRole) && *final(self) == *old(self),
            r is Ok ==> {
                let i = role_index(role);
                let a = old(self).spec_authorities()[i];
                let b = final(self).spec_authorities()[i];
                &&& final(self).spec_authorities().len() == old(self).spec_authorities().len()
                &&& forall|j: int|
                    0 <= j < old(self).spec_authorities().len() && j != i ==> #[trigger] final(self).spec_authorities()[j] == old(self).spec_authorities()[j]
                &&& b.spec_seqno() == a.spec_seqno() + 1
                &&& b.spec_role() == a.spec_role()
                &&& b.spec_config() == a.spec_config()
            },
            final(self).spec_queued() == old(self).spec_queued(),
            final(self).spec_next_update_id() == old(self).spec_next_update_id(),
    {
        let i = role.index();
        if i < self.authorities.len() {
            self.authorities[i].increment_seqno();
            Ok(())
        } else {
            Err(AdministrationError::UnknownRole)
        }
    }

    /// Apply a multisig config update for the specified role.
    ///
    /// `apply` computes the new configuration from the current one and the update. Returns
    /// [`AdministrationError::UnknownRole`] if there is no authority for the role, and
    /// [`AdministrationError::MultisigConfig`] with the error of `apply` if it refuses the
    /// update; in both cases nothing changes.
    pub fn apply_multisig_update<F>(
        &mut self,
        role: Role,
        update: &MultisigConfigUpdate,
        apply: &F,
    ) -> (r: Result<(), AdministrationError>) where
        F: Fn(&MultisigConfig, &MultisigConfigUpdate) -> Result<MultisigConfig, MultisigConfigError>,

        requires
            forall|c: &MultisigConfig, u: &MultisigConfigUpdate| apply.requires((c, u)),
        ensures
            role_index(role) >= old(self).spec_authorities().len() ==> r == Err::<(), _>(
                AdministrationError::UnknownRole,
            ),
            r is Err ==> *final(self) == *old(self),
            r matches Err(AdministrationError::MultisigConfig(e)) ==> apply.ensures(
                (&old(self).spec_authorities()[role_index(role)].spec_config(), update),
                Err(e),
            ),
            r matches Err(e) ==> e is UnknownRole || e is MultisigConfig,
            r == Err::<(), _>(AdministrationError::UnknownRole) <==> role_index(role) >= old(
                self,
            ).spec_authorities().len(),
            r is Ok ==> {
                let i = role_index(role);
                let a = old(self).spec_authorities()[i];
                let b = final(self).spec_authorities()[i];
                &&& i < old(self).spec_authorities().len()
                &&& final(self).spec_authorities().len() == old(self).spec_authorities().len()
                &&& forall|j: int|
                    0 <= j < old(self).spec_authorities().len() && j != i ==> #[trigger] final(self).spec_authorities()[j] == old(self).spec_authorities()[j]
                &&& b.spec_seqno() == a.spec_seqno()
                &&& b.spec_role() == a.spec_role()
                &&& apply.ensures((&a.spec_config(), update), Ok(b.spec_config()))
            },
            final(self).spec_queued() == old(self).spec_queued(),
            final(self).spec_next_update_id() == old(self).spec_next_update_id(),
    {
        let i = role.index();
        if i < self.authorities.len() {
            let res = apply(self.authorities[i].config(), update);
            match res {
                Ok(new_config) => {
                    let updated = self.authorities[i].with_config(new_config);
                    self.authorities.set(i, updated);
                    Ok(())
                },
                Err(e) => Err(AdministrationError::MultisigConfig(e)),
            }
        } else {
            Err(AdministrationError::UnknownRole)
        }
    }

    /// Get a reference to the queued updates.
    pub fn queued(&self) -> (r: &[QueuedUpdate])
        ensures
            r@ == self.spec_queued(),
    {
        self.queued.as_slice()
    }

    /// Position of the first queued update with the given id.
    fn position_queued(&self, id: &UpdateId) -> (r: Option<usize>)
        ensures
            r is None <==> !has_queued(self.spec_queued(), *id),
            r matches Some(i) ==> first_queued(self.spec_queued(), *id, i as int),
    {
        let n = self.queued.len();
        let mut i: usize = 0;
        while i < n
            invariant
                n == self.queued@.len(),
                0 <= i <= n,
                forall|j: int| 0 <= j < i ==> self.queued@[j].spec_id() != *id,
            decreases n - i,
        {
            if *self.queued[i].id() == *id {
                return Some(i);
            }
            i = i + 1;
        }
        None
    }

    /// Find the first queued update with the given id.
    pub fn find_queued(&self, id: &UpdateId) -> (r: Option<&QueuedUpdate>)
        ensures
            r is None <==> !has_queued(self.spec_queued(), *id),
            r matches Some(u) ==> exists|i: int|
                first_queued(self.spec_queued(), *id, i) && self.spec_queued()[i] == *u,
    {
        match self.position_queued(id) {
            Some(i) => Some(&self.queued[i]),
            None => None,
        }
    }

    /// Queue a new update at the end of the queue.
    pub fn enqueue(&mut self, update: QueuedUpdate)
        ensures
            final(self).spec_queued() == old(self).spec_queued().push(update),
            final(self).spec_authorities() == old(self).spec_authorities(),
            final(self).spec_next_update_id() == old(self).spec_next_update_id(),
    {
        self.queued.push(update);
    }

    /// Remove the first queued update with the given id, by swapping the last queued update
    /// into its place. Nothing changes if no queued update has the id.
    pub fn remove_queued(&mut self, id: &UpdateId)
        ensures
            !has_queued(old(self).spec_queued(), *id) ==> final(self).spec_queued() == old(self).spec_queued(),
            has_queued(old(self).spec_queued(), *id) ==> exists|i: int|
                first_queued(old(self).spec_queued(), *id, i) && final(self).spec_queued() == old(self).spec_queued().update(i, old(self).spec_queued().last()).drop_last(),
            final(self).spec_authorities() == old(self).spec_authorities(),
            final(self).spec_next_update_id() == old(self).spec_next_update_id(),
    {
        match self.position_queued(id) {
            Some(i) => {
                self.queued.swap_remove(i);
            },
            None => {},
        }
    }

    /// Get the next global update id.
    pub fn next_update_id(&self) -> (r: UpdateId)
        ensures
            r == self.spec_next_update_id(),
    {
        self.next_update_id
    }

    /// Increment the next global update id.
    pub fn increment_next_update_id(&mut self)
        requires
            old(self).spec_next_update_id() < u32::MAX,
        ensures
            final(self).spec_next_update_id() == old(self).spec_next_update_id() + 1,
            final(self).spec_authorities() == old(self).spec_authorities(),
            final(self).spec_queued() == old(self).spec_queued(),
    {
        self.next_update_id = self.next_update_id + 1;
    }

    /// Removes from the queue, and returns, every update whose activation height is at most
    /// `current_height`; both the returned and the remaining updates keep their queue order.
    pub fn process_queued(&mut self, current_height: u64) -> (r: Vec<QueuedUpdate>)
        ensures
            r@ == ready_at(old(self).spec_queued(), current_height),
            final(self).spec_queued() == pending_at(old(self).spec_queued(), current_height),
            final(self).spec_authorities() == old(self).spec_authorities(),
            final(self).spec_next_update_id() == old(self).spec_next_update_id(),
    {
        let ghost orig = self.queued@;
        let mut rest: Vec<QueuedUpdate> = Vec::new();
        std::mem::swap(&mut rest, &mut self.queued);
        let mut ready: Vec<QueuedUpdate> = Vec::new();
        let mut kept: Vec<QueuedUpdate> = Vec::new();
        let ghost n = orig.len();
        while rest.len() > 0
            invariant
                n == orig.len(),
                rest@.len() <= n,
                rest@ == orig.subrange(n - rest@.len(), n as int),
                ready@ == ready_at(orig.subrange(0, n - rest@.len()), current_height),
                kept@ == pending_at(orig.subrange(0, n - rest@.len()), current_height),
            decreases rest@.len(),
        {
            let ghost k = n - rest@.len();
            let u = rest.remove(0);
            proof {
                let pre = orig.subrange(0, k);
                assert(orig.subrange(0, k + 1) =~= pre.push(u));
                pre.lemma_filter_push(
                    u,
                    |x: QueuedUpdate| x.spec_activation_height() <= current_height,
                );
                pre.lemma_filter_push(
                    u,
                    |x: QueuedUpdate| x.spec_activation_height() > current_height,
                );
                assert(rest@ =~= orig.subrange(k + 1, n as int));
            }
            if u.activation_height() <= current_height {
                ready.push(u);
            } else {
                kept.push(u);
            }
        }
        proof {
            assert(orig.subrange(0, n as int) =~= orig);
        }
        self.queued = kept;
        ready
    }
}

} // verus!
