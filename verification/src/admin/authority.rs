//! Multisig authorities: a role, its signers, and a sequence number for replay
//! protection.

use vstd::prelude::*;

use crate::admin::actions::{MultisigConfig, Role};

verus! {

/// Copies a multisig configuration.
pub fn copy_config(c: &MultisigConfig) -> (r: MultisigConfig)
    ensures
        r.keys@ == c.keys@,
        r.threshold == c.threshold,
{
    let mut keys: Vec<[u8; 32]> = Vec::new();
    let n = c.keys.len();
    let mut i: usize = 0;
    while i < n
        invariant
            n == c.keys@.len(),
            0 <= i <= n,
            keys@ == c.keys@.subrange(0, i as int),
        decreases n - i,
    {
        keys.push(c.keys[i]);
        i = i + 1;
        assert(keys@ =~= c.keys@.subrange(0, i as int));
    }
    assert(keys@ =~= c.keys@);
    MultisigConfig { keys, threshold: c.threshold }
}


/// Manages multisignature operations for a given role and key set, with replay protection
/// via a sequence number.
#[derive(Debug, Clone, PartialEq, Eq)]
pub struct MultisigAuthority {
    role: Role,
    config: MultisigConfig,
    seqno: u64,
}

impl MultisigAuthority {
    pub closed spec fn spec_role(&self) -> Role {
        self.role
    }

    pub closed spec fn spec_config(&self) -> MultisigConfig {
        self.config
    }

    pub closed spec fn spec_seqno(&self) -> u64 {
        self.seqno
    }

    /// Creates an authority with sequence number 0.
    pub fn new(role: Role, config: MultisigConfig) -> (r: Self)
        ensures
            r.spec_role() == role,
            r.spec_config() == config,
            r.spec_seqno() == 0,
    {
        Self { role, config, seqno: 0 }
    }

    /// The same authority with another configuration.
    pub fn with_config(&self, config: MultisigConfig) -> (r: Self)
        ensures
            r.spec_role() == self.spec_role(),
            r.spec_config() == config,
            r.spec_seqno() == self.spec_seqno(),
    {
        Self { role: self.role, config, seqno: self.seqno }
    }

    /// The role authorized to perform multisig operations.
    pub fn role(&self) -> (r: Role)
        ensures
            r == self.spec_role(),
    {
        self.role
    }

    /// Borrow the current multisig configuration.
    pub fn config(&self) -> (r: &MultisigConfig)
        ensures
            *r == self.spec_config(),
    {
        &self.config
    }

    /// Increments the sequence number.
    pub fn increment_seqno(&mut self)
        requires
            old(self).spec_seqno() < u64::MAX,
        ensures
            final(self).spec_seqno() == old(self).spec_seqno() + 1,
            final(self).spec_role() == old(self).spec_role(),
            final(self).spec_config() == old(self).spec_config(),
    {
        self.seqno = self.seqno + 1;
    }

    /// The current sequence number.
    pub fn seqno(&self) -> (r: u64)
        ensures
            r == self.spec_seqno(),
    {
        self.seqno
    }
}

} // verus!
