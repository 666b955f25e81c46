//! Genesis configuration management for subprotocols.
//!
//! The registry holds, for each subprotocol, the serialized genesis configuration from
//! which its state is initialized during genesis processing or when a new subprotocol is
//! added.

use std::collections::BTreeMap;

use vstd::prelude::*;

use crate::primitives::SubprotocolId;

verus! {

broadcast use {vstd::std_specs::btree::group_btree_axioms, vstd::laws_cmp::group_laws_cmp};

/// Registry of the serialized genesis configurations of the subprotocols, keyed by
/// subprotocol ID.
#[derive(Debug)]
pub struct GenesisConfigRegistry {
    configs: BTreeMap<SubprotocolId, Vec<u8>>,
}

impl View for GenesisConfigRegistry {
    type V = Map<SubprotocolId, Seq<u8>>;

    closed spec fn view(&self) -> Map<SubprotocolId, Seq<u8>> {
        self.configs@.map_values(|v: Vec<u8>| v@)
    }
}

impl GenesisConfigRegistry {
    /// An empty registry.
    pub fn new() -> (r: Self)
        ensures
            r@ == Map::<SubprotocolId, Seq<u8>>::empty(),
    {
        let r = Self { configs: BTreeMap::new() };
        assert(r@ =~= Map::<SubprotocolId, Seq<u8>>::empty());
        r
    }

    /// Registers the serialized genesis configuration of subprotocol `id`, replacing any
    /// earlier one.
    pub fn register(&mut self, id: SubprotocolId, config: Vec<u8>)
        ensures
            final(self)@ == old(self)@.insert(id, config@),
    {
        let ghost bytes = config@;
        self.configs.insert(id, config);
        assert(self@ =~= old(self)@.insert(id, bytes));
    }

    /// The serialized genesis configuration of subprotocol `id`, if one is registered.
    pub fn get_raw(&self, id: SubprotocolId) -> (r: Option<&[u8]>)
        ensures
            match r {
                Some(b) => self@.contains_key(id) && b@ == self@[id],
                None => !self@.contains_key(id),
            },
    {
        match self.configs.get(&id) {
            Some(v) => Some(v.as_slice()),
            None => None,
        }
    }

    /// Whether a genesis configuration is registered for subprotocol `id`.
    pub fn contains(&self, id: SubprotocolId) -> (r: bool)
        ensures
            r == self@.contains_key(id),
    {
        self.configs.contains_key(&id)
    }

    /// The number of registered genesis configurations.
    pub fn len(&self) -> (r: usize)
        ensures
            r == self@.len(),
    {
        assert(self@.dom() =~= self.configs@.dom());
        self.configs.len()
    }

    /// Whether no genesis configuration is registered.
    pub fn is_empty(&self) -> (r: bool)
        ensures
            r == (self@.len() == 0),
    {
        assert(self@.dom() =~= self.configs@.dom());
        self.configs.is_empty()
    }
}

/// A configuration registered for a subprotocol is the one read back for it, and the
/// configurations of the other subprotocols are untouched.
pub proof fn lemma_registered_config_is_read_back(
    registry: Map<SubprotocolId, Seq<u8>>,
    id: SubprotocolId,
    config: Seq<u8>,
)
    ensures
        registry.insert(id, config).contains_key(id),
        registry.insert(id, config)[id] == config,
        forall|other: SubprotocolId|
            other != id ==> (#[trigger] registry.insert(id, config).contains_key(other)
                == registry.contains_key(other) && (registry.contains_key(other) ==> registry.insert(
                id,
                config,
            )[other] == registry[other])),
{
}

} // verus!
