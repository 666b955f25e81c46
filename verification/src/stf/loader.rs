//! What loading a subprotocol decides: where its state comes from, and which auxiliary
//! payloads it receives.

use std::collections::BTreeMap;

use vstd::prelude::*;

use crate::aux::AuxPayload;
use crate::primitives::SubprotocolId;

verus! {

broadcast use {vstd::std_specs::btree::group_btree_axioms, vstd::laws_cmp::group_laws_cmp};

/// Where a subprotocol's state is loaded from.
#[derive(Debug, PartialEq, Eq)]
pub enum StateSource<'a> {
    /// The serialized state of the subprotocol's section in the anchor state.
    Section(&'a [u8]),
    /// The serialized genesis configuration registered for the subprotocol, from which its
    /// state is initialized (an empty configuration if these bytes do not decode).
    Genesis(&'a [u8]),
    /// No section and no registered configuration: the state is initialized from an empty
    /// configuration.
    EmptyConfig,
}

/// Decides where a subprotocol's state comes from: its section in the anchor state if
/// there is one (the subprotocol is already running), else its registered genesis
/// configuration (genesis, or a subprotocol new to the chain), else an empty
/// configuration.
pub fn loaded_state_source<'a>(section: Option<&'a [u8]>, genesis: Option<&'a [u8]>) -> (r:
    StateSource<'a>)
    ensures
        section matches Some(s) ==> r == StateSource::Section(s),
        section is None ==> (genesis matches Some(g) ==> r == StateSource::Genesis(g)),
        section is None && genesis is None ==> r == StateSource::EmptyConfig,
{
    match section {
        Some(s) => StateSource::Section(s),
        None => match genesis {
            Some(g) => StateSource::Genesis(g),
            None => StateSource::EmptyConfig,
        },
    }
}

/// The auxiliary payloads of the bundle for subprotocol `id`, in order; none if the
/// bundle has no entry for it.
pub fn aux_payloads_for<'a>(
    bundle: &'a BTreeMap<SubprotocolId, Vec<AuxPayload>>,
    id: SubprotocolId,
) -> (r: &'a [AuxPayload])
    ensures
        bundle@.contains_key(id) ==> r@ == bundle@[id]@,
        !bundle@.contains_key(id) ==> r@.len() == 0,
{
    match bundle.get(&id) {
        Some(payloads) => payloads.as_slice(),
        None => {
            let none: &[AuxPayload] = &[];
            none
        },
    }
}

} // verus!
