//! The payloads of the log types.

use vstd::prelude::*;

use crate::primitives::{L1BlockCommitment, L2BlockCommitment};

verus! {

/// Details for a forced inclusion operation.
#[derive(Debug, Clone, PartialEq, Eq)]
pub struct ForcedInclusionData {
    /// Identifier of the target execution environment.
    pub ee_id: u64,
    /// Raw payload data for inclusion.
    pub payload: Vec<u8>,
}

impl ForcedInclusionData {
    pub fn new(ee_id: u64, payload: Vec<u8>) -> (r: Self)
        ensures
            r.ee_id == ee_id,
            r.payload@ == payload@,
    {
        Self { ee_id, payload }
    }
}

/// Details for a checkpoint update event.
#[derive(Debug, Clone, PartialEq, Eq)]
pub struct CheckpointUpdate {
    /// L1 block commitment reference.
    pub l1_ref: L1BlockCommitment,
    /// Verified L2 block commitment reference.
    pub verified_blk: L2BlockCommitment,
}

impl CheckpointUpdate {
    pub fn new(l1_ref: L1BlockCommitment, verified_blk: L2BlockCommitment) -> (r: Self)
        ensures
            r.l1_ref == l1_ref,
            r.verified_blk == verified_blk,
    {
        Self { l1_ref, verified_blk }
    }
}

/// Details for an update of the state transition verification key.
#[derive(Debug, Clone, PartialEq, Eq)]
pub struct AsmStfUpdate {
    /// The new verification key, as its serialized bytes.
    pub new_vk: Vec<u8>,
}

impl AsmStfUpdate {
    pub fn new(new_vk: Vec<u8>) -> (r: Self)
        ensures
            r.new_vk@ == new_vk@,
    {
        Self { new_vk }
    }
}

} // verus!
