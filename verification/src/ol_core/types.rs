//! State of the OL core subprotocol and the checkpoint data it verifies.

use vstd::prelude::*;

use crate::ol_core::error::CoreError;
use crate::primitives::{Buf32, L1BlockCommitment, L2BlockCommitment};

verus! {

/// Summary of an epoch: its number, its terminal L2 block and the one before, the L1
/// block it reaches, and the resulting state root.
#[derive(Debug, Clone, Copy, PartialEq, Eq)]
pub struct EpochSummary {
    pub epoch: u64,
    pub terminal: L2BlockCommitment,
    pub prev_terminal: L2BlockCommitment,
    pub new_l1: L1BlockCommitment,
    pub final_state: Buf32,
}

impl EpochSummary {
    pub fn epoch(&self) -> (r: u64)
        ensures
            r == self.epoch,
    {
        self.epoch
    }

    pub fn terminal(&self) -> (r: &L2BlockCommitment)
        ensures
            *r == self.terminal,
    {
        &self.terminal
    }

    pub fn new_l1(&self) -> (r: &L1BlockCommitment)
        ensures
            *r == self.new_l1,
    {
        &self.new_l1
    }

    /// The summary of the following epoch.
    pub open spec fn spec_next(
        self,
        terminal: L2BlockCommitment,
        new_l1: L1BlockCommitment,
        final_state: Buf32,
    ) -> EpochSummary {
        EpochSummary {
            epoch: (self.epoch + 1) as u64,
            terminal,
            prev_terminal: self.terminal,
            new_l1,
            final_state,
        }
    }

    /// Creates the summary of the following epoch, which ends at `terminal`, reaches
    /// `new_l1` and results in `final_state`.
    pub fn create_next_epoch_summary(
        &self,
        terminal: L2BlockCommitment,
        new_l1: L1BlockCommitment,
        final_state: Buf32,
    ) -> (r: EpochSummary)
        requires
            self.epoch < u64::MAX,
        ensures
            r == self.spec_next(terminal, new_l1, final_state),
    {
        EpochSummary {
            epoch: self.epoch + 1,
            terminal,
            prev_terminal: self.terminal,
            new_l1,
            final_state,
        }
    }
}

/// What a checkpoint's batch covers: its epoch and the last L1 and L2 blocks.
#[derive(Debug, Clone, Copy, PartialEq, Eq)]
pub struct BatchInfo {
    pub epoch: u64,
    pub final_l1_block: L1BlockCommitment,
    pub final_l2_block: L2BlockCommitment,
}

/// A checkpoint: the batch it covers, the state root after the batch, the chain state
/// carried alongside, and the proof.
#[derive(Debug, Clone, PartialEq, Eq)]
pub struct Checkpoint {
    pub batch_info: BatchInfo,
    pub post_state_root: Buf32,
    pub chainstate: Vec<u8>,
    pub proof: Vec<u8>,
}

/// A checkpoint with the sequencer's signature.
#[derive(Debug, Clone, PartialEq, Eq)]
pub struct SignedCheckpoint {
    pub checkpoint: Checkpoint,
    pub signature: Vec<u8>,
}

impl SignedCheckpoint {
    pub fn checkpoint(&self) -> (r: &Checkpoint)
        ensures
            *r == self.checkpoint,
    {
        &self.checkpoint
    }
}

/// A message from L2 to L1: a type and a body.
#[derive(Debug, Clone, PartialEq, Eq)]
pub struct L2ToL1Msg {
    pub ty: u16,
    pub body: Vec<u8>,
}

/// OL core state.
#[derive(Debug, Clone, PartialEq, Eq)]
pub struct CoreOLState {
    /// The serialized rollup verifying key used to verify each new checkpoint proof.
    pub checkpoint_vk: Vec<u8>,
    /// Summary of the last checkpoint that was successfully verified.
    pub verified_checkpoint: EpochSummary,
    /// The L1 block ID up to which the `verified_checkpoint` covers.
    pub last_checkpoint_ref: Buf32,
    /// Public key of the sequencer authorized to submit checkpoint proofs.
    pub sequencer_pubkey: Buf32,
}

impl CoreOLState {
    /// Sets the rollup verifying key.
    pub fn set_checkpoint_vk(&mut self, vk: &Vec<u8>) -> (r: Result<(), CoreError>)
        ensures
            r is Ok,
            final(self).checkpoint_vk@ == vk@,
            final(self).verified_checkpoint == old(self).verified_checkpoint,
            final(self).last_checkpoint_ref == old(self).last_checkpoint_ref,
            final(self).sequencer_pubkey == old(self).sequencer_pubkey,
    {
        self.checkpoint_vk = vstd::slice::slice_to_vec(vk.as_slice());
        Ok(())
    }
}

/// Applies a validated checkpoint to the state: the new epoch summary becomes the verified
/// checkpoint, and the checkpoint's final L1 block becomes the checkpoint reference.
pub fn apply_checkpoint_to_state(
    state: &mut CoreOLState,
    new_epoch_summary: EpochSummary,
    checkpoint: &Checkpoint,
)
    ensures
        final(state).verified_checkpoint == new_epoch_summary,
        final(state).last_checkpoint_ref == checkpoint.batch_info.final_l1_block.blkid,
        final(state).checkpoint_vk == old(state).checkpoint_vk,
        final(state).sequencer_pubkey == old(state).sequencer_pubkey,
{
    state.verified_checkpoint = new_epoch_summary;
    state.last_checkpoint_ref = checkpoint.batch_info.final_l1_block.blkid;
}

/// Genesis configuration for the core subprotocol.
#[derive(Debug, Clone, PartialEq, Eq)]
pub struct CoreGenesisConfig {
    /// The initial serialized checkpoint verifying key.
    pub checkpoint_vk: Vec<u8>,
    /// The L1 block where ASM genesis occurs.
    pub genesis_l1_block: L1BlockCommitment,
    /// The authorized sequencer's public key for checkpoint submission.
    pub sequencer_pubkey: Buf32,
}

impl CoreGenesisConfig {
    /// Creates a new genesis config.
    pub fn new(
        checkpoint_vk: Vec<u8>,
        genesis_l1_block: L1BlockCommitment,
        sequencer_pubkey: Buf32,
    ) -> (r: Result<Self, CoreError>)
        ensures
            r matches Ok(c) && c.checkpoint_vk@ == checkpoint_vk@ && c.genesis_l1_block
                == genesis_l1_block && c.sequencer_pubkey == sequencer_pubkey,
    {
        Ok(Self { checkpoint_vk, genesis_l1_block, sequencer_pubkey })
    }
}

/// The public parameters that a checkpoint proof commits to.
#[derive(Debug, Clone, PartialEq, Eq)]
pub struct CheckpointProofPublicParameters {
    /// New epoch summary.
    pub epoch_summary: EpochSummary,
    /// Hash of the OL state diff.
    pub state_diff_hash: Buf32,
    /// Ordered messages L2 to L1.
    pub l2_to_l1_msgs: Vec<L2ToL1Msg>,
    /// Previous L1 commitment or genesis.
    pub prev_l1_ref: L1BlockCommitment,
    /// Commitment to the range of L1 to L2 messages.
    pub l1_to_l2_msgs_range_commitment_hash: Buf32,
}

} // verus!
