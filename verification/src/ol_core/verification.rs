//! Checks of a checkpoint against the verified state: progression of the epoch, the L2
//! slot and the L1 height; the public parameters its proof must commit to; the sequencer
//! signature; and the proof itself.

use vstd::prelude::*;

use crate::hash::{sha256, spec_sha256};
use crate::ol_core::error::{l1_height_not_increasing_message, CoreError};
use crate::ol_core::messages::{
    commitments_view, compute_rolling_hash, extract_l2_to_l1_messages, rolling_hash,
};
use crate::ol_core::types::{
    BatchInfo, Checkpoint, CheckpointProofPublicParameters, CoreOLState, EpochSummary,
    SignedCheckpoint,
};
use crate::primitives::Buf32;

verus! {

/// The epoch number a checkpoint following `prev` must carry, truncated to 32 bits.
pub open spec fn expected_epoch(prev: EpochSummary) -> u32 {
    ((prev.epoch + 1) as u64) as u32
}

/// Whether a batch validly follows the previous epoch summary: its epoch is the next one
/// (compared on 32 bits), and both its L2 slot and its L1 height increase.
pub open spec fn transition_valid(prev: EpochSummary, batch: BatchInfo) -> bool {
    &&& batch.epoch as u32 == expected_epoch(prev)
    &&& batch.final_l2_block.slot > prev.terminal.slot
    &&& batch.final_l1_block.height > prev.new_l1.height
}

/// The outcome of the progression checks: the first failing check gives the error.
pub open spec fn transition_checked<T>(prev: EpochSummary, batch: BatchInfo, r: Result<T, CoreError>) -> bool {
    &&& batch.epoch as u32 != expected_epoch(prev) ==> r == Err::<T, _>(
        CoreError::InvalidEpoch { expected: expected_epoch(prev), actual: batch.epoch as u32 },
    )
    &&& batch.epoch as u32 == expected_epoch(prev) && batch.final_l2_block.slot <= prev.terminal.slot
        ==> r == Err::<T, _>(
        CoreError::InvalidL2BlockSlot {
            prev_slot: prev.terminal.slot,
            new_slot: batch.final_l2_block.slot,
        },
    )
    &&& batch.epoch as u32 == expected_epoch(prev) && batch.final_l2_block.slot > prev.terminal.slot
        && batch.final_l1_block.height <= prev.new_l1.height ==> r matches Err(
        CoreError::InvalidL1BlockHeight(_),
    )
}

/// Checks the progression of epoch, L2 slot and L1 height from the previous epoch summary
/// to the batch.
fn check_progression(prev: &EpochSummary, batch: &BatchInfo) -> (r: Result<(), CoreError>)
    requires
        prev.epoch < u64::MAX,
    ensures
        transition_checked(*prev, *batch, r),
        r is Ok <==> transition_valid(*prev, *batch),
{
    let expected_epoch = (prev.epoch() + 1) as u32;
    let actual_epoch = batch.epoch as u32;
    if actual_epoch != expected_epoch {
        return Err(CoreError::InvalidEpoch { expected: expected_epoch, actual: actual_epoch });
    }
    let prev_slot = prev.terminal().slot();
    let new_slot = batch.final_l2_block.slot();
    if new_slot <= prev_slot {
        return Err(CoreError::InvalidL2BlockSlot { prev_slot, new_slot });
    }
    let prev_l1_height = prev.new_l1().height();
    let new_l1_height = batch.final_l1_block.height();
    if new_l1_height <= prev_l1_height {
        return Err(
            CoreError::InvalidL1BlockHeight(
                l1_height_not_increasing_message(new_l1_height, prev_l1_height),
            ),
        );
    }
    Ok(())
}

/// Validates that a checkpoint represents a valid state transition from the current
/// state: the epoch is the next one, and the L2 slot and the L1 height increase.
pub fn validate_state_transition(current_state: &CoreOLState, checkpoint: &Checkpoint) -> (r: Result<
    (),
    CoreError,
>)
    requires
        current_state.verified_checkpoint.epoch < u64::MAX,
    ensures
        transition_checked(current_state.verified_checkpoint, checkpoint.batch_info, r),
        r is Ok <==> transition_valid(current_state.verified_checkpoint, checkpoint.batch_info),
{
    check_progression(&current_state.verified_checkpoint, &checkpoint.batch_info)
}

/// The number of L1 heights from the previous to the new L1 block, as the rolling hash
/// computes it (on `u64`, then as a `usize`).
pub open spec fn l1_range_count(prev: EpochSummary, batch: BatchInfo) -> usize {
    ((batch.final_l1_block.height - prev.new_l1.height + 1) as u64) as usize
}

/// Whether `p` are the public parameters that a checkpoint proof must commit to, for
/// `checkpoint` following the state's verified epoch summary, with `commitments` the L1
/// block commitments of the range from the previous to the new L1 height: the next epoch
/// summary, the SHA-256 of the checkpoint's chain state, no L2-to-L1 message, the previous
/// L1 reference, and the rolling hash over the commitments.
pub open spec fn public_params_match(
    p: CheckpointProofPublicParameters,
    state: CoreOLState,
    checkpoint: Checkpoint,
    commitments: Seq<Buf32>,
) -> bool {
    let prev = state.verified_checkpoint;
    let batch = checkpoint.batch_info;
    &&& p.epoch_summary == prev.spec_next(
        batch.final_l2_block,
        batch.final_l1_block,
        checkpoint.post_state_root,
    )
    &&& p.state_diff_hash@ == spec_sha256(checkpoint.chainstate@)
    &&& p.l2_to_l1_msgs@.len() == 0
    &&& p.prev_l1_ref == prev.new_l1
    &&& p.l1_to_l2_msgs_range_commitment_hash@ == rolling_hash(
        commitments_view(commitments),
        prev.new_l1.height,
        batch.final_l1_block.height,
    )
}

/// Constructs the public parameters that the checkpoint proof must commit to, from the
/// trusted state, the checkpoint, and `l1_commitments`, the commitments of the L1 blocks
/// from the previous to the new L1 height (both included).
///
/// After the progression checks of [`validate_state_transition`], the new epoch summary
/// follows the verified one; the state diff hash is the SHA-256 of the checkpoint's chain
/// state; the L2-to-L1 messages are those extracted from the checkpoint (none); and the
/// L1-to-L2 range commitment is the rolling hash over the L1 commitments of the range
/// ([`CoreError::L1ToL2RangeMismatch`] if their number is not the number of heights in
/// the range).
pub fn construct_checkpoint_proof_public_parameters(
    state: &CoreOLState,
    checkpoint: &Checkpoint,
    l1_commitments: Vec<Buf32>,
) -> (r: Result<CheckpointProofPublicParameters, CoreError>)
    requires
        state.verified_checkpoint.epoch < u64::MAX,
        checkpoint.batch_info.final_l1_block.height > state.verified_checkpoint.new_l1.height
            ==> checkpoint.batch_info.final_l1_block.height - state.verified_checkpoint.new_l1.height
            < u64::MAX,
    ensures
        ({
            let prev = state.verified_checkpoint;
            let batch = checkpoint.batch_info;
            &&& transition_checked(prev, batch, r)
            &&& transition_valid(prev, batch) && l1_commitments@.len() != l1_range_count(prev, batch)
                ==> r == Err::<CheckpointProofPublicParameters, _>(CoreError::L1ToL2RangeMismatch)
            &&& r is Ok <==> transition_valid(prev, batch) && l1_commitments@.len()
                == l1_range_count(prev, batch)
            &&& r matches Ok(p) ==> public_params_match(p, *state, *checkpoint, l1_commitments@)
        }),
{
    let prev_epoch_summary = &state.verified_checkpoint;
    let new_batch_info = &checkpoint.batch_info;
    match check_progression(prev_epoch_summary, new_batch_info) {
        Ok(()) => {},
        Err(e) => return Err(e),
    }
    let prev_l1_height = prev_epoch_summary.new_l1().height();
    let new_l1_height = new_batch_info.final_l1_block.height();
    let state_diff_hash = sha256(checkpoint.chainstate.as_slice());
    let new_epoch_summary = prev_epoch_summary.create_next_epoch_summary(
        new_batch_info.final_l2_block,
        new_batch_info.final_l1_block,
        checkpoint.post_state_root,
    );
    let l2_to_l1_msgs = match extract_l2_to_l1_messages(checkpoint) {
        Ok(m) => m,
        Err(e) => return Err(e),
    };
    let ghost cs = l1_commitments@;
    let l1_to_l2_msgs_range_commitment_hash = match compute_rolling_hash(
        l1_commitments,
        prev_l1_height,
        new_l1_height,
    ) {
        Ok(h) => h,
        Err(e) => return Err(e),
    };
    let p = CheckpointProofPublicParameters {
        epoch_summary: new_epoch_summary,
        state_diff_hash,
        l2_to_l1_msgs,
        prev_l1_ref: *prev_epoch_summary.new_l1(),
        l1_to_l2_msgs_range_commitment_hash,
    };
    assert(public_params_match(p, *state, *checkpoint, cs));
    Ok(p)
}

/// Verifies the signature on a signed checkpoint with the sequencer public key, through
/// `verify` (a Schnorr signature check under the key).
///
/// Returns [`CoreError::InvalidSignature`] if `verify` refuses it.
pub fn verify_checkpoint_signature<S>(
    signed_checkpoint: &SignedCheckpoint,
    sequencer_pubkey: &Buf32,
    verify: &S,
) -> (r: Result<(), CoreError>) where S: Fn(&SignedCheckpoint, &Buf32) -> bool,
    requires
        verify.requires((signed_checkpoint, sequencer_pubkey)),
    ensures
        verify.ensures((signed_checkpoint, sequencer_pubkey), r is Ok),
        r is Err ==> r == Err::<(), _>(CoreError::InvalidSignature),
{
    if verify(signed_checkpoint, sequencer_pubkey) {
        Ok(())
    } else {
        Err(CoreError::InvalidSignature)
    }
}

/// Verifies a checkpoint proof against its public parameters and the rollup verifying key.
///
/// Empty proofs are refused ([`CoreError::InvalidProof`]); any other proof is handed to
/// `verify` (the Groth16 verifier), whose refusal is [`CoreError::InvalidProof`] too.
pub fn verify_checkpoint_proof<P>(
    public_params: &CheckpointProofPublicParameters,
    proof: &[u8],
    rollup_vk: &[u8],
    verify: &P,
) -> (r: Result<(), CoreError>) where
    P: Fn(&CheckpointProofPublicParameters, &[u8], &[u8]) -> bool,

    requires
        verify.requires((public_params, proof, rollup_vk)),
    ensures
        proof@.len() == 0 ==> r == Err::<(), _>(CoreError::InvalidProof),
        proof@.len() > 0 ==> verify.ensures((public_params, proof, rollup_vk), r is Ok),
        r is Err ==> r == Err::<(), _>(CoreError::InvalidProof),
{
    if proof.len() == 0 {
        return Err(CoreError::InvalidProof);
    }
    if verify(public_params, proof, rollup_vk) {
        Ok(())
    } else {
        Err(CoreError::InvalidProof)
    }
}

} // verus!
