//! Handling of checkpoint transactions.

use vstd::prelude::*;

use crate::ol_core::error::CoreError;
use crate::ol_core::messages::{validate_l1_to_l2_messages, validate_l2_to_l1_messages};
use crate::ol_core::types::{
    apply_checkpoint_to_state, Checkpoint, CheckpointProofPublicParameters, CoreOLState,
    SignedCheckpoint,
};
use crate::ol_core::verification::{
    construct_checkpoint_proof_public_parameters, l1_range_count, public_params_match,
    transition_checked, transition_valid, validate_state_transition, verify_checkpoint_proof,
    verify_checkpoint_signature,
};
use crate::primitives::Buf32;

verus! {

/// Whether the checkpoint follows the state's verified epoch summary and the commitments
/// cover its L1 range, so that its proof's public parameters can be constructed.
pub open spec fn params_ready(state: CoreOLState, checkpoint: Checkpoint, commitments: Seq<Buf32>) -> bool {
    &&& transition_valid(state.verified_checkpoint, checkpoint.batch_info)
    &&& commitments.len() == l1_range_count(state.verified_checkpoint, checkpoint.batch_info)
}

/// Whether `check` gave `v` when reading the verifying key `vk`.
pub open spec fn vk_read<K>(check: K, vk: Seq<u8>, v: Result<(), String>) -> bool where
    K: Fn(&[u8]) -> Result<(), String>,
 {
    exists|b: &[u8]| #[trigger] check.ensures((b,), v) && b@ == vk
}

/// Whether `verify` gave `accepted` for the checkpoint's proof, under the state's verifying
/// key, against the public parameters constructed from the state, the checkpoint and the
/// commitments ([`public_params_match`]).
pub open spec fn proof_checked<P>(
    verify: P,
    state: CoreOLState,
    checkpoint: Checkpoint,
    commitments: Seq<Buf32>,
    accepted: bool,
) -> bool where P: Fn(&CheckpointProofPublicParameters, &[u8], &[u8]) -> bool {
    exists|p: CheckpointProofPublicParameters, pr: &[u8], vk: &[u8]|
        #![trigger public_params_match(p, state, checkpoint, commitments), verify.ensures((&p, pr, vk), accepted)]
        public_params_match(p, state, checkpoint, commitments) && pr@ == checkpoint.proof@ && vk@
            == state.checkpoint_vk@ && verify.ensures((&p, pr, vk), accepted)
}

/// Handles a checkpoint extracted from a checkpoint transaction.
///
/// 1. The sequencer signature must verify under the state's sequencer key
///    (`verify_signature`; [`CoreError::InvalidSignature`]).
/// 2. The checkpoint must follow the verified epoch summary
///    ([`crate::ol_core::verification::validate_state_transition`]).
/// 3. The expected proof public parameters are constructed from the trusted state and
///    `l1_commitments`, the commitments of the L1 blocks from the previous to the new L1
///    height ([`construct_checkpoint_proof_public_parameters`]).
/// 4. The state's verifying key must be readable (`check_vk`;
///    [`CoreError::InvalidVerifyingKeyFormat`] with its message).
/// 5. The proof must be non-empty and verify against the public parameters and the
///    verifying key (`verify_proof`; [`CoreError::InvalidProof`]).
/// 6. The L1-to-L2 range and the L2-to-L1 messages are validated (types at most
///    `max_msg_type`).
/// 7. The new epoch summary and the checkpoint's final L1 block become the state's verified
///    checkpoint and checkpoint reference.
///
/// On any error the state is unchanged.
pub fn handle_checkpoint_transaction<S, K, P>(
    state: &mut CoreOLState,
    signed_checkpoint: &SignedCheckpoint,
    l1_commitments: Vec<Buf32>,
    verify_signature: &S,
    check_vk: &K,
    verify_proof: &P,
    max_msg_type: u16,
) -> (r: Result<(), CoreError>) where
    S: Fn(&SignedCheckpoint, &Buf32) -> bool,
    K: Fn(&[u8]) -> Result<(), String>,
    P: Fn(&CheckpointProofPublicParameters, &[u8], &[u8]) -> bool,

    requires
        forall|c: &SignedCheckpoint, k: &Buf32| verify_signature.requires((c, k)),
        forall|vk: &[u8]| check_vk.requires((vk,)),
        forall|p: &CheckpointProofPublicParameters, pr: &[u8], vk: &[u8]|
            verify_proof.requires((p, pr, vk)),
        old(state).verified_checkpoint.epoch < u64::MAX,
        signed_checkpoint.checkpoint.batch_info.final_l1_block.height > old(
            state,
        ).verified_checkpoint.new_l1.height ==> signed_checkpoint.checkpoint.batch_info.final_l1_block.height
            - old(state).verified_checkpoint.new_l1.height < u64::MAX,
    ensures
        r is Err ==> *final(state) == *old(state),
        r == Err::<(), _>(CoreError::InvalidSignature) ==> verify_signature.ensures(
            (signed_checkpoint, &old(state).sequencer_pubkey),
            false,
        ),
        r != Err::<(), _>(CoreError::InvalidSignature) ==> verify_signature.ensures(
            (signed_checkpoint, &old(state).sequencer_pubkey),
            true,
        ),
        r != Err::<(), _>(CoreError::InvalidSignature) ==> transition_checked(
            old(state).verified_checkpoint,
            signed_checkpoint.checkpoint.batch_info,
            r,
        ),
        r != Err::<(), _>(CoreError::InvalidSignature) && transition_valid(
            old(state).verified_checkpoint,
            signed_checkpoint.checkpoint.batch_info,
        ) && l1_commitments@.len() != l1_range_count(
            old(state).verified_checkpoint,
            signed_checkpoint.checkpoint.batch_info,
        ) ==> r == Err::<(), _>(CoreError::L1ToL2RangeMismatch),
        r is Err && r->Err_0 is InvalidVerifyingKeyFormat ==> params_ready(
            *old(state),
            signed_checkpoint.checkpoint,
            l1_commitments@,
        ),
        r matches Err(CoreError::InvalidVerifyingKeyFormat(m)) ==> vk_read(
            *check_vk,
            old(state).checkpoint_vk@,
            Err(m),
        ),
        r is Ok ==> exists|v: Result<(), String>| v is Ok && vk_read(*check_vk, old(state).checkpoint_vk@, v),
        r == Err::<(), _>(CoreError::InvalidProof) ==> params_ready(
            *old(state),
            signed_checkpoint.checkpoint,
            l1_commitments@,
        ) && (signed_checkpoint.checkpoint.proof@.len() == 0 || proof_checked(
            *verify_proof,
            *old(state),
            signed_checkpoint.checkpoint,
            l1_commitments@,
            false,
        )),
        r is Err ==> r == Err::<(), _>(CoreError::InvalidSignature) || !params_ready(
            *old(state),
            signed_checkpoint.checkpoint,
            l1_commitments@,
        ) || r->Err_0 is InvalidVerifyingKeyFormat || r == Err::<(), _>(CoreError::InvalidProof),
        r is Ok ==> params_ready(*old(state), signed_checkpoint.checkpoint, l1_commitments@),
        r is Ok ==> signed_checkpoint.checkpoint.proof@.len() > 0,
        r is Ok ==> proof_checked(
            *verify_proof,
            *old(state),
            signed_checkpoint.checkpoint,
            l1_commitments@,
            true,
        ),
        r is Ok ==> final(state).verified_checkpoint == old(state).verified_checkpoint.spec_next(
            signed_checkpoint.checkpoint.batch_info.final_l2_block,
            signed_checkpoint.checkpoint.batch_info.final_l1_block,
            signed_checkpoint.checkpoint.post_state_root,
        ),
        r is Ok ==> final(state).last_checkpoint_ref
            == signed_checkpoint.checkpoint.batch_info.final_l1_block.blkid,
        r is Ok ==> final(state).checkpoint_vk == old(state).checkpoint_vk,
        r is Ok ==> final(state).sequencer_pubkey == old(state).sequencer_pubkey,
{
    let ghost cs = l1_commitments@;
    match verify_checkpoint_signature(signed_checkpoint, &state.sequencer_pubkey, verify_signature) {
        Ok(()) => {},
        Err(e) => return Err(e),
    }
    let checkpoint = signed_checkpoint.checkpoint();
    match validate_state_transition(state, checkpoint) {
        Ok(()) => {},
        Err(e) => return Err(e),
    }
    let public_params = match construct_checkpoint_proof_public_parameters(
        state,
        checkpoint,
        l1_commitments,
    ) {
        Ok(p) => p,
        Err(e) => return Err(e),
    };
    let rollup_vk = state.checkpoint_vk.as_slice();
    let vk_res = check_vk(rollup_vk);
    match vk_res {
        Ok(()) => {
            assert(check_vk.ensures((rollup_vk,), vk_res));
            assert(vk_read(*check_vk, state.checkpoint_vk@, vk_res));
        },
        Err(m) => {
            assert(check_vk.ensures((rollup_vk,), Err(m)));
            assert(params_ready(*state, *checkpoint, cs));
            assert(vk_read(*check_vk, state.checkpoint_vk@, Err(m)));
            return Err(CoreError::InvalidVerifyingKeyFormat(m));
        },
    }
    let proof = checkpoint.proof.as_slice();
    let proof_res = verify_checkpoint_proof(&public_params, proof, rollup_vk, verify_proof);
    proof {
        if proof@.len() > 0 {
            assert(verify_proof.ensures((&public_params, proof, rollup_vk), proof_res is Ok));
            assert(public_params_match(public_params, *state, *checkpoint, cs));
            assert(proof_checked(*verify_proof, *state, *checkpoint, cs, proof_res is Ok));
        }
    }
    match proof_res {
        Ok(()) => {},
        Err(e) => return Err(e),
    }
    let prev_l1_height = state.verified_checkpoint.new_l1().height();
    let new_l1_height = checkpoint.batch_info.final_l1_block.height();
    let _ = validate_l1_to_l2_messages(
        prev_l1_height,
        new_l1_height,
        &public_params.l1_to_l2_msgs_range_commitment_hash,
    );
    match validate_l2_to_l1_messages(public_params.l2_to_l1_msgs.as_slice(), max_msg_type) {
        Ok(()) => {},
        Err(e) => return Err(e),
    }
    apply_checkpoint_to_state(state, public_params.epoch_summary, checkpoint);
    Ok(())
}

} // verus!
