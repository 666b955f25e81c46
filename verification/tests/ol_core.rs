use bitcoin::hashes::sha256;

use strata_asm::ol_core::error::CoreError;
use strata_asm::ol_core::handler::handle_checkpoint_transaction;
use strata_asm::ol_core::messages::{compute_rolling_hash, validate_l2_to_l1_messages};
use strata_asm::ol_core::types::{
    BatchInfo, Checkpoint, CheckpointProofPublicParameters, CoreGenesisConfig, CoreOLState,
    EpochSummary, L2ToL1Msg, SignedCheckpoint,
};
use strata_asm::ol_core::verification::{
    construct_checkpoint_proof_public_parameters, validate_state_transition,
    verify_checkpoint_proof,
};
use strata_asm::primitives::{L1BlockCommitment, L2BlockCommitment};

fn sha(data: &[u8]) -> [u8; 32] {
    bitcoin::hashes::Hash::to_byte_array(<sha256::Hash as bitcoin::hashes::Hash>::hash(data))
}

fn state() -> CoreOLState {
    CoreOLState {
        checkpoint_vk: vec![1, 2, 3],
        verified_checkpoint: EpochSummary {
            epoch: 4,
            terminal: L2BlockCommitment::new(100, [1; 32]),
            prev_terminal: L2BlockCommitment::new(50, [2; 32]),
            new_l1: L1BlockCommitment::new(800, [3; 32]),
            final_state: [4; 32],
        },
        last_checkpoint_ref: [3; 32],
        sequencer_pubkey: [9; 32],
    }
}

fn checkpoint(epoch: u64, slot: u64, height: u64) -> Checkpoint {
    Checkpoint {
        batch_info: BatchInfo {
            epoch,
            final_l1_block: L1BlockCommitment::new(height, [7; 32]),
            final_l2_block: L2BlockCommitment::new(slot, [8; 32]),
        },
        post_state_root: [5; 32],
        chainstate: vec![0xaa, 0xbb],
        proof: vec![1],
    }
}

#[test]
fn rolling_hash_matches_chained_sha256() {
    let c1 = [0x11u8; 32];
    let c2 = [0x22u8; 32];
    let h = compute_rolling_hash(vec![c1, c2], 7, 8).unwrap();

    let mut seed = Vec::new();
    seed.extend_from_slice(&7u64.to_be_bytes());
    seed.extend_from_slice(&8u64.to_be_bytes());
    let mut expected = sha(&seed);
    for c in [c1, c2] {
        let mut buf = expected.to_vec();
        buf.extend_from_slice(&c);
        expected = sha(&buf);
    }
    assert_eq!(h, expected);
    assert_ne!(h, c2);
}

#[test]
fn rolling_hash_errors() {
    assert_eq!(
        compute_rolling_hash(vec![], 9, 8),
        Err(CoreError::InvalidL1BlockHeight("start height 9 cannot be greater than end height 8".to_string()))
    );
    assert_eq!(compute_rolling_hash(vec![[0; 32]], 1, 2), Err(CoreError::L1ToL2RangeMismatch));
}

#[test]
fn state_transition_checks_each_progression() {
    let s = state();
    assert_eq!(validate_state_transition(&s, &checkpoint(5, 101, 801)), Ok(()));
    assert_eq!(
        validate_state_transition(&s, &checkpoint(6, 101, 801)),
        Err(CoreError::InvalidEpoch { expected: 5, actual: 6 })
    );
    assert_eq!(
        validate_state_transition(&s, &checkpoint(5, 100, 801)),
        Err(CoreError::InvalidL2BlockSlot { prev_slot: 100, new_slot: 100 })
    );
    assert_eq!(
        validate_state_transition(&s, &checkpoint(5, 101, 800)),
        Err(CoreError::InvalidL1BlockHeight(
            "new L1 height 800 must be greater than previous height 800".to_string()
        ))
    );
}

#[test]
fn public_parameters_from_state_checkpoint_and_range_commitments() {
    let s = state();
    let cp = checkpoint(5, 101, 801);
    let commitments = vec![[0x31u8; 32], [0x32u8; 32]];
    let p = construct_checkpoint_proof_public_parameters(&s, &cp, commitments.clone()).unwrap();
    assert_eq!(p.epoch_summary.epoch, 5);
    assert_eq!(p.epoch_summary.prev_terminal, s.verified_checkpoint.terminal);
    assert_eq!(p.epoch_summary.new_l1, cp.batch_info.final_l1_block);
    assert_eq!(p.epoch_summary.final_state, cp.post_state_root);
    assert_eq!(p.prev_l1_ref, s.verified_checkpoint.new_l1);
    assert_eq!(p.state_diff_hash, sha(&cp.chainstate));
    assert!(p.l2_to_l1_msgs.is_empty());
    assert_eq!(p.l1_to_l2_msgs_range_commitment_hash, compute_rolling_hash(commitments, 800, 801).unwrap());
}

#[test]
fn public_parameters_need_the_l1_commitments_of_the_range() {
    let s = state();
    assert_eq!(
        construct_checkpoint_proof_public_parameters(&s, &checkpoint(5, 101, 801), vec![[0; 32]]),
        Err(CoreError::L1ToL2RangeMismatch)
    );
    assert_eq!(
        construct_checkpoint_proof_public_parameters(&s, &checkpoint(7, 101, 801), vec![]),
        Err(CoreError::InvalidEpoch { expected: 5, actual: 7 })
    );
}

#[test]
fn l2_to_l1_message_validation_reports_first_bad_message() {
    let ok = L2ToL1Msg { ty: 1, body: vec![1] };
    let empty = L2ToL1Msg { ty: 2, body: vec![] };
    let high = L2ToL1Msg { ty: 9, body: vec![1] };
    assert_eq!(validate_l2_to_l1_messages(&[ok.clone(), L2ToL1Msg { ty: 0, body: vec![] }], 3), Ok(()));
    assert_eq!(
        validate_l2_to_l1_messages(&[ok.clone(), empty, high.clone()], 3),
        Err(CoreError::InvalidL2ToL1Msg { index: 1, reason: "required non-empty message body".to_string() })
    );
    assert_eq!(
        validate_l2_to_l1_messages(&[high], 3),
        Err(CoreError::InvalidL2ToL1Msg { index: 0, reason: "valid message type".to_string() })
    );
}

#[test]
fn empty_proof_is_invalid() {
    let params = CheckpointProofPublicParameters {
        epoch_summary: state().verified_checkpoint,
        state_diff_hash: [0; 32],
        l2_to_l1_msgs: vec![],
        prev_l1_ref: L1BlockCommitment::new(1, [0; 32]),
        l1_to_l2_msgs_range_commitment_hash: [0; 32],
    };
    let yes = |_p: &CheckpointProofPublicParameters, _pr: &[u8], _vk: &[u8]| true;
    assert_eq!(verify_checkpoint_proof(&params, &[], &[1], &yes), Err(CoreError::InvalidProof));
    assert_eq!(verify_checkpoint_proof(&params, &[1], &[1], &yes), Ok(()));
}

fn good_vk(_vk: &[u8]) -> Result<(), String> {
    Ok(())
}

fn range() -> Vec<[u8; 32]> {
    vec![[0x31u8; 32], [0x32u8; 32]]
}

#[test]
fn checkpoint_with_bad_signature_leaves_state_unchanged() {
    let mut s = state();
    let before = s.clone();
    let signed = SignedCheckpoint { checkpoint: checkpoint(5, 101, 801), signature: vec![0; 64] };
    let no = |_c: &SignedCheckpoint, _k: &[u8; 32]| false;
    let yes = |_p: &CheckpointProofPublicParameters, _pr: &[u8], _vk: &[u8]| true;
    assert_eq!(
        handle_checkpoint_transaction(&mut s, &signed, range(), &no, &good_vk, &yes, 10),
        Err(CoreError::InvalidSignature)
    );
    assert_eq!(s, before);
}

#[test]
fn checkpoint_without_range_commitments_is_refused() {
    let mut s = state();
    let before = s.clone();
    let signed = SignedCheckpoint { checkpoint: checkpoint(5, 101, 801), signature: vec![0; 64] };
    let yes_sig = |_c: &SignedCheckpoint, _k: &[u8; 32]| true;
    let yes = |_p: &CheckpointProofPublicParameters, _pr: &[u8], _vk: &[u8]| true;
    assert_eq!(
        handle_checkpoint_transaction(&mut s, &signed, vec![], &yes_sig, &good_vk, &yes, 10),
        Err(CoreError::L1ToL2RangeMismatch)
    );
    assert_eq!(s, before);
}

#[test]
fn checkpoint_with_rejected_proof_leaves_state_unchanged() {
    let mut s = state();
    let before = s.clone();
    let signed = SignedCheckpoint { checkpoint: checkpoint(5, 101, 801), signature: vec![0; 64] };
    let yes_sig = |_c: &SignedCheckpoint, _k: &[u8; 32]| true;
    let no = |_p: &CheckpointProofPublicParameters, _pr: &[u8], _vk: &[u8]| false;
    assert_eq!(
        handle_checkpoint_transaction(&mut s, &signed, range(), &yes_sig, &good_vk, &no, 10),
        Err(CoreError::InvalidProof)
    );
    assert_eq!(s, before);
}

#[test]
fn checkpoint_with_unreadable_key_is_refused() {
    let mut s = state();
    let signed = SignedCheckpoint { checkpoint: checkpoint(5, 101, 801), signature: vec![0; 64] };
    let yes_sig = |_c: &SignedCheckpoint, _k: &[u8; 32]| true;
    let bad_vk = |_vk: &[u8]| -> Result<(), String> { Err("bad key".to_string()) };
    let yes = |_p: &CheckpointProofPublicParameters, _pr: &[u8], _vk: &[u8]| true;
    assert_eq!(
        handle_checkpoint_transaction(&mut s, &signed, range(), &yes_sig, &bad_vk, &yes, 10),
        Err(CoreError::InvalidVerifyingKeyFormat("bad key".to_string()))
    );
}

#[test]
fn accepted_checkpoint_advances_the_state() {
    let mut s = state();
    let before = s.clone();
    let cp = checkpoint(5, 101, 801);
    let signed = SignedCheckpoint { checkpoint: cp.clone(), signature: vec![0; 64] };
    let yes_sig = |_c: &SignedCheckpoint, _k: &[u8; 32]| true;
    let expected = construct_checkpoint_proof_public_parameters(&s, &cp, range()).unwrap();
    let verify = |p: &CheckpointProofPublicParameters, pr: &[u8], vk: &[u8]| {
        *p == expected && pr == [1u8] && vk == [1u8, 2, 3]
    };
    assert_eq!(handle_checkpoint_transaction(&mut s, &signed, range(), &yes_sig, &good_vk, &verify, 10), Ok(()));
    assert_eq!(s.verified_checkpoint, expected.epoch_summary);
    assert_eq!(s.last_checkpoint_ref, [7; 32]);
    assert_eq!(s.checkpoint_vk, before.checkpoint_vk);
    assert_eq!(s.sequencer_pubkey, before.sequencer_pubkey);
}

#[test]
fn next_epoch_summary_follows_previous() {
    let prev = state().verified_checkpoint;
    let next = prev.create_next_epoch_summary(
        L2BlockCommitment::new(101, [8; 32]),
        L1BlockCommitment::new(801, [7; 32]),
        [5; 32],
    );
    assert_eq!(next.epoch, 5);
    assert_eq!(next.prev_terminal, prev.terminal);
    assert_eq!(next.terminal.slot, 101);
}

#[test]
fn genesis_config_keeps_fields() {
    let c = CoreGenesisConfig::new(vec![1], L1BlockCommitment::new(3, [0; 32]), [6; 32]).unwrap();
    assert_eq!(c.checkpoint_vk, vec![1]);
    assert_eq!(c.genesis_l1_block.height, 3);
}

#[test]
fn set_checkpoint_vk_replaces_key() {
    let mut s = state();
    s.set_checkpoint_vk(&vec![7, 7]).unwrap();
    assert_eq!(s.checkpoint_vk, vec![7, 7]);
}
