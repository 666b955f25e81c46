//! L1-to-L2 message range commitments and L2-to-L1 message validation.

use vstd::prelude::*;

use crate::hash::{extend_bytes, push_u64_be, sha256, spec_sha256, u64_be_bytes};
use crate::ol_core::error::{l1_range_reversed_message, CoreError};
use crate::ol_core::types::{Checkpoint, L2ToL1Msg};
use crate::primitives::Buf32;

verus! {

/// The rolling hash over block commitments: it starts from the hash of the range's
/// bounds (each as eight big-endian bytes), and each commitment `c` turns the hash `h`
/// into `SHA256(h || c)`.
pub open spec fn rolling_hash(commitments: Seq<Seq<u8>>, start: u64, end: u64) -> Seq<u8>
    decreases commitments.len(),
{
    if commitments.len() == 0 {
        spec_sha256(u64_be_bytes(start) + u64_be_bytes(end))
    } else {
        spec_sha256(rolling_hash(commitments.drop_last(), start, end) + commitments.last())
    }
}

/// The commitments as byte sequences.
pub open spec fn commitments_view(commitments: Seq<Buf32>) -> Seq<Seq<u8>> {
    commitments.map_values(|c: Buf32| c@)
}

/// Computes the rolling hash over L1 block commitments for the L1 height range
/// `[start_height, end_height]`.
///
/// Returns [`CoreError::InvalidL1BlockHeight`] if `start_height > end_height`, and
/// [`CoreError::L1ToL2RangeMismatch`] if the number of commitments is not the number of
/// heights in the range.
pub fn compute_rolling_hash(l1_commitments: Vec<Buf32>, start_height: u64, end_height: u64) -> (r:
    Result<Buf32, CoreError>)
    requires
        start_height <= end_height ==> end_height - start_height < u64::MAX,
    ensures
        start_height > end_height ==> r matches Err(CoreError::InvalidL1BlockHeight(_)),
        start_height <= end_height && l1_commitments@.len() != ((end_height - start_height + 1) as u64) as usize
            ==> r == Err::<Buf32, _>(CoreError::L1ToL2RangeMismatch),
        r is Ok <==> start_height <= end_height && l1_commitments@.len() == ((end_height - start_height
            + 1) as u64) as usize,
        r matches Ok(h) ==> h@ == rolling_hash(
            commitments_view(l1_commitments@),
            start_height,
            end_height,
        ),
{
    if start_height > end_height {
        return Err(CoreError::InvalidL1BlockHeight(l1_range_reversed_message(start_height, end_height)));
    }
    let count = (end_height - start_height + 1) as usize;
    if l1_commitments.len() != count {
        return Err(CoreError::L1ToL2RangeMismatch);
    }
    Ok(compute_rolling_hash_from_range(&l1_commitments, start_height, end_height))
}

/// Computes the rolling hash of a range whose commitments have been checked.
fn compute_rolling_hash_from_range(l1_commitments: &Vec<Buf32>, start_height: u64, end_height: u64) -> (r:
    Buf32)
    ensures
        r@ == rolling_hash(commitments_view(l1_commitments@), start_height, end_height),
{
    let ghost cs = commitments_view(l1_commitments@);
    let mut rolling_state: Vec<u8> = Vec::new();
    push_u64_be(&mut rolling_state, start_height);
    push_u64_be(&mut rolling_state, end_height);
    let mut current_hash = sha256(rolling_state.as_slice());
    proof {
        assert(rolling_state@ =~= u64_be_bytes(start_height) + u64_be_bytes(end_height));
        assert(cs.subrange(0, 0) =~= Seq::<Seq<u8>>::empty());
    }
    let n = l1_commitments.len();
    let mut i: usize = 0;
    while i < n
        invariant
            n == l1_commitments@.len(),
            cs == commitments_view(l1_commitments@),
            0 <= i <= n,
            current_hash@ == rolling_hash(cs.subrange(0, i as int), start_height, end_height),
        decreases n - i,
    {
        let mut data: Vec<u8> = Vec::new();
        extend_bytes(&mut data, current_hash.as_slice());
        extend_bytes(&mut data, l1_commitments[i].as_slice());
        let next = sha256(data.as_slice());
        proof {
            let pre = cs.subrange(0, i as int);
            let post = cs.subrange(0, i + 1);
            assert(post.drop_last() =~= pre);
            assert(post.last() == l1_commitments@[i as int]@);
        }
        current_hash = next;
        i = i + 1;
    }
    proof {
        assert(cs.subrange(0, n as int) =~= cs);
    }
    current_hash
}

/// Validates L1-to-L2 message range commitments. No check is defined yet: every range
/// is accepted.
pub fn validate_l1_to_l2_messages(
    start_height: u64,
    end_height: u64,
    commitment_hash: &Buf32,
) -> (r: Result<(), CoreError>)
    ensures
        r is Ok,
{
    Ok(())
}

/// Extracts the L2-to-L1 messages of a checkpoint. No message kind is defined yet: the
/// result is always empty.
pub fn extract_l2_to_l1_messages(checkpoint: &Checkpoint) -> (r: Result<Vec<L2ToL1Msg>, CoreError>)
    ensures
        r matches Ok(v) && v@.len() == 0,
{
    Ok(Vec::new())
}

/// Whether an L2-to-L1 message is acceptable: its type is at most `max_type`, and its body
/// is not empty unless its type is 0.
pub open spec fn l2_to_l1_msg_ok(m: L2ToL1Msg, max_type: u16) -> bool {
    m.ty <= max_type && !(m.body@.len() == 0 && m.ty != 0)
}

/// The reason reported for an unacceptable message.
pub open spec fn l2_to_l1_msg_reason(m: L2ToL1Msg, max_type: u16) -> Seq<char> {
    if m.ty > max_type {
        "valid message type"@
    } else {
        "required non-empty message body"@
    }
}

/// Validates the structure and content of L2-to-L1 messages.
///
/// The first message that is not acceptable ([`l2_to_l1_msg_ok`]) gives
/// [`CoreError::InvalidL2ToL1Msg`] with its index and the reason.
pub fn validate_l2_to_l1_messages(messages: &[L2ToL1Msg], max_type: u16) -> (r: Result<
    (),
    CoreError,
>)
    ensures
        r is Ok <==> forall|i: int| 0 <= i < messages@.len() ==> l2_to_l1_msg_ok(#[trigger] messages@[i], max_type),
        (forall|i: int|
            0 <= i < messages@.len() ==> #[trigger] messages@[i].ty <= max_type && (
            messages@[i].body@.len() > 0 || messages@[i].ty == 0)) ==> r is Ok,
        r matches Err(CoreError::InvalidL2ToL1Msg { index, reason }) ==> index < messages@.len() && (
        reason@ == "valid message type"@ <==> messages@[index as int].ty > max_type),
        r matches Err(e) ==> exists|i: int|
            0 <= i < messages@.len() && !l2_to_l1_msg_ok(messages@[i], max_type) && (forall|j: int|
                0 <= j < i ==> l2_to_l1_msg_ok(#[trigger] messages@[j], max_type)) && (e matches CoreError::InvalidL2ToL1Msg {
                index,
                reason,
            } && index == i && reason@ == l2_to_l1_msg_reason(messages@[i], max_type)),
{
    let n = messages.len();
    let mut idx: usize = 0;
    while idx < n
        invariant
            n == messages@.len(),
            0 <= idx <= n,
            forall|j: int| 0 <= j < idx ==> l2_to_l1_msg_ok(#[trigger] messages@[j], max_type),
        decreases n - idx,
    {
        let msg = &messages[idx];
        let ty = msg.ty;
        if ty > max_type {
            return Err(
                CoreError::InvalidL2ToL1Msg { index: idx, reason: "valid message type".to_owned() },
            );
        }
        if msg.body.len() == 0 && ty != 0 {
            proof {
                reveal_strlit("valid message type");
                reveal_strlit("required non-empty message body");
                assert("valid message type"@.len() != "required non-empty message body"@.len());
            }
            return Err(
                CoreError::InvalidL2ToL1Msg {
                    index: idx,
                    reason: "required non-empty message body".to_owned(),
                },
            );
        }
        idx = idx + 1;
    }
    Ok(())
}

/// An L2-to-L1 message is acceptable exactly when its type is at most the maximum type
/// and its body is non-empty unless its type is 0; an unacceptable message is refused for
/// its type exactly when the type exceeds the maximum.
pub proof fn lemma_l2_to_l1_msg_acceptance(m: L2ToL1Msg, max_type: u16)
    ensures
        l2_to_l1_msg_ok(m, max_type) <==> m.ty <= max_type && (m.body@.len() > 0 || m.ty == 0),
        !l2_to_l1_msg_ok(m, max_type) ==> (l2_to_l1_msg_reason(m, max_type) == "valid message type"@
            <==> m.ty > max_type),
{
    reveal_strlit("valid message type");
    reveal_strlit("required non-empty message body");
    assert("valid message type"@.len() != "required non-empty message body"@.len());
}

} // verus!
