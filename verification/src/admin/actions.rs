//! The actions that the administration subprotocol's multisig authorities approve.

use vstd::prelude::*;

use crate::primitives::{Buf32, OperatorIdx};

verus! {

/// Identifier of an update, assigned in sequence by the administration state.
pub type UpdateId = u32;

/// The roles that hold a multisig authority.
#[derive(Debug, Clone, Copy, PartialEq, Eq)]
pub enum Role {
    StrataAdministrator,
    StrataSequencerManager,
}

/// Position of a role's authority in the state's list of authorities.
pub open spec fn role_index(role: Role) -> int {
    match role {
        Role::StrataAdministrator => 0,
        Role::StrataSequencerManager => 1,
    }
}

impl Role {
    /// Position of the role's authority in the state's list of authorities.
    pub fn index(&self) -> (r: usize)
        ensures
            r == role_index(*self),
    {
        match self {
            Role::StrataAdministrator => 0,
            Role::StrataSequencerManager => 1,
        }
    }
}

/// The kinds of proofs whose verifying keys can be updated.
#[derive(Debug, Clone, Copy, PartialEq, Eq)]
pub enum ProofType {
    Asm,
    OlStf,
}

/// A multisig configuration: the signers' keys and how many must sign.
#[derive(Debug, Clone, PartialEq, Eq)]
pub struct MultisigConfig {
    pub keys: Vec<Buf32>,
    pub threshold: u8,
}

/// A change to a multisig configuration.
#[derive(Debug, Clone, PartialEq, Eq)]
pub struct MultisigConfigUpdate {
    pub add_members: Vec<Buf32>,
    pub remove_members: Vec<Buf32>,
    pub new_threshold: u8,
}

/// Update of the multisig configuration of a role.
#[derive(Debug, Clone, PartialEq, Eq)]
pub struct MultisigUpdate {
    pub role: Role,
    pub config: MultisigConfigUpdate,
}

/// Update of a verifying key.
#[derive(Debug, Clone, PartialEq, Eq)]
pub struct VerifyingKeyUpdate {
    pub kind: ProofType,
    pub vk: Vec<u8>,
}

/// Update of the bridge operator set.
#[derive(Debug, Clone, PartialEq, Eq)]
pub struct OperatorSetUpdate {
    pub add_members: Vec<Buf32>,
    pub remove_members: Vec<OperatorIdx>,
}

/// Update of the sequencer key.
#[derive(Debug, Clone, PartialEq, Eq)]
pub struct SequencerUpdate {
    pub pub_key: Buf32,
}

/// An update that a multisig authority can approve.
#[derive(Debug, Clone, PartialEq, Eq)]
pub enum UpdateAction {
    Multisig(MultisigUpdate),
    VerifyingKey(VerifyingKeyUpdate),
    OperatorSet(OperatorSetUpdate),
    Sequencer(SequencerUpdate),
}

/// The role whose authority must approve an update: sequencer updates are approved by
/// the sequencer manager, every other update by the administrator.
pub open spec fn spec_required_role(action: UpdateAction) -> Role {
    match action {
        UpdateAction::Sequencer(_) => Role::StrataSequencerManager,
        _ => Role::StrataAdministrator,
    }
}

impl UpdateAction {
    /// The role whose authority must approve this update.
    pub fn required_role(&self) -> (r: Role)
        ensures
            r == spec_required_role(*self),
            *self is Sequencer ==> r == Role::StrataSequencerManager,
            !(*self is Sequencer) ==> r == Role::StrataAdministrator,
    {
        match self {
            UpdateAction::Sequencer(_) => Role::StrataSequencerManager,
            _ => Role::StrataAdministrator,
        }
    }
}

/// Cancellation of a queued update.
#[derive(Debug, Clone, Copy, PartialEq, Eq)]
pub struct CancelAction {
    pub target_id: UpdateId,
}

impl CancelAction {
    pub fn new(target_id: UpdateId) -> (r: Self)
        ensures
            r.target_id == target_id,
    {
        Self { target_id }
    }

    /// The id of the update to cancel.
    pub fn target_id(&self) -> (r: &UpdateId)
        ensures
            *r == self.target_id,
    {
        &self.target_id
    }
}

/// An action approved by a multisig: an update to queue, or the cancellation of a
/// queued update.
#[derive(Debug, Clone, PartialEq, Eq)]
pub enum MultisigAction {
    Update(UpdateAction),
    Cancel(CancelAction),
}

} // verus!
