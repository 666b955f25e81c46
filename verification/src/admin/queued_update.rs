//! Updates waiting in the queue for their activation height.

use vstd::prelude::*;

use crate::admin::actions::{UpdateAction, UpdateId};

verus! {

/// An update queued for execution at its activation height.
#[derive(Debug, Clone, PartialEq, Eq)]
pub struct QueuedUpdate {
    id: UpdateId,
    action: UpdateAction,
    activation_height: u64,
}

impl QueuedUpdate {
    pub closed spec fn spec_id(&self) -> UpdateId {
        self.id
    }

    pub closed spec fn spec_action(&self) -> UpdateAction {
        self.action
    }

    pub closed spec fn spec_activation_height(&self) -> u64 {
        self.activation_height
    }

    pub fn new(id: UpdateId, action: UpdateAction, activation_height: u64) -> (r: Self)
        ensures
            r.spec_id() == id,
            r.spec_action() == action,
            r.spec_activation_height() == activation_height,
    {
        Self { id, action, activation_height }
    }

    pub fn id(&self) -> (r: &UpdateId)
        ensures
            *r == self.spec_id(),
    {
        &self.id
    }

    pub fn action(&self) -> (r: &UpdateAction)
        ensures
            *r == self.spec_action(),
    {
        &self.action
    }

    pub fn activation_height(&self) -> (r: u64)
        ensures
            r == self.spec_activation_height(),
    {
        self.activation_height
    }

    pub fn into_id_and_action(self) -> (r: (UpdateId, UpdateAction))
        ensures
            r.0 == self.spec_id(),
            r.1 == self.spec_action(),
    {
        (self.id, self.action)
    }
}

} // verus!
