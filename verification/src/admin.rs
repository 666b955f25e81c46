//! Administration subprotocol: multisig authorities approve updates, which are queued
//! until their activation height and can be cancelled before it.

pub mod actions;
pub mod error;
pub mod authority;
pub mod queued_update;
pub mod state;
pub mod handler;
pub mod laws;
