//! OL core subprotocol: verification of checkpoints posted by the sequencer.

pub mod error;
pub mod types;
pub mod messages;
pub mod verification;
pub mod handler;
