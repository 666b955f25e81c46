//! The log types the subprotocols emit, and their type IDs.

pub mod constants;
pub mod types;
