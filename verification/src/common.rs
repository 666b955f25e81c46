//! Types shared by every subprotocol: errors, log entries, the genesis configuration
//! registry, and the interfaces through which subprotocols relay messages, emit logs and
//! request auxiliary inputs.

pub mod error;
pub mod genesis;
pub mod log;
pub mod relay;
