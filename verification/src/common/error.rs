//! Errors of the subprotocol framework.

use vstd::prelude::*;

use crate::primitives::{SubprotocolId, TypeId};

verus! {

/// A generic "expected vs actual" error.
#[derive(Debug, Clone, PartialEq, Eq)]
pub struct Mismatched<T> {
    /// The value that was expected.
    pub expected: T,
    /// The value that was actually encountered.
    pub actual: T,
}

/// Errors that can occur while working with ASM subprotocols.
///
/// Where a variant carries the failure of an encoder or decoder, it holds that failure's
/// message.
#[derive(Debug, Clone, PartialEq, Eq)]
pub enum AsmError {
    /// Subprotocol ID of a decoded section did not match the expected subprotocol ID.
    SubprotoIdMismatch(Mismatched<SubprotocolId>),
    /// Type ID of a decoded message did not match the expected type ID.
    TypeIdMismatch(Mismatched<TypeId>),
    /// The requested subprotocol ID was not found.
    InvalidSubprotocol(SubprotocolId),
    /// The requested subprotocol state ID was not found.
    InvalidSubprotocolState(SubprotocolId),
    /// Failed to deserialize the state of the given subprotocol.
    Deserialization(SubprotocolId, String),
    /// Failed to serialize the state of the given subprotocol.
    Serialization(SubprotocolId, String),
    /// Failed to deserialize data for the given type ID.
    TypeIdDeserialization(TypeId, String),
    /// Failed to serialize data for the given type ID.
    TypeIdSerialization(TypeId, String),
    /// The L1 header does not follow consensus rules.
    InvalidL1Header(String),
    /// A message was not well formed.
    MsgFmtError(String),
    /// Missing genesis configuration for a subprotocol.
    MissingGenesisConfig(SubprotocolId),
}

} // verus!
