//! Log entries emitted by subprotocols.

use vstd::prelude::*;

verus! {

/// A log entry emitted during the state transition: its raw bytes.
///
/// The bytes may or may not be a structured message with a type header; the entry itself
/// makes no claim either way.
#[derive(Debug, Clone, PartialEq, Eq)]
pub struct AsmLogEntry(pub Vec<u8>);

impl View for AsmLogEntry {
    type V = Seq<u8>;

    open spec fn view(&self) -> Seq<u8> {
        self.0@
    }
}

impl AsmLogEntry {
    /// Creates a log entry directly from raw bytes.
    pub fn from_raw(bytes: Vec<u8>) -> (r: Self)
        ensures
            r@ == bytes@,
    {
        AsmLogEntry(bytes)
    }

    /// The raw bytes of this log entry.
    pub fn as_bytes(&self) -> (r: &[u8])
        ensures
            r@ == self@,
    {
        self.0.as_slice()
    }

    /// Consumes the log entry and returns its raw bytes.
    pub fn into_bytes(self) -> (r: Vec<u8>)
        ensures
            r@ == self@,
    {
        self.0
    }
}

} // verus!
