//! Plain-value models of the identifiers, commitments and byte buffers that the
//! ASM logic reads.

use vstd::prelude::*;

verus! {

/// Identifier of a subprotocol within the ASM.
pub type SubprotocolId = u8;

/// Type of a transaction within a subprotocol.
pub type TxType = u8;

/// Type identifier of a log message.
pub type TypeId = u16;

/// Index of a bridge operator.
pub type OperatorIdx = u32;

/// A 32-byte buffer (hashes, transaction ids, x-only public keys).
pub type Buf32 = [u8; 32];

/// Compares two byte slices for equality.
pub fn bytes_eq(a: &[u8], b: &[u8]) -> (r: bool)
    ensures
        r == (a@ == b@),
{
    if a.len() != b.len() {
        return false;
    }
    let n = a.len();
    let mut i: usize = 0;
    while i < n
        invariant
            n == a@.len(),
            n == b@.len(),
            0 <= i <= n,
            forall|k: int| 0 <= k < i ==> a@[k] == b@[k],
        decreases n - i,
    {
        if a[i] != b[i] {
            return false;
        }
        i = i + 1;
    }
    assert(a@ =~= b@);
    true
}

/// Compares two 32-byte buffers for equality.
pub fn buf32_eq(a: &Buf32, b: &Buf32) -> (r: bool)
    ensures
        r == (a@ == b@),
{
    bytes_eq(a.as_slice(), b.as_slice())
}

/// Reference to a Bitcoin transaction output (transaction id and output index).
#[derive(Debug, Clone, Copy, PartialEq, Eq)]
pub struct OutputRef {
    pub txid: Buf32,
    pub vout: u32,
}

/// Commitment to an L1 (Bitcoin) block: its height and block id.
#[derive(Debug, Clone, Copy, PartialEq, Eq)]
pub struct L1BlockCommitment {
    pub height: u64,
    pub blkid: Buf32,
}

impl L1BlockCommitment {
    pub fn new(height: u64, blkid: Buf32) -> (r: Self)
        ensures
            r.height == height,
            r.blkid == blkid,
    {
        Self { height, blkid }
    }

    pub fn height(&self) -> (r: u64)
        ensures
            r == self.height,
    {
        self.height
    }
}

/// Commitment to an L2 block: its slot and block id.
#[derive(Debug, Clone, Copy, PartialEq, Eq)]
pub struct L2BlockCommitment {
    pub slot: u64,
    pub blkid: Buf32,
}

impl L2BlockCommitment {
    pub fn new(slot: u64, blkid: Buf32) -> (r: Self)
        ensures
            r.slot == slot,
            r.blkid == blkid,
    {
        Self { slot, blkid }
    }

    pub fn slot(&self) -> (r: u64)
        ensures
            r == self.slot,
    {
        self.slot
    }
}

} // verus!
