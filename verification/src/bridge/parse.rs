//! Parsing of deposit transactions.
//!
//! The auxiliary data of a deposit transaction's SPS-50 tag is laid out as
//! `[deposit index: 4 bytes, big-endian][DRT tapscript merkle root: 32 bytes][destination address: rest]`,
//! and the deposited funds are in output 1.

use vstd::prelude::*;

use crate::bridge::constants::{DEPOSIT_OUTPUT_INDEX, DEPOSIT_TX_TYPE};
use crate::bridge::errors::DepositTxParseError;
use crate::btc::{compute_txid, spec_txid, TxInputRef};
use crate::primitives::{Buf32, OutputRef};

verus! {

/// Length of the deposit index field in the auxiliary data (4 bytes for u32).
pub const DEPOSIT_IDX_LEN: usize = 4;

/// Length of the tapscript root hash in the auxiliary data (32 bytes).
pub const TAPSCRIPT_ROOT_LEN: usize = 32;

/// Minimum length of auxiliary data (fixed fields only, excluding the destination address).
pub const MIN_DEPOSIT_TX_AUX_DATA_LEN: usize = 36;

/// Information extracted from a Bitcoin deposit transaction.
#[derive(Debug, Clone, PartialEq, Eq)]
pub struct DepositInfo {
    /// The index of the deposit in the bridge's deposit table.
    pub deposit_idx: u32,
    /// The amount of Bitcoin deposited, in satoshis.
    pub amt: u64,
    /// The destination address for the deposit.
    pub address: Vec<u8>,
    /// The outpoint of the deposit output.
    pub outpoint: OutputRef,
    /// The merkle root of the script tree of the Deposit Request Transaction (DRT) spent.
    pub drt_tapscript_merkle_root: Buf32,
}

/// The big-endian value of four bytes.
pub open spec fn be_u32(b: Seq<u8>) -> int {
    b[0] * 0x1000000 + b[1] * 0x10000 + b[2] * 0x100 + b[3]
}

/// The four big-endian bytes of a `u32`.
pub open spec fn u32_be_bytes(x: u32) -> Seq<u8> {
    seq![
        (x / 0x1000000) as u8,
        ((x / 0x10000) % 0x100) as u8,
        ((x / 0x100) % 0x100) as u8,
        (x % 0x100) as u8,
    ]
}

/// The auxiliary data that encodes a deposit's index, DRT merkle root and address.
pub open spec fn encode_deposit_aux(deposit_idx: u32, root: Seq<u8>, address: Seq<u8>) -> Seq<
    u8,
> {
    u32_be_bytes(deposit_idx) + root + address
}

/// What `parse_deposit_tx` returns for a well-formed deposit input: the fields that
/// the auxiliary data, output 1 and the transaction id determine.
pub open spec fn parsed_deposit_matches(tx_input: TxInputRef, info: DepositInfo) -> bool {
    let aux = tx_input.tag.aux_data@;
    &&& info.deposit_idx as int == be_u32(aux.subrange(0, 4))
    &&& info.drt_tapscript_merkle_root@ == aux.subrange(4, 36)
    &&& info.address@ == aux.subrange(36, aux.len() as int)
    &&& info.amt == tx_input.tx.outputs@[1].value
    &&& info.outpoint.txid@ == spec_txid(tx_input.tx@)
    &&& info.outpoint.vout == 1
}

/// Reads a big-endian `u32` from four bytes.
fn read_be_u32(b: &[u8]) -> (r: u32)
    requires
        b@.len() >= 4,
    ensures
        r as int == be_u32(b@.subrange(0, 4)),
{
    let r = (b[0] as u32) * 0x1000000 + (b[1] as u32) * 0x10000 + (b[2] as u32) * 0x100 + (
    b[3] as u32);
    r
}

/// Copies 32 bytes starting at `start` into a buffer.
fn read_buf32(b: &[u8], start: usize) -> (r: Buf32)
    requires
        start + 32 <= b@.len(),
    ensures
        r@ == b@.subrange(start as int, start + 32),
{
    let mut r: Buf32 = [0u8; 32];
    let n = b.len();
    let mut i: usize = 0;
    while i < 32
        invariant
            n == b@.len(),
            start + 32 <= b@.len(),
            0 <= i <= 32,
            r@.len() == 32,
            forall|k: int| 0 <= k < i ==> r@[k] == b@[start + k],
        decreases 32 - i,
    {
        r[i] = b[start + i];
        i = i + 1;
    }
    assert(r@ =~= b@.subrange(start as int, start + 32));
    r
}

/// Parses a deposit transaction to extract its [`DepositInfo`].
///
/// Errors, in the order they are checked:
/// - [`DepositTxParseError::InvalidTxType`] if the tag's type is not the deposit type;
/// - [`DepositTxParseError::InvalidAuxiliaryData`] if the auxiliary data is shorter than
///   [`MIN_DEPOSIT_TX_AUX_DATA_LEN`] (an empty destination address is valid);
/// - [`DepositTxParseError::MissingDepositOutput`] if there is no output 1.
pub fn parse_deposit_tx(tx_input: &TxInputRef) -> (r: Result<DepositInfo, DepositTxParseError>)
    ensures
        tx_input.tag.tx_type != DEPOSIT_TX_TYPE ==> r == Err::<DepositInfo, _>(
            DepositTxParseError::InvalidTxType(tx_input.tag.tx_type),
        ),
        tx_input.tag.tx_type == DEPOSIT_TX_TYPE && tx_input.tag.aux_data@.len() < 36 ==> r
            == Err::<DepositInfo, _>(
            DepositTxParseError::InvalidAuxiliaryData(tx_input.tag.aux_data@.len() as usize),
        ),
        tx_input.tag.tx_type == DEPOSIT_TX_TYPE && tx_input.tag.aux_data@.len() >= 36
            && tx_input.tx.outputs@.len() < 2 ==> r == Err::<DepositInfo, _>(
            DepositTxParseError::MissingDepositOutput,
        ),
        r is Ok <==> (tx_input.tag.tx_type == DEPOSIT_TX_TYPE && tx_input.tag.aux_data@.len()
            >= 36 && tx_input.tx.outputs@.len() >= 2),
        r matches Ok(info) ==> parsed_deposit_matches(*tx_input, info),
{
    let tag = tx_input.tag();
    if tag.tx_type != DEPOSIT_TX_TYPE {
        return Err(DepositTxParseError::InvalidTxType(tag.tx_type));
    }
    let aux_data = tag.aux_data.as_slice();
    if aux_data.len() < MIN_DEPOSIT_TX_AUX_DATA_LEN {
        return Err(DepositTxParseError::InvalidAuxiliaryData(aux_data.len()));
    }
    let deposit_idx = read_be_u32(aux_data);
    let tapscript_root = read_buf32(aux_data, DEPOSIT_IDX_LEN);
    let destination_address = vstd::slice::slice_to_vec(
        &aux_data[MIN_DEPOSIT_TX_AUX_DATA_LEN..aux_data.len()],
    );
    let tx = tx_input.tx();
    if tx.outputs.len() <= DEPOSIT_OUTPUT_INDEX as usize {
        return Err(DepositTxParseError::MissingDepositOutput);
    }
    let amt = tx.outputs[DEPOSIT_OUTPUT_INDEX as usize].value;
    let txid = compute_txid(tx);
    Ok(
        DepositInfo {
            deposit_idx,
            amt,
            address: destination_address,
            outpoint: OutputRef { txid, vout: DEPOSIT_OUTPUT_INDEX },
            drt_tapscript_merkle_root: tapscript_root,
        },
    )
}

/// Law: the deposit fields round-trip through the auxiliary data layout. Auxiliary data
/// laid out from an index, a 32-byte merkle root and an address is parsed back into
/// that same index, merkle root and address.
pub proof fn lemma_deposit_aux_roundtrip(
    deposit_idx: u32,
    root: Seq<u8>,
    address: Seq<u8>,
    tx_input: TxInputRef,
    info: DepositInfo,
)
    requires
        root.len() == 32,
        tx_input.tag.aux_data@ == encode_deposit_aux(deposit_idx, root, address),
        parsed_deposit_matches(tx_input, info),
    ensures
        info.deposit_idx == deposit_idx,
        info.drt_tapscript_merkle_root@ == root,
        info.address@ == address,
{
    let aux = tx_input.tag.aux_data@;
    let b = u32_be_bytes(deposit_idx);
    assert(aux.subrange(0, 4) =~= b);
    assert(aux.subrange(4, 36) =~= root);
    assert(aux.subrange(36, aux.len() as int) =~= address);
    let x = deposit_idx as int;
    assert(be_u32(b) == x) by (nonlinear_arith)
        requires
            b[0] == (x / 0x1000000) as u8,
            b[1] == ((x / 0x10000) % 0x100) as u8,
            b[2] == ((x / 0x100) % 0x100) as u8,
            b[3] == (x % 0x100) as u8,
            0 <= x < 0x100000000,
    ;
}

} // verus!
