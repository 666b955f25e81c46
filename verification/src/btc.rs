//! Bitcoin transactions as plain values, and the calls into the `bitcoin` and
//! `secp256k1` crates that the bridge needs: transaction ids, taproot signature
//! parsing, taproot sighashes, taproot key tweaking, P2TR scripts and Schnorr
//! signature verification.

use vstd::prelude::*;

use crate::primitives::Buf32;

verus! {

/// A transaction input.
#[derive(Debug, Clone, PartialEq, Eq)]
pub struct BitcoinTxIn {
    /// Id of the transaction whose output is spent.
    pub prev_txid: Buf32,
    /// Index of the spent output in that transaction.
    pub prev_vout: u32,
    /// The input's script.
    pub script_sig: Vec<u8>,
    /// The input's sequence number.
    pub sequence: u32,
    /// The witness stack, one byte string per element.
    pub witness: Vec<Vec<u8>>,
}

/// A transaction output.
#[derive(Debug, Clone, PartialEq, Eq)]
pub struct BitcoinTxOut {
    /// Value in satoshis.
    pub value: u64,
    /// The locking script.
    pub script_pubkey: Vec<u8>,
}

/// A Bitcoin transaction.
#[derive(Debug, Clone, PartialEq, Eq)]
pub struct BitcoinTx {
    pub version: i32,
    pub lock_time: u32,
    pub inputs: Vec<BitcoinTxIn>,
    pub outputs: Vec<BitcoinTxOut>,
}

/// Mathematical view of a [`BitcoinTxIn`].
pub struct BitcoinTxInView {
    pub prev_txid: Seq<u8>,
    pub prev_vout: u32,
    pub script_sig: Seq<u8>,
    pub sequence: u32,
    pub witness: Seq<Seq<u8>>,
}

/// Mathematical view of a [`BitcoinTxOut`].
pub struct BitcoinTxOutView {
    pub value: u64,
    pub script_pubkey: Seq<u8>,
}

/// Mathematical view of a [`BitcoinTx`].
pub struct BitcoinTxView {
    pub version: i32,
    pub lock_time: u32,
    pub inputs: Seq<BitcoinTxInView>,
    pub outputs: Seq<BitcoinTxOutView>,
}

impl View for BitcoinTxIn {
    type V = BitcoinTxInView;

    open spec fn view(&self) -> BitcoinTxInView {
        BitcoinTxInView {
            prev_txid: self.prev_txid@,
            prev_vout: self.prev_vout,
            script_sig: self.script_sig@,
            sequence: self.sequence,
            witness: self.witness@.map_values(|w: Vec<u8>| w@),
        }
    }
}

impl View for BitcoinTxOut {
    type V = BitcoinTxOutView;

    open spec fn view(&self) -> BitcoinTxOutView {
        BitcoinTxOutView { value: self.value, script_pubkey: self.script_pubkey@ }
    }
}

impl View for BitcoinTx {
    type V = BitcoinTxView;

    open spec fn view(&self) -> BitcoinTxView {
        BitcoinTxView {
            version: self.version,
            lock_time: self.lock_time,
            inputs: self.inputs@.map_values(|i: BitcoinTxIn| i@),
            outputs: self.outputs@.map_values(|o: BitcoinTxOut| o@),
        }
    }
}

/// The consensus transaction id (double SHA-256 of the non-witness serialization,
/// as `bitcoin::Transaction::compute_txid` computes it).
pub uninterp spec fn spec_txid(tx: BitcoinTxView) -> Seq<u8>;

/// Whether `key` parses as a BIP-340 x-only public key
/// (`secp256k1::XOnlyPublicKey::from_slice` succeeds).
pub uninterp spec fn spec_xonly_valid(key: Seq<u8>) -> bool;

/// Whether the BIP-341 tweak of the internal key with the merkle root succeeds: the
/// tweak hash is below the curve order and the tweaked point is not at infinity
/// (`bitcoin::key::TapTweak::tap_tweak` panics otherwise).
pub uninterp spec fn spec_tap_tweak_ok(internal_key: Seq<u8>, merkle_root: Option<Seq<u8>>) -> bool;

/// The BIP-341 output key obtained by tweaking the internal key with the merkle
/// root (`bitcoin::key::TapTweak::tap_tweak`), serialized as 32 bytes.
pub uninterp spec fn spec_tap_tweak(internal_key: Seq<u8>, merkle_root: Option<Seq<u8>>) -> Seq<u8>;

/// The BIP-341 key-spend signature hash of input 0 of `tx`, spending an output of
/// the given value and script, under the given sighash type
/// (`SighashCache::taproot_key_spend_signature_hash`).
pub uninterp spec fn spec_taproot_key_spend_sighash(
    tx: BitcoinTxView,
    prevout_value: u64,
    prevout_script: Seq<u8>,
    sighash_type: u8,
) -> Seq<u8>;

/// Whether `sig` is a valid BIP-340 Schnorr signature of `msg` under the x-only
/// public key `pubkey` (`Secp256k1::verify_schnorr`).
pub uninterp spec fn spec_schnorr_verify(sig: Seq<u8>, msg: Seq<u8>, pubkey: Seq<u8>) -> bool;

/// The decimal digits of `n`, as `Display` writes an unsigned integer.
pub open spec fn decimal(n: nat) -> Seq<char>
    decreases n,
{
    if n < 10 {
        seq![(48 + n) as char]
    } else {
        decimal(n / 10) + seq![(48 + n % 10) as char]
    }
}

/// The message of the error that `bitcoin::taproot::Signature::from_slice` gives for
/// `sig` (its `Display` text). For a wrong size the text is stated in
/// [`parse_taproot_signature`]'s contract; for a 65-byte slice with an invalid sighash type
/// byte its text depends on a feature of `bitcoin-internals` chosen when the crates are
/// built, so it is only named.
pub uninterp spec fn spec_taproot_sig_error(sig: Seq<u8>) -> Seq<char>;

/// The optional merkle root as a byte sequence.
pub open spec fn root_view(merkle_root: Option<Buf32>) -> Option<Seq<u8>> {
    match merkle_root {
        Some(r) => Some(r@),
        None => None,
    }
}

/// A consensus-valid taproot sighash type byte.
pub open spec fn valid_tap_sighash_type(t: u8) -> bool {
    t == 0x00 || t == 0x01 || t == 0x02 || t == 0x03 || t == 0x81 || t == 0x82 || t == 0x83
}

/// A sighash type that commits to the output with the same index as the input.
pub open spec fn is_single_sighash_type(t: u8) -> bool {
    t == 0x03 || t == 0x83
}

/// The P2TR (segwit v1) locking script of an output key: `OP_1 OP_PUSHBYTES_32 <key>`.
pub open spec fn p2tr_script_of_output_key(output_key: Seq<u8>) -> Seq<u8> {
    seq![0x51u8, 0x20u8] + output_key
}

#[verifier::external_type_specification]
#[verifier::external_body]
pub struct ExTransaction(bitcoin::Transaction);

#[verifier::external_type_specification]
#[verifier::external_body]
pub struct ExTxIn(bitcoin::TxIn);

#[verifier::external_type_specification]
#[verifier::external_body]
pub struct ExTxOut(bitcoin::TxOut);

/// Builds the `bitcoin::TxIn` with the same fields.
#[verifier::external_body]
fn to_bitcoin_txin(i: &BitcoinTxIn) -> bitcoin::TxIn {
    bitcoin::TxIn {
        previous_output: bitcoin::OutPoint {
            txid: <bitcoin::Txid as bitcoin::hashes::Hash>::from_byte_array(i.prev_txid),
            vout: i.prev_vout,
        },
        script_sig: bitcoin::ScriptBuf::from_bytes(i.script_sig.clone()),
        sequence: bitcoin::Sequence(i.sequence),
        witness: bitcoin::Witness::from_slice(&i.witness),
    }
}

/// Builds the `bitcoin::TxOut` with the same fields.
#[verifier::external_body]
fn to_bitcoin_txout(o: &BitcoinTxOut) -> bitcoin::TxOut {
    bitcoin::TxOut {
        value: bitcoin::Amount::from_sat(o.value),
        script_pubkey: bitcoin::ScriptBuf::from_bytes(o.script_pubkey.clone()),
    }
}

/// Builds the `bitcoin::Transaction` with the same fields.
#[verifier::external_body]
fn to_bitcoin_tx(tx: &BitcoinTx) -> bitcoin::Transaction {
    bitcoin::Transaction {
        version: bitcoin::transaction::Version(tx.version),
        lock_time: bitcoin::absolute::LockTime::from_consensus(tx.lock_time),
        input: tx.inputs.iter().map(to_bitcoin_txin).collect(),
        output: tx.outputs.iter().map(to_bitcoin_txout).collect(),
    }
}

/// Calls `bitcoin::Transaction::compute_txid`; the result is named [`spec_txid`].
#[verifier::external_body]
pub(crate) fn compute_txid(tx: &BitcoinTx) -> (r: Buf32)
    ensures
        r@ == spec_txid(tx@),
{
    bitcoin::hashes::Hash::to_byte_array(to_bitcoin_tx(tx).compute_txid())
}

/// Calls `secp256k1::XOnlyPublicKey::from_slice` and reports whether it succeeded;
/// the answer is named [`spec_xonly_valid`].
#[verifier::external_body]
pub(crate) fn xonly_pubkey_is_valid(key: &Buf32) -> (r: bool)
    ensures
        r == spec_xonly_valid(key@),
{
    secp256k1::XOnlyPublicKey::from_slice(key).is_ok()
}

/// Computes the BIP-341 tweak of a valid x-only key with the optional merkle root as
/// `TapTweak::tap_tweak` does, through its non-panicking steps:
/// `TapTweakHash::from_key_and_tweak`, `Scalar::from_be_bytes` and
/// `XOnlyPublicKey::add_tweak`. Where `tap_tweak` would panic (the tweak hash is not below
/// the curve order, or the tweaked point is at infinity; named [`spec_tap_tweak_ok`]),
/// `None`; otherwise the serialized output key, named [`spec_tap_tweak`], which is a valid
/// x-only key.
#[verifier::external_body]
pub(crate) fn tap_tweak(internal_key: &Buf32, merkle_root: Option<Buf32>) -> (r: Option<Buf32>)
    requires
        spec_xonly_valid(internal_key@),
    ensures
        r is Some <==> spec_tap_tweak_ok(internal_key@, root_view(merkle_root)),
        r matches Some(k) ==> k@ == spec_tap_tweak(internal_key@, root_view(merkle_root))
            && spec_xonly_valid(k@),
{
    let key = secp256k1::XOnlyPublicKey::from_slice(internal_key).ok()?;
    let root = merkle_root.map(<bitcoin::TapNodeHash as bitcoin::hashes::Hash>::from_byte_array);
    let hash = bitcoin::taproot::TapTweakHash::from_key_and_tweak(key, root);
    let tweak = secp256k1::Scalar::from_be_bytes(bitcoin::hashes::Hash::to_byte_array(hash)).ok()?;
    Some(key.add_tweak(secp256k1::SECP256K1, &tweak).ok()?.0.serialize())
}

/// Calls `bitcoin::ScriptBuf::new_p2tr_tweaked` on a valid x-only output key. As its source
/// shows, the script is the segwit v1 program of the key: `OP_1 OP_PUSHBYTES_32` followed
/// by the key.
#[verifier::external_body]
pub(crate) fn p2tr_script(output_key: &Buf32) -> (r: Vec<u8>)
    requires
        spec_xonly_valid(output_key@),
    ensures
        r@ == p2tr_script_of_output_key(output_key@),
{
    let key = secp256k1::XOnlyPublicKey::from_slice(output_key).unwrap();
    let tweaked = bitcoin::key::TweakedPublicKey::dangerous_assume_tweaked(key);
    bitcoin::ScriptBuf::new_p2tr_tweaked(tweaked).into_bytes()
}

/// Calls `bitcoin::taproot::Signature::from_slice` and returns the 64 signature bytes
/// and the sighash type byte, or the message of its error (named
/// [`spec_taproot_sig_error`]; for a wrong size, "invalid taproot signature size: " and
/// the size in decimal, as its source writes it). As its source shows, a 64-byte slice is a signature with
/// the default sighash type (0); a 65-byte slice is a signature followed by a
/// consensus-valid sighash type byte; anything else is refused.
#[verifier::external_body]
pub(crate) fn parse_taproot_signature(sig: &[u8]) -> (r: Result<([u8; 64], u8), String>)
    ensures
        r is Ok <==> (sig@.len() == 64 || (sig@.len() == 65 && valid_tap_sighash_type(
            sig@[64],
        ))),
        r matches Ok((s, t)) ==> s@ == sig@.subrange(0, 64) && t == (if sig@.len() == 64 {
            0u8
        } else {
            sig@[64]
        }),
        r matches Err(m) ==> m@ == spec_taproot_sig_error(sig@),
        sig@.len() != 65 ==> (r matches Err(m) ==> m@ == "invalid taproot signature size: "@
            + decimal(sig@.len())),
{
    match bitcoin::taproot::Signature::from_slice(sig) {
        Ok(s) => Ok((s.signature.serialize(), s.sighash_type as u8)),
        Err(e) => Err(e.to_string()),
    }
}

/// Calls `SighashCache::taproot_key_spend_signature_hash` for input 0 of `tx`, with the
/// single spent output given by value and script; the result is named
/// [`spec_taproot_key_spend_sighash`].
///
/// The call fails (and the deposit validation cannot proceed) when the number of spent outputs differs
/// from the number of inputs, or for a single-output sighash type when the transaction
/// has no output: `requires` leaves those inputs out.
#[verifier::external_body]
pub(crate) fn taproot_key_spend_sighash(
    tx: &BitcoinTx,
    prevout_value: u64,
    prevout_script: &[u8],
    sighash_type: u8,
) -> (r: Buf32)
    requires
        tx.inputs@.len() == 1,
        valid_tap_sighash_type(sighash_type),
        is_single_sighash_type(sighash_type) ==> tx.outputs@.len() >= 1,
    ensures
        r@ == spec_taproot_key_spend_sighash(tx@, prevout_value, prevout_script@, sighash_type),
{
    let btx = to_bitcoin_tx(tx);
    let utxos = [to_bitcoin_txout(&BitcoinTxOut { value: prevout_value, script_pubkey: prevout_script.to_vec() })];
    let ty = bitcoin::TapSighashType::from_consensus_u8(sighash_type).unwrap();
    let mut cache = bitcoin::sighash::SighashCache::new(&btx);
    let h = cache.taproot_key_spend_signature_hash(0, &bitcoin::sighash::Prevouts::All(&utxos), ty);
    bitcoin::hashes::Hash::to_byte_array(h.unwrap())
}

/// Calls `Secp256k1::verify_schnorr` with the 64-byte signature, the 32-byte message and a
/// valid x-only public key; whether it accepts is named [`spec_schnorr_verify`]. As its
/// source shows, its only error is `Error::IncorrectSignature`, whose message is
/// "signature failed verification"; that message is returned.
#[verifier::external_body]
pub(crate) fn schnorr_verify(sig: &[u8; 64], msg: &Buf32, pubkey: &Buf32) -> (r: Result<(), String>)
    requires
        spec_xonly_valid(pubkey@),
    ensures
        r is Ok == spec_schnorr_verify(sig@, msg@, pubkey@),
        r matches Err(m) ==> m@ == "signature failed verification"@,
{
    let key = secp256k1::XOnlyPublicKey::from_slice(pubkey).unwrap();
    let sig = secp256k1::schnorr::Signature::from_slice(sig).unwrap();
    let msg = secp256k1::Message::from_digest(*msg);
    secp256k1::SECP256K1.verify_schnorr(&sig, &msg, &key).map_err(|e| e.to_string())
}

/// A BIP-340 x-only public key, valid by construction.
#[derive(Debug, Clone, Copy, PartialEq, Eq)]
pub struct XOnlyPk {
    key: Buf32,
}

impl View for XOnlyPk {
    type V = Seq<u8>;

    closed spec fn view(&self) -> Seq<u8> {
        self.key@
    }
}

impl XOnlyPk {
    #[verifier::type_invariant]
    closed spec fn inv(self) -> bool {
        spec_xonly_valid(self.key@)
    }

    /// Creates an x-only public key from its 32 bytes; `None` if they are not a valid key.
    pub fn new(key: Buf32) -> (r: Option<Self>)
        ensures
            r is Some <==> spec_xonly_valid(key@),
            r matches Some(k) ==> k@ == key@,
    {
        if xonly_pubkey_is_valid(&key) {
            Some(Self { key })
        } else {
            None
        }
    }

    /// The 32 bytes of the key.
    pub fn inner(&self) -> (r: &Buf32)
        ensures
            r@ == self@,
            spec_xonly_valid(r@),
    {
        proof {
            use_type_invariant(self);
        }
        &self.key
    }
}

/// A transaction tagged with an SPS-50 header: the subprotocol it targets, its type
/// within that subprotocol, and the auxiliary data that follows the header.
#[derive(Debug, Clone, PartialEq, Eq)]
pub struct TagData {
    pub subproto_id: u8,
    pub tx_type: u8,
    pub aux_data: Vec<u8>,
}

/// A transaction together with its parsed SPS-50 tag.
#[derive(Debug, Clone, PartialEq, Eq)]
pub struct TxInputRef {
    pub tx: BitcoinTx,
    pub tag: TagData,
}

impl TxInputRef {
    pub fn new(tx: BitcoinTx, tag: TagData) -> (r: Self)
        ensures
            r.tx == tx,
            r.tag == tag,
    {
        Self { tx, tag }
    }

    /// The tag of the transaction.
    pub fn tag(&self) -> (r: &TagData)
        ensures
            *r == self.tag,
    {
        &self.tag
    }

    /// The transaction.
    pub fn tx(&self) -> (r: &BitcoinTx)
        ensures
            *r == self.tx,
    {
        &self.tx
    }
}

} // verus!
