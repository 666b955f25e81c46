//! Cryptographic validation of deposit transactions: the signature that spends the
//! Deposit Request Transaction (DRT), and the lock of the deposit output.

use vstd::prelude::*;

use crate::bridge::errors::DepositValidationError;
use crate::btc::{
    decimal, p2tr_script, p2tr_script_of_output_key, spec_tap_tweak_ok, parse_taproot_signature, schnorr_verify,
    spec_schnorr_verify, spec_tap_tweak, spec_taproot_sig_error, spec_taproot_key_spend_sighash, tap_tweak,
    taproot_key_spend_sighash, valid_tap_sighash_type, is_single_sighash_type, BitcoinTx,
    BitcoinTxView, XOnlyPk,
};
use crate::primitives::{bytes_eq, Buf32};

verus! {

/// The sighash type carried by a serialized taproot signature, if it parses.
pub open spec fn taproot_sig_type(sig: Seq<u8>) -> Option<u8> {
    if sig.len() == 64 {
        Some(0u8)
    } else if sig.len() == 65 && valid_tap_sighash_type(sig[64]) {
        Some(sig[64])
    } else {
        None
    }
}

/// The witness element that carries the DRT spending signature.
pub open spec fn drt_sig_witness(tx: BitcoinTxView) -> Seq<u8> {
    tx.inputs[0].witness[0]
}

/// The inputs on which the signature check can compute its sighash, and so the inputs
/// it is defined on: the sighash computation fails unless the transaction has exactly one
/// input, and, for a single-output sighash type, at least one output.
pub open spec fn drt_sighash_computable(tx: BitcoinTxView) -> bool {
    tx.inputs.len() >= 1 && (tx.inputs[0].witness.len() > 0 && taproot_sig_type(
        drt_sig_witness(tx),
    ) is Some ==> {
        &&& tx.inputs.len() == 1
        &&& is_single_sighash_type(taproot_sig_type(drt_sig_witness(tx))->0) ==> tx.outputs.len()
            >= 1
    })
}

/// Whether the DRT spending signature of `tx` verifies: the first witness element of
/// input 0 is a taproot signature that is valid, for the key-spend sighash of input 0
/// spending a P2TR output of `amount` locked to the operator key tweaked with the DRT
/// merkle root, under that tweaked key.
pub open spec fn drt_signature_valid(
    tx: BitcoinTxView,
    merkle_root: Seq<u8>,
    operators_pubkey: Seq<u8>,
    amount: u64,
) -> bool {
    let w = drt_sig_witness(tx);
    let output_key = spec_tap_tweak(operators_pubkey, Some(merkle_root));
    let script = p2tr_script_of_output_key(output_key);
    let t = taproot_sig_type(w)->0;
    &&& spec_tap_tweak_ok(operators_pubkey, Some(merkle_root))
    &&& spec_schnorr_verify(
        w.subrange(0, 64),
        spec_taproot_key_spend_sighash(tx, amount, script, t),
        output_key,
    )
}

/// Whether the DRT spending signature check passes: there is a witness element, it
/// parses as a taproot signature, and the signature verifies.
pub open spec fn drt_spending_signature_ok(
    tx: BitcoinTxView,
    merkle_root: Seq<u8>,
    operators_pubkey: Seq<u8>,
    amount: u64,
) -> bool {
    &&& tx.inputs[0].witness.len() > 0
    &&& taproot_sig_type(drt_sig_witness(tx)) is Some
    &&& drt_signature_valid(tx, merkle_root, operators_pubkey, amount)
}

/// Whether the deposit output (output 1) is the key-spend-only P2TR output of the key.
pub open spec fn deposit_output_locked(tx: BitcoinTxView, operators_agg_pubkey: Seq<u8>) -> bool {
    &&& spec_tap_tweak_ok(operators_agg_pubkey, None)
    &&& tx.outputs[1].script_pubkey == p2tr_script_of_output_key(
        spec_tap_tweak(operators_agg_pubkey, None),
    )
}

/// The reason given when the operator key cannot be tweaked.
pub open spec fn tweak_failed_reason() -> Seq<char> {
    "Failed to tweak the operator key"@
}

/// Whether `r` is an `InvalidSignature` error with the given reason.
pub open spec fn is_invalid_signature(r: Result<(), DepositValidationError>, reason: Seq<char>) -> bool {
    r matches Err(DepositValidationError::InvalidSignature { reason: got }) && got@ == reason
}

/// Validates that the DRT spending signature in the deposit transaction is valid.
///
/// The signature is the first witness element of input 0, a taproot signature
/// (64 bytes, or 65 with an explicit sighash type). It must verify, for the BIP-341
/// key-spend sighash of input 0 spending a P2TR output of `deposit_amount` locked to the
/// operator key tweaked with `drt_tapnode_hash`, under that tweaked key.
pub fn validate_drt_spending_signature(
    tx: &BitcoinTx,
    drt_tapnode_hash: Buf32,
    operators_pubkey: &XOnlyPk,
    deposit_amount: u64,
) -> (r: Result<(), DepositValidationError>)
    requires
        drt_sighash_computable(tx@),
    ensures
        tx@.inputs[0].witness.len() == 0 ==> is_invalid_signature(
            r,
            "No witness data found in transaction input"@,
        ),
        tx@.inputs[0].witness.len() > 0 && taproot_sig_type(drt_sig_witness(tx@)) is None
            ==> is_invalid_signature(
            r,
            "Failed to parse taproot signature: "@ + spec_taproot_sig_error(drt_sig_witness(tx@)),
        ),
        tx@.inputs[0].witness.len() > 0 && drt_sig_witness(tx@).len() != 64
            && drt_sig_witness(tx@).len() != 65 ==> is_invalid_signature(
            r,
            "Failed to parse taproot signature: "@ + "invalid taproot signature size: "@ + decimal(
                drt_sig_witness(tx@).len(),
            ),
        ),
        tx@.inputs[0].witness.len() > 0 && taproot_sig_type(drt_sig_witness(tx@)) is Some
            && !spec_tap_tweak_ok(operators_pubkey@, Some(drt_tapnode_hash@))
            ==> is_invalid_signature(r, tweak_failed_reason()),
        tx@.inputs[0].witness.len() > 0 && taproot_sig_type(drt_sig_witness(tx@)) is Some
            && spec_tap_tweak_ok(operators_pubkey@, Some(drt_tapnode_hash@))
            && !drt_signature_valid(tx@, drt_tapnode_hash@, operators_pubkey@, deposit_amount)
            ==> is_invalid_signature(
            r,
            "Schnorr signature verification failed: "@ + "signature failed verification"@,
        ),
        r is Ok <==> drt_spending_signature_ok(
            tx@,
            drt_tapnode_hash@,
            operators_pubkey@,
            deposit_amount,
        ),
        r is Err ==> r matches Err(DepositValidationError::InvalidSignature { .. }),
{
    let input = &tx.inputs[0];
    assert(input@ == tx@.inputs[0]);
    if input.witness.len() == 0 {
        return Err(
            DepositValidationError::InvalidSignature {
                reason: "No witness data found in transaction input".to_owned(),
            },
        );
    }
    let sig_witness = &input.witness[0];
    assert(sig_witness@ == drt_sig_witness(tx@));
    let parsed = parse_taproot_signature(sig_witness.as_slice());
    let (schnorr_sig, sighash_type) = match parsed {
        Ok(p) => p,
        Err(m) => {
            let mut reason = "Failed to parse taproot signature: ".to_owned();
            reason.append(m.as_str());
            proof {
                let w = sig_witness@;
                if w.len() != 64 && w.len() != 65 {
                    let a = "Failed to parse taproot signature: "@;
                    let b = "invalid taproot signature size: "@;
                    let d = decimal(w.len());
                    assert(a + (b + d) =~= a + b + d);
                }
            }
            return Err(DepositValidationError::InvalidSignature { reason });
        },
    };
    let internal_key = operators_pubkey.inner();
    let tweaked_key = match tap_tweak(internal_key, Some(drt_tapnode_hash)) {
        Some(k) => k,
        None => {
            return Err(
                DepositValidationError::InvalidSignature {
                    reason: "Failed to tweak the operator key".to_owned(),
                },
            );
        },
    };
    let script_pubkey = p2tr_script(&tweaked_key);
    let sighash = taproot_key_spend_sighash(
        tx,
        deposit_amount,
        script_pubkey.as_slice(),
        sighash_type,
    );
    match schnorr_verify(&schnorr_sig, &sighash, &tweaked_key) {
        Ok(()) => {},
        Err(m) => {
            let mut reason = "Schnorr signature verification failed: ".to_owned();
            reason.append(m.as_str());
            return Err(DepositValidationError::InvalidSignature { reason });
        },
    }
    Ok(())
}

/// Validates that the deposit output (output 1) is locked to the N/N aggregated operator
/// key: its script must be the key-spend-only P2TR script of that key (no merkle root).
///
/// The check is defined on transactions with an output 1 only (parsing refuses a deposit
/// transaction without it).
pub fn validate_deposit_output_lock(tx: &BitcoinTx, operators_agg_pubkey: &XOnlyPk) -> (r: Result<
    (),
    DepositValidationError,
>)
    requires
        tx@.outputs.len() >= 2,
    ensures
        r is Ok <==> deposit_output_locked(tx@, operators_agg_pubkey@),
        !spec_tap_tweak_ok(operators_agg_pubkey@, None) ==> is_invalid_signature(
            r,
            tweak_failed_reason(),
        ),
        spec_tap_tweak_ok(operators_agg_pubkey@, None) && r is Err ==> is_invalid_signature(
            r,
            "Deposit output is not locked to the aggregated operator key"@,
        ),
{
    let deposit_output = &tx.outputs[1];
    assert(deposit_output@ == tx@.outputs[1]);
    let output_key = match tap_tweak(operators_agg_pubkey.inner(), None) {
        Some(k) => k,
        None => {
            return Err(
                DepositValidationError::InvalidSignature {
                    reason: "Failed to tweak the operator key".to_owned(),
                },
            );
        },
    };
    let expected_script = p2tr_script(&output_key);
    if !bytes_eq(deposit_output.script_pubkey.as_slice(), expected_script.as_slice()) {
        return Err(
            DepositValidationError::InvalidSignature {
                reason: "Deposit output is not locked to the aggregated operator key".to_owned(),
            },
        );
    }
    Ok(())
}

} // verus!
