use bitcoin::key::{Keypair, TapTweak};
use bitcoin::script::PushBytesBuf;
use bitcoin::secp256k1::{Message, Secp256k1, SecretKey, XOnlyPublicKey};
use bitcoin::sighash::{Prevouts, SighashCache, TapSighashType};
use bitcoin::{Amount, ScriptBuf, TapNodeHash, Transaction, TxOut};

use strata_asm::bridge::assignment::{AssignmentEntry, WithdrawOutput};
use strata_asm::bridge::constants::{BRIDGE_V1_SUBPROTOCOL_ID, DEPOSIT_TX_TYPE};
use strata_asm::bridge::errors::{
    DepositTxParseError, DepositValidationError, WithdrawalCommandError, WithdrawalValidationError,
};
use strata_asm::bridge::msgs::BridgeIncomingMsg;
use strata_asm::bridge::parse::{parse_deposit_tx, DepositInfo, MIN_DEPOSIT_TX_AUX_DATA_LEN};
use strata_asm::bridge::state::{
    BridgeV1Config, BridgeV1State, OperatorTable, WithdrawalFulfillmentInfo,
};
use strata_asm::bridge::subprotocol::BridgeV1Subproto;
use strata_asm::bridge::txs::{parse_tx, BridgeSubprotocolError, ParsedTx};
use strata_asm::bridge::validation::{validate_deposit_output_lock, validate_drt_spending_signature};
use strata_asm::btc::{BitcoinTx, BitcoinTxIn, BitcoinTxOut, TagData, TxInputRef, XOnlyPk};
use strata_asm::primitives::{L1BlockCommitment, OutputRef};

const DEPOSIT_OUTPUT_INDEX: u32 = 1;

fn keypair(seed: u8) -> Keypair {
    Keypair::from_secret_key(&Secp256k1::new(), &SecretKey::from_slice(&[seed; 32]).unwrap())
}

fn xonly(kp: &Keypair) -> XOnlyPublicKey {
    kp.x_only_public_key().0
}

fn to_btc(tx: &BitcoinTx) -> Transaction {
    Transaction {
        version: bitcoin::transaction::Version(tx.version),
        lock_time: bitcoin::absolute::LockTime::from_consensus(tx.lock_time),
        input: tx
            .inputs
            .iter()
            .map(|i| bitcoin::TxIn {
                previous_output: bitcoin::OutPoint {
                    txid: <bitcoin::Txid as bitcoin::hashes::Hash>::from_byte_array(i.prev_txid),
                    vout: i.prev_vout,
                },
                script_sig: ScriptBuf::from_bytes(i.script_sig.clone()),
                sequence: bitcoin::Sequence(i.sequence),
                witness: bitcoin::Witness::from_slice(&i.witness),
            })
            .collect(),
        output: tx
            .outputs
            .iter()
            .map(|o| TxOut {
                value: Amount::from_sat(o.value),
                script_pubkey: ScriptBuf::from_bytes(o.script_pubkey.clone()),
            })
            .collect(),
    }
}

fn txid(tx: &BitcoinTx) -> [u8; 32] {
    bitcoin::hashes::Hash::to_byte_array(to_btc(tx).compute_txid())
}

struct TestDeposit {
    deposit_idx: u32,
    amt: u64,
    address: Vec<u8>,
    root: [u8; 32],
}

fn test_deposit(seed: u32, amt: u64) -> TestDeposit {
    TestDeposit {
        deposit_idx: seed.wrapping_mul(2_654_435_761),
        amt,
        address: (0..(seed % 23) as u8).map(|b| b.wrapping_mul(7).wrapping_add(seed as u8)).collect(),
        root: [(seed as u8).wrapping_add(0x5a); 32],
    }
}

fn deposit_aux(d: &TestDeposit) -> Vec<u8> {
    let mut aux = Vec::new();
    aux.extend_from_slice(&d.deposit_idx.to_be_bytes());
    aux.extend_from_slice(&d.root);
    aux.extend_from_slice(&d.address);
    aux
}

fn tagged_payload(subproto: u8, tx_type: u8, aux: &[u8]) -> Vec<u8> {
    let mut p = b"ALPN".to_vec();
    p.push(subproto);
    p.push(tx_type);
    p.extend_from_slice(aux);
    p
}

fn op_return(payload: Vec<u8>) -> Vec<u8> {
    ScriptBuf::new_op_return(PushBytesBuf::try_from(payload).unwrap()).into_bytes()
}

/// A deposit transaction whose output 1 is locked to `agg` and whose input 0 spends the
/// DRT output (locked to `agg` tweaked with the deposit's merkle root) with a key-spend
/// signature of `signer`.
fn deposit_tx(d: &TestDeposit, agg: &Keypair, signer: &Keypair) -> BitcoinTx {
    let secp = Secp256k1::new();
    let deposit_script = ScriptBuf::new_p2tr(&secp, xonly(agg), None).into_bytes();
    let mut tx = BitcoinTx {
        version: 2,
        lock_time: 0,
        inputs: vec![BitcoinTxIn {
            prev_txid: [0u8; 32],
            prev_vout: u32::MAX,
            script_sig: vec![],
            sequence: 0xffff_fffd,
            witness: vec![],
        }],
        outputs: vec![
            BitcoinTxOut {
                value: 0,
                script_pubkey: op_return(tagged_payload(BRIDGE_V1_SUBPROTOCOL_ID, DEPOSIT_TX_TYPE, &deposit_aux(d))),
            },
            BitcoinTxOut { value: d.amt, script_pubkey: deposit_script },
        ],
    };
    let merkle_root = <TapNodeHash as bitcoin::hashes::Hash>::from_byte_array(d.root);
    let drt_script = ScriptBuf::new_p2tr(&secp, xonly(agg), Some(merkle_root));
    let prevouts = [TxOut { value: Amount::from_sat(d.amt), script_pubkey: drt_script }];
    let unsigned = to_btc(&tx);
    let sighash = SighashCache::new(&unsigned)
        .taproot_key_spend_signature_hash(0, &Prevouts::All(&prevouts), TapSighashType::Default)
        .unwrap();
    let tweaked = signer.tap_tweak(&secp, Some(merkle_root)).to_inner();
    let sig = secp.sign_schnorr_no_aux_rand(&Message::from_digest(bitcoin::hashes::Hash::to_byte_array(sighash)), &tweaked);
    tx.inputs[0].witness = vec![sig.serialize().to_vec()];
    tx
}

fn tagged(tx: BitcoinTx, tx_type: u8, aux: Vec<u8>) -> TxInputRef {
    TxInputRef::new(tx, TagData { subproto_id: BRIDGE_V1_SUBPROTOCOL_ID, tx_type, aux_data: aux })
}

fn deposit_info(d: &TestDeposit, tx: &BitcoinTx) -> DepositInfo {
    DepositInfo {
        deposit_idx: d.deposit_idx,
        amt: d.amt,
        address: d.address.clone(),
        outpoint: OutputRef { txid: txid(tx), vout: DEPOSIT_OUTPUT_INDEX },
        drt_tapscript_merkle_root: d.root,
    }
}

fn pk(kp: &Keypair) -> XOnlyPk {
    XOnlyPk::new(xonly(kp).serialize()).expect("valid key")
}

const DENOMINATION: u64 = 1_000_000;

fn create_test_state() -> (BridgeV1State, Keypair) {
    let agg = keypair(0x11);
    let config = BridgeV1Config {
        operators: OperatorTable::new(pk(&agg), vec![0, 1, 2, 3]),
        denomination: DENOMINATION,
        deadline_duration: 144,
        operator_fee: 100_000,
    };
    (BridgeV1State::new(&config), agg)
}

fn pick(ops: &[u32], seed: &[u8; 32]) -> usize {
    if ops.is_empty() { 0 } else { seed[0] as usize % ops.len() }
}

fn add_deposits(state: &mut BridgeV1State, count: u32, agg: &Keypair) {
    for k in 0..count {
        let d = test_deposit(100 + k, state.denomination());
        let tx = deposit_tx(&d, agg, agg);
        let info = deposit_info(&d, &tx);
        state.process_deposit_tx(&tx, &info).unwrap();
    }
}

fn withdraw_output(k: u32, amt: u64) -> WithdrawOutput {
    let script = ScriptBuf::new_p2tr(&Secp256k1::new(), xonly(&keypair(0x40 + k as u8)), None);
    WithdrawOutput::new(script.into_bytes(), amt)
}

fn l1blk(k: u32) -> L1BlockCommitment {
    L1BlockCommitment::new(800_000 + k as u64, [k as u8 ^ 0x3c; 32])
}

fn add_deposits_and_assignments(state: &mut BridgeV1State, count: u32, agg: &Keypair) {
    add_deposits(state, count, agg);
    for k in 0..count {
        let output = withdraw_output(k, state.denomination());
        state.create_withdrawal_assignment(&output, &l1blk(k), &pick).unwrap();
    }
}

fn create_withdrawal_info_from_assignment(a: &AssignmentEntry) -> WithdrawalFulfillmentInfo {
    WithdrawalFulfillmentInfo {
        operator_idx: a.current_assignee(),
        deposit_idx: a.deposit_idx(),
        deposit_txid: a.deposit_txid(),
        withdrawal_destination: a.withdrawal_command().destination().clone(),
        withdrawal_amount: a.withdrawal_command().net_amount(),
    }
}

fn withdrawal_fulfillment_tx(info: &WithdrawalFulfillmentInfo) -> BitcoinTx {
    BitcoinTx {
        version: 2,
        lock_time: 0,
        inputs: vec![BitcoinTxIn {
            prev_txid: info.deposit_txid,
            prev_vout: DEPOSIT_OUTPUT_INDEX,
            script_sig: vec![],
            sequence: 0xffff_fffd,
            witness: vec![vec![1u8; 64]],
        }],
        outputs: vec![BitcoinTxOut {
            value: info.withdrawal_amount,
            script_pubkey: info.withdrawal_destination.clone(),
        }],
    }
}

// ---- deposit parsing ----

#[test]
fn test_parse_deposit_tx_success() {
    let agg = keypair(1);
    let d = test_deposit(7, 1_234_567);
    let tx = deposit_tx(&d, &agg, &agg);
    let tx_input = tagged(tx.clone(), DEPOSIT_TX_TYPE, deposit_aux(&d));
    let info = parse_deposit_tx(&tx_input).expect("Should successfully extract deposit info");

    assert_eq!(d.deposit_idx, info.deposit_idx);
    assert_eq!(d.amt, info.amt);
    assert_eq!(d.address, info.address);
    assert_eq!(d.root, info.drt_tapscript_merkle_root);
    let expected_outpoint = OutputRef { txid: txid(&tx), vout: DEPOSIT_OUTPUT_INDEX };
    assert_eq!(expected_outpoint, info.outpoint);
}

#[test]
fn test_parse_deposit_invalid_tx_type() {
    let agg = keypair(1);
    let d = test_deposit(8, 5000);
    let tx = deposit_tx(&d, &agg, &agg);
    let tx_input = tagged(tx, 99, vec![0u8; 40]);
    let result = parse_deposit_tx(&tx_input);
    assert!(result.is_err(), "Should fail with invalid transaction type");
    assert!(matches!(result, Err(DepositTxParseError::InvalidTxType { .. })));
    if let Err(DepositTxParseError::InvalidTxType(tx_type)) = result {
        assert_eq!(tx_type, tx_input.tag().tx_type);
    }
}

#[test]
fn test_parse_deposit_aux_data_too_short() {
    let agg = keypair(1);
    let d = test_deposit(9, 5000);
    let tx = deposit_tx(&d, &agg, &agg);
    let tx_input = tagged(tx, DEPOSIT_TX_TYPE, vec![0u8; MIN_DEPOSIT_TX_AUX_DATA_LEN - 1]);
    let result = parse_deposit_tx(&tx_input);
    assert!(result.is_err(), "Should fail with insufficient auxiliary data");
    assert!(matches!(result, Err(DepositTxParseError::InvalidAuxiliaryData(_))));
    if let Err(DepositTxParseError::InvalidAuxiliaryData(len)) = result {
        assert_eq!(len, MIN_DEPOSIT_TX_AUX_DATA_LEN - 1);
    }
}

#[test]
fn test_parse_deposit_empty_destination() {
    let agg = keypair(1);
    let d = test_deposit(10, 5000);
    let tx = deposit_tx(&d, &agg, &agg);
    let tx_input = tagged(tx, DEPOSIT_TX_TYPE, vec![0u8; MIN_DEPOSIT_TX_AUX_DATA_LEN]);
    let result = parse_deposit_tx(&tx_input);
    assert!(result.is_ok(), "Should succeed with empty destination");
    let info = result.unwrap();
    assert!(info.address.is_empty(), "Address should be empty");
}

#[test]
fn test_parse_deposit_missing_output() {
    let agg = keypair(1);
    let d = test_deposit(11, 5000);
    let mut tx = deposit_tx(&d, &agg, &agg);
    tx.outputs.truncate(1);
    let tx_input = tagged(tx, DEPOSIT_TX_TYPE, deposit_aux(&d));
    let result = parse_deposit_tx(&tx_input);
    assert!(result.is_err(), "Should fail with missing deposit output");
    assert!(matches!(result, Err(DepositTxParseError::MissingDepositOutput)));
}

#[test]
fn parse_deposit_reads_big_endian_index() {
    let agg = keypair(1);
    let d = TestDeposit { deposit_idx: 0x0102_0304, amt: 42, address: vec![9, 8, 7], root: [0xee; 32] };
    let tx = deposit_tx(&d, &agg, &agg);
    let info = parse_deposit_tx(&tagged(tx, DEPOSIT_TX_TYPE, deposit_aux(&d))).unwrap();
    assert_eq!(info.deposit_idx, 16_909_060);
    assert_eq!(info.address, vec![9, 8, 7]);
    assert_eq!(info.amt, 42);
}

// ---- deposit validation ----

#[test]
fn test_validate_deposit_output_lock_success() {
    let agg = keypair(2);
    let tx = deposit_tx(&test_deposit(1, 7000), &agg, &agg);
    let result = validate_deposit_output_lock(&tx, &pk(&agg));
    assert!(result.is_ok(), "Valid deposit output lock should pass validation");
}

#[test]
fn test_validate_deposit_output_lock_wrong_script() {
    let agg = keypair(2);
    let mut tx = deposit_tx(&test_deposit(2, 7000), &agg, &agg);
    tx.outputs[1].script_pubkey = vec![];
    let result = validate_deposit_output_lock(&tx, &pk(&agg));
    assert!(result.is_err(), "Should fail when deposit output has wrong script");
    assert!(matches!(result, Err(DepositValidationError::InvalidSignature { .. })));
    if let Err(DepositValidationError::InvalidSignature { reason }) = result {
        assert!(reason.contains("not locked to the aggregated operator key"));
    }
}

#[test]
fn test_validate_drt_spending_signature_no_witness() {
    let agg = keypair(3);
    let d = test_deposit(3, 8000);
    let mut tx = deposit_tx(&d, &agg, &agg);
    tx.inputs[0].witness.clear();
    let result = validate_drt_spending_signature(&tx, d.root, &pk(&agg), d.amt);
    assert!(result.is_err(), "Should fail when no witness data is present");
    assert!(matches!(result, Err(DepositValidationError::InvalidSignature { .. })));
    if let Err(DepositValidationError::InvalidSignature { reason }) = result {
        assert!(reason.contains("No witness data found"));
    }
}

#[test]
fn test_validate_drt_spending_signature_invalid_signature() {
    let agg = keypair(3);
    let d = test_deposit(4, 8000);
    let mut tx = deposit_tx(&d, &agg, &agg);
    tx.inputs[0].witness = vec![vec![0u8; 64]];
    let result = validate_drt_spending_signature(&tx, d.root, &pk(&agg), d.amt);
    assert!(result.is_err(), "Should fail with invalid signature");
    assert!(matches!(result, Err(DepositValidationError::InvalidSignature { .. })));
}

#[test]
fn test_validate_drt_spending_signature_success() {
    let agg = keypair(3);
    let d = test_deposit(5, 8000);
    let tx = deposit_tx(&d, &agg, &agg);
    let result = validate_drt_spending_signature(&tx, d.root, &pk(&agg), d.amt);
    assert!(result.is_ok(), "Valid signature should pass validation");
}

#[test]
fn drt_signature_with_bad_length_fails_to_parse() {
    let agg = keypair(3);
    let d = test_deposit(6, 8000);
    let mut tx = deposit_tx(&d, &agg, &agg);
    tx.inputs[0].witness = vec![vec![0u8; 63]];
    let result = validate_drt_spending_signature(&tx, d.root, &pk(&agg), d.amt);
    assert_eq!(
        result,
        Err(DepositValidationError::InvalidSignature {
            reason: "Failed to parse taproot signature: invalid taproot signature size: 63".to_string()
        })
    );
}

#[test]
fn drt_signature_under_wrong_amount_fails() {
    let agg = keypair(3);
    let d = test_deposit(12, 8000);
    let tx = deposit_tx(&d, &agg, &agg);
    let result = validate_drt_spending_signature(&tx, d.root, &pk(&agg), d.amt + 1);
    assert_eq!(
        result,
        Err(DepositValidationError::InvalidSignature {
            reason: "Schnorr signature verification failed: signature failed verification".to_string()
        })
    );
}

#[test]
fn test_create_valid_p2tr_script() {
    let agg = keypair(4);
    let operators_pubkey = pk(&agg);
    let operators_xonly = XOnlyPublicKey::from_slice(operators_pubkey.inner()).unwrap();
    let script = ScriptBuf::new_p2tr(&Secp256k1::new(), operators_xonly, None);
    assert!(script.is_p2tr(), "Generated script should be P2TR");
    assert_eq!(script.len(), 34, "P2TR script should be 34 bytes");
}

// ---- bridge state ----

#[test]
fn test_process_deposit_tx_success() {
    let (mut bridge_state, agg) = create_test_state();
    for i in 0..5u32 {
        let d = test_deposit(200 + i, bridge_state.denomination());
        let tx = deposit_tx(&d, &agg, &agg);
        let info = deposit_info(&d, &tx);
        let result = bridge_state.process_deposit_tx(&tx, &info);
        assert!(result.is_ok(), "Valid deposit should be processed successfully");

        assert_eq!(bridge_state.deposits().len(), i + 1);
        let stored = bridge_state.deposits().get_deposit(info.deposit_idx);
        assert!(stored.is_some(), "Deposit should be found in deposits table");
        let stored = stored.unwrap();
        assert_eq!(stored.idx(), info.deposit_idx);
        assert_eq!(stored.amt(), info.amt);
        assert_eq!(stored.output(), &info.outpoint);
    }
}

#[test]
fn test_process_deposit_tx_invalid_amount() {
    let (mut bridge_state, agg) = create_test_state();
    let d = test_deposit(300, 123_456);
    let tx = deposit_tx(&d, &agg, &agg);
    let info = deposit_info(&d, &tx);
    let result = bridge_state.process_deposit_tx(&tx, &info);
    assert!(result.is_err(), "Deposit with wrong amount should fail");
    assert!(matches!(result, Err(DepositValidationError::MismatchDepositAmount(_))));
    if let Err(DepositValidationError::MismatchDepositAmount(mismatch)) = result {
        assert_eq!(mismatch.expected, bridge_state.denomination());
        assert_eq!(mismatch.got, info.amt);
    }
    assert_eq!(bridge_state.deposits().len(), 0);
}

#[test]
fn test_process_deposit_tx_invalid_signing_set() {
    let (mut bridge_state, agg) = create_test_state();
    let d = test_deposit(301, bridge_state.denomination());
    let other_signer = keypair(0x77);
    let tx = deposit_tx(&d, &agg, &other_signer);
    let info = deposit_info(&d, &tx);
    let result = bridge_state.process_deposit_tx(&tx, &info);
    assert!(result.is_err(), "Invalid signature should fail validation");
    assert!(matches!(result, Err(DepositValidationError::InvalidSignature { .. })));
    assert_eq!(bridge_state.deposits().len(), 0);
}

#[test]
fn process_deposit_tx_rejects_duplicate_index() {
    let (mut bridge_state, agg) = create_test_state();
    let d = test_deposit(302, bridge_state.denomination());
    let tx = deposit_tx(&d, &agg, &agg);
    let info = deposit_info(&d, &tx);
    bridge_state.process_deposit_tx(&tx, &info).unwrap();
    let again = bridge_state.process_deposit_tx(&tx, &info);
    assert_eq!(again, Err(DepositValidationError::DepositIdxAlreadyExists(d.deposit_idx)));
    assert_eq!(bridge_state.deposits().len(), 1);
}

#[test]
fn process_deposit_tx_rejects_output_locked_elsewhere() {
    let (mut bridge_state, agg) = create_test_state();
    let d = test_deposit(303, bridge_state.denomination());
    let mut tx = deposit_tx(&d, &agg, &agg);
    tx.outputs[1].script_pubkey =
        ScriptBuf::new_p2tr(&Secp256k1::new(), xonly(&keypair(0x55)), None).into_bytes();
    // The signature commits to the outputs, so it no longer verifies either.
    let info = deposit_info(&d, &tx);
    let result = bridge_state.process_deposit_tx(&tx, &info);
    assert!(matches!(result, Err(DepositValidationError::InvalidSignature { .. })));
    assert_eq!(bridge_state.deposits().len(), 0);
}

#[test]
fn test_create_withdrawal_assignment_success() {
    let (mut state, agg) = create_test_state();
    let count = 4u32;
    add_deposits(&mut state, count, &agg);

    for i in 0..count {
        assert_eq!(state.deposits().len(), count - i);
        assert_eq!(state.assignments().len(), i);

        let output = withdraw_output(i, state.denomination());
        let res = state.create_withdrawal_assignment(&output, &l1blk(i), &pick);
        assert!(res.is_ok());

        assert_eq!(state.deposits().len(), count - i - 1);
        assert_eq!(state.assignments().len(), i + 1);
    }

    let output = withdraw_output(9, state.denomination());
    let res = state.create_withdrawal_assignment(&output, &l1blk(9), &pick);
    assert!(res.is_err());
    assert_eq!(res, Err(WithdrawalCommandError::NoUnassignedDeposits));
}

#[test]
fn test_create_withdrawal_assignment_failure() {
    let (mut state, agg) = create_test_state();
    add_deposits(&mut state, 1, &agg);
    let output = withdraw_output(0, 31_337);
    let res = state.create_withdrawal_assignment(&output, &l1blk(0), &pick);
    assert!(res.is_err());
    assert!(matches!(res, Err(WithdrawalCommandError::DepositWithdrawalAmountMismatch(_))));
}

#[test]
fn assignment_goes_to_a_current_operator_with_deadline() {
    let (mut state, agg) = create_test_state();
    add_deposits(&mut state, 1, &agg);
    let blk = L1BlockCommitment::new(1000, [2u8; 32]);
    let output = withdraw_output(1, state.denomination());
    state.create_withdrawal_assignment(&output, &blk, &pick).unwrap();
    let a = &state.assignments().assignments()[0];
    assert_eq!(a.current_assignee(), 2); // seed byte 2 over operators [0, 1, 2, 3]
    assert_eq!(a.exec_deadline(), 1144);
    assert_eq!(a.withdrawal_command().net_amount(), DENOMINATION - 100_000);
}

#[test]
fn test_process_withdrawal_fulfillment_tx_success() {
    let (mut bridge_state, agg) = create_test_state();
    let count = 3;
    add_deposits_and_assignments(&mut bridge_state, count, &agg);

    for _ in 0..count {
        let assignment = bridge_state.assignments().assignments().first().unwrap();
        let withdrawal_info = create_withdrawal_info_from_assignment(assignment);
        let tx = withdrawal_fulfillment_tx(&withdrawal_info);
        let res = bridge_state.process_withdrawal_fulfillment_tx(&tx, &withdrawal_info);
        assert!(res.is_ok());
        let claim = res.unwrap();
        assert_eq!(claim.withdrawal_txid, txid(&tx));
        assert_eq!(claim.deposit_idx, withdrawal_info.deposit_idx);
        assert!(bridge_state.assignments().get_assignment(withdrawal_info.deposit_idx).is_none());
    }
    assert!(bridge_state.assignments().is_empty());
}

#[test]
fn test_process_withdrawal_fulfillment_tx_operator_mismatch() {
    let (mut bridge_state, agg) = create_test_state();
    add_deposits_and_assignments(&mut bridge_state, 3, &agg);

    let assignment = bridge_state.assignments().assignments().first().unwrap();
    let mut withdrawal_info = create_withdrawal_info_from_assignment(assignment);
    let correct_operator_idx = withdrawal_info.operator_idx;
    withdrawal_info.operator_idx = correct_operator_idx + 17;
    let tx = withdrawal_fulfillment_tx(&withdrawal_info);
    let res = bridge_state.process_withdrawal_fulfillment_tx(&tx, &withdrawal_info);

    assert!(res.is_err());
    assert!(matches!(res, Err(WithdrawalValidationError::OperatorMismatch(_))));
    if let Err(WithdrawalValidationError::OperatorMismatch(mismatch)) = res {
        assert_eq!(mismatch.expected, correct_operator_idx);
        assert_eq!(mismatch.got, withdrawal_info.operator_idx);
    }
}

#[test]
fn test_process_withdrawal_fulfillment_tx_deposit_txid_mismatch() {
    let (mut bridge_state, agg) = create_test_state();
    add_deposits_and_assignments(&mut bridge_state, 3, &agg);

    let assignment = bridge_state.assignments().assignments().first().unwrap();
    let mut withdrawal_info = create_withdrawal_info_from_assignment(assignment);
    let correct_deposit_txid = withdrawal_info.deposit_txid;
    withdrawal_info.deposit_txid = [0xd1; 32];
    let tx = withdrawal_fulfillment_tx(&withdrawal_info);
    let res = bridge_state.process_withdrawal_fulfillment_tx(&tx, &withdrawal_info);

    assert!(res.is_err());
    assert!(matches!(res, Err(WithdrawalValidationError::DepositTxidMismatch(_))));
    if let Err(WithdrawalValidationError::DepositTxidMismatch(mismatch)) = res {
        assert_eq!(mismatch.expected, correct_deposit_txid);
        assert_eq!(mismatch.got, withdrawal_info.deposit_txid);
    }
}

#[test]
fn test_process_withdrawal_fulfillment_tx_destination_mismatch() {
    let (mut bridge_state, agg) = create_test_state();
    add_deposits_and_assignments(&mut bridge_state, 3, &agg);

    let assignment = bridge_state.assignments().assignments().first().unwrap();
    let mut withdrawal_info = create_withdrawal_info_from_assignment(assignment);
    let correct_withdrawal_destination = withdrawal_info.withdrawal_destination.clone();
    withdrawal_info.withdrawal_destination =
        ScriptBuf::new_p2tr(&Secp256k1::new(), xonly(&keypair(0x66)), None).into_bytes();
    let tx = withdrawal_fulfillment_tx(&withdrawal_info);
    let res = bridge_state.process_withdrawal_fulfillment_tx(&tx, &withdrawal_info);

    assert!(res.is_err());
    assert!(matches!(res, Err(WithdrawalValidationError::DestinationMismatch(_))));
    if let Err(WithdrawalValidationError::DestinationMismatch(mismatch)) = res {
        assert_eq!(mismatch.expected, correct_withdrawal_destination);
        assert_eq!(mismatch.got, withdrawal_info.withdrawal_destination);
    }
}

#[test]
fn test_process_withdrawal_fulfillment_tx_amount_mismatch() {
    let (mut bridge_state, agg) = create_test_state();
    add_deposits_and_assignments(&mut bridge_state, 3, &agg);

    let assignment = bridge_state.assignments().assignments().first().unwrap();
    let mut withdrawal_info = create_withdrawal_info_from_assignment(assignment);
    let correct_withdrawal_amount = withdrawal_info.withdrawal_amount;
    withdrawal_info.withdrawal_amount = correct_withdrawal_amount + 1;
    let tx = withdrawal_fulfillment_tx(&withdrawal_info);
    let res = bridge_state.process_withdrawal_fulfillment_tx(&tx, &withdrawal_info);

    assert!(res.is_err());
    assert!(matches!(res, Err(WithdrawalValidationError::AmountMismatch(_))));
    if let Err(WithdrawalValidationError::AmountMismatch(mismatch)) = res {
        assert_eq!(mismatch.expected, correct_withdrawal_amount);
        assert_eq!(mismatch.got, withdrawal_info.withdrawal_amount);
    }
}

#[test]
fn test_process_withdrawal_fulfillment_tx_no_assignment_found() {
    let (mut bridge_state, agg) = create_test_state();
    add_deposits_and_assignments(&mut bridge_state, 3, &agg);

    let assignment = bridge_state.assignments().assignments().first().unwrap();
    let mut withdrawal_info = create_withdrawal_info_from_assignment(assignment);
    withdrawal_info.deposit_idx = 0xdead_beef;

    let tx = withdrawal_fulfillment_tx(&withdrawal_info);
    let res = bridge_state.process_withdrawal_fulfillment_tx(&tx, &withdrawal_info);

    assert!(res.is_err());
    assert!(matches!(res, Err(WithdrawalValidationError::NoAssignmentFound { .. })));
    if let Err(WithdrawalValidationError::NoAssignmentFound { deposit_idx }) = res {
        assert_eq!(deposit_idx, withdrawal_info.deposit_idx);
    }
}

// ---- bridge subprotocol messages ----

#[test]
fn dispatch_withdrawal_messages_consume_deposits_in_order() {
    let (mut state, agg) = create_test_state();
    add_deposits(&mut state, 3, &agg);
    let oldest: Vec<u32> = state.deposits().deposits().iter().map(|d| d.idx()).collect();
    let msgs = vec![
        BridgeIncomingMsg::DispatchWithdrawal(withdraw_output(0, DENOMINATION)),
        BridgeIncomingMsg::DispatchWithdrawal(withdraw_output(1, DENOMINATION)),
    ];
    assert!(BridgeV1Subproto::process_msgs(&mut state, &msgs, &pick).is_ok());
    assert_eq!(state.deposits().len(), 1);
    assert_eq!(state.deposits().deposits()[0].idx(), oldest[2]);
    assert_eq!(state.assignments().len(), 2);
}

#[test]
fn dispatch_withdrawal_with_wrong_amount_fails() {
    let (mut state, agg) = create_test_state();
    add_deposits(&mut state, 2, &agg);
    let msgs = vec![
        BridgeIncomingMsg::DispatchWithdrawal(withdraw_output(0, DENOMINATION)),
        BridgeIncomingMsg::DispatchWithdrawal(withdraw_output(1, 5)),
    ];
    let res = BridgeV1Subproto::process_msgs(&mut state, &msgs, &pick);
    assert!(matches!(res, Err(WithdrawalCommandError::DepositWithdrawalAmountMismatch(_))));
}

#[test]
fn xonly_key_must_be_on_the_curve() {
    assert!(XOnlyPk::new([0xff; 32]).is_none());
    let kp = keypair(9);
    let key = XOnlyPk::new(xonly(&kp).serialize()).unwrap();
    assert_eq!(key.inner(), &xonly(&kp).serialize());
}

#[test]
fn amount_mismatch_is_reported_before_the_transaction_is_inspected() {
    let (mut bridge_state, _agg) = create_test_state();
    let empty = BitcoinTx { version: 2, lock_time: 0, inputs: vec![], outputs: vec![] };
    let info = DepositInfo {
        deposit_idx: 1,
        amt: 5,
        address: vec![],
        outpoint: OutputRef { txid: [0; 32], vout: 1 },
        drt_tapscript_merkle_root: [0; 32],
    };
    assert_eq!(
        bridge_state.process_deposit_tx(&empty, &info),
        Err(DepositValidationError::MismatchDepositAmount(strata_asm::bridge::errors::Mismatch {
            expected: DENOMINATION,
            got: 5
        }))
    );
}

fn no_withdrawal_parser(_t: &TxInputRef) -> Result<WithdrawalFulfillmentInfo, String> {
    Err("not a withdrawal".to_string())
}

#[test]
fn parse_tx_dispatches_on_the_tag_type() {
    let agg = keypair(1);
    let d = test_deposit(13, 5000);
    let tx = deposit_tx(&d, &agg, &agg);

    let dep = parse_tx(&tagged(tx.clone(), DEPOSIT_TX_TYPE, deposit_aux(&d)), &no_withdrawal_parser);
    assert!(matches!(dep, Ok(ParsedTx::Deposit(ref info)) if info.deposit_idx == d.deposit_idx));

    let short = parse_tx(&tagged(tx.clone(), DEPOSIT_TX_TYPE, vec![0; 3]), &no_withdrawal_parser);
    assert_eq!(short, Err(BridgeSubprotocolError::DepositTxParse(DepositTxParseError::InvalidAuxiliaryData(3))));

    let wd = parse_tx(&tagged(tx.clone(), 2, vec![]), &no_withdrawal_parser);
    assert_eq!(wd, Err(BridgeSubprotocolError::WithdrawalTxParse("not a withdrawal".to_string())));

    let other = parse_tx(&tagged(tx, 7, vec![]), &no_withdrawal_parser);
    assert_eq!(other, Err(BridgeSubprotocolError::UnsupportedTxType(7)));
}
