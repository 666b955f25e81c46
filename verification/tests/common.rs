use std::collections::HashSet;

use strata_asm::aux::{AuxPayload, AuxRequest};
use strata_asm::bridge::assignment::WithdrawOutput;
use strata_asm::bridge::constants::BRIDGE_V1_SUBPROTOCOL_ID;
use strata_asm::bridge::msgs::BridgeIncomingMsg;
use strata_asm::common::error::{AsmError, Mismatched};
use strata_asm::common::genesis::GenesisConfigRegistry;
use strata_asm::common::log::AsmLogEntry;
use strata_asm::common::relay::{AuxInputCollector, InterprotoMsg, MsgRelayer};
use strata_asm::debug::{process_parsed_debug_tx, DebugSubproto, ParsedDebugTx};
use strata_asm::logs::constants::all_type_ids;
use strata_asm::logs::types::{AsmStfUpdate, CheckpointUpdate, ForcedInclusionData};
use strata_asm::primitives::{L1BlockCommitment, L2BlockCommitment};
use strata_asm::stf::loader::{aux_payloads_for, loaded_state_source, StateSource};
use strata_asm::stf::manager::SubprotoManager;
use strata_asm::stf::spec::StrataAsmSpec;
use strata_asm::stf::tx_filter::group_txs_by_subprotocol;

#[test]
fn test_genesis_registry() {
    let mut registry = GenesisConfigRegistry::new();
    let config: u32 = 42;

    registry.register(1, borsh::to_vec(&config).unwrap());
    assert!(registry.contains(1));
    assert_eq!(registry.len(), 1);

    let retrieved: u32 = borsh::from_slice(registry.get_raw(1).unwrap()).unwrap();
    assert_eq!(retrieved, config);

    let missing: Option<u32> = registry.get_raw(2).map(|b| borsh::from_slice(b).unwrap());
    assert!(missing.is_none());
}

#[test]
fn genesis_registry_register_replaces_earlier_config() {
    let mut registry = GenesisConfigRegistry::new();
    assert!(registry.is_empty());
    registry.register(3, vec![1, 2]);
    registry.register(3, vec![9]);
    registry.register(4, vec![]);
    assert_eq!(registry.len(), 2);
    assert!(!registry.is_empty());
    assert_eq!(registry.get_raw(3), Some(&[9u8][..]));
    assert_eq!(registry.get_raw(4), Some(&[][..]));
    assert!(!registry.contains(5));
}

#[test]
fn test_all_type_ids_are_unique() {
    let type_ids = all_type_ids();
    let unique_ids: HashSet<_> = type_ids.iter().collect();
    assert_eq!(type_ids.len(), unique_ids.len(), "All type IDs must be unique");
    assert_eq!(type_ids, vec![1, 2, 3, 4, 5, 6]);
}

#[test]
fn log_entry_keeps_its_raw_bytes() {
    let entry = AsmLogEntry::from_raw(vec![0xde, 0xad, 0xbe, 0xef]);
    assert_eq!(entry.as_bytes(), &[0xde, 0xad, 0xbe, 0xef]);
    assert_eq!(entry.clone().into_bytes(), vec![0xde, 0xad, 0xbe, 0xef]);
    assert_eq!(entry.0, vec![0xde, 0xad, 0xbe, 0xef]);
}

#[test]
fn aux_request_and_payload_keep_their_data() {
    let req = AuxRequest::new(vec![1, 2, 3]);
    assert_eq!(req.data(), &[1, 2, 3]);
    let payload = AuxPayload::new(vec![4, 5]);
    assert_eq!(payload.data(), &[4, 5]);
}

#[test]
fn mismatched_and_errors_carry_values() {
    let m = Mismatched { expected: 2u8, actual: 3u8 };
    let e = AsmError::SubprotoIdMismatch(m.clone());
    assert_eq!(e, AsmError::SubprotoIdMismatch(Mismatched { expected: 2, actual: 3 }));
    assert_ne!(AsmError::InvalidSubprotocol(1), AsmError::MissingGenesisConfig(1));
}

#[test]
fn log_payload_constructors_keep_fields() {
    let f = ForcedInclusionData::new(7, vec![1, 1, 2]);
    assert_eq!(f.ee_id, 7);
    assert_eq!(f.payload, vec![1, 1, 2]);
    let c = CheckpointUpdate::new(L1BlockCommitment::new(10, [1; 32]), L2BlockCommitment::new(20, [2; 32]));
    assert_eq!(c.l1_ref.height, 10);
    assert_eq!(c.verified_blk.slot, 20);
    let u = AsmStfUpdate::new(vec![3, 3]);
    assert_eq!(u.new_vk, vec![3, 3]);
}

#[test]
fn strata_spec_magic_bytes() {
    assert_eq!(&StrataAsmSpec.magic_bytes(), b"ALPN");
}

#[test]
fn manager_records_logs_messages_and_requests_in_order() {
    let mut m = SubprotoManager::new();
    m.emit_log(AsmLogEntry::from_raw(vec![1]));
    m.relay_msg(BridgeIncomingMsg::DispatchWithdrawal(WithdrawOutput::new(vec![0x51], 10)));
    m.emit_log(AsmLogEntry::from_raw(vec![2]));
    m.request_aux_input(AuxRequest::new(vec![7]));
    assert_eq!(m.logs().len(), 2);
    assert_eq!(m.logs()[1].as_bytes(), &[2]);
    assert_eq!(m.bridge_msgs().len(), 1);
    let reqs = m.export_aux_requests();
    assert_eq!(reqs.len(), 1);
    assert_eq!(reqs[0].data(), &[7]);
}

#[test]
fn bridge_message_is_addressed_to_the_bridge() {
    let msg = BridgeIncomingMsg::DispatchWithdrawal(WithdrawOutput::new(vec![], 1));
    assert_eq!(msg.id(), BRIDGE_V1_SUBPROTOCOL_ID);
    assert_eq!(msg.id(), 2);
}

#[test]
fn debug_txs_emit_logs_and_relay_withdrawals() {
    let mut m = SubprotoManager::new();
    let w = WithdrawOutput::new(vec![0x00, 0x14], 5000);
    let txs = vec![
        ParsedDebugTx::MockAsmLog(vec![9, 9]),
        ParsedDebugTx::MockWithdrawIntent(w.clone()),
        ParsedDebugTx::MockAsmLog(vec![8]),
    ];
    DebugSubproto::process_txs(txs, &mut m);
    assert_eq!(m.bridge_msgs(), &[BridgeIncomingMsg::DispatchWithdrawal(w)]);
    let logs = m.export_logs();
    assert_eq!(logs, vec![AsmLogEntry::from_raw(vec![9, 9]), AsmLogEntry::from_raw(vec![8])]);
}

#[test]
fn process_parsed_debug_tx_always_succeeds() {
    let mut m = SubprotoManager::new();
    assert!(process_parsed_debug_tx(ParsedDebugTx::MockAsmLog(vec![]), &mut m).is_ok());
    assert_eq!(m.logs().len(), 1);
}

fn plain_tx(lock_time: u32) -> strata_asm::btc::BitcoinTx {
    strata_asm::btc::BitcoinTx { version: 2, lock_time, inputs: vec![], outputs: vec![] }
}

fn tag(id: u8, ty: u8) -> strata_asm::btc::TagData {
    strata_asm::btc::TagData { subproto_id: id, tx_type: ty, aux_data: vec![ty] }
}

#[test]
fn grouping_keeps_order_and_drops_untagged() {
    let candidates = vec![
        (plain_tx(1), Some(tag(2, 1))),
        (plain_tx(2), None),
        (plain_tx(3), Some(tag(1, 5))),
        (plain_tx(4), Some(tag(2, 2))),
    ];
    let groups = group_txs_by_subprotocol(candidates);
    assert_eq!(groups.len(), 2);
    let bridge: Vec<u32> = groups[&2].iter().map(|t| t.tx().lock_time).collect();
    assert_eq!(bridge, vec![1, 4]);
    assert_eq!(groups[&2][1].tag().tx_type, 2);
    let core: Vec<u32> = groups[&1].iter().map(|t| t.tx().lock_time).collect();
    assert_eq!(core, vec![3]);
    assert!(!groups.contains_key(&0));
}

#[test]
fn state_source_prefers_section_then_genesis() {
    let sec = [1u8, 2];
    let gen = [3u8];
    assert_eq!(loaded_state_source(Some(&sec), Some(&gen)), StateSource::Section(&sec));
    assert_eq!(loaded_state_source(None, Some(&gen)), StateSource::Genesis(&gen));
    assert_eq!(loaded_state_source(None, None), StateSource::EmptyConfig);
}

#[test]
fn aux_payloads_are_those_of_the_subprotocol() {
    let mut bundle = std::collections::BTreeMap::new();
    bundle.insert(2u8, vec![AuxPayload::new(vec![5]), AuxPayload::new(vec![6])]);
    let p = aux_payloads_for(&bundle, 2);
    assert_eq!(p.len(), 2);
    assert_eq!(p[1].data(), &[6]);
    assert!(aux_payloads_for(&bundle, 1).is_empty());
}
