use strata_asm::bridge::deposit::{DepositEntry, DepositsTable};
use strata_asm::bridge::errors::DepositValidationError;
use strata_asm::primitives::OutputRef;

fn entry(idx: u32) -> DepositEntry {
    let output = OutputRef { txid: [idx as u8; 32], vout: 1 };
    DepositEntry::new(idx, output, vec![0, 1, 2], 1_000_000).unwrap()
}

#[test]
fn test_deposit_entry_new_empty_operators() {
    let output = OutputRef { txid: [7u8; 32], vout: 3 };
    let operators = vec![];
    let amount = 1_000_000;
    let result = DepositEntry::new(1, output, operators, amount);
    assert!(matches!(result, Err(DepositValidationError::EmptyOperators)));
}

#[test]
fn test_deposits_table_insert_single() {
    let mut table = DepositsTable::new_empty();
    let entry = entry(42);

    let result = table.insert_deposit(entry.clone());
    assert!(result.is_ok());

    assert_eq!(table.len(), 1);
    assert!(!table.is_empty());

    let retrieved = table.get_deposit(entry.idx()).expect("must find inserted deposit");
    assert_eq!(&entry, retrieved);
}

#[test]
fn test_deposits_table_insert_duplicate_idx() {
    let mut table = DepositsTable::new_empty();

    let entry1 = entry(9);
    let deposit_idx = entry1.idx();
    assert!(table.insert_deposit(entry1).is_ok());

    let output = OutputRef { txid: [0xab; 32], vout: 5 };
    let entry2 = DepositEntry::new(deposit_idx, output, vec![4], 2_000_000).unwrap();

    let before = table.clone();
    let result = table.insert_deposit(entry2.clone());
    assert!(matches!(
        result,
        Err(DepositValidationError::DepositIdxAlreadyExists(idx)) if idx == deposit_idx
    ));
    assert_eq!(table, before);
}

#[test]
fn test_deposits_table_inserts_and_removals() {
    let mut table = DepositsTable::new_empty();

    let indices: [u32; 10] = [77, 3, 1_000_000, 15, 8, 4_000_000_000, 0, 512, 31, 2];
    let len = indices.len() as u32;
    assert_eq!(table.len(), 0);
    assert!(table.is_empty());
    for idx in indices {
        assert!(table.insert_deposit(entry(idx)).is_ok());
    }
    assert_eq!(table.len(), len);

    let deposit_indices: Vec<_> = table.deposits().iter().map(|e| e.idx()).collect();
    assert!(deposit_indices.is_sorted());

    let mut removed_indices = Vec::new();
    for i in 0..len {
        let removed = table.remove_oldest_deposit();
        assert!(removed.is_some());
        let idx = removed.unwrap().idx();
        removed_indices.push(idx);
        assert!(table.len() == (len - i - 1));
    }
    assert!(table.remove_oldest_deposit().is_none());

    assert!(removed_indices.is_sorted());
}

#[test]
fn get_deposit_finds_each_inserted_entry_and_nothing_else() {
    let mut table = DepositsTable::new_empty();
    for idx in [5u32, 1, 9, 3] {
        table.insert_deposit(entry(idx)).unwrap();
    }
    for idx in [5u32, 1, 9, 3] {
        assert_eq!(table.get_deposit(idx).map(|e| e.idx()), Some(idx));
    }
    for idx in [0u32, 2, 4, 6, 10] {
        assert!(table.get_deposit(idx).is_none());
    }
}

#[test]
fn deposit_entry_getters_return_constructor_arguments() {
    let output = OutputRef { txid: [3u8; 32], vout: 1 };
    let e = DepositEntry::new(12, output, vec![2, 7], 10_000).unwrap();
    assert_eq!(e.idx(), 12);
    assert_eq!(*e.output(), output);
    assert_eq!(e.notary_operators(), &[2, 7]);
    assert_eq!(e.amt(), 10_000);
}
