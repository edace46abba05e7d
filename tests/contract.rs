use testerc20::{AccountId, CustomRecord, Error, RecordStore, TestErc};

fn id(byte: u8) -> AccountId {
    AccountId::from_bytes([byte; 32])
}

fn values(log: &Option<Vec<CustomRecord>>) -> Vec<u128> {
    log.as_ref().expect("log present").iter().map(|r| r.value).collect()
}

#[test]
fn official_hand_over_and_back() {
    let (alice, bob, carol, ledger) = (id(1), id(2), id(3), id(9));
    let mut state = TestErc::new(ledger, alice);
    assert_eq!(state.official(), alice);
    assert_eq!(state.change_official(alice, bob), Ok(()));
    assert_eq!(state.official(), bob);
    assert_eq!(state.change_official(bob, alice), Ok(()));
    assert_eq!(state.official(), alice);
    assert_eq!(state.change_official(alice, bob), Ok(()));
    assert_eq!(state.change_official(alice, carol), Err(Error::NotOfficial));
    assert_eq!(state.official(), bob);
}

#[test]
fn official_may_reappoint_itself() {
    let alice = id(1);
    let mut state = TestErc::new(id(9), alice);
    assert_eq!(state.change_official(alice, alice), Ok(()));
    assert_eq!(state.official(), alice);
}

#[test]
fn non_official_change_leaves_logs_alone() {
    let (alice, bob) = (id(1), id(2));
    let mut state = TestErc::new(id(9), alice);
    let _ = state.insert_value(bob, alice, 5, 1);
    assert_eq!(state.change_official(bob, bob), Err(Error::NotOfficial));
    assert_eq!(state.official(), alice);
    assert_eq!(values(&state.records_of(bob)), vec![5]);
}

#[test]
fn insert_value_with_allowance_succeeds() {
    let (x, y, ledger) = (id(10), id(11), id(9));
    let mut state = TestErc::new(ledger, id(1));
    assert!(state.records_of(x).is_none());
    let transfer = state.insert_value(x, y, 42, 100);
    assert_eq!(transfer.ledger, ledger);
    assert_eq!(transfer.from, x);
    assert_eq!(transfer.to, y);
    assert_eq!(transfer.amount, 100);
    assert_eq!(values(&state.records_of(x)), vec![42]);
    let ledger_answer: Result<(), &str> = Ok(());
    assert_eq!(TestErc::transfer_result(&ledger_answer), Ok(()));
}

#[test]
fn insert_value_without_allowance_keeps_record() {
    let (x, y) = (id(10), id(11));
    let mut state = TestErc::new(id(9), id(1));
    let transfer = state.insert_value(x, y, 42, 100);
    assert_eq!(transfer.amount, 100);
    let ledger_answer: Result<(), &str> = Err("insufficient allowance");
    assert_eq!(TestErc::transfer_result(&ledger_answer), Err(Error::TransferError));
    assert_eq!(values(&state.records_of(x)), vec![42]);
    assert!(state.records_of(y).is_none());
}

#[test]
fn identical_insertions_make_two_records() {
    let (x, y) = (id(10), id(11));
    let mut state = TestErc::new(id(9), id(1));
    let _ = state.insert_value(x, y, 7, 3);
    let _ = state.insert_value(x, y, 7, 3);
    assert_eq!(values(&state.records_of(x)), vec![7, 7]);
}

#[test]
fn logs_grow_one_record_per_insertion() {
    let (x, y, z) = (id(10), id(11), id(12));
    let mut state = TestErc::new(id(9), id(1));
    let _ = state.insert_value(x, z, 1, 0);
    let _ = state.insert_value(y, z, 100, 0);
    let _ = state.insert_value(x, z, u128::MAX, 0);
    let _ = state.insert_value(x, z, 0, 0);
    assert_eq!(values(&state.records_of(x)), vec![1, u128::MAX, 0]);
    assert_eq!(values(&state.records_of(y)), vec![100]);
    assert!(state.records_of(z).is_none());
}

#[test]
fn store_appends_in_order() {
    let a = id(4);
    let mut store = RecordStore::new();
    assert!(store.get(a).is_none());
    store.append(a, 8);
    assert_eq!(values(&store.get(a)), vec![8]);
    for v in 0..5u128 {
        store.append(a, v);
    }
    assert_eq!(values(&store.get(a)), vec![8, 0, 1, 2, 3, 4]);
    assert!(store.get(id(5)).is_none());
}

#[test]
fn account_ids_compare_by_every_byte() {
    let mut bytes = [0u8; 32];
    let a = AccountId::from_bytes(bytes);
    bytes[31] = 1;
    let b = AccountId::from_bytes(bytes);
    assert!(a != b);
    assert!(a == AccountId::from_bytes([0u8; 32]));
    assert_eq!(b.to_bytes(), bytes);
}

#[test]
fn ledger_identity_is_kept() {
    let state = TestErc::new(id(9), id(1));
    assert_eq!(state.erc20(), id(9));
}
