use solana_tracker::error::AppError;
use solana_tracker::models::{BalanceChange, ParsedTransaction};
use solana_tracker::repository::{
    balance_change_row, begin_insert, continue_insert, transaction_row, BalanceChangeRow,
    InsertState, StoreStep, TransactionRow,
};

struct FakeStore {
    transactions: Vec<(i64, TransactionRow)>,
    balance_changes: Vec<BalanceChangeRow>,
    refuse_transaction: bool,
    refuse_accounts: Vec<String>,
}

fn store() -> FakeStore {
    FakeStore {
        transactions: Vec::new(),
        balance_changes: Vec::new(),
        refuse_transaction: false,
        refuse_accounts: Vec::new(),
    }
}

fn answer(store: &mut FakeStore, step: &StoreStep) -> Result<Option<i64>, String> {
    match step {
        StoreStep::InsertTransaction(row) => {
            if store.refuse_transaction {
                return Err("connection closed".to_string());
            }
            if store.transactions.iter().any(|(_, r)| r.signature == row.signature) {
                return Ok(None);
            }
            let id = store.transactions.len() as i64 + 1;
            store.transactions.push((id, row.clone()));
            Ok(Some(id))
        }
        StoreStep::InsertBalanceChange(row) => {
            if store.refuse_accounts.contains(&row.account_address) {
                return Err("value too long".to_string());
            }
            store.balance_changes.push(row.clone());
            Ok(None)
        }
        StoreStep::Done(_) => unreachable!(),
    }
}

fn insert_complete(store: &mut FakeStore, tx: &ParsedTransaction) -> Result<(), AppError> {
    let (mut state, mut step) = begin_insert(tx);
    loop {
        if let StoreStep::Done(result) = step {
            assert_eq!(state, InsertState::Finished);
            return result;
        }
        let reply = answer(store, &step);
        let next = continue_insert(tx, state, reply);
        state = next.0;
        step = next.1;
    }
}

fn change(address: &str, pre: i64, post: i64) -> BalanceChange {
    BalanceChange {
        account_address: address.to_string(),
        mint_address: None,
        pre_balance: pre,
        post_balance: post,
    }
}

fn record(signature: &str, changes: Vec<BalanceChange>) -> ParsedTransaction {
    ParsedTransaction {
        signature: signature.to_string(),
        slot: 77,
        block_time: Some(1_700_000_000),
        fee: 10,
        fee_payer: "A".to_string(),
        success: true,
        compute_units_consumed: Some(300),
        balance_changes: changes,
    }
}

fn sig1() -> ParsedTransaction {
    record("SIG1", vec![change("A", 100, 90), change("B", 100, 110)])
}

#[test]
fn first_insert_writes_the_transaction_and_its_balance_changes() {
    let mut s = store();
    assert!(insert_complete(&mut s, &sig1()).is_ok());
    assert_eq!(s.transactions.len(), 1);
    assert_eq!(s.transactions[0].1, transaction_row(&sig1()));
    assert_eq!(
        s.balance_changes,
        vec![
            BalanceChangeRow {
                transaction_id: 1,
                account_address: "A".to_string(),
                mint_address: None,
                pre_balance: 100,
                post_balance: 90,
                balance_delta: -10,
            },
            BalanceChangeRow {
                transaction_id: 1,
                account_address: "B".to_string(),
                mint_address: None,
                pre_balance: 100,
                post_balance: 110,
                balance_delta: 10,
            },
        ]
    );
}

#[test]
fn inserting_the_same_record_twice_stores_it_once() {
    let mut s = store();
    assert!(insert_complete(&mut s, &sig1()).is_ok());
    let transactions = s.transactions.len();
    let rows = s.balance_changes.clone();
    assert!(insert_complete(&mut s, &sig1()).is_ok());
    assert_eq!(s.transactions.len(), transactions);
    assert_eq!(s.balance_changes, rows);
    assert_eq!(s.transactions.iter().filter(|(_, r)| r.signature == "SIG1").count(), 1);
}

#[test]
fn redelivery_gets_no_row_and_adds_no_balance_change() {
    let mut s = store();
    assert!(insert_complete(&mut s, &sig1()).is_ok());
    let stored = s.balance_changes.len();
    let (state, step) = begin_insert(&sig1());
    let reply = answer(&mut s, &step);
    assert_eq!(reply, Ok(None));
    let (state, step) = continue_insert(&sig1(), state, reply);
    assert_eq!(state, InsertState::Finished);
    assert!(matches!(step, StoreStep::Done(Ok(()))));
    assert_eq!(s.balance_changes.len(), stored);
    assert_eq!(stored, 2);
}

#[test]
fn other_records_are_stored_beside_it() {
    let mut s = store();
    assert!(insert_complete(&mut s, &sig1()).is_ok());
    assert!(insert_complete(&mut s, &record("SIG2", vec![change("A", 1, 2)])).is_ok());
    assert!(insert_complete(&mut s, &sig1()).is_ok());
    assert_eq!(s.transactions.len(), 2);
    assert_eq!(s.balance_changes.len(), 3);
    assert_eq!(s.balance_changes[2].transaction_id, 2);
}

#[test]
fn one_refused_balance_change_does_not_stop_the_others() {
    let mut s = store();
    s.refuse_accounts = vec!["B".to_string()];
    let tx = record("SIG3", vec![change("A", 1, 2), change("B", 3, 4), change("C", 5, 6)]);
    assert!(insert_complete(&mut s, &tx).is_ok());
    assert_eq!(s.transactions.len(), 1);
    let written: Vec<&str> = s.balance_changes.iter().map(|r| r.account_address.as_str()).collect();
    assert_eq!(written, vec!["A", "C"]);
}

#[test]
fn all_balance_changes_refused_still_ends_well() {
    let mut s = store();
    s.refuse_accounts = vec!["A".to_string(), "B".to_string()];
    assert!(insert_complete(&mut s, &sig1()).is_ok());
    assert_eq!(s.transactions.len(), 1);
    assert!(s.balance_changes.is_empty());
}

#[test]
fn failure_of_the_transaction_row_is_the_inserts_failure() {
    let mut s = store();
    s.refuse_transaction = true;
    match insert_complete(&mut s, &sig1()) {
        Err(AppError::Database(words)) => {
            assert_eq!(words, "Failed to insert transaction: connection closed")
        }
        other => panic!("unexpected {:?}", other),
    }
    assert!(s.transactions.is_empty());
    assert!(s.balance_changes.is_empty());
}

#[test]
fn record_without_balance_changes_ends_after_the_transaction_row() {
    let tx = record("SIG4", vec![]);
    let (state, step) = begin_insert(&tx);
    assert_eq!(state, InsertState::AwaitingTransaction);
    assert!(matches!(step, StoreStep::InsertTransaction(_)));
    let (state, step) = continue_insert(&tx, state, Ok(Some(5)));
    assert_eq!(state, InsertState::Finished);
    assert!(matches!(step, StoreStep::Done(Ok(()))));
}

#[test]
fn balance_changes_go_one_at_a_time_in_order() {
    let tx = sig1();
    let (state, _) = begin_insert(&tx);
    let (state, step) = continue_insert(&tx, state, Ok(Some(9)));
    assert_eq!(state, InsertState::AwaitingBalanceChange { transaction_id: 9, index: 0 });
    match step {
        StoreStep::InsertBalanceChange(row) => assert_eq!(row.account_address, "A"),
        other => panic!("unexpected {:?}", other),
    }
    let (state, step) = continue_insert(&tx, state, Err("refused".to_string()));
    assert_eq!(state, InsertState::AwaitingBalanceChange { transaction_id: 9, index: 1 });
    match step {
        StoreStep::InsertBalanceChange(row) => {
            assert_eq!(row.account_address, "B");
            assert_eq!(row.transaction_id, 9);
            assert_eq!(row.balance_delta, 10);
        }
        other => panic!("unexpected {:?}", other),
    }
    let (state, step) = continue_insert(&tx, state, Ok(None));
    assert_eq!(state, InsertState::Finished);
    assert!(matches!(step, StoreStep::Done(Ok(()))));
    let (state, step) = continue_insert(&tx, state, Ok(None));
    assert_eq!(state, InsertState::Finished);
    assert!(matches!(step, StoreStep::Done(Ok(()))));
}

#[test]
fn change_whose_delta_does_not_fit_is_passed_over() {
    let tx = record(
        "SIG5",
        vec![change("A", i64::MIN, 1), change("B", 1, 2), change("C", i64::MAX, -2)],
    );
    let mut s = store();
    assert!(insert_complete(&mut s, &tx).is_ok());
    assert_eq!(s.balance_changes.len(), 1);
    assert_eq!(s.balance_changes[0].account_address, "B");
    assert!(balance_change_row(1, &change("A", i64::MIN, 1)).is_none());
    let row = balance_change_row(4, &change("T", 5, 3)).unwrap();
    assert_eq!(row.balance_delta, -2);
    assert_eq!(row.transaction_id, 4);
}

#[test]
fn state_past_the_last_change_ends_the_insert() {
    let tx = sig1();
    let state = InsertState::AwaitingBalanceChange { transaction_id: 1, index: usize::MAX };
    let (state, step) = continue_insert(&tx, state, Ok(None));
    assert_eq!(state, InsertState::Finished);
    assert!(matches!(step, StoreStep::Done(Ok(()))));
}

#[test]
fn transaction_row_reads_unsigned_fields_as_signed() {
    let mut tx = record("S", vec![]);
    tx.slot = u64::MAX;
    tx.fee = 1u64 << 63;
    tx.compute_units_consumed = Some(u64::MAX - 1);
    tx.block_time = None;
    tx.success = false;
    let row = transaction_row(&tx);
    assert_eq!(
        row,
        TransactionRow {
            signature: "S".to_string(),
            slot: -1,
            block_time: None,
            fee: i64::MIN,
            fee_payer: "A".to_string(),
            success: false,
            compute_units_consumed: Some(-2),
        }
    );
    let plain = transaction_row(&sig1());
    assert_eq!(plain.slot, 77);
    assert_eq!(plain.fee, 10);
    assert_eq!(plain.compute_units_consumed, Some(300));
    assert_eq!(plain.block_time, Some(1_700_000_000));
}

#[test]
fn token_change_keeps_its_mint_in_the_row() {
    let c = BalanceChange {
        account_address: "A".to_string(),
        mint_address: Some("MINT".to_string()),
        pre_balance: 0,
        post_balance: 40,
    };
    let row = balance_change_row(2, &c).unwrap();
    assert_eq!(row.mint_address, Some("MINT".to_string()));
    assert_eq!(row.balance_delta, 40);
}
