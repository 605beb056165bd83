use solana_tracker::error::AppError;
use solana_tracker::fetched::{
    AccountKeys, FetchedTransaction, ResolvedAccount, TokenBalance, TransactionBody,
    TransactionMeta,
};
use solana_tracker::models::{to_signed, BalanceChange};
use solana_tracker::parser::{extract_balance_changes, parse_transaction, parse_with_block_time};
use solana_tracker::timestamp::block_time_of;

fn meta(pre: Vec<u64>, post: Vec<u64>) -> TransactionMeta {
    TransactionMeta {
        failed: false,
        fee: 10,
        pre_balances: pre,
        post_balances: post,
        pre_token_balances: None,
        post_token_balances: None,
        compute_units_consumed: Some(1500),
    }
}

fn json(signatures: &[&str], keys: &[&str]) -> TransactionBody {
    TransactionBody::Json {
        signatures: signatures.iter().map(|s| s.to_string()).collect(),
        account_keys: AccountKeys::Addresses(keys.iter().map(|s| s.to_string()).collect()),
    }
}

fn fetched(body: TransactionBody, meta: Option<TransactionMeta>) -> FetchedTransaction {
    FetchedTransaction { slot: 42, block_time: Some(1_700_000_000), body, meta }
}

fn token(account_index: u8, mint: &str, amount: &str) -> TokenBalance {
    TokenBalance { account_index, mint: mint.to_string(), amount: amount.to_string() }
}

fn change(address: &str, mint: Option<&str>, pre: i64, post: i64) -> BalanceChange {
    BalanceChange {
        account_address: address.to_string(),
        mint_address: mint.map(|m| m.to_string()),
        pre_balance: pre,
        post_balance: post,
    }
}

fn parse_error(tx: &FetchedTransaction) -> String {
    match parse_transaction(tx) {
        Err(AppError::ParseError(words)) => words,
        other => panic!("expected a parse error, got {:?}", other),
    }
}

#[test]
fn scenario_two_native_changes() {
    let tx = fetched(json(&["SIG1"], &["A", "B"]), Some(meta(vec![100, 100], vec![90, 110])));
    let record = parse_transaction(&tx).unwrap();
    assert_eq!(record.signature, "SIG1");
    assert_eq!(record.slot, 42);
    assert_eq!(record.block_time, Some(1_700_000_000));
    assert_eq!(record.fee, 10);
    assert_eq!(record.fee_payer, "A");
    assert!(record.success);
    assert_eq!(record.compute_units_consumed, Some(1500));
    assert_eq!(
        record.balance_changes,
        vec![change("A", None, 100, 90), change("B", None, 100, 110)]
    );
    assert_eq!(record.balance_changes[0].delta(), -10);
    assert_eq!(record.balance_changes[1].delta(), 10);
}

#[test]
fn unchanged_accounts_are_not_emitted() {
    let body = json(&["S"], &["A", "B", "C"]);
    let changes = extract_balance_changes(&body, &meta(vec![5, 7, 9], vec![5, 8, 9]));
    assert_eq!(changes, vec![change("B", None, 7, 8)]);
    let none = extract_balance_changes(&body, &meta(vec![5, 7, 9], vec![5, 7, 9]));
    assert!(none.is_empty());
    for c in &changes {
        assert_ne!(c.delta(), 0);
    }
}

#[test]
fn balance_lists_of_unequal_length_are_paired_up_to_the_shorter() {
    let body = json(&["S"], &["A", "B", "C"]);
    let changes = extract_balance_changes(&body, &meta(vec![1, 2, 3], vec![4, 2]));
    assert_eq!(changes, vec![change("A", None, 1, 4)]);
}

#[test]
fn account_beyond_the_list_gets_a_placeholder() {
    let body = json(&["S"], &["A"]);
    let changes = extract_balance_changes(&body, &meta(vec![1, 2, 3], vec![1, 20, 30]));
    assert_eq!(
        changes,
        vec![change("unknown_1", None, 2, 20), change("unknown_2", None, 3, 30)]
    );
    let mut many = meta(vec![0; 13], vec![0; 13]);
    many.post_balances[12] = 1;
    assert_eq!(extract_balance_changes(&body, &many), vec![change("unknown_12", None, 0, 1)]);
}

#[test]
fn balances_are_read_as_signed_numbers_of_the_same_bits() {
    assert_eq!(to_signed(0), 0);
    assert_eq!(to_signed(i64::MAX as u64), i64::MAX);
    assert_eq!(to_signed(1u64 << 63), i64::MIN);
    assert_eq!(to_signed(u64::MAX), -1);
    let body = json(&["S"], &["A"]);
    let changes = extract_balance_changes(&body, &meta(vec![u64::MAX], vec![3]));
    assert_eq!(changes, vec![change("A", None, -1, 3)]);
    assert_eq!(changes[0].delta(), 4);
}

#[test]
fn token_changes_come_from_matched_entries_only() {
    let body = json(&["S"], &["A", "B", "C", "D"]);
    let mut m = meta(vec![1, 1, 1, 1], vec![1, 1, 1, 1]);
    m.pre_token_balances = Some(vec![
        token(1, "MINT1", "500"),
        token(2, "MINT2", "70"),
        token(3, "MINT3", "9"),
    ]);
    m.post_token_balances = Some(vec![
        token(2, "MINT2", "70"),
        token(1, "MINT1", "650"),
        token(0, "MINT0", "1"),
    ]);
    let changes = extract_balance_changes(&body, &m);
    assert_eq!(changes, vec![change("B", Some("MINT1"), 500, 650)]);
    assert_eq!(changes[0].delta(), 150);
}

#[test]
fn native_changes_carry_no_mint_and_token_changes_always_do() {
    let body = json(&["S"], &["A", "B"]);
    let mut m = meta(vec![10, 20], vec![11, 19]);
    m.pre_token_balances = Some(vec![token(0, "M", "1"), token(1, "N", "2")]);
    m.post_token_balances = Some(vec![token(0, "M", "3"), token(1, "N", "5")]);
    let changes = extract_balance_changes(&body, &m);
    assert_eq!(changes.len(), 4);
    assert!(changes[0].mint_address.is_none());
    assert!(changes[1].mint_address.is_none());
    assert_eq!(changes[2], change("A", Some("M"), 1, 3));
    assert_eq!(changes[3], change("B", Some("N"), 2, 5));
}

#[test]
fn amount_that_is_no_number_counts_as_zero() {
    let body = json(&["S"], &["A", "B"]);
    let mut m = meta(vec![], vec![]);
    m.pre_token_balances = Some(vec![token(0, "M", "12x"), token(1, "N", "")]);
    m.post_token_balances = Some(vec![token(0, "M", "40"), token(1, "N", "oops")]);
    let changes = extract_balance_changes(&body, &m);
    assert_eq!(changes, vec![change("A", Some("M"), 0, 40)]);
    let mut big = meta(vec![], vec![]);
    big.pre_token_balances = Some(vec![token(0, "M", "18446744073709551615")]);
    big.post_token_balances = Some(vec![token(0, "M", "5")]);
    assert_eq!(extract_balance_changes(&body, &big), vec![change("A", Some("M"), 0, 5)]);
}

#[test]
fn first_matching_post_entry_is_the_one_compared() {
    let body = json(&["S"], &["A"]);
    let mut m = meta(vec![], vec![]);
    m.pre_token_balances = Some(vec![token(0, "M", "1")]);
    m.post_token_balances = Some(vec![token(0, "M", "1"), token(0, "M", "2")]);
    assert!(extract_balance_changes(&body, &m).is_empty());
}

#[test]
fn token_account_beyond_the_list_gets_a_placeholder() {
    let body = json(&["S"], &["A"]);
    let mut m = meta(vec![], vec![]);
    m.pre_token_balances = Some(vec![token(200, "M", "1")]);
    m.post_token_balances = Some(vec![token(200, "M", "2")]);
    assert_eq!(extract_balance_changes(&body, &m), vec![change("unknown_200", Some("M"), 1, 2)]);
}

#[test]
fn one_token_list_alone_gives_no_token_change() {
    let body = json(&["S"], &["A"]);
    let mut m = meta(vec![], vec![]);
    m.pre_token_balances = Some(vec![token(0, "M", "1")]);
    assert!(extract_balance_changes(&body, &m).is_empty());
    let mut n = meta(vec![], vec![]);
    n.post_token_balances = Some(vec![token(0, "M", "1")]);
    assert!(extract_balance_changes(&body, &n).is_empty());
}

#[test]
fn unsupported_encoding_has_no_balance_changes() {
    let changes = extract_balance_changes(&TransactionBody::Unsupported, &meta(vec![1], vec![2]));
    assert!(changes.is_empty());
}

#[test]
fn resolved_account_list_works_like_addresses() {
    let body = TransactionBody::Json {
        signatures: vec!["SIG".to_string()],
        account_keys: AccountKeys::Resolved(vec![
            ResolvedAccount { pubkey: "PAYER".to_string(), writable: true, signer: true },
            ResolvedAccount { pubkey: "OTHER".to_string(), writable: true, signer: false },
        ]),
    };
    let record = parse_transaction(&fetched(body, Some(meta(vec![9, 1], vec![4, 6])))).unwrap();
    assert_eq!(record.fee_payer, "PAYER");
    assert_eq!(
        record.balance_changes,
        vec![change("PAYER", None, 9, 4), change("OTHER", None, 1, 6)]
    );
}

#[test]
fn missing_metadata_is_a_parse_error() {
    let tx = fetched(json(&["S"], &["A"]), None);
    assert_eq!(parse_error(&tx), "Transaction missing metadata");
    let unsupported = fetched(TransactionBody::Unsupported, None);
    assert_eq!(parse_error(&unsupported), "Transaction missing metadata");
}

#[test]
fn unsupported_encoding_is_a_parse_error() {
    let tx = fetched(TransactionBody::Unsupported, Some(meta(vec![1], vec![2])));
    assert_eq!(parse_error(&tx), "Unsupported transaction encoding");
}

#[test]
fn missing_signature_is_a_parse_error() {
    let tx = fetched(json(&[], &["A"]), Some(meta(vec![], vec![])));
    assert_eq!(parse_error(&tx), "Transaction has no signature");
    let neither = fetched(json(&[], &[]), Some(meta(vec![], vec![])));
    assert_eq!(parse_error(&neither), "Transaction has no signature");
}

#[test]
fn empty_account_list_is_a_parse_error() {
    let tx = fetched(json(&["S"], &[]), Some(meta(vec![], vec![])));
    assert_eq!(parse_error(&tx), "No account keys in transaction");
}

#[test]
fn first_signature_and_first_account_are_taken() {
    let tx = fetched(json(&["FIRST", "SECOND"], &["P", "Q"]), Some(meta(vec![], vec![])));
    let record = parse_transaction(&tx).unwrap();
    assert_eq!(record.signature, "FIRST");
    assert_eq!(record.fee_payer, "P");
    assert!(record.balance_changes.is_empty());
}

#[test]
fn failed_execution_is_recorded_as_such() {
    let mut m = meta(vec![], vec![]);
    m.failed = true;
    m.compute_units_consumed = None;
    let record = parse_transaction(&fetched(json(&["S"], &["A"]), Some(m))).unwrap();
    assert!(!record.success);
    assert_eq!(record.compute_units_consumed, None);
}

#[test]
fn unknown_block_time_stays_unknown() {
    let mut tx = fetched(json(&["S"], &["A"]), Some(meta(vec![], vec![])));
    tx.block_time = None;
    assert_eq!(parse_transaction(&tx).unwrap().block_time, None);
    assert_eq!(block_time_of(None), None);
}

#[test]
fn block_time_is_the_reported_instant() {
    assert_eq!(block_time_of(Some(0)), Some(0));
    assert_eq!(block_time_of(Some(1_431_648_000)), Some(1_431_648_000));
    assert_eq!(block_time_of(Some(-86_400)), Some(-86_400));
}

#[test]
fn block_time_outside_the_calendar_is_unknown() {
    assert_eq!(block_time_of(Some(i64::MAX)), None);
    assert_eq!(block_time_of(Some(i64::MIN)), None);
    let mut tx = fetched(json(&["S"], &["A"]), Some(meta(vec![], vec![])));
    tx.block_time = Some(i64::MAX);
    assert_eq!(parse_transaction(&tx).unwrap().block_time, None);
}

#[test]
fn given_block_time_is_carried_as_it_is() {
    let tx = fetched(json(&["S"], &["A"]), Some(meta(vec![], vec![])));
    assert_eq!(parse_with_block_time(&tx, Some(7)).unwrap().block_time, Some(7));
    assert_eq!(parse_with_block_time(&tx, None).unwrap().block_time, None);
}

#[test]
fn delta_is_post_less_pre() {
    assert_eq!(change("A", None, 100, 90).delta(), -10);
    assert_eq!(change("A", None, -5, 5).delta(), 10);
    assert_eq!(change("A", None, i64::MIN, 0).has_delta(), false);
    assert_eq!(change("A", None, i64::MAX, -2).has_delta(), false);
    assert_eq!(change("A", None, i64::MAX, -1).delta(), i64::MIN);
    assert_eq!(change("A", None, i64::MIN, -1).has_delta(), true);
    assert_eq!(change("A", None, i64::MIN, -1).delta(), i64::MAX);
}
