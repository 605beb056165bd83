use solana_tracker::client::CommitmentLevel;
use solana_tracker::error::AppError;
use solana_tracker::fetched::{AccountKeys, FetchedTransaction, TransactionBody, TransactionMeta};
use solana_tracker::metrics::{init_metrics, Metrics};
use solana_tracker::models::{BalanceChange, ParsedTransaction};
use solana_tracker::stream::{
    calculate_backoff_delay, classify_update, fetch_request, parse_fetched, session_error,
    session_result, stored_outcome, SessionFault, SessionState, SupervisorAction,
    SupervisorState, TransactionEncoding, UpdateEvent, Work, MAX_DELAY_SECS,
};

fn stream_failure() -> Result<(), AppError> {
    Err(AppError::GrpcStream("Stream error: reset".to_string()))
}

fn record(changes: usize) -> ParsedTransaction {
    let one = BalanceChange {
        account_address: "A".to_string(),
        mint_address: None,
        pre_balance: 1,
        post_balance: 2,
    };
    ParsedTransaction {
        signature: "SIG".to_string(),
        slot: 1,
        block_time: None,
        fee: 0,
        fee_payer: "A".to_string(),
        success: true,
        compute_units_consumed: None,
        balance_changes: vec![one; changes],
    }
}

#[test]
fn backoff_doubles_from_two_seconds_and_stops_at_the_cap() {
    let expected = [2u64, 4, 8, 16, 32, 64, 128, 256, 300, 300, 300, 300];
    for (i, want) in expected.iter().enumerate() {
        assert_eq!(calculate_backoff_delay(i as u32 + 1, 300), *want, "attempt {}", i + 1);
    }
    assert_eq!(calculate_backoff_delay(0, 300), 1);
    assert_eq!(calculate_backoff_delay(u32::MAX, 300), 300);
}

#[test]
fn backoff_without_a_low_cap_stops_doubling_after_ten() {
    assert_eq!(calculate_backoff_delay(9, 100_000), 512);
    assert_eq!(calculate_backoff_delay(10, 100_000), 1024);
    assert_eq!(calculate_backoff_delay(11, 100_000), 1024);
    assert_eq!(calculate_backoff_delay(5, 0), 0);
    assert_eq!(calculate_backoff_delay(5, 7), 7);
}

#[test]
fn backoff_never_shrinks_and_never_exceeds_the_cap() {
    let mut last = 0;
    for attempt in 0..40u32 {
        let delay = calculate_backoff_delay(attempt, MAX_DELAY_SECS);
        assert!(delay >= last);
        assert!(delay <= MAX_DELAY_SECS);
        last = delay;
    }
}

#[test]
fn consecutive_failures_wait_longer_and_a_clean_end_resets() {
    let mut metrics = init_metrics();
    let mut supervisor = SupervisorState::new();
    assert_eq!(supervisor.reconnect_attempts, 0);
    for want in [2u64, 4, 8, 16] {
        let action = supervisor.on_session_end(&mut metrics, &stream_failure());
        assert_eq!(action, SupervisorAction::ReconnectAfter(want));
    }
    assert_eq!(supervisor.reconnect_attempts, 4);
    let action = supervisor.on_session_end(&mut metrics, &Ok(()));
    assert_eq!(action, SupervisorAction::ReconnectNow);
    assert_eq!(supervisor.reconnect_attempts, 0);
    let action = supervisor.on_session_end(&mut metrics, &stream_failure());
    assert_eq!(action, SupervisorAction::ReconnectAfter(2));
    assert_eq!(metrics.stream_reconnections, 6);
    assert!(!metrics.stream_connected);
}

#[test]
fn failure_counter_stays_at_its_largest_value() {
    let mut metrics = init_metrics();
    let mut supervisor = SupervisorState { reconnect_attempts: u32::MAX };
    let action = supervisor.on_session_end(&mut metrics, &stream_failure());
    assert_eq!(action, SupervisorAction::ReconnectAfter(300));
    assert_eq!(supervisor.reconnect_attempts, u32::MAX);
}

#[test]
fn reconnection_counter_stays_at_its_largest_value() {
    let mut metrics = Metrics { stream_reconnections: u64::MAX, ..init_metrics() };
    let mut supervisor = SupervisorState::new();
    supervisor.on_session_end(&mut metrics, &Ok(()));
    assert_eq!(metrics.stream_reconnections, u64::MAX);
}

#[test]
fn transaction_update_is_processed_under_its_base58_signature() {
    let bytes = vec![0x04, 0x30, 0x5e, 0x2b, 0x24, 0x73, 0xf0, 0x58];
    match classify_update(&UpdateEvent::Transaction(Some(bytes))) {
        Work::Process(signature) => assert_eq!(signature, "he11owor1d"),
        other => panic!("unexpected {:?}", other),
    }
    assert_eq!(
        classify_update(&UpdateEvent::Transaction(Some(vec![0, 0, 1]))),
        Work::Process("112".to_string())
    );
}

#[test]
fn transaction_update_without_signature_is_skipped() {
    assert_eq!(
        classify_update(&UpdateEvent::Transaction(Some(vec![]))),
        Work::SkipMissingSignature
    );
    assert_eq!(classify_update(&UpdateEvent::Transaction(None)), Work::SkipMissingTransaction);
}

#[test]
fn other_updates_are_noted_or_ignored() {
    assert_eq!(
        classify_update(&UpdateEvent::Slot { slot: 9, status: 1 }),
        Work::SlotSeen { slot: 9, status: 1 }
    );
    assert_eq!(classify_update(&UpdateEvent::Pong), Work::PongSeen);
    assert_eq!(classify_update(&UpdateEvent::Other), Work::Ignore);
}

#[test]
fn session_start_marks_the_stream_connected() {
    let mut metrics = init_metrics();
    let state = SessionState::start(&mut metrics, 17);
    assert_eq!(state, SessionState { transaction_count: 0, last_ping: 17 });
    assert!(metrics.stream_connected);
    assert_eq!(Metrics { stream_connected: false, ..metrics }, init_metrics());
}

#[test]
fn probe_is_due_every_thirty_seconds_of_session_time() {
    let mut metrics = init_metrics();
    let mut state = SessionState::start(&mut metrics, 100);
    assert!(!state.on_tick(100));
    assert!(!state.on_tick(129));
    assert!(state.on_tick(130));
    assert_eq!(state.last_ping, 130);
    assert!(!state.on_tick(159));
    assert!(state.on_tick(400));
    assert_eq!(state.last_ping, 400);
    assert!(!state.on_tick(3));
    assert_eq!(state.last_ping, 400);
}

#[test]
fn update_carries_the_probe_when_it_is_due() {
    let mut metrics = init_metrics();
    let mut state = SessionState::start(&mut metrics, 0);
    let early = state.on_update(10, &UpdateEvent::Pong);
    assert!(!early.send_ping);
    assert_eq!(early.work, Work::PongSeen);
    let late = state.on_update(31, &UpdateEvent::Transaction(Some(vec![1])));
    assert!(late.send_ping);
    assert_eq!(late.work, Work::Process("2".to_string()));
    assert_eq!(state.last_ping, 31);
    let next = state.on_update(32, &UpdateEvent::Other);
    assert!(!next.send_ping);
}

#[test]
fn success_is_counted_in_session_and_telemetry() {
    let mut metrics = init_metrics();
    let mut state = SessionState::start(&mut metrics, 0);
    let report = state.on_item_done(&mut metrics, &Ok(3), 1_700_000_000);
    assert!(!report);
    assert_eq!(state.transaction_count, 1);
    assert_eq!(metrics.transactions_processed, 1);
    assert_eq!(metrics.balance_changes_recorded, 3);
    assert_eq!(metrics.transactions_failed, 0);
    assert_eq!(metrics.last_transaction_timestamp, Some(1_700_000_000));
}

#[test]
fn progress_is_reported_after_every_tenth_success() {
    let mut metrics = init_metrics();
    let mut state = SessionState::start(&mut metrics, 0);
    let mut reports = Vec::new();
    for i in 1..=25u64 {
        if i % 4 == 0 {
            let failed = Err(AppError::ParseError("x".to_string()));
            assert!(!state.on_item_done(&mut metrics, &failed, 0));
        }
        if state.on_item_done(&mut metrics, &Ok(0), 0) {
            reports.push(i);
        }
    }
    assert_eq!(reports, vec![10, 20]);
    assert_eq!(metrics.transactions_processed, 25);
    assert_eq!(metrics.transactions_failed, 6);
}

#[test]
fn malformed_event_does_not_stop_the_events_after_it() {
    let mut metrics = init_metrics();
    let mut state = SessionState::start(&mut metrics, 0);
    let events = vec![
        UpdateEvent::Transaction(Some(vec![])),
        UpdateEvent::Transaction(None),
        UpdateEvent::Transaction(Some(vec![7, 7])),
        UpdateEvent::Transaction(Some(vec![9])),
    ];
    let mut processed = Vec::new();
    for (i, event) in events.iter().enumerate() {
        let directive = state.on_update(i as u64, event);
        if let Work::Process(signature) = directive.work {
            let outcome = if processed.is_empty() {
                let unsupported = FetchedTransaction {
                    slot: 1,
                    block_time: None,
                    body: TransactionBody::Unsupported,
                    meta: Some(TransactionMeta {
                        failed: false,
                        fee: 0,
                        pre_balances: vec![],
                        post_balances: vec![],
                        pre_token_balances: None,
                        post_token_balances: None,
                        compute_units_consumed: None,
                    }),
                };
                parse_fetched(&Ok(unsupported)).map(|_| 0)
            } else {
                Ok(2)
            };
            let before = state;
            state.on_item_done(&mut metrics, &outcome, 5);
            if outcome.is_err() {
                assert_eq!(state, before);
            }
            processed.push((signature, outcome.is_ok()));
        }
    }
    assert_eq!(processed, vec![("Y2".to_string(), false), ("A".to_string(), true)]);
    assert_eq!(metrics.transactions_failed, 1);
    assert_eq!(metrics.transactions_processed, 1);
    assert_eq!(metrics.balance_changes_recorded, 2);
    assert_eq!(state.transaction_count, 1);
}

#[test]
fn failed_item_is_counted_in_the_telemetry_alone() {
    let mut metrics = init_metrics();
    let mut state = SessionState::start(&mut metrics, 4);
    let before = state;
    let failed = Err(AppError::SolanaClient("down".to_string()));
    assert!(!state.on_item_done(&mut metrics, &failed, 99));
    assert_eq!(state, before);
    assert_eq!(metrics.transactions_failed, 1);
    assert_eq!(metrics.transactions_processed, 0);
    assert_eq!(metrics.last_transaction_timestamp, None);
}

#[test]
fn closed_stream_ends_the_session_cleanly() {
    assert!(session_result(None).is_ok());
}

#[test]
fn transport_faults_end_the_session_with_their_error() {
    match session_result(Some(SessionFault::ReadFailed("reset".to_string()))) {
        Err(AppError::GrpcStream(words)) => assert_eq!(words, "Stream error: reset"),
        other => panic!("unexpected {:?}", other),
    }
    let cases = vec![
        (SessionFault::InvalidEndpoint("e".to_string()), "gRPC connection error: Invalid gRPC endpoint: e"),
        (SessionFault::InvalidToken("t".to_string()), "Configuration error: Invalid auth token: t"),
        (
            SessionFault::ConnectFailed("c".to_string()),
            "gRPC connection error: Failed to connect to gRPC endpoint: c",
        ),
        (
            SessionFault::SubscribeFailed("s".to_string()),
            "gRPC stream error: Failed to create subscription: s",
        ),
        (
            SessionFault::RequestFailed("r".to_string()),
            "gRPC stream error: Failed to send subscription request: r",
        ),
        (SessionFault::ReadFailed("x".to_string()), "gRPC stream error: Stream error: x"),
        (SessionFault::PingFailed("p".to_string()), "gRPC stream error: Failed to send ping: p"),
    ];
    for (fault, text) in cases {
        assert_eq!(session_error(&fault).to_string(), text);
    }
}

#[test]
fn well_formed_signature_gives_the_fixed_request() {
    let signature = "1".repeat(64);
    let request = fetch_request(&signature).unwrap();
    assert_eq!(request.signature, signature);
    assert_eq!(request.encoding, TransactionEncoding::Json);
    assert_eq!(request.commitment, CommitmentLevel::Confirmed);
    assert_eq!(request.max_supported_transaction_version, Some(0));
}

#[test]
fn ill_formed_signature_is_a_parse_error() {
    for text in ["", "SIG1", "0OIl", "he11owor1d"] {
        match fetch_request(text) {
            Err(AppError::ParseError(words)) => {
                assert!(words.starts_with("Invalid signature: "), "{}", words);
                assert!(words.len() > "Invalid signature: ".len());
            }
            other => panic!("unexpected {:?}", other),
        }
    }
}

#[test]
fn failed_request_is_a_client_error() {
    match parse_fetched(&Err("timeout".to_string())) {
        Err(AppError::SolanaClient(words)) => {
            assert_eq!(words, "Failed to fetch transaction: timeout")
        }
        other => panic!("unexpected {:?}", other),
    }
}

#[test]
fn fetched_transaction_is_parsed() {
    let tx = FetchedTransaction {
        slot: 3,
        block_time: Some(10),
        body: TransactionBody::Json {
            signatures: vec!["S".to_string()],
            account_keys: AccountKeys::Addresses(vec!["A".to_string()]),
        },
        meta: None,
    };
    match parse_fetched(&Ok(tx)) {
        Err(AppError::ParseError(words)) => assert_eq!(words, "Transaction missing metadata"),
        other => panic!("unexpected {:?}", other),
    }
}

#[test]
fn stored_record_counts_its_balance_changes() {
    assert_eq!(stored_outcome(&record(3), Ok(())).unwrap(), 3);
    assert_eq!(stored_outcome(&record(0), Ok(())).unwrap(), 0);
    match stored_outcome(&record(3), Err(AppError::Database("gone".to_string()))) {
        Err(AppError::Database(words)) => assert_eq!(words, "gone"),
        other => panic!("unexpected {:?}", other),
    }
}
