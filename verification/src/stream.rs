//! The rules of a subscription session and of the supervisor that reopens
//! it: what to do with each update, when to probe the connection, how an
//! item's outcome is counted, and how long to wait after a failure.

use crate::base58::{base58_text, to_base58};
use crate::client::CommitmentLevel;
use crate::error::AppError;
use crate::fetched::FetchedTransaction;
use crate::keys::{parse_signature, signature_bytes, signature_error_text};
use crate::metrics::{raised, Metrics};
use crate::models::ParsedTransaction;
use crate::parser::{parse_agrees, parse_transaction, parsed_record};
use crate::text::is_prefix;
use crate::timestamp::known_block_time;
use vstd::prelude::*;
use vstd::string::*;

verus! {

/// Seconds of session time between two keepalive probes.
pub const PING_INTERVAL_SECS: u64 = 30;

/// The successes between two progress reports.
pub const PROGRESS_INTERVAL: u64 = 10;

/// The delay that the backoff doubles from, in seconds.
pub const BASE_DELAY_SECS: u64 = 1;

/// The longest delay between two sessions, in seconds.
pub const MAX_DELAY_SECS: u64 = 300;

/// The number of doublings after which the delay grows no more.
pub const MAX_DOUBLINGS: u32 = 10;

/// One update from the subscription, reduced to what the session decides
/// on.
#[derive(Debug, Clone, PartialEq, Eq)]
pub enum UpdateEvent {
    /// A transaction was observed. The payload holds the signature's bytes,
    /// or no transaction at all.
    Transaction(Option<Vec<u8>>),
    /// The ledger advanced to a slot.
    Slot { slot: u64, status: i32 },
    /// The answer to a keepalive probe.
    Pong,
    /// Any other kind of update, or none.
    Other,
}

/// What the session does about one update.
#[derive(Debug, Clone, PartialEq, Eq)]
pub enum Work {
    /// Fetch, parse and store the transaction with this signature.
    Process(String),
    /// A transaction update with an empty signature: nothing to fetch.
    SkipMissingSignature,
    /// A transaction update without a transaction: nothing to fetch.
    SkipMissingTransaction,
    /// Slot progress, to be noted and no more.
    SlotSeen { slot: u64, status: i32 },
    /// A keepalive answer, to be noted and no more.
    PongSeen,
    /// Nothing at all.
    Ignore,
}

/// `work` is what is to be done about `event`. Only a transaction update
/// with a signature leads to processing, under the signature's base58 text;
/// no update ends the session.
pub open spec fn is_work_for(event: UpdateEvent, work: Work) -> bool {
    match event {
        UpdateEvent::Transaction(Some(bytes)) => if bytes@.len() > 0 {
            work matches Work::Process(signature) && signature@ == base58_text(bytes@)
        } else {
            work == Work::SkipMissingSignature
        },
        UpdateEvent::Transaction(None) => work == Work::SkipMissingTransaction,
        UpdateEvent::Slot { slot, status } => work == (Work::SlotSeen { slot, status }),
        UpdateEvent::Pong => work == Work::PongSeen,
        UpdateEvent::Other => work == Work::Ignore,
    }
}

/// Decides what to do about one update. The decision rests on the update
/// alone: what came before it in the session has no part in it.
pub fn classify_update(event: &UpdateEvent) -> (work: Work)
    ensures
        is_work_for(*event, work),
{
    match event {
        UpdateEvent::Transaction(Some(bytes)) => {
            if bytes.len() > 0 {
                Work::Process(to_base58(bytes))
            } else {
                Work::SkipMissingSignature
            }
        },
        UpdateEvent::Transaction(None) => Work::SkipMissingTransaction,
        UpdateEvent::Slot { slot, status } => Work::SlotSeen { slot: *slot, status: *status },
        UpdateEvent::Pong => Work::PongSeen,
        UpdateEvent::Other => Work::Ignore,
    }
}

/// What an open session remembers. Time is session time: seconds on a
/// clock that the process reads and that does not run backwards.
#[derive(Debug, Clone, Copy, PartialEq, Eq, Structural)]
pub struct SessionState {
    /// Transactions processed in this session.
    pub transaction_count: u64,
    /// When the connection was last probed, or the session opened.
    pub last_ping: u64,
}

/// What the session does when an update arrives.
#[derive(Debug, Clone, PartialEq, Eq)]
pub struct Directive {
    /// Send a keepalive probe before anything else.
    pub send_ping: bool,
    pub work: Work,
}

impl SessionState {
    /// A probe is due: the interval has passed since the last one.
    pub open spec fn ping_is_due(&self, now: u64) -> bool {
        now - self.last_ping >= PING_INTERVAL_SECS
    }

    /// The session once the clock has been looked at: a probe that is due
    /// counts as sent at `now`.
    pub open spec fn after_clock(self, now: u64) -> SessionState {
        if self.ping_is_due(now) {
            SessionState { last_ping: now, ..self }
        } else {
            self
        }
    }

    /// The session once an item has been dealt with: a success is counted,
    /// a failure leaves no trace.
    pub open spec fn after_item(self, succeeded: bool) -> SessionState {
        if succeeded {
            SessionState { transaction_count: raised(self.transaction_count, 1), ..self }
        } else {
            self
        }
    }

    /// Opens a session at `now`: nothing processed yet, the interval to the
    /// first probe starts, and the telemetry shows the stream connected.
    pub fn start(metrics: &mut Metrics, now: u64) -> (state: SessionState)
        ensures
            state == (SessionState { transaction_count: 0, last_ping: now }),
            *final(metrics) == (Metrics { stream_connected: true, ..*old(metrics) }),
    {
        metrics.stream_connected = true;
        SessionState { transaction_count: 0, last_ping: now }
    }

    /// The keepalive timer fired at `now`. Says whether a probe is to be
    /// sent, and counts it as sent if so: the next one is due a full
    /// interval later, however many updates arrive in between.
    pub fn on_tick(&mut self, now: u64) -> (send_ping: bool)
        ensures
            send_ping == old(self).ping_is_due(now),
            *final(self) == old(self).after_clock(now),
    {
        if now >= self.last_ping && now - self.last_ping >= PING_INTERVAL_SECS {
            self.last_ping = now;
            true
        } else {
            false
        }
    }

    /// An update arrived at `now`. The probe is sent first if it is due;
    /// the work is decided by the update alone.
    pub fn on_update(&mut self, now: u64, event: &UpdateEvent) -> (directive: Directive)
        ensures
            directive.send_ping == old(self).ping_is_due(now),
            *final(self) == old(self).after_clock(now),
            is_work_for(*event, directive.work),
    {
        let send_ping = self.on_tick(now);
        Directive { send_ping, work: classify_update(event) }
    }

    /// An item has been dealt with at `timestamp` (seconds from the Unix
    /// epoch): `outcome` holds the number of balance changes of a
    /// transaction that was fetched, parsed and stored, or the failure of
    /// one of those steps. A success is counted in the session and in the
    /// telemetry; a failure is counted in the telemetry alone and changes
    /// nothing in the session, so that what follows is processed as if the
    /// item had never come. Returns whether progress is to be reported,
    /// which is after every tenth success.
    pub fn on_item_done(
        &mut self,
        metrics: &mut Metrics,
        outcome: &Result<u64, AppError>,
        timestamp: i64,
    ) -> (report: bool)
        ensures
            *final(self) == old(self).after_item(outcome is Ok),
            *final(metrics) == match *outcome {
                Ok(changes) => Metrics {
                    transactions_processed: raised(old(metrics).transactions_processed, 1),
                    balance_changes_recorded: raised(old(metrics).balance_changes_recorded, changes),
                    last_transaction_timestamp: Some(timestamp),
                    ..*old(metrics)
                },
                Err(_) => Metrics {
                    transactions_failed: raised(old(metrics).transactions_failed, 1),
                    ..*old(metrics)
                },
            },
            report == (outcome is Ok && final(self).transaction_count % PROGRESS_INTERVAL == 0),
    {
        match outcome {
            Ok(changes) => {
                self.transaction_count = self.transaction_count.saturating_add(1);
                metrics.transactions_processed = metrics.transactions_processed.saturating_add(1);
                metrics.balance_changes_recorded = metrics.balance_changes_recorded.saturating_add(
                    *changes,
                );
                metrics.last_transaction_timestamp = Some(timestamp);
                self.transaction_count % PROGRESS_INTERVAL == 0
            },
            Err(_) => {
                metrics.transactions_failed = metrics.transactions_failed.saturating_add(1);
                false
            },
        }
    }
}

/// An item that fails leaves the session as it found it: the probe falls
/// due at the same time and the next update gets the same work as if the
/// failed item had never arrived.
pub proof fn lemma_failed_item_is_isolated(state: SessionState, now: u64)
    ensures
        state.after_item(false) == state,
        state.after_item(false).ping_is_due(now) == state.ping_is_due(now),
        state.after_item(false).after_clock(now) == state.after_clock(now),
{
}

/// Where in the life of a session the transport failed.
#[derive(Debug, Clone, PartialEq, Eq)]
pub enum SessionFault {
    /// The endpoint is not one that a connection can be made to.
    InvalidEndpoint(String),
    /// The credential cannot be presented.
    InvalidToken(String),
    /// The connection could not be made.
    ConnectFailed(String),
    /// The subscription could not be opened.
    SubscribeFailed(String),
    /// The subscription request could not be sent.
    RequestFailed(String),
    /// Reading the next update failed.
    ReadFailed(String),
    /// The keepalive probe could not be sent.
    PingFailed(String),
}

impl SessionFault {
    /// The words that the error of a fault begins with.
    pub open spec fn label(&self) -> Seq<char> {
        match self {
            SessionFault::InvalidEndpoint(_) => "Invalid gRPC endpoint: "@,
            SessionFault::InvalidToken(_) => "Invalid auth token: "@,
            SessionFault::ConnectFailed(_) => "Failed to connect to gRPC endpoint: "@,
            SessionFault::SubscribeFailed(_) => "Failed to create subscription: "@,
            SessionFault::RequestFailed(_) => "Failed to send subscription request: "@,
            SessionFault::ReadFailed(_) => "Stream error: "@,
            SessionFault::PingFailed(_) => "Failed to send ping: "@,
        }
    }

    /// What the transport said of the fault.
    pub open spec fn detail(&self) -> Seq<char> {
        match self {
            SessionFault::InvalidEndpoint(d) => d@,
            SessionFault::InvalidToken(d) => d@,
            SessionFault::ConnectFailed(d) => d@,
            SessionFault::SubscribeFailed(d) => d@,
            SessionFault::RequestFailed(d) => d@,
            SessionFault::ReadFailed(d) => d@,
            SessionFault::PingFailed(d) => d@,
        }
    }

    /// The fault lies in establishing the connection.
    pub open spec fn is_connection(&self) -> bool {
        self is InvalidEndpoint || self is ConnectFailed
    }

    /// `e` is the error of this fault: of the variant that the fault's
    /// place calls for, with the fault's label and then its detail as text.
    pub open spec fn is_reported_as(&self, e: AppError) -> bool {
        &&& e.detail() == Some(self.label() + self.detail())
        &&& self.is_connection() ==> e is GrpcConnection
        &&& self is InvalidToken ==> e is Config
        &&& !self.is_connection() && !(self is InvalidToken) ==> e is GrpcStream
    }
}

/// The error that ends a session after a fault of the transport: a
/// connection error where the connection could not be made, a
/// configuration error for a credential that cannot be presented, and a
/// stream error for everything later. Its text is the fault's label and
/// then what the transport said.
pub fn session_error(fault: &SessionFault) -> (e: AppError)
    ensures
        fault.is_reported_as(e),
{
    match fault {
        SessionFault::InvalidEndpoint(d) => AppError::GrpcConnection(
            String::from_str("Invalid gRPC endpoint: ").concat(d.as_str()),
        ),
        SessionFault::InvalidToken(d) => AppError::Config(
            String::from_str("Invalid auth token: ").concat(d.as_str()),
        ),
        SessionFault::ConnectFailed(d) => AppError::GrpcConnection(
            String::from_str("Failed to connect to gRPC endpoint: ").concat(d.as_str()),
        ),
        SessionFault::SubscribeFailed(d) => AppError::GrpcStream(
            String::from_str("Failed to create subscription: ").concat(d.as_str()),
        ),
        SessionFault::RequestFailed(d) => AppError::GrpcStream(
            String::from_str("Failed to send subscription request: ").concat(d.as_str()),
        ),
        SessionFault::ReadFailed(d) => AppError::GrpcStream(
            String::from_str("Stream error: ").concat(d.as_str()),
        ),
        SessionFault::PingFailed(d) => AppError::GrpcStream(
            String::from_str("Failed to send ping: ").concat(d.as_str()),
        ),
    }
}

/// How a session ended: the stream closed (`None`), or the transport
/// failed. A stream that closes ends the session without error.
pub fn session_result(fault: Option<SessionFault>) -> (r: Result<(), AppError>)
    ensures
        fault is None <==> r is Ok,
        fault matches Some(f) ==> r matches Err(e) && f.is_reported_as(e),
{
    match fault {
        None => Ok(()),
        Some(f) => Err(session_error(&f)),
    }
}

/// The encoding in which a transaction is asked for.
#[derive(Debug, Clone, Copy, PartialEq, Eq, Structural)]
pub enum TransactionEncoding {
    Json,
}

/// One request for the detail of a transaction.
#[derive(Debug, Clone, PartialEq, Eq)]
pub struct FetchRequest {
    pub signature: String,
    pub encoding: TransactionEncoding,
    pub commitment: CommitmentLevel,
    /// The highest transaction version that the answer may have.
    pub max_supported_transaction_version: Option<u8>,
}

/// The request for the transaction signed `signature`: in the JSON
/// encoding, at the confirmed level, of version 0 at most.
pub open spec fn is_fetch_of(request: FetchRequest, signature: Seq<char>) -> bool {
    &&& request.signature@ == signature
    &&& request.encoding == TransactionEncoding::Json
    &&& request.commitment == CommitmentLevel::Confirmed
    &&& request.max_supported_transaction_version == Some(0u8)
}

/// The first step for one item: the request to make for its signature. A
/// text that is no signature, as `Signature::from_str` reads one, gives a
/// `ParseError` whose text begins with `Invalid signature: ` and nothing is
/// requested.
pub fn fetch_request(signature: &str) -> (r: Result<FetchRequest, AppError>)
    ensures
        match r {
            Ok(request) => signature_bytes(signature@) is Some && is_fetch_of(request, signature@),
            Err(AppError::ParseError(words)) => signature_bytes(signature@) is None && is_prefix(
                "Invalid signature: "@,
                words@,
            ),
            Err(_) => false,
        },
{
    match parse_signature(signature) {
        Ok(_) => Ok(
            FetchRequest {
                signature: String::from_str(signature),
                encoding: TransactionEncoding::Json,
                commitment: CommitmentLevel::Confirmed,
                max_supported_transaction_version: Some(0),
            },
        ),
        Err(e) => {
            let detail = signature_error_text(&e);
            let words = String::from_str("Invalid signature: ").concat(detail.as_str());
            proof {
                assert(words@.subrange(0, "Invalid signature: "@.len() as int)
                    =~= "Invalid signature: "@);
            }
            Err(AppError::ParseError(words))
        },
    }
}

/// The second step for one item: what was fetched becomes a record. A
/// request that failed gives a `SolanaClient` error that quotes the
/// failure; a transaction is parsed.
pub fn parse_fetched(fetched: &Result<FetchedTransaction, String>) -> (r: Result<
    ParsedTransaction,
    AppError,
>)
    ensures
        match *fetched {
            Ok(tx) => parse_agrees(r, parsed_record(tx, known_block_time(tx.block_time))),
            Err(detail) => r matches Err(AppError::SolanaClient(words)) && words@
                == "Failed to fetch transaction: "@ + detail@,
        },
{
    match fetched {
        Ok(tx) => parse_transaction(tx),
        Err(detail) => Err(
            AppError::SolanaClient(
                String::from_str("Failed to fetch transaction: ").concat(detail.as_str()),
            ),
        ),
    }
}

/// The last step for one item: the outcome to count once the store has
/// answered. A record that was stored, or skipped as a duplicate, counts
/// with the number of its balance changes; a failure of the store is the
/// item's failure.
pub fn stored_outcome(record: &ParsedTransaction, stored: Result<(), AppError>) -> (r: Result<
    u64,
    AppError,
>)
    ensures
        match stored {
            Ok(_) => r == Ok::<u64, AppError>(record.balance_changes@.len() as u64),
            Err(e) => r == Err::<u64, AppError>(e),
        },
{
    match stored {
        Ok(_) => Ok(record.balance_changes.len() as u64),
        Err(e) => Err(e),
    }
}

/// Two to the power `n`.
pub open spec fn two_to(n: nat) -> nat
    decreases n,
{
    if n == 0 {
        1
    } else {
        2 * two_to((n - 1) as nat)
    }
}

/// The delay before the session that follows `attempt` failures in a row,
/// in seconds: the base delay doubled once for each failure, ten times at
/// most, and never more than `max_delay`.
pub open spec fn backoff_secs(attempt: nat, max_delay: nat) -> nat {
    let doublings = if attempt <= MAX_DOUBLINGS {
        attempt
    } else {
        MAX_DOUBLINGS as nat
    };
    let delay = (BASE_DELAY_SECS * two_to(doublings)) as nat;
    if delay <= max_delay {
        delay
    } else {
        max_delay
    }
}

/// The powers of two up to the tenth.
pub proof fn lemma_two_to_values()
    ensures
        two_to(0) == 1,
        two_to(1) == 2,
        two_to(2) == 4,
        two_to(3) == 8,
        two_to(4) == 16,
        two_to(5) == 32,
        two_to(6) == 64,
        two_to(7) == 128,
        two_to(8) == 256,
        two_to(9) == 512,
        two_to(10) == 1024,
{
    reveal_with_fuel(two_to, 12);
}

/// Powers of two grow with the exponent.
pub proof fn lemma_two_to_monotone(a: nat, b: nat)
    requires
        a <= b,
    ensures
        1 <= two_to(a) <= two_to(b),
    decreases b,
{
    if b == 0 {
    } else if a == b {
        lemma_two_to_monotone((a - 1) as nat, (a - 1) as nat);
    } else {
        lemma_two_to_monotone(a, (b - 1) as nat);
    }
}

/// Computes the backoff delay for the given number of failures in a row.
pub fn calculate_backoff_delay(attempt: u32, max_delay_secs: u64) -> (delay: u64)
    ensures
        delay == backoff_secs(attempt as nat, max_delay_secs as nat),
{
    let doublings: u32 = if attempt <= MAX_DOUBLINGS {
        attempt
    } else {
        MAX_DOUBLINGS
    };
    let mut delay: u64 = BASE_DELAY_SECS;
    let mut i: u32 = 0;
    while i < doublings
        invariant
            i <= doublings <= MAX_DOUBLINGS,
            delay == BASE_DELAY_SECS * two_to(i as nat),
            delay <= 1024,
        decreases doublings - i,
    {
        proof {
            lemma_two_to_monotone((i + 1) as nat, 10);
            lemma_two_to_values();
        }
        delay = delay * 2;
        i = i + 1;
    }
    if delay <= max_delay_secs {
        delay
    } else {
        max_delay_secs
    }
}

/// The backoff delay never shrinks as failures add up, and never exceeds
/// the longest delay.
pub proof fn lemma_backoff_monotone(a: nat, b: nat, max_delay: nat)
    requires
        a <= b,
    ensures
        backoff_secs(a, max_delay) <= backoff_secs(b, max_delay) <= max_delay,
{
    let da = if a <= MAX_DOUBLINGS {
        a
    } else {
        MAX_DOUBLINGS as nat
    };
    let db = if b <= MAX_DOUBLINGS {
        b
    } else {
        MAX_DOUBLINGS as nat
    };
    lemma_two_to_monotone(da, db);
}

/// The delays of the first nine failures in a row under the longest delay
/// of 300 seconds, and of every failure after them.
pub proof fn lemma_backoff_schedule(attempt: nat)
    ensures
        backoff_secs(1, 300) == 2,
        backoff_secs(2, 300) == 4,
        backoff_secs(3, 300) == 8,
        backoff_secs(4, 300) == 16,
        backoff_secs(5, 300) == 32,
        backoff_secs(6, 300) == 64,
        backoff_secs(7, 300) == 128,
        backoff_secs(8, 300) == 256,
        attempt >= 9 ==> backoff_secs(attempt, 300) == 300,
{
    lemma_two_to_values();
}

/// From the tenth failure in a row on, the delay is the lesser of 300
/// seconds and two to the power of one less than the number of failures,
/// which is 300 seconds.
pub proof fn lemma_backoff_late_delays(attempt: nat)
    requires
        attempt >= 10,
    ensures
        backoff_secs(attempt, 300) == if two_to((attempt - 1) as nat) <= 300 {
            two_to((attempt - 1) as nat)
        } else {
            300
        },
        backoff_secs(attempt, 300) == 300,
{
    lemma_two_to_values();
    lemma_two_to_monotone(9, (attempt - 1) as nat);
}

/// What the supervisor remembers between two sessions.
#[derive(Debug, Clone, Copy, PartialEq, Eq, Structural)]
pub struct SupervisorState {
    /// Sessions that have failed in a row.
    pub reconnect_attempts: u32,
}

/// What the supervisor does once a session has ended.
#[derive(Debug, Clone, Copy, PartialEq, Eq, Structural)]
pub enum SupervisorAction {
    /// Open the next session at once.
    ReconnectNow,
    /// Wait this many seconds, then open the next session.
    ReconnectAfter(u64),
}

impl SupervisorState {
    /// The state after one more session: a clean end forgets the failures,
    /// a failure is one more in the row.
    pub open spec fn after_session(self, failed: bool) -> SupervisorState {
        if failed {
            SupervisorState { reconnect_attempts: self.reconnect_attempts.saturating_add(1) }
        } else {
            SupervisorState { reconnect_attempts: 0 }
        }
    }

    /// What is done once a session has ended from this state: no waiting
    /// after a clean end, and after a failure the backoff delay of the
    /// failures in a row, this one included.
    pub open spec fn action_after(self, failed: bool) -> SupervisorAction {
        if failed {
            SupervisorAction::ReconnectAfter(
                backoff_secs((self.reconnect_attempts + 1) as nat, MAX_DELAY_SECS as nat) as u64,
            )
        } else {
            SupervisorAction::ReconnectNow
        }
    }

    /// The supervisor before the first session: nothing has failed, and the
    /// first connection is attempted without delay.
    pub fn new() -> (state: SupervisorState)
        ensures
            state.reconnect_attempts == 0,
    {
        SupervisorState { reconnect_attempts: 0 }
    }

    /// A session has ended with `result`. Decides when the next one opens,
    /// and notes in the telemetry that the stream is down and one more
    /// reconnection is under way. There is no giving up: every end leads to
    /// another session.
    pub fn on_session_end(&mut self, metrics: &mut Metrics, result: &Result<(), AppError>) -> (action:
        SupervisorAction)
        ensures
            *final(self) == old(self).after_session(result is Err),
            action == old(self).action_after(result is Err),
            *final(metrics) == (Metrics {
                stream_connected: false,
                stream_reconnections: raised(old(metrics).stream_reconnections, 1),
                ..*old(metrics)
            }),
    {
        metrics.stream_connected = false;
        metrics.stream_reconnections = metrics.stream_reconnections.saturating_add(1);
        match result {
            Ok(_) => {
                self.reconnect_attempts = 0;
                SupervisorAction::ReconnectNow
            },
            Err(_) => {
                let failures = self.reconnect_attempts.saturating_add(1);
                proof {
                    if self.reconnect_attempts == u32::MAX {
                        assert(backoff_secs(failures as nat, MAX_DELAY_SECS as nat) == backoff_secs(
                            (self.reconnect_attempts + 1) as nat,
                            MAX_DELAY_SECS as nat,
                        ));
                    }
                }
                self.reconnect_attempts = failures;
                SupervisorAction::ReconnectAfter(calculate_backoff_delay(failures, MAX_DELAY_SECS))
            },
        }
    }
}

/// The supervisor after `n` sessions that failed in a row, counted from
/// its first state or from a clean end.
pub open spec fn after_failures(n: nat) -> SupervisorState
    decreases n,
{
    if n == 0 {
        SupervisorState { reconnect_attempts: 0 }
    } else {
        after_failures((n - 1) as nat).after_session(true)
    }
}

/// After `n` failures in a row the supervisor has counted them, up to the
/// most that it can count.
pub proof fn lemma_failures_are_counted(n: nat)
    ensures
        after_failures(n).reconnect_attempts == if n <= u32::MAX {
            n
        } else {
            u32::MAX as nat
        },
    decreases n,
{
    if n > 0 {
        lemma_failures_are_counted((n - 1) as nat);
    }
}

/// The delay before the session that follows the `n`-th failure in a row
/// is the backoff delay of `n` under the longest delay of 300 seconds.
pub proof fn lemma_nth_delay(n: nat)
    requires
        n >= 1,
    ensures
        after_failures((n - 1) as nat).action_after(true) == SupervisorAction::ReconnectAfter(
            backoff_secs(n, MAX_DELAY_SECS as nat) as u64,
        ),
{
    lemma_failures_are_counted((n - 1) as nat);
    lemma_two_to_values();
}

/// A clean end forgets the failures: whatever came before it, the next
/// session opens at once, and a failure after it is delayed as a first
/// failure is.
pub proof fn lemma_clean_end_resets(state: SupervisorState)
    ensures
        state.action_after(false) == SupervisorAction::ReconnectNow,
        state.after_session(false) == after_failures(0),
        state.after_session(false).action_after(true) == after_failures(0).action_after(true),
        state.after_session(false).action_after(true) == SupervisorAction::ReconnectAfter(2),
{
    lemma_two_to_values();
}

} // verus!
