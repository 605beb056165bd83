//! What the pipeline counts about itself. The values are plain numbers that
//! the pipeline's rules update; publishing them is left to the process.

use vstd::prelude::*;

verus! {

/// The telemetry of the pipeline. Nothing in the pipeline reads it back:
/// it is written for observers only.
#[derive(Debug, Clone, Copy, PartialEq, Eq, Structural)]
pub struct Metrics {
    /// Transactions fetched, parsed and stored.
    pub transactions_processed: u64,
    /// Transactions for which one of those steps failed.
    pub transactions_failed: u64,
    /// Balance changes of the transactions processed.
    pub balance_changes_recorded: u64,
    /// Sessions that have ended, whatever the reason.
    pub stream_reconnections: u64,
    /// A session is open.
    pub stream_connected: bool,
    /// When the last transaction was processed, in seconds from the Unix
    /// epoch; nothing before the first one.
    pub last_transaction_timestamp: Option<i64>,
}

/// A counter raised by `by`; it stays at the largest value once there.
pub open spec fn raised(counter: u64, by: u64) -> u64 {
    counter.saturating_add(by)
}

impl Metrics {
    /// Telemetry in which nothing has happened yet.
    pub open spec fn is_fresh(&self) -> bool {
        &&& self.transactions_processed == 0
        &&& self.transactions_failed == 0
        &&& self.balance_changes_recorded == 0
        &&& self.stream_reconnections == 0
        &&& !self.stream_connected
        &&& self.last_transaction_timestamp is None
    }
}

/// The telemetry at the start of the process: every counter at zero, no
/// session open, no transaction seen.
pub fn init_metrics() -> (metrics: Metrics)
    ensures
        metrics.is_fresh(),
{
    Metrics {
        transactions_processed: 0,
        transactions_failed: 0,
        balance_changes_recorded: 0,
        stream_reconnections: 0,
        stream_connected: false,
        last_transaction_timestamp: None,
    }
}

} // verus!
