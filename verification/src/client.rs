//! The subscription to the account's activity: whom it is for and what it
//! asks of the stream.

use crate::error::AppError;
use crate::fetched::texts;
use crate::keys::{parse_pubkey, pubkey_bytes, pubkey_error_text, pubkey_text, pubkey_to_string};
use crate::text::is_prefix;
use vstd::prelude::*;
use vstd::string::*;

verus! {

/// How settled the ledger's state must be before it is reported.
#[derive(Debug, Clone, Copy, PartialEq, Eq, Structural)]
pub enum CommitmentLevel {
    Processed,
    Confirmed,
    Finalized,
}

/// A named filter on account updates.
#[derive(Debug, Clone, PartialEq, Eq)]
pub struct AccountsFilter {
    pub name: String,
    pub account: Vec<String>,
    pub owner: Vec<String>,
}

/// A named filter on slot updates.
#[derive(Debug, Clone, PartialEq, Eq)]
pub struct SlotsFilter {
    pub name: String,
    pub filter_by_commitment: Option<bool>,
}

/// A named filter on transaction updates.
#[derive(Debug, Clone, PartialEq, Eq)]
pub struct TransactionsFilter {
    pub name: String,
    pub vote: Option<bool>,
    pub failed: Option<bool>,
    pub signature: Option<String>,
    pub account_include: Vec<String>,
    pub account_exclude: Vec<String>,
    pub account_required: Vec<String>,
}

/// What a session asks of the stream when it subscribes. Of the kinds of
/// update that the stream offers, those without a filter here are not asked
/// for.
#[derive(Debug, Clone, PartialEq, Eq)]
pub struct SubscribeRequest {
    pub accounts: Vec<AccountsFilter>,
    pub slots: Vec<SlotsFilter>,
    pub transactions: Vec<TransactionsFilter>,
    pub commitment: Option<CommitmentLevel>,
    /// The number of a keepalive probe, where the request is one.
    pub ping: Option<i32>,
}

/// The request that subscribes to the activity of the account written
/// `account`: updates of that account, every transaction that mentions it
/// but for votes and failed ones, and slot progress at the session's
/// commitment, all at the confirmed level.
pub open spec fn is_subscription_for(request: SubscribeRequest, account: Seq<char>) -> bool {
    &&& request.accounts@.len() == 1
    &&& request.accounts@[0].name@ == "target_account"@
    &&& texts(request.accounts@[0].account@) == seq![account]
    &&& request.accounts@[0].owner@.len() == 0
    &&& request.transactions@.len() == 1
    &&& request.transactions@[0].name@ == "target_transactions"@
    &&& request.transactions@[0].vote == Some(false)
    &&& request.transactions@[0].failed == Some(false)
    &&& request.transactions@[0].signature is None
    &&& texts(request.transactions@[0].account_include@) == seq![account]
    &&& request.transactions@[0].account_exclude@.len() == 0
    &&& request.transactions@[0].account_required@.len() == 0
    &&& request.slots@.len() == 1
    &&& request.slots@[0].name@ == "slots"@
    &&& request.slots@[0].filter_by_commitment == Some(true)
    &&& request.commitment == Some(CommitmentLevel::Confirmed)
    &&& request.ping is None
}

/// The request that probes a session's liveness: the probe numbered 1 and
/// no filter at all.
pub open spec fn is_ping(request: SubscribeRequest) -> bool {
    &&& request.accounts@.len() == 0
    &&& request.transactions@.len() == 0
    &&& request.slots@.len() == 0
    &&& request.commitment is None
    &&& request.ping == Some(1i32)
}

/// Where to subscribe, with what credential, and for which account.
pub struct RpcClient {
    grpc_endpoint: String,
    auth_token: String,
    account: [u8; 32],
}

impl RpcClient {
    /// The endpoint, as text.
    pub closed spec fn endpoint_view(&self) -> Seq<char> {
        self.grpc_endpoint@
    }

    /// The credential, as text.
    pub closed spec fn token_view(&self) -> Seq<char> {
        self.auth_token@
    }

    /// The 32 bytes of the monitored account's address.
    pub closed spec fn account_view(&self) -> Seq<u8> {
        self.account@
    }

    /// A client for the account written `account`. The text must be an
    /// address as `Pubkey::from_str` reads it; where it is not, the error is
    /// a `Config` whose text begins with `Invalid account pubkey: `.
    pub fn new(grpc_endpoint: String, auth_token: String, account: &str) -> (r: Result<
        Self,
        AppError,
    >)
        ensures
            match r {
                Ok(client) => {
                    &&& pubkey_bytes(account@) == Some(client.account_view())
                    &&& client.endpoint_view() == grpc_endpoint@
                    &&& client.token_view() == auth_token@
                },
                Err(AppError::Config(words)) => {
                    &&& pubkey_bytes(account@) is None
                    &&& is_prefix("Invalid account pubkey: "@, words@)
                },
                Err(_) => false,
            },
    {
        match parse_pubkey(account) {
            Ok(bytes) => Ok(RpcClient { grpc_endpoint, auth_token, account: bytes }),
            Err(e) => {
                let detail = pubkey_error_text(&e);
                let words = String::from_str("Invalid account pubkey: ").concat(detail.as_str());
                proof {
                    assert(words@.subrange(0, "Invalid account pubkey: "@.len() as int)
                        =~= "Invalid account pubkey: "@);
                }
                Err(AppError::Config(words))
            },
        }
    }

    /// The endpoint to connect to.
    pub fn grpc_endpoint(&self) -> (r: &String)
        ensures
            r@ == self.endpoint_view(),
    {
        &self.grpc_endpoint
    }

    /// The credential to present.
    pub fn auth_token(&self) -> (r: &String)
        ensures
            r@ == self.token_view(),
    {
        &self.auth_token
    }

    /// The address of the monitored account, as its 32 bytes.
    pub fn account(&self) -> (r: &[u8; 32])
        ensures
            r@ == self.account_view(),
    {
        &self.account
    }

    /// The request that opens a session for the monitored account: the
    /// subscription for the account's address as `Pubkey` writes it.
    pub fn create_subscription_request(&self) -> (request: SubscribeRequest)
        ensures
            is_subscription_for(request, pubkey_text(self.account_view())),
    {
        subscription_request(pubkey_to_string(&self.account))
    }
}

/// The request that subscribes to the activity of the account written
/// `account`.
pub fn subscription_request(account: String) -> (request: SubscribeRequest)
    ensures
        is_subscription_for(request, account@),
{
    let mut watched: Vec<String> = Vec::new();
    watched.push(account.clone());
    let mut accounts: Vec<AccountsFilter> = Vec::new();
    accounts.push(
        AccountsFilter {
            name: String::from_str("target_account"),
            account: watched,
            owner: Vec::new(),
        },
    );
    let mut included: Vec<String> = Vec::new();
    included.push(account);
    let mut transactions: Vec<TransactionsFilter> = Vec::new();
    transactions.push(
        TransactionsFilter {
            name: String::from_str("target_transactions"),
            vote: Some(false),
            failed: Some(false),
            signature: None,
            account_include: included,
            account_exclude: Vec::new(),
            account_required: Vec::new(),
        },
    );
    let mut slots: Vec<SlotsFilter> = Vec::new();
    slots.push(SlotsFilter { name: String::from_str("slots"), filter_by_commitment: Some(true) });
    let request = SubscribeRequest {
        accounts,
        slots,
        transactions,
        commitment: Some(CommitmentLevel::Confirmed),
        ping: None,
    };
    proof {
        assert(texts(request.accounts@[0].account@) =~= seq![account@]);
        assert(texts(request.transactions@[0].account_include@) =~= seq![account@]);
    }
    request
}

/// The request that probes the liveness of an open session.
pub fn ping_request() -> (request: SubscribeRequest)
    ensures
        is_ping(request),
{
    SubscribeRequest {
        accounts: Vec::new(),
        slots: Vec::new(),
        transactions: Vec::new(),
        commitment: None,
        ping: Some(1),
    }
}

} // verus!
