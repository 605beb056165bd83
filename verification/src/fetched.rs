//! A transaction as the ledger's request interface hands it out, reduced to
//! the plain values that the record is derived from.

use vstd::prelude::*;

verus! {

/// One entry of a token-balance list: the account by its index in the
/// transaction's account list, the token, and the amount as decimal text.
#[derive(Debug, Clone, PartialEq, Eq)]
pub struct TokenBalance {
    pub account_index: u8,
    pub mint: String,
    pub amount: String,
}

/// A token-balance entry as mathematics sees it.
pub ghost struct TokenBalanceView {
    pub account_index: u8,
    pub mint: Seq<char>,
    pub amount: Seq<char>,
}

impl View for TokenBalance {
    type V = TokenBalanceView;

    open spec fn view(&self) -> TokenBalanceView {
        TokenBalanceView { account_index: self.account_index, mint: self.mint@, amount: self.amount@ }
    }
}

/// The views of a token-balance list, in order.
pub open spec fn token_views(entries: Seq<TokenBalance>) -> Seq<TokenBalanceView> {
    Seq::new(entries.len(), |i: int| entries[i]@)
}

/// The views of an optional token-balance list.
pub open spec fn optional_token_views(entries: Option<Vec<TokenBalance>>) -> Option<
    Seq<TokenBalanceView>,
> {
    match entries {
        Some(v) => Some(token_views(v@)),
        None => None,
    }
}

/// An account reference in fully resolved form.
#[derive(Debug, Clone, PartialEq, Eq)]
pub struct ResolvedAccount {
    pub pubkey: String,
    pub writable: bool,
    pub signer: bool,
}

/// The account-reference list of a transaction, in either of the two forms
/// in which it is given.
#[derive(Debug, Clone, PartialEq, Eq)]
pub enum AccountKeys {
    /// Every reference resolved, with its access flags.
    Resolved(Vec<ResolvedAccount>),
    /// Addresses only.
    Addresses(Vec<String>),
}

/// The texts of a list of strings, in order.
pub open spec fn texts(items: Seq<String>) -> Seq<Seq<char>> {
    Seq::new(items.len(), |i: int| items[i]@)
}

impl AccountKeys {
    /// The addresses that the list refers to, in order, whatever its form.
    pub open spec fn addresses(&self) -> Seq<Seq<char>> {
        match self {
            AccountKeys::Resolved(accounts) => Seq::new(
                accounts@.len(),
                |i: int| accounts@[i].pubkey@,
            ),
            AccountKeys::Addresses(keys) => texts(keys@),
        }
    }
}

/// The transaction proper, in the encoding in which it was fetched.
#[derive(Debug, Clone, PartialEq, Eq)]
pub enum TransactionBody {
    /// The JSON form: signatures and the message's account references.
    Json { signatures: Vec<String>, account_keys: AccountKeys },
    /// Any other encoding; the record cannot be derived from it.
    Unsupported,
}

/// The execution results that come with a fetched transaction.
#[derive(Debug, Clone, PartialEq, Eq)]
pub struct TransactionMeta {
    /// Execution ended in an error.
    pub failed: bool,
    pub fee: u64,
    /// Native balances before and after, by index in the account list.
    pub pre_balances: Vec<u64>,
    pub post_balances: Vec<u64>,
    pub pre_token_balances: Option<Vec<TokenBalance>>,
    pub post_token_balances: Option<Vec<TokenBalance>>,
    pub compute_units_consumed: Option<u64>,
}

/// One fetched transaction: where the ledger recorded it, when, what it was
/// and how it ran.
#[derive(Debug, Clone, PartialEq, Eq)]
pub struct FetchedTransaction {
    pub slot: u64,
    /// Seconds from the Unix epoch, where the block's time is known.
    pub block_time: Option<i64>,
    pub body: TransactionBody,
    pub meta: Option<TransactionMeta>,
}

} // verus!
