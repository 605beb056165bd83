//! From a fetched transaction to its normalized record, balance changes
//! included.

use crate::error::AppError;
use crate::fetched::{
    optional_token_views, texts, token_views, AccountKeys, FetchedTransaction, TokenBalance,
    TokenBalanceView, TransactionBody, TransactionMeta,
};
use crate::models::{
    change_views, signed, to_signed, BalanceChange, BalanceChangeView, ParsedTransaction,
    ParsedTransactionView,
};
use crate::text::{decimal_digits, decimal_string, i64_numeral, parse_i64};
use crate::timestamp::{block_time_of, known_block_time};
use vstd::prelude::*;
use vstd::string::*;

verus! {

/// The address of the account at `index`, or the placeholder `unknown_` and
/// the index where the account list is shorter than that.
pub open spec fn address_or_unknown(keys: Seq<Seq<char>>, index: int) -> Seq<char> {
    if 0 <= index < keys.len() {
        keys[index]
    } else {
        "unknown_"@ + decimal_digits(index as nat)
    }
}

/// The native balance change of the account at index `i`.
pub open spec fn native_change(
    keys: Seq<Seq<char>>,
    pre: Seq<u64>,
    post: Seq<u64>,
    i: int,
) -> BalanceChangeView {
    BalanceChangeView {
        account_address: address_or_unknown(keys, i),
        mint_address: None,
        pre_balance: signed(pre[i]),
        post_balance: signed(post[i]),
    }
}

/// The native balance changes among the first `n` accounts: one for each
/// index at which the balance before differs from the balance after, in the
/// order of the indices.
pub open spec fn native_changes(
    keys: Seq<Seq<char>>,
    pre: Seq<u64>,
    post: Seq<u64>,
    n: nat,
) -> Seq<BalanceChangeView>
    decreases n,
{
    if n == 0 {
        Seq::empty()
    } else {
        let rest = native_changes(keys, pre, post, (n - 1) as nat);
        if pre[n - 1] != post[n - 1] {
            rest.push(native_change(keys, pre, post, n - 1))
        } else {
            rest
        }
    }
}

/// The amount that a token-balance entry states: its decimal text as an
/// `i64`, and zero where the text is no such numeral.
pub open spec fn amount_value(text: Seq<char>) -> int {
    match i64_numeral(text) {
        Some(v) => v as int,
        None => 0,
    }
}

/// The position of the first entry at or after `from` that speaks of the
/// account at `account_index`.
pub open spec fn position_of(entries: Seq<TokenBalanceView>, account_index: u8, from: int) -> Option<
    int,
>
    decreases entries.len() - from,
{
    if from < 0 || from >= entries.len() {
        None
    } else if entries[from].account_index == account_index {
        Some(from)
    } else {
        position_of(entries, account_index, from + 1)
    }
}

/// The token balance change that a pre-state entry gives rise to: none
/// where the post-state has no entry for the same account, none where the
/// two amounts agree, and else the change between the two, under the token
/// of the pre-state entry.
pub open spec fn token_change(
    keys: Seq<Seq<char>>,
    before: TokenBalanceView,
    post: Seq<TokenBalanceView>,
) -> Option<BalanceChangeView> {
    match position_of(post, before.account_index, 0) {
        Some(j) => if amount_value(before.amount) != amount_value(post[j].amount) {
            Some(
                BalanceChangeView {
                    account_address: address_or_unknown(keys, before.account_index as int),
                    mint_address: Some(before.mint),
                    pre_balance: amount_value(before.amount),
                    post_balance: amount_value(post[j].amount),
                },
            )
        } else {
            None
        },
        None => None,
    }
}

/// The token balance changes of the first `n` pre-state entries, in their
/// order.
pub open spec fn token_changes(
    keys: Seq<Seq<char>>,
    pre: Seq<TokenBalanceView>,
    post: Seq<TokenBalanceView>,
    n: nat,
) -> Seq<BalanceChangeView>
    decreases n,
{
    if n == 0 {
        Seq::empty()
    } else {
        let rest = token_changes(keys, pre, post, (n - 1) as nat);
        match token_change(keys, pre[n - 1], post) {
            Some(change) => rest.push(change),
            None => rest,
        }
    }
}

impl TransactionMeta {
    /// How many accounts have a native balance both before and after.
    pub open spec fn native_pairs(&self) -> nat {
        if self.pre_balances@.len() <= self.post_balances@.len() {
            self.pre_balances@.len()
        } else {
            self.post_balances@.len()
        }
    }

    /// The native balance changes that these results show.
    pub open spec fn native_part(&self, keys: Seq<Seq<char>>) -> Seq<BalanceChangeView> {
        native_changes(keys, self.pre_balances@, self.post_balances@, self.native_pairs())
    }

    /// The token balance changes that these results show: none unless both
    /// token lists are there.
    pub open spec fn token_part(&self, keys: Seq<Seq<char>>) -> Seq<BalanceChangeView> {
        match (
            optional_token_views(self.pre_token_balances),
            optional_token_views(self.post_token_balances),
        ) {
            (Some(pre), Some(post)) => token_changes(keys, pre, post, pre.len()),
            _ => Seq::empty(),
        }
    }

    /// All balance changes: the native ones, then the token ones.
    pub open spec fn changes(&self, keys: Seq<Seq<char>>) -> Seq<BalanceChangeView> {
        self.native_part(keys) + self.token_part(keys)
    }
}

/// The balance changes of a transaction: those of its execution results
/// over its account list, and none where the encoding is not supported.
pub open spec fn balance_changes_of(body: TransactionBody, meta: TransactionMeta) -> Seq<
    BalanceChangeView,
> {
    match body {
        TransactionBody::Json { signatures, account_keys } => meta.changes(account_keys.addresses()),
        TransactionBody::Unsupported => Seq::empty(),
    }
}

/// The record that a fetched transaction gives, or the words of the parse
/// failure. The checks come in this order: execution results present, the
/// encoding supported, a signature present, an account reference present.
pub open spec fn parsed_record(tx: FetchedTransaction, block_time: Option<i64>) -> Result<
    ParsedTransactionView,
    Seq<char>,
> {
    match tx.meta {
        None => Err("Transaction missing metadata"@),
        Some(meta) => match tx.body {
            TransactionBody::Unsupported => Err("Unsupported transaction encoding"@),
            TransactionBody::Json { signatures, account_keys } => if signatures@.len() == 0 {
                Err("Transaction has no signature"@)
            } else if account_keys.addresses().len() == 0 {
                Err("No account keys in transaction"@)
            } else {
                Ok(
                    ParsedTransactionView {
                        signature: signatures@[0]@,
                        slot: tx.slot,
                        block_time: block_time,
                        fee: meta.fee,
                        fee_payer: account_keys.addresses()[0],
                        success: !meta.failed,
                        compute_units_consumed: meta.compute_units_consumed,
                        balance_changes: meta.changes(account_keys.addresses()),
                    },
                )
            },
        },
    }
}

/// Whether what `parse_transaction` returned is what `expected` says: the
/// record, or a `ParseError` with those words.
pub open spec fn parse_agrees(
    returned: Result<ParsedTransaction, AppError>,
    expected: Result<ParsedTransactionView, Seq<char>>,
) -> bool {
    match returned {
        Ok(record) => expected == Ok::<ParsedTransactionView, Seq<char>>(record@),
        Err(AppError::ParseError(words)) => expected == Err::<ParsedTransactionView, Seq<char>>(
            words@,
        ),
        Err(_) => false,
    }
}

/// Every native change among the first `n` accounts is the change of some
/// index at which the two balance arrays differ, carries no mint, and has
/// different balances before and after.
pub proof fn lemma_native_changes_sound(
    keys: Seq<Seq<char>>,
    pre: Seq<u64>,
    post: Seq<u64>,
    n: nat,
    k: int,
)
    requires
        0 <= k < native_changes(keys, pre, post, n).len(),
    ensures
        exists|i: int|
            0 <= i < n && pre[i] != post[i] && native_changes(keys, pre, post, n)[k]
                == #[trigger] native_change(keys, pre, post, i),
        native_changes(keys, pre, post, n)[k].mint_address is None,
        native_changes(keys, pre, post, n)[k].delta() != 0,
    decreases n,
{
    if n > 0 {
        let rest = native_changes(keys, pre, post, (n - 1) as nat);
        if k < rest.len() {
            lemma_native_changes_sound(keys, pre, post, (n - 1) as nat, k);
            let i = choose|i: int|
                0 <= i < n - 1 && pre[i] != post[i] && rest[k] == #[trigger] native_change(
                    keys,
                    pre,
                    post,
                    i,
                );
            assert(0 <= i < n && pre[i] != post[i] && native_changes(keys, pre, post, n)[k]
                == native_change(keys, pre, post, i));
        } else {
            assert(pre[n - 1] != post[n - 1]);
            assert(native_changes(keys, pre, post, n)[k] == native_change(keys, pre, post, n - 1));
        }
    }
}

/// Every index among the first `n` at which the two balance arrays differ
/// has its change among the native changes.
pub proof fn lemma_native_changes_complete(
    keys: Seq<Seq<char>>,
    pre: Seq<u64>,
    post: Seq<u64>,
    n: nat,
    i: int,
)
    requires
        0 <= i < n,
        pre[i] != post[i],
    ensures
        exists|k: int|
            0 <= k < native_changes(keys, pre, post, n).len() && #[trigger] native_changes(
                keys,
                pre,
                post,
                n,
            )[k] == native_change(keys, pre, post, i),
    decreases n,
{
    let all = native_changes(keys, pre, post, n);
    let rest = native_changes(keys, pre, post, (n - 1) as nat);
    if i == n - 1 {
        assert(all[rest.len() as int] == native_change(keys, pre, post, i));
    } else {
        lemma_native_changes_complete(keys, pre, post, (n - 1) as nat, i);
        let k = choose|k: int|
            0 <= k < rest.len() && #[trigger] rest[k] == native_change(keys, pre, post, i);
        assert(all[k] == native_change(keys, pre, post, i));
    }
}

/// Every token change among the first `n` pre-state entries carries a mint
/// and has different amounts before and after.
pub proof fn lemma_token_changes_sound(
    keys: Seq<Seq<char>>,
    pre: Seq<TokenBalanceView>,
    post: Seq<TokenBalanceView>,
    n: nat,
    k: int,
)
    requires
        0 <= k < token_changes(keys, pre, post, n).len(),
    ensures
        token_changes(keys, pre, post, n)[k].mint_address is Some,
        token_changes(keys, pre, post, n)[k].delta() != 0,
    decreases n,
{
    if n > 0 {
        let rest = token_changes(keys, pre, post, (n - 1) as nat);
        if k < rest.len() {
            lemma_token_changes_sound(keys, pre, post, (n - 1) as nat, k);
        }
    }
}

/// No balance change is emitted for an account whose balance did not move:
/// every change that execution results give has a delta other than zero.
pub proof fn lemma_no_zero_delta(meta: TransactionMeta, keys: Seq<Seq<char>>)
    ensures
        forall|k: int|
            0 <= k < meta.changes(keys).len() ==> (#[trigger] meta.changes(keys)[k]).delta() != 0,
{
    let native = meta.native_part(keys);
    let token = meta.token_part(keys);
    let all = meta.changes(keys);
    assert forall|k: int| 0 <= k < all.len() implies (#[trigger] all[k]).delta() != 0 by {
        if k < native.len() {
            lemma_native_changes_sound(
                keys,
                meta.pre_balances@,
                meta.post_balances@,
                meta.native_pairs(),
                k,
            );
            assert(all[k] == native[k]);
        } else {
            assert(all[k] == token[k - native.len()]);
            match (
                optional_token_views(meta.pre_token_balances),
                optional_token_views(meta.post_token_balances),
            ) {
                (Some(pre), Some(post)) => {
                    lemma_token_changes_sound(keys, pre, post, pre.len(), k - native.len());
                },
                _ => {},
            }
        }
    }
}

/// Every native balance change is the change of an account index at which
/// the balance arrays differ, with the balances that stand there; and where
/// those are within `i64`, its delta is their difference.
pub proof fn lemma_native_changes_are_observed(meta: TransactionMeta, keys: Seq<Seq<char>>)
    ensures
        forall|k: int|
            0 <= k < meta.native_part(keys).len() ==> exists|i: int|
                0 <= i < meta.native_pairs() && meta.pre_balances@[i] != meta.post_balances@[i]
                    && (#[trigger] meta.changes(keys)[k]) == #[trigger] native_change(
                    keys,
                    meta.pre_balances@,
                    meta.post_balances@,
                    i,
                ) && (meta.pre_balances@[i] <= i64::MAX && meta.post_balances@[i] <= i64::MAX
                    ==> meta.changes(keys)[k].delta() == meta.post_balances@[i]
                    - meta.pre_balances@[i]),
{
    let native = meta.native_part(keys);
    let all = meta.changes(keys);
    assert forall|k: int| 0 <= k < native.len() implies exists|i: int|
        0 <= i < meta.native_pairs() && meta.pre_balances@[i] != meta.post_balances@[i] && (
        #[trigger] all[k]) == #[trigger] native_change(
            keys,
            meta.pre_balances@,
            meta.post_balances@,
            i,
        ) && (meta.pre_balances@[i] <= i64::MAX && meta.post_balances@[i] <= i64::MAX ==> all[k].delta()
            == meta.post_balances@[i] - meta.pre_balances@[i]) by {
        lemma_native_changes_sound(
            keys,
            meta.pre_balances@,
            meta.post_balances@,
            meta.native_pairs(),
            k,
        );
        assert(all[k] == native[k]);
        let i = choose|i: int|
            0 <= i < meta.native_pairs() && meta.pre_balances@[i] != meta.post_balances@[i]
                && native[k] == #[trigger] native_change(
                keys,
                meta.pre_balances@,
                meta.post_balances@,
                i,
            );
        assert(all[k] == native_change(keys, meta.pre_balances@, meta.post_balances@, i));
    }
}

/// The mint tells the two kinds of change apart: a native change never
/// carries one, and a token change, which comes after the native ones,
/// always does.
pub proof fn lemma_mint_tells_token_from_native(meta: TransactionMeta, keys: Seq<Seq<char>>)
    ensures
        forall|k: int|
            0 <= k < meta.native_part(keys).len() ==> (#[trigger] meta.changes(
                keys,
            )[k]).mint_address is None,
        forall|k: int|
            meta.native_part(keys).len() <= k < meta.changes(keys).len() ==> (#[trigger] meta.changes(
                keys,
            )[k]).mint_address is Some,
{
    let native = meta.native_part(keys);
    let token = meta.token_part(keys);
    let all = meta.changes(keys);
    assert forall|k: int| 0 <= k < all.len() implies (k < native.len() ==> (
    #[trigger] all[k]).mint_address is None) && (k >= native.len()
        ==> all[k].mint_address is Some) by {
        if k < native.len() {
            lemma_native_changes_sound(
                keys,
                meta.pre_balances@,
                meta.post_balances@,
                meta.native_pairs(),
                k,
            );
            assert(all[k] == native[k]);
        } else {
            assert(all[k] == token[k - native.len()]);
            match (
                optional_token_views(meta.pre_token_balances),
                optional_token_views(meta.post_token_balances),
            ) {
                (Some(pre), Some(post)) => {
                    lemma_token_changes_sound(keys, pre, post, pre.len(), k - native.len());
                },
                _ => {},
            }
        }
    }
}

/// The address of the account at `index`, or its placeholder.
fn address_at(keys: &Vec<String>, index: usize) -> (r: String)
    ensures
        r@ == address_or_unknown(texts(keys@), index as int),
{
    if index < keys.len() {
        keys[index].clone()
    } else {
        let digits = decimal_string(index as u64);
        String::from_str("unknown_").concat(digits.as_str())
    }
}

/// The addresses of an account list, whatever its form.
fn account_addresses(keys: &AccountKeys) -> (r: Vec<String>)
    ensures
        texts(r@) == keys.addresses(),
{
    match keys {
        AccountKeys::Resolved(accounts) => {
            let mut out: Vec<String> = Vec::new();
            let mut i: usize = 0;
            while i < accounts.len()
                invariant
                    i <= accounts@.len(),
                    out@.len() == i,
                    forall|k: int| 0 <= k < i ==> (#[trigger] out@[k])@ == accounts@[k].pubkey@,
                decreases accounts@.len() - i,
            {
                out.push(accounts[i].pubkey.clone());
                i = i + 1;
            }
            proof {
                assert(texts(out@) =~= keys.addresses());
            }
            out
        },
        AccountKeys::Addresses(list) => {
            let mut out: Vec<String> = Vec::new();
            let mut i: usize = 0;
            while i < list.len()
                invariant
                    i <= list@.len(),
                    out@.len() == i,
                    forall|k: int| 0 <= k < i ==> (#[trigger] out@[k])@ == list@[k]@,
                decreases list@.len() - i,
            {
                out.push(list[i].clone());
                i = i + 1;
            }
            proof {
                assert(texts(out@) =~= keys.addresses());
            }
            out
        },
    }
}

/// The amount of a token-balance entry; zero where its text is no numeral.
fn amount_of(entry: &TokenBalance) -> (r: i64)
    ensures
        r == amount_value(entry.amount@),
{
    match parse_i64(entry.amount.as_str()) {
        Some(v) => v,
        None => 0,
    }
}

/// Finds the first post-state entry for the account at `account_index`.
fn find_entry(entries: &Vec<TokenBalance>, account_index: u8) -> (r: Option<usize>)
    ensures
        match r {
            Some(j) => position_of(token_views(entries@), account_index, 0) == Some(j as int) && j
                < entries@.len(),
            None => position_of(token_views(entries@), account_index, 0) is None,
        },
{
    let mut j: usize = 0;
    while j < entries.len()
        invariant
            j <= entries@.len(),
            position_of(token_views(entries@), account_index, 0) == position_of(
                token_views(entries@),
                account_index,
                j as int,
            ),
        decreases entries@.len() - j,
    {
        if entries[j].account_index == account_index {
            return Some(j);
        }
        j = j + 1;
    }
    None
}

/// Appends the native balance changes to `out`.
fn push_native_changes(out: &mut Vec<BalanceChange>, keys: &Vec<String>, meta: &TransactionMeta)
    ensures
        change_views(final(out)@) == change_views(old(out)@) + meta.native_part(texts(keys@)),
{
    let n = if meta.pre_balances.len() <= meta.post_balances.len() {
        meta.pre_balances.len()
    } else {
        meta.post_balances.len()
    };
    let ghost start = change_views(out@);
    let ghost addresses = texts(keys@);
    let mut i: usize = 0;
    proof {
        assert(change_views(out@) =~= start + native_changes(
            addresses,
            meta.pre_balances@,
            meta.post_balances@,
            0,
        ));
    }
    while i < n
        invariant
            n == meta.native_pairs(),
            i <= n,
            addresses == texts(keys@),
            change_views(out@) == start + native_changes(
                addresses,
                meta.pre_balances@,
                meta.post_balances@,
                i as nat,
            ),
        decreases n - i,
    {
        let before = meta.pre_balances[i];
        let after = meta.post_balances[i];
        if before != after {
            let change = BalanceChange {
                account_address: address_at(keys, i),
                mint_address: None,
                pre_balance: to_signed(before),
                post_balance: to_signed(after),
            };
            proof {
                assert(change@ == native_change(
                    addresses,
                    meta.pre_balances@,
                    meta.post_balances@,
                    i as int,
                ));
                assert(change_views(out@.push(change)) =~= change_views(out@).push(change@));
            }
            out.push(change);
        }
        i = i + 1;
        proof {
            assert(change_views(out@) =~= start + native_changes(
                addresses,
                meta.pre_balances@,
                meta.post_balances@,
                i as nat,
            ));
        }
    }
}

/// Appends the token balance changes of matched entries to `out`.
fn push_token_changes(
    out: &mut Vec<BalanceChange>,
    keys: &Vec<String>,
    pre: &Vec<TokenBalance>,
    post: &Vec<TokenBalance>,
)
    ensures
        change_views(final(out)@) == change_views(old(out)@) + token_changes(
            texts(keys@),
            token_views(pre@),
            token_views(post@),
            pre@.len(),
        ),
{
    let ghost start = change_views(out@);
    let ghost addresses = texts(keys@);
    let ghost before_all = token_views(pre@);
    let ghost after_all = token_views(post@);
    let mut i: usize = 0;
    proof {
        assert(change_views(out@) =~= start + token_changes(addresses, before_all, after_all, 0));
    }
    while i < pre.len()
        invariant
            i <= pre@.len(),
            addresses == texts(keys@),
            before_all == token_views(pre@),
            after_all == token_views(post@),
            change_views(out@) == start + token_changes(
                addresses,
                before_all,
                after_all,
                i as nat,
            ),
        decreases pre@.len() - i,
    {
        let entry = &pre[i];
        proof {
            assert(before_all[i as int] == entry@);
        }
        match find_entry(post, entry.account_index) {
            Some(j) => {
                proof {
                    assert(after_all[j as int] == post@[j as int]@);
                }
                let before = amount_of(entry);
                let after = amount_of(&post[j]);
                if before != after {
                    let change = BalanceChange {
                        account_address: address_at(keys, entry.account_index as usize),
                        mint_address: Some(entry.mint.clone()),
                        pre_balance: before,
                        post_balance: after,
                    };
                    proof {
                        assert(Some(change@) == token_change(addresses, entry@, after_all));
                        assert(change_views(out@.push(change)) =~= change_views(out@).push(
                            change@,
                        ));
                    }
                    out.push(change);
                }
            },
            None => {},
        }
        i = i + 1;
        proof {
            assert(change_views(out@) =~= start + token_changes(
                addresses,
                before_all,
                after_all,
                i as nat,
            ));
        }
    }
}

/// Derives the balance changes of a transaction from its execution results:
/// first one native change for every account index at which the balance
/// before differs from the balance after, then one token change for every
/// pre-state token entry whose account has a post-state entry with another
/// amount. An account beyond the end of the account list is named by a
/// placeholder, and an amount that is no numeral counts as zero. A
/// transaction in an unsupported encoding has no balance changes.
pub fn extract_balance_changes(transaction: &TransactionBody, meta: &TransactionMeta) -> (r: Vec<
    BalanceChange,
>)
    ensures
        change_views(r@) == balance_changes_of(*transaction, *meta),
{
    let mut out: Vec<BalanceChange> = Vec::new();
    match transaction {
        TransactionBody::Json { signatures, account_keys } => {
            let keys = account_addresses(account_keys);
            proof {
                assert(change_views(out@) =~= Seq::<BalanceChangeView>::empty());
            }
            push_native_changes(&mut out, &keys, meta);
            match (&meta.pre_token_balances, &meta.post_token_balances) {
                (Some(pre), Some(post)) => {
                    push_token_changes(&mut out, &keys, pre, post);
                },
                _ => {},
            }
            proof {
                assert(change_views(out@) =~= meta.changes(account_keys.addresses()));
            }
            out
        },
        TransactionBody::Unsupported => {
            proof {
                assert(change_views(out@) =~= Seq::<BalanceChangeView>::empty());
            }
            out
        },
    }
}

/// Derives the record of a fetched transaction, given the block time that
/// the record is to carry. Fails with a `ParseError` where the execution
/// results are missing, the encoding is not the JSON form, no signature is
/// attached or the account list is empty; in every other case it succeeds.
pub fn parse_with_block_time(encoded_tx: &FetchedTransaction, block_time: Option<i64>) -> (r:
    Result<ParsedTransaction, AppError>)
    ensures
        parse_agrees(r, parsed_record(*encoded_tx, block_time)),
{
    let meta = match &encoded_tx.meta {
        Some(meta) => meta,
        None => {
            return Err(AppError::ParseError(String::from_str("Transaction missing metadata")));
        },
    };
    match &encoded_tx.body {
        TransactionBody::Json { signatures, account_keys } => {
            if signatures.len() == 0 {
                return Err(
                    AppError::ParseError(String::from_str("Transaction has no signature")),
                );
            }
            let signature = signatures[0].clone();
            let keys = account_addresses(account_keys);
            if keys.len() == 0 {
                return Err(
                    AppError::ParseError(String::from_str("No account keys in transaction")),
                );
            }
            let fee_payer = keys[0].clone();
            let balance_changes = extract_balance_changes(&encoded_tx.body, meta);
            proof {
                assert(texts(keys@)[0] == keys@[0]@);
            }
            Ok(
                ParsedTransaction {
                    signature,
                    slot: encoded_tx.slot,
                    block_time,
                    fee: meta.fee,
                    fee_payer,
                    success: !meta.failed,
                    compute_units_consumed: meta.compute_units_consumed,
                    balance_changes,
                },
            )
        },
        TransactionBody::Unsupported => Err(
            AppError::ParseError(String::from_str("Unsupported transaction encoding")),
        ),
    }
}

/// Derives the normalized record of a fetched transaction. The block time
/// is the reported one where the calendar holds it and unknown otherwise;
/// everything else is as `parse_with_block_time` says.
pub fn parse_transaction(encoded_tx: &FetchedTransaction) -> (r: Result<
    ParsedTransaction,
    AppError,
>)
    ensures
        parse_agrees(r, parsed_record(*encoded_tx, known_block_time(encoded_tx.block_time))),
{
    let block_time = block_time_of(encoded_tx.block_time);
    parse_with_block_time(encoded_tx, block_time)
}

} // verus!
