//! The normalized record of one observed transaction and the balance
//! movements that belong to it.

use vstd::prelude::*;

verus! {

/// An unsigned quantity read as a signed one of the same 64 bits: itself up
/// to `i64::MAX`, and 2^64 less above it.
pub open spec fn signed(v: u64) -> int {
    if v <= i64::MAX {
        v as int
    } else {
        v - 0x1_0000_0000_0000_0000
    }
}

/// Reads an unsigned quantity as a signed one of the same bits.
pub fn to_signed(v: u64) -> (r: i64)
    ensures
        r == signed(v),
{
    if v <= 0x7fff_ffff_ffff_ffffu64 {
        v as i64
    } else {
        let low: u64 = v - 0x8000_0000_0000_0000u64;
        (low as i64) + i64::MIN
    }
}

/// The movement of one account's balance across one transaction, in the
/// smallest denomination. A `mint_address` of `None` means the native unit;
/// `Some` names the token whose balance moved.
#[derive(Debug, Clone, PartialEq, Eq)]
pub struct BalanceChange {
    pub account_address: String,
    pub mint_address: Option<String>,
    pub pre_balance: i64,
    pub post_balance: i64,
}

/// A balance change as mathematics sees it.
pub ghost struct BalanceChangeView {
    pub account_address: Seq<char>,
    pub mint_address: Option<Seq<char>>,
    pub pre_balance: int,
    pub post_balance: int,
}

impl BalanceChangeView {
    /// The net change: what came after, less what was there before.
    pub open spec fn delta(self) -> int {
        self.post_balance - self.pre_balance
    }

    /// The change is of the native unit.
    pub open spec fn is_native(self) -> bool {
        self.mint_address is None
    }
}

impl View for BalanceChange {
    type V = BalanceChangeView;

    open spec fn view(&self) -> BalanceChangeView {
        BalanceChangeView {
            account_address: self.account_address@,
            mint_address: match self.mint_address {
                Some(m) => Some(m@),
                None => None,
            },
            pre_balance: self.pre_balance as int,
            post_balance: self.post_balance as int,
        }
    }
}

impl BalanceChange {
    /// The net change is a number that `i64` holds.
    pub open spec fn delta_fits(&self) -> bool {
        i64::MIN <= self@.delta() <= i64::MAX
    }

    /// Whether `delta` may be called: the net change is within `i64`.
    pub fn has_delta(&self) -> (r: bool)
        ensures
            r == self.delta_fits(),
    {
        self.post_balance.checked_sub(self.pre_balance).is_some()
    }

    /// The net change `post_balance - pre_balance`; positive for an increase.
    /// It is computed from the two balances each time and stored nowhere.
    pub fn delta(&self) -> (d: i64)
        requires
            self.delta_fits(),
        ensures
            d == self@.delta(),
    {
        self.post_balance - self.pre_balance
    }
}

/// One observed transaction, normalized. `signature` is its natural key;
/// `block_time` counts seconds from the Unix epoch and is absent where the
/// time is not known.
#[derive(Debug, Clone, PartialEq, Eq)]
pub struct ParsedTransaction {
    pub signature: String,
    pub slot: u64,
    pub block_time: Option<i64>,
    pub fee: u64,
    pub fee_payer: String,
    pub success: bool,
    pub compute_units_consumed: Option<u64>,
    pub balance_changes: Vec<BalanceChange>,
}

/// A transaction record as mathematics sees it.
pub ghost struct ParsedTransactionView {
    pub signature: Seq<char>,
    pub slot: u64,
    pub block_time: Option<i64>,
    pub fee: u64,
    pub fee_payer: Seq<char>,
    pub success: bool,
    pub compute_units_consumed: Option<u64>,
    pub balance_changes: Seq<BalanceChangeView>,
}

/// The views of a run of balance changes, in order.
pub open spec fn change_views(changes: Seq<BalanceChange>) -> Seq<BalanceChangeView> {
    Seq::new(changes.len(), |i: int| changes[i]@)
}

impl View for ParsedTransaction {
    type V = ParsedTransactionView;

    open spec fn view(&self) -> ParsedTransactionView {
        ParsedTransactionView {
            signature: self.signature@,
            slot: self.slot,
            block_time: self.block_time,
            fee: self.fee,
            fee_payer: self.fee_payer@,
            success: self.success,
            compute_units_consumed: self.compute_units_consumed,
            balance_changes: change_views(self.balance_changes@),
        }
    }
}

} // verus!
