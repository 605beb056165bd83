//! The rules of storing a record: which rows go to the store, in which
//! order, and what each answer of the store leads to. The store itself is
//! the process's affair; here it is known by its answers.

use crate::error::AppError;
use crate::models::{
    change_views, signed, to_signed, BalanceChange, BalanceChangeView, ParsedTransaction,
    ParsedTransactionView,
};
use vstd::prelude::*;
use vstd::string::*;

verus! {

/// The row of the transaction table that stands for a record.
#[derive(Debug, Clone, PartialEq, Eq)]
pub struct TransactionRow {
    pub signature: String,
    pub slot: i64,
    pub block_time: Option<i64>,
    pub fee: i64,
    pub fee_payer: String,
    pub success: bool,
    pub compute_units_consumed: Option<i64>,
}

/// A transaction row as mathematics sees it.
pub ghost struct TransactionRowView {
    pub signature: Seq<char>,
    pub slot: int,
    pub block_time: Option<i64>,
    pub fee: int,
    pub fee_payer: Seq<char>,
    pub success: bool,
    pub compute_units_consumed: Option<int>,
}

impl View for TransactionRow {
    type V = TransactionRowView;

    open spec fn view(&self) -> TransactionRowView {
        TransactionRowView {
            signature: self.signature@,
            slot: self.slot as int,
            block_time: self.block_time,
            fee: self.fee as int,
            fee_payer: self.fee_payer@,
            success: self.success,
            compute_units_consumed: match self.compute_units_consumed {
                Some(units) => Some(units as int),
                None => None,
            },
        }
    }
}

/// The row of the balance-change table that stands for one change of the
/// transaction stored under `transaction_id`.
#[derive(Debug, Clone, PartialEq, Eq)]
pub struct BalanceChangeRow {
    pub transaction_id: i64,
    pub account_address: String,
    pub mint_address: Option<String>,
    pub pre_balance: i64,
    pub post_balance: i64,
    pub balance_delta: i64,
}

/// A balance-change row as mathematics sees it.
pub ghost struct BalanceChangeRowView {
    pub transaction_id: i64,
    pub account_address: Seq<char>,
    pub mint_address: Option<Seq<char>>,
    pub pre_balance: int,
    pub post_balance: int,
    pub balance_delta: int,
}

impl View for BalanceChangeRow {
    type V = BalanceChangeRowView;

    open spec fn view(&self) -> BalanceChangeRowView {
        BalanceChangeRowView {
            transaction_id: self.transaction_id,
            account_address: self.account_address@,
            mint_address: match self.mint_address {
                Some(m) => Some(m@),
                None => None,
            },
            pre_balance: self.pre_balance as int,
            post_balance: self.post_balance as int,
            balance_delta: self.balance_delta as int,
        }
    }
}

/// The transaction row of a record: its fields as they are, the unsigned
/// ones read as signed numbers of the same bits.
pub open spec fn row_of_transaction(tx: ParsedTransactionView) -> TransactionRowView {
    TransactionRowView {
        signature: tx.signature,
        slot: signed(tx.slot),
        block_time: tx.block_time,
        fee: signed(tx.fee),
        fee_payer: tx.fee_payer,
        success: tx.success,
        compute_units_consumed: match tx.compute_units_consumed {
            Some(units) => Some(signed(units)),
            None => None,
        },
    }
}

/// The row of a balance change: the change with its delta computed from
/// the two balances. A change whose delta the row cannot hold has no row.
pub open spec fn row_of_change(transaction_id: i64, change: BalanceChangeView) -> Option<
    BalanceChangeRowView,
> {
    if i64::MIN <= change.delta() <= i64::MAX {
        Some(
            BalanceChangeRowView {
                transaction_id,
                account_address: change.account_address,
                mint_address: change.mint_address,
                pre_balance: change.pre_balance,
                post_balance: change.post_balance,
                balance_delta: change.delta(),
            },
        )
    } else {
        None
    }
}

/// The first change at or after `from` that has a row, with its index.
pub open spec fn next_row(transaction_id: i64, changes: Seq<BalanceChangeView>, from: int) -> Option<
    (int, BalanceChangeRowView),
>
    decreases changes.len() - from,
{
    if from < 0 || from >= changes.len() {
        None
    } else {
        match row_of_change(transaction_id, changes[from]) {
            Some(row) => Some((from, row)),
            None => next_row(transaction_id, changes, from + 1),
        }
    }
}

/// Where a complete insert stands.
#[derive(Debug, Clone, Copy, PartialEq, Eq, Structural)]
pub enum InsertState {
    /// The transaction row is at the store.
    AwaitingTransaction,
    /// The row of the change at `index` is at the store.
    AwaitingBalanceChange { transaction_id: i64, index: usize },
    /// Nothing more goes to the store.
    Finished,
}

/// What goes to the store next, or how the insert ended.
#[derive(Debug)]
pub enum StoreStep {
    /// Insert this row unless one with its signature is stored already, and
    /// answer with the new row's id, or with none for a duplicate.
    InsertTransaction(TransactionRow),
    /// Insert this row.
    InsertBalanceChange(BalanceChangeRow),
    /// The insert is over.
    Done(Result<(), AppError>),
}

/// A step as mathematics sees it. The end of an insert is seen as the
/// words of its `Database` error, or as none where it ended well.
pub ghost enum StoreStepView {
    InsertTransaction(TransactionRowView),
    InsertBalanceChange(BalanceChangeRowView),
    Done(Option<Seq<char>>),
}

impl View for StoreStep {
    type V = StoreStepView;

    open spec fn view(&self) -> StoreStepView {
        match self {
            StoreStep::InsertTransaction(row) => StoreStepView::InsertTransaction(row@),
            StoreStep::InsertBalanceChange(row) => StoreStepView::InsertBalanceChange(row@),
            StoreStep::Done(Ok(_)) => StoreStepView::Done(None),
            StoreStep::Done(Err(e)) => StoreStepView::Done(e.detail()),
        }
    }
}

impl StoreStep {
    /// The end of an insert is either success or a `Database` error.
    pub open spec fn well_formed(&self) -> bool {
        self matches StoreStep::Done(Err(e)) ==> e is Database
    }
}

/// The store's answer to a step as mathematics sees it: the id of a new
/// row where it gave one, or its words where the statement failed.
pub type AnswerView = Result<Option<i64>, Seq<char>>;

/// The view of an answer.
pub open spec fn answer_view(answer: Result<Option<i64>, String>) -> AnswerView {
    match answer {
        Ok(id) => Ok(id),
        Err(words) => Err(words@),
    }
}

/// The step that attempts the first change at or after `from` that has a
/// row, and the end of the insert where there is none. A change without a
/// row is passed over like a row that the store refused.
pub open spec fn balance_step(
    transaction_id: i64,
    changes: Seq<BalanceChangeView>,
    from: int,
) -> (InsertState, StoreStepView) {
    match next_row(transaction_id, changes, from) {
        Some((index, row)) => (
            InsertState::AwaitingBalanceChange { transaction_id, index: index as usize },
            StoreStepView::InsertBalanceChange(row),
        ),
        None => (InsertState::Finished, StoreStepView::Done(None)),
    }
}

/// The first step of a complete insert: the record's transaction row.
pub open spec fn first_step(tx: ParsedTransactionView) -> (InsertState, StoreStepView) {
    (InsertState::AwaitingTransaction, StoreStepView::InsertTransaction(row_of_transaction(tx)))
}

/// The step that follows an answer of the store.
///
/// After the transaction row: a new id leads to the balance changes, in
/// order; no id means that the signature is stored already, and the insert
/// ends at once, with no balance change sent; a failure ends the insert
/// with a `Database` error that quotes it.
///
/// After a balance-change row: the next change, whatever the answer was. A
/// row that fails is given up and the rest goes on.
pub open spec fn insert_step(tx: ParsedTransactionView, state: InsertState, answer: AnswerView) -> (
    InsertState,
    StoreStepView,
) {
    match state {
        InsertState::AwaitingTransaction => match answer {
            Ok(Some(transaction_id)) => balance_step(transaction_id, tx.balance_changes, 0),
            Ok(None) => (InsertState::Finished, StoreStepView::Done(None)),
            Err(words) => (
                InsertState::Finished,
                StoreStepView::Done(Some("Failed to insert transaction: "@ + words)),
            ),
        },
        InsertState::AwaitingBalanceChange { transaction_id, index } => balance_step(
            transaction_id,
            tx.balance_changes,
            index + 1,
        ),
        InsertState::Finished => (InsertState::Finished, StoreStepView::Done(None)),
    }
}

/// Makes the transaction row of a record.
pub fn transaction_row(tx: &ParsedTransaction) -> (row: TransactionRow)
    ensures
        row@ == row_of_transaction(tx@),
{
    TransactionRow {
        signature: tx.signature.clone(),
        slot: to_signed(tx.slot),
        block_time: tx.block_time,
        fee: to_signed(tx.fee),
        fee_payer: tx.fee_payer.clone(),
        success: tx.success,
        compute_units_consumed: match tx.compute_units_consumed {
            Some(units) => Some(to_signed(units)),
            None => None,
        },
    }
}

/// Makes the row of a balance change, where its delta fits the row.
pub fn balance_change_row(transaction_id: i64, change: &BalanceChange) -> (row: Option<
    BalanceChangeRow,
>)
    ensures
        match row {
            Some(r) => row_of_change(transaction_id, change@) == Some(r@),
            None => row_of_change(transaction_id, change@) is None,
        },
{
    if change.has_delta() {
        Some(
            BalanceChangeRow {
                transaction_id,
                account_address: change.account_address.clone(),
                mint_address: match &change.mint_address {
                    Some(m) => Some(m.clone()),
                    None => None,
                },
                pre_balance: change.pre_balance,
                post_balance: change.post_balance,
                balance_delta: change.delta(),
            },
        )
    } else {
        None
    }
}

/// Finds the next balance change to send, from index `from` on.
fn next_balance_step(transaction_id: i64, changes: &Vec<BalanceChange>, from: usize) -> (r: (
    InsertState,
    StoreStep,
))
    ensures
        (r.0, r.1@) == balance_step(transaction_id, change_views(changes@), from as int),
        r.1.well_formed(),
{
    let mut index: usize = from;
    while index < changes.len()
        invariant
            from <= index,
            next_row(transaction_id, change_views(changes@), from as int) == next_row(
                transaction_id,
                change_views(changes@),
                index as int,
            ),
        decreases changes@.len() - index,
    {
        proof {
            assert(change_views(changes@)[index as int] == changes@[index as int]@);
        }
        match balance_change_row(transaction_id, &changes[index]) {
            Some(row) => {
                return (
                    InsertState::AwaitingBalanceChange { transaction_id, index },
                    StoreStep::InsertBalanceChange(row),
                );
            },
            None => {},
        }
        index = index + 1;
    }
    (InsertState::Finished, StoreStep::Done(Ok(())))
}

/// Begins the complete insert of a record: its transaction row goes to the
/// store first.
pub fn begin_insert(tx: &ParsedTransaction) -> (r: (InsertState, StoreStep))
    ensures
        (r.0, r.1@) == first_step(tx@),
        r.1.well_formed(),
{
    (InsertState::AwaitingTransaction, StoreStep::InsertTransaction(transaction_row(tx)))
}

/// Takes the store's answer to the step last handed out and says what
/// comes next. `answer` holds the id that the store returned, if any, or
/// the words of its failure.
///
/// Balance changes are sent only if the transaction row was in fact
/// inserted: for a signature that is stored already none is sent. Each
/// balance change is attempted on its own: one that fails is left out, the
/// others are still sent, and the insert ends well. Only a failure of the
/// transaction row is the insert's failure.
pub fn continue_insert(
    tx: &ParsedTransaction,
    state: InsertState,
    answer: Result<Option<i64>, String>,
) -> (r: (InsertState, StoreStep))
    ensures
        (r.0, r.1@) == insert_step(tx@, state, answer_view(answer)),
        r.1.well_formed(),
{
    match state {
        InsertState::AwaitingTransaction => match answer {
            Ok(Some(transaction_id)) => next_balance_step(transaction_id, &tx.balance_changes, 0),
            Ok(None) => (InsertState::Finished, StoreStep::Done(Ok(()))),
            Err(words) => (
                InsertState::Finished,
                StoreStep::Done(
                    Err(
                        AppError::Database(
                            String::from_str("Failed to insert transaction: ").concat(
                                words.as_str(),
                            ),
                        ),
                    ),
                ),
            ),
        },
        InsertState::AwaitingBalanceChange { transaction_id, index } => {
            if index < tx.balance_changes.len() {
                next_balance_step(transaction_id, &tx.balance_changes, index + 1)
            } else {
                (InsertState::Finished, StoreStep::Done(Ok(())))
            }
        },
        InsertState::Finished => (InsertState::Finished, StoreStep::Done(Ok(()))),
    }
}

/// The two tables of the store, as far as the rules of storing speak of
/// them. Both only ever grow.
pub ghost struct StoreView {
    pub transactions: Seq<TransactionRowView>,
    pub balance_changes: Seq<BalanceChangeRowView>,
}

/// How a store behaves towards one complete insert: whether it carries out
/// the insert of the transaction row, and of the row of each balance change
/// by the change's index; the id that it gives to a new transaction row;
/// and the words of its failures.
pub ghost struct StoreConduct {
    pub transaction_accepted: bool,
    pub change_accepted: spec_fn(int) -> bool,
    pub new_id: i64,
    pub words: Seq<char>,
}

impl StoreView {
    /// A transaction row with this signature is stored.
    pub open spec fn holds(self, signature: Seq<char>) -> bool {
        exists|i: int|
            0 <= i < self.transactions.len() && (#[trigger] self.transactions[i]).signature
                == signature
    }

    /// How many transaction rows with this signature are stored.
    pub open spec fn count(self, signature: Seq<char>) -> nat {
        self.transactions.filter(|row: TransactionRowView| row.signature == signature).len()
    }

    /// What a store that keeps the signature as its natural key makes of a
    /// step: the tables afterwards, and its answer. A transaction row whose
    /// signature is stored already is not written and gets no id.
    pub open spec fn answer_to(self, step: StoreStepView, accepted: bool, conduct: StoreConduct) -> (
        StoreView,
        AnswerView,
    ) {
        match step {
            StoreStepView::InsertTransaction(row) => if !accepted {
                (self, Err(conduct.words))
            } else if self.holds(row.signature) {
                (self, Ok(None))
            } else {
                (
                    StoreView { transactions: self.transactions.push(row), ..self },
                    Ok(Some(conduct.new_id)),
                )
            },
            StoreStepView::InsertBalanceChange(row) => if accepted {
                (StoreView { balance_changes: self.balance_changes.push(row), ..self }, Ok(None))
            } else {
                (self, Err(conduct.words))
            },
            StoreStepView::Done(_) => (self, Ok(None)),
        }
    }
}

/// Whether the store carries out the step that is pending in `state`.
pub open spec fn accepts(conduct: StoreConduct, state: InsertState) -> bool {
    match state {
        InsertState::AwaitingTransaction => conduct.transaction_accepted,
        InsertState::AwaitingBalanceChange { transaction_id, index } => (conduct.change_accepted)(
            index as int,
        ),
        InsertState::Finished => true,
    }
}

/// The tables after an insert has been carried on from `step` for at most
/// `fuel` steps, each answer of the store feeding the next step.
pub open spec fn driven(
    tx: ParsedTransactionView,
    state: InsertState,
    step: StoreStepView,
    store: StoreView,
    conduct: StoreConduct,
    fuel: nat,
) -> StoreView
    decreases fuel,
{
    if fuel == 0 || step is Done {
        store
    } else {
        let (stored, answer) = store.answer_to(step, accepts(conduct, state), conduct);
        let (next_state, next) = insert_step(tx, state, answer);
        driven(tx, next_state, next, stored, conduct, (fuel - 1) as nat)
    }
}

/// The tables after the complete insert of a record into `store`.
pub open spec fn store_after(store: StoreView, tx: ParsedTransactionView, conduct: StoreConduct) -> StoreView {
    driven(
        tx,
        first_step(tx).0,
        first_step(tx).1,
        store,
        conduct,
        tx.balance_changes.len() + 1,
    )
}

/// The rows of the changes from index `from` on that have a row and whose
/// insert the store carries out, in order.
pub open spec fn accepted_rows(
    transaction_id: i64,
    changes: Seq<BalanceChangeView>,
    conduct: StoreConduct,
    from: int,
) -> Seq<BalanceChangeRowView>
    decreases changes.len() - from,
{
    if from < 0 || from >= changes.len() {
        Seq::empty()
    } else {
        let rest = accepted_rows(transaction_id, changes, conduct, from + 1);
        match row_of_change(transaction_id, changes[from]) {
            Some(row) => if (conduct.change_accepted)(from) {
                seq![row] + rest
            } else {
                rest
            },
            None => rest,
        }
    }
}

/// Changes without a row add nothing: the accepted rows from `from` on are
/// those from the next change with a row on.
proof fn lemma_next_row_skips(
    transaction_id: i64,
    changes: Seq<BalanceChangeView>,
    conduct: StoreConduct,
    from: int,
)
    requires
        0 <= from,
    ensures
        match next_row(transaction_id, changes, from) {
            Some((index, row)) => {
                &&& from <= index < changes.len()
                &&& row_of_change(transaction_id, changes[index]) == Some(row)
                &&& accepted_rows(transaction_id, changes, conduct, from) == accepted_rows(
                    transaction_id,
                    changes,
                    conduct,
                    index,
                )
            },
            None => accepted_rows(transaction_id, changes, conduct, from)
                == Seq::<BalanceChangeRowView>::empty(),
        },
    decreases changes.len() - from,
{
    if from < changes.len() {
        if row_of_change(transaction_id, changes[from]) is None {
            lemma_next_row_skips(transaction_id, changes, conduct, from + 1);
        }
    }
}

/// Carried on from the balance changes at `from`, an insert leaves the
/// transaction table alone and appends exactly the accepted rows.
proof fn lemma_driven_rows(
    tx: ParsedTransactionView,
    transaction_id: i64,
    from: int,
    store: StoreView,
    conduct: StoreConduct,
    fuel: nat,
)
    requires
        0 <= from,
        tx.balance_changes.len() <= usize::MAX,
        fuel + from >= tx.balance_changes.len(),
    ensures
        driven(
            tx,
            balance_step(transaction_id, tx.balance_changes, from).0,
            balance_step(transaction_id, tx.balance_changes, from).1,
            store,
            conduct,
            fuel,
        ) == (StoreView {
            transactions: store.transactions,
            balance_changes: store.balance_changes + accepted_rows(
                transaction_id,
                tx.balance_changes,
                conduct,
                from,
            ),
        }),
    decreases fuel,
{
    let changes = tx.balance_changes;
    lemma_next_row_skips(transaction_id, changes, conduct, from);
    let (state, step) = balance_step(transaction_id, changes, from);
    match next_row(transaction_id, changes, from) {
        Some((index, row)) => {
            assert(fuel > 0);
            let accepted = (conduct.change_accepted)(index);
            assert(accepts(conduct, state) == accepted);
            let (stored, answer) = store.answer_to(step, accepted, conduct);
            assert(insert_step(tx, state, answer) == balance_step(
                transaction_id,
                changes,
                index + 1,
            ));
            lemma_driven_rows(tx, transaction_id, index + 1, stored, conduct, (fuel - 1) as nat);
            let rest = accepted_rows(transaction_id, changes, conduct, index + 1);
            if accepted {
                assert(store.balance_changes.push(row) + rest =~= store.balance_changes + (
                seq![row] + rest));
            }
        },
        None => {
            assert(store.balance_changes + Seq::<BalanceChangeRowView>::empty()
                =~= store.balance_changes);
        },
    }
}

/// Storing a record whose signature is stored already writes nothing: no
/// transaction row and no balance-change row, whatever the store would
/// have accepted.
pub proof fn lemma_duplicate_writes_nothing(
    store: StoreView,
    tx: ParsedTransactionView,
    conduct: StoreConduct,
)
    requires
        store.holds(tx.signature),
    ensures
        store_after(store, tx, conduct) == store,
{
    let (state, step) = first_step(tx);
    let (stored, answer) = store.answer_to(step, accepts(conduct, state), conduct);
    assert(stored == store);
    let (next_state, next) = insert_step(tx, state, answer);
    assert(next is Done);
    assert(driven(tx, next_state, next, stored, conduct, tx.balance_changes.len()) == store);
}

/// Storing a record whose signature is not stored yet, into a store that
/// carries out the insert of the transaction row, writes that row and the
/// row of every balance change that has one and that the store accepts. A
/// balance change that the store refuses costs only its own row: the rows
/// of the others are written all the same, and the transaction row stays.
pub proof fn lemma_first_insert(store: StoreView, tx: ParsedTransactionView, conduct: StoreConduct)
    requires
        !store.holds(tx.signature),
        conduct.transaction_accepted,
        tx.balance_changes.len() <= usize::MAX,
    ensures
        store_after(store, tx, conduct).transactions == store.transactions.push(
            row_of_transaction(tx),
        ),
        store_after(store, tx, conduct).balance_changes == store.balance_changes + accepted_rows(
            conduct.new_id,
            tx.balance_changes,
            conduct,
            0,
        ),
        store_after(store, tx, conduct).holds(tx.signature),
{
    let (state, step) = first_step(tx);
    let (stored, answer) = store.answer_to(step, accepts(conduct, state), conduct);
    assert(answer == Ok::<Option<i64>, Seq<char>>(Some(conduct.new_id)));
    assert(insert_step(tx, state, answer) == balance_step(conduct.new_id, tx.balance_changes, 0));
    lemma_driven_rows(tx, conduct.new_id, 0, stored, conduct, tx.balance_changes.len());
    let after = store_after(store, tx, conduct);
    assert(after.transactions[store.transactions.len() as int].signature == tx.signature);
}

/// Every balance change that has a row and that the store accepts is among
/// the accepted rows, whatever became of the others.
pub proof fn lemma_accepted_row_is_written(
    transaction_id: i64,
    changes: Seq<BalanceChangeView>,
    conduct: StoreConduct,
    from: int,
    index: int,
)
    requires
        0 <= from <= index < changes.len(),
        row_of_change(transaction_id, changes[index]) is Some,
        (conduct.change_accepted)(index),
    ensures
        accepted_rows(transaction_id, changes, conduct, from).contains(
            row_of_change(transaction_id, changes[index])->0,
        ),
    decreases index - from,
{
    let row = row_of_change(transaction_id, changes[index])->0;
    let all = accepted_rows(transaction_id, changes, conduct, from);
    let rest = accepted_rows(transaction_id, changes, conduct, from + 1);
    if from == index {
        assert(all == seq![row] + rest);
        assert(all[0] == row);
    } else {
        lemma_accepted_row_is_written(transaction_id, changes, conduct, from + 1, index);
        let k = choose|k: int| 0 <= k < rest.len() && rest[k] == row;
        if all == rest {
            assert(all[k] == row);
        } else {
            let head = row_of_change(transaction_id, changes[from])->0;
            assert(all == seq![head] + rest);
            assert(all[k + 1] == row);
        }
    }
}

/// A signature that is stored is counted at least once.
pub proof fn lemma_count_of_present(store: StoreView, signature: Seq<char>)
    requires
        store.holds(signature),
    ensures
        store.count(signature) >= 1,
{
    let matches = |row: TransactionRowView| row.signature == signature;
    let i = choose|i: int|
        0 <= i < store.transactions.len() && (#[trigger] store.transactions[i]).signature
            == signature;
    store.transactions.lemma_filter_contains(matches, i);
    let found = store.transactions.filter(matches);
    assert(found.contains(store.transactions[i]));
}

/// A signature that is not stored is counted zero times.
pub proof fn lemma_count_of_absent(store: StoreView, signature: Seq<char>)
    requires
        !store.holds(signature),
    ensures
        store.count(signature) == 0,
{
    let matches = |row: TransactionRowView| row.signature == signature;
    let found = store.transactions.filter(matches);
    if found.len() > 0 {
        store.transactions.lemma_filter_pred(matches, 0);
        assert(found.contains(found[0]));
        store.transactions.lemma_filter_contains_rev(matches, found[0]);
        let i = choose|i: int| 0 <= i < store.transactions.len() && store.transactions[i] == found[0];
        assert(store.transactions[i].signature == signature);
    }
}

/// Storing the same record twice leaves what storing it once leaves. Once
/// the store has carried out the insert of a record, a second attempt
/// writes no row of either kind, whatever the store would accept then.
pub proof fn lemma_insert_is_idempotent(
    store: StoreView,
    tx: ParsedTransactionView,
    first: StoreConduct,
    second: StoreConduct,
)
    requires
        first.transaction_accepted,
        tx.balance_changes.len() <= usize::MAX,
    ensures
        store_after(store, tx, first).holds(tx.signature),
        store_after(store_after(store, tx, first), tx, second) == store_after(store, tx, first),
{
    if store.holds(tx.signature) {
        lemma_duplicate_writes_nothing(store, tx, first);
    } else {
        lemma_first_insert(store, tx, first);
    }
    lemma_duplicate_writes_nothing(store_after(store, tx, first), tx, second);
}

/// In a store that holds no signature twice, a record that has been stored
/// has exactly one transaction row, however often it is stored again.
pub proof fn lemma_one_row_per_signature(
    store: StoreView,
    tx: ParsedTransactionView,
    first: StoreConduct,
    second: StoreConduct,
)
    requires
        store.count(tx.signature) <= 1,
        first.transaction_accepted,
        tx.balance_changes.len() <= usize::MAX,
    ensures
        store_after(store, tx, first).count(tx.signature) == 1,
        store_after(store_after(store, tx, first), tx, second).count(tx.signature) == 1,
{
    lemma_insert_is_idempotent(store, tx, first, second);
    let once = store_after(store, tx, first);
    if store.holds(tx.signature) {
        lemma_duplicate_writes_nothing(store, tx, first);
        lemma_count_of_present(store, tx.signature);
    } else {
        lemma_first_insert(store, tx, first);
        lemma_count_of_absent(store, tx.signature);
        let matches = |row: TransactionRowView| row.signature == tx.signature;
        assert(once.transactions.drop_last() == store.transactions);
        reveal(Seq::filter);
        assert(once.transactions.filter(matches) == store.transactions.filter(matches).push(
            row_of_transaction(tx),
        ));
    }
}

/// One balance change that the store refuses costs only its own row. When
/// a record is stored for the first time, the row of every balance change
/// that has one and that the store accepts is written, whatever became of
/// the rows before and after it, and the transaction row is written too.
pub proof fn lemma_refused_change_costs_only_its_row(
    store: StoreView,
    tx: ParsedTransactionView,
    conduct: StoreConduct,
    index: int,
)
    requires
        !store.holds(tx.signature),
        conduct.transaction_accepted,
        tx.balance_changes.len() <= usize::MAX,
        0 <= index < tx.balance_changes.len(),
        row_of_change(conduct.new_id, tx.balance_changes[index]) is Some,
        (conduct.change_accepted)(index),
    ensures
        store_after(store, tx, conduct).transactions.contains(row_of_transaction(tx)),
        store_after(store, tx, conduct).balance_changes.contains(
            row_of_change(conduct.new_id, tx.balance_changes[index])->0,
        ),
{
    lemma_first_insert(store, tx, conduct);
    lemma_accepted_row_is_written(conduct.new_id, tx.balance_changes, conduct, 0, index);
    let after = store_after(store, tx, conduct);
    let row = row_of_change(conduct.new_id, tx.balance_changes[index])->0;
    let written = accepted_rows(conduct.new_id, tx.balance_changes, conduct, 0);
    let k = choose|k: int| 0 <= k < written.len() && written[k] == row;
    assert(after.balance_changes[store.balance_changes.len() + k] == row);
    assert(after.transactions[store.transactions.len() as int] == row_of_transaction(tx));
}

} // verus!
