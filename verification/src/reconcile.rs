//! The reconciliation decision engine.
//!
//! Compares an observed real-world balance against the ledger's recorded
//! balance and the most recent transaction, and decides whether to do
//! nothing, amend the previous reconciliation transaction, or create a
//! new one. Both balances are integers in minor currency units; the
//! caller converts the observed amount to that scale before calling in.

use crate::date::Date;
use vstd::prelude::*;

verus! {

/// The fields of the most recent ledger transaction that the engine
/// inspects. Every other field of the real transaction is owned by the
/// ledger and is carried over unchanged on amendment by the caller.
pub struct LedgerTransaction {
    pub id: String,
    pub date: Date,
    pub amount: i64,
    pub payee_id: String,
}

/// The mathematical value of a [`LedgerTransaction`].
pub struct TxView {
    pub id: Seq<char>,
    pub date: Date,
    pub amount: int,
    pub payee_id: Seq<char>,
}

impl View for LedgerTransaction {
    type V = TxView;

    open spec fn view(&self) -> TxView {
        TxView {
            id: self.id@,
            date: self.date,
            amount: self.amount as int,
            payee_id: self.payee_id@,
        }
    }
}

/// What the engine decides to write, if anything.
#[derive(Debug)]
pub enum Decision {
    NoOp,
    Amend { transaction_id: String, new_amount: i64, new_date: Date },
    Create { amount: i64, date: Date, payee_id: String, account_id: String },
}

/// The mathematical value of a [`Decision`].
pub enum DecisionView {
    NoOp,
    Amend { transaction_id: Seq<char>, new_amount: int, new_date: Date },
    Create { amount: int, date: Date, payee_id: Seq<char>, account_id: Seq<char> },
}

impl View for Decision {
    type V = DecisionView;

    open spec fn view(&self) -> DecisionView {
        match self {
            Decision::NoOp => DecisionView::NoOp,
            Decision::Amend { transaction_id, new_amount, new_date } => DecisionView::Amend {
                transaction_id: transaction_id@,
                new_amount: *new_amount as int,
                new_date: *new_date,
            },
            Decision::Create { amount, date, payee_id, account_id } => DecisionView::Create {
                amount: *amount as int,
                date: *date,
                payee_id: payee_id@,
                account_id: account_id@,
            },
        }
    }
}

/// The view of an optional borrowed transaction.
pub open spec fn spec_last_view(last: Option<&LedgerTransaction>) -> Option<TxView> {
    match last {
        Some(t) => Some(t@),
        None => None,
    }
}

/// Both today and the most recent transaction fall on the first of a
/// month; that transaction is the month's anchor and is preserved.
pub open spec fn spec_month_anchor(today: Date, last: Option<TxView>) -> bool {
    &&& today.day == 1
    &&& last matches Some(t) && t.date.day == 1
}

/// The most recent transaction is itself a reconciliation entry that may
/// absorb a new delta: tagged with the reconciliation payee and not an
/// anchor on the first of a month.
pub open spec fn spec_amendable(last: Option<TxView>, reconciliation_payee_id: Seq<char>) -> bool {
    last matches Some(t) && t.payee_id == reconciliation_payee_id && t.date.day != 1
}

/// The decision rules, in priority order: an equal balance means no
/// write; a first-of-month anchor is never amended away; an existing
/// reconciliation entry absorbs the delta; otherwise a fresh transaction
/// carries the delta.
pub open spec fn spec_decide(
    observed: int,
    ledger: int,
    last: Option<TxView>,
    reconciliation_payee_id: Seq<char>,
    account_id: Seq<char>,
    today: Date,
) -> DecisionView {
    if observed == ledger {
        DecisionView::NoOp
    } else if spec_month_anchor(today, last) {
        DecisionView::NoOp
    } else if spec_amendable(last, reconciliation_payee_id) {
        DecisionView::Amend {
            transaction_id: last->0.id,
            new_amount: last->0.amount + (observed - ledger),
            new_date: today,
        }
    } else {
        DecisionView::Create {
            amount: observed - ledger,
            date: today,
            payee_id: reconciliation_payee_id,
            account_id: account_id,
        }
    }
}

/// Decide what to write to bring the ledger in line with the observed
/// balance. `observed_minor` and `ledger_balance` are in the same minor
/// currency units; `last_transaction` is the most recent transaction on
/// the account, if the history is not empty.
pub fn decide(
    observed_minor: i64,
    ledger_balance: i64,
    last_transaction: Option<&LedgerTransaction>,
    reconciliation_payee_id: &String,
    account_id: &String,
    today: Date,
) -> (d: Decision)
    requires
        i64::MIN <= observed_minor - ledger_balance <= i64::MAX,
        spec_last_view(last_transaction) matches Some(t) ==> i64::MIN <= t.amount + (observed_minor
            - ledger_balance) <= i64::MAX,
    ensures
        d@ == spec_decide(
            observed_minor as int,
            ledger_balance as int,
            spec_last_view(last_transaction),
            reconciliation_payee_id@,
            account_id@,
            today,
        ),
{
    if observed_minor == ledger_balance {
        return Decision::NoOp;
    }
    let delta: i64 = observed_minor - ledger_balance;
    match last_transaction {
        Some(t) => {
            if today.day == 1 && t.date.day == 1 {
                Decision::NoOp
            } else if t.payee_id == *reconciliation_payee_id && t.date.day != 1 {
                Decision::Amend {
                    transaction_id: t.id.clone(),
                    new_amount: t.amount + delta,
                    new_date: today,
                }
            } else {
                Decision::Create {
                    amount: delta,
                    date: today,
                    payee_id: reconciliation_payee_id.clone(),
                    account_id: account_id.clone(),
                }
            }
        },
        None => Decision::Create {
            amount: delta,
            date: today,
            payee_id: reconciliation_payee_id.clone(),
            account_id: account_id.clone(),
        },
    }
}

/// The ledger state a decision leaves behind: the new recorded balance
/// and the new most recent transaction. `new_id` is whatever id the
/// ledger assigns to a created transaction.
pub open spec fn spec_apply(
    d: DecisionView,
    ledger: int,
    last: Option<TxView>,
    new_id: Seq<char>,
) -> (int, Option<TxView>) {
    match d {
        DecisionView::NoOp => (ledger, last),
        DecisionView::Amend { transaction_id, new_amount, new_date } => match last {
            Some(t) => (
                ledger + (new_amount - t.amount),
                Some(TxView { id: transaction_id, date: new_date, amount: new_amount, payee_id: t.payee_id }),
            ),
            None => (ledger, last),
        },
        DecisionView::Create { amount, date, payee_id, account_id } => (
            ledger + amount,
            Some(TxView { id: new_id, date, amount, payee_id }),
        ),
    }
}

/// A balance that already matches the ledger is left alone.
pub proof fn lemma_noop_when_consistent(
    observed: int,
    ledger: int,
    last: Option<TxView>,
    reconciliation_payee_id: Seq<char>,
    account_id: Seq<char>,
    today: Date,
)
    requires
        observed == ledger,
    ensures
        spec_decide(observed, ledger, last, reconciliation_payee_id, account_id, today)
            is NoOp,
{
}

/// When both today and the most recent transaction fall on the first of
/// a month, nothing is written, whatever the balances are.
pub proof fn lemma_noop_on_month_anchor(
    observed: int,
    ledger: int,
    last: Option<TxView>,
    reconciliation_payee_id: Seq<char>,
    account_id: Seq<char>,
    today: Date,
)
    requires
        today.day == 1,
        last matches Some(t) && t.date.day == 1,
    ensures
        spec_decide(observed, ledger, last, reconciliation_payee_id, account_id, today)
            is NoOp,
{
}

/// On a mismatch that is not a month anchor, the engine amends exactly
/// when the most recent transaction is an amendable reconciliation
/// entry, and creates otherwise; it never stays silent.
pub proof fn lemma_amend_create_partition(
    observed: int,
    ledger: int,
    last: Option<TxView>,
    reconciliation_payee_id: Seq<char>,
    account_id: Seq<char>,
    today: Date,
)
    requires
        observed != ledger,
        !spec_month_anchor(today, last),
    ensures
        ({
            let d = spec_decide(observed, ledger, last, reconciliation_payee_id, account_id, today);
            &&& !(d is NoOp)
            &&& d is Amend <==> spec_amendable(last, reconciliation_payee_id)
            &&& d is Create <==> !spec_amendable(last, reconciliation_payee_id)
        }),
{
}

/// Deciding is idempotent: once the first decision has been applied to
/// the ledger, deciding again for the same observed balance writes
/// nothing.
pub proof fn lemma_decide_idempotent(
    observed: int,
    ledger: int,
    last: Option<TxView>,
    reconciliation_payee_id: Seq<char>,
    account_id: Seq<char>,
    today: Date,
    new_id: Seq<char>,
)
    ensures
        ({
            let d = spec_decide(observed, ledger, last, reconciliation_payee_id, account_id, today);
            let (ledger2, last2) = spec_apply(d, ledger, last, new_id);
            spec_decide(observed, ledger2, last2, reconciliation_payee_id, account_id, today)
                is NoOp
        }),
{
}

/// The fixed metadata that marks a created transaction as an automatic
/// reconciliation entry.
pub struct TransactionMetadata {
    pub approved: bool,
    pub cleared: String,
    pub memo: String,
    pub payee_name: String,
    pub category_name: String,
}

/// The metadata carried by every created reconciliation transaction.
pub fn reconciliation_metadata() -> (m: TransactionMetadata)
    ensures
        m.approved == true,
        m.cleared@ == "reconciled"@,
        m.memo@ == "Entered automatically by YNAB"@,
        m.payee_name@ == "Reconciliation Balance Adjustment"@,
        m.category_name@ == "Uncategorized"@,
{
    TransactionMetadata {
        approved: true,
        cleared: String::from_str("reconciled"),
        memo: String::from_str("Entered automatically by YNAB"),
        payee_name: String::from_str("Reconciliation Balance Adjustment"),
        category_name: String::from_str("Uncategorized"),
    }
}

} // verus!
