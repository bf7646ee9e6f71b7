use ynab_updater::date::Date;
use ynab_updater::reconcile::{decide, reconciliation_metadata, Decision, LedgerTransaction};

fn recon_payee() -> String {
    "payee-recon".to_string()
}

fn account() -> String {
    "account-1".to_string()
}

fn last_tx(amount: i64, date: Date, payee: &str) -> LedgerTransaction {
    LedgerTransaction { id: "tx-1".to_string(), date, amount, payee_id: payee.to_string() }
}

#[test]
fn noop_when_balances_equal() {
    let today = Date { year: 2024, month: 3, day: 20 };
    let t = last_tx(2000, Date { year: 2024, month: 3, day: 15 }, "payee-recon");
    let d = decide(100000, 100000, Some(&t), &recon_payee(), &account(), today);
    assert!(matches!(d, Decision::NoOp));
}

#[test]
fn noop_when_balances_equal_without_history() {
    let today = Date { year: 2024, month: 3, day: 20 };
    let d = decide(0, 0, None, &recon_payee(), &account(), today);
    assert!(matches!(d, Decision::NoOp));
}

#[test]
fn noop_on_month_anchor() {
    // Same mismatch as the amend scenario, but both dates are the 1st.
    let today = Date { year: 2024, month: 4, day: 1 };
    let t = last_tx(2000, Date { year: 2024, month: 4, day: 1 }, "payee-recon");
    let d = decide(105000, 100000, Some(&t), &recon_payee(), &account(), today);
    assert!(matches!(d, Decision::NoOp));
}

#[test]
fn amend_scenario() {
    // Ledger 100.00 at scale 1000, observed 105.00, last transaction a
    // reconciliation of 2.00 from mid-month: the entry absorbs the
    // 5.00 delta and moves to today.
    let today = Date { year: 2024, month: 3, day: 20 };
    let t = last_tx(2000, Date { year: 2024, month: 3, day: 15 }, "payee-recon");
    let d = decide(105000, 100000, Some(&t), &recon_payee(), &account(), today);
    match d {
        Decision::Amend { transaction_id, new_amount, new_date } => {
            assert_eq!(transaction_id, "tx-1".to_string());
            assert_eq!(new_amount, 7000);
            assert_eq!(new_date, today);
        }
        other => panic!("expected Amend, got {:?}", other),
    }
}

#[test]
fn create_when_last_payee_differs() {
    let today = Date { year: 2024, month: 3, day: 20 };
    let t = last_tx(2000, Date { year: 2024, month: 3, day: 15 }, "payee-other");
    let d = decide(105000, 100000, Some(&t), &recon_payee(), &account(), today);
    match d {
        Decision::Create { amount, date, payee_id, account_id } => {
            assert_eq!(amount, 5000);
            assert_eq!(date, today);
            assert_eq!(payee_id, recon_payee());
            assert_eq!(account_id, account());
        }
        other => panic!("expected Create, got {:?}", other),
    }
}

#[test]
fn create_when_last_is_first_of_month() {
    // The last transaction sits on the 1st but today does not: the
    // anchor is preserved by creating a fresh entry instead.
    let today = Date { year: 2024, month: 3, day: 20 };
    let t = last_tx(2000, Date { year: 2024, month: 3, day: 1 }, "payee-recon");
    let d = decide(105000, 100000, Some(&t), &recon_payee(), &account(), today);
    assert!(matches!(d, Decision::Create { .. }));
}

#[test]
fn create_when_history_empty() {
    let today = Date { year: 2024, month: 3, day: 20 };
    let d = decide(95000, 100000, None, &recon_payee(), &account(), today);
    match d {
        Decision::Create { amount, .. } => assert_eq!(amount, -5000),
        other => panic!("expected Create, got {:?}", other),
    }
}

#[test]
fn amend_on_first_of_month_without_anchor() {
    // Today is the 1st but the last transaction is not: the month
    // anchor rule does not fire, and a mid-month reconciliation entry
    // still absorbs the delta.
    let today = Date { year: 2024, month: 4, day: 1 };
    let t = last_tx(2000, Date { year: 2024, month: 3, day: 15 }, "payee-recon");
    let d = decide(105000, 100000, Some(&t), &recon_payee(), &account(), today);
    assert!(matches!(d, Decision::Amend { .. }));
}

#[test]
fn amend_then_decide_again_is_noop() {
    // Apply the amend decision to the ledger, then decide again for
    // the same observed balance: nothing further is written.
    let today = Date { year: 2024, month: 3, day: 20 };
    let t = last_tx(2000, Date { year: 2024, month: 3, day: 15 }, "payee-recon");
    let ledger: i64 = 100000;
    let observed: i64 = 105000;
    let d = decide(observed, ledger, Some(&t), &recon_payee(), &account(), today);
    let (new_amount, new_date, transaction_id) = match d {
        Decision::Amend { transaction_id, new_amount, new_date } => {
            (new_amount, new_date, transaction_id)
        }
        other => panic!("expected Amend, got {:?}", other),
    };
    let ledger2 = ledger + (new_amount - t.amount);
    let t2 = LedgerTransaction {
        id: transaction_id,
        date: new_date,
        amount: new_amount,
        payee_id: t.payee_id.clone(),
    };
    let d2 = decide(observed, ledger2, Some(&t2), &recon_payee(), &account(), today);
    assert!(matches!(d2, Decision::NoOp));
}

#[test]
fn create_then_decide_again_is_noop() {
    let today = Date { year: 2024, month: 3, day: 20 };
    let ledger: i64 = 100000;
    let observed: i64 = 93500;
    let d = decide(observed, ledger, None, &recon_payee(), &account(), today);
    let (amount, date, payee_id) = match d {
        Decision::Create { amount, date, payee_id, .. } => (amount, date, payee_id),
        other => panic!("expected Create, got {:?}", other),
    };
    let ledger2 = ledger + amount;
    let t2 = LedgerTransaction { id: "tx-new".to_string(), date, amount, payee_id };
    let d2 = decide(observed, ledger2, Some(&t2), &recon_payee(), &account(), today);
    assert!(matches!(d2, Decision::NoOp));
}

#[test]
fn metadata_marks_automatic_reconciliation() {
    let m = reconciliation_metadata();
    assert!(m.approved);
    assert_eq!(m.cleared, "reconciled".to_string());
    assert_eq!(m.memo, "Entered automatically by YNAB".to_string());
    assert_eq!(m.payee_name, "Reconciliation Balance Adjustment".to_string());
    assert_eq!(m.category_name, "Uncategorized".to_string());
}
