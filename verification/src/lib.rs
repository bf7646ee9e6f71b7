//! Keeps a budgeting ledger's recorded balance in sync with an account's
//! observed real-world balance.
//!
//! The verified core holds the reconciliation decision engine, the OAuth
//! token-cache freshness rule, the parser that extracts an authorization
//! code from a browser's redirect request, and the authorization-flow
//! state machine. Network and file I/O live outside the library and hand
//! it plain values.

use vstd::prelude::*;

pub mod auth_flow;
pub mod date;
pub mod http_redirect;
pub mod reconcile;
pub mod token_cache;

verus! {

/// Fixed settings for one run: ledger credentials and the payee used to
/// tag reconciliation transactions.
pub struct Config {
    pub config_path: String,
    pub pushover_user_key: String,
    pub pushover_api_key: String,
    pub ynab_bearer_token: String,
    pub ynab_budget_id: String,
    pub ynab_reconciliation_payee_id: String,
}

/// The ledger identity of one real-world account.
pub struct YnabAccountConfig {
    pub ynab_account_id: String,
}

/// Where a run failed. Every failure aborts the run; the only recovery
/// is a best-effort notification carrying this value's description.
pub enum RunError {
    /// Settings were missing or malformed.
    Config { detail: String },
    /// The authorization flow aborted.
    Auth { error: auth_flow::AuthFlowError },
    /// The ledger API answered with an error, or the transaction
    /// history was empty where one was required.
    Ledger { detail: String },
    /// The balance source could not produce a balance.
    Source { detail: String },
}

impl RunError {
    /// A description of the failure for the notification.
    pub fn describe(&self) -> (r: String)
        ensures
            match self {
                RunError::Config { detail } => r@ == "configuration error: "@ + detail@,
                RunError::Auth { error } => r@ == "authorization failed: "@ + auth_flow::spec_describe(*error),
                RunError::Ledger { detail } => r@ == "ledger error: "@ + detail@,
                RunError::Source { detail } => r@ == "balance source error: "@ + detail@,
            },
    {
        match self {
            RunError::Config { detail } => {
                let mut text = String::from_str("configuration error: ");
                text.append(detail.as_str());
                text
            },
            RunError::Auth { error } => {
                let mut text = String::from_str("authorization failed: ");
                let detail = error.describe();
                text.append(detail.as_str());
                text
            },
            RunError::Ledger { detail } => {
                let mut text = String::from_str("ledger error: ");
                text.append(detail.as_str());
                text
            },
            RunError::Source { detail } => {
                let mut text = String::from_str("balance source error: ");
                text.append(detail.as_str());
                text
            },
        }
    }
}

} // verus!
