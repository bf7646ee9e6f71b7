//! The cached OAuth token pair and its freshness rule.
//!
//! A token pair is cached in one file per account; the file's
//! last-modified time stands in for the moment the pair was issued. A
//! cached pair may seed a refresh only while the refresh token's
//! lifetime, measured from that moment, has not elapsed. Reading and
//! writing the file, and parsing its JSON, happen outside the library;
//! the library is handed the parsed record and the file time, or
//! nothing when the file was absent or unreadable or did not parse.

use vstd::prelude::*;

verus! {

/// A token pair as the identity provider issues it.
pub struct CachedToken {
    pub access_token: String,
    pub expires_in: u64,
    pub refresh_token: String,
    pub refresh_token_expires_in: u64,
}

impl CachedToken {
    /// An identical copy.
    pub fn duplicate(&self) -> (r: CachedToken)
        ensures
            r == *self,
    {
        CachedToken {
            access_token: self.access_token.clone(),
            expires_in: self.expires_in,
            refresh_token: self.refresh_token.clone(),
            refresh_token_expires_in: self.refresh_token_expires_in,
        }
    }
}

/// A token issued at `modified_at` with refresh lifetime `refresh_ttl`
/// is still usable at `now`. All three are Unix seconds.
pub open spec fn spec_token_fresh(modified_at: u64, refresh_ttl: u64, now: u64) -> bool {
    now <= modified_at + refresh_ttl
}

/// Whether a token issued at `modified_at` may still seed a refresh.
pub fn token_fresh(modified_at: u64, refresh_ttl: u64, now: u64) -> (r: bool)
    ensures
        r == spec_token_fresh(modified_at, refresh_ttl, now),
{
    if now <= modified_at {
        true
    } else {
        now - modified_at <= refresh_ttl
    }
}

/// Decide whether the cache holds a usable token. `loaded` is what came
/// off disk: the parsed record and the file's last-modified time, or
/// nothing for an absent, unreadable or unparsable file. The result is
/// the token exactly when one was loaded and its refresh lifetime has
/// not elapsed at `now`; a stale or missing record is simply absent,
/// never an error.
pub fn load_cached_token(loaded: Option<(CachedToken, u64)>, now: u64) -> (r: Option<CachedToken>)
    ensures
        r is Some <==> (loaded matches Some(p) && spec_token_fresh(
            p.1,
            p.0.refresh_token_expires_in,
            now,
        )),
        r matches Some(t) ==> loaded matches Some(p) && t == p.0,
{
    match loaded {
        None => None,
        Some((token, modified_at)) => {
            if token_fresh(modified_at, token.refresh_token_expires_in, now) {
                Some(token)
            } else {
                None
            }
        },
    }
}

/// Relies on chrono: `Utc::now().timestamp()` is the current Unix time
/// in whole seconds.
#[verifier::external_body]
pub fn current_unix_time() -> i64 {
    chrono::Utc::now().timestamp()
}

/// [`load_cached_token`] against the clock's own notion of now. A clock
/// reading before the Unix epoch counts as the epoch itself.
pub fn load_cached_token_now(loaded: Option<(CachedToken, u64)>) -> (r: Option<CachedToken>)
    ensures
        r matches Some(t) ==> loaded matches Some(p) && t == p.0,
        loaded is None ==> r is None,
{
    let now = current_unix_time();
    let now_secs: u64 = if now < 0 {
        0
    } else {
        now as u64
    };
    load_cached_token(loaded, now_secs)
}

} // verus!
