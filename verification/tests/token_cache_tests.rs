use ynab_updater::token_cache::{load_cached_token, token_fresh, CachedToken};

fn token(refresh_ttl: u64) -> CachedToken {
    CachedToken {
        access_token: "SECRET-REDACTED".to_string(),
        expires_in: 1200,
        refresh_token: "refresh-seed".to_string(),
        refresh_token_expires_in: refresh_ttl,
    }
}

#[test]
fn stale_file_is_absent() {
    // Modified at 1000, refresh lifetime 3600: gone at 4601.
    let loaded = Some((token(3600), 1000));
    assert!(load_cached_token(loaded, 4601).is_none());
}

#[test]
fn young_file_is_present() {
    let loaded = Some((token(3600), 1000));
    let got = load_cached_token(loaded, 4600).expect("token expected");
    assert_eq!(got.refresh_token, "refresh-seed".to_string());
    assert_eq!(got.refresh_token_expires_in, 3600);
}

#[test]
fn unreadable_file_is_absent() {
    // An absent, unreadable or unparsable file reaches the library as
    // nothing loaded at all.
    assert!(load_cached_token(None, 4600).is_none());
}

#[test]
fn lifetime_boundary_is_inclusive() {
    let loaded = Some((token(3600), 1000));
    assert!(load_cached_token(loaded, 4600).is_some());
}

#[test]
fn clock_before_file_time_is_fresh() {
    assert!(token_fresh(5000, 60, 4000));
    assert!(!token_fresh(5000, 60, 5061));
}
