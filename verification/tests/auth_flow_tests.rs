use ynab_updater::auth_flow::{
    build_authorize_url, failure_notification_text, flow_step, pct_encode, AuthFlowError,
    FlowAction, FlowConfig, FlowEvent, FlowState,
};
use ynab_updater::token_cache::CachedToken;
use ynab_updater::RunError;

fn config() -> FlowConfig {
    FlowConfig {
        authorize_endpoint: b"https://live.logonvalidation.net/authorize".to_vec(),
        client_id: b"client-123".to_vec(),
        state_param: b"0".to_vec(),
        redirect_uri: b"http://100.64.0.1:9999/".to_vec(),
    }
}

fn token(tag: &str) -> CachedToken {
    CachedToken {
        access_token: format!("access-{}", tag),
        expires_in: 1200,
        refresh_token: format!("refresh-{}", tag),
        refresh_token_expires_in: 3600,
    }
}

#[test]
fn authorize_url_is_exact() {
    let url = build_authorize_url(&config());
    let expected = "https://live.logonvalidation.net/authorize?response_type=code&client_id=client-123&state=0&redirect_uri=http%3A%2F%2F100.64.0.1%3A9999%2F";
    assert_eq!(String::from_utf8(url).unwrap(), expected);
}

#[test]
fn percent_encoding_is_uppercase_hex() {
    assert_eq!(pct_encode(b"a b/c~"), b"a%20b%2Fc~".to_vec());
    assert_eq!(pct_encode(b""), b"".to_vec());
}

#[test]
fn encoding_survives_decoding() {
    let samples: Vec<&[u8]> = vec![
        b"",
        b"plain-text_0.9~",
        b"a b/c?d&e=f%g+h",
        b"http://100.64.0.1:9999/",
        &[0u8, 37, 43, 127, 128, 255],
    ];
    for s in samples {
        assert_eq!(ynab_updater::http_redirect::pct_decode(&pct_encode(s)), s.to_vec());
    }
}

#[test]
fn cached_token_seeds_refresh() {
    let (next, action) = flow_step(
        &config(),
        FlowState::Start,
        FlowEvent::CacheChecked { token: Some(token("cached")) },
    );
    assert!(matches!(next, FlowState::Refreshing { .. }));
    match action {
        FlowAction::RefreshToken { refresh_token } => {
            assert_eq!(refresh_token, "refresh-cached".to_string());
        }
        other => panic!("expected RefreshToken, got a different action: {}", describe(&other)),
    }
}

#[test]
fn empty_cache_sends_login_link() {
    let (next, action) =
        flow_step(&config(), FlowState::Start, FlowEvent::CacheChecked { token: None });
    assert!(matches!(next, FlowState::AwaitingLogin));
    match action {
        FlowAction::NotifyLogin { url } => assert_eq!(url, build_authorize_url(&config())),
        other => panic!("expected NotifyLogin, got a different action: {}", describe(&other)),
    }
}

#[test]
fn full_interactive_path_reaches_done() {
    let cfg = config();
    let request = b"GET /?state=0&code=abc123 HTTP/1.1\r\nHost: local\r\n\r\n".to_vec();

    let (s1, _) = flow_step(&cfg, FlowState::Start, FlowEvent::CacheChecked { token: None });
    let (s2, a2) = flow_step(&cfg, s1, FlowEvent::RedirectReceived { request });
    match a2 {
        FlowAction::ExchangeCode { code } => assert_eq!(code, b"abc123".to_vec()),
        other => panic!("expected ExchangeCode, got a different action: {}", describe(&other)),
    }
    let (s3, a3) =
        flow_step(&cfg, s2, FlowEvent::TokenExchanged { token: Some(token("exchanged")) });
    assert!(matches!(a3, FlowAction::SaveToken { .. }));
    let (s4, a4) = flow_step(&cfg, s3, FlowEvent::TokenSaved);
    match a4 {
        FlowAction::RefreshToken { refresh_token } => {
            assert_eq!(refresh_token, "refresh-exchanged".to_string());
        }
        other => panic!("expected RefreshToken, got a different action: {}", describe(&other)),
    }
    let (s5, a5) =
        flow_step(&cfg, s4, FlowEvent::TokenRefreshed { token: Some(token("fresh")) });
    match a5 {
        FlowAction::SaveToken { token } => {
            assert_eq!(token.access_token, "access-fresh".to_string());
        }
        other => panic!("expected SaveToken, got a different action: {}", describe(&other)),
    }
    let (s6, a6) = flow_step(&cfg, s5, FlowEvent::TokenSaved);
    match (&s6, &a6) {
        (FlowState::Done { token }, FlowAction::Complete { token: used }) => {
            assert_eq!(token.access_token, "access-fresh".to_string());
            assert_eq!(used.access_token, "access-fresh".to_string());
        }
        _ => panic!("expected Done and Complete, got: {}", describe(&a6)),
    }
}

#[test]
fn codeless_redirect_aborts() {
    let cfg = config();
    let request = b"GET /?state=0 HTTP/1.1\r\n\r\n".to_vec();
    let (next, action) =
        flow_step(&cfg, FlowState::AwaitingLogin, FlowEvent::RedirectReceived { request });
    assert!(matches!(next, FlowState::Failed { error: AuthFlowError::MissingAuthCode }));
    assert!(matches!(action, FlowAction::Abort { error: AuthFlowError::MissingAuthCode }));
}

#[test]
fn malformed_redirect_aborts() {
    let cfg = config();
    let request = b"not an http request".to_vec();
    let (next, _) =
        flow_step(&cfg, FlowState::AwaitingLogin, FlowEvent::RedirectReceived { request });
    assert!(matches!(next, FlowState::Failed { error: AuthFlowError::MalformedRedirect }));
}

#[test]
fn rejected_exchange_aborts() {
    let cfg = config();
    let (next, _) =
        flow_step(&cfg, FlowState::ExchangingCode, FlowEvent::TokenExchanged { token: None });
    assert!(matches!(next, FlowState::Failed { error: AuthFlowError::ExchangeRejected }));
}

#[test]
fn rejected_refresh_aborts() {
    let cfg = config();
    let (next, _) = flow_step(
        &cfg,
        FlowState::Refreshing { seed: token("seed") },
        FlowEvent::TokenRefreshed { token: None },
    );
    assert!(matches!(next, FlowState::Failed { error: AuthFlowError::RefreshRejected }));
}

#[test]
fn mismatched_event_aborts() {
    let cfg = config();
    let (next, action) = flow_step(&cfg, FlowState::Start, FlowEvent::TokenSaved);
    assert!(matches!(next, FlowState::Failed { error: AuthFlowError::UnexpectedEvent }));
    assert!(matches!(action, FlowAction::Abort { error: AuthFlowError::UnexpectedEvent }));
}

#[test]
fn failure_texts_name_the_stage() {
    assert_eq!(
        failure_notification_text("ledger error: status 500"),
        "Failed to update YNAB: ledger error: status 500".to_string()
    );
    let e = RunError::Auth { error: AuthFlowError::MissingAuthCode };
    assert_eq!(
        e.describe(),
        "authorization failed: redirect carried no authorization code".to_string()
    );
    let e = RunError::Ledger { detail: "status 500".to_string() };
    assert_eq!(e.describe(), "ledger error: status 500".to_string());
    let e = RunError::Config { detail: "missing key".to_string() };
    assert_eq!(e.describe(), "configuration error: missing key".to_string());
    let e = RunError::Source { detail: "no balance".to_string() };
    assert_eq!(e.describe(), "balance source error: no balance".to_string());
}

fn describe(action: &FlowAction) -> &'static str {
    match action {
        FlowAction::NotifyLogin { .. } => "NotifyLogin",
        FlowAction::ExchangeCode { .. } => "ExchangeCode",
        FlowAction::SaveToken { .. } => "SaveToken",
        FlowAction::RefreshToken { .. } => "RefreshToken",
        FlowAction::Complete { .. } => "Complete",
        FlowAction::Abort { .. } => "Abort",
    }
}
