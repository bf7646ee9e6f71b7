//! The authorization flow over one run, as a state machine.
//!
//! The flow starts by checking the token cache. A usable cached pair
//! seeds a refresh exchange straight away; without one the user is sent
//! the login URL, the redirect's authorization code is exchanged for a
//! pair, and that pair is persisted and then refreshed. Either way the
//! freshly refreshed pair is persisted before use: every run rotates the
//! cache. The step function decides each transition and names the
//! outside action to perform; performing it — the HTTP exchanges, the
//! notification, the cache write — happens outside the library, which
//! is handed the outcome as the next event.

use crate::http_redirect::{
    extract_code, spec_pct_decode, spec_redirect_code, spec_request_target, RedirectError,
};
use crate::token_cache::CachedToken;
use vstd::prelude::*;
use vstd::string::{is_ascii, StrSliceExecFns};

verus! {

/// Why an authorization flow aborted.
#[derive(Clone, Copy, Debug, PartialEq, Eq, Structural)]
pub enum AuthFlowError {
    /// The redirect request held no HTTP request line.
    MalformedRedirect,
    /// The redirect request carried no `code` parameter.
    MissingAuthCode,
    /// The provider rejected the authorization-code exchange.
    ExchangeRejected,
    /// The provider rejected the refresh exchange.
    RefreshRejected,
    /// An event arrived that the current state cannot accept.
    UnexpectedEvent,
}

/// The description [`AuthFlowError::describe`] returns.
pub open spec fn spec_describe(e: AuthFlowError) -> Seq<char> {
    match e {
        AuthFlowError::MalformedRedirect => "malformed redirect request"@,
        AuthFlowError::MissingAuthCode => "redirect carried no authorization code"@,
        AuthFlowError::ExchangeRejected => "authorization code exchange rejected"@,
        AuthFlowError::RefreshRejected => "token refresh rejected"@,
        AuthFlowError::UnexpectedEvent => "event does not fit the flow state"@,
    }
}

impl AuthFlowError {
    /// A short description for reporting the failure.
    pub fn describe(&self) -> (r: String)
        ensures
            r@ == spec_describe(*self),
    {
        match self {
            AuthFlowError::MalformedRedirect => String::from_str("malformed redirect request"),
            AuthFlowError::MissingAuthCode => String::from_str(
                "redirect carried no authorization code",
            ),
            AuthFlowError::ExchangeRejected => String::from_str(
                "authorization code exchange rejected",
            ),
            AuthFlowError::RefreshRejected => String::from_str("token refresh rejected"),
            AuthFlowError::UnexpectedEvent => String::from_str("event does not fit the flow state"),
        }
    }
}

/// What the flow needs to know about the identity provider.
pub struct FlowConfig {
    pub authorize_endpoint: Vec<u8>,
    pub client_id: Vec<u8>,
    pub state_param: Vec<u8>,
    pub redirect_uri: Vec<u8>,
}

/// Where one run of the flow stands.
pub enum FlowState {
    /// Nothing checked yet; the cache is being consulted.
    Start,
    /// The login link went out; a redirect is awaited.
    AwaitingLogin,
    /// An authorization code is being exchanged for a token pair.
    ExchangingCode,
    /// A pair fresh from the code exchange is being persisted.
    SavingInitial { token: CachedToken },
    /// A refresh exchange is running, seeded by this pair.
    Refreshing { seed: CachedToken },
    /// The refreshed pair is being persisted.
    SavingFresh { token: CachedToken },
    /// The flow finished; this pair is ready for use.
    Done { token: CachedToken },
    /// The flow aborted.
    Failed { error: AuthFlowError },
}

/// What the outside world reports back to the flow.
pub enum FlowEvent {
    /// The cache was consulted: a usable token pair, or none.
    CacheChecked { token: Option<CachedToken> },
    /// A redirect arrived; these are the raw bytes of its request head.
    RedirectReceived { request: Vec<u8> },
    /// The code exchange answered: a pair, or a rejection.
    TokenExchanged { token: Option<CachedToken> },
    /// The pair was written to the cache.
    TokenSaved,
    /// The refresh exchange answered: a pair, or a rejection.
    TokenRefreshed { token: Option<CachedToken> },
}

/// What the outside world is asked to do next.
pub enum FlowAction {
    /// Deliver this login URL to the user and await the redirect.
    NotifyLogin { url: Vec<u8> },
    /// Exchange this authorization code for a token pair.
    ExchangeCode { code: Vec<u8> },
    /// Persist this pair in the token cache.
    SaveToken { token: CachedToken },
    /// Run a refresh exchange seeded by this refresh token.
    RefreshToken { refresh_token: String },
    /// The flow is done; use this pair.
    Complete { token: CachedToken },
    /// The flow failed; report and stop.
    Abort { error: AuthFlowError },
}

/// The bytes of `s`, which must be ASCII characters.
pub open spec fn spec_ascii_bytes(s: Seq<char>) -> Seq<u8> {
    Seq::new(s.len(), |i: int| s[i] as u8)
}

/// `b` needs no escaping in a URL query component: a letter, a digit,
/// or one of `-` `.` `_` `~`.
pub open spec fn spec_is_unreserved(b: u8) -> bool {
    ||| 48 <= b <= 57
    ||| 65 <= b <= 90
    ||| 97 <= b <= 122
    ||| b == 45
    ||| b == 46
    ||| b == 95
    ||| b == 126
}

/// The upper-case hexadecimal digit of a value below sixteen.
pub open spec fn spec_hex_digit(v: int) -> u8 {
    if v < 10 {
        (48 + v) as u8
    } else {
        (55 + v) as u8
    }
}

/// Percent-encoding of a query component: unreserved bytes pass
/// through, every other byte becomes `%` and two hexadecimal digits.
pub open spec fn spec_pct_encode(s: Seq<u8>) -> Seq<u8>
    decreases s.len(),
{
    if s.len() == 0 {
        Seq::empty()
    } else if spec_is_unreserved(s[0]) {
        seq![s[0]] + spec_pct_encode(s.skip(1))
    } else {
        seq![37u8, spec_hex_digit(s[0] as int / 16), spec_hex_digit(s[0] as int % 16)]
            + spec_pct_encode(
            s.skip(1),
        )
    }
}

fn hex_digit(v: u8) -> (r: u8)
    requires
        v < 16,
    ensures
        r == spec_hex_digit(v as int),
{
    if v < 10 {
        48 + v
    } else {
        55 + v
    }
}

fn is_unreserved(b: u8) -> (r: bool)
    ensures
        r == spec_is_unreserved(b),
{
    (48 <= b && b <= 57) || (65 <= b && b <= 90) || (97 <= b && b <= 122) || b == 45 || b == 46
        || b == 95 || b == 126
}

/// Percent-encode a query component.
pub fn pct_encode(s: &[u8]) -> (r: Vec<u8>)
    ensures
        r@ == spec_pct_encode(s@),
{
    let mut out: Vec<u8> = Vec::new();
    let mut i: usize = 0;
    proof {
        assert(s@.skip(0) =~= s@);
        assert(out@ + spec_pct_encode(s@) =~= spec_pct_encode(s@));
    }
    while i < s.len()
        invariant
            0 <= i <= s@.len(),
            spec_pct_encode(s@) == out@ + spec_pct_encode(s@.skip(i as int)),
        decreases s@.len() - i,
    {
        let ghost rem = s@.skip(i as int);
        proof {
            assert(rem[0] == s@[i as int]);
        }
        let b = s[i];
        if is_unreserved(b) {
            out.push(b);
        } else {
            out.push(37);
            out.push(hex_digit(b / 16));
            out.push(hex_digit(b % 16));
        }
        proof {
            assert(rem.skip(1) =~= s@.skip(i as int + 1));
            assert(out@ + spec_pct_encode(s@.skip(i as int + 1)) =~= spec_pct_encode(s@));
        }
        i = i + 1;
    }
    proof {
        assert(s@.skip(i as int) =~= Seq::<u8>::empty());
        assert(out@ + spec_pct_encode(s@.skip(i as int)) =~= out@);
    }
    out
}

proof fn lemma_hex_digit_value(v: int)
    requires
        0 <= v < 16,
    ensures
        crate::http_redirect::spec_is_hex(spec_hex_digit(v)),
        crate::http_redirect::spec_hex_val(spec_hex_digit(v)) == v,
{
}

/// What percent-encoding emits, the redirect parser's decoding gives
/// back unchanged: a query component survives the trip through the
/// login URL and the redirect intact.
pub proof fn lemma_pct_round_trip(s: Seq<u8>)
    ensures
        spec_pct_decode(spec_pct_encode(s)) == s,
    decreases s.len(),
{
    if s.len() == 0 {
        assert(spec_pct_encode(s) =~= Seq::<u8>::empty());
        assert(spec_pct_decode(spec_pct_encode(s)) =~= s);
    } else {
        let b = s[0];
        let rest = s.skip(1);
        lemma_pct_round_trip(rest);
        if spec_is_unreserved(b) {
            let e = seq![b] + spec_pct_encode(rest);
            assert(spec_pct_encode(s) == e);
            assert(e[0] == b && b != 37 && b != 43);
            assert(e.skip(1) =~= spec_pct_encode(rest));
            assert(spec_pct_decode(e) == seq![b] + spec_pct_decode(spec_pct_encode(rest)));
            assert(seq![b] + rest =~= s);
        } else {
            let h1 = spec_hex_digit(b as int / 16);
            let h2 = spec_hex_digit(b as int % 16);
            lemma_hex_digit_value(b as int / 16);
            lemma_hex_digit_value(b as int % 16);
            let e = seq![37u8, h1, h2] + spec_pct_encode(rest);
            assert(spec_pct_encode(s) == e);
            assert(e[0] == 37 && e[1] == h1 && e[2] == h2 && e.len() >= 3);
            assert(e.skip(3) =~= spec_pct_encode(rest));
            assert(spec_pct_decode(e) == seq![(crate::http_redirect::spec_hex_val(e[1]) * 16
                + crate::http_redirect::spec_hex_val(e[2])) as u8] + spec_pct_decode(
                spec_pct_encode(rest),
            ));
            assert((crate::http_redirect::spec_hex_val(e[1]) * 16
                + crate::http_redirect::spec_hex_val(e[2])) as u8 == b);
            assert(seq![b] + rest =~= s);
        }
    }
}

/// The authorization URL: the provider's authorize endpoint asked for a
/// code for this client, with the fixed state value and the redirect
/// target, each component percent-encoded.
pub open spec fn spec_authorize_url(
    endpoint: Seq<u8>,
    client_id: Seq<u8>,
    state_param: Seq<u8>,
    redirect_uri: Seq<u8>,
) -> Seq<u8> {
    endpoint + spec_ascii_bytes("?response_type=code&client_id="@) + spec_pct_encode(client_id)
        + spec_ascii_bytes("&state="@) + spec_pct_encode(state_param) + spec_ascii_bytes(
        "&redirect_uri="@,
    ) + spec_pct_encode(redirect_uri)
}

fn ascii_literal_bytes(s: &str) -> (v: Vec<u8>)
    requires
        is_ascii(s),
    ensures
        v@ == spec_ascii_bytes(s@),
{
    let v = s.as_bytes_vec();
    proof {
        broadcast use vstd::string::is_ascii_spec_bytes;

        assert(v@ =~= spec_ascii_bytes(s@));
    }
    v
}

fn push_all(out: &mut Vec<u8>, s: &[u8])
    ensures
        final(out)@ == old(out)@ + s@,
{
    let mut i: usize = 0;
    proof {
        assert(out@ + s@.take(0) =~= out@);
    }
    while i < s.len()
        invariant
            0 <= i <= s@.len(),
            out@ == old(out)@ + s@.take(i as int),
        decreases s@.len() - i,
    {
        out.push(s[i]);
        proof {
            assert(old(out)@ + s@.take(i as int) + seq![s@[i as int]] =~= old(out)@ + s@.take(
                i as int + 1,
            ));
        }
        i = i + 1;
    }
    proof {
        assert(s@.take(i as int) =~= s@);
    }
}

/// Build the authorization URL for this provider configuration.
pub fn build_authorize_url(cfg: &FlowConfig) -> (r: Vec<u8>)
    ensures
        r@ == spec_authorize_url(
            cfg.authorize_endpoint@,
            cfg.client_id@,
            cfg.state_param@,
            cfg.redirect_uri@,
        ),
{
    proof {
        reveal_strlit("?response_type=code&client_id=");
        reveal_strlit("&state=");
        reveal_strlit("&redirect_uri=");
    }
    let mut out: Vec<u8> = Vec::new();
    push_all(&mut out, cfg.authorize_endpoint.as_slice());
    let lit_client = ascii_literal_bytes("?response_type=code&client_id=");
    push_all(&mut out, lit_client.as_slice());
    let enc_client = pct_encode(cfg.client_id.as_slice());
    push_all(&mut out, enc_client.as_slice());
    let lit_state = ascii_literal_bytes("&state=");
    push_all(&mut out, lit_state.as_slice());
    let enc_state = pct_encode(cfg.state_param.as_slice());
    push_all(&mut out, enc_state.as_slice());
    let lit_redirect = ascii_literal_bytes("&redirect_uri=");
    push_all(&mut out, lit_redirect.as_slice());
    let enc_redirect = pct_encode(cfg.redirect_uri.as_slice());
    push_all(&mut out, enc_redirect.as_slice());
    out
}

/// The error that a failed redirect parse maps to.
pub open spec fn spec_redirect_error(request: Seq<u8>) -> AuthFlowError {
    if spec_request_target(request) is None {
        AuthFlowError::MalformedRedirect
    } else {
        AuthFlowError::MissingAuthCode
    }
}

/// The transition relation of the flow: from `state`, on `event`, the
/// flow moves to `next` and asks for `action`.
pub open spec fn spec_flow_step(
    cfg: FlowConfig,
    state: FlowState,
    event: FlowEvent,
    next: FlowState,
    action: FlowAction,
) -> bool {
    match (state, event) {
        (FlowState::Start, FlowEvent::CacheChecked { token: Some(t) }) => {
            &&& next == (FlowState::Refreshing { seed: t })
            &&& action == (FlowAction::RefreshToken { refresh_token: t.refresh_token })
        },
        (FlowState::Start, FlowEvent::CacheChecked { token: None }) => {
            &&& next == FlowState::AwaitingLogin
            &&& action matches FlowAction::NotifyLogin { url } && url@ == spec_authorize_url(
                cfg.authorize_endpoint@,
                cfg.client_id@,
                cfg.state_param@,
                cfg.redirect_uri@,
            )
        },
        (FlowState::AwaitingLogin, FlowEvent::RedirectReceived { request }) => match spec_redirect_code(
            request@,
        ) {
            Some(c) => {
                &&& next == FlowState::ExchangingCode
                &&& action matches FlowAction::ExchangeCode { code } && code@ == c
            },
            None => {
                &&& next == (FlowState::Failed { error: spec_redirect_error(request@) })
                &&& action == (FlowAction::Abort { error: spec_redirect_error(request@) })
            },
        },
        (FlowState::ExchangingCode, FlowEvent::TokenExchanged { token: Some(t) }) => {
            &&& next == (FlowState::SavingInitial { token: t })
            &&& action == (FlowAction::SaveToken { token: t })
        },
        (FlowState::ExchangingCode, FlowEvent::TokenExchanged { token: None }) => {
            &&& next == (FlowState::Failed { error: AuthFlowError::ExchangeRejected })
            &&& action == (FlowAction::Abort { error: AuthFlowError::ExchangeRejected })
        },
        (FlowState::SavingInitial { token }, FlowEvent::TokenSaved) => {
            &&& next == (FlowState::Refreshing { seed: token })
            &&& action == (FlowAction::RefreshToken { refresh_token: token.refresh_token })
        },
        (FlowState::Refreshing { seed }, FlowEvent::TokenRefreshed { token: Some(t) }) => {
            &&& next == (FlowState::SavingFresh { token: t })
            &&& action == (FlowAction::SaveToken { token: t })
        },
        (FlowState::Refreshing { seed }, FlowEvent::TokenRefreshed { token: None }) => {
            &&& next == (FlowState::Failed { error: AuthFlowError::RefreshRejected })
            &&& action == (FlowAction::Abort { error: AuthFlowError::RefreshRejected })
        },
        (FlowState::SavingFresh { token }, FlowEvent::TokenSaved) => {
            &&& next == (FlowState::Done { token })
            &&& action == (FlowAction::Complete { token })
        },
        _ => {
            &&& next == (FlowState::Failed { error: AuthFlowError::UnexpectedEvent })
            &&& action == (FlowAction::Abort { error: AuthFlowError::UnexpectedEvent })
        },
    }
}

/// The flow completes only by persisting a freshly refreshed pair:
/// whatever token comes out of a run was first written to the cache,
/// and it reached the cache through the refresh exchange.
pub proof fn lemma_done_only_after_final_save(
    cfg: FlowConfig,
    state: FlowState,
    event: FlowEvent,
    next: FlowState,
    action: FlowAction,
)
    requires
        spec_flow_step(cfg, state, event, next, action),
        next is Done,
    ensures
        state matches FlowState::SavingFresh { token } && next == (FlowState::Done { token })
            && action == (FlowAction::Complete { token }),
        event is TokenSaved,
{
}

/// Take one step of the authorization flow.
pub fn flow_step(cfg: &FlowConfig, state: FlowState, event: FlowEvent) -> (r: (
    FlowState,
    FlowAction,
))
    ensures
        spec_flow_step(*cfg, state, event, r.0, r.1),
{
    match (state, event) {
        (FlowState::Start, FlowEvent::CacheChecked { token: Some(t) }) => {
            let refresh_token = t.refresh_token.clone();
            (FlowState::Refreshing { seed: t }, FlowAction::RefreshToken { refresh_token })
        },
        (FlowState::Start, FlowEvent::CacheChecked { token: None }) => {
            let url = build_authorize_url(cfg);
            (FlowState::AwaitingLogin, FlowAction::NotifyLogin { url })
        },
        (FlowState::AwaitingLogin, FlowEvent::RedirectReceived { request }) => {
            match extract_code(request.as_slice()) {
                Ok(code) => (FlowState::ExchangingCode, FlowAction::ExchangeCode { code }),
                Err(RedirectError::MalformedRequest) => (
                    FlowState::Failed { error: AuthFlowError::MalformedRedirect },
                    FlowAction::Abort { error: AuthFlowError::MalformedRedirect },
                ),
                Err(RedirectError::MissingCode) => (
                    FlowState::Failed { error: AuthFlowError::MissingAuthCode },
                    FlowAction::Abort { error: AuthFlowError::MissingAuthCode },
                ),
            }
        },
        (FlowState::ExchangingCode, FlowEvent::TokenExchanged { token: Some(t) }) => {
            let copy = t.duplicate();
            (FlowState::SavingInitial { token: t }, FlowAction::SaveToken { token: copy })
        },
        (FlowState::ExchangingCode, FlowEvent::TokenExchanged { token: None }) => (
            FlowState::Failed { error: AuthFlowError::ExchangeRejected },
            FlowAction::Abort { error: AuthFlowError::ExchangeRejected },
        ),
        (FlowState::SavingInitial { token }, FlowEvent::TokenSaved) => {
            let refresh_token = token.refresh_token.clone();
            (FlowState::Refreshing { seed: token }, FlowAction::RefreshToken { refresh_token })
        },
        (FlowState::Refreshing { seed: _ }, FlowEvent::TokenRefreshed { token: Some(t) }) => {
            let copy = t.duplicate();
            (FlowState::SavingFresh { token: t }, FlowAction::SaveToken { token: copy })
        },
        (FlowState::Refreshing { seed: _ }, FlowEvent::TokenRefreshed { token: None }) => (
            FlowState::Failed { error: AuthFlowError::RefreshRejected },
            FlowAction::Abort { error: AuthFlowError::RefreshRejected },
        ),
        (FlowState::SavingFresh { token }, FlowEvent::TokenSaved) => {
            let copy = token.duplicate();
            (FlowState::Done { token }, FlowAction::Complete { token: copy })
        },
        _ => (
            FlowState::Failed { error: AuthFlowError::UnexpectedEvent },
            FlowAction::Abort { error: AuthFlowError::UnexpectedEvent },
        ),
    }
}

/// The notification text for a failed run.
pub fn failure_notification_text(detail: &str) -> (r: String)
    ensures
        r@ == "Failed to update YNAB: "@ + detail@,
{
    let mut text = String::from_str("Failed to update YNAB: ");
    text.append(detail);
    text
}

} // verus!
