//! One authorization attempt, from the generated secrets to the authorization code.
//!
//! The attempt is a state machine. This module decides; the caller performs what a
//! decision asks for (bind the listener, post the request, open the browser, wait for the
//! redirect) and reports what came of it as the next event.

use crate::callback::{callback_result, callback_verdict};
use crate::errors::{text_result_view, ErrorView, MyError};
use crate::par::{
    option_text, ParResponse, PushedAuthorizationRequest, PushedAuthorizationRequestView,
};
use crate::secrets::{
    generate_state, is_base64url, is_state_token, new_pkce, s256_challenge, PkcePair, STATE_LENGTH,
};
use crate::text::{decimal, push_decimal};
use crate::web::{
    join_url, joined_url, pair_fits, parse_url, parsed_url, try_append_pair, url_str, url_text,
    url_with_pair,
};
use reqwest::Url;
use vstd::prelude::*;

verus! {

/// Who asks for authorization, and for what.
#[derive(Debug)]
pub struct ClientConfig {
    pub client_id: String,
    pub scope: String,
}

impl Default for ClientConfig {
    /// A native client on this machine that asks for the scope `atproto`.
    fn default() -> (config: ClientConfig)
        ensures
            config.client_id@ == "http://localhost"@,
            config.scope@ == "atproto"@,
    {
        ClientConfig {
            client_id: String::from_str("http://localhost"),
            scope: String::from_str("atproto"),
        }
    }
}

/// How far an attempt has come. Before `authenticate` there is no attempt, and so no stage:
/// the first stage is the one in which the secrets exist.
#[derive(Clone, Copy, Debug, PartialEq, Eq, Structural)]
pub enum Stage {
    /// The secrets exist; the listener is to be bound.
    ChallengeGenerated,
    /// The listener is bound; the pushed authorization request is to be answered.
    ListenerStarted,
    /// The request was taken; the browser is to be opened.
    ParSubmitted,
    /// The browser is open; the redirect is awaited.
    AwaitingCallback,
    /// The attempt ended with an authorization code.
    CodeReceived,
    /// The attempt ended with a failure.
    Rejected,
}

/// Whether an attempt at `stage` has ended.
pub open spec fn is_terminal(stage: Stage) -> bool {
    stage == Stage::CodeReceived || stage == Stage::Rejected
}

/// What belongs to one authorization attempt. It is made by `authenticate`, moved on by
/// `advance`, and never used for a second attempt.
#[derive(Debug)]
pub struct AuthSession {
    stage: Stage,
    client_id: String,
    scope: String,
    issuer: String,
    server: Url,
    login_hint: Option<String>,
    state: String,
    code_challenge: String,
    code_challenge_method: String,
    code_verifier: String,
    redirect_uri: Option<String>,
}

/// An attempt as plain values: `issuer` is the address of the authorization server as the
/// caller gave it, `server` the same address as the parser wrote it down.
pub struct AuthSessionView {
    pub stage: Stage,
    pub client_id: Seq<char>,
    pub scope: Seq<char>,
    pub issuer: Seq<char>,
    pub server: Seq<char>,
    pub login_hint: Option<Seq<char>>,
    pub state: Seq<char>,
    pub code_challenge: Seq<char>,
    pub code_challenge_method: Seq<char>,
    pub code_verifier: Seq<char>,
    pub redirect_uri: Option<Seq<char>>,
}

impl View for AuthSession {
    type V = AuthSessionView;

    closed spec fn view(&self) -> AuthSessionView {
        AuthSessionView {
            stage: self.stage,
            client_id: self.client_id@,
            scope: self.scope@,
            issuer: self.issuer@,
            server: url_text(self.server),
            login_hint: option_text(self.login_hint),
            state: self.state@,
            code_challenge: self.code_challenge@,
            code_challenge_method: self.code_challenge_method@,
            code_verifier: self.code_verifier@,
            redirect_uri: option_text(self.redirect_uri),
        }
    }
}

impl AuthSessionView {
    /// An attempt whose listener is bound knows where the redirect goes.
    pub open spec fn wf(self) -> bool {
        (self.stage == Stage::ListenerStarted || self.stage == Stage::ParSubmitted || self.stage
            == Stage::AwaitingCallback) ==> self.redirect_uri is Some
    }
}

/// What the attempt hands to the token exchange: the authorization code and the verifier
/// that proves who asked for it.
#[derive(Debug)]
pub struct AuthorizationGrant {
    pub code: String,
    pub code_verifier: String,
}

/// `AuthorizationGrant` with each text as a sequence of characters.
pub struct AuthorizationGrantView {
    pub code: Seq<char>,
    pub code_verifier: Seq<char>,
}

impl View for AuthorizationGrant {
    type V = AuthorizationGrantView;

    open spec fn view(&self) -> AuthorizationGrantView {
        AuthorizationGrantView { code: self.code@, code_verifier: self.code_verifier@ }
    }
}

/// What the outside reports to an attempt.
#[derive(Debug)]
pub enum FlowEvent {
    /// The listener is bound to this port of the loopback interface.
    ListenerBound(u16),
    /// The authorization server answered the pushed authorization request.
    ParAnswered(ParResponse),
    /// The browser was opened.
    BrowserOpened,
    /// The listener received a redirect to this address.
    Callback(String),
    /// The last request could not be made, or its answer could not be read.
    Failed(MyError),
    /// The caller gives the attempt up: the wait was too long, or nobody can answer any more.
    Abandoned,
}

/// What an attempt asks of the outside next.
#[derive(Debug)]
pub enum FlowAction {
    /// Bind the listener and report its port.
    StartListener,
    /// Post `request` as JSON to `endpoint` and report the answer.
    SubmitPar { endpoint: String, request: PushedAuthorizationRequest },
    /// Open this address in the browser of the user and report that it was opened.
    OpenBrowser(String),
    /// Wait for the next redirect and report its address.
    AwaitCallback,
    /// Release the listener and stop with this result.
    Finish(Result<AuthorizationGrant, MyError>),
}

/// `FlowAction` with each text as a sequence of characters.
pub enum FlowActionView {
    StartListener,
    SubmitPar { endpoint: Seq<char>, request: PushedAuthorizationRequestView },
    OpenBrowser(Seq<char>),
    AwaitCallback,
    Finish(Result<AuthorizationGrantView, ErrorView>),
}

impl View for FlowAction {
    type V = FlowActionView;

    open spec fn view(&self) -> FlowActionView {
        match *self {
            FlowAction::StartListener => FlowActionView::StartListener,
            FlowAction::SubmitPar { endpoint, request } => FlowActionView::SubmitPar {
                endpoint: endpoint@,
                request: request@,
            },
            FlowAction::OpenBrowser(url) => FlowActionView::OpenBrowser(url@),
            FlowAction::AwaitCallback => FlowActionView::AwaitCallback,
            FlowAction::Finish(r) => FlowActionView::Finish(
                match r {
                    Ok(grant) => Ok(grant@),
                    Err(e) => Err(e@),
                },
            ),
        }
    }
}

/// The address to which the authorization server sends the browser back: the loopback
/// interface at the port of the listener.
pub open spec fn redirect_uri_for(port: u16) -> Seq<char> {
    "http://127.0.0.1:"@ + decimal(port as nat)
}

/// The body of the pushed authorization request of an attempt whose redirect goes to
/// `redirect_uri`.
pub open spec fn par_request(s: AuthSessionView, redirect_uri: Seq<char>) -> PushedAuthorizationRequestView {
    PushedAuthorizationRequestView {
        client_id: s.client_id,
        state: s.state,
        code_challenge: s.code_challenge,
        code_challenge_method: s.code_challenge_method,
        scope: s.scope,
        redirect_uri,
        response_type: "code"@,
        login_hint: s.login_hint,
    }
}

/// The address that the browser is sent to: `oauth/authorize` joined to the address of the
/// authorization server, with the parameters `client_id`, `redirect_uri`, `scope` and
/// `request_uri` appended to its query in this order.
pub open spec fn authorization_url_for(
    server: Seq<char>,
    client_id: Seq<char>,
    redirect_uri: Seq<char>,
    scope: Seq<char>,
    request_uri: Seq<char>,
) -> Result<Seq<char>, ErrorView> {
    match joined_url(server, "oauth/authorize"@) {
        Err(e) => Err(ErrorView::Parse(e)),
        Ok(base) => {
            let first = url_with_pair(base, "client_id"@, client_id);
            let second = url_with_pair(first, "redirect_uri"@, redirect_uri);
            let third = url_with_pair(second, "scope"@, scope);
            if pair_fits(base, "client_id"@, client_id) && pair_fits(
                first,
                "redirect_uri"@,
                redirect_uri,
            ) && pair_fits(second, "scope"@, scope) && pair_fits(
                third,
                "request_uri"@,
                request_uri,
            ) {
                Ok(url_with_pair(third, "request_uri"@, request_uri))
            } else {
                Err(ErrorView::Validation("authorization URL too long"@))
            }
        },
    }
}

/// The attempt `s` ended by the failure `e`.
pub open spec fn rejected(s: AuthSessionView, e: ErrorView) -> (AuthSessionView, FlowActionView) {
    (AuthSessionView { stage: Stage::Rejected, ..s }, FlowActionView::Finish(Err(e)))
}

/// The answer to an event that the stage of `s` does not expect: the attempt ends, and one
/// that had ended stays as it is.
pub open spec fn refused(s: AuthSessionView) -> (AuthSessionView, FlowActionView) {
    if is_terminal(s.stage) {
        (s, FlowActionView::Finish(Err(ErrorView::Validation("unexpected event"@))))
    } else {
        rejected(s, ErrorView::Validation("unexpected event"@))
    }
}

/// The listener is bound: the redirect address is known, and the request goes to
/// `/oauth/par` at the authorization server.
pub open spec fn on_listener_bound(s: AuthSessionView, port: u16) -> (
    AuthSessionView,
    FlowActionView,
) {
    match joined_url(s.server, "/oauth/par"@) {
        Ok(endpoint) => (
            AuthSessionView {
                stage: Stage::ListenerStarted,
                redirect_uri: Some(redirect_uri_for(port)),
                ..s
            },
            FlowActionView::SubmitPar {
                endpoint,
                request: par_request(s, redirect_uri_for(port)),
            },
        ),
        Err(e) => rejected(s, ErrorView::Parse(e)),
    }
}

/// The request was answered: a request URI sends the browser to the authorization
/// server, a refusal ends the attempt before any browser is opened.
pub open spec fn on_par_answer(s: AuthSessionView, answer: ParResponse) -> (
    AuthSessionView,
    FlowActionView,
)
    recommends
        s.redirect_uri is Some,
{
    match answer {
        ParResponse::Success(data) => match authorization_url_for(
            s.server,
            s.client_id,
            s.redirect_uri->Some_0,
            s.scope,
            data.request_uri@,
        ) {
            Ok(url) => (
                AuthSessionView { stage: Stage::ParSubmitted, ..s },
                FlowActionView::OpenBrowser(url),
            ),
            Err(e) => rejected(s, e),
        },
        ParResponse::Error(refusal) => rejected(
            s,
            ErrorView::Par { error: refusal.error@, description: refusal.error_description@ },
        ),
    }
}

/// A redirect arrived: a code ends the attempt well, a failed check ends it badly, and a
/// redirect that says nothing leaves it waiting.
pub open spec fn on_callback(s: AuthSessionView, url: Seq<char>) -> (
    AuthSessionView,
    FlowActionView,
) {
    match callback_verdict(url, s.issuer, s.state) {
        None => (s, FlowActionView::AwaitCallback),
        Some(Ok(code)) => (
            AuthSessionView { stage: Stage::CodeReceived, ..s },
            FlowActionView::Finish(
                Ok(AuthorizationGrantView { code, code_verifier: s.code_verifier }),
            ),
        ),
        Some(Err(e)) => rejected(s, e),
    }
}

/// The attempt after `event`, and what it asks for next.
pub open spec fn flow_step(s: AuthSessionView, event: FlowEvent) -> (
    AuthSessionView,
    FlowActionView,
) {
    match event {
        FlowEvent::ListenerBound(port) => if s.stage == Stage::ChallengeGenerated {
            on_listener_bound(s, port)
        } else {
            refused(s)
        },
        FlowEvent::ParAnswered(answer) => if s.stage == Stage::ListenerStarted
            && s.redirect_uri is Some {
            on_par_answer(s, answer)
        } else {
            refused(s)
        },
        FlowEvent::BrowserOpened => if s.stage == Stage::ParSubmitted {
            (AuthSessionView { stage: Stage::AwaitingCallback, ..s }, FlowActionView::AwaitCallback)
        } else {
            refused(s)
        },
        FlowEvent::Callback(url) => if s.stage == Stage::AwaitingCallback {
            on_callback(s, url@)
        } else {
            refused(s)
        },
        FlowEvent::Failed(e) => if is_terminal(s.stage) {
            refused(s)
        } else {
            rejected(s, e@)
        },
        FlowEvent::Abandoned => if is_terminal(s.stage) {
            refused(s)
        } else {
            rejected(s, ErrorView::Validation("attempt abandoned"@))
        },
    }
}

/// The attempt that `begin` makes of its arguments, where `server` is the address of the
/// authorization server as the parser wrote it down.
pub open spec fn new_session(
    config: ClientConfig,
    issuer: Seq<char>,
    server: Seq<char>,
    handle: Option<&str>,
    pkce: PkcePair,
    state: Seq<char>,
) -> AuthSessionView {
    AuthSessionView {
        stage: Stage::ChallengeGenerated,
        client_id: config.client_id@,
        scope: config.scope@,
        issuer,
        server,
        login_hint: match handle {
            Some(h) => Some(h@),
            None => None,
        },
        state,
        code_challenge: pkce.code_challenge@,
        code_challenge_method: pkce.code_challenge_method@,
        code_verifier: pkce.code_verifier@,
        redirect_uri: None,
    }
}

fn copy_of(text: &Option<String>) -> (copy: Option<String>)
    ensures
        option_text(copy) == option_text(*text),
{
    match text {
        Some(t) => Some(t.clone()),
        None => None,
    }
}

/// The address that the browser is sent to for the request `request_uri`.
pub fn authorization_url(
    server: &Url,
    client_id: &str,
    redirect_uri: &str,
    scope: &str,
    request_uri: &str,
) -> (r: Result<String, MyError>)
    ensures
        text_result_view(r) == authorization_url_for(
            url_text(*server),
            client_id@,
            redirect_uri@,
            scope@,
            request_uri@,
        ),
{
    match join_url(server, "oauth/authorize") {
        Err(e) => Err(MyError::ParseError(e)),
        Ok(joined) => {
            let mut url = joined;
            let mut fits: bool = try_append_pair(&mut url, "client_id", client_id);
            if fits {
                fits = try_append_pair(&mut url, "redirect_uri", redirect_uri);
            }
            if fits {
                fits = try_append_pair(&mut url, "scope", scope);
            }
            if fits {
                fits = try_append_pair(&mut url, "request_uri", request_uri);
            }
            if fits {
                Ok(String::from_str(url_str(&url)))
            } else {
                Err(MyError::ValidationError(String::from_str("authorization URL too long")))
            }
        },
    }
}

/// Begins an attempt with the given secrets: the address of the authorization server is
/// read as a URL, and the first thing asked for is the listener.
pub fn begin(
    config: ClientConfig,
    auth_url: &str,
    handle: Option<&str>,
    pkce: PkcePair,
    state: String,
) -> (r: Result<(AuthSession, FlowAction), MyError>)
    ensures
        match r {
            Ok(started) => parsed_url(auth_url@) is Ok && started.0@ == new_session(
                config,
                auth_url@,
                parsed_url(auth_url@)->Ok_0,
                handle,
                pkce,
                state@,
            ) && started.0@.wf() && started.1@ == FlowActionView::StartListener,
            Err(e) => parsed_url(auth_url@) is Err && e@ == ErrorView::Parse(
                parsed_url(auth_url@)->Err_0,
            ),
        },
{
    match parse_url(auth_url) {
        Err(e) => Err(MyError::ParseError(e)),
        Ok(server) => {
            let login_hint = match handle {
                Some(h) => Some(String::from_str(h)),
                None => None,
            };
            let session = AuthSession {
                stage: Stage::ChallengeGenerated,
                client_id: config.client_id,
                scope: config.scope,
                issuer: String::from_str(auth_url),
                server,
                login_hint,
                state,
                code_challenge: pkce.code_challenge,
                code_challenge_method: pkce.code_challenge_method,
                code_verifier: pkce.code_verifier,
                redirect_uri: None,
            };
            Ok((session, FlowAction::StartListener))
        },
    }
}

/// Begins an attempt at the authorization server `auth_url`, for the account `handle` where
/// one is given: a fresh PKCE pair and a fresh state token are drawn, and the first thing
/// asked for is the listener. It fails where `auth_url` is no URL, and only there.
pub fn authenticate(config: ClientConfig, auth_url: &str, handle: Option<&str>) -> (r: Result<
    (AuthSession, FlowAction),
    MyError,
>)
    ensures
        match r {
            Ok(started) => {
                let s = started.0@;
                &&& parsed_url(auth_url@) is Ok
                &&& started.1@ == FlowActionView::StartListener
                &&& s.wf()
                &&& s.stage == Stage::ChallengeGenerated
                &&& s.client_id == config.client_id@
                &&& s.scope == config.scope@
                &&& s.issuer == auth_url@
                &&& s.server == parsed_url(auth_url@)->Ok_0
                &&& s.login_hint == match handle {
                    Some(h) => Some(h@),
                    None => None,
                }
                &&& s.redirect_uri is None
                &&& s.state.len() == STATE_LENGTH
                &&& is_state_token(s.state)
                &&& s.code_challenge_method == "S256"@
                &&& s.code_challenge == s256_challenge(s.code_verifier)
                &&& s.code_verifier.len() == 43
                &&& forall|i: int|
                    0 <= i < s.code_verifier.len() ==> is_base64url(#[trigger] s.code_verifier[i])
            },
            Err(e) => parsed_url(auth_url@) is Err && e@ == ErrorView::Parse(
                parsed_url(auth_url@)->Err_0,
            ),
        },
{
    let state = generate_state();
    let pkce = new_pkce();
    begin(config, auth_url, handle, pkce, state)
}

impl AuthSession {
    /// How far the attempt has come.
    pub fn stage(&self) -> (stage: Stage)
        ensures
            stage == self@.stage,
    {
        self.stage
    }

    /// The state token of the attempt.
    pub fn state(&self) -> (state: &str)
        ensures
            state@ == self@.state,
    {
        self.state.as_str()
    }

    /// The address of the authorization server, as the caller gave it.
    pub fn issuer(&self) -> (issuer: &str)
        ensures
            issuer@ == self@.issuer,
    {
        self.issuer.as_str()
    }

    /// The PKCE code challenge of the attempt.
    pub fn code_challenge(&self) -> (challenge: &str)
        ensures
            challenge@ == self@.code_challenge,
    {
        self.code_challenge.as_str()
    }

    /// The method that made the code challenge.
    pub fn code_challenge_method(&self) -> (method: &str)
        ensures
            method@ == self@.code_challenge_method,
    {
        self.code_challenge_method.as_str()
    }

    /// The PKCE code verifier of the attempt.
    pub fn code_verifier(&self) -> (verifier: &str)
        ensures
            verifier@ == self@.code_verifier,
    {
        self.code_verifier.as_str()
    }

    /// Where the authorization server sends the browser back, once the listener is bound.
    pub fn redirect_uri(&self) -> (uri: Option<&str>)
        ensures
            match uri {
                Some(u) => self@.redirect_uri == Some(u@),
                None => self@.redirect_uri is None,
            },
    {
        match &self.redirect_uri {
            Some(u) => Some(u.as_str()),
            None => None,
        }
    }

    fn reject(&mut self, e: MyError) -> (action: FlowAction)
        ensures
            (final(self)@, action@) == rejected(old(self)@, e@),
    {
        self.stage = Stage::Rejected;
        FlowAction::Finish(Err(e))
    }

    fn refuse(&mut self) -> (action: FlowAction)
        ensures
            (final(self)@, action@) == refused(old(self)@),
    {
        let e = MyError::ValidationError(String::from_str("unexpected event"));
        match self.stage {
            Stage::CodeReceived => FlowAction::Finish(Err(e)),
            Stage::Rejected => FlowAction::Finish(Err(e)),
            _ => self.reject(e),
        }
    }

    fn listener_bound(&mut self, port: u16) -> (action: FlowAction)
        ensures
            (final(self)@, action@) == on_listener_bound(old(self)@, port),
    {
        let mut redirect = String::from_str("http://127.0.0.1:");
        push_decimal(&mut redirect, port as u64);
        match join_url(&self.server, "/oauth/par") {
            Ok(endpoint) => {
                let request = PushedAuthorizationRequest {
                    client_id: self.client_id.clone(),
                    state: self.state.clone(),
                    code_challenge: self.code_challenge.clone(),
                    code_challenge_method: self.code_challenge_method.clone(),
                    scope: self.scope.clone(),
                    redirect_uri: redirect.clone(),
                    response_type: String::from_str("code"),
                    login_hint: copy_of(&self.login_hint),
                };
                self.redirect_uri = Some(redirect);
                self.stage = Stage::ListenerStarted;
                FlowAction::SubmitPar { endpoint: String::from_str(url_str(&endpoint)), request }
            },
            Err(e) => self.reject(MyError::ParseError(e)),
        }
    }

    fn par_answered(&mut self, answer: ParResponse, redirect_uri: &str) -> (action: FlowAction)
        requires
            old(self)@.redirect_uri == Some(redirect_uri@),
        ensures
            (final(self)@, action@) == on_par_answer(old(self)@, answer),
    {
        match answer {
            ParResponse::Success(data) => {
                let url = authorization_url(
                    &self.server,
                    self.client_id.as_str(),
                    redirect_uri,
                    self.scope.as_str(),
                    data.request_uri.as_str(),
                );
                match url {
                    Ok(url) => {
                        self.stage = Stage::ParSubmitted;
                        FlowAction::OpenBrowser(url)
                    },
                    Err(e) => self.reject(e),
                }
            },
            ParResponse::Error(refusal) => self.reject(MyError::from(refusal)),
        }
    }

    fn redirected(&mut self, url: &str) -> (action: FlowAction)
        ensures
            (final(self)@, action@) == on_callback(old(self)@, url@),
    {
        match callback_result(url, self.issuer.as_str(), self.state.as_str()) {
            None => FlowAction::AwaitCallback,
            Some(Ok(code)) => {
                self.stage = Stage::CodeReceived;
                FlowAction::Finish(
                    Ok(AuthorizationGrant { code, code_verifier: self.code_verifier.clone() }),
                )
            },
            Some(Err(e)) => self.reject(e),
        }
    }

    /// Moves the attempt on by one event, and says what to do next.
    pub fn advance(&mut self, event: FlowEvent) -> (action: FlowAction)
        ensures
            final(self)@ == flow_step(old(self)@, event).0,
            action@ == flow_step(old(self)@, event).1,
            old(self)@.wf() ==> final(self)@.wf(),
    {
        proof {
            if old(self)@.wf() {
                lemma_step_keeps_wf(old(self)@, event);
            }
        }
        match event {
            FlowEvent::ListenerBound(port) => match self.stage {
                Stage::ChallengeGenerated => self.listener_bound(port),
                _ => self.refuse(),
            },
            FlowEvent::ParAnswered(answer) => match self.stage {
                Stage::ListenerStarted => match copy_of(&self.redirect_uri) {
                    Some(redirect_uri) => self.par_answered(answer, redirect_uri.as_str()),
                    None => self.refuse(),
                },
                _ => self.refuse(),
            },
            FlowEvent::BrowserOpened => match self.stage {
                Stage::ParSubmitted => {
                    self.stage = Stage::AwaitingCallback;
                    FlowAction::AwaitCallback
                },
                _ => self.refuse(),
            },
            FlowEvent::Callback(url) => match self.stage {
                Stage::AwaitingCallback => self.redirected(url.as_str()),
                _ => self.refuse(),
            },
            FlowEvent::Failed(e) => match self.stage {
                Stage::CodeReceived => self.refuse(),
                Stage::Rejected => self.refuse(),
                _ => self.reject(e),
            },
            FlowEvent::Abandoned => match self.stage {
                Stage::CodeReceived => self.refuse(),
                Stage::Rejected => self.refuse(),
                _ => self.reject(MyError::ValidationError(String::from_str("attempt abandoned"))),
            },
        }
    }
}

/// An attempt asks to stop exactly when it has ended: every way out of the flow, good or
/// bad, goes through `Finish`, which releases the listener.
pub proof fn lemma_finish_iff_ended(s: AuthSessionView, event: FlowEvent)
    ensures
        flow_step(s, event).1 is Finish <==> is_terminal(flow_step(s, event).0.stage),
{
}

/// An attempt that has ended stays as it is.
pub proof fn lemma_ended_is_final(s: AuthSessionView, event: FlowEvent)
    requires
        is_terminal(s.stage),
    ensures
        flow_step(s, event).0 == s,
        flow_step(s, event).1 is Finish,
        flow_step(s, event).1->Finish_0 is Err,
{
}

/// No event changes who asks, what for, or the secrets of the attempt; the redirect
/// address is set when the listener is bound and never changed afterwards.
pub proof fn lemma_step_keeps_secrets(s: AuthSessionView, event: FlowEvent)
    ensures
        flow_step(s, event).0 == (AuthSessionView {
            stage: flow_step(s, event).0.stage,
            redirect_uri: flow_step(s, event).0.redirect_uri,
            ..s
        }),
        s.stage != Stage::ChallengeGenerated ==> flow_step(s, event).0.redirect_uri
            == s.redirect_uri,
{
}

/// An attempt whose listener is bound keeps knowing where the redirect goes.
pub proof fn lemma_step_keeps_wf(s: AuthSessionView, event: FlowEvent)
    requires
        s.wf(),
    ensures
        flow_step(s, event).0.wf(),
{
}

/// A refused pushed authorization request ends the attempt with the error of the
/// authorization server; no browser is opened.
pub proof fn lemma_refusal_opens_no_browser(s: AuthSessionView, answer: ParResponse)
    requires
        answer is Error,
    ensures
        !(flow_step(s, FlowEvent::ParAnswered(answer)).1 is OpenBrowser),
        s.stage == Stage::ListenerStarted && s.wf() ==> flow_step(
            s,
            FlowEvent::ParAnswered(answer),
        ) == rejected(
            s,
            ErrorView::Par {
                error: answer->Error_0.error@,
                description: answer->Error_0.error_description@,
            },
        ),
{
}

/// A request that failed ends a running attempt with that failure, and an attempt that is
/// given up ends at once, at whatever stage it is: no wait outlasts the caller.
pub proof fn lemma_failure_ends_attempt(s: AuthSessionView, e: MyError)
    requires
        !is_terminal(s.stage),
    ensures
        flow_step(s, FlowEvent::Failed(e)) == rejected(s, e@),
        flow_step(s, FlowEvent::Abandoned) == rejected(
            s,
            ErrorView::Validation("attempt abandoned"@),
        ),
{
}

/// The stages follow each other in one order: an event moves a running attempt to the next
/// stage, leaves it waiting for a redirect, or ends it.
pub proof fn lemma_stages_in_order(s: AuthSessionView, event: FlowEvent)
    ensures
        ({
            let next = flow_step(s, event).0.stage;
            match s.stage {
                Stage::ChallengeGenerated => next == Stage::ListenerStarted || next
                    == Stage::Rejected,
                Stage::ListenerStarted => next == Stage::ParSubmitted || next == Stage::Rejected,
                Stage::ParSubmitted => next == Stage::AwaitingCallback || next == Stage::Rejected,
                Stage::AwaitingCallback => next == Stage::AwaitingCallback || next
                    == Stage::CodeReceived || next == Stage::Rejected,
                Stage::CodeReceived => next == Stage::CodeReceived,
                Stage::Rejected => next == Stage::Rejected,
            }
        }),
{
}

} // verus!
