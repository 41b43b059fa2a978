use atproto_oauth::errors::MyError;
use atproto_oauth::flow::{
    authenticate, authorization_url, begin, AuthSession, ClientConfig, FlowAction, FlowEvent, Stage,
};
use atproto_oauth::par::{ParResponse, ParResponseError, ParResponseSuccess};
use atproto_oauth::secrets::PkcePair;
use oauth2::{PkceCodeChallenge, PkceCodeVerifier};
use reqwest::Url;

const STATE: &str = "abcdefghijklmnopqrstuvwxyz0123";
const VERIFIER: &str = "dBjftJeZ4CVP-mB92K27uhbUJU1p1r_wW1gFWFOEjXk";
const CHALLENGE: &str = "E9Melhoa2OwvFrEMTJguCHaoeK1t8URWbuGJSstw-cM";

fn pkce() -> PkcePair {
    PkcePair {
        code_challenge: CHALLENGE.to_string(),
        code_challenge_method: "S256".to_string(),
        code_verifier: VERIFIER.to_string(),
    }
}

fn session_at(auth_url: &str, handle: Option<&str>) -> AuthSession {
    let (session, action) =
        begin(ClientConfig::default(), auth_url, handle, pkce(), STATE.to_string()).unwrap();
    assert!(matches!(action, FlowAction::StartListener));
    session
}

fn request_taken(request_uri: &str) -> FlowEvent {
    FlowEvent::ParAnswered(ParResponse::Success(ParResponseSuccess {
        request_uri: request_uri.to_string(),
    }))
}

fn request_refused(error: &str, description: &str) -> FlowEvent {
    FlowEvent::ParAnswered(ParResponse::Error(ParResponseError {
        error: error.to_string(),
        error_description: description.to_string(),
    }))
}

/// A session that waits for its redirect, after the listener was bound to port 8080.
fn waiting_session() -> AuthSession {
    let mut session = session_at("https://auth.example", None);
    assert!(matches!(session.advance(FlowEvent::ListenerBound(8080)), FlowAction::SubmitPar { .. }));
    assert!(matches!(session.advance(request_taken("urn:x")), FlowAction::OpenBrowser(_)));
    assert!(matches!(session.advance(FlowEvent::BrowserOpened), FlowAction::AwaitCallback));
    assert_eq!(session.stage(), Stage::AwaitingCallback);
    session
}

fn redirect(query: &str) -> FlowEvent {
    FlowEvent::Callback(format!("http://127.0.0.1:8080/?{}", query))
}

fn validation_message(action: FlowAction) -> String {
    match action {
        FlowAction::Finish(Err(MyError::ValidationError(message))) => message,
        other => panic!("unexpected action {:?}", other),
    }
}

fn transport_failure() -> MyError {
    let failure = reqwest::Client::new()
        .get("no address")
        .build()
        .expect_err("a text without a scheme is no address");
    MyError::ReqwestError(failure)
}

#[test]
fn default_client_is_the_native_one() {
    let config = ClientConfig::default();
    assert_eq!(config.client_id, "http://localhost");
    assert_eq!(config.scope, "atproto");
}

#[test]
fn fresh_attempt_has_fresh_secrets() {
    let (session, action) =
        authenticate(ClientConfig::default(), "https://auth.example", Some("alice.example")).unwrap();
    assert!(matches!(action, FlowAction::StartListener));
    assert_eq!(session.stage(), Stage::ChallengeGenerated);
    assert_eq!(session.issuer(), "https://auth.example");
    assert_eq!(session.redirect_uri(), None);
    assert_eq!(session.state().len(), 30);
    assert!(session.state().chars().all(|c| c.is_ascii_alphanumeric()));
    assert_eq!(session.code_challenge_method(), "S256");
    assert_eq!(session.code_verifier().len(), 43);
    assert!(session
        .code_verifier()
        .chars()
        .all(|c| c.is_ascii_alphanumeric() || c == '-' || c == '_'));
    let verifier = PkceCodeVerifier::new(session.code_verifier().to_string());
    let challenge = PkceCodeChallenge::from_code_verifier_sha256(&verifier);
    assert_eq!(session.code_challenge(), challenge.as_str());
}

#[test]
fn two_attempts_share_no_secret() {
    let (first, _) = authenticate(ClientConfig::default(), "https://auth.example", None).unwrap();
    let (second, _) = authenticate(ClientConfig::default(), "https://auth.example", None).unwrap();
    assert_ne!(first.state(), second.state());
    assert_ne!(first.code_verifier(), second.code_verifier());
    assert_ne!(first.code_challenge(), second.code_challenge());
}

#[test]
fn attempt_needs_a_url() {
    let refused = authenticate(ClientConfig::default(), "auth.example", None);
    assert!(matches!(
        refused,
        Err(MyError::ParseError(oauth2::url::ParseError::RelativeUrlWithoutBase))
    ));
    let refused = begin(ClientConfig::default(), "https://", None, pkce(), STATE.to_string());
    assert!(matches!(refused, Err(MyError::ParseError(oauth2::url::ParseError::EmptyHost))));
}

#[test]
fn bound_listener_gives_the_redirect_and_the_request() {
    let mut session = session_at("https://auth.example", Some("alice.example"));
    let action = session.advance(FlowEvent::ListenerBound(8080));
    assert_eq!(session.stage(), Stage::ListenerStarted);
    assert_eq!(session.redirect_uri(), Some("http://127.0.0.1:8080"));
    match action {
        FlowAction::SubmitPar { endpoint, request } => {
            assert_eq!(endpoint, "https://auth.example/oauth/par");
            assert_eq!(request.client_id, "http://localhost");
            assert_eq!(request.state, STATE);
            assert_eq!(request.code_challenge, CHALLENGE);
            assert_eq!(request.code_challenge_method, "S256");
            assert_eq!(request.scope, "atproto");
            assert_eq!(request.redirect_uri, "http://127.0.0.1:8080");
            assert_eq!(request.response_type, "code");
            assert_eq!(request.login_hint, Some("alice.example".to_string()));
        }
        other => panic!("unexpected action {:?}", other),
    }
}

#[test]
fn request_without_handle_has_no_login_hint() {
    let mut session = session_at("https://auth.example", None);
    match session.advance(FlowEvent::ListenerBound(1)) {
        FlowAction::SubmitPar { request, .. } => {
            assert_eq!(request.login_hint, None);
            assert_eq!(request.redirect_uri, "http://127.0.0.1:1");
        }
        other => panic!("unexpected action {:?}", other),
    }
}

#[test]
fn redirect_names_the_port_in_decimal() {
    for (port, expected) in [
        (0u16, "http://127.0.0.1:0"),
        (9, "http://127.0.0.1:9"),
        (10, "http://127.0.0.1:10"),
        (443, "http://127.0.0.1:443"),
        (49152, "http://127.0.0.1:49152"),
        (65535, "http://127.0.0.1:65535"),
    ] {
        let mut session = session_at("https://auth.example", None);
        session.advance(FlowEvent::ListenerBound(port));
        assert_eq!(session.redirect_uri(), Some(expected));
    }
}

#[test]
fn par_endpoint_is_at_the_root_of_the_server() {
    let mut session = session_at("https://auth.example/tenant/one", None);
    match session.advance(FlowEvent::ListenerBound(8080)) {
        FlowAction::SubmitPar { endpoint, .. } => {
            assert_eq!(endpoint, "https://auth.example/oauth/par")
        }
        other => panic!("unexpected action {:?}", other),
    }
    match session.advance(request_taken("urn:x")) {
        FlowAction::OpenBrowser(url) => {
            assert!(url.starts_with("https://auth.example/tenant/oauth/authorize?"), "{}", url)
        }
        other => panic!("unexpected action {:?}", other),
    }
}

#[test]
fn server_that_cannot_be_a_base_ends_the_attempt() {
    let mut session = session_at("mailto:someone@auth.example", None);
    let action = session.advance(FlowEvent::ListenerBound(8080));
    assert_eq!(session.stage(), Stage::Rejected);
    assert!(matches!(
        action,
        FlowAction::Finish(Err(MyError::ParseError(
            oauth2::url::ParseError::RelativeUrlWithCannotBeABaseBase
        )))
    ));
}

#[test]
fn taken_request_sends_the_browser_to_the_server() {
    let mut session = session_at("https://auth.example", None);
    session.advance(FlowEvent::ListenerBound(8080));
    let action = session.advance(request_taken("urn:x"));
    assert_eq!(session.stage(), Stage::ParSubmitted);
    let url = match action {
        FlowAction::OpenBrowser(url) => url,
        other => panic!("unexpected action {:?}", other),
    };
    assert_eq!(
        url,
        "https://auth.example/oauth/authorize?client_id=http%3A%2F%2Flocalhost\
         &redirect_uri=http%3A%2F%2F127.0.0.1%3A8080&scope=atproto&request_uri=urn%3Ax"
    );
    let pairs: Vec<(String, String)> =
        Url::parse(&url).unwrap().query_pairs().into_owned().collect();
    assert_eq!(
        pairs,
        vec![
            ("client_id".to_string(), "http://localhost".to_string()),
            ("redirect_uri".to_string(), "http://127.0.0.1:8080".to_string()),
            ("scope".to_string(), "atproto".to_string()),
            ("request_uri".to_string(), "urn:x".to_string()),
        ]
    );
}

#[test]
fn authorization_url_escapes_its_parameters() {
    let server = Url::parse("https://auth.example/?tenant=one#top").unwrap();
    let url = authorization_url(
        &server,
        "https://app.example/client metadata.json",
        "http://127.0.0.1:1",
        "atproto transition:generic",
        "urn:ietf:params:oauth:request_uri:req-\u{e9}&x=y",
    )
    .unwrap();
    assert_eq!(
        url,
        "https://auth.example/oauth/authorize?client_id=https%3A%2F%2Fapp.example%2Fclient+metadata.json\
         &redirect_uri=http%3A%2F%2F127.0.0.1%3A1&scope=atproto+transition%3Ageneric\
         &request_uri=urn%3Aietf%3Aparams%3Aoauth%3Arequest_uri%3Areq-%C3%A9%26x%3Dy"
    );
}

#[test]
fn refused_request_ends_the_attempt_without_a_browser() {
    let mut session = session_at("https://auth.example", None);
    session.advance(FlowEvent::ListenerBound(8080));
    let action = session.advance(request_refused("invalid_request", "Invalid client_id"));
    assert_eq!(session.stage(), Stage::Rejected);
    match action {
        FlowAction::Finish(Err(MyError::ParError { error, description })) => {
            assert_eq!(error, "invalid_request");
            assert_eq!(description, "Invalid client_id");
        }
        other => panic!("unexpected action {:?}", other),
    }
}

#[test]
fn redirect_with_a_code_ends_the_attempt_with_code_and_verifier() {
    let mut session = waiting_session();
    let action = session.advance(redirect(&format!(
        "iss=https%3A%2F%2Fauth.example&state={}&code=the+code%21",
        STATE
    )));
    assert_eq!(session.stage(), Stage::CodeReceived);
    match action {
        FlowAction::Finish(Ok(grant)) => {
            assert_eq!(grant.code, "the code!");
            assert_eq!(grant.code_verifier, VERIFIER);
        }
        other => panic!("unexpected action {:?}", other),
    }
}

#[test]
fn redirect_with_another_state_is_refused_before_its_code() {
    let mut session = waiting_session();
    let action = session.advance(redirect(
        "iss=https%3A%2F%2Fauth.example&state=abcdefghijklmnopqrstuvwxyz0124&code=valid-code",
    ));
    assert_eq!(session.stage(), Stage::Rejected);
    assert_eq!(validation_message(action), "Mismatched state");
}

#[test]
fn redirect_without_state_is_refused() {
    let mut session = waiting_session();
    let action = session.advance(redirect("iss=https%3A%2F%2Fauth.example&code=valid-code"));
    assert_eq!(session.stage(), Stage::Rejected);
    assert_eq!(validation_message(action), "No state found");
}

#[test]
fn redirect_from_another_issuer_is_refused_first() {
    let mut session = waiting_session();
    let action = session.advance(redirect(
        "iss=https%3A%2F%2Fother.example&state=wrong&code=valid-code",
    ));
    assert_eq!(session.stage(), Stage::Rejected);
    assert_eq!(validation_message(action), "Invalid issuer: {iss}");
}

#[test]
fn redirect_without_issuer_is_refused() {
    let mut session = waiting_session();
    let action = session.advance(redirect(&format!("state={}&code=valid-code", STATE)));
    assert_eq!(session.stage(), Stage::Rejected);
    assert_eq!(validation_message(action), "No issuer found");
}

#[test]
fn issuer_of_the_redirect_is_compared_with_the_address_as_given() {
    let mut session = waiting_session();
    let action = session.advance(redirect(&format!(
        "iss=https%3A%2F%2Fauth.example%2F&state={}&code=valid-code",
        STATE
    )));
    assert_eq!(validation_message(action), "Invalid issuer: {iss}");
}

#[test]
fn redirect_with_an_error_is_refused_with_that_error() {
    let mut session = waiting_session();
    let action = session.advance(redirect(&format!(
        "iss=https%3A%2F%2Fauth.example&state={}&error=access_denied&error_description=The+user+said+no&code=x",
        STATE
    )));
    assert_eq!(session.stage(), Stage::Rejected);
    match action {
        FlowAction::Finish(Err(MyError::AuthError { message, err_type })) => {
            assert_eq!(err_type, "access_denied");
            assert_eq!(message, "The user said no");
        }
        other => panic!("unexpected action {:?}", other),
    }
}

#[test]
fn redirect_that_says_nothing_leaves_the_attempt_waiting() {
    let mut session = waiting_session();
    let action = session.advance(redirect(&format!(
        "iss=https%3A%2F%2Fauth.example&state={}&error=access_denied",
        STATE
    )));
    assert!(matches!(action, FlowAction::AwaitCallback));
    assert_eq!(session.stage(), Stage::AwaitingCallback);
    let action = session.advance(redirect(&format!(
        "iss=https%3A%2F%2Fauth.example&state={}&code=late",
        STATE
    )));
    assert_eq!(session.stage(), Stage::CodeReceived);
    assert!(matches!(action, FlowAction::Finish(Ok(_))));
}

#[test]
fn redirect_that_is_no_url_ends_the_attempt() {
    let mut session = waiting_session();
    let action = session.advance(FlowEvent::Callback("/?code=abc".to_string()));
    assert_eq!(session.stage(), Stage::Rejected);
    assert!(matches!(action, FlowAction::Finish(Err(MyError::ParseError(_)))));
}

#[test]
fn failed_request_ends_a_running_attempt() {
    let mut session = session_at("https://auth.example", None);
    session.advance(FlowEvent::ListenerBound(8080));
    let action = session.advance(FlowEvent::Failed(transport_failure()));
    assert_eq!(session.stage(), Stage::Rejected);
    assert!(matches!(action, FlowAction::Finish(Err(MyError::ReqwestError(_)))));
    let mut session = waiting_session();
    let action = session.advance(FlowEvent::Failed(transport_failure()));
    assert_eq!(session.stage(), Stage::Rejected);
    assert!(matches!(action, FlowAction::Finish(Err(MyError::ReqwestError(_)))));
}

#[test]
fn events_out_of_turn_end_the_attempt() {
    let mut session = session_at("https://auth.example", None);
    let action = session.advance(request_taken("urn:x"));
    assert_eq!(session.stage(), Stage::Rejected);
    assert_eq!(validation_message(action), "unexpected event");

    let mut session = session_at("https://auth.example", None);
    let action = session.advance(FlowEvent::BrowserOpened);
    assert_eq!(session.stage(), Stage::Rejected);
    assert_eq!(validation_message(action), "unexpected event");

    let mut session = session_at("https://auth.example", None);
    session.advance(FlowEvent::ListenerBound(8080));
    let action = session.advance(redirect("code=early"));
    assert_eq!(session.stage(), Stage::Rejected);
    assert_eq!(validation_message(action), "unexpected event");

    let mut session = waiting_session();
    let action = session.advance(FlowEvent::ListenerBound(8081));
    assert_eq!(session.stage(), Stage::Rejected);
    assert_eq!(session.redirect_uri(), Some("http://127.0.0.1:8080"));
    assert_eq!(validation_message(action), "unexpected event");
}

#[test]
fn ended_attempt_is_not_used_again() {
    let mut session = waiting_session();
    let code = format!("iss=https%3A%2F%2Fauth.example&state={}&code=once", STATE);
    assert!(matches!(session.advance(redirect(&code)), FlowAction::Finish(Ok(_))));
    let action = session.advance(redirect(&code));
    assert_eq!(session.stage(), Stage::CodeReceived);
    assert_eq!(validation_message(action), "unexpected event");
    let action = session.advance(FlowEvent::Failed(transport_failure()));
    assert_eq!(session.stage(), Stage::CodeReceived);
    assert_eq!(validation_message(action), "unexpected event");

    let mut session = session_at("https://auth.example", None);
    session.advance(FlowEvent::BrowserOpened);
    assert_eq!(session.stage(), Stage::Rejected);
    let action = session.advance(FlowEvent::ListenerBound(8080));
    assert_eq!(session.stage(), Stage::Rejected);
    assert_eq!(session.redirect_uri(), None);
    assert_eq!(validation_message(action), "unexpected event");
}

#[test]
fn abandoned_attempt_ends_at_once() {
    let mut session = waiting_session();
    let action = session.advance(FlowEvent::Abandoned);
    assert_eq!(session.stage(), Stage::Rejected);
    assert_eq!(validation_message(action), "attempt abandoned");
    let action = session.advance(FlowEvent::Abandoned);
    assert_eq!(session.stage(), Stage::Rejected);
    assert_eq!(validation_message(action), "unexpected event");

    let mut session = session_at("https://auth.example", None);
    let action = session.advance(FlowEvent::Abandoned);
    assert_eq!(session.stage(), Stage::Rejected);
    assert_eq!(validation_message(action), "attempt abandoned");
}

#[test]
fn server_address_is_read_as_a_url() {
    let mut session = session_at("HTTPS://Auth.Example:443/a/../b", None);
    assert_eq!(session.issuer(), "HTTPS://Auth.Example:443/a/../b");
    match session.advance(FlowEvent::ListenerBound(8080)) {
        FlowAction::SubmitPar { endpoint, .. } => {
            assert_eq!(endpoint, "https://auth.example/oauth/par")
        }
        other => panic!("unexpected action {:?}", other),
    }
}
