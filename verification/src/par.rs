//! The pushed authorization request and the two shapes of its answer.

use crate::errors::MyError;
use vstd::prelude::*;
use vstd::std_specs::convert::FromSpecImpl;

verus! {

/// The body of a pushed authorization request.
#[derive(Debug)]
pub struct PushedAuthorizationRequest {
    pub client_id: String,
    pub state: String,
    pub code_challenge: String,
    pub code_challenge_method: String,
    pub scope: String,
    pub redirect_uri: String,
    pub response_type: String,
    pub login_hint: Option<String>,
}

/// `PushedAuthorizationRequest` with each text as a sequence of characters.
pub struct PushedAuthorizationRequestView {
    pub client_id: Seq<char>,
    pub state: Seq<char>,
    pub code_challenge: Seq<char>,
    pub code_challenge_method: Seq<char>,
    pub scope: Seq<char>,
    pub redirect_uri: Seq<char>,
    pub response_type: Seq<char>,
    pub login_hint: Option<Seq<char>>,
}

/// An optional text as an optional sequence of characters.
pub open spec fn option_text(text: Option<String>) -> Option<Seq<char>> {
    match text {
        Some(t) => Some(t@),
        None => None,
    }
}

impl View for PushedAuthorizationRequest {
    type V = PushedAuthorizationRequestView;

    open spec fn view(&self) -> PushedAuthorizationRequestView {
        PushedAuthorizationRequestView {
            client_id: self.client_id@,
            state: self.state@,
            code_challenge: self.code_challenge@,
            code_challenge_method: self.code_challenge_method@,
            scope: self.scope@,
            redirect_uri: self.redirect_uri@,
            response_type: self.response_type@,
            login_hint: option_text(self.login_hint),
        }
    }
}

/// The answer to a request that the authorization server took.
#[derive(Debug)]
pub struct ParResponseSuccess {
    pub request_uri: String,
}

/// The answer to a request that the authorization server refused.
#[derive(Debug)]
pub struct ParResponseError {
    pub error: String,
    pub error_description: String,
}

/// The answer to a pushed authorization request.
#[derive(Debug)]
pub enum ParResponse {
    Success(ParResponseSuccess),
    Error(ParResponseError),
}

impl FromSpecImpl<ParResponseError> for MyError {
    open spec fn obeys_from_spec() -> bool {
        true
    }

    open spec fn from_spec(json: ParResponseError) -> MyError {
        MyError::ParError { error: json.error, description: json.error_description }
    }
}

impl From<ParResponseError> for MyError {
    /// The refusal of a pushed authorization request, as a failure.
    fn from(json: ParResponseError) -> (e: MyError) {
        MyError::ParError { error: json.error, description: json.error_description }
    }
}

} // verus!
