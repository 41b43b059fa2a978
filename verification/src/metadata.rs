//! The metadata document of an authorization server, and the check of who issued it.

use crate::errors::{ErrorView, MyError};
use crate::text::{join2, same_text};
use vstd::prelude::*;

verus! {

/// The metadata that an authorization server publishes about itself.
#[derive(Debug)]
pub struct OauthAuthorizationServer {
    pub issuer: String,
    pub scopes_supported: Vec<String>,
    pub subject_types_supported: Vec<String>,
    pub response_types_supported: Vec<String>,
    pub response_modes_supported: Vec<String>,
    pub grant_types_supported: Vec<String>,
    pub code_challenge_methods_supported: Vec<String>,
    pub ui_locales_supported: Vec<String>,
    pub display_values_supported: Vec<String>,
    pub authorization_response_iss_parameter_supported: bool,
    pub request_object_signing_alg_values_supported: Vec<String>,
    pub request_object_encryption_alg_values_supported: Vec<String>,
    pub request_object_encryption_enc_values_supported: Vec<String>,
    pub request_parameter_supported: bool,
    pub request_uri_parameter_supported: bool,
    pub require_request_uri_registration: bool,
    pub jwks_uri: String,
    pub authorization_endpoint: String,
    pub token_endpoint: String,
    pub token_endpoint_auth_methods_supported: Vec<String>,
    pub token_endpoint_auth_signing_alg_values_supported: Vec<String>,
    pub revocation_endpoint: String,
    pub introspection_endpoint: String,
    pub pushed_authorization_request_endpoint: String,
    pub require_pushed_authorization_requests: bool,
    pub dpop_signing_alg_values_supported: Vec<String>,
    pub client_id_metadata_document_supported: bool,
}

/// The address of the metadata document of the authorization server `issuer`.
pub open spec fn metadata_url(issuer: Seq<char>) -> Seq<char> {
    issuer + "/.well-known/oauth-authorization-server"@
}

/// The address at which the authorization server `server_uri` publishes its metadata.
pub fn oauth_metadata_url(server_uri: &str) -> (url: String)
    ensures
        url@ == metadata_url(server_uri@),
{
    join2(server_uri, "/.well-known/oauth-authorization-server")
}

/// Accepts the metadata `response`, fetched from the address that belongs to `server_uri`,
/// where it names `server_uri` as its issuer, character for character. Any other document
/// is refused, whatever else it holds.
pub fn get_oauth_auth_server(server_uri: &str, response: OauthAuthorizationServer) -> (r: Result<
    OauthAuthorizationServer,
    MyError,
>)
    ensures
        response.issuer@ == server_uri@ ==> r == Ok::<OauthAuthorizationServer, MyError>(response),
        response.issuer@ != server_uri@ ==> r is Err && r->Err_0@ == (ErrorView::IssuerMismatch {
            expected: server_uri@,
            found: response.issuer@,
        }),
{
    if same_text(response.issuer.as_str(), server_uri) {
        Ok(response)
    } else {
        Err(MyError::IssuerMismatch { expected: String::from_str(server_uri), found: response.issuer })
    }
}

} // verus!
