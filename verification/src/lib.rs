//! Client side of AT Protocol identity resolution and of its OAuth authorization flow.
//!
//! A handle is resolved to a DID (`identity`), the DID to its personal data server and the
//! authorization server of that server (`discovery`), whose metadata is checked
//! (`metadata`). One authorization attempt (`flow`) pushes an authorization request
//! (`par`), sends the user to the browser and checks the redirect that comes back
//! (`callback`).
//!
//! Nothing here touches the network. Each lookup and each attempt is a state machine that
//! says what to ask for next; the caller asks, and reports what came back.

pub mod callback;
pub mod discovery;
pub mod errors;
pub mod flow;
pub mod identity;
pub mod metadata;
pub mod par;
pub mod secrets;
pub mod text;
pub mod web;

pub use discovery::{
    get_servers, DidDocument, DidService, PdsResponse, ResourceServers, ServiceType,
};
pub use errors::{MyError, SerializationError};
pub use flow::authenticate;
pub use identity::{resolve_did, valid_did};
pub use metadata::{get_oauth_auth_server, OauthAuthorizationServer};
pub use par::{ParResponse, ParResponseError, ParResponseSuccess, PushedAuthorizationRequest};
