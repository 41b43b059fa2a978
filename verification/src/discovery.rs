//! From a DID to its personal data server and the authorization server of that server.

use crate::errors::{ErrorView, MyError, SerializationError};
use crate::text::join2;
use std::collections::BTreeMap;
use vstd::prelude::*;

verus! {

/// `serde_json::Value`, any JSON value. It is carried, never read.
#[verifier::external_type_specification]
#[verifier::external_body]
pub struct ExJsonValue(serde_json::Value);

/// The kinds of service that a DID document declares.
#[derive(Debug)]
pub enum ServiceType {
    AtprotoPersonalDataServer,
}

/// One service of a DID document.
#[derive(Debug)]
pub struct DidService {
    pub id: String,
    pub service_type: ServiceType,
    pub service_endpoint: String,
}

/// A DID document as the directory returns it. Members that this library gives no meaning
/// to are kept in `_rest`.
#[derive(Debug)]
pub struct DidDocument {
    pub context: Vec<String>,
    pub id: String,
    pub also_known_as: Vec<String>,
    pub verification_method: Vec<serde_json::Value>,
    pub service: Vec<DidService>,
    pub _rest: BTreeMap<String, serde_json::Value>,
}

/// The protected-resource metadata of a personal data server. Members that this library
/// gives no meaning to are kept in `_rest`.
#[derive(Debug)]
pub struct PdsResponse {
    pub authorization_servers: Vec<String>,
    pub resource: String,
    pub scopes_supported: Vec<String>,
    pub bearer_methods_supported: Vec<String>,
    pub resource_documentation: String,
    pub _rest: BTreeMap<String, serde_json::Value>,
}

/// The two servers of an account.
#[derive(Debug)]
pub struct ResourceServers {
    pub pds_server: String,
    pub auth_server: String,
}

/// `ResourceServers` with each address as a sequence of characters.
pub struct ResourceServersView {
    pub pds_server: Seq<char>,
    pub auth_server: Seq<char>,
}

impl View for ResourceServers {
    type V = ResourceServersView;

    open spec fn view(&self) -> ResourceServersView {
        ResourceServersView { pds_server: self.pds_server@, auth_server: self.auth_server@ }
    }
}

/// The address of the document of `did` in the directory.
pub open spec fn directory_url(did: Seq<char>) -> Seq<char> {
    "https://plc.directory/"@ + did
}

/// The address of the protected-resource metadata of the server at `pds`.
pub open spec fn protected_resource_url(pds: Seq<char>) -> Seq<char> {
    pds + "/.well-known/oauth-protected-resource"@
}

/// The failure for a list at `path` that holds no entry.
pub open spec fn empty_list(path: Seq<char>) -> ErrorView {
    ErrorView::Serialization { path, cause: "expected at least one entry"@ }
}

/// The endpoint of the first service that a document declares.
pub open spec fn first_endpoint(document: DidDocument) -> Result<Seq<char>, ErrorView> {
    if document.service@.len() > 0 {
        Ok(document.service@[0].service_endpoint@)
    } else {
        Err(empty_list("service"@))
    }
}

/// The first authorization server that a personal data server names.
pub open spec fn first_issuer(resource: PdsResponse) -> Result<Seq<char>, ErrorView> {
    if resource.authorization_servers@.len() > 0 {
        Ok(resource.authorization_servers@[0]@)
    } else {
        Err(empty_list("authorization_servers"@))
    }
}

/// A result with its texts as sequences of characters.
pub open spec fn servers_result_view(r: Result<ResourceServers, MyError>) -> Result<
    ResourceServersView,
    ErrorView,
> {
    match r {
        Ok(servers) => Ok(servers@),
        Err(e) => Err(e@),
    }
}

/// Where a discovery stands.
#[derive(Debug)]
pub enum DiscoveryState {
    /// Nothing was asked yet.
    Start,
    /// The DID document was asked for.
    AwaitingDocument,
    /// The metadata of the personal data server at this address was asked for.
    AwaitingResource { pds_server: String },
    /// The discovery has ended.
    Done,
}

/// `DiscoveryState` with the address as a sequence of characters.
pub enum DiscoveryStateView {
    Start,
    AwaitingDocument,
    AwaitingResource { pds_server: Seq<char> },
    Done,
}

impl View for DiscoveryState {
    type V = DiscoveryStateView;

    open spec fn view(&self) -> DiscoveryStateView {
        match *self {
            DiscoveryState::Start => DiscoveryStateView::Start,
            DiscoveryState::AwaitingDocument => DiscoveryStateView::AwaitingDocument,
            DiscoveryState::AwaitingResource { pds_server } => DiscoveryStateView::AwaitingResource {
                pds_server: pds_server@,
            },
            DiscoveryState::Done => DiscoveryStateView::Done,
        }
    }
}

/// What the outside reports to a discovery.
#[derive(Debug)]
pub enum DiscoveryEvent {
    /// The discovery is to begin.
    Begin,
    /// The DID document.
    Document(DidDocument),
    /// The protected-resource metadata.
    Resource(PdsResponse),
    /// The request could not be made, or its reply could not be read.
    Failed(MyError),
}

/// What a discovery asks of the outside next.
#[derive(Debug)]
pub enum DiscoveryAction {
    /// Fetch the DID document at this address and report it.
    GetDocument(String),
    /// Fetch the protected-resource metadata at this address and report it.
    GetResource(String),
    /// Stop with this result.
    Finish(Result<ResourceServers, MyError>),
}

/// `DiscoveryAction` with each text as a sequence of characters.
pub enum DiscoveryActionView {
    GetDocument(Seq<char>),
    GetResource(Seq<char>),
    Finish(Result<ResourceServersView, ErrorView>),
}

impl View for DiscoveryAction {
    type V = DiscoveryActionView;

    open spec fn view(&self) -> DiscoveryActionView {
        match *self {
            DiscoveryAction::GetDocument(url) => DiscoveryActionView::GetDocument(url@),
            DiscoveryAction::GetResource(url) => DiscoveryActionView::GetResource(url@),
            DiscoveryAction::Finish(r) => DiscoveryActionView::Finish(servers_result_view(r)),
        }
    }
}

/// The failure that ends a discovery on an event which its state does not expect.
pub open spec fn discovery_misuse() -> (DiscoveryStateView, DiscoveryActionView) {
    (
        DiscoveryStateView::Done,
        DiscoveryActionView::Finish(Err(ErrorView::Validation("unexpected event"@))),
    )
}

/// The next state and the next request of the discovery for `did`.
///
/// The document of the DID is asked for first; the endpoint of its first service is the
/// personal data server. The metadata of that server is asked for second; the first
/// authorization server it names ends the discovery. An empty list, or a failure of either
/// request, ends it with that failure.
pub open spec fn discovery_step(did: Seq<char>, state: DiscoveryState, event: DiscoveryEvent) -> (
    DiscoveryStateView,
    DiscoveryActionView,
) {
    match state {
        DiscoveryState::Start => match event {
            DiscoveryEvent::Begin => (
                DiscoveryStateView::AwaitingDocument,
                DiscoveryActionView::GetDocument(directory_url(did)),
            ),
            _ => discovery_misuse(),
        },
        DiscoveryState::AwaitingDocument => match event {
            DiscoveryEvent::Document(document) => match first_endpoint(document) {
                Ok(pds) => (
                    DiscoveryStateView::AwaitingResource { pds_server: pds },
                    DiscoveryActionView::GetResource(protected_resource_url(pds)),
                ),
                Err(e) => (DiscoveryStateView::Done, DiscoveryActionView::Finish(Err(e))),
            },
            DiscoveryEvent::Failed(e) => (
                DiscoveryStateView::Done,
                DiscoveryActionView::Finish(Err(e@)),
            ),
            _ => discovery_misuse(),
        },
        DiscoveryState::AwaitingResource { pds_server } => match event {
            DiscoveryEvent::Resource(resource) => match first_issuer(resource) {
                Ok(issuer) => (
                    DiscoveryStateView::Done,
                    DiscoveryActionView::Finish(
                        Ok(ResourceServersView { pds_server: pds_server@, auth_server: issuer }),
                    ),
                ),
                Err(e) => (DiscoveryStateView::Done, DiscoveryActionView::Finish(Err(e))),
            },
            DiscoveryEvent::Failed(e) => (
                DiscoveryStateView::Done,
                DiscoveryActionView::Finish(Err(e@)),
            ),
            _ => discovery_misuse(),
        },
        DiscoveryState::Done => discovery_misuse(),
    }
}

fn misuse() -> (next: (DiscoveryState, DiscoveryAction))
    ensures
        (next.0@, next.1@) == discovery_misuse(),
{
    let message = String::from_str("unexpected event");
    (DiscoveryState::Done, DiscoveryAction::Finish(Err(MyError::ValidationError(message))))
}

fn no_entry(path: &str) -> (e: MyError)
    ensures
        e@ == empty_list(path@),
{
    MyError::Serialization(SerializationError::new(path, "expected at least one entry"))
}

/// One step of the discovery for `did`: from the state and what the outside reported to the
/// next state and what to ask next.
pub fn get_servers(did: &str, state: DiscoveryState, event: DiscoveryEvent) -> (next: (
    DiscoveryState,
    DiscoveryAction,
))
    ensures
        next.0@ == discovery_step(did@, state, event).0,
        next.1@ == discovery_step(did@, state, event).1,
{
    match state {
        DiscoveryState::Start => match event {
            DiscoveryEvent::Begin => {
                let url = join2("https://plc.directory/", did);
                (DiscoveryState::AwaitingDocument, DiscoveryAction::GetDocument(url))
            },
            _ => misuse(),
        },
        DiscoveryState::AwaitingDocument => match event {
            DiscoveryEvent::Document(document) => {
                if document.service.len() > 0 {
                    let pds_server = document.service[0].service_endpoint.clone();
                    let url = join2(pds_server.as_str(), "/.well-known/oauth-protected-resource");
                    (
                        DiscoveryState::AwaitingResource { pds_server },
                        DiscoveryAction::GetResource(url),
                    )
                } else {
                    (DiscoveryState::Done, DiscoveryAction::Finish(Err(no_entry("service"))))
                }
            },
            DiscoveryEvent::Failed(e) => (DiscoveryState::Done, DiscoveryAction::Finish(Err(e))),
            _ => misuse(),
        },
        DiscoveryState::AwaitingResource { pds_server } => match event {
            DiscoveryEvent::Resource(resource) => {
                if resource.authorization_servers.len() > 0 {
                    let auth_server = resource.authorization_servers[0].clone();
                    (
                        DiscoveryState::Done,
                        DiscoveryAction::Finish(Ok(ResourceServers { pds_server, auth_server })),
                    )
                } else {
                    (
                        DiscoveryState::Done,
                        DiscoveryAction::Finish(Err(no_entry("authorization_servers"))),
                    )
                }
            },
            DiscoveryEvent::Failed(e) => (DiscoveryState::Done, DiscoveryAction::Finish(Err(e))),
            _ => misuse(),
        },
        DiscoveryState::Done => misuse(),
    }
}

/// A document with a service and metadata with an authorization server give the endpoint
/// of the first service and the first authorization server, whatever else they hold.
pub proof fn lemma_first_entries_are_chosen(
    did: Seq<char>,
    document: DidDocument,
    waiting: DiscoveryState,
    resource: PdsResponse,
)
    requires
        document.service@.len() > 0,
        resource.authorization_servers@.len() > 0,
        waiting@ == discovery_step(
            did,
            DiscoveryState::AwaitingDocument,
            DiscoveryEvent::Document(document),
        ).0,
    ensures
        discovery_step(did, DiscoveryState::AwaitingDocument, DiscoveryEvent::Document(document))
            == (
            DiscoveryStateView::AwaitingResource {
                pds_server: document.service@[0].service_endpoint@,
            },
            DiscoveryActionView::GetResource(
                protected_resource_url(document.service@[0].service_endpoint@),
            ),
        ),
        discovery_step(did, waiting, DiscoveryEvent::Resource(resource)) == (
            DiscoveryStateView::Done,
            DiscoveryActionView::Finish(
                Ok(
                    ResourceServersView {
                        pds_server: document.service@[0].service_endpoint@,
                        auth_server: resource.authorization_servers@[0]@,
                    },
                ),
            ),
        ),
{
}

/// An empty list of services, or of authorization servers, ends the discovery with a
/// failure that names the list.
pub proof fn lemma_empty_lists_fail(
    did: Seq<char>,
    document: DidDocument,
    pds_server: String,
    resource: PdsResponse,
)
    requires
        document.service@.len() == 0,
        resource.authorization_servers@.len() == 0,
    ensures
        discovery_step(did, DiscoveryState::AwaitingDocument, DiscoveryEvent::Document(document))
            == (
            DiscoveryStateView::Done,
            DiscoveryActionView::Finish(Err(empty_list("service"@))),
        ),
        discovery_step(
            did,
            DiscoveryState::AwaitingResource { pds_server },
            DiscoveryEvent::Resource(resource),
        ) == (
            DiscoveryStateView::Done,
            DiscoveryActionView::Finish(Err(empty_list("authorization_servers"@))),
        ),
{
}

/// A discovery stops exactly where it has ended, and a request that failed ends it with
/// that failure.
pub proof fn lemma_discovery_ends(did: Seq<char>, state: DiscoveryState, event: DiscoveryEvent)
    ensures
        discovery_step(did, state, event).1 is Finish <==> discovery_step(did, state, event).0
            is Done,
        (state is AwaitingDocument || state is AwaitingResource) && event is Failed
            ==> discovery_step(did, state, event).1 == DiscoveryActionView::Finish(
            Err(event->Failed_0@),
        ),
{
}

/// How far a discovery has come, as a number.
pub open spec fn discovery_rank(state: DiscoveryStateView) -> nat {
    match state {
        DiscoveryStateView::Start => 0,
        DiscoveryStateView::AwaitingDocument => 1,
        DiscoveryStateView::AwaitingResource { .. } => 2,
        DiscoveryStateView::Done => 3,
    }
}

/// Every step moves a discovery forward, and one that is done stays done: a discovery
/// makes at most two requests, one after the other, and then ends.
pub proof fn lemma_discovery_advances(did: Seq<char>, state: DiscoveryState, event: DiscoveryEvent)
    ensures
        !(state is Done) ==> discovery_rank(discovery_step(did, state, event).0) > discovery_rank(
            state@,
        ),
        state is Done ==> discovery_step(did, state, event).0 is Done,
{
}

} // verus!
