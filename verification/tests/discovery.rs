use atproto_oauth::discovery::{
    get_servers, DidDocument, DidService, DiscoveryAction, DiscoveryEvent, DiscoveryState,
    PdsResponse, ResourceServers, ServiceType,
};
use atproto_oauth::errors::MyError;
use serde_json::Value;
use std::collections::BTreeMap;

const DID: &str = "did:plc:ukgwapa3bceculh4cobcopg3";

const DID_DOCUMENT: &str = r##"{
  "@context": [
    "https://www.w3.org/ns/did/v1",
    "https://w3id.org/security/multikey/v1",
    "https://w3id.org/security/suites/secp256k1-2019/v1"
  ],
  "id": "did:plc:ukgwapa3bceculh4cobcopg3",
  "alsoKnownAs": ["at://alice.example"],
  "verificationMethod": [
    {
      "id": "did:plc:ukgwapa3bceculh4cobcopg3#atproto",
      "type": "Multikey",
      "controller": "did:plc:ukgwapa3bceculh4cobcopg3",
      "publicKeyMultibase": "zQ3shXjHeiBuRCKmM36cuYnm7YEMzhGnCmCyW92sRJ9pribSF"
    }
  ],
  "service": [
    {
      "id": "#atproto_pds",
      "type": "AtprotoPersonalDataServer",
      "serviceEndpoint": "https://shiitake.us-east.host.bsky.network"
    }
  ],
  "added_later": {"by": "the directory"}
}"##;

const PROTECTED_RESOURCE: &str = r##"{
  "resource": "https://shiitake.us-east.host.bsky.network",
  "authorization_servers": ["https://bsky.social"],
  "scopes_supported": [],
  "bearer_methods_supported": ["header"],
  "resource_documentation": "https://atproto.com",
  "added_later": true
}"##;

fn texts(value: &Value) -> Vec<String> {
    value
        .as_array()
        .expect("a list")
        .iter()
        .map(|entry| entry.as_str().expect("a text").to_string())
        .collect()
}

fn text(value: &Value) -> String {
    value.as_str().expect("a text").to_string()
}

fn rest_of(value: &Value, known: &[&str]) -> BTreeMap<String, Value> {
    value
        .as_object()
        .expect("an object")
        .iter()
        .filter(|(name, _)| !known.contains(&name.as_str()))
        .map(|(name, member)| (name.clone(), member.clone()))
        .collect()
}

fn document_from(json: &str) -> DidDocument {
    let value: Value = serde_json::from_str(json).expect("a JSON document");
    let service = value["service"]
        .as_array()
        .expect("a list")
        .iter()
        .map(|entry| {
            assert_eq!(entry["type"], "AtprotoPersonalDataServer");
            DidService {
                id: text(&entry["id"]),
                service_type: ServiceType::AtprotoPersonalDataServer,
                service_endpoint: text(&entry["serviceEndpoint"]),
            }
        })
        .collect();
    DidDocument {
        context: texts(&value["@context"]),
        id: text(&value["id"]),
        also_known_as: texts(&value["alsoKnownAs"]),
        verification_method: value["verificationMethod"].as_array().expect("a list").clone(),
        service,
        _rest: rest_of(
            &value,
            &["@context", "id", "alsoKnownAs", "verificationMethod", "service"],
        ),
    }
}

fn resource_from(json: &str) -> PdsResponse {
    let value: Value = serde_json::from_str(json).expect("a JSON document");
    PdsResponse {
        authorization_servers: texts(&value["authorization_servers"]),
        resource: text(&value["resource"]),
        scopes_supported: texts(&value["scopes_supported"]),
        bearer_methods_supported: texts(&value["bearer_methods_supported"]),
        resource_documentation: text(&value["resource_documentation"]),
        _rest: rest_of(
            &value,
            &[
                "authorization_servers",
                "resource",
                "scopes_supported",
                "bearer_methods_supported",
                "resource_documentation",
            ],
        ),
    }
}

fn document_with(endpoints: &[&str]) -> DidDocument {
    DidDocument {
        context: vec!["https://www.w3.org/ns/did/v1".to_string()],
        id: DID.to_string(),
        also_known_as: vec![],
        verification_method: vec![],
        service: endpoints
            .iter()
            .map(|endpoint| DidService {
                id: "#atproto_pds".to_string(),
                service_type: ServiceType::AtprotoPersonalDataServer,
                service_endpoint: endpoint.to_string(),
            })
            .collect(),
        _rest: BTreeMap::new(),
    }
}

fn resource_with(issuers: &[&str]) -> PdsResponse {
    PdsResponse {
        authorization_servers: issuers.iter().map(|issuer| issuer.to_string()).collect(),
        resource: "https://pds.example".to_string(),
        scopes_supported: vec![],
        bearer_methods_supported: vec!["header".to_string()],
        resource_documentation: "https://atproto.com".to_string(),
        _rest: BTreeMap::new(),
    }
}

/// Runs a discovery to its end against canned replies, and records the addresses asked for.
fn run_discovery(
    did: &str,
    document: fn() -> DiscoveryEvent,
    resource: fn() -> DiscoveryEvent,
    asked: &mut Vec<String>,
) -> Result<ResourceServers, MyError> {
    let mut state = DiscoveryState::Start;
    let mut event = DiscoveryEvent::Begin;
    loop {
        let (next, action) = get_servers(did, state, event);
        state = next;
        event = match action {
            DiscoveryAction::GetDocument(url) => {
                asked.push(url);
                document()
            }
            DiscoveryAction::GetResource(url) => {
                asked.push(url);
                resource()
            }
            DiscoveryAction::Finish(result) => {
                assert!(matches!(state, DiscoveryState::Done));
                return result;
            }
        };
    }
}

fn transport_failure() -> MyError {
    let failure = reqwest::Client::new()
        .get("no address")
        .build()
        .expect_err("a text without a scheme is no address");
    MyError::ReqwestError(failure)
}

#[test]
fn decode_did_doc() {
    let (state, action) = get_servers(DID, DiscoveryState::Start, DiscoveryEvent::Begin);
    match action {
        DiscoveryAction::GetDocument(url) => {
            assert_eq!(url, "https://plc.directory/did:plc:ukgwapa3bceculh4cobcopg3")
        }
        other => panic!("unexpected action {:?}", other),
    }
    let document = document_from(DID_DOCUMENT);
    assert_eq!(document.verification_method.len(), 1);
    assert_eq!(document._rest.len(), 1);
    let (state, action) = get_servers(DID, state, DiscoveryEvent::Document(document));
    match state {
        DiscoveryState::AwaitingResource { pds_server } => {
            assert_eq!(pds_server, "https://shiitake.us-east.host.bsky.network")
        }
        other => panic!("unexpected state {:?}", other),
    }
    assert!(matches!(action, DiscoveryAction::GetResource(_)));
}

#[test]
fn decode_pds() {
    let (state, _) = get_servers(DID, DiscoveryState::Start, DiscoveryEvent::Begin);
    let document = document_from(DID_DOCUMENT);
    let (state, action) = get_servers(DID, state, DiscoveryEvent::Document(document));
    match action {
        DiscoveryAction::GetResource(url) => assert_eq!(
            url,
            "https://shiitake.us-east.host.bsky.network/.well-known/oauth-protected-resource"
        ),
        other => panic!("unexpected action {:?}", other),
    }
    let resource = resource_from(PROTECTED_RESOURCE);
    assert_eq!(resource._rest.len(), 1);
    let (state, action) = get_servers(DID, state, DiscoveryEvent::Resource(resource));
    assert!(matches!(state, DiscoveryState::Done));
    assert!(matches!(action, DiscoveryAction::Finish(Ok(_))));
}

#[test]
fn resolve_auth_server_success() {
    let mut asked = Vec::new();
    let result = run_discovery(
        "did:plc:ukgwapa3bceculh4cobcopg3",
        || DiscoveryEvent::Document(document_from(DID_DOCUMENT)),
        || DiscoveryEvent::Resource(resource_from(PROTECTED_RESOURCE)),
        &mut asked,
    );
    let servers = ResourceServers {
        pds_server: String::from("https://shiitake.us-east.host.bsky.network"),
        auth_server: String::from("https://bsky.social"),
    };
    match result {
        Ok(result) => {
            assert_eq!(result.pds_server, servers.pds_server);
            assert_eq!(result.auth_server, servers.auth_server);
        }
        Err(e) => panic!("Error: {:?}", e),
    }
}

#[test]
fn servers_are_the_first_endpoint_and_the_first_issuer() {
    let mut asked = Vec::new();
    let result = run_discovery(
        "did:plc:abc123",
        || DiscoveryEvent::Document(document_with(&["https://pds.example"])),
        || DiscoveryEvent::Resource(resource_with(&["https://auth.example"])),
        &mut asked,
    )
    .unwrap();
    assert_eq!(result.pds_server, "https://pds.example");
    assert_eq!(result.auth_server, "https://auth.example");
    assert_eq!(
        asked,
        vec![
            "https://plc.directory/did:plc:abc123".to_string(),
            "https://pds.example/.well-known/oauth-protected-resource".to_string(),
        ]
    );
}

#[test]
fn later_entries_are_not_consulted() {
    let mut asked = Vec::new();
    let result = run_discovery(
        "did:plc:abc123",
        || DiscoveryEvent::Document(document_with(&["https://one.example", "https://two.example"])),
        || DiscoveryEvent::Resource(resource_with(&["https://first.example", "https://second.example"])),
        &mut asked,
    )
    .unwrap();
    assert_eq!(result.pds_server, "https://one.example");
    assert_eq!(result.auth_server, "https://first.example");
    assert_eq!(asked[1], "https://one.example/.well-known/oauth-protected-resource");
}

#[test]
fn document_without_service_is_a_failure_at_its_path() {
    let mut asked = Vec::new();
    let result = run_discovery(
        "did:plc:abc123",
        || DiscoveryEvent::Document(document_with(&[])),
        || panic!("no server is known to ask"),
        &mut asked,
    );
    match result {
        Err(MyError::Serialization(e)) => {
            assert_eq!(e.path(), "service");
            assert_eq!(e.cause(), "expected at least one entry");
            assert_eq!(e.to_text(), "at path 'service': expected at least one entry");
        }
        other => panic!("unexpected result {:?}", other),
    }
    assert_eq!(asked.len(), 1);
}

#[test]
fn metadata_without_issuer_is_a_failure_at_its_path() {
    let mut asked = Vec::new();
    let result = run_discovery(
        "did:plc:abc123",
        || DiscoveryEvent::Document(document_with(&["https://pds.example"])),
        || DiscoveryEvent::Resource(resource_with(&[])),
        &mut asked,
    );
    match result {
        Err(MyError::Serialization(e)) => {
            assert_eq!(e.path(), "authorization_servers");
            assert_eq!(e.cause(), "expected at least one entry");
        }
        other => panic!("unexpected result {:?}", other),
    }
    assert_eq!(asked.len(), 2);
}

#[test]
fn failed_requests_end_the_discovery() {
    let mut asked = Vec::new();
    let result = run_discovery(
        "did:plc:abc123",
        || DiscoveryEvent::Failed(transport_failure()),
        || panic!("no server is known to ask"),
        &mut asked,
    );
    assert!(matches!(result, Err(MyError::ReqwestError(_))));
    assert_eq!(asked.len(), 1);
    let mut asked = Vec::new();
    let result = run_discovery(
        "did:plc:abc123",
        || DiscoveryEvent::Document(document_with(&["https://pds.example"])),
        || {
            let unreadable = serde_json::from_str::<Value>("[").unwrap_err();
            DiscoveryEvent::Failed(MyError::from(unreadable))
        },
        &mut asked,
    );
    assert!(matches!(result, Err(MyError::JsonError { .. })));
    assert_eq!(asked.len(), 2);
}

#[test]
fn discovery_refuses_events_out_of_turn() {
    let (state, action) = get_servers(
        DID,
        DiscoveryState::Start,
        DiscoveryEvent::Resource(resource_with(&["https://auth.example"])),
    );
    assert!(matches!(state, DiscoveryState::Done));
    match action {
        DiscoveryAction::Finish(Err(MyError::ValidationError(message))) => {
            assert_eq!(message, "unexpected event")
        }
        other => panic!("unexpected action {:?}", other),
    }
    let (state, action) = get_servers(
        DID,
        DiscoveryState::AwaitingDocument,
        DiscoveryEvent::Resource(resource_with(&["https://auth.example"])),
    );
    assert!(matches!(state, DiscoveryState::Done));
    assert!(matches!(action, DiscoveryAction::Finish(Err(MyError::ValidationError(_)))));
    let (state, action) = get_servers(
        DID,
        DiscoveryState::AwaitingResource { pds_server: "https://pds.example".to_string() },
        DiscoveryEvent::Document(document_with(&["https://pds.example"])),
    );
    assert!(matches!(state, DiscoveryState::Done));
    assert!(matches!(action, DiscoveryAction::Finish(Err(MyError::ValidationError(_)))));
    let (state, action) = get_servers(DID, DiscoveryState::Done, DiscoveryEvent::Begin);
    assert!(matches!(state, DiscoveryState::Done));
    assert!(matches!(action, DiscoveryAction::Finish(Err(MyError::ValidationError(_)))));
}
