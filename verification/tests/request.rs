use cedar_authz::error::CedarError;
use cedar_authz::request::{
    build_request, context_outcome, entities_outcome, invalid_field, RequestField,
};

const ALICE: &str = "User::\"alice\"";
const VIEW: &str = "Action::\"view\"";
const DOC: &str = "Doc::\"1\"";

fn failure(
    principal: &str,
    action: &str,
    resource: &str,
    context: Option<&str>,
    entities: Option<&str>,
) -> CedarError {
    match build_request(principal, action, resource, context, entities) {
        Ok(_) => panic!("assembled"),
        Err(e) => e,
    }
}

fn parse_message(e: CedarError) -> String {
    match e {
        CedarError::ParseError(m) => m,
        other => panic!("another kind of failure: {:?}", other),
    }
}

fn json_message(e: CedarError) -> String {
    match e {
        CedarError::JsonError(m) => m,
        other => panic!("another kind of failure: {:?}", other),
    }
}

#[test]
fn well_formed_inputs_assemble() {
    assert!(build_request(ALICE, VIEW, DOC, None, None).is_ok());
    assert!(build_request(ALICE, VIEW, DOC, Some("{}"), Some("[]")).is_ok());
    assert!(build_request("Org::Dept::User::\"a b\"", VIEW, DOC, Some("{\"n\": 1}"), None).is_ok());
}

#[test]
fn a_malformed_principal_is_named() {
    let m = parse_message(failure("alice", VIEW, DOC, None, None));
    assert!(m.starts_with("Invalid principal: "), "{}", m);
    assert!(m.len() > "Invalid principal: ".len());
    let m = parse_message(failure("User:\"alice\"", VIEW, DOC, None, None));
    assert!(m.starts_with("Invalid principal: "), "{}", m);
    let m = parse_message(failure("", VIEW, DOC, None, None));
    assert!(m.starts_with("Invalid principal: "), "{}", m);
}

#[test]
fn a_malformed_action_is_named() {
    let m = parse_message(failure(ALICE, "view", DOC, None, None));
    assert!(m.starts_with("Invalid action: "), "{}", m);
}

#[test]
fn a_malformed_resource_is_named() {
    let m = parse_message(failure(ALICE, VIEW, "Doc::1", None, None));
    assert!(m.starts_with("Invalid resource: "), "{}", m);
}

#[test]
fn the_first_malformed_input_decides() {
    let m = parse_message(failure("alice", "view", "doc", Some("{"), Some("{")));
    assert!(m.starts_with("Invalid principal: "), "{}", m);
    let m = parse_message(failure(ALICE, "view", "doc", Some("{"), Some("{")));
    assert!(m.starts_with("Invalid action: "), "{}", m);
    let m = parse_message(failure(ALICE, VIEW, "doc", Some("{"), Some("{")));
    assert!(m.starts_with("Invalid resource: "), "{}", m);
    let m = json_message(failure(ALICE, VIEW, DOC, Some("{"), Some("{")));
    assert!(m.starts_with("Invalid context JSON: "), "{}", m);
    let m = json_message(failure(ALICE, VIEW, DOC, Some("[]"), Some("{")));
    assert!(m.starts_with("Failed to create context: "), "{}", m);
    let m = json_message(failure(ALICE, VIEW, DOC, Some("{}"), Some("{")));
    assert!(m.starts_with("Failed to parse entities JSON: "), "{}", m);
}

#[test]
fn a_context_that_is_not_json_is_a_json_error() {
    let m = json_message(failure(ALICE, VIEW, DOC, Some("{ not json"), None));
    assert!(m.starts_with("Invalid context JSON: "), "{}", m);
    assert!(m.len() > "Invalid context JSON: ".len());
    let m = json_message(failure(ALICE, VIEW, DOC, Some(""), None));
    assert!(m.starts_with("Invalid context JSON: "), "{}", m);
}

#[test]
fn a_context_that_is_no_record_is_a_json_error() {
    let m = json_message(failure(ALICE, VIEW, DOC, Some("[1, 2]"), None));
    assert!(m.starts_with("Failed to create context: "), "{}", m);
    assert!(m.len() > "Failed to create context: ".len());
    let m = json_message(failure(ALICE, VIEW, DOC, Some("3"), None));
    assert!(m.starts_with("Failed to create context: "), "{}", m);
}

#[test]
fn a_malformed_entities_document_is_a_json_error() {
    let m = json_message(failure(ALICE, VIEW, DOC, None, Some("{ not json")));
    assert!(m.starts_with("Failed to parse entities JSON: "), "{}", m);
    assert!(m.len() > "Failed to parse entities JSON: ".len());
    let m = json_message(failure(ALICE, VIEW, DOC, None, Some("[{\"uid\": 1}]")));
    assert!(m.starts_with("Failed to parse entities JSON: "), "{}", m);
}

#[test]
fn the_failure_for_a_field_names_it() {
    match invalid_field(RequestField::Principal, "why") {
        CedarError::ParseError(m) => assert_eq!(m, "Invalid principal: why"),
        other => panic!("{:?}", other),
    }
    match invalid_field(RequestField::Action, "why") {
        CedarError::ParseError(m) => assert_eq!(m, "Invalid action: why"),
        other => panic!("{:?}", other),
    }
    match invalid_field(RequestField::Resource, "") {
        CedarError::ParseError(m) => assert_eq!(m, "Invalid resource: "),
        other => panic!("{:?}", other),
    }
}

#[test]
fn a_context_that_the_engine_made_is_handed_on() {
    let made = cedar_policy::Context::from_json_str("{\"level\": 3}", None);
    assert!(made.is_ok());
    match context_outcome(made) {
        Ok(c) => assert_eq!(c.to_string(), cedar_policy::Context::from_json_str("{\"level\": 3}", None).unwrap().to_string()),
        Err(e) => panic!("failed: {}", e.message()),
    }
    assert!(context_outcome(Ok(cedar_policy::Context::empty())).is_ok());
}

#[test]
fn a_refused_context_becomes_a_json_error() {
    let value: serde_json::Value = serde_json::from_str("[1, 2]").unwrap();
    let expected = match cedar_policy::Context::from_json_value(value.clone(), None) {
        Err(e) => format!("Failed to create context: {}", e),
        Ok(_) => panic!("made"),
    };
    match context_outcome(cedar_policy::Context::from_json_value(value, None)) {
        Err(CedarError::JsonError(m)) => assert_eq!(m, expected),
        Err(other) => panic!("another kind of failure: {:?}", other),
        Ok(_) => panic!("made"),
    }
}

#[test]
fn an_entity_store_that_the_engine_made_is_handed_on() {
    let text = "[{\"uid\": {\"type\": \"User\", \"id\": \"alice\"}, \"attrs\": {}, \"parents\": []}]";
    match entities_outcome(cedar_policy::Entities::from_json_str(text, None)) {
        Ok(store) => assert_eq!(store.iter().count(), 1),
        Err(e) => panic!("failed: {}", e.message()),
    }
    match entities_outcome(Ok(cedar_policy::Entities::empty())) {
        Ok(store) => assert_eq!(store.iter().count(), 0),
        Err(e) => panic!("failed: {}", e.message()),
    }
}

#[test]
fn a_refused_entities_document_becomes_a_json_error() {
    let expected = match cedar_policy::Entities::from_json_str("{", None) {
        Err(e) => format!("Failed to parse entities JSON: {}", e),
        Ok(_) => panic!("made"),
    };
    match entities_outcome(cedar_policy::Entities::from_json_str("{", None)) {
        Err(CedarError::JsonError(m)) => assert_eq!(m, expected),
        Err(other) => panic!("another kind of failure: {:?}", other),
        Ok(_) => panic!("made"),
    }
}

#[test]
fn the_message_gives_what_the_engine_reported() {
    let expected = match "alice".parse::<cedar_policy::EntityUid>() {
        Err(e) => format!("Invalid principal: {}", e),
        Ok(_) => panic!("parsed"),
    };
    assert_eq!(parse_message(failure("alice", VIEW, DOC, None, None)), expected);
    let expected = match serde_json::from_str::<serde_json::Value>("{ not json") {
        Err(e) => format!("Invalid context JSON: {}", e),
        Ok(_) => panic!("parsed"),
    };
    assert_eq!(json_message(failure(ALICE, VIEW, DOC, Some("{ not json"), None)), expected);
}
