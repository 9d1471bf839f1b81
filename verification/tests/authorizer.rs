use cedar_authz::authorizer::CedarAuthorizer;
use cedar_authz::response::{Decision, Response};
use cedar_authz::error::CedarError;
use cedar_authz::policy::CedarPolicy;
use cedar_authz::policy_set::CedarPolicySet;
use cedar_authz::request::build_request;

const ALICE: &str = "User::\"alice\"";
const BOB: &str = "User::\"bob\"";
const VIEW: &str = "Action::\"view\"";
const DOC: &str = "Doc::\"1\"";
const ALICE_VIEWS_DOC: &str =
    "permit(principal == User::\"alice\", action == Action::\"view\", resource == Doc::\"1\");";

fn set_of(sources: &[&str]) -> CedarPolicySet {
    let mut set = CedarPolicySet::new();
    for src in sources.iter() {
        let policy = match CedarPolicy::new(src) {
            Ok(p) => p,
            Err(e) => panic!("refused: {}", e.message()),
        };
        if let Err(e) = set.add(&policy) {
            panic!("not added: {}", e.message());
        }
    }
    set
}

fn allowed(set: &CedarPolicySet, principal: &str, context: Option<&str>, entities: Option<&str>) -> bool {
    match CedarAuthorizer::new().is_authorized(set, principal, VIEW, DOC, context, entities) {
        Ok(b) => b,
        Err(e) => panic!("failed: {}", e.message()),
    }
}

fn detailed(
    set: &CedarPolicySet,
    principal: &str,
    context: Option<&str>,
    entities: Option<&str>,
) -> (bool, Vec<String>, Vec<String>) {
    match CedarAuthorizer::new().is_authorized_detailed(set, principal, VIEW, DOC, context, entities)
    {
        Ok(answer) => answer,
        Err(e) => panic!("failed: {}", e.message()),
    }
}

#[test]
fn alice_may_view_the_document() {
    let set = set_of(&[ALICE_VIEWS_DOC]);
    assert!(allowed(&set, ALICE, None, None));
    let (ok, reasons, errors) = detailed(&set, ALICE, None, None);
    assert!(ok);
    assert_eq!(reasons, vec!["policy0".to_string()]);
    assert!(errors.is_empty());
}

#[test]
fn bob_may_not_view_the_document() {
    let set = set_of(&[ALICE_VIEWS_DOC]);
    assert!(!allowed(&set, BOB, None, None));
    let (ok, reasons, errors) = detailed(&set, BOB, None, None);
    assert!(!ok);
    assert!(reasons.is_empty());
    assert!(errors.is_empty());
}

#[test]
fn an_empty_set_permits_nothing() {
    let set = CedarPolicySet::new();
    assert!(!allowed(&set, ALICE, None, None));
    assert!(!allowed(&set, BOB, Some("{\"a\": true}"), Some("[]")));
    let (ok, reasons, errors) = detailed(&set, ALICE, None, None);
    assert!(!ok);
    assert!(reasons.is_empty());
    assert!(errors.is_empty());
}

#[test]
fn an_unconditional_permit_allows_and_is_the_reason() {
    let set = set_of(&["@id(\"open\")\npermit(principal, action, resource);"]);
    let (ok, reasons, errors) = detailed(&set, BOB, None, None);
    assert!(ok);
    assert_eq!(reasons, vec!["open".to_string()]);
    assert!(errors.is_empty());
    assert!(allowed(&set, ALICE, Some("{}"), Some("[]")));
}

#[test]
fn a_forbid_overrides_a_permit() {
    let set = set_of(&[
        "@id(\"open\")\npermit(principal, action, resource);",
        "@id(\"no-bob\")\nforbid(principal == User::\"bob\", action, resource);",
    ]);
    assert!(allowed(&set, ALICE, None, None));
    let (ok, reasons, errors) = detailed(&set, BOB, None, None);
    assert!(!ok);
    assert_eq!(reasons, vec!["no-bob".to_string()]);
    assert!(errors.is_empty());
}

#[test]
fn every_reason_is_a_policy_of_the_set() {
    let set = set_of(&[
        "@id(\"a\")\npermit(principal, action, resource);",
        "@id(\"b\")\npermit(principal == User::\"alice\", action, resource);",
        "@id(\"c\")\npermit(principal == User::\"bob\", action, resource);",
    ]);
    let (ok, mut reasons, errors) = detailed(&set, ALICE, None, None);
    assert!(ok);
    reasons.sort();
    assert_eq!(reasons, vec!["a".to_string(), "b".to_string()]);
    assert!(errors.is_empty());
}

#[test]
fn the_context_is_consulted() {
    let set = set_of(&["permit(principal, action, resource) when { context.level > 3 };"]);
    assert!(allowed(&set, ALICE, Some("{\"level\": 5}"), None));
    assert!(!allowed(&set, ALICE, Some("{\"level\": 1}"), None));
}

#[test]
fn an_absent_context_is_empty() {
    let set = set_of(&["permit(principal, action, resource) when { context has level };"]);
    assert!(!allowed(&set, ALICE, None, None));
    assert!(!allowed(&set, ALICE, Some("{}"), None));
    assert!(allowed(&set, ALICE, Some("{\"level\": 1}"), None));
}

#[test]
fn the_entities_are_consulted() {
    let set = set_of(&["permit(principal in Group::\"admins\", action, resource);"]);
    let entities = r#"[
        {"uid": {"type": "User", "id": "alice"}, "attrs": {},
         "parents": [{"type": "Group", "id": "admins"}]},
        {"uid": {"type": "Group", "id": "admins"}, "attrs": {}, "parents": []}
    ]"#;
    assert!(allowed(&set, ALICE, None, Some(entities)));
    assert!(!allowed(&set, BOB, None, Some(entities)));
    assert!(!allowed(&set, ALICE, None, None));
    assert!(!allowed(&set, ALICE, None, Some("[]")));
}

#[test]
fn a_policy_that_cannot_be_evaluated_is_reported_and_skipped() {
    let set = set_of(&[
        "@id(\"broken\")\npermit(principal, action, resource) when { context.missing == 1 };",
    ]);
    let (ok, reasons, errors) = detailed(&set, ALICE, None, None);
    assert!(!ok);
    assert!(reasons.is_empty());
    assert_eq!(errors.len(), 1);
    assert!(errors[0].contains("broken"), "{}", errors[0]);
    assert!(!allowed(&set, ALICE, None, None));
}

#[test]
fn a_request_is_answered_despite_a_broken_policy() {
    let set = set_of(&[
        "@id(\"broken\")\npermit(principal, action, resource) when { context.missing == 1 };",
        "@id(\"open\")\npermit(principal, action, resource);",
    ]);
    let (ok, reasons, errors) = detailed(&set, ALICE, None, None);
    assert!(ok);
    assert_eq!(reasons, vec!["open".to_string()]);
    assert_eq!(errors.len(), 1);
    assert!(allowed(&set, ALICE, None, None));
}

#[test]
fn a_json_policy_is_evaluated() {
    let json = r#"  {
        "effect": "permit",
        "principal": {"op": "==", "entity": {"type": "User", "id": "alice"}},
        "action": {"op": "==", "entity": {"type": "Action", "id": "view"}},
        "resource": {"op": "==", "entity": {"type": "Doc", "id": "1"}},
        "conditions": []
    }"#;
    let set = set_of(&[json]);
    assert!(allowed(&set, ALICE, None, None));
    assert!(!allowed(&set, BOB, None, None));
    let (_, reasons, _) = detailed(&set, ALICE, None, None);
    assert_eq!(reasons, vec!["JSON policy".to_string()]);
}

#[test]
fn a_malformed_principal_fails_the_query() {
    let set = set_of(&[ALICE_VIEWS_DOC]);
    let authorizer = CedarAuthorizer::new();
    match authorizer.is_authorized(&set, "alice", VIEW, DOC, None, None) {
        Err(CedarError::ParseError(m)) => assert!(m.starts_with("Invalid principal: "), "{}", m),
        other => panic!("unexpected: {:?}", other),
    }
    match authorizer.is_authorized_detailed(&set, "User::alice", VIEW, DOC, None, None) {
        Err(CedarError::ParseError(m)) => assert!(m.starts_with("Invalid principal: "), "{}", m),
        other => panic!("unexpected: {:?}", other),
    }
}

#[test]
fn a_malformed_action_or_resource_fails_the_query() {
    let set = set_of(&[ALICE_VIEWS_DOC]);
    let authorizer = CedarAuthorizer::new();
    match authorizer.is_authorized(&set, ALICE, "view", DOC, None, None) {
        Err(CedarError::ParseError(m)) => assert!(m.starts_with("Invalid action: "), "{}", m),
        other => panic!("unexpected: {:?}", other),
    }
    match authorizer.is_authorized(&set, ALICE, VIEW, "Doc", None, None) {
        Err(CedarError::ParseError(m)) => assert!(m.starts_with("Invalid resource: "), "{}", m),
        other => panic!("unexpected: {:?}", other),
    }
    match authorizer.is_authorized_detailed(&set, ALICE, VIEW, "Doc::", None, None) {
        Err(CedarError::ParseError(m)) => assert!(m.starts_with("Invalid resource: "), "{}", m),
        other => panic!("unexpected: {:?}", other),
    }
}

#[test]
fn malformed_json_fails_the_query() {
    let set = set_of(&["permit(principal, action, resource);"]);
    let authorizer = CedarAuthorizer::new();
    match authorizer.is_authorized(&set, ALICE, VIEW, DOC, Some("{\"a\": "), None) {
        Err(CedarError::JsonError(m)) => assert!(m.starts_with("Invalid context JSON: "), "{}", m),
        other => panic!("unexpected: {:?}", other),
    }
    match authorizer.is_authorized(&set, ALICE, VIEW, DOC, Some("\"text\""), None) {
        Err(CedarError::JsonError(m)) => {
            assert!(m.starts_with("Failed to create context: "), "{}", m)
        },
        other => panic!("unexpected: {:?}", other),
    }
    match authorizer.is_authorized(&set, ALICE, VIEW, DOC, None, Some("[")) {
        Err(CedarError::JsonError(m)) => {
            assert!(m.starts_with("Failed to parse entities JSON: "), "{}", m)
        },
        other => panic!("unexpected: {:?}", other),
    }
    match authorizer.is_authorized_detailed(&set, ALICE, VIEW, DOC, Some("{}"), Some("nonsense")) {
        Err(CedarError::JsonError(m)) => {
            assert!(m.starts_with("Failed to parse entities JSON: "), "{}", m)
        },
        other => panic!("unexpected: {:?}", other),
    }
}

#[test]
fn the_message_of_a_failed_query_carries_its_kind() {
    let set = CedarPolicySet::new();
    let authorizer = CedarAuthorizer::new();
    match authorizer.is_authorized(&set, "nobody", VIEW, DOC, None, None) {
        Err(e) => assert!(e.message().starts_with("Parse Error: Invalid principal: ")),
        Ok(_) => panic!("answered"),
    }
    match authorizer.is_authorized(&set, ALICE, VIEW, DOC, Some("?"), None) {
        Err(e) => assert!(e.message().starts_with("JSON Error: Invalid context JSON: ")),
        Ok(_) => panic!("answered"),
    }
}

#[test]
fn an_authorizer_answers_many_requests() {
    let set = set_of(&[ALICE_VIEWS_DOC]);
    let authorizer = CedarAuthorizer::new();
    for _ in 0..3 {
        assert_eq!(authorizer.is_authorized(&set, ALICE, VIEW, DOC, None, None).ok(), Some(true));
        assert_eq!(authorizer.is_authorized(&set, BOB, VIEW, DOC, None, None).ok(), Some(false));
    }
    let empty = CedarPolicySet::new();
    assert_eq!(authorizer.is_authorized(&empty, ALICE, VIEW, DOC, None, None).ok(), Some(false));
}

#[test]
fn both_queries_agree_on_the_decision() {
    let set = set_of(&[
        ALICE_VIEWS_DOC,
        "@id(\"no-guests\")\nforbid(principal == User::\"guest\", action, resource);",
    ]);
    for who in [ALICE, BOB, "User::\"guest\""] {
        let simple = allowed(&set, who, None, None);
        let (full, _, _) = detailed(&set, who, None, None);
        assert_eq!(simple, full);
    }
}

#[test]
fn an_assembled_request_can_be_evaluated() {
    let set = set_of(&[ALICE_VIEWS_DOC]);
    let authorizer = CedarAuthorizer::new();
    let input = match build_request(ALICE, VIEW, DOC, None, None) {
        Ok(input) => input,
        Err(e) => panic!("failed: {}", e.message()),
    };
    let response = authorizer.evaluate(&set, &input);
    assert_eq!(response.decision, Decision::Allow);
    assert!(response.allowed());
    assert_eq!(response.reasons, vec!["policy0".to_string()]);
    assert!(response.errors.is_empty());
    let other = match build_request(BOB, VIEW, DOC, None, None) {
        Ok(input) => input,
        Err(e) => panic!("failed: {}", e.message()),
    };
    let denied = authorizer.evaluate(&set, &other);
    assert_eq!(denied.decision, Decision::Deny);
    assert!(!denied.allowed());
}

#[test]
fn only_allow_counts_as_permitted() {
    let allow = Response { decision: Decision::Allow, reasons: Vec::new(), errors: Vec::new() };
    assert!(allow.allowed());
    let deny = Response {
        decision: Decision::Deny,
        reasons: vec!["p".to_string()],
        errors: vec!["e".to_string()],
    };
    assert!(!deny.allowed());
}

#[test]
fn a_response_comes_apart_unchanged() {
    let response = Response {
        decision: Decision::Allow,
        reasons: vec!["b".to_string(), "a".to_string()],
        errors: vec!["e1".to_string()],
    };
    let (allowed, reasons, errors) = response.into_parts();
    assert!(allowed);
    assert_eq!(reasons, vec!["b".to_string(), "a".to_string()]);
    assert_eq!(errors, vec!["e1".to_string()]);
    let response = Response { decision: Decision::Deny, reasons: Vec::new(), errors: Vec::new() };
    assert_eq!(response.into_parts(), (false, Vec::new(), Vec::new()));
}

#[test]
fn a_namespaced_identifier_is_accepted() {
    let set = set_of(&["permit(principal == Org::User::\"alice\", action, resource);"]);
    let authorizer = CedarAuthorizer::new();
    assert_eq!(
        authorizer.is_authorized(&set, "Org::User::\"alice\"", VIEW, DOC, None, None).ok(),
        Some(true)
    );
    assert_eq!(authorizer.is_authorized(&set, ALICE, VIEW, DOC, None, None).ok(), Some(false));
}
