use cedar_authz::error::CedarError;

#[test]
fn each_kind_of_failure_has_its_words() {
    assert_eq!(CedarError::JsonError("bad".to_string()).message(), "JSON Error: bad");
    assert_eq!(CedarError::ParseError("bad".to_string()).message(), "Parse Error: bad");
    assert_eq!(
        CedarError::AuthorizationError("bad".to_string()).message(),
        "Authorization Error: bad"
    );
    assert_eq!(CedarError::SchemaError("bad".to_string()).message(), "Schema Error: bad");
    assert_eq!(
        CedarError::DuplicateIdError("bad".to_string()).message(),
        "Duplicate Id Error: bad"
    );
}

#[test]
fn the_cause_is_the_message_without_the_kind() {
    assert_eq!(CedarError::JsonError("a b".to_string()).cause(), "a b");
    assert_eq!(CedarError::ParseError("".to_string()).cause(), "");
    assert_eq!(CedarError::AuthorizationError("x".to_string()).cause(), "x");
    assert_eq!(CedarError::SchemaError("y".to_string()).cause(), "y");
    assert_eq!(CedarError::DuplicateIdError("z".to_string()).cause(), "z");
}

#[test]
fn an_empty_message_leaves_the_kind() {
    assert_eq!(CedarError::ParseError(String::new()).message(), "Parse Error: ");
}
