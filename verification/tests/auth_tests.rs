use uni_routing::auth::{AuthPolicy, AuthCondition, JwtToken};

#[test]
fn test_auth_policy_creation() {
    let policy = AuthPolicy::new("roles:admin,user");
    assert_eq!(policy.policy_expr, "roles:admin,user");
}

#[test]
fn test_auth_policy_parsing() {
    let policy = AuthPolicy::new("role:admin,permission:read,scope:write");
    let conditions = policy.parse();
    assert_eq!(conditions.len(), 3);

    match &conditions[0] {
        AuthCondition::Role(role) => assert_eq!(role, "admin"),
        _ => panic!("Expected Role condition"),
    }

    match &conditions[1] {
        AuthCondition::Permission(permission) => assert_eq!(permission, "read"),
        _ => panic!("Expected Permission condition"),
    }

    match &conditions[2] {
        AuthCondition::Scope(scope) => assert_eq!(scope, "write"),
        _ => panic!("Expected Scope condition"),
    }
}

#[test]
fn test_auth_condition_from_str() {
    assert!(matches!(AuthCondition::from_str("role:admin"), AuthCondition::Role(_)));
    assert!(matches!(AuthCondition::from_str("user:123"), AuthCondition::User(_)));
    assert!(matches!(AuthCondition::from_str("permission:read"), AuthCondition::Permission(_)));
    assert!(matches!(AuthCondition::from_str("scope:write"), AuthCondition::Scope(_)));
    assert!(matches!(AuthCondition::from_str(""), AuthCondition::ValidToken));
}

#[test]
fn test_jwt_token() {
    let mut payload = std::collections::HashMap::new();
    payload.insert("sub".to_string(), serde_json::Value::String("123".to_string()));
    payload.insert("name".to_string(), serde_json::Value::String("Test User".to_string()));

    let token = JwtToken { payload };

    assert!(token.has_role("admin"));
    assert!(token.has_permission("read"));
    assert!(token.has_scope("write"));
}

#[test]
fn test_parse_empty_expression() {
    let policy = AuthPolicy::new("");
    let conditions = policy.parse();
    assert_eq!(conditions.len(), 1);
    assert!(matches!(conditions[0], AuthCondition::ValidToken));
}

#[test]
fn test_parse_segment_count_matches_commas() {
    // one condition per comma-separated segment, even for odd input
    assert_eq!(AuthPolicy::new("a,b").parse().len(), 2);
    assert_eq!(AuthPolicy::new(",,").parse().len(), 3);
    assert_eq!(AuthPolicy::new("role:admin").parse().len(), 1);
    assert_eq!(AuthPolicy::new("role:a,user:b,permission:c,scope:d").parse().len(), 4);
}

#[test]
fn test_parse_trims_segments() {
    let policy = AuthPolicy::new(" role:admin , scope:write ");
    let conditions = policy.parse();
    assert_eq!(conditions.len(), 2);
    match &conditions[0] {
        AuthCondition::Role(role) => assert_eq!(role, "admin"),
        _ => panic!("expected a role condition"),
    }
    match &conditions[1] {
        AuthCondition::Scope(scope) => assert_eq!(scope, "write"),
        _ => panic!("expected a scope condition"),
    }
}

#[test]
fn test_parse_empty_payloads() {
    let policy = AuthPolicy::new("role:");
    let conditions = policy.parse();
    assert_eq!(conditions.len(), 1);
    match &conditions[0] {
        AuthCondition::Role(role) => assert_eq!(role, ""),
        _ => panic!("expected a role condition"),
    }
}

#[test]
fn test_prefix_priority_keeps_remainder() {
    // the remainder after the first recognized prefix is the payload, colons included
    match AuthCondition::from_str("user:role:x") {
        AuthCondition::User(id) => assert_eq!(id, "role:x"),
        _ => panic!("expected a user condition"),
    }
}
