use uni_routing::auth::{AuthPolicy, AuthCondition, JwtToken};
use uni_routing::routing::{RouteInfo, HttpMethod};
use uni_routing::middleware::{AuthMiddleware, MiddlewareContext, Middleware};
use uni_routing::Error;

#[test]
fn test_complete_auth_flow() {
    let policy = AuthPolicy::new("role:admin,permission:read,scope:write");

    let conditions = policy.parse();
    assert_eq!(conditions.len(), 3);

    assert!(matches!(conditions[0], AuthCondition::Role(_)));
    assert!(matches!(conditions[1], AuthCondition::Permission(_)));
    assert!(matches!(conditions[2], AuthCondition::Scope(_)));

    let mut payload = std::collections::HashMap::new();
    payload.insert("sub".to_string(), serde_json::Value::String("123".to_string()));
    payload.insert("name".to_string(), serde_json::Value::String("Test User".to_string()));
    let token = JwtToken { payload };

    assert!(token.has_role("admin"));
    assert!(token.has_permission("read"));
    assert!(token.has_scope("write"));
}

#[test]
fn test_middleware_chain_integration() {
    let auth_policy = AuthPolicy::new("role:admin");
    let middleware = AuthMiddleware::new(auth_policy);

    let mut context = MiddlewareContext {
        token: None,
        path: "/api/users".to_string(),
        method: "GET".to_string(),
    };

    let result = middleware.handle(&mut context);
    assert!(matches!(result, Err(Error::Unauthorized)));

    let mut payload = std::collections::HashMap::new();
    payload.insert("sub".to_string(), serde_json::Value::String("123".to_string()));
    let token = JwtToken { payload };

    context.token = Some(token);
    let result = middleware.handle(&mut context);
    assert!(result.is_ok());
}

#[test]
fn test_route_info_comprehensive() {
    let route = RouteInfo {
        path: "/api/users/{id}".to_string(),
        method: HttpMethod::GET,
        auth_policy: Some(AuthPolicy::new("role:admin,permission:read")),
        description: Some("Get user by ID".to_string()),
    };

    assert_eq!(route.path, "/api/users/{id}");
    assert!(matches!(route.method, HttpMethod::GET));
    assert!(route.auth_policy.is_some());
    assert!(route.description.is_some());

    let policy = route.auth_policy.unwrap();
    assert_eq!(policy.policy_expr, "role:admin,permission:read");

    let description = route.description.unwrap();
    assert_eq!(description, "Get user by ID");
}

#[test]
fn test_error_handling() {
    let error = Error::Unauthorized;
    assert_eq!(error.message(), "Unauthorized");

    let error = Error::Other("Custom error".to_string());
    assert_eq!(error.message(), "Custom error");
}

#[test]
fn test_http_method_conversions() {
    assert!(matches!(HttpMethod::from_str("GET"), HttpMethod::GET));
    assert!(matches!(HttpMethod::from_str("POST"), HttpMethod::POST));
    assert!(matches!(HttpMethod::from_str("PUT"), HttpMethod::PUT));
    assert!(matches!(HttpMethod::from_str("DELETE"), HttpMethod::DELETE));
    assert!(matches!(HttpMethod::from_str("PATCH"), HttpMethod::PATCH));

    assert!(matches!(HttpMethod::from_str("get"), HttpMethod::GET));
    assert!(matches!(HttpMethod::from_str("post"), HttpMethod::POST));

    assert!(matches!(HttpMethod::from_str("INVALID"), HttpMethod::GET));
}

#[test]
fn test_auth_condition_edge_cases() {
    assert!(matches!(AuthCondition::from_str(""), AuthCondition::ValidToken));

    assert!(matches!(AuthCondition::from_str("invalid:prefix"), AuthCondition::ValidToken));

    assert!(matches!(AuthCondition::from_str("role:"), AuthCondition::Role(_)));
    assert!(matches!(AuthCondition::from_str("user:"), AuthCondition::User(_)));
    assert!(matches!(AuthCondition::from_str("permission:"), AuthCondition::Permission(_)));
    assert!(matches!(AuthCondition::from_str("scope:"), AuthCondition::Scope(_)));
}

#[test]
fn test_route_registration_round_trip() {
    // every registration input reads back unmodified from the descriptor
    let route = RouteInfo::new(
        "/api/items/{id}",
        "delete",
        Some("role:admin"),
        Some("Remove one item"),
    );
    assert_eq!(route.path, "/api/items/{id}");
    assert!(matches!(route.method, HttpMethod::DELETE));
    assert_eq!(route.auth_policy.unwrap().policy_expr, "role:admin");
    assert_eq!(route.description.unwrap(), "Remove one item");

    let bare = RouteInfo::new("/health", "GET", None, None);
    assert_eq!(bare.path, "/health");
    assert!(matches!(bare.method, HttpMethod::GET));
    assert!(bare.auth_policy.is_none());
    assert!(bare.description.is_none());
}
