use uni_routing::routing::{RouteInfo, HttpMethod};
use uni_routing::auth::AuthPolicy;

#[test]
fn test_macro_route_info() {
    assert!(true);
}

#[test]
fn test_route_info_manual() {
    let route = RouteInfo {
        path: "/api/test".to_string(),
        method: HttpMethod::GET,
        auth_policy: Some(AuthPolicy::new("roles:admin")),
        description: Some("Test endpoint".to_string()),
    };

    assert_eq!(route.path, "/api/test");
    assert!(matches!(route.method, HttpMethod::GET));
    assert_eq!(route.auth_policy.unwrap().policy_expr, "roles:admin");
    assert_eq!(route.description.unwrap(), "Test endpoint");
}
