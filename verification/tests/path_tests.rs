use stonehm::convert_path_params;
use stonehm::openapi_route_paths;
use stonehm::operation_id;
use stonehm::DocumentedRouter;
use stonehm::Method;

#[test]
fn test_path_parameter_conversion() {
    assert_eq!(convert_path_params("/users/:id"), "/users/{id}");
    assert_eq!(
        convert_path_params("/users/:id/posts/:post_id"),
        "/users/{id}/posts/{post_id}"
    );
    assert_eq!(convert_path_params("/static"), "/static");
    assert_eq!(convert_path_params("/users/:id/"), "/users/{id}/");
}

#[test]
fn test_complex_path_conversion() {
    let test_cases = vec![
        (
            "/users/:user_id/posts/:post_id/comments/:comment_id",
            "/users/{user_id}/posts/{post_id}/comments/{comment_id}",
        ),
        ("/api/v1/:version/users/:id", "/api/v1/{version}/users/{id}"),
        (
            "/:category/:subcategory/:item",
            "/{category}/{subcategory}/{item}",
        ),
    ];

    for (input, expected) in test_cases {
        assert_eq!(convert_path_params(input), expected);
    }
}

#[test]
fn test_translation_identity_without_sigil() {
    // Templates without the `:` sigil pass through unchanged.
    for p in ["/static", "", "/", "/a/b/c", "/users/{id}", "/x-y_z.json"] {
        assert_eq!(convert_path_params(p), p);
    }
}

#[test]
fn test_default_summary_format() {
    assert_eq!(stonehm::default_summary(Method::Post, "/test"), "POST /test");
    assert_eq!(stonehm::default_summary(Method::Get, "/users/:id"), "GET /users/:id");
}

#[test]
fn test_operation_id_generation() {
    assert_eq!(operation_id(Method::Get, "/users/:id"), "get_users_by_id");
    assert_eq!(operation_id(Method::Post, "/test"), "post_test");
    assert_eq!(operation_id(Method::Delete, "/users/:id"), "delete_users_by_id");
    assert_eq!(operation_id(Method::Put, "/"), "put_");
}

#[test]
fn test_with_openapi_routes_default_prefix() {
    let router = DocumentedRouter::new("Test API", "1.0.0").get("/test", "test_handler");
    let (json_path, yaml_path) = openapi_route_paths("/openapi");
    assert_eq!(json_path, "/openapi.json");
    assert_eq!(yaml_path, "/openapi.yaml");
    assert!(router.openapi_spec().contains_path("/test"));
}

#[test]
fn test_with_openapi_routes_custom_prefix() {
    let router = DocumentedRouter::new("Test API", "1.0.0").get("/test", "test_handler");
    let (json_path, yaml_path) = openapi_route_paths("/api/v1/docs");
    assert_eq!(json_path, "/api/v1/docs.json");
    assert_eq!(yaml_path, "/api/v1/docs.yaml");
    assert!(router.openapi_spec().contains_path("/test"));
}

#[test]
fn test_custom_prefix_normalization() {
    let test_cases = vec![
        ("/api/docs", "/api/docs.json", "/api/docs.yaml"),
        ("api/docs", "/api/docs.json", "/api/docs.yaml"),
        ("/api/docs/", "/api/docs.json", "/api/docs.yaml"),
        ("api/docs/", "/api/docs.json", "/api/docs.yaml"),
        ("/openapi", "/openapi.json", "/openapi.yaml"),
        ("v1/spec", "/v1/spec.json", "/v1/spec.yaml"),
    ];

    for (input_prefix, expected_json, expected_yaml) in test_cases {
        let (json_path, yaml_path) = openapi_route_paths(input_prefix);
        assert_eq!(json_path, expected_json);
        assert_eq!(yaml_path, expected_yaml);
    }
    let router = DocumentedRouter::new("Test API", "1.0.0").get("/test", "test_handler");
    assert!(router.openapi_spec().contains_path("/test"));
}

#[test]
fn test_empty_prefix_collapses() {
    let (json_path, yaml_path) = openapi_route_paths("");
    assert_eq!(json_path, ".json");
    assert_eq!(yaml_path, ".yaml");
}
