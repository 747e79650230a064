use stonehm::create_operation_with_params_and_responses;
use stonehm::create_operation_with_responses;
use stonehm::DocumentedHandler;
use stonehm::DocumentedRouter;
use stonehm::HandlerDocumentation;
use stonehm::HandlerMetadata;
use stonehm::Method;
use stonehm::ResponseDoc;
use stonehm::SchemaOrRef;

fn empty_docs() -> HandlerDocumentation {
    HandlerDocumentation {
        summary: None,
        description: None,
        parameters: vec![],
        request_body: None,
        request_body_type: None,
        response_type: None,
        error_type: None,
        responses: vec![],
    }
}

#[test]
fn test_documented_router_creation() {
    let router = DocumentedRouter::new("Test API", "1.0.0");
    let spec = router.openapi_spec();

    assert_eq!(spec.openapi, "3.0.3");
    assert_eq!(spec.info.title, "Test API");
    assert_eq!(spec.info.version, "1.0.0");
}

#[test]
fn test_route_registration() {
    let router = DocumentedRouter::new("Test API", "1.0.0").get("/test", "test_handler");

    let spec = router.openapi_spec();

    assert!(spec.contains_path("/test"));

    if let Some(path_item) = spec.get_path("/test") {
        assert!(path_item.get.is_some());

        if let Some(operation) = &path_item.get {
            assert_eq!(operation.operation_id, Some("get_test".to_string()));
        }
    }
}

#[test]
fn test_multiple_routes() {
    let router = DocumentedRouter::new("Test API", "1.0.0")
        .get("/users", "test_handler")
        .post("/users", "test_handler")
        .get("/users/:id", "test_handler_with_path");

    let spec = router.openapi_spec();

    assert!(spec.contains_path("/users"));
    assert!(spec.contains_path("/users/{id}"));

    if let Some(path_item) = spec.get_path("/users") {
        assert!(path_item.get.is_some());
        assert!(path_item.post.is_some());
    }

    if let Some(path_item) = spec.get_path("/users/{id}") {
        assert!(path_item.get.is_some());
    }
}

#[test]
fn test_all_http_methods() {
    let router = DocumentedRouter::new("Test API", "1.0.0")
        .get("/get", "test_handler")
        .post("/post", "test_handler")
        .put("/put", "test_handler")
        .delete("/delete", "test_handler")
        .patch("/patch", "test_handler");

    let spec = router.openapi_spec();

    assert!(spec.contains_path("/get"));
    assert!(spec.contains_path("/post"));
    assert!(spec.contains_path("/put"));
    assert!(spec.contains_path("/delete"));
    assert!(spec.contains_path("/patch"));

    if let Some(path_item) = spec.get_path("/get") {
        if let Some(op) = &path_item.get {
            assert_eq!(op.operation_id, Some("get_get".to_string()));
        }
    }

    if let Some(path_item) = spec.get_path("/post") {
        if let Some(op) = &path_item.post {
            assert_eq!(op.operation_id, Some("post_post".to_string()));
        }
    }
}

#[test]
fn test_operation_creation_with_responses() {
    let responses = vec![
        ResponseDoc {
            status_code: 200,
            description: "Success".to_string(),
            content: None,
            examples: None,
        },
        ResponseDoc {
            status_code: 404,
            description: "Not found".to_string(),
            content: None,
            examples: None,
        },
    ];

    let operation = create_operation_with_responses(
        "/users/:id",
        Method::Get,
        Some("Get user"),
        Some("Get user by ID"),
        &responses,
    );

    assert_eq!(operation.operation_id, Some("get_users_by_id".to_string()));
    assert_eq!(operation.summary, Some("Get user".to_string()));
    assert_eq!(operation.description, Some("Get user by ID".to_string()));

    assert!(operation.has_response(200));
    assert!(operation.has_response(404));

    if let Some(response) = operation.get_response(200) {
        assert_eq!(response.description, "Success");
    }

    if let Some(response) = operation.get_response(404) {
        assert_eq!(response.description, "Not found");
    }
}

#[test]
fn test_operation_creation_without_responses() {
    let responses: Vec<ResponseDoc> = vec![];
    let operation =
        create_operation_with_responses("/test", Method::Post, None, None, &responses);

    assert_eq!(operation.operation_id, Some("post_test".to_string()));
    assert_eq!(operation.summary, Some("POST /test".to_string()));
    assert_eq!(operation.description, None);

    assert!(operation.has_response(200));

    if let Some(response) = operation.get_response(200) {
        assert_eq!(response.description, "Successful response");
    }
}

fn test_documented_handler_docs() -> HandlerDocumentation {
    HandlerDocumentation {
        summary: Some("Test handler with documentation".to_string()),
        description: Some(
            "This is a test handler with documentation for testing purposes.".to_string(),
        ),
        parameters: vec![],
        request_body: None,
        request_body_type: None,
        response_type: None,
        error_type: None,
        responses: vec![
            ResponseDoc {
                status_code: 200,
                description: "Test successful".to_string(),
                content: None,
                examples: None,
            },
            ResponseDoc {
                status_code: 400,
                description: "Test failed".to_string(),
                content: None,
                examples: None,
            },
        ],
    }
}

#[test]
fn test_handler_documentation_lookup() {
    let mut router = DocumentedRouter::new("Test API", "1.0.0");
    router.register_handler_docs("test_documented_handler", test_documented_handler_docs());

    let docs = router.get_docs_for_function("test_documented_handler");

    assert_eq!(docs.summary, Some("Test handler with documentation".to_string()));
    assert_eq!(
        docs.description,
        Some("This is a test handler with documentation for testing purposes.".to_string())
    );
    assert_eq!(docs.parameters.len(), 0);
    assert!(docs.request_body.is_none());
    assert_eq!(docs.responses.len(), 2);
    assert_eq!(docs.responses[0].status_code, 200);
    assert_eq!(docs.responses[0].description, "Test successful");
    assert_eq!(docs.responses[1].status_code, 400);
    assert_eq!(docs.responses[1].description, "Test failed");
}

#[test]
fn test_handler_documentation_lookup_unknown() {
    let router = DocumentedRouter::new("Test API", "1.0.0");

    let docs = router.get_docs_for_function("unknown_handler");

    assert_eq!(docs.summary, None);
    assert_eq!(docs.description, None);
    assert_eq!(docs.parameters.len(), 0);
    assert!(docs.request_body.is_none());
    assert_eq!(docs.responses.len(), 0);
}

#[test]
fn test_handler_lookup_strips_type_path() {
    let mut router = DocumentedRouter::new("Test API", "1.0.0");
    router.register_handler_docs("my_handler", test_documented_handler_docs());

    let docs = router.lookup_handler_docs("app::handlers::my_handler");
    assert_eq!(docs.summary, Some("Test handler with documentation".to_string()));

    let docs = router.lookup_handler_docs("app::handlers::my_handler{{closure}}");
    assert_eq!(docs.summary, Some("Test handler with documentation".to_string()));
}

#[test]
fn test_response_doc_creation() {
    let response_doc = ResponseDoc {
        status_code: 201,
        description: "Created successfully".to_string(),
        content: None,
        examples: None,
    };

    assert_eq!(response_doc.status_code, 201);
    assert_eq!(response_doc.description, "Created successfully");
}

#[test]
fn test_handler_metadata_creation() {
    let metadata = HandlerMetadata {
        summary: Some("Test summary"),
        description: Some("Test description"),
    };

    assert_eq!(metadata.summary, Some("Test summary"));
    assert_eq!(metadata.description, Some("Test description"));
}

struct TestHandler;

impl DocumentedHandler for TestHandler {}

#[test]
fn test_documented_handler_default() {
    let metadata = TestHandler::metadata();
    assert_eq!(metadata.summary, None);
    assert_eq!(metadata.description, None);
}

fn assert_ref(schema: &Option<SchemaOrRef>, expected: &str) {
    match schema {
        Some(SchemaOrRef::Ref(r)) => assert_eq!(r, expected),
        _ => panic!("expected a schema reference to {}", expected),
    }
}

#[test]
fn test_default_response_backfill() {
    // A known response type and no documented responses: exactly one 200
    // whose content references the type.
    let mut docs = empty_docs();
    docs.response_type = Some("UserResponse".to_string());
    let op = create_operation_with_params_and_responses(
        "/users",
        Method::Get,
        None,
        None,
        &docs.parameters,
        &docs.request_body,
        &docs.response_type,
        &docs.error_type,
        &docs.responses,
    );
    assert_eq!(op.responses.len(), 1);
    assert_eq!(op.responses[0].status, 200);
    assert_eq!(op.responses[0].response.description, "Successful response");
    assert_eq!(op.responses[0].response.content.len(), 1);
    assert_eq!(op.responses[0].response.content[0].media_type, "application/json");
    assert_ref(
        &op.responses[0].response.content[0].media.schema,
        "#/components/schemas/UserResponse",
    );

    // An error type adds exactly a 400 and a 500 referencing its schema.
    docs.error_type = Some("ApiError".to_string());
    let op = create_operation_with_params_and_responses(
        "/users",
        Method::Get,
        None,
        None,
        &docs.parameters,
        &docs.request_body,
        &docs.response_type,
        &docs.error_type,
        &docs.responses,
    );
    assert_eq!(op.responses.len(), 3);
    assert_eq!(op.responses[0].status, 200);
    assert_eq!(op.responses[1].status, 400);
    assert_eq!(op.responses[1].response.description, "Bad Request");
    assert_ref(
        &op.responses[1].response.content[0].media.schema,
        "#/components/schemas/ApiError",
    );
    assert_eq!(op.responses[2].status, 500);
    assert_eq!(op.responses[2].response.description, "Internal Server Error");
}

#[test]
fn test_asymmetric_error_backfill() {
    let documented = vec![ResponseDoc {
        status_code: 200,
        description: "Ok".to_string(),
        content: None,
        examples: None,
    }];
    let mut docs = empty_docs();
    docs.error_type = Some("ApiError".to_string());
    docs.responses = documented;

    // GET on a parameterless path: no 404, no 401, no 403; 400 and 500
    // are synthesized.
    let op = create_operation_with_params_and_responses(
        "/health",
        Method::Get,
        None,
        None,
        &docs.parameters,
        &docs.request_body,
        &docs.response_type,
        &docs.error_type,
        &docs.responses,
    );
    assert!(!op.has_response(404));
    assert!(!op.has_response(401));
    assert!(!op.has_response(403));
    assert!(op.has_response(400));
    assert!(op.has_response(500));

    // DELETE on a parameterized path: 404 is synthesized, and so are 401
    // and 403.
    let op = create_operation_with_params_and_responses(
        "/users/:id",
        Method::Delete,
        None,
        None,
        &docs.parameters,
        &docs.request_body,
        &docs.response_type,
        &docs.error_type,
        &docs.responses,
    );
    assert!(op.has_response(404));
    assert!(op.has_response(401));
    assert!(op.has_response(403));
    assert!(op.has_response(400));
    assert!(op.has_response(500));
}

#[test]
fn test_documented_error_responses_suppress_backfill() {
    let mut docs = empty_docs();
    docs.error_type = Some("ApiError".to_string());
    docs.responses = vec![
        ResponseDoc {
            status_code: 200,
            description: "Ok".to_string(),
            content: None,
            examples: None,
        },
        ResponseDoc {
            status_code: 409,
            description: "Conflict".to_string(),
            content: None,
            examples: None,
        },
    ];
    let op = create_operation_with_params_and_responses(
        "/users/:id",
        Method::Delete,
        None,
        None,
        &docs.parameters,
        &docs.request_body,
        &docs.response_type,
        &docs.error_type,
        &docs.responses,
    );
    // A documented response at or above 400 turns the backfill off.
    assert!(op.has_response(409));
    assert!(!op.has_response(400));
    assert!(!op.has_response(401));
    assert!(!op.has_response(403));
    assert!(!op.has_response(404));
    assert!(!op.has_response(500));
}

#[test]
fn test_duplicate_status_last_write_wins() {
    let mut docs = empty_docs();
    docs.responses = vec![
        ResponseDoc {
            status_code: 200,
            description: "first".to_string(),
            content: None,
            examples: None,
        },
        ResponseDoc {
            status_code: 200,
            description: "second".to_string(),
            content: None,
            examples: None,
        },
    ];
    let op = create_operation_with_params_and_responses(
        "/dup",
        Method::Get,
        None,
        None,
        &docs.parameters,
        &docs.request_body,
        &docs.response_type,
        &docs.error_type,
        &docs.responses,
    );
    assert_eq!(op.responses.len(), 1);
    assert_eq!(op.responses[0].status, 200);
    assert_eq!(op.responses[0].response.description, "second");
}

#[test]
fn test_schema_registration_and_fallback() {
    let mut router = DocumentedRouter::new("Test API", "1.0.0");
    let fields = vec![
        stonehm::FieldDef {
            name: "id".to_string(),
            declared_type: "u32".to_string(),
        },
        stonehm::FieldDef {
            name: "name".to_string(),
            declared_type: "String".to_string(),
        },
    ];
    router.register_type_schema("User", stonehm::synthesize_struct_schema(&fields));

    let mut docs = empty_docs();
    docs.response_type = Some("User".to_string());
    docs.error_type = Some("Mystery".to_string());
    router.register_handler_docs("get_user", docs);

    let router = router.get("/users/:id", "get_user");
    let spec = router.openapi_spec();
    let components = spec.components.as_ref().expect("components present");

    // The registered type keeps its synthesized schema.
    let user = components.get_schema("User").expect("User registered");
    assert_eq!(user.schema_type, Some("object".to_string()));
    let props = user.properties.as_ref().unwrap();
    assert_eq!(props.len(), 2);
    assert_eq!(props[0].name, "id");
    assert_eq!(props[0].schema_type, "integer");

    // A referenced type with no registered schema falls back to a generic
    // empty object, so every $ref still resolves.
    let mystery = components.get_schema("Mystery").expect("fallback registered");
    assert_eq!(mystery.schema_type, Some("object".to_string()));
    assert!(mystery.properties.is_none());
}

#[test]
fn test_registered_route_snapshot() {
    let mut router = DocumentedRouter::new("Test API", "1.0.0");
    router.register_handler_docs("h", test_documented_handler_docs());
    let router = router.get("/test", "h");
    assert_eq!(router.routes.len(), 1);
    assert_eq!(router.routes[0].path, "/test");
    assert_eq!(router.routes[0].summary, Some("Test handler with documentation".to_string()));
    assert_eq!(router.routes[0].responses.len(), 2);
}

#[test]
fn test_undocumented_route_still_registered() {
    let router = DocumentedRouter::new("Test API", "1.0.0").route("/bare");
    let spec = router.openapi_spec();
    assert!(spec.contains_path("/bare"));
    if let Some(item) = spec.get_path("/bare") {
        let op = item.get.as_ref().expect("GET operation present");
        assert_eq!(op.summary, Some("GET /bare".to_string()));
        assert!(op.has_response(200));
    }
}

#[test]
fn test_full_pipeline_from_doc_lines_and_signature() {
    // The whole front-end flow by hand: parse the doc comment, infer the
    // types from the signature shape, merge, register, build the spec.
    let doc_lines: Vec<String> = [
        " Create user",
        " ",
        " Creates a user account.",
        " ",
        " # Request Body",
        " Content-Type: application/json",
        " User data for creation.",
        " ",
        " # Responses",
        " - 201: User created",
    ]
    .iter()
    .map(|s| s.to_string())
    .collect();
    let parsed = stonehm::extract_docs(&doc_lines);

    let params = vec![stonehm::TypeExpr {
        name: "Json".to_string(),
        args: vec![stonehm::TypeArg {
            name: "CreateUserRequest".to_string(),
            args: vec![],
        }],
    }];
    let ret = Some(stonehm::TypeExpr {
        name: "Result".to_string(),
        args: vec![
            stonehm::TypeArg {
                name: "Json".to_string(),
                args: vec!["User".to_string()],
            },
            stonehm::TypeArg {
                name: "ApiError".to_string(),
                args: vec![],
            },
        ],
    });
    let body_type = stonehm::extract_request_body_type(&params);
    let (resp_type, err_type) = stonehm::extract_response_and_error_types(&ret);
    assert_eq!(body_type, Some("CreateUserRequest".to_string()));
    assert_eq!(resp_type, Some("User".to_string()));
    assert_eq!(err_type, Some("ApiError".to_string()));

    let docs = HandlerDocumentation::from_parts(parsed, body_type, resp_type, err_type);
    assert_eq!(docs.summary, Some("Create user".to_string()));
    assert_eq!(
        docs.request_body.as_ref().unwrap().schema_type,
        Some("CreateUserRequest".to_string())
    );

    let mut router = DocumentedRouter::new("Test API", "1.0.0");
    router.register_handler_docs("create_user", docs);
    let router = router.post("/users", "create_user");
    let spec = router.openapi_spec();

    let item = spec.get_path("/users").expect("path registered");
    let op = item.post.as_ref().expect("POST operation");
    assert_eq!(op.operation_id, Some("post_users".to_string()));
    assert_eq!(op.summary, Some("Create user".to_string()));
    let body = op.request_body.as_ref().expect("request body present");
    assert_eq!(body.content[0].media_type, "application/json");
    assert!(op.has_response(201));

    // All three referenced types got component schemas (fallbacks here,
    // since none was registered).
    let components = spec.components.as_ref().unwrap();
    assert!(components.contains_schema("CreateUserRequest"));
    assert!(components.contains_schema("User"));
    assert!(components.contains_schema("ApiError"));
}
