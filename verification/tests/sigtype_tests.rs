use stonehm::extract_request_body_type;
use stonehm::extract_response_and_error_types;
use stonehm::sanitize_type_for_identifier;
use stonehm::TypeArg;
use stonehm::TypeExpr;

fn generic(name: &str, args: Vec<TypeArg>) -> TypeExpr {
    TypeExpr {
        name: name.to_string(),
        args,
    }
}

fn arg(name: &str) -> TypeArg {
    TypeArg {
        name: name.to_string(),
        args: vec![],
    }
}

fn arg_generic(name: &str, inner: &[&str]) -> TypeArg {
    TypeArg {
        name: name.to_string(),
        args: inner.iter().map(|s| s.to_string()).collect(),
    }
}

#[test]
fn test_extract_request_body_type() {
    // Json<T> extraction.
    let inputs = vec![generic("Json", vec![arg("CreateUserRequest")])];
    let result = extract_request_body_type(&inputs);
    assert_eq!(result, Some("CreateUserRequest".to_string()));

    // With multiple parameters: Path<u32>, Json<UpdateRequest>.
    let inputs = vec![
        generic("Path", vec![arg("u32")]),
        generic("Json", vec![arg("UpdateRequest")]),
    ];
    let result = extract_request_body_type(&inputs);
    assert_eq!(result, Some("UpdateRequest".to_string()));

    // Without a Json parameter.
    let inputs = vec![generic("Path", vec![arg("u32")])];
    let result = extract_request_body_type(&inputs);
    assert_eq!(result, None);
}

#[test]
fn test_extract_response_and_error_types() {
    // Result<Json<UserResponse>, ApiError>.
    let output = Some(generic(
        "Result",
        vec![arg_generic("Json", &["UserResponse"]), arg("ApiError")],
    ));
    let (response_type, error_type) = extract_response_and_error_types(&output);
    assert_eq!(response_type, Some("UserResponse".to_string()));
    assert_eq!(error_type, Some("ApiError".to_string()));

    // Json<HealthResponse> without Result.
    let output = Some(generic("Json", vec![arg("HealthResponse")]));
    let (response_type, error_type) = extract_response_and_error_types(&output);
    assert_eq!(response_type, Some("HealthResponse".to_string()));
    assert_eq!(error_type, None);

    // Result with a tuple success type: the tuple is not a Json wrapper,
    // so no response type is inferred; the error type still is.
    let output = Some(generic(
        "Result",
        vec![
            TypeArg {
                name: "".to_string(),
                args: vec![],
            },
            arg("CreateError"),
        ],
    ));
    let (response_type, error_type) = extract_response_and_error_types(&output);
    assert_eq!(response_type, None);
    assert_eq!(error_type, Some("CreateError".to_string()));

    // No declared return type.
    let output: Option<TypeExpr> = None;
    let (response_type, error_type) = extract_response_and_error_types(&output);
    assert_eq!(response_type, None);
    assert_eq!(error_type, None);
}

#[test]
fn test_first_json_parameter_wins() {
    let inputs = vec![
        generic("Json", vec![arg("First")]),
        generic("Json", vec![arg("Second")]),
    ];
    assert_eq!(extract_request_body_type(&inputs), Some("First".to_string()));
}

#[test]
fn test_opaque_types_match_nothing() {
    let inputs = vec![TypeExpr::plain("State"), TypeExpr::opaque()];
    assert_eq!(extract_request_body_type(&inputs), None);

    let output = Some(TypeExpr::plain("StatusCode"));
    let (response_type, error_type) = extract_response_and_error_types(&output);
    assert_eq!(response_type, None);
    assert_eq!(error_type, None);

    let inputs = vec![TypeExpr {
        name: "Json".to_string(),
        args: vec![TypeArg::plain("Payload")],
    }];
    assert_eq!(extract_request_body_type(&inputs), Some("Payload".to_string()));
}

#[test]
fn test_sanitize_type_for_identifier() {
    assert_eq!(sanitize_type_for_identifier("Vec<String>"), "Vec_String_");
    assert_eq!(
        sanitize_type_for_identifier("HashMap<String, Value>"),
        "HashMap_String_Value_"
    );
    assert_eq!(sanitize_type_for_identifier("Option<User>"), "Option_User_");
    assert_eq!(sanitize_type_for_identifier("Result<T, E>"), "Result_T_E_");
    assert_eq!(sanitize_type_for_identifier("&str"), "_str");
    assert_eq!(sanitize_type_for_identifier("*const u8"), "_const_u8");
}
