use stonehm::extract_docs;

fn lines(xs: &[&str]) -> Vec<String> {
    xs.iter().map(|s| s.to_string()).collect()
}

#[test]
fn test_extract_docs_simple() {
    let docs = extract_docs(&lines(&[
        " Simple handler",
        " ",
        " This is a simple test handler",
    ]));

    assert_eq!(docs.summary, Some("Simple handler".to_string()));
    assert_eq!(docs.description, Some("This is a simple test handler".to_string()));
}

#[test]
fn test_extract_docs_with_parameters() {
    let docs = extract_docs(&lines(&[
        " Get user by ID",
        " ",
        " Retrieves user information",
        " ",
        " # Parameters",
        " - id (path): User ID",
        " - include_deleted (query): Include deleted users",
    ]));

    assert_eq!(docs.summary, Some("Get user by ID".to_string()));
    assert_eq!(docs.parameters.len(), 2);
    assert_eq!(docs.parameters[0].name, "id");
    assert_eq!(docs.parameters[0].param_type, "path");
    assert_eq!(docs.parameters[1].name, "include_deleted");
    assert_eq!(docs.parameters[1].param_type, "query");
}

#[test]
fn test_extract_docs_with_request_body() {
    let docs = extract_docs(&lines(&[
        " Create user",
        " ",
        " # Request Body",
        " Content-Type: application/json",
        " User data for creation",
        " - name (string): Full name",
        " - email (string): Email address",
    ]));

    assert!(docs.request_body.is_some());

    let body = docs.request_body.unwrap();
    assert_eq!(body.content_type, "application/json");
    assert_eq!(
        body.description,
        "User data for creation - name (string): Full name - email (string): Email address"
    );
}

#[test]
fn test_extract_docs_with_responses() {
    let docs = extract_docs(&lines(&[
        " Delete user",
        " ",
        " # Responses",
        " - 204: User deleted",
        " - 404: User not found",
        " - 403: Access denied",
    ]));

    assert_eq!(docs.responses.len(), 3);

    assert_eq!(docs.responses[0].status_code, 204);
    assert_eq!(docs.responses[0].description, "User deleted");

    assert_eq!(docs.responses[1].status_code, 404);
    assert_eq!(docs.responses[1].description, "User not found");

    assert_eq!(docs.responses[2].status_code, 403);
    assert_eq!(docs.responses[2].description, "Access denied");
}

#[test]
fn test_extract_docs_complex_responses() {
    let docs = extract_docs(&lines(&[
        " Complex endpoint",
        " ",
        " # Responses",
        " - 200:",
        "   description: Success",
        "   content:",
        "     application/json:",
        "       schema: UserResponse",
        " - 404:",
        "   description: Not found",
    ]));

    assert_eq!(docs.responses.len(), 2);

    let resp200 = &docs.responses[0];
    assert_eq!(resp200.status_code, 200);
    assert_eq!(resp200.description, "Success");
    assert!(resp200.content.is_some());

    let content = resp200.content.as_ref().unwrap();
    assert_eq!(content.media_type, "application/json");
    assert_eq!(content.schema, Some("UserResponse".to_string()));

    let resp404 = &docs.responses[1];
    assert_eq!(resp404.status_code, 404);
    assert_eq!(resp404.description, "Not found");
}

#[test]
fn test_extract_docs_with_examples() {
    let docs = extract_docs(&lines(&[
        " Test endpoint",
        " ",
        " # Responses",
        " - 200:",
        "   description: Success",
        "   examples:",
        "     - name: success_example",
        "       summary: Successful response",
        "       value: {\"status\": \"ok\"}",
    ]));

    assert_eq!(docs.responses.len(), 1);

    let resp = &docs.responses[0];
    assert!(resp.examples.is_some());

    let examples = resp.examples.as_ref().unwrap();
    assert_eq!(examples.len(), 1);

    let example = &examples[0];
    assert_eq!(example.name, "success_example");
    assert_eq!(example.summary, Some("Successful response".to_string()));
    assert_eq!(example.value, "{\"status\": \"ok\"}");
}

#[test]
fn test_extract_docs_empty() {
    let docs = extract_docs(&Vec::new());

    assert_eq!(docs.summary, None);
    assert_eq!(docs.description, None);
    assert!(docs.parameters.is_empty());
    assert!(docs.request_body.is_none());
    assert!(docs.responses.is_empty());
}

#[test]
fn test_summary_is_always_first_line() {
    // Even a line that looks like a section header becomes the summary
    // when it is the first non-empty line.
    let docs = extract_docs(&lines(&["# Responses", "- 200: Ok"]));
    assert_eq!(docs.summary, Some("# Responses".to_string()));
    assert!(docs.responses.is_empty());

    let docs = extract_docs(&lines(&["", "  ", "actual summary", "rest"]));
    assert_eq!(docs.summary, Some("actual summary".to_string()));
    assert_eq!(docs.description, Some("rest".to_string()));
}

#[test]
fn test_simple_response_sequence() {
    // Blank lines are filtered and the remaining response lines come out
    // in order, exactly one response per documented line.
    let docs = extract_docs(&lines(&[
        "Delete user",
        "",
        "# Responses",
        "- 204: User deleted",
        "- 404: User not found",
    ]));
    assert_eq!(docs.responses.len(), 2);
    assert_eq!(docs.responses[0].status_code, 204);
    assert_eq!(docs.responses[0].description, "User deleted");
    assert_eq!(docs.responses[1].status_code, 404);
    assert_eq!(docs.responses[1].description, "User not found");
}

#[test]
fn test_malformed_parameter_lines_dropped() {
    let docs = extract_docs(&lines(&[
        "Summary",
        "# Parameters",
        "- no delimiters here",
        "- missing (paren: text",
        "- good (query): kept",
        "not a list item",
    ]));
    assert_eq!(docs.parameters.len(), 1);
    assert_eq!(docs.parameters[0].name, "good");
    assert_eq!(docs.parameters[0].param_type, "query");
    assert_eq!(docs.parameters[0].description, "kept");
}

#[test]
fn test_status_code_must_fit_u16() {
    let docs = extract_docs(&lines(&[
        "Summary",
        "# Responses",
        "- 65536: too large, dropped",
        "- 65535: kept",
        "- abc: no status, dropped",
    ]));
    assert_eq!(docs.responses.len(), 1);
    assert_eq!(docs.responses[0].status_code, 65535);
    assert_eq!(docs.responses[0].description, "kept");
}

#[test]
fn test_other_header_resets_section() {
    let docs = extract_docs(&lines(&[
        "Summary",
        "# Responses",
        "- 200: Ok",
        "# Notes",
        "- 404: not a response any more",
        "free text",
    ]));
    assert_eq!(docs.responses.len(), 1);
    assert_eq!(docs.responses[0].status_code, 200);
    // After the unrecognised header, list items accumulate as free text.
    assert_eq!(
        docs.description,
        Some("- 404: not a response any more free text".to_string())
    );
}

#[test]
fn test_filtering_is_idempotent() {
    let raw = lines(&[" Summary ", "", "  ", "# Parameters", " - id (path): The id "]);
    let pre_trimmed = lines(&["Summary", "# Parameters", "- id (path): The id"]);
    let a = extract_docs(&raw);
    let b = extract_docs(&pre_trimmed);
    assert_eq!(a.summary, b.summary);
    assert_eq!(a.description, b.description);
    assert_eq!(a.parameters.len(), b.parameters.len());
    assert_eq!(a.parameters[0].name, b.parameters[0].name);
    assert_eq!(a.parameters[0].description, b.parameters[0].description);
}

#[test]
fn test_quotes_stripped_from_elaborate_values() {
    let docs = extract_docs(&lines(&[
        "Summary",
        "# Responses",
        "- 200:",
        "  description: \"Quoted success\"",
        "  examples:",
        "  - name: \"ex\"",
        "    summary: \"short\"",
        "    value: \"plain\"",
    ]));
    assert_eq!(docs.responses.len(), 1);
    assert_eq!(docs.responses[0].description, "Quoted success");
    let examples = docs.responses[0].examples.as_ref().unwrap();
    assert_eq!(examples[0].name, "ex");
    assert_eq!(examples[0].summary, Some("short".to_string()));
    assert_eq!(examples[0].value, "plain");
}

#[test]
fn test_schema_line_opens_content_block() {
    // A `schema:` line with no preceding `content:` opens a content block
    // with the default media type.
    let docs = extract_docs(&lines(&[
        "Summary",
        "# Responses",
        "- 500:",
        "  schema: ErrorResponse",
    ]));
    let content = docs.responses[0].content.as_ref().unwrap();
    assert_eq!(content.media_type, "application/json");
    assert_eq!(content.schema, Some("ErrorResponse".to_string()));
}

#[test]
fn test_media_type_line_overwrites_default() {
    let docs = extract_docs(&lines(&[
        "Summary",
        "# Responses",
        "- 200:",
        "  content:",
        "    application/xml:",
        "      schema: Report",
    ]));
    let content = docs.responses[0].content.as_ref().unwrap();
    assert_eq!(content.media_type, "application/xml");
    assert_eq!(content.schema, Some("Report".to_string()));
}
