use stonehm::error_schema;
use stonehm::error_status_code;
use stonehm::synthesize_enum_schema;
use stonehm::synthesize_struct_schema;
use stonehm::FieldDef;
use stonehm::OpenAPI;
use stonehm::Schema;

fn field(name: &str, ty: &str) -> FieldDef {
    FieldDef {
        name: name.to_string(),
        declared_type: ty.to_string(),
    }
}

#[test]
fn test_schema_field_mapping() {
    // A struct {id: u32, name: String, active: bool} synthesizes one
    // property per field through the fixed table, and all three fields are
    // required, in declaration order.
    let fields = vec![field("id", "u32"), field("name", "String"), field("active", "bool")];
    let schema = synthesize_struct_schema(&fields);

    assert_eq!(schema.schema_type, Some("object".to_string()));
    let props = schema.properties.as_ref().unwrap();
    assert_eq!(props.len(), 3);
    assert_eq!(props[0].name, "id");
    assert_eq!(props[0].schema_type, "integer");
    assert_eq!(props[1].name, "name");
    assert_eq!(props[1].schema_type, "string");
    assert_eq!(props[2].name, "active");
    assert_eq!(props[2].schema_type, "boolean");

    let required = schema.required.as_ref().unwrap();
    assert_eq!(required, &vec!["id".to_string(), "name".to_string(), "active".to_string()]);
}

#[test]
fn test_optional_fields_not_required() {
    let fields = vec![field("name", "String"), field("age", "Option")];
    let schema = synthesize_struct_schema(&fields);

    let props = schema.properties.as_ref().unwrap();
    assert_eq!(props.len(), 2);
    // The Option wrapper is described as a plain string property.
    assert_eq!(props[1].schema_type, "string");

    let required = schema.required.as_ref().unwrap();
    assert_eq!(required, &vec!["name".to_string()]);
}

#[test]
fn test_all_optional_fields_omit_required() {
    let fields = vec![field("a", "Option"), field("b", "Option")];
    let schema = synthesize_struct_schema(&fields);
    assert!(schema.required.is_none());
}

#[test]
fn test_unrecognised_tokens_fall_back_to_string() {
    let fields = vec![field("nested", "Address"), field("tags", "Vec")];
    let schema = synthesize_struct_schema(&fields);
    let props = schema.properties.as_ref().unwrap();
    assert_eq!(props[0].schema_type, "string");
    assert_eq!(props[1].schema_type, "string");
}

#[test]
fn test_number_mapping() {
    let fields = vec![field("ratio", "f64"), field("count", "i64")];
    let schema = synthesize_struct_schema(&fields);
    let props = schema.properties.as_ref().unwrap();
    assert_eq!(props[0].schema_type, "number");
    assert_eq!(props[1].schema_type, "integer");
}

#[test]
fn test_enum_schema_is_plain_string() {
    let schema = synthesize_enum_schema();
    assert_eq!(schema.schema_type, Some("string".to_string()));
    assert!(schema.properties.is_none());
    assert!(schema.required.is_none());
}

#[test]
fn test_error_schema_shape() {
    let schema = error_schema();
    assert_eq!(schema.schema_type, Some("object".to_string()));
    let props = schema.properties.as_ref().unwrap();
    assert_eq!(props.len(), 1);
    assert_eq!(props[0].name, "error");
    assert_eq!(props[0].schema_type, "object");
}

#[test]
fn test_error_status_code_from_doc_lines() {
    let lines: Vec<String> = vec![" 404: User not found".to_string()];
    assert_eq!(error_status_code(&lines), 404);

    // The first line announcing a code decides.
    let lines: Vec<String> = vec![
        " just prose".to_string(),
        " 400: Validation failed".to_string(),
        " 500: never reached".to_string(),
    ];
    assert_eq!(error_status_code(&lines), 400);

    // A variant announcing no code defaults to 500.
    let lines: Vec<String> = vec!["DatabaseError".to_string()];
    assert_eq!(error_status_code(&lines), 500);
    let lines: Vec<String> = vec![];
    assert_eq!(error_status_code(&lines), 500);
}

#[test]
fn test_schema_default_is_empty_object() {
    let schema = Schema::default();
    assert_eq!(schema.schema_type, Some("object".to_string()));
    assert!(schema.title.is_none());
    assert!(schema.properties.is_none());
    assert!(schema.required.is_none());
}

#[test]
fn test_openapi_new_and_renderings() {
    let api = OpenAPI::new("Test API", "1.0.0");
    assert_eq!(api.openapi, "3.0.0");
    assert_eq!(api.info.title, "Test API");
    assert_eq!(api.info.version, "1.0.0");

    let json = api.to_json();
    let expected_json = "{\n  \"openapi\": \"3.0.0\",\n  \"info\": {\n    \"title\": \"Test API\",\n    \"version\": \"1.0.0\"\n  },\n  \"paths\": {},\n  \"components\": {\n    \"schemas\": {}\n  }\n}";
    assert_eq!(json, expected_json);

    let yaml = api.to_yaml();
    let expected_yaml =
        "openapi: 3.0.0\ninfo:\n  title: Test API\n  version: 1.0.0\npaths: {}\ncomponents:\n  schemas: {}\n";
    assert_eq!(yaml, expected_yaml);
}
