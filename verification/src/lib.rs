//! Documentation-driven OpenAPI 3.0 generation.
//!
//! This library turns free-text documentation comments attached to HTTP
//! handler functions, together with a structural description of each
//! handler's signature and of the data types it mentions, into a
//! machine-readable OpenAPI specification document.
//!
//! The pipeline has five parts:
//! - a doc-comment parser ([`extract_docs`]) that recognises an informal
//!   grammar of sections (`# Parameters`, `# Request Body`, `# Responses`)
//!   and structured list items inside them;
//! - a signature type extractor that infers request-body, success-payload
//!   and error type names from a handler's declared parameter and return
//!   types;
//! - a schema synthesizer that maps a type's field list to a
//!   JSON-Schema-like description through a fixed mapping table;
//! - a registry of per-handler documentation, populated once at startup
//!   and queried while routes are registered;
//! - a specification builder ([`DocumentedRouter`]) that folds route
//!   registrations into one queryable OpenAPI document, translating
//!   `:name` path parameters into `{name}` syntax along the way.
//!
//! Web-framework integration (routing, serving the document over HTTP,
//! JSON/YAML serialization) lives outside this crate; the library works
//! on plain strings and its own data model only.

pub mod builder;
pub mod docs;
pub mod openapi;
pub mod parser;
pub mod paths;
pub mod schema;
pub mod sigtype;
pub mod strutil;

pub use builder::create_operation_with_params_and_responses;
pub use builder::create_operation_with_responses;
pub use builder::DocumentedRouter;
pub use builder::Method;
pub use builder::RouteInfo;
pub use docs::DocumentedHandler;
pub use docs::HandlerDocEntry;
pub use docs::HandlerDocumentation;
pub use docs::HandlerMetadata;
pub use docs::HandlerRegistry;
pub use docs::ParameterDoc;
pub use docs::ParsedDocs;
pub use docs::RequestBodyDoc;
pub use docs::ResponseContent;
pub use docs::ResponseDoc;
pub use docs::ResponseExample;
pub use openapi::Components;
pub use openapi::ContentEntry;
pub use openapi::ExampleEntry;
pub use openapi::ExampleObject;
pub use openapi::Info;
pub use openapi::MediaType;
pub use openapi::OpenAPI;
pub use openapi::Operation;
pub use openapi::Parameter;
pub use openapi::PathEntry;
pub use openapi::PathItem;
pub use openapi::RequestBody;
pub use openapi::Response;
pub use openapi::ResponseEntry;
pub use openapi::Schema;
pub use openapi::SchemaEntry;
pub use openapi::SchemaOrRef;
pub use openapi::SchemaProperty;
pub use parser::extract_docs;
pub use parser::Section;
pub use paths::convert_path_params;
pub use paths::default_summary;
pub use paths::normalize_prefix;
pub use paths::openapi_route_paths;
pub use paths::operation_id;
pub use schema::error_schema;
pub use schema::error_status_code;
pub use schema::synthesize_enum_schema;
pub use schema::synthesize_struct_schema;
pub use schema::FieldDef;
pub use schema::StoneSchema;
pub use sigtype::extract_request_body_type;
pub use sigtype::extract_response_and_error_types;
pub use sigtype::sanitize_type_for_identifier;
pub use sigtype::TypeArg;
pub use sigtype::TypeExpr;
