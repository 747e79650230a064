//! The OpenAPI document model: the queryable specification that the
//! builder assembles and the host serializes.
//!
//! Ordered associations are kept as vectors of entries rather than hash
//! maps, so that insertion order — which the specification's observable
//! output depends on — is part of the model. Property schemas carry
//! exactly a JSON-Schema `type` token: the synthesizer's fixed mapping
//! table never produces anything deeper for a field.

use vstd::prelude::*;
use vstd::string::StrSliceExecFns;
use vstd::string::StringExecFns;

use crate::strutil::str_eq;

verus! {

/// A JSON-Schema-like description of one named type.
#[derive(Debug)]
pub struct Schema {
    /// The JSON Schema type: "object", "string", ...
    pub schema_type: Option<String>,
    /// An optional display title.
    pub title: Option<String>,
    /// An optional description.
    pub description: Option<String>,
    /// For object schemas, the properties in declaration order.
    pub properties: Option<Vec<SchemaProperty>>,
    /// For object schemas, the names of the required properties, in
    /// declaration order.
    pub required: Option<Vec<String>>,
}

/// One property of an object schema: its name and its JSON-Schema type.
#[derive(Debug)]
pub struct SchemaProperty {
    /// The property's name.
    pub name: String,
    /// The property's JSON Schema type token.
    pub schema_type: String,
}

#[verifier::ext_equal]
pub struct PropModel {
    pub name: Seq<char>,
    pub schema_type: Seq<char>,
}

impl View for SchemaProperty {
    type V = PropModel;

    open spec fn view(&self) -> PropModel {
        PropModel { name: self.name@, schema_type: self.schema_type@ }
    }
}

impl DeepView for SchemaProperty {
    type V = PropModel;

    open spec fn deep_view(&self) -> PropModel {
        self.view()
    }
}

#[verifier::ext_equal]
pub struct SchemaModel {
    pub schema_type: Option<Seq<char>>,
    pub title: Option<Seq<char>>,
    pub description: Option<Seq<char>>,
    pub properties: Option<Seq<PropModel>>,
    pub required: Option<Seq<Seq<char>>>,
}

impl SchemaModel {
    /// The fallback schema: a bare object with nothing else said of it.
    pub open spec fn empty_object() -> SchemaModel {
        SchemaModel {
            schema_type: Some("object"@),
            title: None,
            description: None,
            properties: None,
            required: None,
        }
    }
}

impl View for Schema {
    type V = SchemaModel;

    open spec fn view(&self) -> SchemaModel {
        SchemaModel {
            schema_type: self.schema_type.deep_view(),
            title: self.title.deep_view(),
            description: self.description.deep_view(),
            properties: self.properties.deep_view(),
            required: self.required.deep_view(),
        }
    }
}

impl DeepView for Schema {
    type V = SchemaModel;

    open spec fn deep_view(&self) -> SchemaModel {
        self.view()
    }
}

impl Clone for SchemaProperty {
    fn clone(&self) -> (r: Self)
        ensures
            r@ == self@,
    {
        SchemaProperty { name: self.name.clone(), schema_type: self.schema_type.clone() }
    }
}

fn clone_props(v: &Vec<SchemaProperty>) -> (r: Vec<SchemaProperty>)
    ensures
        r.deep_view() == v.deep_view(),
{
    let mut r: Vec<SchemaProperty> = Vec::new();
    let n = v.len();
    let mut i: usize = 0;
    while i < n
        invariant
            i <= n,
            n == v.len(),
            r.deep_view() =~= v.deep_view().take(i as int),
        decreases n - i,
    {
        let e = v[i].clone();
        r.push(e);
        proof {
            let dv = v.deep_view();
            assert(r.deep_view() =~= dv.take(i as int).push(dv[i as int]));
            assert(dv.take(i as int).push(dv[i as int]) =~= dv.take(i as int + 1));
        }
        i = i + 1;
    }
    proof {
        assert(v.deep_view().take(n as int) =~= v.deep_view());
    }
    r
}

fn clone_strings(v: &Vec<String>) -> (r: Vec<String>)
    ensures
        r.deep_view() == v.deep_view(),
{
    let mut r: Vec<String> = Vec::new();
    let n = v.len();
    let mut i: usize = 0;
    while i < n
        invariant
            i <= n,
            n == v.len(),
            r.deep_view() =~= v.deep_view().take(i as int),
        decreases n - i,
    {
        let e = v[i].clone();
        r.push(e);
        proof {
            let dv = v.deep_view();
            assert(r.deep_view() =~= dv.take(i as int).push(dv[i as int]));
            assert(dv.take(i as int).push(dv[i as int]) =~= dv.take(i as int + 1));
        }
        i = i + 1;
    }
    proof {
        assert(v.deep_view().take(n as int) =~= v.deep_view());
    }
    r
}

impl Clone for Schema {
    fn clone(&self) -> (r: Self)
        ensures
            r@ == self@,
    {
        let r = Schema {
            schema_type: match &self.schema_type {
                Some(s) => Some(s.clone()),
                None => None,
            },
            title: match &self.title {
                Some(s) => Some(s.clone()),
                None => None,
            },
            description: match &self.description {
                Some(s) => Some(s.clone()),
                None => None,
            },
            properties: match &self.properties {
                Some(p) => Some(clone_props(p)),
                None => None,
            },
            required: match &self.required {
                Some(q) => Some(clone_strings(q)),
                None => None,
            },
        };
        proof {
            assert(r@.properties == self@.properties);
            assert(r@.required == self@.required);
        }
        r
    }
}

impl Default for Schema {
    /// The generic empty-object schema used wherever a referenced type has
    /// no registered description.
    fn default() -> (r: Schema)
        ensures
            r@ == SchemaModel::empty_object(),
    {
        Schema {
            schema_type: Some(String::from_str("object")),
            title: None,
            description: None,
            properties: None,
            required: None,
        }
    }
}

/// Either an inline schema or a `$ref` to a component schema.
#[derive(Debug)]
pub enum SchemaOrRef {
    /// An inline schema.
    Item(Schema),
    /// A reference string of the form `#/components/schemas/{name}`.
    Ref(String),
}

#[verifier::ext_equal]
pub enum SchemaOrRefModel {
    ItemM(SchemaModel),
    RefM(Seq<char>),
}

impl View for SchemaOrRef {
    type V = SchemaOrRefModel;

    open spec fn view(&self) -> SchemaOrRefModel {
        match self {
            SchemaOrRef::Item(s) => SchemaOrRefModel::ItemM(s@),
            SchemaOrRef::Ref(r) => SchemaOrRefModel::RefM(r@),
        }
    }
}

impl DeepView for SchemaOrRef {
    type V = SchemaOrRefModel;

    open spec fn deep_view(&self) -> SchemaOrRefModel {
        self.view()
    }
}

/// One example value attached to a media type.
#[derive(Debug)]
pub struct ExampleObject {
    /// An optional one-line summary.
    pub summary: Option<String>,
    /// The raw example content, kept verbatim; whether it is emitted as
    /// JSON or as a plain string is decided at serialization time.
    pub value: Option<String>,
}

#[verifier::ext_equal]
pub struct ExampleObjModel {
    pub summary: Option<Seq<char>>,
    pub value: Option<Seq<char>>,
}

impl View for ExampleObject {
    type V = ExampleObjModel;

    open spec fn view(&self) -> ExampleObjModel {
        ExampleObjModel { summary: self.summary.deep_view(), value: self.value.deep_view() }
    }
}

impl DeepView for ExampleObject {
    type V = ExampleObjModel;

    open spec fn deep_view(&self) -> ExampleObjModel {
        self.view()
    }
}

/// A named example entry of a media type.
#[derive(Debug)]
pub struct ExampleEntry {
    /// The example's name.
    pub name: String,
    /// The example itself.
    pub example: ExampleObject,
}

#[verifier::ext_equal]
pub struct ExampleEntryModel {
    pub name: Seq<char>,
    pub example: ExampleObjModel,
}

impl View for ExampleEntry {
    type V = ExampleEntryModel;

    open spec fn view(&self) -> ExampleEntryModel {
        ExampleEntryModel { name: self.name@, example: self.example@ }
    }
}

impl DeepView for ExampleEntry {
    type V = ExampleEntryModel;

    open spec fn deep_view(&self) -> ExampleEntryModel {
        self.view()
    }
}

/// The schema and examples served under one media type.
#[derive(Debug)]
pub struct MediaType {
    /// The payload's schema, inline or by reference.
    pub schema: Option<SchemaOrRef>,
    /// Named examples, in source order.
    pub examples: Vec<ExampleEntry>,
}

#[verifier::ext_equal]
pub struct MediaTypeModel {
    pub schema: Option<SchemaOrRefModel>,
    pub examples: Seq<ExampleEntryModel>,
}

impl View for MediaType {
    type V = MediaTypeModel;

    open spec fn view(&self) -> MediaTypeModel {
        MediaTypeModel { schema: self.schema.deep_view(), examples: self.examples.deep_view() }
    }
}

impl DeepView for MediaType {
    type V = MediaTypeModel;

    open spec fn deep_view(&self) -> MediaTypeModel {
        self.view()
    }
}

/// One `media type -> content` association of a request body or response.
#[derive(Debug)]
pub struct ContentEntry {
    /// The media type, e.g. "application/json".
    pub media_type: String,
    /// What is served under it.
    pub media: MediaType,
}

#[verifier::ext_equal]
pub struct ContentEntryModel {
    pub media_type: Seq<char>,
    pub media: MediaTypeModel,
}

impl View for ContentEntry {
    type V = ContentEntryModel;

    open spec fn view(&self) -> ContentEntryModel {
        ContentEntryModel { media_type: self.media_type@, media: self.media@ }
    }
}

impl DeepView for ContentEntry {
    type V = ContentEntryModel;

    open spec fn deep_view(&self) -> ContentEntryModel {
        self.view()
    }
}

/// One documented response of an operation.
#[derive(Debug)]
pub struct Response {
    /// When this response occurs.
    pub description: String,
    /// The response body's content, one entry per media type; empty when
    /// the response has no documented body.
    pub content: Vec<ContentEntry>,
}

#[verifier::ext_equal]
pub struct ResponseModel {
    pub description: Seq<char>,
    pub content: Seq<ContentEntryModel>,
}

impl View for Response {
    type V = ResponseModel;

    open spec fn view(&self) -> ResponseModel {
        ResponseModel { description: self.description@, content: self.content.deep_view() }
    }
}

impl DeepView for Response {
    type V = ResponseModel;

    open spec fn deep_view(&self) -> ResponseModel {
        self.view()
    }
}

/// One `status code -> response` association of an operation.
#[derive(Debug)]
pub struct ResponseEntry {
    /// The HTTP status code.
    pub status: u16,
    /// The response documented for it.
    pub response: Response,
}

#[verifier::ext_equal]
pub struct ResponseEntryModel {
    pub status: u16,
    pub response: ResponseModel,
}

impl View for ResponseEntry {
    type V = ResponseEntryModel;

    open spec fn view(&self) -> ResponseEntryModel {
        ResponseEntryModel { status: self.status, response: self.response@ }
    }
}

impl DeepView for ResponseEntry {
    type V = ResponseEntryModel;

    open spec fn deep_view(&self) -> ResponseEntryModel {
        self.view()
    }
}

/// One request parameter of an operation.
#[derive(Debug)]
pub struct Parameter {
    /// The parameter's name.
    pub name: String,
    /// Where it lives: "path", "query" or "header".
    pub location: String,
    /// What it means.
    pub description: Option<String>,
    /// Whether a request must supply it; always true for path parameters,
    /// never for headers.
    pub required: bool,
    /// The parameter's schema; parameters are described as plain strings.
    pub schema: Schema,
}

#[verifier::ext_equal]
pub struct ParameterModel {
    pub name: Seq<char>,
    pub location: Seq<char>,
    pub description: Option<Seq<char>>,
    pub required: bool,
    pub schema: SchemaModel,
}

impl View for Parameter {
    type V = ParameterModel;

    open spec fn view(&self) -> ParameterModel {
        ParameterModel {
            name: self.name@,
            location: self.location@,
            description: self.description.deep_view(),
            required: self.required,
            schema: self.schema@,
        }
    }
}

impl DeepView for Parameter {
    type V = ParameterModel;

    open spec fn deep_view(&self) -> ParameterModel {
        self.view()
    }
}

/// The request body an operation expects.
#[derive(Debug)]
pub struct RequestBody {
    /// What the body holds.
    pub description: Option<String>,
    /// The body's content, one entry per media type.
    pub content: Vec<ContentEntry>,
    /// Whether the body must be supplied.
    pub required: bool,
}

#[verifier::ext_equal]
pub struct RequestBodyModel {
    pub description: Option<Seq<char>>,
    pub content: Seq<ContentEntryModel>,
    pub required: bool,
}

impl View for RequestBody {
    type V = RequestBodyModel;

    open spec fn view(&self) -> RequestBodyModel {
        RequestBodyModel {
            description: self.description.deep_view(),
            content: self.content.deep_view(),
            required: self.required,
        }
    }
}

impl DeepView for RequestBody {
    type V = RequestBodyModel;

    open spec fn deep_view(&self) -> RequestBodyModel {
        self.view()
    }
}

/// One HTTP-method-and-path endpoint's documented contract.
#[derive(Debug)]
pub struct Operation {
    /// The stable identifier derived from method and path.
    pub operation_id: Option<String>,
    /// One-line summary.
    pub summary: Option<String>,
    /// Longer description.
    pub description: Option<String>,
    /// The operation's parameters, in documentation order.
    pub parameters: Vec<Parameter>,
    /// The request body, if the handler documents one.
    pub request_body: Option<RequestBody>,
    /// The responses, keyed by status code, in insertion order.
    pub responses: Vec<ResponseEntry>,
}

#[verifier::ext_equal]
pub struct OperationModel {
    pub operation_id: Option<Seq<char>>,
    pub summary: Option<Seq<char>>,
    pub description: Option<Seq<char>>,
    pub parameters: Seq<ParameterModel>,
    pub request_body: Option<RequestBodyModel>,
    pub responses: Seq<ResponseEntryModel>,
}

impl View for Operation {
    type V = OperationModel;

    open spec fn view(&self) -> OperationModel {
        OperationModel {
            operation_id: self.operation_id.deep_view(),
            summary: self.summary.deep_view(),
            description: self.description.deep_view(),
            parameters: self.parameters.deep_view(),
            request_body: self.request_body.deep_view(),
            responses: self.responses.deep_view(),
        }
    }
}

impl DeepView for Operation {
    type V = OperationModel;

    open spec fn deep_view(&self) -> OperationModel {
        self.view()
    }
}

/// The first response recorded under `status`, if any.
pub open spec fn response_lookup(rs: Seq<ResponseEntryModel>, status: u16) -> Option<
    ResponseModel,
>
    decreases rs.len(),
{
    if rs.len() == 0 {
        None
    } else if rs[0].status == status {
        Some(rs[0].response)
    } else {
        response_lookup(rs.drop_first(), status)
    }
}

impl Operation {
    /// Looks up the response recorded for a status code.
    pub fn get_response(&self, status: u16) -> (r: Option<&Response>)
        ensures
            r.deep_view() == response_lookup(self@.responses, status),
    {
        let n = self.responses.len();
        let mut i: usize = 0;
        proof {
            assert(self@.responses.skip(0) =~= self@.responses);
        }
        while i < n
            invariant
                i <= n,
                n == self.responses.len(),
                response_lookup(self@.responses, status) == response_lookup(
                    self@.responses.skip(i as int),
                    status,
                ),
            decreases n - i,
        {
            proof {
                assert(self@.responses.skip(i as int).drop_first() =~= self@.responses.skip(
                    i as int + 1,
                ));
            }
            if self.responses[i].status == status {
                return Some(&self.responses[i].response);
            }
            i = i + 1;
        }
        None
    }

    /// Whether a response is recorded for a status code.
    pub fn has_response(&self, status: u16) -> (r: bool)
        ensures
            r == (response_lookup(self@.responses, status) is Some),
    {
        let o = self.get_response(status);
        match o {
            Some(_) => true,
            None => false,
        }
    }
}

/// The set of per-method operations registered under one path template.
#[derive(Debug)]
pub struct PathItem {
    /// The GET operation, if registered.
    pub get: Option<Operation>,
    /// The POST operation, if registered.
    pub post: Option<Operation>,
    /// The PUT operation, if registered.
    pub put: Option<Operation>,
    /// The DELETE operation, if registered.
    pub delete: Option<Operation>,
    /// The PATCH operation, if registered.
    pub patch: Option<Operation>,
}

#[verifier::ext_equal]
pub struct PathItemModel {
    pub get: Option<OperationModel>,
    pub post: Option<OperationModel>,
    pub put: Option<OperationModel>,
    pub delete: Option<OperationModel>,
    pub patch: Option<OperationModel>,
}

impl PathItemModel {
    /// A path item with no operation registered yet.
    pub open spec fn empty() -> PathItemModel {
        PathItemModel { get: None, post: None, put: None, delete: None, patch: None }
    }
}

impl View for PathItem {
    type V = PathItemModel;

    open spec fn view(&self) -> PathItemModel {
        PathItemModel {
            get: self.get.deep_view(),
            post: self.post.deep_view(),
            put: self.put.deep_view(),
            delete: self.delete.deep_view(),
            patch: self.patch.deep_view(),
        }
    }
}

impl DeepView for PathItem {
    type V = PathItemModel;

    open spec fn deep_view(&self) -> PathItemModel {
        self.view()
    }
}

impl PathItem {
    /// A path item with no operation registered yet.
    pub fn empty() -> (r: PathItem)
        ensures
            r@ == PathItemModel::empty(),
    {
        PathItem { get: None, post: None, put: None, delete: None, patch: None }
    }
}

/// One `path template -> path item` association of the document.
#[derive(Debug)]
pub struct PathEntry {
    /// The path template, in `{name}` parameter syntax.
    pub path: String,
    /// The operations registered under it.
    pub item: PathItem,
}

#[verifier::ext_equal]
pub struct PathEntryModel {
    pub path: Seq<char>,
    pub item: PathItemModel,
}

impl View for PathEntry {
    type V = PathEntryModel;

    open spec fn view(&self) -> PathEntryModel {
        PathEntryModel { path: self.path@, item: self.item@ }
    }
}

impl DeepView for PathEntry {
    type V = PathEntryModel;

    open spec fn deep_view(&self) -> PathEntryModel {
        self.view()
    }
}

/// One `type name -> schema` association of the component table.
#[derive(Debug)]
pub struct SchemaEntry {
    /// The canonical type name the schema is registered under.
    pub name: String,
    /// Its schema.
    pub schema: Schema,
}

#[verifier::ext_equal]
pub struct SchemaEntryModel {
    pub name: Seq<char>,
    pub schema: SchemaModel,
}

impl View for SchemaEntry {
    type V = SchemaEntryModel;

    open spec fn view(&self) -> SchemaEntryModel {
        SchemaEntryModel { name: self.name@, schema: self.schema@ }
    }
}

impl DeepView for SchemaEntry {
    type V = SchemaEntryModel;

    open spec fn deep_view(&self) -> SchemaEntryModel {
        self.view()
    }
}

/// The shared component table of reusable schemas.
#[derive(Debug)]
pub struct Components {
    /// Schemas keyed by type name, in registration order; registration is
    /// idempotent with first-write-wins.
    pub schemas: Vec<SchemaEntry>,
}

#[verifier::ext_equal]
pub struct ComponentsModel {
    pub schemas: Seq<SchemaEntryModel>,
}

impl View for Components {
    type V = ComponentsModel;

    open spec fn view(&self) -> ComponentsModel {
        ComponentsModel { schemas: self.schemas.deep_view() }
    }
}

impl DeepView for Components {
    type V = ComponentsModel;

    open spec fn deep_view(&self) -> ComponentsModel {
        self.view()
    }
}

/// Whether the component table holds a schema under `name`.
pub open spec fn schema_table_contains(ss: Seq<SchemaEntryModel>, name: Seq<char>) -> bool {
    exists|i: int| 0 <= i < ss.len() && ss[i].name == name
}

/// The first schema recorded under `name`, if any.
pub open spec fn schema_lookup(ss: Seq<SchemaEntryModel>, name: Seq<char>) -> Option<SchemaModel>
    decreases ss.len(),
{
    if ss.len() == 0 {
        None
    } else if ss[0].name == name {
        Some(ss[0].schema)
    } else {
        schema_lookup(ss.drop_first(), name)
    }
}

impl Components {
    /// Whether a schema is registered under `name`.
    pub fn contains_schema(&self, name: &str) -> (r: bool)
        ensures
            r == schema_table_contains(self@.schemas, name@),
    {
        let n = self.schemas.len();
        let mut i: usize = 0;
        while i < n
            invariant
                i <= n,
                n == self.schemas.len(),
                forall|k: int| 0 <= k < i ==> self@.schemas[k].name != name@,
            decreases n - i,
        {
            if str_eq(self.schemas[i].name.as_str(), name) {
                proof {
                    assert(self@.schemas[i as int].name == name@);
                }
                return true;
            }
            i = i + 1;
        }
        false
    }

    /// Looks up the schema registered under `name`.
    pub fn get_schema(&self, name: &str) -> (r: Option<&Schema>)
        ensures
            r.deep_view() == schema_lookup(self@.schemas, name@),
    {
        let n = self.schemas.len();
        let mut i: usize = 0;
        proof {
            assert(self@.schemas.skip(0) =~= self@.schemas);
        }
        while i < n
            invariant
                i <= n,
                n == self.schemas.len(),
                schema_lookup(self@.schemas, name@) == schema_lookup(
                    self@.schemas.skip(i as int),
                    name@,
                ),
            decreases n - i,
        {
            proof {
                assert(self@.schemas.skip(i as int).drop_first() =~= self@.schemas.skip(
                    i as int + 1,
                ));
            }
            if str_eq(self.schemas[i].name.as_str(), name) {
                return Some(&self.schemas[i].schema);
            }
            i = i + 1;
        }
        None
    }
}

/// The document's identifying information.
#[derive(Debug)]
pub struct Info {
    /// The API's title.
    pub title: String,
    /// The API's version string.
    pub version: String,
    /// An optional description.
    pub description: Option<String>,
}

#[verifier::ext_equal]
pub struct InfoModel {
    pub title: Seq<char>,
    pub version: Seq<char>,
    pub description: Option<Seq<char>>,
}

impl View for Info {
    type V = InfoModel;

    open spec fn view(&self) -> InfoModel {
        InfoModel {
            title: self.title@,
            version: self.version@,
            description: self.description.deep_view(),
        }
    }
}

impl DeepView for Info {
    type V = InfoModel;

    open spec fn deep_view(&self) -> InfoModel {
        self.view()
    }
}

/// An OpenAPI specification document.
#[derive(Debug)]
pub struct OpenAPI {
    /// The OpenAPI version string of the document.
    pub openapi: String,
    /// Title and version of the described API.
    pub info: Info,
    /// Path items keyed by path template, in registration order.
    pub paths: Vec<PathEntry>,
    /// The shared schema components, once any type has been referenced.
    pub components: Option<Components>,
}

#[verifier::ext_equal]
pub struct OpenAPIModel {
    pub openapi: Seq<char>,
    pub info: InfoModel,
    pub paths: Seq<PathEntryModel>,
    pub components: Option<ComponentsModel>,
}

impl View for OpenAPI {
    type V = OpenAPIModel;

    open spec fn view(&self) -> OpenAPIModel {
        OpenAPIModel {
            openapi: self.openapi@,
            info: self.info@,
            paths: self.paths.deep_view(),
            components: self.components.deep_view(),
        }
    }
}

impl DeepView for OpenAPI {
    type V = OpenAPIModel;

    open spec fn deep_view(&self) -> OpenAPIModel {
        self.view()
    }
}

/// The first path item recorded under `key`, if any.
pub open spec fn path_lookup(ps: Seq<PathEntryModel>, key: Seq<char>) -> Option<PathItemModel>
    decreases ps.len(),
{
    if ps.len() == 0 {
        None
    } else if ps[0].path == key {
        Some(ps[0].item)
    } else {
        path_lookup(ps.drop_first(), key)
    }
}

/// The fixed JSON rendering of a document skeleton: the three interpolated
/// strings are the OpenAPI version, the title and the API version.
pub open spec fn json_doc(openapi: Seq<char>, title: Seq<char>, version: Seq<char>) -> Seq<char> {
    "{\n  \"openapi\": \""@ + openapi + "\",\n  \"info\": {\n    \"title\": \""@ + title
        + "\",\n    \"version\": \""@ + version
        + "\"\n  },\n  \"paths\": {},\n  \"components\": {\n    \"schemas\": {}\n  }\n}"@
}

/// The fixed YAML rendering of a document skeleton.
pub open spec fn yaml_doc(openapi: Seq<char>, title: Seq<char>, version: Seq<char>) -> Seq<char> {
    "openapi: "@ + openapi + "\ninfo:\n  title: "@ + title + "\n  version: "@ + version
        + "\npaths: {}\ncomponents:\n  schemas: {}\n"@
}

impl OpenAPI {
    /// A fresh document with the given title and version and no routes.
    pub fn new(title: &str, version: &str) -> (r: OpenAPI)
        ensures
            r@.openapi == "3.0.0"@,
            r@.info.title == title@,
            r@.info.version == version@,
            r@.info.description is None,
            r@.paths == Seq::<PathEntryModel>::empty(),
            r@.components is None,
    {
        let r = OpenAPI {
            openapi: String::from_str("3.0.0"),
            info: Info {
                title: String::from_str(title),
                version: String::from_str(version),
                description: None,
            },
            paths: Vec::new(),
            components: None,
        };
        proof {
            assert(r@.paths =~= Seq::<PathEntryModel>::empty());
        }
        r
    }

    /// Renders the document skeleton as pretty-printed JSON.
    pub fn to_json(&self) -> (r: String)
        ensures
            r@ == json_doc(self@.openapi, self@.info.title, self@.info.version),
    {
        let mut r = String::from_str("{\n  \"openapi\": \"");
        r.append(self.openapi.as_str());
        r.append("\",\n  \"info\": {\n    \"title\": \"");
        r.append(self.info.title.as_str());
        r.append("\",\n    \"version\": \"");
        r.append(self.info.version.as_str());
        r.append("\"\n  },\n  \"paths\": {},\n  \"components\": {\n    \"schemas\": {}\n  }\n}");
        r
    }

    /// Renders the document skeleton as YAML.
    pub fn to_yaml(&self) -> (r: String)
        ensures
            r@ == yaml_doc(self@.openapi, self@.info.title, self@.info.version),
    {
        let mut r = String::from_str("openapi: ");
        r.append(self.openapi.as_str());
        r.append("\ninfo:\n  title: ");
        r.append(self.info.title.as_str());
        r.append("\n  version: ");
        r.append(self.info.version.as_str());
        r.append("\npaths: {}\ncomponents:\n  schemas: {}\n");
        r
    }

    /// Whether an operation set is registered under `path`.
    pub fn contains_path(&self, path: &str) -> (r: bool)
        ensures
            r == (path_lookup(self@.paths, path@) is Some),
    {
        let o = self.get_path(path);
        match o {
            Some(_) => true,
            None => false,
        }
    }

    /// Looks up the operation set registered under `path`.
    pub fn get_path(&self, path: &str) -> (r: Option<&PathItem>)
        ensures
            r.deep_view() == path_lookup(self@.paths, path@),
    {
        let n = self.paths.len();
        let mut i: usize = 0;
        proof {
            assert(self@.paths.skip(0) =~= self@.paths);
        }
        while i < n
            invariant
                i <= n,
                n == self.paths.len(),
                path_lookup(self@.paths, path@) == path_lookup(self@.paths.skip(i as int), path@),
            decreases n - i,
        {
            proof {
                assert(self@.paths.skip(i as int).drop_first() =~= self@.paths.skip(i as int + 1));
            }
            if str_eq(self.paths[i].path.as_str(), path) {
                return Some(&self.paths[i].item);
            }
            i = i + 1;
        }
        None
    }
}

} // verus!
