//! The specification builder: route registrations in, one consistent
//! OpenAPI document out.
//!
//! A [`DocumentedRouter`] owns the handler-documentation registry, the
//! type-schema registry and the document being built. Registering a route
//! looks the handler's documentation up (an unknown handler means "no
//! documentation", never an error), translates the path template, makes
//! sure every referenced type has a component schema — falling back to a
//! generic empty object — and installs one operation in the path item for
//! the route's method. The document can be queried at any point and
//! reflects all registrations so far.

use vstd::prelude::*;
use vstd::string::StrSliceExecFns;
use vstd::string::StringExecFns;

use crate::docs::HandlerDocEntry;
use crate::docs::HandlerDocModel;
use crate::docs::HandlerDocumentation;
use crate::docs::HandlerEntryModel;
use crate::docs::ParamModel;
use crate::docs::ParameterDoc;
use crate::docs::RequestBodyDoc;
use crate::docs::RespModel;
use crate::docs::ResponseDoc;
use crate::docs::ResponseExample;
use crate::docs::BodyModel;
use crate::openapi::Components;
use crate::openapi::ComponentsModel;
use crate::openapi::ContentEntry;
use crate::openapi::ContentEntryModel;
use crate::openapi::ExampleEntry;
use crate::openapi::ExampleEntryModel;
use crate::openapi::ExampleObject;
use crate::openapi::ExampleObjModel;
use crate::openapi::Info;
use crate::openapi::MediaType;
use crate::openapi::MediaTypeModel;
use crate::openapi::OpenAPI;
use crate::openapi::OpenAPIModel;
use crate::openapi::Operation;
use crate::openapi::OperationModel;
use crate::openapi::Parameter;
use crate::openapi::ParameterModel;
use crate::openapi::PathEntry;
use crate::openapi::PathEntryModel;
use crate::openapi::PathItem;
use crate::openapi::PathItemModel;
use crate::openapi::RequestBody;
use crate::openapi::RequestBodyModel;
use crate::openapi::Response;
use crate::openapi::ResponseEntry;
use crate::openapi::ResponseEntryModel;
use crate::openapi::ResponseModel;
use crate::openapi::Schema;
use crate::openapi::SchemaEntry;
use crate::openapi::SchemaEntryModel;
use crate::openapi::SchemaModel;
use crate::openapi::SchemaOrRef;
use crate::openapi::SchemaOrRefModel;
use crate::openapi::schema_lookup;
use crate::openapi::schema_table_contains;

verus! {

/// The HTTP methods the builder documents.
#[derive(Clone, Copy, PartialEq, Eq, Structural, Debug)]
pub enum Method {
    /// HTTP GET.
    Get,
    /// HTTP POST.
    Post,
    /// HTTP PUT.
    Put,
    /// HTTP DELETE.
    Delete,
    /// HTTP PATCH.
    Patch,
}

/// The documentation registered under a handler name; an unregistered
/// name yields the all-empty record.
pub open spec fn registry_lookup(rs: Seq<HandlerEntryModel>, name: Seq<char>) -> HandlerDocModel
    decreases rs.len(),
{
    if rs.len() == 0 {
        HandlerDocModel::empty()
    } else if rs[0].name == name {
        rs[0].docs
    } else {
        registry_lookup(rs.drop_first(), name)
    }
}

/// The plain-string schema every documented parameter is described with.
pub open spec fn string_schema() -> SchemaModel {
    SchemaModel {
        schema_type: Some("string"@),
        title: None,
        description: None,
        properties: None,
        required: None,
    }
}

/// The reference string pointing at a component schema.
pub open spec fn ref_of(name: Seq<char>) -> Seq<char> {
    "#/components/schemas/"@ + name
}

/// An `application/json` content entry whose schema is a reference to the
/// named component.
pub open spec fn json_media_ref(name: Seq<char>) -> ContentEntryModel {
    ContentEntryModel {
        media_type: "application/json"@,
        media: MediaTypeModel {
            schema: Some(SchemaOrRefModel::RefM(ref_of(name))),
            examples: Seq::empty(),
        },
    }
}

/// The parameter location recognised from a documented location token:
/// "path" and "header" are kept, every other token defaults to "query".
pub open spec fn loc_of(pt: Seq<char>) -> Seq<char> {
    if pt == "path"@ {
        "path"@
    } else if pt == "header"@ {
        "header"@
    } else {
        "query"@
    }
}

/// The operation parameter built from one documented parameter: path
/// parameters are always required, headers never, queries never.
pub open spec fn param_out(p: ParamModel) -> ParameterModel {
    ParameterModel {
        name: p.name,
        location: loc_of(p.param_type),
        description: Some(p.description),
        required: loc_of(p.param_type) == "path"@,
        schema: string_schema(),
    }
}

pub open spec fn params_out(ps: Seq<ParamModel>) -> Seq<ParameterModel>
    decreases ps.len(),
{
    if ps.len() == 0 {
        Seq::empty()
    } else {
        params_out(ps.drop_last()).push(param_out(ps.last()))
    }
}

/// The request body of an operation: present exactly when the handler
/// documents one; its schema is a reference to the inferred body type
/// when one is known, an untyped object otherwise.
pub open spec fn spec_request_body(b: Option<BodyModel>) -> Option<RequestBodyModel> {
    match b {
        None => None,
        Some(bb) => Some(
            RequestBodyModel {
                description: Some(bb.description),
                content: seq![
                    ContentEntryModel {
                        media_type: bb.content_type,
                        media: MediaTypeModel {
                            schema: Some(
                                match bb.schema_type {
                                    Some(t) => SchemaOrRefModel::RefM(ref_of(t)),
                                    None => SchemaOrRefModel::ItemM(SchemaModel::empty_object()),
                                },
                            ),
                            examples: Seq::empty(),
                        },
                    },
                ],
                required: true,
            },
        ),
    }
}

pub open spec fn examples_list(l: Seq<crate::docs::ExampleModel>) -> Seq<ExampleEntryModel>
    decreases l.len(),
{
    if l.len() == 0 {
        Seq::empty()
    } else {
        examples_list(l.drop_last()).push(
            ExampleEntryModel {
                name: l.last().name,
                example: ExampleObjModel {
                    summary: l.last().summary,
                    value: Some(l.last().value),
                },
            },
        )
    }
}

/// The examples emitted for a documented response, in source order.
pub open spec fn examples_out(es: Option<Seq<crate::docs::ExampleModel>>) -> Seq<
    ExampleEntryModel,
> {
    match es {
        None => Seq::empty(),
        Some(l) => examples_list(l),
    }
}

/// The emitted form of one documented response. A documented schema name
/// becomes a reference; an undocumented `200` falls back to the inferred
/// response type when known; everything else falls back to an untyped
/// object. A response documented without content gets the inferred
/// response type backfilled when it is a `200`, and no content otherwise.
pub open spec fn doc_response_out(d: RespModel, resp_type: Option<Seq<char>>) -> ResponseModel {
    match d.content {
        Some(ci) => {
            let schema = match ci.schema {
                Some(nm) => SchemaOrRefModel::RefM(ref_of(nm)),
                None => if d.status_code == 200 && resp_type is Some {
                    SchemaOrRefModel::RefM(ref_of(resp_type->Some_0))
                } else {
                    SchemaOrRefModel::ItemM(SchemaModel::empty_object())
                },
            };
            ResponseModel {
                description: d.description,
                content: seq![
                    ContentEntryModel {
                        media_type: ci.media_type,
                        media: MediaTypeModel {
                            schema: Some(schema),
                            examples: examples_out(d.examples),
                        },
                    },
                ],
            }
        },
        None => {
            if d.status_code == 200 && resp_type is Some {
                ResponseModel {
                    description: d.description,
                    content: seq![json_media_ref(resp_type->Some_0)],
                }
            } else {
                ResponseModel { description: d.description, content: Seq::empty() }
            }
        },
    }
}

/// The first index recording `status`, or the length when none does.
pub open spec fn find_status(rs: Seq<ResponseEntryModel>, status: u16) -> int
    decreases rs.len(),
{
    if rs.len() == 0 {
        0
    } else if rs[0].status == status {
        0
    } else {
        1 + find_status(rs.drop_first(), status)
    }
}

pub proof fn lemma_find_status(rs: Seq<ResponseEntryModel>, status: u16)
    ensures
        0 <= find_status(rs, status) <= rs.len(),
        find_status(rs, status) < rs.len() ==> rs[find_status(rs, status)].status == status,
        forall|k: int| 0 <= k < find_status(rs, status) ==> rs[k].status != status,
    decreases rs.len(),
{
    if rs.len() > 0 && rs[0].status != status {
        lemma_find_status(rs.drop_first(), status);
        assert forall|k: int| 0 <= k < find_status(rs, status) implies rs[k].status
            != status by {
            if k > 0 {
                assert(rs.drop_first()[k - 1] == rs[k]);
            }
        }
    }
}

/// Keyed insertion into the response list: an existing status code is
/// overwritten in place, a new one is appended.
pub open spec fn resp_insert(
    rs: Seq<ResponseEntryModel>,
    status: u16,
    resp: ResponseModel,
) -> Seq<ResponseEntryModel> {
    let f = find_status(rs, status);
    if f < rs.len() {
        rs.update(f, ResponseEntryModel { status, response: resp })
    } else {
        rs.push(ResponseEntryModel { status, response: resp })
    }
}

/// Whether some entry records `status`.
pub open spec fn has_status(rs: Seq<ResponseEntryModel>, status: u16) -> bool {
    exists|i: int| 0 <= i < rs.len() && rs[i].status == status
}

pub proof fn lemma_resp_insert_status(
    rs: Seq<ResponseEntryModel>,
    status: u16,
    resp: ResponseModel,
    s: u16,
)
    ensures
        has_status(resp_insert(rs, status, resp), s) <==> (has_status(rs, s) || s == status),
{
    lemma_find_status(rs, status);
    let f = find_status(rs, status);
    let out = resp_insert(rs, status, resp);
    if f < rs.len() {
        assert(rs[f].status == status);
        if has_status(rs, s) {
            let i = choose|i: int| 0 <= i < rs.len() && rs[i].status == s;
            if i == f {
                assert(out[f].status == s);
            } else {
                assert(out[i].status == s);
            }
        }
        if s == status {
            assert(out[f].status == s);
        }
        if has_status(out, s) {
            let i = choose|i: int| 0 <= i < out.len() && out[i].status == s;
            if i == f {
                assert(s == status);
            } else {
                assert(rs[i].status == s);
            }
        }
    } else {
        assert(out[rs.len() as int].status == status);
        if has_status(rs, s) {
            let i = choose|i: int| 0 <= i < rs.len() && rs[i].status == s;
            assert(out[i].status == s);
        }
        if has_status(out, s) {
            let i = choose|i: int| 0 <= i < out.len() && out[i].status == s;
            if i < rs.len() {
                assert(rs[i].status == s);
            }
        }
    }
}

/// The documented responses folded into the response list, in order, one
/// keyed insertion per documented response.
pub open spec fn docs_responses(ds: Seq<RespModel>, resp_type: Option<Seq<char>>) -> Seq<
    ResponseEntryModel,
>
    decreases ds.len(),
{
    if ds.len() == 0 {
        Seq::empty()
    } else {
        resp_insert(
            docs_responses(ds.drop_last(), resp_type),
            ds.last().status_code,
            doc_response_out(ds.last(), resp_type),
        )
    }
}

/// Whether the path template carries a parameter placeholder, in either
/// `:name` or `{name}` syntax.
pub open spec fn has_param(path: Seq<char>) -> bool {
    crate::strutil::idx_of_from(path, 0, ':') < path.len() || crate::strutil::idx_of_from(
        path,
        0,
        '{',
    ) < path.len()
}

/// Whether any documented response is an error response.
pub open spec fn any_error_status(ds: Seq<RespModel>) -> bool {
    exists|i: int| 0 <= i < ds.len() && ds[i].status_code >= 400
}

/// A synthesized error response: its description, and a reference to the
/// inferred error schema under `application/json`.
pub open spec fn error_response(desc: Seq<char>, err: Seq<char>) -> ResponseModel {
    ResponseModel { description: desc, content: seq![json_media_ref(err)] }
}

/// The standard error-response set backfilled when an error type was
/// inferred and no error response was documented: 400 and 500 always;
/// 401 and 403 only for methods that modify (never for a read-only GET);
/// 404 only when the path carries a parameter placeholder.
pub open spec fn add_backfill(
    rs: Seq<ResponseEntryModel>,
    m: Method,
    path: Seq<char>,
    err: Seq<char>,
) -> Seq<ResponseEntryModel> {
    let rs1 = resp_insert(rs, 400, error_response("Bad Request"@, err));
    let rs2 = if m == Method::Get {
        rs1
    } else {
        resp_insert(rs1, 401, error_response("Unauthorized"@, err))
    };
    let rs3 = if m == Method::Get {
        rs2
    } else {
        resp_insert(rs2, 403, error_response("Forbidden"@, err))
    };
    let rs4 = if has_param(path) {
        resp_insert(rs3, 404, error_response("Not Found"@, err))
    } else {
        rs3
    };
    resp_insert(rs4, 500, error_response("Internal Server Error"@, err))
}

/// The full response list of an operation. Without documented responses,
/// exactly one synthesized `200` — carrying a reference to the inferred
/// response type when known — plus `400` and `500` referencing the error
/// schema when an error type was inferred. With documented responses, one
/// entry per documented response, plus the asymmetric error backfill when
/// an error type was inferred and nothing at or above 400 was documented.
pub open spec fn spec_build_responses(
    path: Seq<char>,
    m: Method,
    resp_type: Option<Seq<char>>,
    err_type: Option<Seq<char>>,
    ds: Seq<RespModel>,
) -> Seq<ResponseEntryModel> {
    if ds.len() == 0 {
        let success = ResponseEntryModel {
            status: 200,
            response: ResponseModel {
                description: "Successful response"@,
                content: match resp_type {
                    Some(t) => seq![json_media_ref(t)],
                    None => Seq::empty(),
                },
            },
        };
        match err_type {
            Some(e) => seq![success].push(
                ResponseEntryModel { status: 400, response: error_response("Bad Request"@, e) },
            ).push(
                ResponseEntryModel {
                    status: 500,
                    response: error_response("Internal Server Error"@, e),
                },
            ),
            None => seq![success],
        }
    } else {
        let base = docs_responses(ds, resp_type);
        match err_type {
            Some(e) => if !any_error_status(ds) {
                add_backfill(base, m, path, e)
            } else {
                base
            },
            None => base,
        }
    }
}

/// The operation synthesized for one route.
pub open spec fn spec_operation(
    path: Seq<char>,
    m: Method,
    summary: Option<Seq<char>>,
    description: Option<Seq<char>>,
    params: Seq<ParamModel>,
    body: Option<BodyModel>,
    resp_type: Option<Seq<char>>,
    err_type: Option<Seq<char>>,
    ds: Seq<RespModel>,
) -> OperationModel {
    OperationModel {
        operation_id: Some(crate::paths::spec_operation_id(m, path)),
        summary: Some(
            match summary {
                Some(s) => s,
                None => crate::paths::spec_default_summary(m, path),
            },
        ),
        description,
        parameters: params_out(params),
        request_body: spec_request_body(body),
        responses: spec_build_responses(path, m, resp_type, err_type, ds),
    }
}

fn make_ref_string(name: &str) -> (r: String)
    ensures
        r@ == ref_of(name@),
{
    let mut r = String::from_str("#/components/schemas/");
    r.append(name);
    r
}

fn string_schema_exec() -> (r: Schema)
    ensures
        r@ == string_schema(),
{
    Schema {
        schema_type: Some(String::from_str("string")),
        title: None,
        description: None,
        properties: None,
        required: None,
    }
}

fn json_media_ref_exec(name: &str) -> (r: ContentEntry)
    ensures
        r@ == json_media_ref(name@),
{
    let r = ContentEntry {
        media_type: String::from_str("application/json"),
        media: MediaType {
            schema: Some(SchemaOrRef::Ref(make_ref_string(name))),
            examples: Vec::new(),
        },
    };
    proof {
        assert(r.media.examples.deep_view() =~= Seq::<ExampleEntryModel>::empty());
    }
    r
}

fn params_out_exec(docs: &Vec<ParameterDoc>) -> (r: Vec<Parameter>)
    ensures
        r.deep_view() == params_out(docs.deep_view()),
{
    let n = docs.len();
    let mut r: Vec<Parameter> = Vec::new();
    let mut i: usize = 0;
    proof {
        assert(r.deep_view() =~= params_out(docs.deep_view().take(0)));
    }
    while i < n
        invariant
            i <= n,
            n == docs.len(),
            r.deep_view() == params_out(docs.deep_view().take(i as int)),
        decreases n - i,
    {
        let ghost pre = r.deep_view();
        let ghost dv = docs.deep_view();
        let is_path = crate::strutil::str_eq(docs[i].param_type.as_str(), "path");
        let is_header = crate::strutil::str_eq(docs[i].param_type.as_str(), "header");
        let location: String = if is_path {
            String::from_str("path")
        } else if is_header {
            String::from_str("header")
        } else {
            String::from_str("query")
        };
        let p = Parameter {
            name: docs[i].name.clone(),
            location,
            description: Some(docs[i].description.clone()),
            required: is_path,
            schema: string_schema_exec(),
        };
        let ghost pm = p@;
        r.push(p);
        proof {
            reveal_strlit("path");
            reveal_strlit("header");
            reveal_strlit("query");
            assert(pm.name == param_out(dv[i as int]).name);
            assert(pm.location == param_out(dv[i as int]).location);
            assert(pm.description == param_out(dv[i as int]).description);
            assert(pm.required == param_out(dv[i as int]).required);
            assert(pm.schema =~~= param_out(dv[i as int]).schema);
            assert(pm =~~= param_out(dv[i as int]));
            assert(dv.take(i + 1).drop_last() =~= dv.take(i as int));
            assert(dv.take(i + 1).last() == dv[i as int]);
            assert(r.deep_view() =~= pre.push(pm));
        }
        i = i + 1;
    }
    proof {
        assert(docs.deep_view().take(n as int) =~= docs.deep_view());
    }
    r
}

fn request_body_exec(doc: &Option<RequestBodyDoc>) -> (r: Option<RequestBody>)
    ensures
        r.deep_view() == spec_request_body(doc.deep_view()),
{
    match doc {
        None => None,
        Some(b) => {
            let schema: SchemaOrRef = match &b.schema_type {
                Some(t) => SchemaOrRef::Ref(make_ref_string(t.as_str())),
                None => SchemaOrRef::Item(Schema::default()),
            };
            let mut content: Vec<ContentEntry> = Vec::new();
            content.push(
                ContentEntry {
                    media_type: b.content_type.clone(),
                    media: MediaType { schema: Some(schema), examples: Vec::new() },
                },
            );
            let r = RequestBody {
                description: Some(b.description.clone()),
                content,
                required: true,
            };
            proof {
                assert(r@.content =~~= spec_request_body(doc.deep_view())->Some_0.content);
            }
            Some(r)
        },
    }
}

fn examples_exec(es: &Option<Vec<ResponseExample>>) -> (r: Vec<ExampleEntry>)
    ensures
        r.deep_view() == examples_out(es.deep_view()),
{
    match es {
        None => {
            let r: Vec<ExampleEntry> = Vec::new();
            proof {
                assert(r.deep_view() =~= Seq::<ExampleEntryModel>::empty());
            }
            r
        },
        Some(v) => {
            let n = v.len();
            let mut r: Vec<ExampleEntry> = Vec::new();
            let mut i: usize = 0;
            proof {
                assert(r.deep_view() =~= examples_list(v.deep_view().take(0)));
            }
            while i < n
                invariant
                    i <= n,
                    n == v.len(),
                    r.deep_view() == examples_list(v.deep_view().take(i as int)),
                decreases n - i,
            {
                let ghost pre = r.deep_view();
                let ghost dv = v.deep_view();
                let e = ExampleEntry {
                    name: v[i].name.clone(),
                    example: ExampleObject {
                        summary: crate::docs::clone_opt_string(&v[i].summary),
                        value: Some(v[i].value.clone()),
                    },
                };
                let ghost em = e@;
                r.push(e);
                proof {
                    assert(dv.take(i + 1).drop_last() =~= dv.take(i as int));
                    assert(dv.take(i + 1).last() == dv[i as int]);
                    assert(r.deep_view() =~= pre.push(em));
                }
                i = i + 1;
            }
            proof {
                assert(v.deep_view().take(n as int) =~= v.deep_view());
            }
            r
        },
    }
}

fn doc_response_exec(d: &ResponseDoc, response_type: &Option<String>) -> (r: Response)
    ensures
        r@ == doc_response_out(d@, response_type.deep_view()),
{
    match &d.content {
        Some(ci) => {
            let schema: SchemaOrRef = match &ci.schema {
                Some(nm) => SchemaOrRef::Ref(make_ref_string(nm.as_str())),
                None => {
                    let use_ref = d.status_code == 200;
                    match response_type {
                        Some(t) => if use_ref {
                            SchemaOrRef::Ref(make_ref_string(t.as_str()))
                        } else {
                            SchemaOrRef::Item(Schema::default())
                        },
                        None => SchemaOrRef::Item(Schema::default()),
                    }
                },
            };
            let examples = examples_exec(&d.examples);
            let mut content: Vec<ContentEntry> = Vec::new();
            content.push(
                ContentEntry {
                    media_type: ci.media_type.clone(),
                    media: MediaType { schema: Some(schema), examples },
                },
            );
            let r = Response { description: d.description.clone(), content };
            proof {
                assert(r@.content =~~= doc_response_out(d@, response_type.deep_view()).content);
            }
            r
        },
        None => {
            if d.status_code == 200 {
                match response_type {
                    Some(t) => {
                        let mut content: Vec<ContentEntry> = Vec::new();
                        content.push(json_media_ref_exec(t.as_str()));
                        let r = Response { description: d.description.clone(), content };
                        proof {
                            assert(r@.content =~~= seq![
                                json_media_ref(response_type.deep_view()->Some_0),
                            ]);
                        }
                        r
                    },
                    None => {
                        let r = Response {
                            description: d.description.clone(),
                            content: Vec::new(),
                        };
                        proof {
                            assert(r@.content =~= Seq::<ContentEntryModel>::empty());
                        }
                        r
                    },
                }
            } else {
                let r = Response { description: d.description.clone(), content: Vec::new() };
                proof {
                    assert(r@.content =~= Seq::<ContentEntryModel>::empty());
                }
                r
            }
        },
    }
}

fn error_response_exec(desc: &str, err: &str) -> (r: Response)
    ensures
        r@ == error_response(desc@, err@),
{
    let mut content: Vec<ContentEntry> = Vec::new();
    content.push(json_media_ref_exec(err));
    let r = Response { description: String::from_str(desc), content };
    proof {
        assert(r@.content =~~= seq![json_media_ref(err@)]);
    }
    r
}

fn resp_insert_exec(rs: &mut Vec<ResponseEntry>, status: u16, resp: Response)
    ensures
        final(rs).deep_view() == resp_insert(old(rs).deep_view(), status, resp@),
{
    let ghost rv = rs.deep_view();
    let ghost rm = resp@;
    proof {
        lemma_find_status(rv, status);
    }
    let n = rs.len();
    let mut i: usize = 0;
    while i < n
        invariant
            i <= n,
            n == rs.len(),
            rs.deep_view() == rv,
            rv == old(rs).deep_view(),
            rm == resp@,
            forall|k: int| 0 <= k < i ==> rv[k].status != status,
        decreases n - i,
    {
        if rs[i].status == status {
            proof {
                assert(find_status(rv, status) == i as int) by {
                    lemma_find_status(rv, status);
                    assert(rv[i as int].status == status);
                }
            }
            let ghost vv = rs@;
            let e = ResponseEntry { status, response: resp };
            let ghost ev = e;
            let _old = rs.remove(i);
            rs.insert(i, e);
            proof {
                assert(rs@ =~= vv.update(i as int, ev));
                assert forall|k: int| 0 <= k < rs.deep_view().len() implies rs.deep_view()[k]
                    =~~= rv.update(i as int, ResponseEntryModel { status, response: rm })[k] by {
                    assert(rs.deep_view()[k] == rs@[k].deep_view());
                    if k != i as int {
                        assert(rs@[k] == vv[k]);
                        assert(rv[k] == vv[k].deep_view());
                        assert(rv.update(
                            i as int,
                            ResponseEntryModel { status, response: rm },
                        )[k] == rv[k]);
                    } else {
                        assert(rs@[k] == ev);
                        assert(ev.deep_view().response == rm);
                        assert(rv.update(
                            i as int,
                            ResponseEntryModel { status, response: rm },
                        )[k] == ResponseEntryModel { status, response: rm });
                    }
                }
                assert(rs.deep_view() =~~= rv.update(
                    i as int,
                    ResponseEntryModel { status, response: rm },
                ));
            }
            return ;
        }
        i = i + 1;
    }
    proof {
        assert(find_status(rv, status) == rv.len()) by {
            lemma_find_status(rv, status);
            if find_status(rv, status) < rv.len() {
                assert(rv[find_status(rv, status)].status == status);
            }
        }
    }
    rs.push(ResponseEntry { status, response: resp });
    proof {
        assert(rs.deep_view() =~~= rv.push(ResponseEntryModel { status, response: rm }));
    }
}

fn has_param_exec(path: &str) -> (r: bool)
    ensures
        r == has_param(path@),
{
    let n = path.unicode_len();
    let a = crate::strutil::find_from(path, 0, ':');
    let b = crate::strutil::find_from(path, 0, '{');
    a < n || b < n
}

fn any_error_exec(ds: &Vec<ResponseDoc>) -> (r: bool)
    ensures
        r == any_error_status(ds.deep_view()),
{
    let n = ds.len();
    let mut i: usize = 0;
    while i < n
        invariant
            i <= n,
            n == ds.len(),
            forall|k: int| 0 <= k < i ==> ds.deep_view()[k].status_code < 400,
        decreases n - i,
    {
        if ds[i].status_code >= 400 {
            proof {
                assert(ds.deep_view()[i as int].status_code >= 400);
            }
            return true;
        }
        i = i + 1;
    }
    false
}

/// Synthesizes the operation for one route from its path, method and the
/// handler's documentation: a stable operation id, the documented or
/// generated summary, parameters, request body and the full response
/// list with its backfill rules.
pub fn create_operation_with_params_and_responses(
    path: &str,
    method: Method,
    summary: Option<&str>,
    description: Option<&str>,
    parameter_docs: &Vec<ParameterDoc>,
    request_body_doc: &Option<RequestBodyDoc>,
    response_type: &Option<String>,
    error_type: &Option<String>,
    response_docs: &Vec<ResponseDoc>,
) -> (r: Operation)
    ensures
        r@ == spec_operation(
            path@,
            method,
            summary.deep_view(),
            description.deep_view(),
            parameter_docs.deep_view(),
            request_body_doc.deep_view(),
            response_type.deep_view(),
            error_type.deep_view(),
            response_docs.deep_view(),
        ),
{
    let operation_id = crate::paths::operation_id(method, path);
    let summary_s: String = match summary {
        Some(s) => String::from_str(s),
        None => crate::paths::default_summary(method, path),
    };
    let description_s: Option<String> = match description {
        Some(d) => Some(String::from_str(d)),
        None => None,
    };
    let parameters = params_out_exec(parameter_docs);
    let request_body = request_body_exec(request_body_doc);
    let mut responses: Vec<ResponseEntry> = Vec::new();
    if response_docs.len() == 0 {
        let content: Vec<ContentEntry> = match response_type {
            Some(t) => {
                let mut c: Vec<ContentEntry> = Vec::new();
                c.push(json_media_ref_exec(t.as_str()));
                c
            },
            None => Vec::new(),
        };
        proof {
            match response_type.deep_view() {
                Some(t) => {
                    assert(content.deep_view() =~~= seq![json_media_ref(t)]);
                },
                None => {
                    assert(content.deep_view() =~= Seq::<ContentEntryModel>::empty());
                },
            }
        }
        responses.push(
            ResponseEntry {
                status: 200,
                response: Response {
                    description: String::from_str("Successful response"),
                    content,
                },
            },
        );
        match error_type {
            Some(e) => {
                responses.push(
                    ResponseEntry {
                        status: 400,
                        response: error_response_exec("Bad Request", e.as_str()),
                    },
                );
                responses.push(
                    ResponseEntry {
                        status: 500,
                        response: error_response_exec("Internal Server Error", e.as_str()),
                    },
                );
            },
            None => {},
        }
        proof {
            assert(responses.deep_view() =~~= spec_build_responses(
                path@,
                method,
                response_type.deep_view(),
                error_type.deep_view(),
                response_docs.deep_view(),
            ));
        }
    } else {
        let n = response_docs.len();
        let mut i: usize = 0;
        proof {
            assert(responses.deep_view() =~= docs_responses(
                response_docs.deep_view().take(0),
                response_type.deep_view(),
            ));
        }
        while i < n
            invariant
                i <= n,
                n == response_docs.len(),
                responses.deep_view() == docs_responses(
                    response_docs.deep_view().take(i as int),
                    response_type.deep_view(),
                ),
            decreases n - i,
        {
            let ghost dv = response_docs.deep_view();
            let resp = doc_response_exec(&response_docs[i], response_type);
            resp_insert_exec(&mut responses, response_docs[i].status_code, resp);
            proof {
                assert(dv.take(i + 1).drop_last() =~= dv.take(i as int));
                assert(dv.take(i + 1).last() == dv[i as int]);
            }
            i = i + 1;
        }
        proof {
            assert(response_docs.deep_view().take(n as int) =~= response_docs.deep_view());
        }
        match error_type {
            Some(e) => {
                if !any_error_exec(response_docs) {
                    resp_insert_exec(
                        &mut responses,
                        400,
                        error_response_exec("Bad Request", e.as_str()),
                    );
                    if !matches!(method, Method::Get) {
                        resp_insert_exec(
                            &mut responses,
                            401,
                            error_response_exec("Unauthorized", e.as_str()),
                        );
                        resp_insert_exec(
                            &mut responses,
                            403,
                            error_response_exec("Forbidden", e.as_str()),
                        );
                    }
                    if has_param_exec(path) {
                        resp_insert_exec(
                            &mut responses,
                            404,
                            error_response_exec("Not Found", e.as_str()),
                        );
                    }
                    resp_insert_exec(
                        &mut responses,
                        500,
                        error_response_exec("Internal Server Error", e.as_str()),
                    );
                }
            },
            None => {},
        }
    }
    Operation {
        operation_id: Some(operation_id),
        summary: Some(summary_s),
        description: description_s,
        parameters,
        request_body,
        responses,
    }
}

/// One registered route: path, method, and a snapshot of the handler's
/// documentation taken at registration time.
#[derive(Debug)]
pub struct RouteInfo {
    /// The route's path template, in the `:name` syntax it was registered
    /// with.
    pub path: String,
    /// The route's HTTP method.
    pub method: Method,
    /// The documented summary, if any.
    pub summary: Option<String>,
    /// The documented description, if any.
    pub description: Option<String>,
    /// The documented parameters.
    pub parameters: Vec<ParameterDoc>,
    /// The documented request body, if any.
    pub request_body: Option<RequestBodyDoc>,
    /// The documented responses.
    pub responses: Vec<ResponseDoc>,
}

#[verifier::ext_equal]
pub struct RouteModel {
    pub path: Seq<char>,
    pub method: Method,
    pub summary: Option<Seq<char>>,
    pub description: Option<Seq<char>>,
    pub parameters: Seq<ParamModel>,
    pub request_body: Option<BodyModel>,
    pub responses: Seq<RespModel>,
}

impl View for RouteInfo {
    type V = RouteModel;

    open spec fn view(&self) -> RouteModel {
        RouteModel {
            path: self.path@,
            method: self.method,
            summary: self.summary.deep_view(),
            description: self.description.deep_view(),
            parameters: self.parameters.deep_view(),
            request_body: self.request_body.deep_view(),
            responses: self.responses.deep_view(),
        }
    }
}

impl DeepView for RouteInfo {
    type V = RouteModel;

    open spec fn deep_view(&self) -> RouteModel {
        self.view()
    }
}

/// The route snapshot taken when documentation `d` is registered under a
/// path and method.
pub open spec fn route_of(path: Seq<char>, m: Method, d: HandlerDocModel) -> RouteModel {
    RouteModel {
        path,
        method: m,
        summary: d.summary,
        description: d.description,
        parameters: d.parameters,
        request_body: d.request_body,
        responses: d.responses,
    }
}

/// The component table held by an optional components section.
pub open spec fn components_table(c: Option<ComponentsModel>) -> Seq<SchemaEntryModel> {
    match c {
        Some(cc) => cc.schemas,
        None => Seq::empty(),
    }
}

/// The type names a handler's documentation references, in registration
/// order: the request body's schema type, the response type, the error
/// type.
pub open spec fn schema_types_of(d: HandlerDocModel) -> Seq<Seq<char>> {
    (match d.request_body {
        Some(b) => match b.schema_type {
            Some(t) => seq![t],
            None => Seq::empty(),
        },
        None => Seq::empty(),
    }) + (match d.response_type {
        Some(t) => seq![t],
        None => Seq::empty(),
    }) + (match d.error_type {
        Some(t) => seq![t],
        None => Seq::empty(),
    })
}

/// Registers one type name in the component table: already-present names
/// are left alone (first write wins); otherwise the schema registered for
/// the name is appended, the generic empty object when none is.
pub open spec fn table_register(
    tbl: Seq<SchemaEntryModel>,
    reg: Seq<SchemaEntryModel>,
    name: Seq<char>,
) -> Seq<SchemaEntryModel> {
    if schema_table_contains(tbl, name) {
        tbl
    } else {
        tbl.push(
            SchemaEntryModel {
                name,
                schema: match schema_lookup(reg, name) {
                    Some(s) => s,
                    None => SchemaModel::empty_object(),
                },
            },
        )
    }
}

/// All names registered in order.
pub open spec fn table_register_all(
    tbl: Seq<SchemaEntryModel>,
    reg: Seq<SchemaEntryModel>,
    names: Seq<Seq<char>>,
) -> Seq<SchemaEntryModel>
    decreases names.len(),
{
    if names.len() == 0 {
        tbl
    } else {
        table_register(table_register_all(tbl, reg, names.drop_last()), reg, names.last())
    }
}

/// The path item with the slot for one method replaced.
pub open spec fn set_method_op(item: PathItemModel, m: Method, op: OperationModel) -> PathItemModel {
    match m {
        Method::Get => PathItemModel { get: Some(op), ..item },
        Method::Post => PathItemModel { post: Some(op), ..item },
        Method::Put => PathItemModel { put: Some(op), ..item },
        Method::Delete => PathItemModel { delete: Some(op), ..item },
        Method::Patch => PathItemModel { patch: Some(op), ..item },
    }
}

/// The first index holding `key`, or the length when none does.
pub open spec fn find_path(ps: Seq<PathEntryModel>, key: Seq<char>) -> int
    decreases ps.len(),
{
    if ps.len() == 0 {
        0
    } else if ps[0].path == key {
        0
    } else {
        1 + find_path(ps.drop_first(), key)
    }
}

pub proof fn lemma_find_path(ps: Seq<PathEntryModel>, key: Seq<char>)
    ensures
        0 <= find_path(ps, key) <= ps.len(),
        find_path(ps, key) < ps.len() ==> ps[find_path(ps, key)].path == key,
        forall|k: int| 0 <= k < find_path(ps, key) ==> ps[k].path != key,
    decreases ps.len(),
{
    if ps.len() > 0 && ps[0].path != key {
        lemma_find_path(ps.drop_first(), key);
        assert forall|k: int| 0 <= k < find_path(ps, key) implies ps[k].path != key by {
            if k > 0 {
                assert(ps.drop_first()[k - 1] == ps[k]);
            }
        }
    }
}

/// Installs an operation under a path key: an existing entry keeps its
/// place and its other methods' operations; a new key is appended with a
/// fresh path item.
pub open spec fn paths_upsert(
    ps: Seq<PathEntryModel>,
    key: Seq<char>,
    m: Method,
    op: OperationModel,
) -> Seq<PathEntryModel> {
    let f = find_path(ps, key);
    if f < ps.len() {
        ps.update(f, PathEntryModel { path: key, item: set_method_op(ps[f].item, m, op) })
    } else {
        ps.push(PathEntryModel { path: key, item: set_method_op(PathItemModel::empty(), m, op) })
    }
}

/// The handler name as it is looked up: the suffix after the last `::`,
/// with every `{{closure}}` marker removed, trimmed.
pub open spec fn clean_name(s: Seq<char>) -> Seq<char> {
    crate::strutil::trim_spec(
        crate::strutil::remove_all(crate::strutil::after_last_sep(s), "{{closure}}"@),
    )
}

/// A router that records handler documentation and route registrations
/// and keeps a queryable OpenAPI document in step with them.
#[derive(Debug)]
pub struct DocumentedRouter {
    /// The routes registered so far, in registration order.
    pub routes: Vec<RouteInfo>,
    /// The document built so far.
    pub spec: OpenAPI,
    /// The handler documentation registry, populated at bootstrap.
    pub registry: Vec<HandlerDocEntry>,
    /// The type-schema registry, populated at bootstrap.
    pub types: Vec<SchemaEntry>,
}

#[verifier::ext_equal]
pub struct RouterModel {
    pub routes: Seq<RouteModel>,
    pub spec: OpenAPIModel,
    pub registry: Seq<HandlerEntryModel>,
    pub types: Seq<SchemaEntryModel>,
}

impl View for DocumentedRouter {
    type V = RouterModel;

    open spec fn view(&self) -> RouterModel {
        RouterModel {
            routes: self.routes.deep_view(),
            spec: self.spec@,
            registry: self.registry.deep_view(),
            types: self.types.deep_view(),
        }
    }
}

/// The router model after one route registration: the route recorded, the
/// referenced type schemas registered, and the operation installed under
/// the translated path.
pub open spec fn router_after_route(
    m0: RouterModel,
    path: Seq<char>,
    method: Method,
    docs: HandlerDocModel,
) -> RouterModel {
    RouterModel {
        routes: m0.routes.push(route_of(path, method, docs)),
        registry: m0.registry,
        types: m0.types,
        spec: OpenAPIModel {
            openapi: m0.spec.openapi,
            info: m0.spec.info,
            paths: paths_upsert(
                m0.spec.paths,
                crate::paths::translate_path(path),
                method,
                spec_operation(
                    path,
                    method,
                    docs.summary,
                    docs.description,
                    docs.parameters,
                    docs.request_body,
                    docs.response_type,
                    docs.error_type,
                    docs.responses,
                ),
            ),
            components: Some(
                ComponentsModel {
                    schemas: table_register_all(
                        components_table(m0.spec.components),
                        m0.types,
                        schema_types_of(docs),
                    ),
                },
            ),
        },
    }
}

fn set_op(item: &mut PathItem, m: Method, op: Operation)
    ensures
        final(item)@ == set_method_op(old(item)@, m, op@),
{
    match m {
        Method::Get => {
            item.get = Some(op);
        },
        Method::Post => {
            item.post = Some(op);
        },
        Method::Put => {
            item.put = Some(op);
        },
        Method::Delete => {
            item.delete = Some(op);
        },
        Method::Patch => {
            item.patch = Some(op);
        },
    }
}

fn find_path_exec(ps: &Vec<PathEntry>, key: &str) -> (r: usize)
    ensures
        r == find_path(ps.deep_view(), key@),
{
    let ghost pv = ps.deep_view();
    proof {
        lemma_find_path(pv, key@);
    }
    let n = ps.len();
    let mut i: usize = 0;
    while i < n
        invariant
            i <= n,
            n == ps.len(),
            pv == ps.deep_view(),
            forall|k: int| 0 <= k < i ==> pv[k].path != key@,
        decreases n - i,
    {
        if crate::strutil::str_eq(ps[i].path.as_str(), key) {
            proof {
                lemma_find_path(pv, key@);
                assert(pv[i as int].path == key@);
            }
            return i;
        }
        i = i + 1;
    }
    proof {
        lemma_find_path(pv, key@);
        if find_path(pv, key@) < pv.len() {
            assert(pv[find_path(pv, key@)].path == key@);
        }
    }
    n
}

impl DocumentedRouter {
    /// A fresh router carrying an empty OpenAPI 3.0.3 document with the
    /// given title and version.
    pub fn new(title: &str, version: &str) -> (r: DocumentedRouter)
        ensures
            r@.routes == Seq::<RouteModel>::empty(),
            r@.registry == Seq::<HandlerEntryModel>::empty(),
            r@.types == Seq::<SchemaEntryModel>::empty(),
            r@.spec.openapi == "3.0.3"@,
            r@.spec.info.title == title@,
            r@.spec.info.version == version@,
            r@.spec.info.description is None,
            r@.spec.paths == Seq::<PathEntryModel>::empty(),
            r@.spec.components is None,
    {
        let r = DocumentedRouter {
            routes: Vec::new(),
            spec: OpenAPI {
                openapi: String::from_str("3.0.3"),
                info: Info {
                    title: String::from_str(title),
                    version: String::from_str(version),
                    description: None,
                },
                paths: Vec::new(),
                components: None,
            },
            registry: Vec::new(),
            types: Vec::new(),
        };
        proof {
            assert(r@.routes =~= Seq::<RouteModel>::empty());
            assert(r@.registry =~= Seq::<HandlerEntryModel>::empty());
            assert(r@.types =~= Seq::<SchemaEntryModel>::empty());
            assert(r@.spec.paths =~= Seq::<PathEntryModel>::empty());
        }
        r
    }

    /// Records documentation for a handler name; called once per handler
    /// while the application boots.
    pub fn register_handler_docs(&mut self, name: &str, docs: HandlerDocumentation)
        ensures
            final(self)@ == (RouterModel {
                registry: old(self)@.registry.push(
                    HandlerEntryModel { name: name@, docs: docs@ },
                ),
                ..old(self)@
            }),
    {
        let ghost pre = self.registry.deep_view();
        let ghost dm = docs@;
        self.registry.push(HandlerDocEntry { name: String::from_str(name), docs });
        proof {
            assert(self.registry.deep_view() =~~= pre.push(
                HandlerEntryModel { name: name@, docs: dm },
            ));
            assert(self@ =~~= (RouterModel {
                registry: pre.push(HandlerEntryModel { name: name@, docs: dm }),
                ..old(self)@
            }));
        }
    }

    /// Records the schema of a type name; called once per type while the
    /// application boots.
    pub fn register_type_schema(&mut self, name: &str, schema: Schema)
        ensures
            final(self)@ == (RouterModel {
                types: old(self)@.types.push(SchemaEntryModel { name: name@, schema: schema@ }),
                ..old(self)@
            }),
    {
        let ghost pre = self.types.deep_view();
        let ghost sm = schema@;
        self.types.push(SchemaEntry { name: String::from_str(name), schema });
        proof {
            assert(self.types.deep_view() =~~= pre.push(
                SchemaEntryModel { name: name@, schema: sm },
            ));
            assert(self@ =~~= (RouterModel {
                types: pre.push(SchemaEntryModel { name: name@, schema: sm }),
                ..old(self)@
            }));
        }
    }

    /// Looks the schema registered for a type name up.
    pub fn try_generate_schema(&self, name: &str) -> (r: Option<Schema>)
        ensures
            r.deep_view() == schema_lookup(self@.types, name@),
    {
        let ghost tv = self.types.deep_view();
        let n = self.types.len();
        let mut i: usize = 0;
        proof {
            assert(tv.skip(0) =~= tv);
        }
        while i < n
            invariant
                i <= n,
                n == self.types.len(),
                tv == self.types.deep_view(),
                schema_lookup(tv, name@) == schema_lookup(tv.skip(i as int), name@),
            decreases n - i,
        {
            proof {
                assert(tv.skip(i as int)[0] == tv[i as int]);
                assert(tv.skip(i as int).drop_first() =~= tv.skip(i as int + 1));
            }
            if crate::strutil::str_eq(self.types[i].name.as_str(), name) {
                return Some(self.types[i].schema.clone());
            }
            i = i + 1;
        }
        None
    }

    /// Makes sure the components section exists and holds a schema for
    /// `name`: a registered schema if the type registry has one, a generic
    /// empty object otherwise; a name already present is left untouched.
    fn register_schema_if_available(&mut self, name: &str)
        ensures
            final(self)@ == (RouterModel {
                spec: OpenAPIModel {
                    components: Some(
                        ComponentsModel {
                            schemas: table_register(
                                components_table(old(self)@.spec.components),
                                old(self)@.types,
                                name@,
                            ),
                        },
                    ),
                    ..old(self)@.spec
                },
                ..old(self)@
            }),
    {
        if self.spec.components.is_none() {
            self.spec.components = Some(Components { schemas: Vec::new() });
            proof {
                assert(self.spec.components.deep_view()->Some_0.schemas
                    =~= components_table(old(self)@.spec.components));
            }
        }
        let schema_opt = self.try_generate_schema(name);
        match &mut self.spec.components {
            Some(c) => {
                if !c.contains_schema(name) {
                    let ghost pre = c.schemas.deep_view();
                    let schema: Schema = match schema_opt {
                        Some(s) => s,
                        None => Schema::default(),
                    };
                    let ghost sm = schema@;
                    c.schemas.push(SchemaEntry { name: String::from_str(name), schema });
                    proof {
                        assert(c.schemas.deep_view() =~~= pre.push(
                            SchemaEntryModel { name: name@, schema: sm },
                        ));
                    }
                }
            },
            None => {},
        }
        proof {
            assert(final(self)@ =~~= (RouterModel {
                spec: OpenAPIModel {
                    components: Some(
                        ComponentsModel {
                            schemas: table_register(
                                components_table(old(self)@.spec.components),
                                old(self)@.types,
                                name@,
                            ),
                        },
                    ),
                    ..old(self)@.spec
                },
                ..old(self)@
            }));
        }
    }

    /// Registers one route: takes a snapshot of the documentation into the
    /// route list, registers every referenced type schema, and installs
    /// the synthesized operation in the document under the translated
    /// path. Nothing here ever fails; missing information degrades to
    /// documented defaults.
    pub fn register_route(&mut self, path: &str, method: Method, docs: HandlerDocumentation)
        ensures
            final(self)@ == router_after_route(old(self)@, path@, method, docs@),
    {
        let ghost m0 = self@;
        let ghost dm = docs@;
        let summary_ref: Option<&str> = match &docs.summary {
            Some(s) => Some(s.as_str()),
            None => None,
        };
        let description_ref: Option<&str> = match &docs.description {
            Some(s) => Some(s.as_str()),
            None => None,
        };
        let op = create_operation_with_params_and_responses(
            path,
            method,
            summary_ref,
            description_ref,
            &docs.parameters,
            &docs.request_body,
            &docs.response_type,
            &docs.error_type,
            &docs.responses,
        );
        let ghost opm = op@;
        let mut names: Vec<String> = Vec::new();
        match &docs.request_body {
            Some(b) => match &b.schema_type {
                Some(t) => {
                    names.push(t.clone());
                },
                None => {},
            },
            None => {},
        }
        match &docs.response_type {
            Some(t) => {
                names.push(t.clone());
            },
            None => {},
        }
        match &docs.error_type {
            Some(t) => {
                names.push(t.clone());
            },
            None => {},
        }
        proof {
            assert(names.deep_view() =~= schema_types_of(dm));
        }
        let route = RouteInfo {
            path: String::from_str(path),
            method,
            summary: docs.summary,
            description: docs.description,
            parameters: docs.parameters,
            request_body: docs.request_body,
            responses: docs.responses,
        };
        let ghost rm = route@;
        self.routes.push(route);
        proof {
            assert(self.routes.deep_view() =~~= m0.routes.push(route_of(path@, method, dm)));
        }
        let ghost names_model = names.deep_view();
        let n = names.len();
        let mut i: usize = 0;
        while i < n
            invariant
                i <= n,
                n == names.len(),
                names.deep_view() == names_model,
                self@.routes == m0.routes.push(route_of(path@, method, dm)),
                self@.registry == m0.registry,
                self@.types == m0.types,
                self@.spec.openapi == m0.spec.openapi,
                self@.spec.info == m0.spec.info,
                self@.spec.paths == m0.spec.paths,
                self@.spec.components == Some(
                    ComponentsModel {
                        schemas: table_register_all(
                            components_table(m0.spec.components),
                            m0.types,
                            names_model.take(i as int),
                        ),
                    },
                ) || (i == 0 && self@.spec.components == m0.spec.components),
            decreases n - i,
        {
            let ghost pre = self@;
            self.register_schema_if_available(names[i].as_str());
            proof {
                assert(names_model.take(i as int + 1).drop_last() =~= names_model.take(i as int));
                assert(names_model.take(i as int + 1).last() == names_model[i as int]);
                if i == 0 && pre.spec.components == m0.spec.components {
                    assert(components_table(pre.spec.components) =~= table_register_all(
                        components_table(m0.spec.components),
                        m0.types,
                        names_model.take(0),
                    ));
                }
            }
            i = i + 1;
        }
        if self.spec.components.is_none() {
            self.spec.components = Some(Components { schemas: Vec::new() });
            proof {
                assert(self.spec.components.deep_view()->Some_0.schemas =~= Seq::<
                    SchemaEntryModel,
                >::empty());
            }
        }
        proof {
            assert(names_model.take(n as int) =~= names_model);
            if n == 0 {
                match m0.spec.components {
                    Some(c) => {
                        assert(components_table(m0.spec.components) =~= c.schemas);
                    },
                    None => {},
                }
            }
            assert(self@.spec.components == Some(
                ComponentsModel {
                    schemas: table_register_all(
                        components_table(m0.spec.components),
                        m0.types,
                        schema_types_of(dm),
                    ),
                },
            ));
        }
        let key = crate::paths::convert_path_params(path);
        let ghost keym = key@;
        let ghost paths_pre = self.spec.paths.deep_view();
        proof {
            lemma_find_path(paths_pre, keym);
        }
        let idx = find_path_exec(&self.spec.paths, key.as_str());
        let plen = self.spec.paths.len();
        if idx < plen {
            let ghost vv = self.spec.paths@;
            let mut entry = self.spec.paths.remove(idx);
            set_op(&mut entry.item, method, op);
            let ghost ev = entry;
            self.spec.paths.insert(idx, entry);
            proof {
                assert(self.spec.paths@ =~= vv.update(idx as int, ev));
                assert forall|k: int| 0 <= k < self.spec.paths.deep_view().len() implies self.spec.paths.deep_view()[k]
                    =~~= paths_upsert(paths_pre, keym, method, opm)[k] by {
                    assert(self.spec.paths.deep_view()[k] == self.spec.paths@[k].deep_view());
                    if k != idx as int {
                        assert(self.spec.paths@[k] == vv[k]);
                        assert(paths_pre[k] == vv[k].deep_view());
                    } else {
                        assert(self.spec.paths@[k] == ev);
                    }
                }
                assert(self.spec.paths.deep_view() =~~= paths_upsert(
                    paths_pre,
                    keym,
                    method,
                    opm,
                ));
            }
        } else {
            let mut item = PathItem::empty();
            set_op(&mut item, method, op);
            let entry = PathEntry { path: key, item };
            let ghost ev = entry;
            let ghost vv = self.spec.paths@;
            self.spec.paths.push(entry);
            proof {
                assert(self.spec.paths@ =~= vv.push(ev));
                assert forall|k: int| 0 <= k < self.spec.paths.deep_view().len() implies self.spec.paths.deep_view()[k]
                    =~~= paths_upsert(paths_pre, keym, method, opm)[k] by {
                    assert(self.spec.paths.deep_view()[k] == self.spec.paths@[k].deep_view());
                    if k < vv.len() {
                        assert(self.spec.paths@[k] == vv[k]);
                        assert(paths_pre[k] == vv[k].deep_view());
                    } else {
                        assert(self.spec.paths@[k] == ev);
                    }
                }
                assert(self.spec.paths.deep_view() =~~= paths_upsert(
                    paths_pre,
                    keym,
                    method,
                    opm,
                ));
            }
        }
        proof {
            assert(final(self)@ =~~= router_after_route(m0, path@, method, dm));
        }
    }

    /// Looks documentation up under a bare function name; an unregistered
    /// name yields the all-empty record, never an error.
    pub fn get_docs_for_function(&self, fn_name: &str) -> (r: HandlerDocumentation)
        ensures
            r@ == registry_lookup(self@.registry, fn_name@),
    {
        let ghost rv = self.registry.deep_view();
        let n = self.registry.len();
        let mut i: usize = 0;
        proof {
            assert(rv.skip(0) =~= rv);
        }
        while i < n
            invariant
                i <= n,
                n == self.registry.len(),
                rv == self.registry.deep_view(),
                registry_lookup(rv, fn_name@) == registry_lookup(rv.skip(i as int), fn_name@),
            decreases n - i,
        {
            proof {
                assert(rv.skip(i as int)[0] == rv[i as int]);
                assert(rv.skip(i as int).drop_first() =~= rv.skip(i as int + 1));
            }
            if crate::strutil::str_eq(self.registry[i].name.as_str(), fn_name) {
                return self.registry[i].docs.clone_doc();
            }
            i = i + 1;
        }
        HandlerDocumentation::empty()
    }

    /// Looks documentation up under a handler's full type-path name: the
    /// part after the last `::` is taken, closure markers are removed, and
    /// the result is trimmed before the registry is consulted.
    pub fn lookup_handler_docs(&self, handler_name: &str) -> (r: HandlerDocumentation)
        ensures
            r@ == registry_lookup(self@.registry, clean_name(handler_name@)),
    {
        let suffix = crate::strutil::suffix_after_last_sep(handler_name);
        proof {
            reveal_strlit("{{closure}}");
        }
        let removed = crate::strutil::remove_all_str(suffix.as_str(), "{{closure}}");
        let cleaned = crate::strutil::trim(removed.as_str());
        self.get_docs_for_function(cleaned.as_str())
    }

    /// Registers a route with no documentation at all, under GET.
    pub fn route(self, path: &str) -> (r: Self)
        ensures
            r@ == router_after_route(self@, path@, Method::Get, HandlerDocModel::empty()),
    {
        let mut s = self;
        s.register_route(path, Method::Get, HandlerDocumentation::empty());
        s
    }

    /// Registers a GET route under the named handler's documentation.
    pub fn get(self, path: &str, handler_name: &str) -> (r: Self)
        ensures
            r@ == router_after_route(
                self@,
                path@,
                Method::Get,
                registry_lookup(self@.registry, clean_name(handler_name@)),
            ),
    {
        let docs = self.lookup_handler_docs(handler_name);
        let mut s = self;
        s.register_route(path, Method::Get, docs);
        s
    }

    /// Registers a POST route under the named handler's documentation.
    pub fn post(self, path: &str, handler_name: &str) -> (r: Self)
        ensures
            r@ == router_after_route(
                self@,
                path@,
                Method::Post,
                registry_lookup(self@.registry, clean_name(handler_name@)),
            ),
    {
        let docs = self.lookup_handler_docs(handler_name);
        let mut s = self;
        s.register_route(path, Method::Post, docs);
        s
    }

    /// Registers a PUT route under the named handler's documentation.
    pub fn put(self, path: &str, handler_name: &str) -> (r: Self)
        ensures
            r@ == router_after_route(
                self@,
                path@,
                Method::Put,
                registry_lookup(self@.registry, clean_name(handler_name@)),
            ),
    {
        let docs = self.lookup_handler_docs(handler_name);
        let mut s = self;
        s.register_route(path, Method::Put, docs);
        s
    }

    /// Registers a DELETE route under the named handler's documentation.
    pub fn delete(self, path: &str, handler_name: &str) -> (r: Self)
        ensures
            r@ == router_after_route(
                self@,
                path@,
                Method::Delete,
                registry_lookup(self@.registry, clean_name(handler_name@)),
            ),
    {
        let docs = self.lookup_handler_docs(handler_name);
        let mut s = self;
        s.register_route(path, Method::Delete, docs);
        s
    }

    /// Registers a PATCH route under the named handler's documentation.
    pub fn patch(self, path: &str, handler_name: &str) -> (r: Self)
        ensures
            r@ == router_after_route(
                self@,
                path@,
                Method::Patch,
                registry_lookup(self@.registry, clean_name(handler_name@)),
            ),
    {
        let docs = self.lookup_handler_docs(handler_name);
        let mut s = self;
        s.register_route(path, Method::Patch, docs);
        s
    }

    /// The document built so far; it reflects every registration made up
    /// to this point.
    pub fn openapi_spec(&self) -> (r: &OpenAPI)
        ensures
            r@ == self@.spec,
    {
        &self.spec
    }
}

proof fn lemma_table_register_contains(
    tbl: Seq<SchemaEntryModel>,
    reg: Seq<SchemaEntryModel>,
    name: Seq<char>,
)
    ensures
        schema_table_contains(table_register(tbl, reg, name), name),
        forall|x: Seq<char>|
            schema_table_contains(tbl, x) ==> schema_table_contains(
                table_register(tbl, reg, name),
                x,
            ),
{
    let out = table_register(tbl, reg, name);
    if !schema_table_contains(tbl, name) {
        assert(out[tbl.len() as int].name == name);
    }
    assert forall|x: Seq<char>| schema_table_contains(tbl, x) implies schema_table_contains(
        out,
        x,
    ) by {
        let i = choose|i: int| 0 <= i < tbl.len() && tbl[i].name == x;
        assert(out[i].name == x);
    }
}

/// Once a route is registered, every type name its handler references
/// resolves in the component table: the `$ref` strings built from the
/// inferred body, response and error types never dangle. (Schema names
/// written by hand inside elaborate response blocks are emitted as
/// references but are not collected, exactly as the referenced-type
/// enumeration prescribes.)
pub proof fn lemma_referenced_types_registered(
    tbl: Seq<SchemaEntryModel>,
    reg: Seq<SchemaEntryModel>,
    names: Seq<Seq<char>>,
)
    ensures
        forall|i: int|
            0 <= i < names.len() ==> schema_table_contains(
                table_register_all(tbl, reg, names),
                #[trigger] names[i],
            ),
    decreases names.len(),
{
    if names.len() > 0 {
        lemma_referenced_types_registered(tbl, reg, names.drop_last());
        let inner = table_register_all(tbl, reg, names.drop_last());
        lemma_table_register_contains(inner, reg, names.last());
        assert forall|i: int| 0 <= i < names.len() implies schema_table_contains(
            table_register_all(tbl, reg, names),
            #[trigger] names[i],
        ) by {
            if i < names.len() - 1 {
                assert(names.drop_last()[i] == names[i]);
                assert(schema_table_contains(inner, names[i]));
            }
        }
    }
}

/// Querying documentation for a name under which nothing was registered
/// yields the all-empty record.
pub proof fn lemma_unknown_handler_empty(rs: Seq<HandlerEntryModel>, name: Seq<char>)
    requires
        forall|i: int| 0 <= i < rs.len() ==> rs[i].name != name,
    ensures
        registry_lookup(rs, name) == HandlerDocModel::empty(),
    decreases rs.len(),
{
    if rs.len() > 0 {
        assert(rs[0].name != name);
        assert forall|i: int| 0 <= i < rs.drop_first().len() implies rs.drop_first()[i].name
            != name by {
            assert(rs.drop_first()[i] == rs[i + 1]);
        }
        lemma_unknown_handler_empty(rs.drop_first(), name);
    }
}

/// A handler with no documented responses and a known response type gets
/// exactly one `200` response whose content references that type; a known
/// error type adds exactly a `400` and a `500` referencing the error
/// schema, and nothing else.
pub proof fn lemma_default_response_backfill(
    path: Seq<char>,
    m: Method,
    resp_type: Seq<char>,
    err: Seq<char>,
)
    ensures
        spec_build_responses(path, m, Some(resp_type), None, Seq::empty()) =~~= seq![
            ResponseEntryModel {
                status: 200,
                response: ResponseModel {
                    description: "Successful response"@,
                    content: seq![json_media_ref(resp_type)],
                },
            },
        ],
        spec_build_responses(path, m, Some(resp_type), Some(err), Seq::empty()) =~~= seq![
            ResponseEntryModel {
                status: 200,
                response: ResponseModel {
                    description: "Successful response"@,
                    content: seq![json_media_ref(resp_type)],
                },
            },
            ResponseEntryModel { status: 400, response: error_response("Bad Request"@, err) },
            ResponseEntryModel {
                status: 500,
                response: error_response("Internal Server Error"@, err),
            },
        ],
{
}

proof fn lemma_docs_status_origin(ds: Seq<RespModel>, rt: Option<Seq<char>>, s: u16)
    requires
        has_status(docs_responses(ds, rt), s),
    ensures
        exists|i: int| 0 <= i < ds.len() && ds[i].status_code == s,
    decreases ds.len(),
{
    if ds.len() > 0 {
        let prev = docs_responses(ds.drop_last(), rt);
        lemma_resp_insert_status(prev, ds.last().status_code, doc_response_out(ds.last(), rt), s);
        if s == ds.last().status_code {
            assert(ds[ds.len() - 1].status_code == s);
        } else {
            lemma_docs_status_origin(ds.drop_last(), rt, s);
            let i = choose|i: int|
                0 <= i < ds.drop_last().len() && ds.drop_last()[i].status_code == s;
            assert(ds[i].status_code == s);
        }
    }
}

/// The asymmetric error backfill, stated for every handler that documents
/// responses but none at or above 400 and has an inferred error type:
/// `400` and `500` are always synthesized; `401` and `403` only for
/// methods that modify, never for a read-only GET; `404` exactly when the
/// path carries a parameter placeholder.
pub proof fn lemma_asymmetric_error_backfill(
    path: Seq<char>,
    m: Method,
    resp_type: Option<Seq<char>>,
    err: Seq<char>,
    ds: Seq<RespModel>,
)
    requires
        ds.len() > 0,
        !any_error_status(ds),
    ensures
        ({
            let out = spec_build_responses(path, m, resp_type, Some(err), ds);
            &&& has_status(out, 400)
            &&& has_status(out, 500)
            &&& (m == Method::Get ==> !has_status(out, 401) && !has_status(out, 403))
            &&& (m != Method::Get ==> has_status(out, 401) && has_status(out, 403))
            &&& (has_status(out, 404) <==> has_param(path))
        }),
{
    let base = docs_responses(ds, resp_type);
    assert forall|s: u16| s >= 400 implies !has_status(base, s) by {
        if has_status(base, s) {
            lemma_docs_status_origin(ds, resp_type, s);
        }
    }
    let e400 = error_response("Bad Request"@, err);
    let e401 = error_response("Unauthorized"@, err);
    let e403 = error_response("Forbidden"@, err);
    let e404 = error_response("Not Found"@, err);
    let e500 = error_response("Internal Server Error"@, err);
    let rs1 = resp_insert(base, 400, e400);
    let rs2 = if m == Method::Get {
        rs1
    } else {
        resp_insert(rs1, 401, e401)
    };
    let rs3 = if m == Method::Get {
        rs2
    } else {
        resp_insert(rs2, 403, e403)
    };
    let rs4 = if has_param(path) {
        resp_insert(rs3, 404, e404)
    } else {
        rs3
    };
    let out = resp_insert(rs4, 500, e500);
    assert forall|s: u16| true implies {
        &&& (has_status(rs1, s) <==> has_status(base, s) || s == 400)
    } by {
        lemma_resp_insert_status(base, 400, e400, s);
    }
    if m != Method::Get {
        assert forall|s: u16| true implies (has_status(rs2, s) <==> has_status(rs1, s) || s
            == 401) by {
            lemma_resp_insert_status(rs1, 401, e401, s);
        }
        assert forall|s: u16| true implies (has_status(rs3, s) <==> has_status(rs2, s) || s
            == 403) by {
            lemma_resp_insert_status(rs2, 403, e403, s);
        }
    }
    if has_param(path) {
        assert forall|s: u16| true implies (has_status(rs4, s) <==> has_status(rs3, s) || s
            == 404) by {
            lemma_resp_insert_status(rs3, 404, e404, s);
        }
    }
    assert forall|s: u16| true implies (has_status(out, s) <==> has_status(rs4, s) || s
        == 500) by {
        lemma_resp_insert_status(rs4, 500, e500, s);
    }
    assert(spec_build_responses(path, m, resp_type, Some(err), ds) == out);
}


/// Synthesizes an operation from responses alone, with no parameters,
/// request body or inferred types.
pub fn create_operation_with_responses(
    path: &str,
    method: Method,
    summary: Option<&str>,
    description: Option<&str>,
    response_docs: &Vec<ResponseDoc>,
) -> (r: Operation)
    ensures
        r@ == spec_operation(
            path@,
            method,
            summary.deep_view(),
            description.deep_view(),
            Seq::empty(),
            None,
            None,
            None,
            response_docs.deep_view(),
        ),
{
    let params: Vec<ParameterDoc> = Vec::new();
    let body: Option<RequestBodyDoc> = None;
    let rt: Option<String> = None;
    let et: Option<String> = None;
    let r = create_operation_with_params_and_responses(
        path,
        method,
        summary,
        description,
        &params,
        &body,
        &rt,
        &et,
        response_docs,
    );
    proof {
        assert(params.deep_view() =~= Seq::<ParamModel>::empty());
    }
    r
}

} // verus!
