//! The documentation data model: what the doc-comment parser produces and
//! what the handler registry stores.
//!
//! Each executable type has a spec-level model (`...Model`) reached through
//! `View`/`DeepView`; all contracts in the library speak of those models.

use vstd::prelude::*;

verus! {

/// Documentation for a single request parameter.
#[derive(Debug)]
pub struct ParameterDoc {
    /// The parameter's name.
    pub name: String,
    /// Human-readable description of the parameter's purpose.
    pub description: String,
    /// Where the parameter lives: "path", "query" or "header".
    pub param_type: String,
}

#[verifier::ext_equal]
pub struct ParamModel {
    pub name: Seq<char>,
    pub description: Seq<char>,
    pub param_type: Seq<char>,
}

impl View for ParameterDoc {
    type V = ParamModel;

    open spec fn view(&self) -> ParamModel {
        ParamModel {
            name: self.name@,
            description: self.description@,
            param_type: self.param_type@,
        }
    }
}

impl DeepView for ParameterDoc {
    type V = ParamModel;

    open spec fn deep_view(&self) -> ParamModel {
        self.view()
    }
}

impl Clone for ParameterDoc {
    fn clone(&self) -> (r: Self)
        ensures
            r@ == self@,
    {
        ParameterDoc {
            name: self.name.clone(),
            description: self.description.clone(),
            param_type: self.param_type.clone(),
        }
    }
}

/// Documentation for a request body.
#[derive(Debug)]
pub struct RequestBodyDoc {
    /// Free-text description of the body.
    pub description: String,
    /// The MIME type announced by a `Content-Type:` line.
    pub content_type: String,
    /// The type name backing the body's schema, inferred from the handler's
    /// signature rather than from the comment text.
    pub schema_type: Option<String>,
}

#[verifier::ext_equal]
pub struct BodyModel {
    pub description: Seq<char>,
    pub content_type: Seq<char>,
    pub schema_type: Option<Seq<char>>,
}

impl View for RequestBodyDoc {
    type V = BodyModel;

    open spec fn view(&self) -> BodyModel {
        BodyModel {
            description: self.description@,
            content_type: self.content_type@,
            schema_type: self.schema_type.deep_view(),
        }
    }
}

impl DeepView for RequestBodyDoc {
    type V = BodyModel;

    open spec fn deep_view(&self) -> BodyModel {
        self.view()
    }
}

impl Clone for RequestBodyDoc {
    fn clone(&self) -> (r: Self)
        ensures
            r@ == self@,
    {
        RequestBodyDoc {
            description: self.description.clone(),
            content_type: self.content_type.clone(),
            schema_type: match &self.schema_type {
                Some(s) => Some(s.clone()),
                None => None,
            },
        }
    }
}

/// Media type and schema reference attached to a documented response.
#[derive(Debug)]
pub struct ResponseContent {
    /// The media type, e.g. "application/json".
    pub media_type: String,
    /// An optional schema name, e.g. "ErrorResponse".
    pub schema: Option<String>,
}

#[verifier::ext_equal]
pub struct ContentModel {
    pub media_type: Seq<char>,
    pub schema: Option<Seq<char>>,
}

impl View for ResponseContent {
    type V = ContentModel;

    open spec fn view(&self) -> ContentModel {
        ContentModel { media_type: self.media_type@, schema: self.schema.deep_view() }
    }
}

impl DeepView for ResponseContent {
    type V = ContentModel;

    open spec fn deep_view(&self) -> ContentModel {
        self.view()
    }
}

impl Clone for ResponseContent {
    fn clone(&self) -> (r: Self)
        ensures
            r@ == self@,
    {
        ResponseContent {
            media_type: self.media_type.clone(),
            schema: match &self.schema {
                Some(s) => Some(s.clone()),
                None => None,
            },
        }
    }
}

/// A named example attached to a documented response.
#[derive(Debug)]
pub struct ResponseExample {
    /// The example's name.
    pub name: String,
    /// An optional one-line summary.
    pub summary: Option<String>,
    /// The raw example content, kept verbatim.
    pub value: String,
}

#[verifier::ext_equal]
pub struct ExampleModel {
    pub name: Seq<char>,
    pub summary: Option<Seq<char>>,
    pub value: Seq<char>,
}

impl View for ResponseExample {
    type V = ExampleModel;

    open spec fn view(&self) -> ExampleModel {
        ExampleModel {
            name: self.name@,
            summary: self.summary.deep_view(),
            value: self.value@,
        }
    }
}

impl DeepView for ResponseExample {
    type V = ExampleModel;

    open spec fn deep_view(&self) -> ExampleModel {
        self.view()
    }
}

impl Clone for ResponseExample {
    fn clone(&self) -> (r: Self)
        ensures
            r@ == self@,
    {
        ResponseExample {
            name: self.name.clone(),
            summary: match &self.summary {
                Some(s) => Some(s.clone()),
                None => None,
            },
            value: self.value.clone(),
        }
    }
}

/// Documentation for one HTTP response of a handler.
#[derive(Debug)]
pub struct ResponseDoc {
    /// The HTTP status code.
    pub status_code: u16,
    /// When this response occurs; may be empty while an elaborate block is
    /// still being filled in.
    pub description: String,
    /// Optional media type and schema.
    pub content: Option<ResponseContent>,
    /// Optional example list.
    pub examples: Option<Vec<ResponseExample>>,
}

#[verifier::ext_equal]
pub struct RespModel {
    pub status_code: u16,
    pub description: Seq<char>,
    pub content: Option<ContentModel>,
    pub examples: Option<Seq<ExampleModel>>,
}

impl View for ResponseDoc {
    type V = RespModel;

    open spec fn view(&self) -> RespModel {
        RespModel {
            status_code: self.status_code,
            description: self.description@,
            content: self.content.deep_view(),
            examples: self.examples.deep_view(),
        }
    }
}

impl DeepView for ResponseDoc {
    type V = RespModel;

    open spec fn deep_view(&self) -> RespModel {
        self.view()
    }
}

impl Clone for ResponseDoc {
    fn clone(&self) -> (r: Self)
        ensures
            r@ == self@,
    {
        let examples: Option<Vec<ResponseExample>> = match &self.examples {
            Some(v) => Some(clone_examples(v)),
            None => None,
        };
        let r = ResponseDoc {
            status_code: self.status_code,
            description: self.description.clone(),
            content: match &self.content {
                Some(c) => Some(c.clone()),
                None => None,
            },
            examples,
        };
        proof {
            assert(r.examples.deep_view() == self.examples.deep_view());
        }
        r
    }
}

fn clone_examples(v: &Vec<ResponseExample>) -> (r: Vec<ResponseExample>)
    ensures
        r.deep_view() == v.deep_view(),
{
    let mut r: Vec<ResponseExample> = Vec::new();
    let n = v.len();
    let mut i: usize = 0;
    while i < n
        invariant
            i <= n,
            n == v.len(),
            r.deep_view() =~= v.deep_view().take(i as int),
        decreases n - i,
    {
        let e = v[i].clone();
        r.push(e);
        proof {
            let dv = v.deep_view();
            assert(r.deep_view() =~= dv.take(i as int).push(dv[i as int]));
            assert(dv.take(i as int).push(dv[i as int]) =~= dv.take(i as int + 1));
        }
        i = i + 1;
    }
    proof {
        assert(v.deep_view().take(n as int) =~= v.deep_view());
    }
    r
}

pub fn clone_params(v: &Vec<ParameterDoc>) -> (r: Vec<ParameterDoc>)
    ensures
        r.deep_view() == v.deep_view(),
{
    let mut r: Vec<ParameterDoc> = Vec::new();
    let n = v.len();
    let mut i: usize = 0;
    while i < n
        invariant
            i <= n,
            n == v.len(),
            r.deep_view() =~= v.deep_view().take(i as int),
        decreases n - i,
    {
        let e = v[i].clone();
        r.push(e);
        proof {
            let dv = v.deep_view();
            assert(r.deep_view() =~= dv.take(i as int).push(dv[i as int]));
            assert(dv.take(i as int).push(dv[i as int]) =~= dv.take(i as int + 1));
        }
        i = i + 1;
    }
    proof {
        assert(v.deep_view().take(n as int) =~= v.deep_view());
    }
    r
}

pub fn clone_responses(v: &Vec<ResponseDoc>) -> (r: Vec<ResponseDoc>)
    ensures
        r.deep_view() == v.deep_view(),
{
    let mut r: Vec<ResponseDoc> = Vec::new();
    let n = v.len();
    let mut i: usize = 0;
    while i < n
        invariant
            i <= n,
            n == v.len(),
            r.deep_view() =~= v.deep_view().take(i as int),
        decreases n - i,
    {
        let e = v[i].clone();
        r.push(e);
        proof {
            let dv = v.deep_view();
            assert(r.deep_view() =~= dv.take(i as int).push(dv[i as int]));
            assert(dv.take(i as int).push(dv[i as int]) =~= dv.take(i as int + 1));
        }
        i = i + 1;
    }
    proof {
        assert(v.deep_view().take(n as int) =~= v.deep_view());
    }
    r
}

pub fn clone_opt_string(v: &Option<String>) -> (r: Option<String>)
    ensures
        r.deep_view() == v.deep_view(),
{
    match v {
        Some(s) => Some(s.clone()),
        None => None,
    }
}

/// What the doc-comment parser produces for one handler.
#[derive(Debug)]
pub struct ParsedDocs {
    /// The first non-empty comment line, verbatim.
    pub summary: Option<String>,
    /// The remaining free-text lines outside recognised sections, joined
    /// with single spaces.
    pub description: Option<String>,
    /// Parameters in source order.
    pub parameters: Vec<ParameterDoc>,
    /// The request-body descriptor, if a `Content-Type:` line was seen.
    pub request_body: Option<RequestBodyDoc>,
    /// Responses in source order.
    pub responses: Vec<ResponseDoc>,
}

#[verifier::ext_equal]
pub struct DocsModel {
    pub summary: Option<Seq<char>>,
    pub description: Option<Seq<char>>,
    pub parameters: Seq<ParamModel>,
    pub request_body: Option<BodyModel>,
    pub responses: Seq<RespModel>,
}

impl View for ParsedDocs {
    type V = DocsModel;

    open spec fn view(&self) -> DocsModel {
        DocsModel {
            summary: self.summary.deep_view(),
            description: self.description.deep_view(),
            parameters: self.parameters.deep_view(),
            request_body: self.request_body.deep_view(),
            responses: self.responses.deep_view(),
        }
    }
}

impl DeepView for ParsedDocs {
    type V = DocsModel;

    open spec fn deep_view(&self) -> DocsModel {
        self.view()
    }
}

/// Everything known about one handler: parsed documentation plus the type
/// names inferred from its signature.
#[derive(Debug)]
pub struct HandlerDocumentation {
    /// Brief one-line summary of what the handler does.
    pub summary: Option<String>,
    /// Longer free-text description.
    pub description: Option<String>,
    /// Parameters the handler accepts.
    pub parameters: Vec<ParameterDoc>,
    /// The expected request body, if any.
    pub request_body: Option<RequestBodyDoc>,
    /// The type name of the request body, for schema generation.
    pub request_body_type: Option<String>,
    /// The type name of the success payload, for schema generation.
    pub response_type: Option<String>,
    /// The type name of the error payload, for error-response generation.
    pub error_type: Option<String>,
    /// The responses the handler can produce.
    pub responses: Vec<ResponseDoc>,
}

#[verifier::ext_equal]
pub struct HandlerDocModel {
    pub summary: Option<Seq<char>>,
    pub description: Option<Seq<char>>,
    pub parameters: Seq<ParamModel>,
    pub request_body: Option<BodyModel>,
    pub request_body_type: Option<Seq<char>>,
    pub response_type: Option<Seq<char>>,
    pub error_type: Option<Seq<char>>,
    pub responses: Seq<RespModel>,
}

impl HandlerDocModel {
    /// The all-empty record that stands for "no documentation available".
    pub open spec fn empty() -> HandlerDocModel {
        HandlerDocModel {
            summary: None,
            description: None,
            parameters: Seq::empty(),
            request_body: None,
            request_body_type: None,
            response_type: None,
            error_type: None,
            responses: Seq::empty(),
        }
    }
}

impl View for HandlerDocumentation {
    type V = HandlerDocModel;

    open spec fn view(&self) -> HandlerDocModel {
        HandlerDocModel {
            summary: self.summary.deep_view(),
            description: self.description.deep_view(),
            parameters: self.parameters.deep_view(),
            request_body: self.request_body.deep_view(),
            request_body_type: self.request_body_type.deep_view(),
            response_type: self.response_type.deep_view(),
            error_type: self.error_type.deep_view(),
            responses: self.responses.deep_view(),
        }
    }
}

impl DeepView for HandlerDocumentation {
    type V = HandlerDocModel;

    open spec fn deep_view(&self) -> HandlerDocModel {
        self.view()
    }
}

impl HandlerDocumentation {
    /// The record used when a handler has no registered documentation.
    pub fn empty() -> (r: HandlerDocumentation)
        ensures
            r@ == HandlerDocModel::empty(),
    {
        let r = HandlerDocumentation {
            summary: None,
            description: None,
            parameters: Vec::new(),
            request_body: None,
            request_body_type: None,
            response_type: None,
            error_type: None,
            responses: Vec::new(),
        };
        proof {
            assert(r@.parameters =~= Seq::<ParamModel>::empty());
            assert(r@.responses =~= Seq::<RespModel>::empty());
        }
        r
    }

    /// Merges parser output with the type names inferred from a handler's
    /// signature; the request body, when documented, is tagged with the
    /// inferred body type.
    pub fn from_parts(
        parsed: ParsedDocs,
        request_body_type: Option<String>,
        response_type: Option<String>,
        error_type: Option<String>,
    ) -> (r: HandlerDocumentation)
        ensures
            r@.summary == parsed@.summary,
            r@.description == parsed@.description,
            r@.parameters == parsed@.parameters,
            r@.request_body == match parsed@.request_body {
                Some(b) => Some(
                    BodyModel { schema_type: request_body_type.deep_view(), ..b },
                ),
                None => None,
            },
            r@.request_body_type == request_body_type.deep_view(),
            r@.response_type == response_type.deep_view(),
            r@.error_type == error_type.deep_view(),
            r@.responses == parsed@.responses,
    {
        let request_body: Option<RequestBodyDoc> = match parsed.request_body {
            Some(b) => Some(
                RequestBodyDoc {
                    description: b.description,
                    content_type: b.content_type,
                    schema_type: clone_opt_string(&request_body_type),
                },
            ),
            None => None,
        };
        HandlerDocumentation {
            summary: parsed.summary,
            description: parsed.description,
            parameters: parsed.parameters,
            request_body,
            request_body_type,
            response_type,
            error_type,
            responses: parsed.responses,
        }
    }

    pub fn clone_doc(&self) -> (r: HandlerDocumentation)
        ensures
            r@ == self@,
    {
        HandlerDocumentation {
            summary: clone_opt_string(&self.summary),
            description: clone_opt_string(&self.description),
            parameters: clone_params(&self.parameters),
            request_body: match &self.request_body {
                Some(b) => Some(b.clone()),
                None => None,
            },
            request_body_type: clone_opt_string(&self.request_body_type),
            response_type: clone_opt_string(&self.response_type),
            error_type: clone_opt_string(&self.error_type),
            responses: clone_responses(&self.responses),
        }
    }
}

/// Simplified handler metadata kept for backwards compatibility: only a
/// summary and a description.
#[derive(Debug)]
pub struct HandlerMetadata {
    /// Brief one-line summary of what the handler does.
    pub summary: Option<&'static str>,
    /// Longer description of the handler.
    pub description: Option<&'static str>,
}

/// Handlers that can describe themselves; the default implementation
/// reports no documentation.
pub trait DocumentedHandler {
    fn metadata() -> HandlerMetadata {
        HandlerMetadata { summary: None, description: None }
    }
}

/// A name-keyed lookup of simplified handler metadata, kept for backwards
/// compatibility with the richer registry below.
pub trait HandlerRegistry {
    fn get_handler_docs(handler_name: &str) -> Option<HandlerMetadata>;
}

/// One entry of the handler documentation registry.
#[derive(Debug)]
pub struct HandlerDocEntry {
    /// The handler's bare function name.
    pub name: String,
    /// The documentation recorded for it.
    pub docs: HandlerDocumentation,
}

#[verifier::ext_equal]
pub struct HandlerEntryModel {
    pub name: Seq<char>,
    pub docs: HandlerDocModel,
}

impl View for HandlerDocEntry {
    type V = HandlerEntryModel;

    open spec fn view(&self) -> HandlerEntryModel {
        HandlerEntryModel { name: self.name@, docs: self.docs@ }
    }
}

impl DeepView for HandlerDocEntry {
    type V = HandlerEntryModel;

    open spec fn deep_view(&self) -> HandlerEntryModel {
        self.view()
    }
}

} // verus!
