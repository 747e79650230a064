//! The doc-comment parser: an ordered sequence of raw comment lines in,
//! a structured [`ParsedDocs`] record out.
//!
//! The grammar is line-oriented. After trimming and dropping blank lines,
//! the first line is always the summary. From there a current section is
//! tracked: `# Parameters`, `# Request Body` and `# Responses` headers (with
//! one or two leading `#`) switch sections, any other `#`-line resets to
//! free text. Parameter lines look like `- name (location): description`;
//! response lines come in a simple form `- 200: text` and an elaborate form
//! `- 200:` followed by YAML-like key lines that mutate the most recently
//! opened response. Malformed lines are dropped silently, never an error.
//!
//! The whole grammar is written down once, as the spec-level step function
//! [`parse_line`]; `extract_docs` is proved to compute exactly the fold of
//! that step function over the filtered input.

use vstd::prelude::*;
use vstd::string::StrSliceExecFns;
use vstd::string::StringExecFns;

use crate::docs::BodyModel;
use crate::docs::ContentModel;
use crate::docs::DocsModel;
use crate::docs::ExampleModel;
use crate::docs::ParamModel;
use crate::docs::ParameterDoc;
use crate::docs::ParsedDocs;
use crate::docs::RequestBodyDoc;
use crate::docs::RespModel;
use crate::docs::ResponseContent;
use crate::docs::ResponseDoc;
use crate::docs::ResponseExample;
use crate::strutil::find_from;
use crate::strutil::has_prefix;
use crate::strutil::idx_of_from;
use crate::strutil::join_sep;
use crate::strutil::lemma_idx_of_from;
use crate::strutil::lemma_join_sep_push;
use crate::strutil::parse_u16;
use crate::strutil::spec_parse_u16;
use crate::strutil::starts_with;
use crate::strutil::substr;
use crate::strutil::substr_trim;
use crate::strutil::trim;
use crate::strutil::trim_spec;
use crate::strutil::unquote;
use crate::strutil::unquote_string;

verus! {

/// The section the parser is currently inside.
#[derive(Clone, Copy, PartialEq, Eq, Structural, Debug)]
pub enum Section {
    /// Free text: lines accumulate into the description.
    General,
    /// Inside `# Parameters`.
    Parameters,
    /// Inside `# Request Body`.
    RequestBody,
    /// Inside `# Responses`.
    Responses,
}

/// The parser state after some number of lines, at spec level.
#[verifier::ext_equal]
pub struct ParseState {
    pub desc_lines: Seq<Seq<char>>,
    pub parameters: Seq<ParamModel>,
    pub request_body: Option<BodyModel>,
    pub responses: Seq<RespModel>,
    pub section: Section,
}

pub open spec fn init_state() -> ParseState {
    ParseState {
        desc_lines: Seq::empty(),
        parameters: Seq::empty(),
        request_body: None,
        responses: Seq::empty(),
        section: Section::General,
    }
}

/// What a `- name (location): description` line contributes, if well formed.
pub open spec fn param_of_line(line: Seq<char>) -> Option<ParamModel> {
    if has_prefix(line, "- "@) || has_prefix(line, "* "@) {
        let t = trim_spec(line.skip(2));
        let p1 = idx_of_from(t, 0, '(');
        if p1 < t.len() {
            let p2 = idx_of_from(t, p1 + 1, ')');
            if p2 < t.len() {
                let c = idx_of_from(t, p2, ':');
                if c < t.len() {
                    Some(
                        ParamModel {
                            name: trim_spec(t.take(p1)),
                            description: trim_spec(t.skip(c + 1)),
                            param_type: trim_spec(t.subrange(p1 + 1, p2)),
                        },
                    )
                } else {
                    None
                }
            } else {
                None
            }
        } else {
            None
        }
    } else {
        None
    }
}

/// A request-body line either opens the descriptor (`Content-Type:`) or,
/// once one is open, extends its space-joined description.
pub open spec fn body_step(b: Option<BodyModel>, line: Seq<char>) -> Option<BodyModel> {
    if has_prefix(line, "Content-Type:"@) {
        Some(
            BodyModel {
                description: Seq::empty(),
                content_type: trim_spec(line.skip(13)),
                schema_type: None,
            },
        )
    } else {
        match b {
            Some(bb) => Some(
                BodyModel {
                    description: if bb.description.len() == 0 {
                        line
                    } else {
                        bb.description + " "@ + line
                    },
                    ..bb
                },
            ),
            None => None,
        }
    }
}

/// The status code of a `- {status}: ...` response line, if it has one.
pub open spec fn resp_open_status(line: Seq<char>) -> Option<u16> {
    let t = trim_spec(line.skip(2));
    let c = idx_of_from(t, 0, ':');
    if c < t.len() {
        spec_parse_u16(trim_spec(t.take(c)))
    } else {
        None
    }
}

/// The YAML-like key lines recognised inside an elaborate response block.
pub open spec fn is_elab_key(line: Seq<char>) -> bool {
    ||| has_prefix(line, "description:"@)
    ||| has_prefix(line, "content:"@)
    ||| has_prefix(line, "application/json:"@)
    ||| has_prefix(line, "application/xml:"@)
    ||| has_prefix(line, "text/plain:"@)
    ||| has_prefix(line, "schema:"@)
    ||| has_prefix(line, "examples:"@)
    ||| has_prefix(line, "- name:"@)
    ||| has_prefix(line, "name:"@)
    ||| has_prefix(line, "summary:"@)
    ||| has_prefix(line, "value:"@)
}

/// How one elaborate key line mutates the most recently opened response.
pub open spec fn elab_step(r: RespModel, line: Seq<char>) -> RespModel {
    if has_prefix(line, "description:"@) {
        RespModel { description: unquote(trim_spec(line.skip(12))), ..r }
    } else if has_prefix(line, "content:"@) {
        match r.content {
            Some(_) => r,
            None => RespModel {
                content: Some(ContentModel { media_type: "application/json"@, schema: None }),
                ..r
            },
        }
    } else if has_prefix(line, "application/json:"@) || has_prefix(line, "application/xml:"@)
        || has_prefix(line, "text/plain:"@) {
        let mt = line.take(idx_of_from(line, 0, ':'));
        match r.content {
            Some(c) => RespModel { content: Some(ContentModel { media_type: mt, ..c }), ..r },
            None => RespModel {
                content: Some(ContentModel { media_type: mt, schema: None }),
                ..r
            },
        }
    } else if has_prefix(line, "schema:"@) {
        let name = trim_spec(line.skip(7));
        match r.content {
            Some(c) => RespModel { content: Some(ContentModel { schema: Some(name), ..c }), ..r },
            None => RespModel {
                content: Some(
                    ContentModel { media_type: "application/json"@, schema: Some(name) },
                ),
                ..r
            },
        }
    } else if has_prefix(line, "examples:"@) {
        match r.examples {
            Some(_) => r,
            None => RespModel { examples: Some(Seq::empty()), ..r },
        }
    } else if has_prefix(line, "- name:"@) || has_prefix(line, "name:"@) {
        let nm = if has_prefix(line, "- name:"@) {
            unquote(trim_spec(line.skip(7)))
        } else {
            unquote(trim_spec(line.skip(5)))
        };
        let ex = ExampleModel { name: nm, summary: None, value: Seq::empty() };
        match r.examples {
            Some(es) => RespModel { examples: Some(es.push(ex)), ..r },
            None => RespModel { examples: Some(seq![ex]), ..r },
        }
    } else if has_prefix(line, "summary:"@) {
        match r.examples {
            Some(es) => if es.len() > 0 {
                RespModel {
                    examples: Some(
                        es.update(
                            es.len() - 1,
                            ExampleModel {
                                summary: Some(unquote(trim_spec(line.skip(8)))),
                                ..es.last()
                            },
                        ),
                    ),
                    ..r
                }
            } else {
                r
            },
            None => r,
        }
    } else if has_prefix(line, "value:"@) {
        match r.examples {
            Some(es) => if es.len() > 0 {
                RespModel {
                    examples: Some(
                        es.update(
                            es.len() - 1,
                            ExampleModel {
                                value: unquote(trim_spec(line.skip(6))),
                                ..es.last()
                            },
                        ),
                    ),
                    ..r
                }
            } else {
                r
            },
            None => r,
        }
    } else {
        r
    }
}

/// How one line inside `# Responses` transforms the response list: a line
/// with a parseable status opens a new response; a key line mutates the
/// last one; anything else is dropped.
pub open spec fn resp_step(rs: Seq<RespModel>, line: Seq<char>) -> Seq<RespModel> {
    if (has_prefix(line, "- "@) || has_prefix(line, "* "@)) && resp_open_status(line) is Some {
        let t = trim_spec(line.skip(2));
        let c = idx_of_from(t, 0, ':');
        rs.push(
            RespModel {
                status_code: resp_open_status(line)->Some_0,
                description: trim_spec(t.skip(c + 1)),
                content: None,
                examples: None,
            },
        )
    } else if rs.len() > 0 && is_elab_key(line) {
        rs.update(rs.len() - 1, elab_step(rs.last(), line))
    } else {
        rs
    }
}

/// One step of the whole parser: section headers first, then the behaviour
/// of the current section.
pub open spec fn parse_line(st: ParseState, line: Seq<char>) -> ParseState {
    if has_prefix(line, "# Parameters"@) || has_prefix(line, "## Parameters"@) {
        ParseState { section: Section::Parameters, ..st }
    } else if has_prefix(line, "# Request Body"@) || has_prefix(line, "## Request Body"@) {
        ParseState { section: Section::RequestBody, ..st }
    } else if has_prefix(line, "# Responses"@) || has_prefix(line, "## Responses"@) {
        ParseState { section: Section::Responses, ..st }
    } else if has_prefix(line, "#"@) {
        ParseState { section: Section::General, ..st }
    } else {
        match st.section {
            Section::Parameters => match param_of_line(line) {
                Some(p) => ParseState { parameters: st.parameters.push(p), ..st },
                None => st,
            },
            Section::RequestBody => ParseState {
                request_body: body_step(st.request_body, line),
                ..st
            },
            Section::Responses => ParseState {
                responses: resp_step(st.responses, line),
                ..st
            },
            Section::General => ParseState { desc_lines: st.desc_lines.push(line), ..st },
        }
    }
}

/// The state after the first `n` lines.
pub open spec fn parse_upto(lines: Seq<Seq<char>>, n: int) -> ParseState
    decreases n,
{
    if n <= 0 {
        init_state()
    } else {
        parse_line(parse_upto(lines, n - 1), lines[n - 1])
    }
}

/// Trims every line and drops the blank ones, keeping order.
pub open spec fn filter_lines(raw: Seq<Seq<char>>) -> Seq<Seq<char>>
    decreases raw.len(),
{
    if raw.len() == 0 {
        Seq::empty()
    } else {
        let rest = filter_lines(raw.drop_last());
        if trim_spec(raw.last()).len() == 0 {
            rest
        } else {
            rest.push(trim_spec(raw.last()))
        }
    }
}

pub open spec fn empty_docs_model() -> DocsModel {
    DocsModel {
        summary: None,
        description: None,
        parameters: Seq::empty(),
        request_body: None,
        responses: Seq::empty(),
    }
}

/// The record assembled from the summary line and the final parser state.
pub open spec fn finish_docs(summary: Seq<char>, st: ParseState) -> DocsModel {
    DocsModel {
        summary: Some(summary),
        description: if st.desc_lines.len() > 0 {
            Some(join_sep(st.desc_lines, ' '))
        } else {
            None
        },
        parameters: st.parameters,
        request_body: st.request_body,
        responses: st.responses,
    }
}

/// The whole parser at spec level: filter, take line 0 as the summary,
/// fold [`parse_line`] over the rest.
pub open spec fn spec_extract_docs(raw: Seq<Seq<char>>) -> DocsModel {
    let ls = filter_lines(raw);
    if ls.len() == 0 {
        empty_docs_model()
    } else {
        finish_docs(ls[0], parse_upto(ls.skip(1), ls.len() - 1))
    }
}

proof fn lemma_filter_lines_elements(raw: Seq<Seq<char>>)
    ensures
        forall|i: int| 0 <= i < filter_lines(raw).len() ==> {
            &&& trim_spec(#[trigger] filter_lines(raw)[i]) == filter_lines(raw)[i]
            &&& filter_lines(raw)[i].len() > 0
        },
    decreases raw.len(),
{
    if raw.len() > 0 {
        lemma_filter_lines_elements(raw.drop_last());
        crate::strutil::lemma_trim_idempotent(raw.last());
        let prev = filter_lines(raw.drop_last());
        assert forall|i: int| 0 <= i < filter_lines(raw).len() implies {
            &&& trim_spec(#[trigger] filter_lines(raw)[i]) == filter_lines(raw)[i]
            &&& filter_lines(raw)[i].len() > 0
        } by {
            if i < prev.len() {
                assert(filter_lines(raw)[i] == prev[i]);
            } else {
                assert(filter_lines(raw)[i] == trim_spec(raw.last()));
            }
        }
    }
}

proof fn lemma_filter_lines_identity(ls: Seq<Seq<char>>)
    requires
        forall|i: int| 0 <= i < ls.len() ==> {
            &&& trim_spec(#[trigger] ls[i]) == ls[i]
            &&& ls[i].len() > 0
        },
    ensures
        filter_lines(ls) == ls,
    decreases ls.len(),
{
    if ls.len() > 0 {
        assert(forall|i: int| 0 <= i < ls.drop_last().len() ==> ls.drop_last()[i] == ls[i]);
        lemma_filter_lines_identity(ls.drop_last());
        assert(filter_lines(ls) =~= ls);
    } else {
        assert(filter_lines(ls) =~= ls);
    }
}

/// Filtering is idempotent, so the parser gives the same answer whether
/// the caller pre-filtered the lines or not.
pub proof fn lemma_extract_docs_prefiltered(raw: Seq<Seq<char>>)
    ensures
        spec_extract_docs(filter_lines(raw)) == spec_extract_docs(raw),
{
    lemma_filter_lines_elements(raw);
    lemma_filter_lines_identity(filter_lines(raw));
}

fn is_elab_key_exec(line: &str) -> (r: bool)
    ensures
        r == is_elab_key(line@),
{
    starts_with(line, "description:") || starts_with(line, "content:") || starts_with(
        line,
        "application/json:",
    ) || starts_with(line, "application/xml:") || starts_with(line, "text/plain:")
        || starts_with(line, "schema:") || starts_with(line, "examples:") || starts_with(
        line,
        "- name:",
    ) || starts_with(line, "name:") || starts_with(line, "summary:") || starts_with(
        line,
        "value:",
    )
}

/// Parses one `- name (location): description` parameter line; a line
/// missing any of the three delimiters yields nothing.
fn parse_param_exec(line: &str) -> (r: Option<ParameterDoc>)
    ensures
        r.deep_view() == param_of_line(line@),
{
    if !(starts_with(line, "- ") || starts_with(line, "* ")) {
        return None;
    }
    let n = line.unicode_len();
    proof {
        reveal_strlit("- ");
        reveal_strlit("* ");
    }
    let t = substr_trim(line, 2, n);
    proof {
        assert(line@.subrange(2, n as int) =~= line@.skip(2));
    }
    let ts = t.as_str();
    let tn = ts.unicode_len();
    let p1 = find_from(ts, 0, '(');
    proof {
        lemma_idx_of_from(ts@, 0, '(');
    }
    if p1 == tn {
        return None;
    }
    let p2 = find_from(ts, p1 + 1, ')');
    proof {
        lemma_idx_of_from(ts@, p1 as int + 1, ')');
    }
    if p2 == tn {
        return None;
    }
    let c = find_from(ts, p2, ':');
    proof {
        lemma_idx_of_from(ts@, p2 as int, ':');
    }
    if c == tn {
        return None;
    }
    let name = substr_trim(ts, 0, p1);
    let ptype = substr_trim(ts, p1 + 1, p2);
    let desc = substr_trim(ts, c + 1, tn);
    proof {
        assert(ts@.subrange(0, p1 as int) =~= ts@.take(p1 as int));
        assert(ts@.subrange(c as int + 1, tn as int) =~= ts@.skip(c as int + 1));
    }
    Some(ParameterDoc { name, description: desc, param_type: ptype })
}

/// Applies one request-body line: `Content-Type:` opens or resets the
/// descriptor, any other line extends an open descriptor's description.
fn apply_body_line(b: Option<RequestBodyDoc>, line: &str) -> (r: Option<RequestBodyDoc>)
    ensures
        r.deep_view() == body_step(b.deep_view(), line@),
{
    if starts_with(line, "Content-Type:") {
        let n = line.unicode_len();
        proof {
            reveal_strlit("Content-Type:");
        }
        let ct = substr_trim(line, 13, n);
        proof {
            assert(line@.subrange(13, n as int) =~= line@.skip(13));
        }
        Some(RequestBodyDoc { description: String::new(), content_type: ct, schema_type: None })
    } else {
        match b {
            Some(mut bb) => {
                if bb.description.as_str().is_empty() {
                    bb.description = String::from_str(line);
                } else {
                    bb.description.append(" ");
                    bb.description.append(line);
                }
                Some(bb)
            },
            None => None,
        }
    }
}

/// Applies one elaborate key line to the most recently opened response.
fn apply_elab(resp: ResponseDoc, line: &str) -> (r: ResponseDoc)
    ensures
        r@ == elab_step(resp@, line@),
{
    let n = line.unicode_len();
    if starts_with(line, "description:") {
        proof {
            reveal_strlit("description:");
        }
        let tmp = substr_trim(line, 12, n);
        let d = unquote_string(tmp.as_str());
        proof {
            assert(line@.subrange(12, n as int) =~= line@.skip(12));
        }
        ResponseDoc {
            status_code: resp.status_code,
            description: d,
            content: resp.content,
            examples: resp.examples,
        }
    } else if starts_with(line, "content:") {
        match resp.content {
            Some(c) => ResponseDoc {
                status_code: resp.status_code,
                description: resp.description,
                content: Some(c),
                examples: resp.examples,
            },
            None => ResponseDoc {
                status_code: resp.status_code,
                description: resp.description,
                content: Some(
                    ResponseContent {
                        media_type: String::from_str("application/json"),
                        schema: None,
                    },
                ),
                examples: resp.examples,
            },
        }
    } else if starts_with(line, "application/json:") || starts_with(line, "application/xml:")
        || starts_with(line, "text/plain:") {
        let k = find_from(line, 0, ':');
        proof {
            lemma_idx_of_from(line@, 0, ':');
            assert(line@.subrange(0, idx_of_from(line@, 0, ':')) =~= line@.take(
                idx_of_from(line@, 0, ':'),
            ));
        }
        let mt = substr(line, 0, k);
        let content = match resp.content {
            Some(c) => ResponseContent { media_type: mt, schema: c.schema },
            None => ResponseContent { media_type: mt, schema: None },
        };
        ResponseDoc {
            status_code: resp.status_code,
            description: resp.description,
            content: Some(content),
            examples: resp.examples,
        }
    } else if starts_with(line, "schema:") {
        proof {
            reveal_strlit("schema:");
        }
        let name = substr_trim(line, 7, n);
        proof {
            assert(line@.subrange(7, n as int) =~= line@.skip(7));
        }
        let content = match resp.content {
            Some(c) => ResponseContent { media_type: c.media_type, schema: Some(name) },
            None => ResponseContent {
                media_type: String::from_str("application/json"),
                schema: Some(name),
            },
        };
        ResponseDoc {
            status_code: resp.status_code,
            description: resp.description,
            content: Some(content),
            examples: resp.examples,
        }
    } else if starts_with(line, "examples:") {
        let examples = match resp.examples {
            Some(es) => Some(es),
            None => Some(Vec::<ResponseExample>::new()),
        };
        proof {
            if resp.examples is None {
                assert(examples.deep_view() == Some(Seq::<ExampleModel>::empty())) by {
                    assert(examples->Some_0.deep_view() =~= Seq::<ExampleModel>::empty());
                }
            }
        }
        ResponseDoc {
            status_code: resp.status_code,
            description: resp.description,
            content: resp.content,
            examples,
        }
    } else if starts_with(line, "- name:") || starts_with(line, "name:") {
        proof {
            reveal_strlit("- name:");
            reveal_strlit("name:");
        }
        let tmp = if starts_with(line, "- name:") {
            substr_trim(line, 7, n)
        } else {
            substr_trim(line, 5, n)
        };
        let nm = unquote_string(tmp.as_str());
        proof {
            assert(line@.subrange(7, n as int) =~= line@.skip(7));
            assert(line@.subrange(5, n as int) =~= line@.skip(5));
        }
        let ex = ResponseExample { name: nm, summary: None, value: String::new() };
        let ghost exm = ex@;
        let examples = match resp.examples {
            Some(mut es) => {
                let ghost old_es = es.deep_view();
                es.push(ex);
                proof {
                    assert(es.deep_view() =~= old_es.push(exm));
                }
                Some(es)
            },
            None => {
                let mut v: Vec<ResponseExample> = Vec::new();
                v.push(ex);
                proof {
                    assert(v.deep_view() =~= seq![exm]);
                }
                Some(v)
            },
        };
        ResponseDoc {
            status_code: resp.status_code,
            description: resp.description,
            content: resp.content,
            examples,
        }
    } else if starts_with(line, "summary:") {
        proof {
            reveal_strlit("summary:");
        }
        let tmp = substr_trim(line, 8, n);
        let s = unquote_string(tmp.as_str());
        proof {
            assert(line@.subrange(8, n as int) =~= line@.skip(8));
        }
        let examples = match resp.examples {
            Some(mut es) => {
                if es.len() > 0 {
                    let ghost old_es = es.deep_view();
                    let mut ex = es.pop().unwrap();
                    ex.summary = Some(s);
                    es.push(ex);
                    proof {
                        assert(es.deep_view() =~= old_es.update(
                            old_es.len() - 1,
                            ExampleModel { summary: Some(s@), ..old_es.last() },
                        ));
                    }
                }
                Some(es)
            },
            None => None,
        };
        ResponseDoc {
            status_code: resp.status_code,
            description: resp.description,
            content: resp.content,
            examples,
        }
    } else if starts_with(line, "value:") {
        proof {
            reveal_strlit("value:");
        }
        let tmp = substr_trim(line, 6, n);
        let s = unquote_string(tmp.as_str());
        proof {
            assert(line@.subrange(6, n as int) =~= line@.skip(6));
        }
        let examples = match resp.examples {
            Some(mut es) => {
                if es.len() > 0 {
                    let ghost old_es = es.deep_view();
                    let mut ex = es.pop().unwrap();
                    ex.value = s;
                    es.push(ex);
                    proof {
                        assert(es.deep_view() =~= old_es.update(
                            old_es.len() - 1,
                            ExampleModel { value: s@, ..old_es.last() },
                        ));
                    }
                }
                Some(es)
            },
            None => None,
        };
        ResponseDoc {
            status_code: resp.status_code,
            description: resp.description,
            content: resp.content,
            examples,
        }
    } else {
        resp
    }
}

/// Applies one line inside `# Responses` to the response list.
fn apply_resp_line(resps: &mut Vec<ResponseDoc>, line: &str)
    ensures
        final(resps).deep_view() == resp_step(old(resps).deep_view(), line@),
{
    let opens = starts_with(line, "- ") || starts_with(line, "* ");
    if opens {
        let n = line.unicode_len();
        proof {
            reveal_strlit("- ");
            reveal_strlit("* ");
        }
        let t = substr_trim(line, 2, n);
        proof {
            assert(line@.subrange(2, n as int) =~= line@.skip(2));
        }
        let ts = t.as_str();
        let tn = ts.unicode_len();
        let c = find_from(ts, 0, ':');
        proof {
            lemma_idx_of_from(ts@, 0, ':');
        }
        if c < tn {
            let sp = substr_trim(ts, 0, c);
            proof {
                assert(ts@.subrange(0, c as int) =~= ts@.take(c as int));
            }
            let code_opt = parse_u16(sp.as_str());
            match code_opt {
                Some(code) => {
                    let desc = substr_trim(ts, c + 1, tn);
                    proof {
                        assert(ts@.subrange(c as int + 1, tn as int) =~= ts@.skip(c as int + 1));
                    }
                    let ghost old_rs = resps.deep_view();
                    let rd = ResponseDoc {
                        status_code: code,
                        description: desc,
                        content: None,
                        examples: None,
                    };
                    let ghost rdm = rd@;
                    resps.push(rd);
                    proof {
                        assert(resps.deep_view() =~= old_rs.push(rdm));
                    }
                    return ;
                },
                None => {},
            }
        }
    }
    proof {
        assert(!((has_prefix(line@, "- "@) || has_prefix(line@, "* "@)) && resp_open_status(
            line@,
        ) is Some));
    }
    if resps.len() > 0 && is_elab_key_exec(line) {
        let ghost old_rs = resps.deep_view();
        let last = resps.pop().unwrap();
        let ghost lastm = last@;
        proof {
            assert(lastm == old_rs.last());
        }
        let last2 = apply_elab(last, line);
        resps.push(last2);
        proof {
            assert(resps.deep_view() =~= old_rs.update(
                old_rs.len() - 1,
                elab_step(old_rs.last(), line@),
            ));
        }
    }
}

/// Turns an ordered sequence of raw comment lines into structured
/// documentation.
///
/// Lines are trimmed and blank ones dropped first, so the function gives
/// the same answer whether or not the caller pre-filtered them. The first
/// remaining line is always the summary, whatever it looks like.
pub fn extract_docs(lines: &Vec<String>) -> (r: ParsedDocs)
    ensures
        r@ == spec_extract_docs(lines.deep_view()),
        filter_lines(lines.deep_view()).len() > 0 ==> r@.summary == Some(
            filter_lines(lines.deep_view())[0],
        ),
{
    let mut filtered: Vec<String> = Vec::new();
    let n = lines.len();
    let mut i: usize = 0;
    while i < n
        invariant
            i <= n,
            n == lines.len(),
            filtered.deep_view() == filter_lines(lines.deep_view().take(i as int)),
        decreases n - i,
    {
        let t = trim(lines[i].as_str());
        let ghost pre = filtered.deep_view();
        let keep = !t.as_str().is_empty();
        let ghost tv = t@;
        if keep {
            filtered.push(t);
        }
        proof {
            let dv = lines.deep_view();
            assert(dv.take(i + 1).drop_last() =~= dv.take(i as int));
            assert(dv.take(i + 1).last() == dv[i as int]);
            assert(dv[i as int] == lines@[i as int]@);
            if keep {
                assert(filtered.deep_view() =~= pre.push(tv));
            }
        }
        i = i + 1;
    }
    proof {
        assert(lines.deep_view().take(n as int) =~= lines.deep_view());
    }
    let flen = filtered.len();
    if flen == 0 {
        let r = ParsedDocs {
            summary: None,
            description: None,
            parameters: Vec::new(),
            request_body: None,
            responses: Vec::new(),
        };
        proof {
            assert(r@.parameters =~= Seq::<ParamModel>::empty());
            assert(r@.responses =~= Seq::<RespModel>::empty());
        }
        return r;
    }
    let ghost ls = filtered.deep_view();
    let mut params: Vec<ParameterDoc> = Vec::new();
    let mut body: Option<RequestBodyDoc> = None;
    let mut resps: Vec<ResponseDoc> = Vec::new();
    let mut desc: String = String::new();
    let mut any_desc: bool = false;
    let mut section: Section = Section::General;
    proof {
        assert(params.deep_view() =~= init_state().parameters);
        assert(resps.deep_view() =~= init_state().responses);
    }
    let mut i: usize = 1;
    while i < flen
        invariant
            1 <= i <= flen,
            flen == filtered.len(),
            ls == filtered.deep_view(),
            flen == ls.len(),
            params.deep_view() == parse_upto(ls.skip(1), i as int - 1).parameters,
            body.deep_view() == parse_upto(ls.skip(1), i as int - 1).request_body,
            resps.deep_view() == parse_upto(ls.skip(1), i as int - 1).responses,
            section == parse_upto(ls.skip(1), i as int - 1).section,
            any_desc == (parse_upto(ls.skip(1), i as int - 1).desc_lines.len() > 0),
            desc@ == join_sep(parse_upto(ls.skip(1), i as int - 1).desc_lines, ' '),
        decreases flen - i,
    {
        let ghost st_pre = parse_upto(ls.skip(1), i as int - 1);
        let line = filtered[i].as_str();
        let ghost lv = line@;
        proof {
            assert(lv == ls[i as int]);
            assert(ls.skip(1)[i as int - 1] == ls[i as int]);
            assert(parse_upto(ls.skip(1), i as int) == parse_line(st_pre, lv));
        }
        if starts_with(line, "# Parameters") || starts_with(line, "## Parameters") {
            section = Section::Parameters;
        } else if starts_with(line, "# Request Body") || starts_with(line, "## Request Body") {
            section = Section::RequestBody;
        } else if starts_with(line, "# Responses") || starts_with(line, "## Responses") {
            section = Section::Responses;
        } else if starts_with(line, "#") {
            section = Section::General;
        } else if section == Section::Parameters {
            let p = parse_param_exec(line);
            match p {
                Some(pd) => {
                    let ghost pre = params.deep_view();
                    let ghost pdm = pd@;
                    params.push(pd);
                    proof {
                        assert(params.deep_view() =~= pre.push(pdm));
                    }
                },
                None => {},
            }
        } else if section == Section::RequestBody {
            body = apply_body_line(body, line);
        } else if section == Section::Responses {
            apply_resp_line(&mut resps, line);
        } else {
            if any_desc {
                desc.append(" ");
                desc.append(line);
            } else {
                desc = String::from_str(line);
                any_desc = true;
            }
            proof {
                reveal_strlit(" ");
                assert(" "@ =~= seq![' ']);
                lemma_join_sep_push(st_pre.desc_lines, ' ', lv);
            }
        }
        i = i + 1;
    }
    let summary = filtered[0].clone();
    let description: Option<String> = if any_desc {
        Some(desc)
    } else {
        None
    };
    let r = ParsedDocs {
        summary: Some(summary),
        description,
        parameters: params,
        request_body: body,
        responses: resps,
    };
    proof {
        assert(r@ == finish_docs(ls[0], parse_upto(ls.skip(1), flen as int - 1)));
    }
    r
}

} // verus!
