//! Pure string transforms on path templates: translating `:name`
//! parameters into `{name}` syntax, deriving operation identifiers, and
//! normalizing the prefix under which the document is served.

use vstd::prelude::*;
use vstd::string::StrSliceExecFns;
use vstd::string::StringExecFns;

use crate::strutil::append_str;
use crate::strutil::append_sub;
use crate::strutil::idx_of_from;
use crate::strutil::join_sep;
use crate::strutil::lemma_join_sep_push;
use crate::strutil::substr;

verus! {

/// One left-to-right scan over a path template, from position `i`;
/// `in_param` says whether the scan stands inside a `:name` parameter
/// whose opening brace has already been emitted.
pub open spec fn translate_from(s: Seq<char>, i: int, in_param: bool) -> Seq<char>
    decreases s.len() - i,
{
    if i < 0 || i >= s.len() {
        if in_param {
            seq!['}']
        } else {
            Seq::empty()
        }
    } else if in_param {
        if s[i] == '/' {
            seq!['}', '/'] + translate_from(s, i + 1, false)
        } else {
            seq![s[i]] + translate_from(s, i + 1, true)
        }
    } else {
        if s[i] == ':' {
            seq!['{'] + translate_from(s, i + 1, true)
        } else {
            seq![s[i]] + translate_from(s, i + 1, false)
        }
    }
}

/// The whole template translated: every `:name` parameter — terminated by
/// `/` or the end of the string — rendered as `{name}`, everything else
/// kept verbatim.
pub open spec fn translate_path(s: Seq<char>) -> Seq<char> {
    translate_from(s, 0, false)
}

/// Translation is the identity on templates without the `:` sigil.
pub proof fn lemma_translate_no_sigil(p: Seq<char>)
    requires
        forall|i: int| 0 <= i < p.len() ==> p[i] != ':',
    ensures
        translate_path(p) == p,
{
    lemma_translate_from_id(p, 0);
    assert(p.skip(0) =~= p);
}

proof fn lemma_translate_from_id(s: Seq<char>, i: int)
    requires
        0 <= i <= s.len(),
        forall|k: int| i <= k < s.len() ==> s[k] != ':',
    ensures
        translate_from(s, i, false) == s.skip(i),
    decreases s.len() - i,
{
    if i == s.len() {
        assert(s.skip(i) =~= Seq::<char>::empty());
    } else {
        lemma_translate_from_id(s, i + 1);
        assert(seq![s[i]] + s.skip(i + 1) =~= s.skip(i));
    }
}

/// Converts `:name` path parameters to `{name}` syntax.
///
/// Multiple parameters, a parameter at the very end and a parameter
/// followed by a trailing slash are all handled; a template without the
/// sigil passes through unchanged.
pub fn convert_path_params(path: &str) -> (r: String)
    ensures
        r@ == translate_path(path@),
{
    let n = path.unicode_len();
    let mut r = String::new();
    let mut in_param = false;
    let mut i: usize = 0;
    while i < n
        invariant
            i <= n,
            n == path@.len(),
            r@ + translate_from(path@, i as int, in_param) == translate_path(path@),
        decreases n - i,
    {
        let c = path.get_char(i);
        proof {
            reveal_strlit("{");
            reveal_strlit("}");
            reveal_strlit("}/");
            assert("{"@ =~= seq!['{']);
            assert("}"@ =~= seq!['}']);
            assert("}/"@ =~= seq!['}', '/']);
            assert(path@.subrange(i as int, i as int + 1) =~= seq![path@[i as int]]);
        }
        if in_param {
            if c == '/' {
                append_str(&mut r, "}/");
                in_param = false;
            } else {
                append_sub(&mut r, path, i, i + 1);
            }
        } else {
            if c == ':' {
                append_str(&mut r, "{");
                in_param = true;
            } else {
                append_sub(&mut r, path, i, i + 1);
            }
        }
        i = i + 1;
    }
    if in_param {
        proof {
            reveal_strlit("}");
            assert("}"@ =~= seq!['}']);
        }
        append_str(&mut r, "}");
    }
    r
}

/// The non-empty `/`-separated segments of a path, in order; `cur` is the
/// segment being accumulated at position `i`.
pub open spec fn split_segments_from(s: Seq<char>, i: int, cur: Seq<char>) -> Seq<Seq<char>>
    decreases s.len() - i,
{
    if i < 0 || i >= s.len() {
        if cur.len() > 0 {
            seq![cur]
        } else {
            Seq::empty()
        }
    } else if s[i] == '/' {
        (if cur.len() > 0 {
            seq![cur]
        } else {
            Seq::empty()
        }) + split_segments_from(s, i + 1, Seq::empty())
    } else {
        split_segments_from(s, i + 1, cur.push(s[i]))
    }
}

pub open spec fn split_segments(s: Seq<char>) -> Seq<Seq<char>> {
    split_segments_from(s, 0, Seq::empty())
}

/// Each `:` replaced by the string `by_`, everything else kept.
pub open spec fn replace_colon(s: Seq<char>) -> Seq<char>
    decreases s.len(),
{
    if s.len() == 0 {
        Seq::empty()
    } else {
        replace_colon(s.drop_last()) + (if s.last() == ':' {
            "by_"@
        } else {
            seq![s.last()]
        })
    }
}

/// The method names, lower case.
pub open spec fn method_lower(m: crate::builder::Method) -> Seq<char> {
    match m {
        crate::builder::Method::Get => "get"@,
        crate::builder::Method::Post => "post"@,
        crate::builder::Method::Put => "put"@,
        crate::builder::Method::Delete => "delete"@,
        crate::builder::Method::Patch => "patch"@,
    }
}

/// The method names, upper case.
pub open spec fn method_upper(m: crate::builder::Method) -> Seq<char> {
    match m {
        crate::builder::Method::Get => "GET"@,
        crate::builder::Method::Post => "POST"@,
        crate::builder::Method::Put => "PUT"@,
        crate::builder::Method::Delete => "DELETE"@,
        crate::builder::Method::Patch => "PATCH"@,
    }
}

/// The stable identifier of an operation: the lower-case method, then the
/// path's non-empty segments joined by underscores, with each `:` sigil
/// rendered as `by_` — `GET /users/:id` becomes `get_users_by_id`.
pub open spec fn spec_operation_id(m: crate::builder::Method, path: Seq<char>) -> Seq<char> {
    method_lower(m) + "_"@ + replace_colon(join_sep(split_segments(path), '_'))
}

/// The summary generated when a handler documents none:
/// `"{METHOD} {path}"`.
pub open spec fn spec_default_summary(m: crate::builder::Method, path: Seq<char>) -> Seq<char> {
    method_upper(m) + " "@ + path
}

pub fn method_lower_str(m: crate::builder::Method) -> (r: &'static str)
    ensures
        r@ == method_lower(m),
{
    match m {
        crate::builder::Method::Get => "get",
        crate::builder::Method::Post => "post",
        crate::builder::Method::Put => "put",
        crate::builder::Method::Delete => "delete",
        crate::builder::Method::Patch => "patch",
    }
}

pub fn method_upper_str(m: crate::builder::Method) -> (r: &'static str)
    ensures
        r@ == method_upper(m),
{
    match m {
        crate::builder::Method::Get => "GET",
        crate::builder::Method::Post => "POST",
        crate::builder::Method::Put => "PUT",
        crate::builder::Method::Delete => "DELETE",
        crate::builder::Method::Patch => "PATCH",
    }
}

/// Builds the operation identifier for a method and a path template.
pub fn operation_id(m: crate::builder::Method, path: &str) -> (r: String)
    ensures
        r@ == spec_operation_id(m, path@),
{
    let n = path.unicode_len();
    let mut parts: Vec<String> = Vec::new();
    let mut cur = String::new();
    let mut i: usize = 0;
    proof {
        assert(parts.deep_view() =~= Seq::<Seq<char>>::empty());
        assert(parts.deep_view() + split_segments_from(path@, 0, cur@) =~= split_segments(path@));
    }
    while i < n
        invariant
            i <= n,
            n == path@.len(),
            parts.deep_view() + split_segments_from(path@, i as int, cur@) == split_segments(
                path@,
            ),
        decreases n - i,
    {
        let ghost parts_pre = parts.deep_view();
        let ghost cur_pre = cur@;
        let c = path.get_char(i);
        if c == '/' {
            proof {
                assert(split_segments_from(path@, i as int, cur_pre) == (if cur_pre.len() > 0 {
                    seq![cur_pre]
                } else {
                    Seq::<Seq<char>>::empty()
                }) + split_segments_from(path@, i as int + 1, Seq::empty()));
            }
            if !cur.as_str().is_empty() {
                let ghost cv = cur@;
                parts.push(cur);
                cur = String::new();
                proof {
                    assert(parts.deep_view() =~= parts_pre.push(cv));
                    assert(cur@ =~= Seq::<char>::empty());
                    assert(parts.deep_view() + split_segments_from(path@, i as int + 1, cur@)
                        =~= parts_pre + split_segments_from(path@, i as int, cur_pre));
                }
            } else {
                proof {
                    assert(cur@ =~= Seq::<char>::empty());
                    assert(parts.deep_view() + split_segments_from(path@, i as int + 1, cur@)
                        =~= parts_pre + split_segments_from(path@, i as int, cur_pre));
                }
            }
        } else {
            append_sub(&mut cur, path, i, i + 1);
            proof {
                assert(path@.subrange(i as int, i as int + 1) =~= seq![path@[i as int]]);
                assert(cur@ =~= cur_pre.push(path@[i as int]));
            }
        }
        i = i + 1;
    }
    if !cur.as_str().is_empty() {
        let ghost parts_pre = parts.deep_view();
        let ghost cv = cur@;
        parts.push(cur);
        proof {
            assert(parts.deep_view() =~= parts_pre.push(cv));
            assert(parts.deep_view() =~= split_segments(path@));
        }
    } else {
        proof {
            assert(parts.deep_view() =~= split_segments(path@));
        }
    }
    let m_parts = parts.len();
    let mut joined = String::new();
    let mut j: usize = 0;
    proof {
        assert(parts.deep_view().take(0) =~= Seq::<Seq<char>>::empty());
    }
    while j < m_parts
        invariant
            j <= m_parts,
            m_parts == parts.len(),
            parts.deep_view() == split_segments(path@),
            joined@ == join_sep(parts.deep_view().take(j as int), '_'),
        decreases m_parts - j,
    {
        proof {
            reveal_strlit("_");
            assert("_"@ =~= seq!['_']);
            lemma_join_sep_push(parts.deep_view().take(j as int), '_', parts.deep_view()[j as int]);
            assert(parts.deep_view().take(j as int).push(parts.deep_view()[j as int])
                =~= parts.deep_view().take(j as int + 1));
        }
        if j > 0 {
            append_str(&mut joined, "_");
        }
        append_str(&mut joined, parts[j].as_str());
        j = j + 1;
    }
    proof {
        assert(parts.deep_view().take(m_parts as int) =~= parts.deep_view());
    }
    let js = joined.as_str();
    let jn = js.unicode_len();
    let mut replaced = String::new();
    let mut k: usize = 0;
    proof {
        assert(js@.take(0) =~= Seq::<char>::empty());
    }
    while k < jn
        invariant
            k <= jn,
            jn == js@.len(),
            replaced@ == replace_colon(js@.take(k as int)),
        decreases jn - k,
    {
        let ghost pre = replaced@;
        let c = js.get_char(k);
        if c == ':' {
            append_str(&mut replaced, "by_");
        } else {
            append_sub(&mut replaced, js, k, k + 1);
        }
        proof {
            assert(js@.subrange(k as int, k as int + 1) =~= seq![js@[k as int]]);
            assert(js@.take(k as int + 1).drop_last() =~= js@.take(k as int));
            assert(js@.take(k as int + 1).last() == js@[k as int]);
        }
        k = k + 1;
    }
    proof {
        assert(js@.take(jn as int) =~= js@);
    }
    let mut r = String::from_str(method_lower_str(m));
    r.append("_");
    r.append(replaced.as_str());
    r
}

/// The default summary `"{METHOD} {path}"` for an undocumented handler.
pub fn default_summary(m: crate::builder::Method, path: &str) -> (r: String)
    ensures
        r@ == spec_default_summary(m, path@),
{
    let mut r = String::from_str(method_upper_str(m));
    r.append(" ");
    r.append(path);
    r
}

/// Trailing slashes removed.
pub open spec fn trim_end_slashes(s: Seq<char>) -> Seq<char>
    decreases s.len(),
{
    if s.len() > 0 && s[s.len() - 1] == '/' {
        trim_end_slashes(s.drop_last())
    } else {
        s
    }
}

/// A serving prefix normalized: the empty prefix stays empty; otherwise
/// exactly one leading `/` is ensured and every trailing `/` removed.
pub open spec fn spec_normalize_prefix(p: Seq<char>) -> Seq<char> {
    if p.len() == 0 {
        Seq::empty()
    } else if p[0] == '/' {
        trim_end_slashes(p)
    } else {
        seq!['/'] + trim_end_slashes(p)
    }
}

proof fn lemma_trim_end_slashes_take(s: Seq<char>, j: int)
    requires
        0 <= j <= s.len(),
        forall|k: int| j <= k < s.len() ==> s[k] == '/',
        j > 0 ==> s[j - 1] != '/',
    ensures
        trim_end_slashes(s) == s.take(j),
    decreases s.len() - j,
{
    if j == s.len() {
        assert(s.take(j) =~= s);
    } else {
        let t = s.drop_last();
        assert(forall|k: int| j <= k < t.len() ==> t[k] == '/');
        lemma_trim_end_slashes_take(t, j);
        assert(t.take(j) =~= s.take(j));
    }
}

/// Normalizes the prefix under which the document is served.
pub fn normalize_prefix(prefix: &str) -> (r: String)
    ensures
        r@ == spec_normalize_prefix(prefix@),
{
    let n = prefix.unicode_len();
    if n == 0 {
        return String::new();
    }
    let mut j: usize = n;
    while j > 0 && prefix.get_char(j - 1) == '/'
        invariant
            j <= n,
            n == prefix@.len(),
            forall|k: int| j <= k < n ==> prefix@[k] == '/',
        decreases j,
    {
        j = j - 1;
    }
    proof {
        lemma_trim_end_slashes_take(prefix@, j as int);
    }
    if prefix.get_char(0) == '/' {
        substr(prefix, 0, j)
    } else {
        let mut r = String::from_str("/");
        append_sub(&mut r, prefix, 0, j);
        proof {
            reveal_strlit("/");
            assert("/"@ =~= seq!['/']);
        }
        r
    }
}

/// The two endpoint paths derived from a prefix: `{prefix}.json` and
/// `{prefix}.yaml`.
pub fn openapi_route_paths(prefix: &str) -> (r: (String, String))
    ensures
        r.0@ == spec_normalize_prefix(prefix@) + ".json"@,
        r.1@ == spec_normalize_prefix(prefix@) + ".yaml"@,
{
    let norm = normalize_prefix(prefix);
    let mut json_path = String::from_str(norm.as_str());
    json_path.append(".json");
    let mut yaml_path = norm;
    yaml_path.append(".yaml");
    (json_path, yaml_path)
}

} // verus!
