//! The signature type extractor: from a structural description of a
//! handler's parameter list and return type to the names of its request
//! body, success payload and error payload types.
//!
//! The matching is purely syntactic, by head name — `Json` marks a body
//! or payload wrapper, `Result` separates success from error — and never
//! resolves aliases. A [`TypeExpr`] records a declared type to exactly the
//! depth these rules inspect: its head name, and for each generic
//! argument the argument's head name and the head names of the argument's
//! own arguments. Non-path types (tuples, references) carry an empty head
//! name, so no rule matches them.

use vstd::prelude::*;
use vstd::string::StrSliceExecFns;
use vstd::string::StringExecFns;

use crate::strutil::append_str;
use crate::strutil::append_sub;
use crate::strutil::str_eq;

verus! {

/// One generic argument of a declared type: its head name and the head
/// names of its own generic arguments.
#[derive(Debug)]
pub struct TypeArg {
    /// The argument's head name, e.g. "Json" in `Result<Json<User>, E>`.
    pub name: String,
    /// The head names of the argument's own generic arguments, e.g.
    /// `["User"]` for `Json<User>`.
    pub args: Vec<String>,
}

#[verifier::ext_equal]
pub struct TypeArgModel {
    pub name: Seq<char>,
    pub args: Seq<Seq<char>>,
}

impl View for TypeArg {
    type V = TypeArgModel;

    open spec fn view(&self) -> TypeArgModel {
        TypeArgModel { name: self.name@, args: self.args.deep_view() }
    }
}

impl DeepView for TypeArg {
    type V = TypeArgModel;

    open spec fn deep_view(&self) -> TypeArgModel {
        self.view()
    }
}

/// A declared type as the extractor sees it: head name plus generic
/// arguments.
#[derive(Debug)]
pub struct TypeExpr {
    /// The head name, e.g. "Result"; empty for tuples and other non-path
    /// shapes.
    pub name: String,
    /// The generic arguments, in order.
    pub args: Vec<TypeArg>,
}

#[verifier::ext_equal]
pub struct TypeExprModel {
    pub name: Seq<char>,
    pub args: Seq<TypeArgModel>,
}

impl View for TypeExpr {
    type V = TypeExprModel;

    open spec fn view(&self) -> TypeExprModel {
        TypeExprModel { name: self.name@, args: self.args.deep_view() }
    }
}

impl DeepView for TypeExpr {
    type V = TypeExprModel;

    open spec fn deep_view(&self) -> TypeExprModel {
        self.view()
    }
}

/// The request-body type of a parameter list: the first parameter that is
/// a `Json` wrapper with at least one argument contributes that argument's
/// name, and scanning stops there.
pub open spec fn spec_body_type(ps: Seq<TypeExprModel>) -> Option<Seq<char>>
    decreases ps.len(),
{
    if ps.len() == 0 {
        None
    } else if ps[0].name == "Json"@ && ps[0].args.len() >= 1 {
        Some(ps[0].args[0].name)
    } else {
        spec_body_type(ps.drop_first())
    }
}

/// The success-payload type of a return type: `Result<Json<T>, _>` and
/// bare `Json<T>` both yield `T`; a `Result` whose first argument is not a
/// `Json` wrapper (a tuple, say) yields nothing.
pub open spec fn spec_response_type(ret: Option<TypeExprModel>) -> Option<Seq<char>> {
    match ret {
        None => None,
        Some(t) => {
            if t.name == "Result"@ && t.args.len() >= 1 {
                if t.args[0].name == "Json"@ && t.args[0].args.len() >= 1 {
                    Some(t.args[0].args[0])
                } else {
                    None
                }
            } else if t.name == "Json"@ && t.args.len() >= 1 {
                Some(t.args[0].name)
            } else {
                None
            }
        },
    }
}

/// The error type of a return type: the second argument of a `Result`,
/// whatever its shape; anything else yields nothing.
pub open spec fn spec_error_type(ret: Option<TypeExprModel>) -> Option<Seq<char>> {
    match ret {
        None => None,
        Some(t) => {
            if t.name == "Result"@ && t.args.len() >= 2 {
                Some(t.args[1].name)
            } else {
                None
            }
        },
    }
}

impl TypeExpr {
    /// A plain named type with no generic arguments.
    pub fn plain(name: &str) -> (r: TypeExpr)
        ensures
            r@.name == name@,
            r@.args == Seq::<TypeArgModel>::empty(),
    {
        let r = TypeExpr { name: String::from_str(name), args: Vec::new() };
        proof {
            assert(r@.args =~= Seq::<TypeArgModel>::empty());
        }
        r
    }

    /// A non-path type — a tuple, a reference — which no extraction rule
    /// matches.
    pub fn opaque() -> (r: TypeExpr)
        ensures
            r@.name == Seq::<char>::empty(),
            r@.args == Seq::<TypeArgModel>::empty(),
    {
        let r = TypeExpr { name: String::new(), args: Vec::new() };
        proof {
            assert(r@.args =~= Seq::<TypeArgModel>::empty());
        }
        r
    }
}

impl TypeArg {
    /// A plain named argument with no arguments of its own.
    pub fn plain(name: &str) -> (r: TypeArg)
        ensures
            r@.name == name@,
            r@.args == Seq::<Seq<char>>::empty(),
    {
        let r = TypeArg { name: String::from_str(name), args: Vec::new() };
        proof {
            assert(r@.args =~= Seq::<Seq<char>>::empty());
        }
        r
    }
}

/// Scans a handler's parameter types for the first `Json`-wrapped one and
/// returns the name of the wrapped type; later `Json` parameters are not
/// consulted.
pub fn extract_request_body_type(params: &Vec<TypeExpr>) -> (r: Option<String>)
    ensures
        r.deep_view() == spec_body_type(params.deep_view()),
{
    let n = params.len();
    let mut i: usize = 0;
    proof {
        assert(params.deep_view().skip(0) =~= params.deep_view());
    }
    while i < n
        invariant
            i <= n,
            n == params.len(),
            spec_body_type(params.deep_view()) == spec_body_type(
                params.deep_view().skip(i as int),
            ),
        decreases n - i,
    {
        let ghost dv = params.deep_view();
        proof {
            assert(dv.skip(i as int)[0] == dv[i as int]);
            assert(dv.skip(i as int).drop_first() =~= dv.skip(i as int + 1));
        }
        if str_eq(params[i].name.as_str(), "Json") && params[i].args.len() >= 1 {
            return Some(params[i].args[0].name.clone());
        }
        i = i + 1;
    }
    None
}

/// Reads the success-payload and error type names off a handler's declared
/// return type, following the `Result` and `Json` conventions.
pub fn extract_response_and_error_types(ret: &Option<TypeExpr>) -> (r: (
    Option<String>,
    Option<String>,
))
    ensures
        r.0.deep_view() == spec_response_type(ret.deep_view()),
        r.1.deep_view() == spec_error_type(ret.deep_view()),
{
    match ret {
        None => (None, None),
        Some(t) => {
            if str_eq(t.name.as_str(), "Result") {
                let response: Option<String> = if t.args.len() >= 1 && str_eq(
                    t.args[0].name.as_str(),
                    "Json",
                ) && t.args[0].args.len() >= 1 {
                    Some(t.args[0].args[0].clone())
                } else {
                    None
                };
                let error: Option<String> = if t.args.len() >= 2 {
                    Some(t.args[1].name.clone())
                } else {
                    None
                };
                (response, error)
            } else if str_eq(t.name.as_str(), "Json") && t.args.len() >= 1 {
                (Some(t.args[0].name.clone()), None)
            } else {
                (None, None)
            }
        },
    }
}

/// Which characters of a type token are replaced by underscores when the
/// token is turned into an identifier.
pub open spec fn spec_is_type_punct(c: char) -> bool {
    c == '<' || c == '>' || c == ' ' || c == ',' || c == ':' || c == ';' || c == '(' || c == ')'
        || c == '[' || c == ']' || c == '{' || c == '}' || c == '&' || c == '*'
}

pub open spec fn spec_subst_char(c: char) -> char {
    if spec_is_type_punct(c) {
        '_'
    } else {
        c
    }
}

/// Every punctuation character replaced by an underscore.
pub open spec fn spec_subst_all(s: Seq<char>) -> Seq<char>
    decreases s.len(),
{
    if s.len() == 0 {
        Seq::empty()
    } else {
        spec_subst_all(s.drop_last()).push(spec_subst_char(s.last()))
    }
}

/// One left-to-right pass collapsing each pair of adjacent underscores
/// into a single one.
pub open spec fn spec_collapse(s: Seq<char>) -> Seq<char>
    decreases s.len(),
{
    if s.len() == 0 {
        Seq::empty()
    } else if s.len() >= 2 && s[0] == '_' && s[1] == '_' {
        seq!['_'] + spec_collapse(s.skip(2))
    } else {
        seq![s[0]] + spec_collapse(s.skip(1))
    }
}

/// What sanitizing a type token yields.
pub open spec fn spec_sanitize(s: Seq<char>) -> Seq<char> {
    spec_collapse(spec_subst_all(s))
}

fn is_type_punct(c: char) -> (r: bool)
    ensures
        r == spec_is_type_punct(c),
{
    c == '<' || c == '>' || c == ' ' || c == ',' || c == ':' || c == ';' || c == '(' || c == ')'
        || c == '[' || c == ']' || c == '{' || c == '}' || c == '&' || c == '*'
}

/// Turns a type token such as `Vec<String>` into an identifier-shaped
/// string (`Vec_String_`): punctuation becomes underscores, and each pair
/// of adjacent underscores collapses into one.
pub fn sanitize_type_for_identifier(type_str: &str) -> (r: String)
    ensures
        r@ == spec_sanitize(type_str@),
{
    let n = type_str.unicode_len();
    let mut subst = String::new();
    let mut i: usize = 0;
    proof {
        reveal_strlit("_");
        assert(subst@ =~= spec_subst_all(type_str@.take(0)));
    }
    while i < n
        invariant
            i <= n,
            n == type_str@.len(),
            subst@ == spec_subst_all(type_str@.take(i as int)),
        decreases n - i,
    {
        let ghost pre = subst@;
        let c = type_str.get_char(i);
        if is_type_punct(c) {
            append_str(&mut subst, "_");
            proof {
                reveal_strlit("_");
                assert("_"@ =~= seq!['_']);
            }
        } else {
            append_sub(&mut subst, type_str, i, i + 1);
            proof {
                assert(type_str@.subrange(i as int, i as int + 1) =~= seq![type_str@[i as int]]);
            }
        }
        proof {
            let tv = type_str@;
            assert(tv.take(i + 1).drop_last() =~= tv.take(i as int));
            assert(tv.take(i + 1).last() == tv[i as int]);
            assert(subst@ =~= pre.push(spec_subst_char(tv[i as int])));
        }
        i = i + 1;
    }
    proof {
        assert(type_str@.take(n as int) =~= type_str@);
    }
    let ts = subst.as_str();
    let m = ts.unicode_len();
    let mut r = String::new();
    let mut j: usize = 0;
    proof {
        assert(ts@.skip(0) =~= ts@);
        assert(r@ + spec_collapse(ts@) =~= spec_collapse(ts@));
    }
    while j < m
        invariant
            j <= m,
            m == ts@.len(),
            r@ + spec_collapse(ts@.skip(j as int)) == spec_collapse(ts@),
        decreases m - j,
    {
        let ghost pre = r@;
        let ghost tv = ts@;
        if ts.get_char(j) == '_' && j + 1 < m && ts.get_char(j + 1) == '_' {
            append_str(&mut r, "_");
            proof {
                reveal_strlit("_");
                assert("_"@ =~= seq!['_']);
                assert(tv.skip(j as int).skip(2) =~= tv.skip(j as int + 2));
                assert(tv.skip(j as int)[0] == tv[j as int]);
                assert(tv.skip(j as int)[1] == tv[j as int + 1]);
                assert(spec_collapse(tv.skip(j as int)) == seq!['_'] + spec_collapse(
                    tv.skip(j as int + 2),
                ));
                assert(r@ + spec_collapse(tv.skip(j as int + 2)) =~= pre + spec_collapse(
                    tv.skip(j as int),
                ));
            }
            j = j + 2;
        } else {
            append_sub(&mut r, ts, j, j + 1);
            proof {
                assert(tv.subrange(j as int, j as int + 1) =~= seq![tv[j as int]]);
                assert(tv.skip(j as int).skip(1) =~= tv.skip(j as int + 1));
                assert(tv.skip(j as int)[0] == tv[j as int]);
                if tv.skip(j as int).len() >= 2 {
                    assert(tv.skip(j as int)[1] == tv[j as int + 1]);
                }
                assert(spec_collapse(tv.skip(j as int)) == seq![tv[j as int]] + spec_collapse(
                    tv.skip(j as int + 1),
                ));
                assert(r@ + spec_collapse(tv.skip(j as int + 1)) =~= pre + spec_collapse(
                    tv.skip(j as int),
                ));
            }
            j = j + 1;
        }
    }
    proof {
        assert(ts@.skip(m as int) =~= Seq::<char>::empty());
        assert(r@ =~= spec_collapse(ts@));
    }
    r
}

} // verus!
