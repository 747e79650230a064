//! The schema synthesizer: from a type's ordered field list to a
//! JSON-Schema-like [`Schema`], through a fixed type-mapping table.
//!
//! String-like tokens map to `"string"`, integer variants to `"integer"`,
//! floating-point variants to `"number"`, `bool` to `"boolean"`. A field
//! wrapped in `Option` is left out of `required`. Every other token falls
//! back to `"string"` — the blanket fallback for unrecognised shapes.
//! Non-struct types (enums, unions) collapse to a bare `"string"` schema;
//! that simplification is deliberate and makes no attempt to model the
//! variants' shapes.

use vstd::prelude::*;
use vstd::string::StrSliceExecFns;
use vstd::string::StringExecFns;

use crate::openapi::PropModel;
use crate::openapi::Schema;
use crate::openapi::SchemaModel;
use crate::openapi::SchemaProperty;
use crate::strutil::idx_of_from;
use crate::strutil::lemma_idx_of_from;
use crate::strutil::find_from;
use crate::strutil::parse_u16;
use crate::strutil::spec_parse_u16;
use crate::strutil::str_eq;
use crate::strutil::substr_trim;
use crate::strutil::trim_spec;

verus! {

/// Types that can describe themselves as a schema, for hosts that attach
/// schemas to their data types by hand.
pub trait StoneSchema {
    fn schema() -> Schema;
}

/// One declared field of a record type: its name and its declared type
/// token, e.g. `("id", "u32")`.
#[derive(Debug)]
pub struct FieldDef {
    /// The field's name.
    pub name: String,
    /// The token of the field's declared type, e.g. "u32" or "Option".
    pub declared_type: String,
}

#[verifier::ext_equal]
pub struct FieldModel {
    pub name: Seq<char>,
    pub declared_type: Seq<char>,
}

impl View for FieldDef {
    type V = FieldModel;

    open spec fn view(&self) -> FieldModel {
        FieldModel { name: self.name@, declared_type: self.declared_type@ }
    }
}

impl DeepView for FieldDef {
    type V = FieldModel;

    open spec fn deep_view(&self) -> FieldModel {
        self.view()
    }
}

/// The fixed mapping from declared type tokens to JSON Schema types.
pub open spec fn spec_map_type(t: Seq<char>) -> Seq<char> {
    if t == "String"@ || t == "str"@ {
        "string"@
    } else if t == "i8"@ || t == "i16"@ || t == "i32"@ || t == "i64"@ || t == "i128"@
        || t == "u8"@ || t == "u16"@ || t == "u32"@ || t == "u64"@ || t == "u128"@
        || t == "isize"@ || t == "usize"@ {
        "integer"@
    } else if t == "f32"@ || t == "f64"@ {
        "number"@
    } else if t == "bool"@ {
        "boolean"@
    } else {
        "string"@
    }
}

/// A field wrapped in `Option` is optional: present in `properties`,
/// absent from `required`.
pub open spec fn spec_is_optional(t: Seq<char>) -> bool {
    t == "Option"@
}

/// The property list synthesized for a field list, in declaration order.
pub open spec fn props_of(fs: Seq<FieldModel>) -> Seq<PropModel>
    decreases fs.len(),
{
    if fs.len() == 0 {
        Seq::empty()
    } else {
        props_of(fs.drop_last()).push(
            PropModel {
                name: fs.last().name,
                schema_type: spec_map_type(fs.last().declared_type),
            },
        )
    }
}

/// The names of the non-optional fields, in declaration order.
pub open spec fn required_of(fs: Seq<FieldModel>) -> Seq<Seq<char>>
    decreases fs.len(),
{
    if fs.len() == 0 {
        Seq::empty()
    } else if spec_is_optional(fs.last().declared_type) {
        required_of(fs.drop_last())
    } else {
        required_of(fs.drop_last()).push(fs.last().name)
    }
}

/// The schema synthesized for a record type with the given field list.
pub open spec fn spec_struct_schema(fs: Seq<FieldModel>) -> SchemaModel {
    SchemaModel {
        schema_type: Some("object"@),
        title: None,
        description: None,
        properties: Some(props_of(fs)),
        required: if required_of(fs).len() > 0 {
            Some(required_of(fs))
        } else {
            None
        },
    }
}

pub fn map_type_token(t: &str) -> (r: String)
    ensures
        r@ == spec_map_type(t@),
{
    if str_eq(t, "String") || str_eq(t, "str") {
        String::from_str("string")
    } else if str_eq(t, "i8") || str_eq(t, "i16") || str_eq(t, "i32") || str_eq(t, "i64")
        || str_eq(t, "i128") || str_eq(t, "u8") || str_eq(t, "u16") || str_eq(t, "u32") || str_eq(
        t,
        "u64",
    ) || str_eq(t, "u128") || str_eq(t, "isize") || str_eq(t, "usize") {
        String::from_str("integer")
    } else if str_eq(t, "f32") || str_eq(t, "f64") {
        String::from_str("number")
    } else if str_eq(t, "bool") {
        String::from_str("boolean")
    } else {
        String::from_str("string")
    }
}

/// Synthesizes the object schema of a record type from its ordered field
/// list: one property per field through the fixed mapping table, and every
/// field not wrapped in `Option` listed as required.
pub fn synthesize_struct_schema(fields: &Vec<FieldDef>) -> (r: Schema)
    ensures
        r@ == spec_struct_schema(fields.deep_view()),
{
    let n = fields.len();
    let mut props: Vec<SchemaProperty> = Vec::new();
    let mut req: Vec<String> = Vec::new();
    let mut i: usize = 0;
    proof {
        assert(props.deep_view() =~= props_of(fields.deep_view().take(0)));
        assert(req.deep_view() =~= required_of(fields.deep_view().take(0)));
    }
    while i < n
        invariant
            i <= n,
            n == fields.len(),
            props.deep_view() == props_of(fields.deep_view().take(i as int)),
            req.deep_view() == required_of(fields.deep_view().take(i as int)),
        decreases n - i,
    {
        let ghost fv = fields.deep_view();
        let ghost props_pre = props.deep_view();
        let ghost req_pre = req.deep_view();
        let name = fields[i].name.clone();
        let st = map_type_token(fields[i].declared_type.as_str());
        let ghost pm = PropModel { name: name@, schema_type: st@ };
        props.push(SchemaProperty { name, schema_type: st });
        let optional = str_eq(fields[i].declared_type.as_str(), "Option");
        let ghost nm = fields@[i as int].name@;
        if !optional {
            req.push(fields[i].name.clone());
        }
        proof {
            assert(fv.take(i + 1).drop_last() =~= fv.take(i as int));
            assert(fv.take(i + 1).last() == fv[i as int]);
            assert(props.deep_view() =~= props_pre.push(pm));
            if !optional {
                assert(req.deep_view() =~= req_pre.push(nm));
            }
        }
        i = i + 1;
    }
    proof {
        assert(fields.deep_view().take(n as int) =~= fields.deep_view());
    }
    let required: Option<Vec<String>> = if req.len() > 0 {
        Some(req)
    } else {
        None
    };
    proof {
        if required_of(fields.deep_view()).len() == 0 {
            assert(required is None);
        }
    }
    Schema {
        schema_type: Some(String::from_str("object")),
        title: None,
        description: None,
        properties: Some(props),
        required,
    }
}

/// The schema of a non-struct type: a bare `"string"`, with the variants'
/// shapes deliberately not modeled.
pub fn synthesize_enum_schema() -> (r: Schema)
    ensures
        r@ == (SchemaModel {
            schema_type: Some("string"@),
            title: None,
            description: None,
            properties: None,
            required: None,
        }),
{
    Schema {
        schema_type: Some(String::from_str("string")),
        title: None,
        description: None,
        properties: None,
        required: None,
    }
}

/// The schema registered for an error enum: an object carrying an opaque
/// `error` member.
pub fn error_schema() -> (r: Schema)
    ensures
        r@ == (SchemaModel {
            schema_type: Some("object"@),
            title: None,
            description: None,
            properties: Some(
                seq![PropModel { name: "error"@, schema_type: "object"@ }],
            ),
            required: None,
        }),
{
    let mut props: Vec<SchemaProperty> = Vec::new();
    props.push(
        SchemaProperty {
            name: String::from_str("error"),
            schema_type: String::from_str("object"),
        },
    );
    proof {
        assert(props.deep_view() =~= seq![PropModel { name: "error"@, schema_type: "object"@ }]);
    }
    Schema {
        schema_type: Some(String::from_str("object")),
        title: None,
        description: None,
        properties: Some(props),
        required: None,
    }
}

/// The status code announced by one documentation line of an error-enum
/// variant: the text before the first `:`, trimmed, read as a `u16`.
pub open spec fn line_status(l: Seq<char>) -> Option<u16> {
    let c = idx_of_from(l, 0, ':');
    if c < l.len() {
        spec_parse_u16(trim_spec(l.take(c)))
    } else {
        None
    }
}

/// The status code of an error-enum variant: the first documentation line
/// announcing one decides; a variant announcing none maps to 500.
pub open spec fn spec_error_status(ls: Seq<Seq<char>>) -> u16
    decreases ls.len(),
{
    if ls.len() == 0 {
        500u16
    } else {
        match line_status(ls[0]) {
            Some(c) => c,
            None => spec_error_status(ls.drop_first()),
        }
    }
}

/// Reads the HTTP status code of an error-enum variant from its
/// documentation lines, written `{code}: {description}`; variants that
/// announce no code default to 500 Internal Server Error.
pub fn error_status_code(doc_lines: &Vec<String>) -> (r: u16)
    ensures
        r == spec_error_status(doc_lines.deep_view()),
{
    let n = doc_lines.len();
    let mut i: usize = 0;
    proof {
        assert(doc_lines.deep_view().skip(0) =~= doc_lines.deep_view());
    }
    while i < n
        invariant
            i <= n,
            n == doc_lines.len(),
            spec_error_status(doc_lines.deep_view()) == spec_error_status(
                doc_lines.deep_view().skip(i as int),
            ),
        decreases n - i,
    {
        let ghost dv = doc_lines.deep_view();
        proof {
            assert(dv.skip(i as int)[0] == dv[i as int]);
            assert(dv.skip(i as int).drop_first() =~= dv.skip(i as int + 1));
        }
        let line = doc_lines[i].as_str();
        let ln = line.unicode_len();
        let c = find_from(line, 0, ':');
        proof {
            lemma_idx_of_from(line@, 0, ':');
        }
        if c < ln {
            let sp = substr_trim(line, 0, c);
            proof {
                assert(line@.subrange(0, c as int) =~= line@.take(c as int));
            }
            let code = parse_u16(sp.as_str());
            match code {
                Some(v) => {
                    return v;
                },
                None => {},
            }
        }
        i = i + 1;
    }
    500
}

} // verus!
