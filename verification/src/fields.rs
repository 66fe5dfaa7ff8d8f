//! The inbound JSON boundary: parsing an untrusted request body and
//! extracting the top-level fields the routes care about.
//!
//! A field's JSON value is kept as an explicit sum over the JSON kinds, and
//! the decision how a non-string value is turned into text is made by the
//! verified [`field_text`], not inherited silently from the parser.

use vstd::prelude::*;
use vstd::string::*;

verus! {

/// One top-level field of a parsed request body, by JSON kind.
pub enum JsonField {
    /// a JSON string, holding its decoded text
    Str(String),
    /// a JSON number, holding its canonical JSON text
    Num(String),
    /// a JSON boolean
    Bool(bool),
    /// JSON null
    Null,
    /// a JSON array or object, holding its compact JSON text
    Composite(String),
}

/// The mathematical value of a [`JsonField`].
pub enum JsonFieldV {
    Str(Seq<char>),
    Num(Seq<char>),
    Bool(bool),
    Null,
    Composite(Seq<char>),
}

impl View for JsonField {
    type V = JsonFieldV;

    open spec fn view(&self) -> JsonFieldV {
        match self {
            JsonField::Str(s) => JsonFieldV::Str(s@),
            JsonField::Num(s) => JsonFieldV::Num(s@),
            JsonField::Bool(b) => JsonFieldV::Bool(*b),
            JsonField::Null => JsonFieldV::Null,
            JsonField::Composite(s) => JsonFieldV::Composite(s@),
        }
    }
}

/// The top-level fields a route may require, each absent or present.
pub struct RawFields {
    pub key: Option<JsonField>,
    pub value: Option<JsonField>,
    pub name: Option<JsonField>,
}

/// The mathematical value of [`RawFields`].
pub struct RawFieldsV {
    pub key: Option<JsonFieldV>,
    pub value: Option<JsonFieldV>,
    pub name: Option<JsonFieldV>,
}

pub open spec fn opt_field_view(o: Option<JsonField>) -> Option<JsonFieldV> {
    match o {
        Some(f) => Some(f@),
        None => None,
    }
}

impl View for RawFields {
    type V = RawFieldsV;

    open spec fn view(&self) -> RawFieldsV {
        RawFieldsV {
            key: opt_field_view(self.key),
            value: opt_field_view(self.value),
            name: opt_field_view(self.name),
        }
    }
}

/// What parsing a body text yields: `None` when the text is not valid JSON,
/// otherwise the `key`, `value` and `name` fields of its top level (all
/// absent when the document is not an object). A function of the text alone.
pub uninterp spec fn body_fields(s: Seq<char>) -> Option<RawFieldsV>;

/// Relies on `serde_json::from_str::<serde_json::Value>`, which returns `Ok`
/// exactly on valid JSON text; on `serde_json::Value::get`, which on an
/// object looks a field up by name and on any other document returns `None`;
/// and on the `Display` impls of `serde_json::Value` and `serde_json::Number`
/// for the compact JSON text of non-string values. All are functions of the
/// body text alone, so the whole extraction is named by [`body_fields`].
#[verifier::external_body]
pub(crate) fn parse_fields(s: &str) -> (r: Option<RawFields>)
    ensures
        r is Some <==> body_fields(s@) is Some,
        r matches Some(f) ==> Some(f@) == body_fields(s@),
{
    let v: serde_json::Value = match serde_json::from_str(s) {
        Ok(v) => v,
        Err(_) => return None,
    };
    let field = |n: &str| v.get(n).map(|x| match x {
        serde_json::Value::String(t) => JsonField::Str(t.clone()),
        serde_json::Value::Number(m) => JsonField::Num(m.to_string()),
        serde_json::Value::Bool(b) => JsonField::Bool(*b),
        serde_json::Value::Null => JsonField::Null,
        other => JsonField::Composite(other.to_string()),
    });
    Some(RawFields { key: field("key"), value: field("value"), name: field("name") })
}

/// The text a field value contributes downstream: a string field passes its
/// text through verbatim, every other kind passes its canonical JSON text.
pub open spec fn field_text_spec(f: JsonFieldV) -> Seq<char> {
    match f {
        JsonFieldV::Str(s) => s,
        JsonFieldV::Num(t) => t,
        JsonFieldV::Bool(b) => if b {
            "true"@
        } else {
            "false"@
        },
        JsonFieldV::Null => "null"@,
        JsonFieldV::Composite(t) => t,
    }
}

/// Turns a field value into the text the routes work with.
pub fn field_text(f: &JsonField) -> (r: String)
    ensures
        r@ == field_text_spec(f@),
{
    match f {
        JsonField::Str(s) => s.clone(),
        JsonField::Num(t) => t.clone(),
        JsonField::Bool(b) => if *b {
            String::from_str("true")
        } else {
            String::from_str("false")
        },
        JsonField::Null => String::from_str("null"),
        JsonField::Composite(t) => t.clone(),
    }
}

} // verus!
