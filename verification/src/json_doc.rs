//! JSON documents that the reports print: an object whose members are
//! scalars or objects of scalars. The library decides what a document holds;
//! `serde_json` writes it out.
use vstd::prelude::*;

verus! {

/// A JSON scalar.
#[derive(Clone, Debug, PartialEq, Eq)]
pub enum JsonScalar {
    Null,
    Bool(bool),
    Int(i64),
    Text(String),
}

/// The value of a document member: a scalar, or an object of scalars.
#[derive(Clone, Debug, PartialEq, Eq)]
pub enum JsonMember {
    Scalar(JsonScalar),
    Object(Vec<(String, JsonScalar)>),
}

/// A JSON object of named members.
#[derive(Clone, Debug, PartialEq, Eq)]
pub struct JsonDocument {
    pub members: Vec<(String, JsonMember)>,
}

/// A scalar as a mathematical value.
pub enum ScalarSpec {
    Null,
    Bool(bool),
    Int(int),
    Text(Seq<char>),
}

/// A member value as a mathematical value.
pub enum MemberSpec {
    Scalar(ScalarSpec),
    Object(Seq<(Seq<char>, ScalarSpec)>),
}

/// The mathematical value of a scalar.
pub open spec fn scalar_view(s: JsonScalar) -> ScalarSpec {
    match s {
        JsonScalar::Null => ScalarSpec::Null,
        JsonScalar::Bool(b) => ScalarSpec::Bool(b),
        JsonScalar::Int(n) => ScalarSpec::Int(n as int),
        JsonScalar::Text(t) => ScalarSpec::Text(t@),
    }
}

/// The named scalars of an object, as mathematical values.
pub open spec fn fields_view(fields: Seq<(String, JsonScalar)>) -> Seq<(Seq<char>, ScalarSpec)> {
    fields.map_values(|f: (String, JsonScalar)| (f.0@, scalar_view(f.1)))
}

/// The mathematical value of a member value.
pub open spec fn member_view(m: JsonMember) -> MemberSpec {
    match m {
        JsonMember::Scalar(s) => MemberSpec::Scalar(scalar_view(s)),
        JsonMember::Object(fields) => MemberSpec::Object(fields_view(fields@)),
    }
}

/// The named members of a document, as mathematical values.
pub open spec fn document_view(d: JsonDocument) -> Seq<(Seq<char>, MemberSpec)> {
    d.members@.map_values(|m: (String, JsonMember)| (m.0@, member_view(m.1)))
}

/// A text, or null without one.
pub open spec fn opt_text_scalar(o: Option<String>) -> ScalarSpec {
    match o {
        Some(t) => ScalarSpec::Text(t@),
        None => ScalarSpec::Null,
    }
}

/// An integer, or null without one.
pub open spec fn opt_int_scalar(o: Option<i64>) -> ScalarSpec {
    match o {
        Some(n) => ScalarSpec::Int(n as int),
        None => ScalarSpec::Null,
    }
}

/// The scalar of an optional text.
pub fn text_or_null(o: &Option<String>) -> (r: JsonScalar)
    ensures
        scalar_view(r) == opt_text_scalar(*o),
{
    match o {
        Some(t) => JsonScalar::Text(t.clone()),
        None => JsonScalar::Null,
    }
}

/// The scalar of an optional integer.
pub fn int_or_null(o: Option<i64>) -> (r: JsonScalar)
    ensures
        scalar_view(r) == opt_int_scalar(o),
{
    match o {
        Some(n) => JsonScalar::Int(n),
        None => JsonScalar::Null,
    }
}

/// The scalar of a text.
pub fn text_scalar(t: &str) -> (r: JsonScalar)
    ensures
        scalar_view(r) == ScalarSpec::Text(t@),
{
    JsonScalar::Text(t.to_string())
}

} // verus!
