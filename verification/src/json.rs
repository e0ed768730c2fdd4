//! An untyped JSON tree and verified lookup of object fields.
//!
//! Inbound frames carry JSON text.  The text is parsed by `serde_json` behind
//! a trusted wrapper; everything after the parse works on the [`Json`] tree
//! below and is verified.  Numbers are kept as their decimal text: no part of
//! the relay reads a numeric value out of a frame.

use vstd::prelude::*;

verus! {

/// An untyped JSON value.
///
/// An object keeps its fields as a list of `(key, value)` pairs; a tree that
/// comes out of the parser has distinct keys in each object, and lookup takes
/// the first match.
#[derive(Debug, PartialEq, Eq)]
pub enum Json {
    Null,
    Bool(bool),
    /// A number, as its decimal text.
    Num(String),
    Str(String),
    Arr(Vec<Json>),
    Obj(Vec<(String, Json)>),
}

/// What parsing a JSON text yields: the tree for a well-formed text, `None`
/// otherwise.  JSON parsing is a function of the text alone, so the result is
/// only named here; [`parse_json`] is the sole way to obtain it.
pub uninterp spec fn spec_parse_json(s: Seq<char>) -> Option<Json>;

/// Relies on `serde_json::from_str`: a well-formed JSON text parses to its
/// tree, a function of the text alone; a malformed one is refused.
#[verifier::external_body]
pub fn parse_json(s: &str) -> (r: Option<Json>)
    ensures
        r == spec_parse_json(s@),
{
    match serde_json::from_str::<serde_json::Value>(s) {
        Ok(v) => Some(from_value(v)),
        Err(_) => None,
    }
}

/// The parser's own tree type, opaque here; [`from_value`] carries it over.
#[verifier::external_type_specification]
#[verifier::external_body]
pub struct ExValue(serde_json::Value);

/// Relies on the shape of `serde_json::Value`: part of the trusted body of
/// [`parse_json`], this carries each node of the parsed tree over into
/// [`Json`], one for one, with a number kept as its decimal text.
#[verifier::external_body]
fn from_value(v: serde_json::Value) -> Json {
    match v {
        serde_json::Value::Null => Json::Null,
        serde_json::Value::Bool(b) => Json::Bool(b),
        serde_json::Value::Number(n) => Json::Num(n.to_string()),
        serde_json::Value::String(s) => Json::Str(s),
        serde_json::Value::Array(a) => Json::Arr(a.into_iter().map(from_value).collect()),
        serde_json::Value::Object(m) => Json::Obj(
            m.into_iter().map(|(k, x)| (k, from_value(x))).collect(),
        ),
    }
}

/// The value of the first field named `key`, if any.
pub open spec fn spec_obj_get(fields: Seq<(String, Json)>, key: Seq<char>) -> Option<Json>
    decreases fields.len(),
{
    if fields.len() == 0 {
        None
    } else if fields[0].0@ == key {
        Some(fields[0].1)
    } else {
        spec_obj_get(fields.drop_first(), key)
    }
}

/// Whether two string slices hold the same characters.
pub fn str_eq(a: &str, b: &str) -> (r: bool)
    ensures
        r == (a@ == b@),
{
    let sa: String = a.to_owned();
    let sb: String = b.to_owned();
    sa == sb
}

/// The index of the first field named `key`, if any.
pub fn obj_index(fields: &Vec<(String, Json)>, key: &str) -> (r: Option<usize>)
    ensures
        match r {
            Some(i) => i < fields@.len() && fields@[i as int].0@ == key@
                && spec_obj_get(fields@, key@) == Some(fields@[i as int].1),
            None => spec_obj_get(fields@, key@) is None,
        },
{
    let n: usize = fields.len();
    proof {
        assert(fields@.skip(0) =~= fields@);
    }
    for i in 0..n
        invariant
            n == fields@.len(),
            spec_obj_get(fields@, key@) == spec_obj_get(fields@.skip(i as int), key@),
    {
        assert(fields@.skip(i as int)[0] == fields@[i as int]);
        if str_eq(fields[i].0.as_str(), key) {
            return Some(i);
        }
        assert(fields@.skip(i as int).drop_first() =~= fields@.skip(i + 1));
    }
    None
}

/// A borrow of the first field named `key`, if any.
pub fn obj_get<'a>(fields: &'a Vec<(String, Json)>, key: &str) -> (r: Option<&'a Json>)
    ensures
        match r {
            Some(j) => spec_obj_get(fields@, key@) == Some(*j),
            None => spec_obj_get(fields@, key@) is None,
        },
{
    match obj_index(fields, key) {
        Some(i) => Some(&fields[i].1),
        None => None,
    }
}

} // verus!
