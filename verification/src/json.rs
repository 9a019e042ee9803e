//! JSON boundary: the document tree as a plain value, and the narrow trusted
//! interface to the outside parser that produces it from text.

use vstd::prelude::*;

verus! {

/// A parsed JSON document as a plain tree: every node is held by value, so
/// the decoding logic over it can be verified.
///
/// A number is carried as its decimal rendering; no field of the catalog
/// schema reads one, it only has to be distinguishable from a string.
#[derive(Debug)]
pub enum JsonValue {
    Null,
    Bool(bool),
    Number(String),
    Str(String),
    Array(Vec<JsonValue>),
    Object(Vec<(String, JsonValue)>),
}

/// Declares serde_json::Value, the outside parser's document tree, so that it
/// can be carried from the parse call to the conversion; it is opaque here.
#[verifier::external_type_specification]
#[verifier::external_body]
pub struct ExSerdeJsonValue(serde_json::Value);

/// Declares serde_json::Error, the outside parser's error; nothing is read
/// from it, a syntax error of the library's own is reported instead.
#[verifier::external_type_specification]
#[verifier::external_body]
pub struct ExSerdeJsonError(serde_json::Error);

/// The tree of a syntactically valid JSON text, `None` for malformed text.
/// Named, never defined: it stands for what the outside parser returns, which
/// depends on the text alone.
pub uninterp spec fn json_tree(s: Seq<char>) -> Option<JsonValue>;

/// The plain tree held inside an outside parser value.
pub uninterp spec fn tree_of(v: serde_json::Value) -> JsonValue;

/// Relies on serde_json::from_str::<serde_json::Value>: it returns Ok exactly
/// when the text is one syntactically valid JSON document, and both the
/// outcome and the parsed tree are functions of the text alone.
#[verifier::external_body]
pub(crate) fn parse_document(s: &str) -> (r: Result<serde_json::Value, serde_json::Error>)
    ensures
        (r matches Ok(v) ==> json_tree(s@) == Some(tree_of(v))),
        (r matches Err(_) ==> json_tree(s@) is None),
{
    serde_json::from_str(s)
}

/// Relies on serde_json::Value being a finite tree of null, boolean, number,
/// string, array and object nodes; each variant is carried over to the
/// library's own tree, field by field, numbers as their decimal rendering.
#[verifier::external_body]
pub(crate) fn document_tree(v: &serde_json::Value) -> (r: JsonValue)
    ensures
        r == tree_of(*v),
{
    match v {
        serde_json::Value::Null => JsonValue::Null,
        serde_json::Value::Bool(b) => JsonValue::Bool(*b),
        serde_json::Value::Number(n) => JsonValue::Number(n.to_string()),
        serde_json::Value::String(s) => JsonValue::Str(s.clone()),
        serde_json::Value::Array(a) => JsonValue::Array(a.iter().map(|x| document_tree(x)).collect()),
        serde_json::Value::Object(m) => JsonValue::Object(
            m.iter().map(|(k, x)| (k.clone(), document_tree(x))).collect(),
        ),
    }
}

/// The value of the first pair in `fields` whose key reads `key`, if any.
pub open spec fn lookup(fields: Seq<(String, JsonValue)>, key: Seq<char>) -> Option<JsonValue>
    decreases fields.len(),
{
    if fields.len() == 0 {
        None
    } else if fields[0].0@ == key {
        Some(fields[0].1)
    } else {
        lookup(fields.drop_first(), key)
    }
}

/// Finds a field of a decoded JSON object by name.
pub fn get_field<'a>(fields: &'a Vec<(String, JsonValue)>, key: &str) -> (r: Option<
    &'a JsonValue,
>)
    ensures
        match r {
            Some(j) => lookup(fields@, key@) == Some(*j),
            None => lookup(fields@, key@) is None,
        },
{
    let owned: String = key.to_owned();
    let n = fields.len();
    let mut i: usize = 0;
    proof {
        assert(fields@.skip(0) =~= fields@);
    }
    while i < n
        invariant
            owned@ == key@,
            n == fields.len(),
            i <= n,
            lookup(fields@, key@) == lookup(fields@.skip(i as int), key@),
        decreases n - i,
    {
        proof {
            assert(fields@.skip(i as int)[0] == fields@[i as int]);
            assert(fields@.skip(i as int).drop_first() =~= fields@.skip(i as int + 1));
        }
        if fields[i].0.eq(&owned) {
            return Some(&fields[i].1);
        }
        i += 1;
    }
    proof {
        assert(fields@.skip(n as int) =~= Seq::<(String, JsonValue)>::empty());
    }
    None
}

} // verus!
