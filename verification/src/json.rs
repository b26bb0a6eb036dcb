//! A JSON document tree of plain values, produced by the `serde_json`
//! parser and navigated by the verified decoder. Parsing is trusted (its
//! result is named, never restated); everything that reads the tree is
//! verified.
use vstd::prelude::*;

verus! {

/// The outside parser's document type, opaque to the verifier.
#[verifier::external_type_specification]
#[verifier::external_body]
pub struct ExValue(serde_json::Value);

/// One JSON value as plain data. Numbers outside the `i64` range (or with
/// a fractional part) are kept as `Other`: the decoder never needs them,
/// but they must not make a document unreadable.
#[derive(Debug)]
pub enum JsonValue {
    Null,
    Bool(bool),
    Int(i64),
    Str(String),
    Arr(Vec<JsonValue>),
    Obj(Vec<(String, JsonValue)>),
    Other,
}

/// The document tree that the parser yields for a byte payload, or `None`
/// when it rejects the payload (bytes that are not valid UTF-8 JSON, or a
/// document nested beyond the parser's limit). The result is a function of
/// the bytes alone.
pub uninterp spec fn json_of(bytes: Seq<u8>) -> Option<JsonValue>;

/// The library's tree for one parsed document of the outside parser.
pub uninterp spec fn tree_of(v: serde_json::Value) -> JsonValue;

/// Relies on `serde_json::from_slice`: deterministic in the input bytes,
/// failing on input that is not valid UTF-8 JSON (or that overruns the
/// parser's nesting limit).
#[verifier::external_body]
fn parse_value(bytes: &[u8]) -> (r: Option<serde_json::Value>)
    ensures
        match r {
            Some(v) => json_of(bytes@) == Some(tree_of(v)),
            None => json_of(bytes@) is None,
        },
{
    serde_json::from_slice::<serde_json::Value>(bytes).ok()
}

/// Relies on `serde_json::Value` variant inspection and `Number::as_i64`:
/// copies a parsed document into the library's tree, one variant arm each,
/// moving the fields (with default features, objects iterate in sorted key
/// order, so the copy is a function of the document alone).
#[verifier::external_body]
fn value_tree(v: &serde_json::Value) -> (r: JsonValue)
    ensures
        r == tree_of(*v),
{
    match v {
        serde_json::Value::Null => JsonValue::Null,
        serde_json::Value::Bool(b) => JsonValue::Bool(*b),
        serde_json::Value::Number(n) => n.as_i64().map_or(JsonValue::Other, JsonValue::Int),
        serde_json::Value::String(s) => JsonValue::Str(s.clone()),
        serde_json::Value::Array(a) => JsonValue::Arr(a.iter().map(value_tree).collect()),
        serde_json::Value::Object(m) => JsonValue::Obj(
            m.iter().map(|(k, x)| (k.clone(), value_tree(x))).collect(),
        ),
    }
}

/// Parses a JSON byte payload into the library's document tree; `None`
/// when the bytes are not valid UTF-8 JSON.
pub fn parse_json(bytes: &[u8]) -> (r: Option<JsonValue>)
    ensures
        r == json_of(bytes@),
{
    match parse_value(bytes) {
        Some(v) => Some(value_tree(&v)),
        None => None,
    }
}

/// The value under the first entry with the given key, if any.
pub open spec fn lookup_spec(entries: Seq<(String, JsonValue)>, key: Seq<char>) -> Option<
    JsonValue,
>
    decreases entries.len(),
{
    if entries.len() == 0 {
        None
    } else if entries[0].0@ == key {
        Some(entries[0].1)
    } else {
        lookup_spec(entries.drop_first(), key)
    }
}

/// Finds the first entry of an object with the given key.
pub fn lookup<'a>(entries: &'a Vec<(String, JsonValue)>, key: &str) -> (r: Option<&'a JsonValue>)
    ensures
        match r {
            Some(v) => lookup_spec(entries@, key@) == Some(*v),
            None => lookup_spec(entries@, key@) is None,
        },
{
    let mut i: usize = 0;
    proof {
        assert(entries@.skip(0) =~= entries@);
    }
    while i < entries.len()
        invariant
            i <= entries@.len(),
            lookup_spec(entries@, key@) == lookup_spec(entries@.skip(i as int), key@),
        decreases entries@.len() - i,
    {
        proof {
            assert(entries@.skip(i as int)[0] == entries@[i as int]);
            assert(entries@.skip(i as int).drop_first() =~= entries@.skip(i + 1));
        }
        if crate::text::str_eq(entries[i].0.as_str(), key) {
            return Some(&entries[i].1);
        }
        i += 1;
    }
    proof {
        assert(entries@.skip(entries@.len() as int) =~= Seq::<(String, JsonValue)>::empty());
    }
    None
}

} // verus!
