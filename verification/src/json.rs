//! A model of parsed structured message bodies. Parsing itself is done by
//! an outside parser behind a trusted boundary; every read the preview
//! logic makes happens on the library's own tree, and is verified.
use vstd::prelude::*;
use crate::strutil::str_eq;

verus! {

/// A parsed message body. Object fields keep the order in which the text
/// gave them; numeric values are not read by any consumer here, so only
/// their presence is kept.
pub enum JsonValue {
    Null,
    Bool(bool),
    Number,
    Text(String),
    Array(Vec<JsonValue>),
    Object(Vec<(String, JsonValue)>),
}

#[verifier::external_type_specification]
#[verifier::external_body]
pub struct ExSerdeValue(serde_json::Value);

/// The parse tree of a body text, if the text is well-formed: whether a
/// body parses, and to what tree, is a function of the text alone.
pub uninterp spec fn json_parse_of(body: Seq<char>) -> Option<JsonValue>;

/// Relies on serde_json::Value: reads the parsed tree, one arm per
/// variant, moving each part into the library's model of it.
#[verifier::external_body]
fn value_model(v: &serde_json::Value) -> JsonValue {
    match v {
        serde_json::Value::Null => JsonValue::Null,
        serde_json::Value::Bool(b) => JsonValue::Bool(*b),
        serde_json::Value::Number(_) => JsonValue::Number,
        serde_json::Value::String(s) => JsonValue::Text(s.clone()),
        serde_json::Value::Array(xs) => JsonValue::Array(xs.iter().map(value_model).collect()),
        serde_json::Value::Object(m) => JsonValue::Object(
            m.iter().map(|(k, x)| (k.clone(), value_model(x))).collect(),
        ),
    }
}

/// Relies on serde_json::from_str: parses the body text, keeping the
/// fields of each object in the order the text gave them.
#[verifier::external_body]
pub(crate) fn parse_json(body: &str) -> (r: Option<JsonValue>)
    ensures
        r == json_parse_of(body@),
{
    match serde_json::from_str::<serde_json::Value>(body) {
        Ok(v) => Some(value_model(&v)),
        Err(_) => None,
    }
}

/// The value under the first entry named `key`, scanning in field order.
pub open spec fn lookup_spec(entries: Seq<(String, JsonValue)>, key: Seq<char>) -> Option<
    JsonValue,
>
    decreases entries.len(),
{
    if entries.len() == 0 {
        None
    } else if entries[0].0@ == key {
        Some(entries[0].1)
    } else {
        lookup_spec(entries.drop_first(), key)
    }
}

/// The value under `key` if `v` is an object holding that field.
pub open spec fn get_spec(v: JsonValue, key: Seq<char>) -> Option<JsonValue> {
    match v {
        JsonValue::Object(es) => lookup_spec(es@, key),
        _ => None,
    }
}

/// The characters of `v` if it is a text value.
pub open spec fn as_text_spec(v: JsonValue) -> Option<Seq<char>> {
    match v {
        JsonValue::Text(s) => Some(s@),
        _ => None,
    }
}

/// Find the first entry named `key` among the fields of an object.
#[verifier::loop_isolation(false)]
pub fn lookup<'a>(entries: &'a Vec<(String, JsonValue)>, key: &str) -> (r: Option<&'a JsonValue>)
    ensures
        match r {
            Some(v) => lookup_spec(entries@, key@) == Some(*v),
            None => lookup_spec(entries@, key@) is None,
        },
{
    proof {
        assert(entries@.skip(0) =~= entries@);
    }
    let mut i: usize = 0;
    while i < entries.len()
        invariant
            i <= entries@.len(),
            lookup_spec(entries@, key@) == lookup_spec(entries@.skip(i as int), key@),
        decreases entries@.len() - i,
    {
        proof {
            assert(entries@.skip(i as int)[0] == entries@[i as int]);
            assert(entries@.skip(i as int).drop_first() =~= entries@.skip(i as int + 1));
        }
        if str_eq(entries[i].0.as_str(), key) {
            return Some(&entries[i].1);
        }
        i = i + 1;
    }
    None
}

/// The field named `key`, if `v` is an object that has it.
pub fn get<'a>(v: &'a JsonValue, key: &str) -> (r: Option<&'a JsonValue>)
    ensures
        match r {
            Some(x) => get_spec(*v, key@) == Some(*x),
            None => get_spec(*v, key@) is None,
        },
{
    match v {
        JsonValue::Object(entries) => lookup(entries, key),
        _ => None,
    }
}

/// The text of `v`, if it is a text value.
pub fn as_text<'a>(v: &'a JsonValue) -> (r: Option<&'a String>)
    ensures
        match r {
            Some(s) => as_text_spec(*v) == Some(s@),
            None => as_text_spec(*v) is None,
        },
{
    match v {
        JsonValue::Text(s) => Some(s),
        _ => None,
    }
}

} // verus!
