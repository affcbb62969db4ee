//! A plain-value model of a parsed JSON document, and the trusted parse that
//! fills it.
//!
//! The decoders only ever read strings, arrays and object members out of a
//! document, so the model keeps exactly those; every other kind of value is
//! collapsed into `Other`.

use vstd::prelude::*;

verus! {

/// A parsed JSON value, as far as the decoders look at one.
#[derive(Debug)]
pub enum JsonValue {
    /// A value the decoders never look inside: null, a boolean or a number.
    Other,
    /// A string value.
    Text(String),
    /// An array, in document order.
    List(Vec<JsonValue>),
    /// An object's members. Keys are unique and sorted, as the parser keeps
    /// them; a duplicated key in the document keeps its last value.
    Object(Vec<(String, JsonValue)>),
}

/// What parsing a text as JSON yields: `None` when the text is not a
/// syntactically valid document, otherwise the parsed tree. A pure function
/// of the input text.
pub uninterp spec fn json_of(s: Seq<char>) -> Option<JsonValue>;

/// Relies on `serde_json::from_str::<serde_json::Value>`: whether it accepts
/// the text, and the tree it yields, depend on the text alone (object members
/// come out deduplicated and sorted by key, the last value of a duplicated
/// key winning). The outcome is named `json_of`.
#[verifier::external_body]
pub(crate) fn parse_json(body: &str) -> (r: Result<JsonValue, String>)
    ensures
        (match r {
            Ok(v) => json_of(body@) == Some(v),
            Err(_) => json_of(body@) is None,
        }),
{
    match serde_json::from_str::<serde_json::Value>(body) {
        Ok(v) => Ok(json_tree(v)),
        Err(e) => Err(e.to_string()),
    }
}

#[verifier::external_type_specification]
#[verifier::external_body]
pub struct ExValue(serde_json::Value);

/// Relies on `serde_json::Value`: transcribes each variant of the parsed
/// tree into the library's model, one arm per variant, moving the fields.
#[verifier::external_body]
fn json_tree(v: serde_json::Value) -> JsonValue {
    match v {
        serde_json::Value::Null => JsonValue::Other,
        serde_json::Value::Bool(_) => JsonValue::Other,
        serde_json::Value::Number(_) => JsonValue::Other,
        serde_json::Value::String(s) => JsonValue::Text(s),
        serde_json::Value::Array(a) => JsonValue::List(a.into_iter().map(json_tree).collect()),
        serde_json::Value::Object(m) => JsonValue::Object(
            m.into_iter().map(|(k, x)| (k, json_tree(x))).collect(),
        ),
    }
}

/// The first member of `entries` named `key`, if any. Keys out of the parser
/// are unique, so the first match is the only one.
pub open spec fn spec_obj_get(entries: Seq<(String, JsonValue)>, key: Seq<char>) -> Option<
    JsonValue,
>
    decreases entries.len(),
{
    if entries.len() == 0 {
        None
    } else if entries[0].0@ == key {
        Some(entries[0].1)
    } else {
        spec_obj_get(entries.skip(1), key)
    }
}

/// Looks a member up by key.
pub fn obj_get<'a>(entries: &'a Vec<(String, JsonValue)>, key: &str) -> (r: Option<&'a JsonValue>)
    ensures
        (match r {
            Some(v) => spec_obj_get(entries@, key@) == Some(*v),
            None => spec_obj_get(entries@, key@) is None,
        }),
{
    let n = entries.len();
    let mut i: usize = 0;
    proof {
        assert(entries@.skip(0) =~= entries@);
    }
    while i < n
        invariant
            n == entries@.len(),
            i <= n,
            spec_obj_get(entries@, key@) == spec_obj_get(entries@.skip(i as int), key@),
        decreases n - i,
    {
        if crate::strutil::str_eq(entries[i].0.as_str(), key) {
            return Some(&entries[i].1);
        }
        proof {
            assert(entries@.skip(i as int).skip(1) =~= entries@.skip(i + 1));
        }
        i += 1;
    }
    None
}

} // verus!
