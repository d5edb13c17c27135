//! JSON objects, as far as the decoder fills them.

use vstd::prelude::*;

verus! {

/// A JSON value. Nothing is known of what it holds.
#[verifier::external_type_specification]
#[verifier::external_body]
pub struct ExJsonValue(serde_json::Value);

/// A JSON object: a map from keys to JSON values.
#[verifier::external_type_specification]
#[verifier::external_body]
#[verifier::reject_recursive_types(K)]
#[verifier::reject_recursive_types(V)]
pub struct ExJsonMap<K, V>(serde_json::Map<K, V>);

/// Entries of text: a map from keys to texts.
pub type Entries = Map<Seq<char>, Seq<char>>;

/// The string entries of a JSON object: each key whose value is a JSON
/// string, with the text of that string.
pub uninterp spec fn entries(object: serde_json::Map<String, serde_json::Value>) -> Entries;

/// `serde_json::Map::with_capacity`: makes a JSON object without any entry.
#[verifier::external_body]
pub(crate) fn json_map_with_capacity(capacity: usize) -> (object: serde_json::Map<String, serde_json::Value>)
    ensures
        entries(object) == Entries::empty(),
{
    serde_json::Map::with_capacity(capacity)
}

/// `serde_json::Map::insert`, with the JSON string of `value` as the value:
/// the object then maps `key` to that string, in place of what it mapped
/// `key` to before, and every other key as before.
#[verifier::external_body]
pub(crate) fn json_map_insert(
    object: &mut serde_json::Map<String, serde_json::Value>,
    key: String,
    value: String,
)
    ensures
        entries(*final(object)) == entries(*old(object)).insert(key@, value@),
{
    object.insert(key, serde_json::Value::String(value));
}

} // verus!
