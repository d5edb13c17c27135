//! The properties of a feature: its tags resolved against the dictionaries
//! of its layer.

use crate::error::{ErrorSource, ParserError, TagsError};
use crate::json::{entries, json_map_insert, json_map_with_capacity};
use crate::text::{bool_to_string, i64_to_string, u64_to_string};
use crate::tile::TileValue;
use vstd::prelude::*;

verus! {

/// Renders a dictionary entry as text: a string as it is, a number in
/// decimal, a boolean as `true` or `false`, and nothing for `Null`.
pub fn get_string_value(value: TileValue) -> (text: String)
    ensures
        text@ == value.text(),
{
    match value {
        TileValue::String(text) => text,
        TileValue::Float32(text) => text,
        TileValue::Float64(text) => text,
        TileValue::Int64(number) => i64_to_string(number),
        TileValue::UInt64(number) => u64_to_string(number),
        TileValue::SInt64(number) => i64_to_string(number),
        TileValue::Bool(flag) => bool_to_string(flag),
        TileValue::Null => String::new(),
    }
}

/// Whether a tag list is well formed for dictionaries of `keys` keys and
/// `values` values: it is a list of pairs, and each pair is an index into the
/// keys and an index into the values.
pub open spec fn tags_valid(tags: Seq<u32>, keys: nat, values: nat) -> bool {
    &&& tags.len() % 2 == 0
    &&& forall|i: int|
        0 <= i < tags.len() / 2 ==> (#[trigger] tags[2 * i]) < keys && tags[2 * i + 1] < values
}

/// The properties that a well-formed tag list stands for: each pair maps its
/// key to the text of its value, and a later pair overrides an earlier one
/// with the same key.
pub open spec fn resolved(tags: Seq<u32>, keys: Seq<String>, values: Seq<TileValue>) -> Map<
    Seq<char>,
    Seq<char>,
>
    decreases tags.len(),
{
    if tags.len() < 2 {
        Map::empty()
    } else {
        let front = tags.subrange(0, tags.len() - 2);
        let key = keys[tags[tags.len() - 2] as int];
        let value = values[tags[tags.len() - 1] as int];
        resolved(front, keys, values).insert(key@, value.text())
    }
}

/// Whether `result` is what resolving the tags `tags` gives: the properties
/// that a well-formed tag list stands for, and a tags error for any other.
pub open spec fn resolves(
    result: Result<serde_json::Map<String, serde_json::Value>, ParserError>,
    tags: Seq<u32>,
    keys: Seq<String>,
    values: Seq<TileValue>,
) -> bool {
    if tags_valid(tags, keys.len(), values.len()) {
        &&& result is Ok
        &&& entries(result->Ok_0) == resolved(tags, keys, values)
    } else {
        &&& result is Err
        &&& result->Err_0.source_spec() == ErrorSource::Tags(TagsError)
    }
}

/// Resolving the same tags against the same dictionaries twice gives the
/// same: both results hold the same properties, or both are tags errors.
pub proof fn lemma_parse_tags_is_deterministic(
    first: Result<serde_json::Map<String, serde_json::Value>, ParserError>,
    second: Result<serde_json::Map<String, serde_json::Value>, ParserError>,
    tags: Seq<u32>,
    keys: Seq<String>,
    values: Seq<TileValue>,
)
    requires
        resolves(first, tags, keys, values),
        resolves(second, tags, keys, values),
    ensures
        first is Ok <==> second is Ok,
        first is Ok ==> entries(first->Ok_0) == entries(second->Ok_0),
        first is Err ==> first->Err_0.source_spec() == second->Err_0.source_spec(),
{
}

/// A tag list of odd length is not well formed.
pub proof fn lemma_odd_tags_are_invalid(tags: Seq<u32>, keys: nat, values: nat)
    requires
        tags.len() % 2 == 1,
    ensures
        !tags_valid(tags, keys, values),
{
}

/// Resolves the tags of a feature against the dictionaries of its layer.
///
/// Fails with a tags error exactly when the list has an odd length or an
/// index lies outside its dictionary.
pub fn parse_tags(tags: &[u32], keys: &[String], values: &[TileValue]) -> (result: Result<
    serde_json::Map<String, serde_json::Value>,
    ParserError,
>)
    ensures
        resolves(result, tags@, keys@, values@),
        tags@.len() % 2 == 1 ==> result is Err,
{
    let mut result = json_map_with_capacity(tags.len() / 2);
    let mut i: usize = 0;
    while i < tags.len()
        invariant
            i <= tags@.len(),
            i % 2 == 0,
            tags_valid(tags@.subrange(0, i as int), keys@.len(), values@.len()),
            entries(result) == resolved(tags@.subrange(0, i as int), keys@, values@),
        decreases tags@.len() - i,
    {
        if tags.len() - i < 2 {
            return Err(ParserError::new(TagsError::new()));
        }
        let key_index = tags[i] as usize;
        let value_index = tags[i + 1] as usize;
        if key_index >= keys.len() || value_index >= values.len() {
            proof {
                let pair = (i / 2) as int;
                assert(tags@[2 * pair] == tags@[i as int]);
            }
            return Err(ParserError::new(TagsError::new()));
        }
        let key = keys[key_index].clone();
        let value = get_string_value(values[value_index].clone());
        json_map_insert(&mut result, key, value);
        proof {
            let before = tags@.subrange(0, i as int);
            let now = tags@.subrange(0, i + 2);
            assert(now.subrange(0, now.len() - 2) =~= before);
            assert forall|j: int| 0 <= j < now.len() / 2 implies (#[trigger] now[2 * j])
                < keys@.len() && now[2 * j + 1] < values@.len() by {
                if j < before.len() / 2 {
                    assert(before[2 * j] == now[2 * j]);
                }
            }
        }
        i += 2;
    }
    proof {
        assert(tags@.subrange(0, i as int) =~= tags@);
    }
    Ok(result)
}

} // verus!
