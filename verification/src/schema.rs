//! Removal of the schema-identifier field from an advertised schema.

use crate::json::{
    object_get_mut, object_of, object_remove, value_as_object_mut, Json, JsonObject,
};
use vstd::prelude::*;

verus! {

/// The key under which a schema names the dialect it is written in.
pub open spec fn schema_url_key() -> Seq<char> {
    "$schema"@
}

/// The key of the nested object that may name the dialect once more.
pub open spec fn metadata_key() -> Seq<char> {
    "metadata"@
}

/// A schema without its schema identifier: the identifier is gone from the
/// top level and, where `metadata` is an object, from that object too.
/// Nothing else changes.
pub open spec fn without_schema_url(schema: Map<Seq<char>, Json>) -> Map<Seq<char>, Json> {
    let top = schema.remove(schema_url_key());
    if top.contains_key(metadata_key()) {
        match top[metadata_key()] {
            Json::Object(metadata) => top.insert(
                metadata_key(),
                Json::Object(metadata.remove(schema_url_key())),
            ),
            _ => top,
        }
    } else {
        top
    }
}

/// The two keys are different keys.
pub proof fn lemma_keys_differ()
    ensures
        schema_url_key() != metadata_key(),
{
    reveal_strlit("$schema");
    reveal_strlit("metadata");
    assert(metadata_key().len() == 8);
}

/// A copy of `schema` without its schema identifier.
pub fn strip_schema_url(schema: &JsonObject) -> (stripped: JsonObject)
    ensures
        object_of(stripped) == without_schema_url(object_of(*schema)),
{
    proof {
        lemma_keys_differ();
    }
    let mut stripped = schema.clone();
    let _ = object_remove(&mut stripped, "$schema");
    match object_get_mut(&mut stripped, "metadata") {
        Some(slot) => {
            match value_as_object_mut(slot) {
                Some(metadata) => {
                    let _ = object_remove(metadata, "$schema");
                },
                None => {},
            }
        },
        None => {},
    }
    stripped
}

/// Whether a schema holds no schema identifier, neither at its top level
/// nor inside `metadata` where that is an object.
pub open spec fn has_no_schema_url(schema: Map<Seq<char>, Json>) -> bool {
    &&& !schema.contains_key(schema_url_key())
    &&& schema.contains_key(metadata_key()) ==> (schema[metadata_key()] matches Json::Object(
        metadata,
    ) ==> !metadata.contains_key(schema_url_key()))
}

/// After stripping, no schema identifier is left at the top level, nor in
/// `metadata` where that is an object.
pub proof fn lemma_stripped_has_no_schema_url(schema: Map<Seq<char>, Json>)
    ensures
        has_no_schema_url(without_schema_url(schema)),
{
    lemma_keys_differ();
}

/// Stripping touches nothing but the schema identifier: every other
/// top-level entry, `metadata` apart, is kept as it was, `metadata` is kept
/// whenever it was there, and inside a `metadata` object every other entry is
/// kept as it was.
pub proof fn lemma_stripped_keeps_the_rest(schema: Map<Seq<char>, Json>, key: Seq<char>)
    requires
        key != schema_url_key(),
    ensures
        without_schema_url(schema).contains_key(key) == schema.contains_key(key),
        schema.contains_key(key) && key != metadata_key() ==> without_schema_url(schema)[key]
            == schema[key],
        schema.contains_key(metadata_key()) ==> (match schema[metadata_key()] {
            Json::Object(before) => without_schema_url(schema)[metadata_key()] matches Json::Object(
                after,
            ) && after.contains_key(key) == before.contains_key(key) && (before.contains_key(key)
                ==> after[key] == before[key]),
            other => without_schema_url(schema)[metadata_key()] == other,
        }),
{
    lemma_keys_differ();
}

/// Stripping a schema that holds no schema identifier changes nothing.
pub proof fn lemma_strip_keeps_clean_schema(schema: Map<Seq<char>, Json>)
    requires
        has_no_schema_url(schema),
    ensures
        without_schema_url(schema) == schema,
{
    assert(schema.remove(schema_url_key()) =~= schema);
    if schema.contains_key(metadata_key()) {
        match schema[metadata_key()] {
            Json::Object(metadata) => {
                assert(metadata.remove(schema_url_key()) =~= metadata);
                assert(schema.insert(metadata_key(), Json::Object(metadata)) =~= schema);
            },
            _ => {},
        }
    }
}

/// Stripping twice is stripping once.
pub proof fn lemma_strip_is_idempotent(schema: Map<Seq<char>, Json>)
    ensures
        without_schema_url(without_schema_url(schema)) == without_schema_url(schema),
{
    lemma_stripped_has_no_schema_url(schema);
    lemma_strip_keeps_clean_schema(without_schema_url(schema));
}

} // verus!
