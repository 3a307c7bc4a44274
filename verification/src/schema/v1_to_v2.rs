//! Schema version 2: stored JSON documents carry their schema version, and
//! gallery items replace their legacy safety assessment by a scan state.

use vstd::prelude::*;

use crate::error::{DatabaseError, DatabaseErrorKind, DatabaseResult};
use crate::json::{
    json_view, lemma_entries_view, lemma_entries_view_push, model_get, model_insert, model_remove, object_insert,
    object_remove, JsonModel, JsonNumber, JsonValue, NumberModel,
};

verus! {

/// The message of a failure of this migration.
pub open spec fn migration_message(message: Seq<char>) -> Seq<char> {
    "database migration 1->2 failed: "@ + message
}

/// A failure of this migration, described by `message`.
pub fn migration_error(message: &str) -> (error: DatabaseError)
    ensures
        error.spec_kind() == DatabaseErrorKind::Database,
        error.spec_message() == migration_message(message@),
{
    let mut text = "database migration 1->2 failed: ".to_owned();
    text.append(message);
    DatabaseError::new(text)
}

/// A failure of this migration to read or write JSON, described by the JSON
/// library's `message`.
pub fn json_error(message: &str) -> (error: DatabaseError)
    ensures
        error.spec_kind() == DatabaseErrorKind::Database,
        error.spec_message() == migration_message(message@),
{
    migration_error(message)
}

/// The JSON number a signed integer is written as: non-negative integers as
/// unsigned ones.
pub open spec fn integer_number(value: i64) -> NumberModel {
    if value >= 0 {
        NumberModel::PosInt(value as u64)
    } else {
        NumberModel::NegInt(value)
    }
}

fn integer_value(value: i64) -> (number: JsonValue)
    ensures
        json_view(number) == JsonModel::Number(integer_number(value)),
{
    if value >= 0 {
        JsonValue::Number(JsonNumber::PosInt(value as u64))
    } else {
        JsonValue::Number(JsonNumber::NegInt(value))
    }
}

/// Stamps `version` into a stored document, which must be an object.
pub fn set_json_schema(value: JsonValue, version: i64) -> (result: DatabaseResult<JsonValue>)
    ensures
        match json_view(value) {
            JsonModel::Object(entries) => result matches Ok(stamped) && json_view(stamped) == JsonModel::Object(
                model_insert(entries, "schema_version"@, JsonModel::Number(integer_number(version))),
            ),
            _ => result matches Err(error) && error.spec_kind() == DatabaseErrorKind::Database
                && error.spec_message() == migration_message("stored JSON is not an object"@),
        },
{
    proof {
        reveal_strlit("schema_version");
    }
    match value {
        JsonValue::Object(mut entries) => {
            object_insert(&mut entries, "schema_version".to_owned(), integer_value(version));
            Ok(JsonValue::Object(entries))
        },
        _ => Err(migration_error("stored JSON is not an object")),
    }
}

/// A gallery item's safety section: unscanned when it had no legacy
/// assessment (or a null one), otherwise unavailable until rescanned.
pub open spec fn migrated_safety(legacy: Option<JsonModel>) -> JsonModel {
    if legacy is None || legacy == Some(JsonModel::Null) {
        JsonModel::Object(seq![("state"@, JsonModel::String("unscanned"@))])
    } else {
        JsonModel::Object(seq![
            ("state"@, JsonModel::String("unavailable"@)),
            ("message"@, JsonModel::String("legacy safety assessment requires rescan"@)),
        ])
    }
}

/// A gallery item at version 2: its legacy assessment replaced by a safety
/// section, and its schema version set to 2.
pub open spec fn migrated_gallery_item(entries: Seq<(Seq<char>, JsonModel)>) -> JsonModel {
    let legacy = model_get(entries, "safety_assessment"@);
    let without = model_remove(entries, "safety_assessment"@);
    let stamped = model_insert(without, "schema_version"@, JsonModel::Number(NumberModel::PosInt(2)));
    JsonModel::Object(model_insert(stamped, "safety"@, migrated_safety(legacy)))
}

/// The scan state a gallery item starts version 2 in.
pub open spec fn migrated_scan_state(entries: Seq<(Seq<char>, JsonModel)>) -> Seq<char> {
    let legacy = model_get(entries, "safety_assessment"@);
    if legacy is None || legacy == Some(JsonModel::Null) {
        "unscanned"@
    } else {
        "unavailable"@
    }
}

fn text_entry(key: &str, value: &str) -> (entry: (String, JsonValue))
    ensures
        entry.0@ == key@,
        json_view(entry.1) == JsonModel::String(value@),
{
    (key.to_owned(), JsonValue::String(value.to_owned()))
}

/// Moves a gallery item to version 2, giving its new document and its scan
/// state; the item must be an object.
pub fn migrate_gallery_item(value: JsonValue) -> (result: DatabaseResult<(JsonValue, &'static str)>)
    ensures
        match json_view(value) {
            JsonModel::Object(entries) => result matches Ok((migrated, state))
                && json_view(migrated) == migrated_gallery_item(entries)
                && state@ == migrated_scan_state(entries),
            _ => result matches Err(error) && error.spec_kind() == DatabaseErrorKind::Database
                && error.spec_message() == migration_message("gallery item JSON is not an object"@),
        },
{
    proof {
        reveal_strlit("safety_assessment");
        reveal_strlit("schema_version");
        reveal_strlit("safety");
        reveal_strlit("state");
        reveal_strlit("message");
        reveal_strlit("unscanned");
        reveal_strlit("unavailable");
        reveal_strlit("legacy safety assessment requires rescan");
    }
    match value {
        JsonValue::Object(mut entries) => {
            let ghost original = crate::json::entries_view(entries@);
            let legacy = object_remove(&mut entries, "safety_assessment");
            let is_null = match &legacy {
                Some(JsonValue::Null) => true,
                Some(_) => false,
                None => true,
            };
            let mut safety: Vec<(String, JsonValue)> = Vec::new();
            let state: &'static str = if is_null {
                safety.push(text_entry("state", "unscanned"));
                proof {
                    lemma_entries_view_push(Seq::empty(), safety@[0]);
                    assert(safety@ =~= Seq::empty().push(safety@[0]));
                    assert(crate::json::entries_view(Seq::<(String, JsonValue)>::empty()) =~= Seq::empty());
                    assert(crate::json::entries_view(safety@) =~= seq![("state"@, JsonModel::String("unscanned"@))]);
                    assert(model_get(original, "safety_assessment"@) is None
                        || model_get(original, "safety_assessment"@) == Some(JsonModel::Null));
                }
                "unscanned"
            } else {
                safety.push(text_entry("state", "unavailable"));
                let ghost first = safety@;
                safety.push(text_entry("message", "legacy safety assessment requires rescan"));
                proof {
                    lemma_entries_view_push(Seq::empty(), first[0]);
                    assert(first =~= Seq::empty().push(first[0]));
                    lemma_entries_view_push(first, safety@[1]);
                    assert(safety@ =~= first.push(safety@[1]));
                    assert(crate::json::entries_view(Seq::<(String, JsonValue)>::empty()) =~= Seq::empty());
                    assert(crate::json::entries_view(safety@) =~= seq![
                        ("state"@, JsonModel::String("unavailable"@)),
                        ("message"@, JsonModel::String("legacy safety assessment requires rescan"@)),
                    ]);
                    let v = legacy->0;
                    assert(!(v is Null));
                    assert(json_view(v) != JsonModel::Null);
                }
                "unavailable"
            };
            assert(json_view(JsonValue::Object(safety)) == migrated_safety(model_get(original, "safety_assessment"@)));
            object_insert(&mut entries, "schema_version".to_owned(), JsonValue::Number(JsonNumber::PosInt(2)));
            object_insert(&mut entries, "safety".to_owned(), JsonValue::Object(safety));
            Ok((JsonValue::Object(entries), state))
        },
        _ => Err(migration_error("gallery item JSON is not an object")),
    }
}

} // verus!
