//! Schema version 8: an agent session's model snapshot replaces its vision
//! flag by a capabilities object naming how the model takes images.

use vstd::prelude::*;

use crate::error::{DatabaseError, DatabaseErrorKind, DatabaseResult};
use crate::json::{
    entries_view, json_view, lemma_entries_view_push, model_get, model_insert, model_remove, object_insert,
    object_remove, JsonModel, JsonValue,
};

verus! {

/// The message when a session's stored model snapshot is not JSON.
pub open spec fn invalid_snapshot_message(session_id: Seq<char>, reason: Seq<char>) -> Seq<char> {
    "invalid Agent model snapshot for session `"@ + session_id + "`: "@ + reason
}

/// The message when a session's model snapshot is not an object.
pub open spec fn snapshot_not_object_message(session_id: Seq<char>) -> Seq<char> {
    "Agent model snapshot for session `"@ + session_id + "` must be an object"@
}

/// How the model takes images: through tool results when its snapshot said
/// it supports vision, otherwise not at all.
pub open spec fn image_input_text(supports_vision: Option<JsonModel>) -> Seq<char> {
    if supports_vision == Some(JsonModel::Bool(true)) {
        "tool_result"@
    } else {
        "none"@
    }
}

/// The capabilities object of a model that takes images as `image_input`.
pub open spec fn capabilities(image_input: Seq<char>) -> JsonModel {
    JsonModel::Object(seq![("image_input"@, JsonModel::String(image_input))])
}

/// A model snapshot's entries at version 8: the vision flag is gone and the
/// capabilities say how the model takes images.
pub open spec fn migrated_model_entries(entries: Seq<(Seq<char>, JsonModel)>) -> Seq<(Seq<char>, JsonModel)> {
    model_insert(
        model_remove(entries, "supports_vision"@),
        "capabilities"@,
        capabilities(image_input_text(model_get(entries, "supports_vision"@))),
    )
}

/// The error for a session whose stored model snapshot could not be read,
/// with the JSON library's `reason`.
pub fn invalid_snapshot_error(session_id: &str, reason: &str) -> (error: DatabaseError)
    ensures
        error.spec_kind() == DatabaseErrorKind::Database,
        error.spec_message() == invalid_snapshot_message(session_id@, reason@),
{
    let mut message = "invalid Agent model snapshot for session `".to_owned();
    message.append(session_id);
    message.append("`: ");
    message.append(reason);
    DatabaseError::new(message)
}

/// Moves session `session_id`'s model snapshot to version 8; the snapshot
/// must be an object.
pub fn migrate_model_snapshot(session_id: &str, value: JsonValue) -> (result: DatabaseResult<JsonValue>)
    ensures
        match json_view(value) {
            JsonModel::Object(entries) => result matches Ok(migrated)
                && json_view(migrated) == JsonModel::Object(migrated_model_entries(entries)),
            _ => result matches Err(error) && error.spec_kind() == DatabaseErrorKind::Database
                && error.spec_message() == snapshot_not_object_message(session_id@),
        },
{
    match value {
        JsonValue::Object(mut entries) => {
            let ghost original = entries_view(entries@);
            let supports_vision = object_remove(&mut entries, "supports_vision");
            let image_input = match supports_vision {
                Some(JsonValue::Bool(true)) => "tool_result",
                _ => "none",
            };
            proof {
                reveal_strlit("supports_vision");
                assert(image_input@ == image_input_text(model_get(original, "supports_vision"@)));
            }
            let mut fields: Vec<(String, JsonValue)> = Vec::new();
            let entry = ("image_input".to_owned(), JsonValue::String(image_input.to_owned()));
            proof {
                lemma_entries_view_push(fields@, entry);
                assert(entries_view(fields@) =~= Seq::<(Seq<char>, JsonModel)>::empty());
            }
            fields.push(entry);
            assert(entries_view(fields@) =~= seq![("image_input"@, JsonModel::String(image_input@))]);
            object_insert(&mut entries, "capabilities".to_owned(), JsonValue::Object(fields));
            Ok(JsonValue::Object(entries))
        },
        _ => {
            let mut message = "Agent model snapshot for session `".to_owned();
            message.append(session_id);
            message.append("` must be an object");
            Err(DatabaseError::new(message))
        },
    }
}

} // verus!
