//! Keeping feature rows in step with the library tree: when a save moves
//! resources to new paths, or renames a resource, the rows of the feature
//! that owns it are updated to match.

use vstd::prelude::*;

use crate::domain::library::{LibraryNamespace, ResourceLibraryError, ResourceLibraryErrorKind, ResourceLibraryResult};
use crate::json::{
    json_view, key_position, lemma_entries_view, lemma_entries_view_update, lemma_key_position, model_insert,
    object_insert, object_position, JsonModel, JsonValue,
};
use crate::text::{find_pair, pair_lookup, str_eq};

verus! {

/// A resource whose path a save changed.
#[derive(Clone, Debug)]
pub struct PathChange {
    pub id: String,
    pub old_path: String,
    pub new_path: String,
}

/// The changes from `before` to `after`: each resource of `before`, in order,
/// that `after` still has at another path.
pub open spec fn changes_of(before: Seq<(String, String)>, after: Seq<(String, String)>) -> Seq<PathChange>
    decreases before.len(),
{
    if before.len() == 0 {
        Seq::empty()
    } else {
        let rest = changes_of(before.drop_last(), after);
        let (id, old_path) = before.last();
        match pair_lookup(after, id@) {
            Some(new_path) => if new_path@ != old_path@ {
                rest.push(PathChange { id, old_path, new_path })
            } else {
                rest
            },
            None => rest,
        }
    }
}

/// The resources whose path changed between `before` and `after` (each an
/// id and path per resource).
pub fn path_changes(before: &Vec<(String, String)>, after: &Vec<(String, String)>) -> (changes: Vec<PathChange>)
    ensures
        changes@ == changes_of(before@, after@),
{
    let mut changes: Vec<PathChange> = Vec::new();
    let mut index: usize = 0;
    while index < before.len()
        invariant
            index <= before@.len(),
            changes@ == changes_of(before@.take(index as int), after@),
        decreases before.len() - index,
    {
        assert(before@.take(index + 1).drop_last() =~= before@.take(index as int));
        let (id, old_path) = &before[index];
        match find_pair(after, id.as_str()) {
            Some(new_path) => {
                if !str_eq(new_path.as_str(), old_path.as_str()) {
                    changes.push(PathChange { id: id.clone(), old_path: old_path.clone(), new_path });
                }
            },
            None => {},
        }
        index = index + 1;
    }
    assert(before@.take(before@.len() as int) =~= before@);
    changes
}

/// Each change found between two listings of paths is a resource that the
/// later listing holds at its new path, which differs from the old one.
pub proof fn lemma_changes_carry_new_paths(before: Seq<(String, String)>, after: Seq<(String, String)>)
    ensures
        forall|i: int| 0 <= i < changes_of(before, after).len() ==> {
            let change = #[trigger] changes_of(before, after)[i];
            &&& pair_lookup(after, change.id@) == Some(change.new_path)
            &&& change.new_path@ != change.old_path@
        },
    decreases before.len(),
{
    if before.len() > 0 {
        lemma_changes_carry_new_paths(before.drop_last(), after);
        let rest = changes_of(before.drop_last(), after);
        assert forall|i: int| 0 <= i < changes_of(before, after).len() implies {
            let change = #[trigger] changes_of(before, after)[i];
            &&& pair_lookup(after, change.id@) == Some(change.new_path)
            &&& change.new_path@ != change.old_path@
        } by {
            if i < rest.len() {
                assert(changes_of(before, after)[i] == rest[i]);
            }
        }
    }
}

/// An update that keeps a feature row in step with the library.
#[derive(Debug)]
pub enum LibraryUpdateStatement {
    /// Moves a prompt chunk to a new key.
    UpdateChunkKey { chunk_id: String, chunk_key: String, updated_at_ms: i64 },
    /// Moves a preset to a new category.
    UpdatePresetCategory { preset_id: String, category: String, updated_at_ms: i64 },
    /// Renames a preset.
    UpdatePresetName { preset_id: String, name: String },
    /// Renames a vibe and stores its rewritten document.
    UpdateVibeDisplay { vibe_id: String, display_name: String, document_json: JsonValue },
}

/// What a [`LibraryUpdateStatement`] does, with texts as character sequences
/// and documents read as models.
pub enum LibraryUpdateView {
    UpdateChunkKey(Seq<char>, Seq<char>, i64),
    UpdatePresetCategory(Seq<char>, Seq<char>, i64),
    UpdatePresetName(Seq<char>, Seq<char>),
    UpdateVibeDisplay(Seq<char>, Seq<char>, JsonModel),
}

impl LibraryUpdateStatement {
    /// What this statement does.
    pub open spec fn spec_view(&self) -> LibraryUpdateView {
        match *self {
            LibraryUpdateStatement::UpdateChunkKey { chunk_id, chunk_key, updated_at_ms } =>
                LibraryUpdateView::UpdateChunkKey(chunk_id@, chunk_key@, updated_at_ms),
            LibraryUpdateStatement::UpdatePresetCategory { preset_id, category, updated_at_ms } =>
                LibraryUpdateView::UpdatePresetCategory(preset_id@, category@, updated_at_ms),
            LibraryUpdateStatement::UpdatePresetName { preset_id, name } =>
                LibraryUpdateView::UpdatePresetName(preset_id@, name@),
            LibraryUpdateStatement::UpdateVibeDisplay { vibe_id, display_name, document_json } =>
                LibraryUpdateView::UpdateVibeDisplay(vibe_id@, display_name@, json_view(document_json)),
        }
    }
}

/// What each of `statements` does.
pub open spec fn update_views(statements: Seq<LibraryUpdateStatement>) -> Seq<LibraryUpdateView> {
    statements.map_values(|statement: LibraryUpdateStatement| statement.spec_view())
}

/// The message of a timestamp that does not fit a stored integer.
pub open spec fn timestamp_range_message() -> Seq<char> {
    "database: out of range integral type conversion attempted"@
}

/// The updates a path change needs in `namespace`: a chunk's key or a
/// preset's category follows its new path, stamped with `updated_at_ms`; a
/// vibe's rows do not hold its path.
pub open spec fn path_updates(namespace: LibraryNamespace, changes: Seq<PathChange>, updated_at_ms: i64) -> Seq<LibraryUpdateView> {
    match namespace {
        LibraryNamespace::PromptChunk => changes.map_values(|change: PathChange|
            LibraryUpdateView::UpdateChunkKey(change.id@, change.new_path@, updated_at_ms)),
        LibraryNamespace::MainPreset | LibraryNamespace::CharacterPreset => changes.map_values(|change: PathChange|
            LibraryUpdateView::UpdatePresetCategory(change.id@, change.new_path@, updated_at_ms)),
        LibraryNamespace::Vibe => Seq::empty(),
    }
}

/// The updates that follow `changes` in `namespace`. Nothing changes when no
/// path changed; otherwise the timestamp must fit a stored integer.
pub fn apply_path_changes(namespace: LibraryNamespace, changes: &Vec<PathChange>, updated_at_ms: u64) -> (result: ResourceLibraryResult<Vec<LibraryUpdateStatement>>)
    ensures
        changes@.len() == 0 ==> (result matches Ok(updates) && updates@.len() == 0),
        changes@.len() > 0 && updated_at_ms > i64::MAX ==> (result matches Err(error) && {
            &&& error.spec_kind() == ResourceLibraryErrorKind::Repository
            &&& error.spec_message() == timestamp_range_message()
        }),
        changes@.len() > 0 && updated_at_ms <= i64::MAX ==>
            (result matches Ok(updates) && update_views(updates@) == path_updates(namespace, changes@, updated_at_ms as i64)),
{
    if changes.len() == 0 {
        return Ok(Vec::new());
    }
    let updated = match to_i64(updated_at_ms) {
        Ok(updated) => updated,
        Err(error) => return Err(error),
    };
    let mut updates: Vec<LibraryUpdateStatement> = Vec::new();
    if let LibraryNamespace::Vibe = namespace {
        assert(update_views(updates@) =~= path_updates(namespace, changes@, updated));
        return Ok(updates);
    }
    let mut index: usize = 0;
    while index < changes.len()
        invariant
            index <= changes@.len(),
            namespace != LibraryNamespace::Vibe,
            update_views(updates@) == path_updates(namespace, changes@.take(index as int), updated),
        decreases changes.len() - index,
    {
        let change = &changes[index];
        let ghost before = updates@;
        proof {
            assert(changes@.take(index + 1) =~= changes@.take(index as int).push(changes@[index as int]));
        }
        match namespace {
            LibraryNamespace::PromptChunk => {
                updates.push(LibraryUpdateStatement::UpdateChunkKey {
                    chunk_id: change.id.clone(),
                    chunk_key: change.new_path.clone(),
                    updated_at_ms: updated,
                });
                proof {
                    assert(update_views(updates@) =~= update_views(before).push(
                        LibraryUpdateView::UpdateChunkKey(change.id@, change.new_path@, updated),
                    ));
                    assert(path_updates(namespace, changes@.take(index + 1), updated) =~= path_updates(
                        namespace,
                        changes@.take(index as int),
                        updated,
                    ).push(LibraryUpdateView::UpdateChunkKey(change.id@, change.new_path@, updated)));
                }
            },
            _ => {
                updates.push(LibraryUpdateStatement::UpdatePresetCategory {
                    preset_id: change.id.clone(),
                    category: change.new_path.clone(),
                    updated_at_ms: updated,
                });
                proof {
                    assert(update_views(updates@) =~= update_views(before).push(
                        LibraryUpdateView::UpdatePresetCategory(change.id@, change.new_path@, updated),
                    ));
                    assert(path_updates(namespace, changes@.take(index + 1), updated) =~= path_updates(
                        namespace,
                        changes@.take(index as int),
                        updated,
                    ).push(LibraryUpdateView::UpdatePresetCategory(change.id@, change.new_path@, updated)));
                }
            },
        }
        index = index + 1;
    }
    assert(changes@.take(changes@.len() as int) =~= changes@);
    Ok(updates)
}

/// `document` with its summary's display name set to `name`, when it has an
/// object `summary`; otherwise unchanged.
pub open spec fn with_display_name(document: JsonModel, name: Seq<char>) -> JsonModel {
    match document {
        JsonModel::Object(entries) => match key_position(entries, "summary"@) {
            Some(i) => match entries[i].1 {
                JsonModel::Object(summary) => JsonModel::Object(entries.update(
                    i,
                    (entries[i].0, JsonModel::Object(model_insert(summary, "display_name"@, JsonModel::String(name)))),
                )),
                _ => document,
            },
            None => document,
        },
        _ => document,
    }
}

/// Sets the display name inside a vibe document's summary.
pub fn sync_vibe_display(document: JsonValue, name: &String) -> (synced: JsonValue)
    ensures
        json_view(synced) == with_display_name(json_view(document), name@),
{
    proof {
        reveal_strlit("summary");
        reveal_strlit("display_name");
    }
    match document {
        JsonValue::Object(mut entries) => {
            proof {
                lemma_entries_view(entries@);
                lemma_key_position(crate::json::entries_view(entries@), "summary"@);
            }
            match object_position(&entries, "summary") {
                Some(index) => {
                    let ghost before = entries@;
                    let (key, value) = entries.remove(index);
                    match value {
                        JsonValue::Object(mut summary) => {
                            object_insert(&mut summary, "display_name".to_owned(), JsonValue::String(name.clone()));
                            let ghost replaced = (key, JsonValue::Object(summary));
                            entries.insert(index, (key, JsonValue::Object(summary)));
                            proof {
                                assert(entries@ =~= before.update(index as int, replaced));
                                lemma_entries_view_update(before, index as int, replaced);
                            }
                            JsonValue::Object(entries)
                        },
                        other => {
                            let ghost kept = (key, other);
                            entries.insert(index, (key, other));
                            proof {
                                assert(entries@ =~= before.update(index as int, kept));
                                assert(entries@ =~= before);
                            }
                            JsonValue::Object(entries)
                        },
                    }
                },
                None => JsonValue::Object(entries),
            }
        },
        other => other,
    }
}

/// The updates that keep a renamed resource's feature rows in step: a
/// preset's name, or a vibe's name and document when the vibe has one; a
/// prompt chunk's rows do not hold its name.
pub open spec fn display_updates(
    namespace: LibraryNamespace,
    id: Seq<char>,
    name: Seq<char>,
    vibe_document: Option<JsonModel>,
) -> Seq<LibraryUpdateView> {
    match namespace {
        LibraryNamespace::PromptChunk => Seq::empty(),
        LibraryNamespace::MainPreset | LibraryNamespace::CharacterPreset => seq![LibraryUpdateView::UpdatePresetName(id, name)],
        LibraryNamespace::Vibe => match vibe_document {
            Some(document) => seq![LibraryUpdateView::UpdateVibeDisplay(id, name, with_display_name(document, name))],
            None => Seq::empty(),
        },
    }
}

/// The updates that follow renaming resource `id` of `namespace` to `name`;
/// `vibe_document` is the stored document of a vibe, if there is one.
pub fn sync_display_name(
    namespace: LibraryNamespace,
    id: &String,
    name: &String,
    vibe_document: Option<JsonValue>,
) -> (updates: Vec<LibraryUpdateStatement>)
    ensures
        update_views(updates@) == display_updates(namespace, id@, name@, match vibe_document {
            Some(document) => Some(json_view(document)),
            None => None,
        }),
{
    let mut updates: Vec<LibraryUpdateStatement> = Vec::new();
    match namespace {
        LibraryNamespace::PromptChunk => {},
        LibraryNamespace::MainPreset | LibraryNamespace::CharacterPreset => {
            updates.push(LibraryUpdateStatement::UpdatePresetName { preset_id: id.clone(), name: name.clone() });
        },
        LibraryNamespace::Vibe => {
            if let Some(document) = vibe_document {
                let synced = sync_vibe_display(document, name);
                updates.push(LibraryUpdateStatement::UpdateVibeDisplay {
                    vibe_id: id.clone(),
                    display_name: name.clone(),
                    document_json: synced,
                });
            }
        },
    }
    assert(update_views(updates@) =~= display_updates(namespace, id@, name@, match vibe_document {
        Some(document) => Some(json_view(document)),
        None => None,
    }));
    updates
}

/// A save that moves resources rewrites each moved chunk's key and each
/// moved preset's category to the path the resource has after the save,
/// never to the path it had before, one update per moved resource in order;
/// vibes keep no path in their rows.
pub proof fn lemma_moved_rows_take_new_paths(
    namespace: LibraryNamespace,
    before: Seq<(String, String)>,
    after: Seq<(String, String)>,
    updated_at_ms: i64,
)
    ensures
        ({
            let changes = changes_of(before, after);
            let updates = path_updates(namespace, changes, updated_at_ms);
            &&& namespace == LibraryNamespace::Vibe ==> updates.len() == 0
            &&& namespace != LibraryNamespace::Vibe ==> updates.len() == changes.len()
            &&& forall|i: int| 0 <= i < updates.len() ==> {
                let change = changes[i];
                match #[trigger] updates[i] {
                    LibraryUpdateView::UpdateChunkKey(id, key, stamp) => {
                        &&& namespace == LibraryNamespace::PromptChunk
                        &&& id == change.id@ && stamp == updated_at_ms
                        &&& pair_lookup(after, id) matches Some(path) && key == path@
                        &&& key != change.old_path@
                    },
                    LibraryUpdateView::UpdatePresetCategory(id, category, stamp) => {
                        &&& (namespace == LibraryNamespace::MainPreset || namespace == LibraryNamespace::CharacterPreset)
                        &&& id == change.id@ && stamp == updated_at_ms
                        &&& pair_lookup(after, id) matches Some(path) && category == path@
                        &&& category != change.old_path@
                    },
                    _ => false,
                }
            }
        }),
{
    lemma_changes_carry_new_paths(before, after);
    let changes = changes_of(before, after);
    let updates = path_updates(namespace, changes, updated_at_ms);
    assert forall|i: int| 0 <= i < updates.len() implies {
        let change = changes[i];
        match #[trigger] updates[i] {
            LibraryUpdateView::UpdateChunkKey(id, key, stamp) => {
                &&& namespace == LibraryNamespace::PromptChunk
                &&& id == change.id@ && stamp == updated_at_ms
                &&& pair_lookup(after, id) matches Some(path) && key == path@
                &&& key != change.old_path@
            },
            LibraryUpdateView::UpdatePresetCategory(id, category, stamp) => {
                &&& (namespace == LibraryNamespace::MainPreset || namespace == LibraryNamespace::CharacterPreset)
                &&& id == change.id@ && stamp == updated_at_ms
                &&& pair_lookup(after, id) matches Some(path) && category == path@
                &&& category != change.old_path@
            },
            _ => false,
        }
    } by {
        let change = changes[i];
        assert(pair_lookup(after, change.id@) == Some(change.new_path));
    }
}

fn range_error() -> (error: ResourceLibraryError)
    ensures
        error.spec_kind() == ResourceLibraryErrorKind::Repository,
        error.spec_message() == timestamp_range_message(),
{
    ResourceLibraryError::new(
        ResourceLibraryErrorKind::Repository,
        "database: out of range integral type conversion attempted".to_owned(),
    )
}

/// A library timestamp as the signed integer SQLite keeps; one above
/// `i64::MAX` is refused.
pub fn to_i64(value: u64) -> (result: ResourceLibraryResult<i64>)
    ensures
        value <= i64::MAX ==> result == Ok::<i64, ResourceLibraryError>(value as i64),
        value > i64::MAX ==> (result matches Err(error) && error.spec_kind() == ResourceLibraryErrorKind::Repository
            && error.spec_message() == timestamp_range_message()),
{
    if value <= 9223372036854775807u64 {
        Ok(value as i64)
    } else {
        Err(range_error())
    }
}

/// A stored integer read back as a library timestamp; a negative one is
/// refused.
pub fn to_u64(value: i64) -> (result: ResourceLibraryResult<u64>)
    ensures
        value >= 0 ==> result == Ok::<u64, ResourceLibraryError>(value as u64),
        value < 0 ==> (result matches Err(error) && error.spec_kind() == ResourceLibraryErrorKind::Repository
            && error.spec_message() == timestamp_range_message()),
{
    if value >= 0 {
        Ok(value as u64)
    } else {
        Err(range_error())
    }
}

} // verus!
