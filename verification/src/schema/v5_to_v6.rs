//! Schema version 6: prompt chunks, presets and vibes move to the resource
//! library's ids. The parts computed here are the vibe copies and the
//! renaming of resource-link owners.

use vstd::prelude::*;

use crate::json::{
    entries_view, json_view, key_position, lemma_entries_view, lemma_entries_view_update, lemma_key_position,
    model_insert, object_insert, object_position, JsonModel, JsonValue,
};
use crate::text::{find_pair, keys_distinct, pair_lookup};

verus! {

/// A vibe document before the move: stored under its source id.
#[derive(Debug)]
pub struct LegacyVibeDocument {
    pub vibe_id: String,
    pub display_name: String,
    pub has_image: i64,
    pub document: JsonValue,
}

/// A vibe encoding before the move.
#[derive(Debug)]
pub struct LegacyVibeEncoding {
    pub cache_key: String,
    pub source_hash: String,
    pub model: String,
    pub information_extracted_key: String,
    pub record: JsonValue,
}

/// A vibe document after the move: stored under its library id, keeping its
/// source id.
#[derive(Debug)]
pub struct VibeDocumentRow {
    pub vibe_id: String,
    pub source_id: String,
    pub display_name: String,
    pub has_image: i64,
    pub document: JsonValue,
}

/// A vibe encoding after the move.
#[derive(Debug)]
pub struct VibeEncodingRow {
    pub cache_key: String,
    pub vibe_id: String,
    pub source_hash: String,
    pub model: String,
    pub information_extracted_key: String,
    pub record: JsonValue,
}

/// `document` with its summary naming the vibe's new id and its source id,
/// when it has an object summary.
pub open spec fn document_with_ids(document: JsonModel, new_id: Seq<char>, source_id: Seq<char>) -> JsonModel {
    match document {
        JsonModel::Object(entries) => match key_position(entries, "summary"@) {
            Some(i) => match entries[i].1 {
                JsonModel::Object(summary) => JsonModel::Object(entries.update(
                    i,
                    (entries[i].0, JsonModel::Object(model_insert(
                        model_insert(summary, "document_id"@, JsonModel::String(new_id)),
                        "source_id"@,
                        JsonModel::String(source_id),
                    ))),
                )),
                _ => document,
            },
            None => document,
        },
        _ => document,
    }
}

/// An encoding record naming the vibe's new id, when it is an object.
pub open spec fn record_with_vibe_id(record: JsonModel, new_id: Seq<char>) -> JsonModel {
    match record {
        JsonModel::Object(entries) => JsonModel::Object(model_insert(entries, "vibe_id"@, JsonModel::String(new_id))),
        _ => record,
    }
}

fn rewrite_document(document: JsonValue, new_id: &String, source_id: &String) -> (rewritten: JsonValue)
    ensures
        json_view(rewritten) == document_with_ids(json_view(document), new_id@, source_id@),
{
    proof {
        reveal_strlit("summary");
        reveal_strlit("document_id");
        reveal_strlit("source_id");
    }
    match document {
        JsonValue::Object(mut entries) => {
            proof {
                lemma_entries_view(entries@);
                lemma_key_position(entries_view(entries@), "summary"@);
            }
            match object_position(&entries, "summary") {
                Some(index) => {
                    let ghost before = entries@;
                    let (key, value) = entries.remove(index);
                    match value {
                        JsonValue::Object(mut summary) => {
                            object_insert(&mut summary, "document_id".to_owned(), JsonValue::String(new_id.clone()));
                            object_insert(&mut summary, "source_id".to_owned(), JsonValue::String(source_id.clone()));
                            let ghost replaced = (key, JsonValue::Object(summary));
                            entries.insert(index, (key, JsonValue::Object(summary)));
                            proof {
                                assert(entries@ =~= before.update(index as int, replaced));
                                lemma_entries_view_update(before, index as int, replaced);
                            }
                            JsonValue::Object(entries)
                        },
                        other => {
                            let ghost kept = (key, other);
                            entries.insert(index, (key, other));
                            proof {
                                assert(entries@ =~= before.update(index as int, kept));
                                assert(entries@ =~= before);
                            }
                            JsonValue::Object(entries)
                        },
                    }
                },
                None => JsonValue::Object(entries),
            }
        },
        other => other,
    }
}

fn rewrite_record(record: JsonValue, new_id: &String) -> (rewritten: JsonValue)
    ensures
        json_view(rewritten) == record_with_vibe_id(json_view(record), new_id@),
{
    proof {
        reveal_strlit("vibe_id");
    }
    match record {
        JsonValue::Object(mut entries) => {
            object_insert(&mut entries, "vibe_id".to_owned(), JsonValue::String(new_id.clone()));
            JsonValue::Object(entries)
        },
        other => other,
    }
}

/// `row` is `encoding` moved to the vibe's new id.
pub open spec fn copied_encoding(encoding: LegacyVibeEncoding, row: VibeEncodingRow, new_id: Seq<char>) -> bool {
    &&& row.cache_key == encoding.cache_key
    &&& row.vibe_id@ == new_id
    &&& row.source_hash == encoding.source_hash
    &&& row.model == encoding.model
    &&& row.information_extracted_key == encoding.information_extracted_key
    &&& json_view(row.record) == record_with_vibe_id(json_view(encoding.record), new_id)
}

/// `row` is `document` moved to the new id `ids` gives it.
pub open spec fn copied_document(document: LegacyVibeDocument, row: VibeDocumentRow, new_id: Seq<char>) -> bool {
    &&& row.vibe_id@ == new_id
    &&& row.source_id == document.vibe_id
    &&& row.display_name == document.display_name
    &&& row.has_image == document.has_image
    &&& json_view(row.document) == document_with_ids(json_view(document.document), new_id, document.vibe_id@)
}

/// Moves one vibe, with its encodings, to the library id that `ids` gives it;
/// `ids` maps each source id (once) to its library id, and the vibe must have
/// an entry.
pub fn copy_vibe(
    ids: &Vec<(String, String)>,
    document: LegacyVibeDocument,
    encodings: Vec<LegacyVibeEncoding>,
) -> (copied: (VibeDocumentRow, Vec<VibeEncodingRow>))
    requires
        keys_distinct(ids@),
        pair_lookup(ids@, document.vibe_id@) is Some,
    ensures
        copied_document(document, copied.0, pair_lookup(ids@, document.vibe_id@)->0@),
        copied.1@.len() == encodings@.len(),
        forall|i: int| 0 <= i < encodings@.len() ==>
            #[trigger] copied_encoding(encodings@[i], copied.1@[i], pair_lookup(ids@, document.vibe_id@)->0@),
{
    let new_id = match find_pair(ids, document.vibe_id.as_str()) {
        Some(id) => id,
        None => {
            assert(false);
            String::new()
        },
    };
    let LegacyVibeDocument { vibe_id, display_name, has_image, document: json } = document;
    let rewritten = rewrite_document(json, &new_id, &vibe_id);
    let ghost stored = encodings@;
    let mut remaining = encodings;
    let mut rows: Vec<VibeEncodingRow> = Vec::new();
    while remaining.len() > 0
        invariant
            rows@.len() + remaining@.len() == stored.len(),
            remaining@ == stored.skip(rows@.len() as int),
            forall|i: int| 0 <= i < rows@.len() ==> #[trigger] copied_encoding(stored[i], rows@[i], new_id@),
        decreases remaining.len(),
    {
        let ghost done = rows@.len() as int;
        let encoding = remaining.remove(0);
        assert(encoding == stored[done]);
        let LegacyVibeEncoding { cache_key, source_hash, model, information_extracted_key, record } = encoding;
        let record = rewrite_record(record, &new_id);
        rows.push(VibeEncodingRow {
            cache_key,
            vibe_id: new_id.clone(),
            source_hash,
            model,
            information_extracted_key,
            record,
        });
        assert(remaining@ =~= stored.skip(rows@.len() as int));
    }
    (VibeDocumentRow { vibe_id: new_id, source_id: vibe_id, display_name, has_image, document: rewritten }, rows)
}

/// A rename of a resource link owner.
#[derive(Clone, Debug)]
pub struct OwnerRename {
    pub owner_kind: String,
    pub old_local_id: String,
    pub new_local_id: String,
}

/// What an [`OwnerRename`] does: owner kind, old id, new id.
pub open spec fn rename_view(rename: OwnerRename) -> (Seq<char>, Seq<char>, Seq<char>) {
    (rename.owner_kind@, rename.old_local_id@, rename.new_local_id@)
}

/// The owner renames for one moved resource: its chunk and preset owners,
/// then its vibe owner.
pub open spec fn renames_for(old_id: Seq<char>, new_id: Seq<char>) -> Seq<(Seq<char>, Seq<char>, Seq<char>)> {
    seq![
        ("prompt_resource"@, "chunk:"@ + old_id, "chunk:"@ + new_id),
        ("prompt_resource"@, "preset:"@ + old_id, "preset:"@ + new_id),
        ("vibe"@, old_id, new_id),
    ]
}

/// The owner renames for every moved resource, in order.
pub open spec fn all_renames(ids: Seq<(String, String)>) -> Seq<(Seq<char>, Seq<char>, Seq<char>)>
    decreases ids.len(),
{
    if ids.len() == 0 {
        Seq::empty()
    } else {
        all_renames(ids.drop_last()) + renames_for(ids.last().0@, ids.last().1@)
    }
}

fn prefixed(prefix: &str, id: &String) -> (text: String)
    ensures
        text@ == prefix@ + id@,
{
    let mut text = prefix.to_owned();
    text.append(id.as_str());
    text
}

/// Renames the owners of resource links after the move, for each (old id,
/// new id) entry of `ids`, a map in which each old id appears once.
pub fn update_resource_owners(ids: &Vec<(String, String)>) -> (renames: Vec<OwnerRename>)
    requires
        keys_distinct(ids@),
    ensures
        renames@.map_values(|rename: OwnerRename| rename_view(rename)) == all_renames(ids@),
{
    let mut renames: Vec<OwnerRename> = Vec::new();
    let mut index: usize = 0;
    while index < ids.len()
        invariant
            index <= ids@.len(),
            renames@.map_values(|rename: OwnerRename| rename_view(rename)) == all_renames(ids@.take(index as int)),
        decreases ids.len() - index,
    {
        let (old, new) = &ids[index];
        let ghost before = renames@;
        renames.push(OwnerRename {
            owner_kind: "prompt_resource".to_owned(),
            old_local_id: prefixed("chunk:", old),
            new_local_id: prefixed("chunk:", new),
        });
        renames.push(OwnerRename {
            owner_kind: "prompt_resource".to_owned(),
            old_local_id: prefixed("preset:", old),
            new_local_id: prefixed("preset:", new),
        });
        renames.push(OwnerRename { owner_kind: "vibe".to_owned(), old_local_id: old.clone(), new_local_id: new.clone() });
        proof {
            assert(ids@.take(index + 1).drop_last() =~= ids@.take(index as int));
            assert(renames@.map_values(|rename: OwnerRename| rename_view(rename)) =~= before.map_values(
                |rename: OwnerRename| rename_view(rename),
            ) + renames_for(old@, new@));
        }
        index = index + 1;
    }
    assert(ids@.take(ids@.len() as int) =~= ids@);
    renames
}

} // verus!
