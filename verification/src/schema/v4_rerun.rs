//! Running the version 4 rewrite of a stored document a second time changes
//! nothing, for documents whose objects never repeat a key (as stored JSON
//! objects do not).

use vstd::prelude::*;

use crate::json::{key_position, lemma_key_position, model_get, model_insert, model_remove, JsonModel, NumberModel};
use crate::schema::v3_to_v4::{
    controlnet_as_vibe_transfer, edit_object, entries_height, fixed_model, height, images_as_references,
    items_height, lemma_edit_height, lemma_entries_height, lemma_items_height, migrated, migrated_entries,
    migrated_items, quality_name, step_model, step_protocol, step_quality, step_schema, step_transparent, strip_info,
};

verus! {

/// No two entries of an object share a key.
pub open spec fn keys_unique(entries: Seq<(Seq<char>, JsonModel)>) -> bool {
    forall|i: int, j: int| #![trigger entries[i], entries[j]] 0 <= i < j < entries.len() ==> entries[i].0 != entries[j].0
}

/// No object inside `value`, at any depth, repeats a key.
pub open spec fn deep_unique(value: JsonModel) -> bool
    decreases height(value), 0nat,
{
    match value {
        JsonModel::Array(items) => items_deep_unique(items),
        JsonModel::Object(entries) => keys_unique(entries) && entries_deep_unique(entries),
        _ => true,
    }
}

/// No object inside any of `items` repeats a key.
pub open spec fn items_deep_unique(items: Seq<JsonModel>) -> bool
    decreases items_height(items), items.len(),
{
    if items.len() == 0 {
        true
    } else {
        proof {
            lemma_items_height(items, 0);
            lemma_items_height(items.drop_last(), items_height(items));
            assert forall|i: int| 0 <= i < items.drop_last().len() implies
                height(#[trigger] items.drop_last()[i]) <= items_height(items) by {
                assert(items.drop_last()[i] == items[i]);
            }
        }
        items_deep_unique(items.drop_last()) && deep_unique(items.last())
    }
}

/// No object inside any value of `entries` repeats a key.
pub open spec fn entries_deep_unique(entries: Seq<(Seq<char>, JsonModel)>) -> bool
    decreases entries_height(entries), entries.len(),
{
    if entries.len() == 0 {
        true
    } else {
        proof {
            lemma_entries_height(entries, 0);
            lemma_entries_height(entries.drop_last(), entries_height(entries));
            assert forall|i: int| 0 <= i < entries.drop_last().len() implies
                height(#[trigger] entries.drop_last()[i].1) <= entries_height(entries) by {
                assert(entries.drop_last()[i] == entries[i]);
            }
        }
        entries_deep_unique(entries.drop_last()) && deep_unique(entries.last().1)
    }
}

/// Every value of `entries` is free of repeated keys.
pub open spec fn values_deep_unique(entries: Seq<(Seq<char>, JsonModel)>) -> bool {
    forall|i: int| 0 <= i < entries.len() ==> deep_unique(#[trigger] entries[i].1)
}

proof fn lemma_items_deep_unique(items: Seq<JsonModel>)
    ensures
        items_deep_unique(items) <==> forall|i: int| 0 <= i < items.len() ==> deep_unique(#[trigger] items[i]),
    decreases items.len(),
{
    if items.len() > 0 {
        let rest = items.drop_last();
        lemma_items_deep_unique(rest);
        assert forall|i: int| 0 <= i < rest.len() implies #[trigger] rest[i] == items[i] by {}
        if forall|i: int| 0 <= i < items.len() ==> deep_unique(#[trigger] items[i]) {
            assert forall|i: int| 0 <= i < rest.len() implies deep_unique(#[trigger] rest[i]) by {
                assert(rest[i] == items[i]);
            }
            assert(deep_unique(items[items.len() - 1]));
        }
        if items_deep_unique(items) {
            assert forall|i: int| 0 <= i < items.len() implies deep_unique(#[trigger] items[i]) by {
                if i < rest.len() {
                    assert(rest[i] == items[i]);
                }
            }
        }
    }
}

proof fn lemma_entries_deep_unique(entries: Seq<(Seq<char>, JsonModel)>)
    ensures
        entries_deep_unique(entries) <==> values_deep_unique(entries),
    decreases entries.len(),
{
    if entries.len() > 0 {
        let rest = entries.drop_last();
        lemma_entries_deep_unique(rest);
        assert forall|i: int| 0 <= i < rest.len() implies #[trigger] rest[i] == entries[i] by {}
        if values_deep_unique(entries) {
            assert forall|i: int| 0 <= i < rest.len() implies deep_unique(#[trigger] rest[i].1) by {
                assert(rest[i] == entries[i]);
            }
            assert(deep_unique(entries[entries.len() - 1].1));
        }
        if entries_deep_unique(entries) {
            assert forall|i: int| 0 <= i < entries.len() implies deep_unique(#[trigger] entries[i].1) by {
                if i < rest.len() {
                    assert(rest[i] == entries[i]);
                }
            }
        }
    }
}

/// In entries with distinct keys, a key's value is that of its one entry,
/// and a key without an entry has none.
proof fn lemma_get_unique(entries: Seq<(Seq<char>, JsonModel)>, key: Seq<char>)
    requires
        keys_unique(entries),
    ensures
        forall|i: int| 0 <= i < entries.len() && #[trigger] entries[i].0 == key ==> model_get(entries, key) == Some(entries[i].1),
        model_get(entries, key) is None <==> forall|i: int| 0 <= i < entries.len() ==> #[trigger] entries[i].0 != key,
{
    lemma_key_position(entries, key);
    assert forall|i: int| 0 <= i < entries.len() && #[trigger] entries[i].0 == key implies model_get(entries, key) == Some(entries[i].1) by {
        let p = key_position(entries, key)->0;
        if p < i {
            assert(entries[p].0 != entries[i].0);
        } else if i < p {
            assert(entries[i].0 != key);
        }
    }
}

/// A value looked up in entries is the value of one of them.
proof fn lemma_get_member(entries: Seq<(Seq<char>, JsonModel)>, key: Seq<char>)
    ensures
        model_get(entries, key) matches Some(value) ==> exists|i: int| 0 <= i < entries.len() && #[trigger] entries[i] == (key, value),
{
    lemma_key_position(entries, key);
    if let Some(p) = key_position(entries, key) {
        assert(entries[p] == (key, entries[p].1));
    }
}

/// Values looked up in entries free of repeated keys are free of them too.
proof fn lemma_get_deep_unique(entries: Seq<(Seq<char>, JsonModel)>, key: Seq<char>)
    requires
        values_deep_unique(entries),
    ensures
        model_get(entries, key) matches Some(value) ==> deep_unique(value),
{
    lemma_get_member(entries, key);
    if let Some(value) = model_get(entries, key) {
        let i = choose|i: int| 0 <= i < entries.len() && #[trigger] entries[i] == (key, value);
        assert(deep_unique(entries[i].1));
    }
}

/// Setting a key keeps keys distinct and values free of repeated keys, gives
/// the key its value and leaves every other key as it was.
proof fn lemma_insert(entries: Seq<(Seq<char>, JsonModel)>, key: Seq<char>, value: JsonModel)
    requires
        keys_unique(entries),
    ensures
        keys_unique(model_insert(entries, key, value)),
        model_get(model_insert(entries, key, value), key) == Some(value),
        forall|other: Seq<char>| other != key ==>
            #[trigger] model_get(model_insert(entries, key, value), other) == model_get(entries, other),
        values_deep_unique(entries) && deep_unique(value) ==> values_deep_unique(model_insert(entries, key, value)),
{
    let result = model_insert(entries, key, value);
    lemma_key_position(entries, key);
    lemma_get_unique(entries, key);
    match key_position(entries, key) {
        Some(p) => {
            assert(result == entries.update(p, (key, value)));
            assert forall|i: int| 0 <= i < entries.len() implies #[trigger] result[i].0 == entries[i].0 by {}
            assert(keys_unique(result));
            lemma_get_unique(result, key);
            assert(result[p].0 == key);
            assert forall|other: Seq<char>| other != key implies
                #[trigger] model_get(result, other) == model_get(entries, other) by {
                lemma_get_unique(entries, other);
                lemma_get_unique(result, other);
                if exists|i: int| 0 <= i < entries.len() && entries[i].0 == other {
                    let i = choose|i: int| 0 <= i < entries.len() && entries[i].0 == other;
                    assert(result[i] == entries[i]);
                } else {
                    assert forall|i: int| 0 <= i < result.len() implies #[trigger] result[i].0 != other by {
                        assert(result[i].0 == entries[i].0);
                    }
                }
            }
            if values_deep_unique(entries) && deep_unique(value) {
                assert forall|i: int| 0 <= i < result.len() implies deep_unique(#[trigger] result[i].1) by {
                    if i != p {
                        assert(result[i] == entries[i]);
                    }
                }
            }
        },
        None => {
            assert(result == entries.push((key, value)));
            assert forall|i: int| 0 <= i < entries.len() implies #[trigger] result[i] == entries[i] by {}
            assert forall|i: int, j: int| #![trigger result[i], result[j]] 0 <= i < j < result.len() implies result[i].0 != result[j].0 by {
                if j < entries.len() {
                    assert(entries[i].0 != entries[j].0);
                } else {
                    assert(entries[i].0 != key);
                }
            }
            lemma_get_unique(result, key);
            assert(result[entries.len() as int].0 == key);
            assert forall|other: Seq<char>| other != key implies
                #[trigger] model_get(result, other) == model_get(entries, other) by {
                lemma_get_unique(entries, other);
                lemma_get_unique(result, other);
                if exists|i: int| 0 <= i < entries.len() && entries[i].0 == other {
                    let i = choose|i: int| 0 <= i < entries.len() && entries[i].0 == other;
                    assert(result[i] == entries[i]);
                } else {
                    assert forall|i: int| 0 <= i < result.len() implies #[trigger] result[i].0 != other by {
                        if i < entries.len() {
                            assert(result[i] == entries[i]);
                        }
                    }
                }
            }
            if values_deep_unique(entries) && deep_unique(value) {
                assert forall|i: int| 0 <= i < result.len() implies deep_unique(#[trigger] result[i].1) by {
                    if i < entries.len() {
                        assert(result[i] == entries[i]);
                    }
                }
            }
        },
    }
}

/// Taking a key out keeps keys distinct and values free of repeated keys,
/// leaves the key without a value and every other key as it was.
proof fn lemma_remove(entries: Seq<(Seq<char>, JsonModel)>, key: Seq<char>)
    requires
        keys_unique(entries),
    ensures
        keys_unique(model_remove(entries, key)),
        model_get(model_remove(entries, key), key) is None,
        forall|other: Seq<char>| other != key ==>
            #[trigger] model_get(model_remove(entries, key), other) == model_get(entries, other),
        values_deep_unique(entries) ==> values_deep_unique(model_remove(entries, key)),
{
    let result = model_remove(entries, key);
    lemma_key_position(entries, key);
    lemma_get_unique(entries, key);
    match key_position(entries, key) {
        Some(p) => {
            assert(result == entries.remove(p));
            assert forall|i: int| 0 <= i < result.len() implies
                #[trigger] result[i] == (if i < p { entries[i] } else { entries[i + 1] }) by {}
            assert forall|i: int, j: int| #![trigger result[i], result[j]] 0 <= i < j < result.len() implies result[i].0 != result[j].0 by {
                let a = if i < p { i } else { i + 1 };
                let b = if j < p { j } else { j + 1 };
                assert(result[i] == entries[a] && result[j] == entries[b]);
                assert(entries[a].0 != entries[b].0);
            }
            lemma_get_unique(result, key);
            assert forall|i: int| 0 <= i < result.len() implies #[trigger] result[i].0 != key by {
                let a = if i < p { i } else { i + 1 };
                assert(result[i] == entries[a]);
                if a < p {
                    assert(entries[a].0 != entries[p].0);
                } else {
                    assert(entries[p].0 != entries[a].0);
                }
            }
            assert forall|other: Seq<char>| other != key implies
                #[trigger] model_get(result, other) == model_get(entries, other) by {
                lemma_get_unique(entries, other);
                lemma_get_unique(result, other);
                if exists|i: int| 0 <= i < entries.len() && entries[i].0 == other {
                    let i = choose|i: int| 0 <= i < entries.len() && entries[i].0 == other;
                    assert(i != p);
                    let r = if i < p { i } else { i - 1 };
                    assert(result[r] == entries[i]);
                } else {
                    assert forall|i: int| 0 <= i < result.len() implies #[trigger] result[i].0 != other by {
                        let a = if i < p { i } else { i + 1 };
                        assert(result[i] == entries[a]);
                    }
                }
            }
            if values_deep_unique(entries) {
                assert forall|i: int| 0 <= i < result.len() implies deep_unique(#[trigger] result[i].1) by {
                    let a = if i < p { i } else { i + 1 };
                    assert(result[i] == entries[a]);
                }
            }
        },
        None => {},
    }
}

/// Setting a key to the value it already has changes nothing.
proof fn lemma_insert_same(entries: Seq<(Seq<char>, JsonModel)>, key: Seq<char>, value: JsonModel)
    requires
        model_get(entries, key) == Some(value),
    ensures
        model_insert(entries, key, value) == entries,
{
    lemma_key_position(entries, key);
    let p = key_position(entries, key)->0;
    assert(entries[p] == (key, value));
    assert(entries.update(p, (key, value)) =~= entries);
}

/// Migrating entries migrates each value and keeps each key.
proof fn lemma_migrated_entries_shape(entries: Seq<(Seq<char>, JsonModel)>, protocol_fields: bool)
    ensures
        migrated_entries(entries, protocol_fields).len() == entries.len(),
        forall|i: int| 0 <= i < entries.len() ==> #[trigger] migrated_entries(entries, protocol_fields)[i]
            == (entries[i].0, migrated(entries[i].1, protocol_fields)),
    decreases entries.len(),
{
    if entries.len() > 0 {
        lemma_migrated_entries_shape(entries.drop_last(), protocol_fields);
        assert forall|i: int| 0 <= i < entries.len() - 1 implies #[trigger] entries.drop_last()[i] == entries[i] by {}
    }
}

/// Migrating items migrates each of them.
proof fn lemma_migrated_items_shape(items: Seq<JsonModel>, protocol_fields: bool)
    ensures
        migrated_items(items, protocol_fields).len() == items.len(),
        forall|i: int| 0 <= i < items.len() ==> #[trigger] migrated_items(items, protocol_fields)[i]
            == migrated(items[i], protocol_fields),
    decreases items.len(),
{
    if items.len() > 0 {
        lemma_migrated_items_shape(items.drop_last(), protocol_fields);
        assert forall|i: int| 0 <= i < items.len() - 1 implies #[trigger] items.drop_last()[i] == items[i] by {}
    }
}

/// Migrating a value keeps its kind: arrays stay arrays, objects stay
/// objects, and every other value stays as it is.
proof fn lemma_migrated_kind(value: JsonModel, protocol_fields: bool)
    ensures
        !(value is Array) && !(value is Object) ==> migrated(value, protocol_fields) == value,
        value is Array <==> migrated(value, protocol_fields) is Array,
        value is Object <==> migrated(value, protocol_fields) is Object,
{
}

/// Migrated entries keep distinct keys and give each key its migrated value.
proof fn lemma_get_migrated(entries: Seq<(Seq<char>, JsonModel)>, protocol_fields: bool, key: Seq<char>)
    requires
        keys_unique(entries),
    ensures
        keys_unique(migrated_entries(entries, protocol_fields)),
        model_get(entries, key) matches Some(value) ==>
            model_get(migrated_entries(entries, protocol_fields), key) == Some(migrated(value, protocol_fields)),
        model_get(entries, key) is None ==> model_get(migrated_entries(entries, protocol_fields), key) is None,
{
    let moved = migrated_entries(entries, protocol_fields);
    lemma_migrated_entries_shape(entries, protocol_fields);
    assert forall|i: int| 0 <= i < entries.len() implies #[trigger] moved[i].0 == entries[i].0 by {}
    lemma_get_unique(entries, key);
    lemma_get_unique(moved, key);
    if exists|i: int| 0 <= i < entries.len() && entries[i].0 == key {
        let i = choose|i: int| 0 <= i < entries.len() && entries[i].0 == key;
        assert(moved[i].0 == key);
    } else {
        assert forall|i: int| 0 <= i < moved.len() implies #[trigger] moved[i].0 != key by {
            assert(moved[i].0 == entries[i].0);
        }
    }
}

/// The corrected model name needs no further correction.
proof fn lemma_fixed_model_settled(model: Seq<char>)
    ensures
        fixed_model(fixed_model(model)) == fixed_model(model),
{
    reveal_strlit("nai-diffusion-3-furry");
    reveal_strlit("nai-diffusion-furry-3");
    assert("nai-diffusion-3-furry"@[14] != "nai-diffusion-furry-3"@[14]);
}

/// The keys the edits read and write differ from one another.
proof fn lemma_edit_keys_differ()
    ensures
        "schema_version"@ != "model"@,
        "schema_version"@ != "quality"@,
        "schema_version"@ != "transparent_background"@,
        "schema_version"@ != "i2i"@,
        "schema_version"@ != "img2img"@,
        "schema_version"@ != "controlnet"@,
        "schema_version"@ != "vibe_transfer"@,
        "model"@ != "quality"@,
        "model"@ != "transparent_background"@,
        "model"@ != "i2i"@,
        "model"@ != "img2img"@,
        "model"@ != "controlnet"@,
        "model"@ != "vibe_transfer"@,
        "quality"@ != "transparent_background"@,
        "quality"@ != "i2i"@,
        "quality"@ != "img2img"@,
        "quality"@ != "controlnet"@,
        "quality"@ != "vibe_transfer"@,
        "transparent_background"@ != "i2i"@,
        "transparent_background"@ != "img2img"@,
        "transparent_background"@ != "controlnet"@,
        "transparent_background"@ != "vibe_transfer"@,
        "i2i"@ != "img2img"@,
        "i2i"@ != "controlnet"@,
        "i2i"@ != "vibe_transfer"@,
        "img2img"@ != "controlnet"@,
        "img2img"@ != "vibe_transfer"@,
        "controlnet"@ != "vibe_transfer"@,
{
    reveal_strlit("schema_version");
    reveal_strlit("model");
    reveal_strlit("quality");
    reveal_strlit("transparent_background");
    reveal_strlit("i2i");
    reveal_strlit("img2img");
    reveal_strlit("controlnet");
    reveal_strlit("vibe_transfer");
    assert("schema_version"@.len() == 14);
    assert("model"@.len() == 5);
    assert("quality"@.len() == 7);
    assert("transparent_background"@.len() == 22);
    assert("i2i"@.len() == 3);
    assert("img2img"@.len() == 7);
    assert("controlnet"@.len() == 10);
    assert("vibe_transfer"@.len() == 13);
    assert("quality"@[0] != "img2img"@[0]);
}

/// An object with distinct keys whose values are free of repeated keys.
pub open spec fn well_keyed(entries: Seq<(Seq<char>, JsonModel)>) -> bool {
    keys_unique(entries) && values_deep_unique(entries)
}

/// What the edits leave behind: nothing that a second edit would change.
pub open spec fn settled(entries: Seq<(Seq<char>, JsonModel)>, protocol_fields: bool) -> bool {
    &&& model_get(entries, "schema_version"@) != Some(JsonModel::Number(NumberModel::PosInt(1)))
    &&& (model_get(entries, "model"@) matches Some(JsonModel::String(model)) ==> fixed_model(model) == model)
    &&& !(model_get(entries, "quality"@) matches Some(JsonModel::Bool(_)))
    &&& (model_get(entries, "quality"@) is Some ==> model_get(entries, "transparent_background"@) is Some)
    &&& (protocol_fields ==> model_get(entries, "i2i"@) is None && model_get(entries, "controlnet"@) is None)
}

proof fn lemma_step_schema(entries: Seq<(Seq<char>, JsonModel)>)
    requires
        well_keyed(entries),
    ensures
        well_keyed(step_schema(entries)),
        model_get(step_schema(entries), "schema_version"@) != Some(JsonModel::Number(NumberModel::PosInt(1))),
        forall|other: Seq<char>| other != "schema_version"@ ==>
            #[trigger] model_get(step_schema(entries), other) == model_get(entries, other),
{
    lemma_insert(entries, "schema_version"@, JsonModel::Number(NumberModel::PosInt(2)));
}

proof fn lemma_step_model(entries: Seq<(Seq<char>, JsonModel)>)
    requires
        well_keyed(entries),
    ensures
        well_keyed(step_model(entries)),
        model_get(step_model(entries), "model"@) matches Some(JsonModel::String(model)) ==> fixed_model(model) == model,
        forall|other: Seq<char>| other != "model"@ ==>
            #[trigger] model_get(step_model(entries), other) == model_get(entries, other),
{
    if let Some(JsonModel::String(model)) = model_get(entries, "model"@) {
        lemma_insert(entries, "model"@, JsonModel::String(fixed_model(model)));
        lemma_fixed_model_settled(model);
    }
}

proof fn lemma_step_quality(entries: Seq<(Seq<char>, JsonModel)>)
    requires
        well_keyed(entries),
    ensures
        well_keyed(step_quality(entries)),
        !(model_get(step_quality(entries), "quality"@) matches Some(JsonModel::Bool(_))),
        model_get(entries, "quality"@) is Some <==> model_get(step_quality(entries), "quality"@) is Some,
        forall|other: Seq<char>| other != "quality"@ ==>
            #[trigger] model_get(step_quality(entries), other) == model_get(entries, other),
{
    if let Some(JsonModel::Bool(enabled)) = model_get(entries, "quality"@) {
        lemma_insert(entries, "quality"@, JsonModel::String(quality_name(enabled)));
    }
}

proof fn lemma_step_transparent(entries: Seq<(Seq<char>, JsonModel)>)
    requires
        well_keyed(entries),
    ensures
        well_keyed(step_transparent(entries)),
        model_get(step_transparent(entries), "quality"@) is Some ==>
            model_get(step_transparent(entries), "transparent_background"@) is Some,
        forall|other: Seq<char>| other != "transparent_background"@ ==>
            #[trigger] model_get(step_transparent(entries), other) == model_get(entries, other),
{
    lemma_edit_keys_differ();
    if model_get(entries, "quality"@) is Some && model_get(entries, "transparent_background"@) is None {
        lemma_insert(entries, "transparent_background"@, JsonModel::Bool(false));
    }
}

/// An image reference without its extracted information keeps distinct keys.
proof fn lemma_strip_info_unique(item: JsonModel)
    requires
        deep_unique(item),
    ensures
        deep_unique(strip_info(item)),
{
    if let JsonModel::Object(fields) = item {
        lemma_entries_deep_unique(fields);
        lemma_remove(fields, "info_extracted"@);
        lemma_entries_deep_unique(model_remove(fields, "info_extracted"@));
    }
}

/// A vibe configuration in the new shape keeps distinct keys.
proof fn lemma_controlnet_unique(controlnet: JsonModel)
    requires
        deep_unique(controlnet),
    ensures
        deep_unique(controlnet_as_vibe_transfer(controlnet)),
{
    if let JsonModel::Object(config) = controlnet {
        lemma_entries_deep_unique(config);
        if let Some(images) = model_get(config, "images"@) {
            lemma_get_deep_unique(config, "images"@);
            let references = images_as_references(images);
            if let JsonModel::Array(items) = images {
                lemma_items_deep_unique(items);
                let stripped = items.map_values(|item: JsonModel| strip_info(item));
                assert forall|i: int| 0 <= i < stripped.len() implies deep_unique(#[trigger] stripped[i]) by {
                    lemma_strip_info_unique(items[i]);
                }
                lemma_items_deep_unique(stripped);
            }
            assert(deep_unique(references));
            lemma_remove(config, "images"@);
            lemma_insert(model_remove(config, "images"@), "references"@, references);
            lemma_entries_deep_unique(model_insert(model_remove(config, "images"@), "references"@, references));
        }
    }
}

proof fn lemma_step_protocol(entries: Seq<(Seq<char>, JsonModel)>)
    requires
        well_keyed(entries),
    ensures
        well_keyed(step_protocol(entries)),
        model_get(step_protocol(entries), "i2i"@) is None,
        model_get(step_protocol(entries), "controlnet"@) is None,
        forall|other: Seq<char>| other != "i2i"@ && other != "img2img"@ && other != "controlnet"@ && other != "vibe_transfer"@ ==>
            #[trigger] model_get(step_protocol(entries), other) == model_get(entries, other),
{
    lemma_edit_keys_differ();
    let renamed = match model_get(entries, "i2i"@) {
        Some(img2img) => model_insert(model_remove(entries, "i2i"@), "img2img"@, img2img),
        None => entries,
    };
    lemma_get_unique(entries, "i2i"@);
    if let Some(img2img) = model_get(entries, "i2i"@) {
        lemma_get_deep_unique(entries, "i2i"@);
        lemma_remove(entries, "i2i"@);
        lemma_insert(model_remove(entries, "i2i"@), "img2img"@, img2img);
    }
    assert(well_keyed(renamed));
    assert(model_get(renamed, "i2i"@) is None);
    lemma_get_unique(renamed, "controlnet"@);
    if let Some(controlnet) = model_get(renamed, "controlnet"@) {
        lemma_get_deep_unique(renamed, "controlnet"@);
        lemma_controlnet_unique(controlnet);
        lemma_remove(renamed, "controlnet"@);
        lemma_insert(model_remove(renamed, "controlnet"@), "vibe_transfer"@, controlnet_as_vibe_transfer(controlnet));
    }
}

/// The edits keep an object well keyed and leave nothing for a second edit.
proof fn lemma_edit_settles(entries: Seq<(Seq<char>, JsonModel)>, protocol_fields: bool)
    requires
        well_keyed(entries),
    ensures
        well_keyed(edit_object(entries, protocol_fields)),
        settled(edit_object(entries, protocol_fields), protocol_fields),
{
    lemma_edit_keys_differ();
    let s1 = step_schema(entries);
    lemma_step_schema(entries);
    let s2 = step_model(s1);
    lemma_step_model(s1);
    let s3 = step_quality(s2);
    lemma_step_quality(s2);
    let s4 = step_transparent(s3);
    lemma_step_transparent(s3);
    assert(model_get(s4, "schema_version"@) == model_get(s1, "schema_version"@));
    assert(model_get(s4, "model"@) == model_get(s2, "model"@));
    assert(model_get(s4, "quality"@) == model_get(s3, "quality"@));
    assert(settled(s4, false));
    if protocol_fields {
        lemma_step_protocol(s4);
        let s5 = step_protocol(s4);
        assert(model_get(s5, "schema_version"@) == model_get(s4, "schema_version"@));
        assert(model_get(s5, "model"@) == model_get(s4, "model"@));
        assert(model_get(s5, "quality"@) == model_get(s4, "quality"@));
        assert(model_get(s5, "transparent_background"@) == model_get(s4, "transparent_background"@));
    }
}

/// A settled object, once its values are migrated, is left as it is by the
/// edits.
proof fn lemma_settled_edit_is_identity(entries: Seq<(Seq<char>, JsonModel)>, protocol_fields: bool)
    requires
        keys_unique(entries),
        settled(entries, protocol_fields),
    ensures
        edit_object(migrated_entries(entries, protocol_fields), protocol_fields) == migrated_entries(entries, protocol_fields),
{
    let moved = migrated_entries(entries, protocol_fields);
    lemma_get_migrated(entries, protocol_fields, "schema_version"@);
    lemma_get_migrated(entries, protocol_fields, "model"@);
    lemma_get_migrated(entries, protocol_fields, "quality"@);
    lemma_get_migrated(entries, protocol_fields, "transparent_background"@);
    lemma_get_migrated(entries, protocol_fields, "i2i"@);
    lemma_get_migrated(entries, protocol_fields, "controlnet"@);
    if let Some(value) = model_get(entries, "schema_version"@) {
        lemma_migrated_kind(value, protocol_fields);
    }
    assert(step_schema(moved) == moved);
    if let Some(value) = model_get(entries, "model"@) {
        lemma_migrated_kind(value, protocol_fields);
        if let JsonModel::String(model) = value {
            lemma_insert_same(moved, "model"@, JsonModel::String(model));
        }
    }
    assert(step_model(moved) == moved);
    if let Some(value) = model_get(entries, "quality"@) {
        lemma_migrated_kind(value, protocol_fields);
    }
    assert(step_quality(moved) == moved);
    assert(step_transparent(moved) == moved);
    if protocol_fields {
        assert(step_protocol(moved) == moved);
    }
}

/// Running the version 4 rewrite again on a document it has rewritten changes
/// nothing, when no object in the document repeats a key.
pub proof fn lemma_migrated_settles(value: JsonModel, protocol_fields: bool)
    requires
        deep_unique(value),
    ensures
        migrated(migrated(value, protocol_fields), protocol_fields) == migrated(value, protocol_fields),
    decreases height(value),
{
    match value {
        JsonModel::Array(items) => {
            let moved = migrated_items(items, protocol_fields);
            lemma_migrated_items_shape(items, protocol_fields);
            lemma_migrated_items_shape(moved, protocol_fields);
            lemma_items_deep_unique(items);
            lemma_items_height(items, 0);
            assert forall|i: int| 0 <= i < items.len() implies
                #[trigger] migrated_items(moved, protocol_fields)[i] == moved[i] by {
                lemma_migrated_settles(items[i], protocol_fields);
            }
            assert(migrated_items(moved, protocol_fields) =~= moved);
        },
        JsonModel::Object(entries) => {
            lemma_entries_deep_unique(entries);
            let edited = edit_object(entries, protocol_fields);
            lemma_edit_settles(entries, protocol_fields);
            lemma_edit_height(entries, protocol_fields);
            lemma_entries_height(edited, 0);
            let moved = migrated_entries(edited, protocol_fields);
            lemma_settled_edit_is_identity(edited, protocol_fields);
            lemma_migrated_entries_shape(edited, protocol_fields);
            lemma_migrated_entries_shape(moved, protocol_fields);
            assert forall|i: int| 0 <= i < edited.len() implies
                #[trigger] migrated_entries(moved, protocol_fields)[i] == moved[i] by {
                lemma_migrated_settles(edited[i].1, protocol_fields);
            }
            assert(migrated_entries(moved, protocol_fields) =~= moved);
        },
        _ => {},
    }
}

} // verus!
