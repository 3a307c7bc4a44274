//! Schema version 4: stored generation documents move to the version 2 JSON
//! shape. Model names are corrected, boolean quality flags become quality
//! names, submitted payloads rename their protocol fields, and the generation
//! draft gathers its prompt fields into a prompt state.

use vstd::prelude::*;

use crate::error::{DatabaseError, DatabaseErrorKind, DatabaseResult};
use crate::json::{
    entries_view, items_view, json_view, key_position, lemma_entries_view, lemma_items_view, lemma_key_position,
    model_get, model_insert, model_remove, object_insert, object_position, object_remove, JsonModel, JsonNumber,
    JsonValue, NumberModel,
};
use crate::text::str_eq;

verus! {

/// A model name as corrected: the old furry model name becomes the current
/// one.
pub open spec fn fixed_model(model: Seq<char>) -> Seq<char> {
    if model == "nai-diffusion-3-furry"@ {
        "nai-diffusion-furry-3"@
    } else {
        model
    }
}

/// Corrects an old model name.
pub fn fix_model_string(value: &str) -> (fixed: String)
    ensures
        fixed@ == fixed_model(value@),
{
    if str_eq(value, "nai-diffusion-3-furry") {
        "nai-diffusion-furry-3".to_owned()
    } else {
        value.to_owned()
    }
}

/// The nesting depth of a JSON value.
pub open spec fn height(value: JsonModel) -> nat
    decreases value, 0nat,
{
    match value {
        JsonModel::Array(items) => 1 + items_height(items),
        JsonModel::Object(entries) => 1 + entries_height(entries),
        _ => 0,
    }
}

/// The greatest depth of `items`.
pub open spec fn items_height(items: Seq<JsonModel>) -> nat
    decreases items, items.len(),
{
    if items.len() == 0 {
        0
    } else {
        let rest = items_height(items.drop_last());
        let last = height(items.last());
        if rest >= last { rest } else { last }
    }
}

/// The greatest depth of the values of `entries`.
pub open spec fn entries_height(entries: Seq<(Seq<char>, JsonModel)>) -> nat
    decreases entries, entries.len(),
{
    if entries.len() == 0 {
        0
    } else {
        let rest = entries_height(entries.drop_last());
        let last = height(entries.last().1);
        if rest >= last { rest } else { last }
    }
}

/// Each item is no deeper than the items together, and items that all stay
/// within a depth keep the items within it.
pub proof fn lemma_items_height(items: Seq<JsonModel>, bound: nat)
    ensures
        forall|i: int| 0 <= i < items.len() ==> height(#[trigger] items[i]) <= items_height(items),
        (forall|i: int| 0 <= i < items.len() ==> height(#[trigger] items[i]) <= bound) ==> items_height(items) <= bound,
    decreases items.len(),
{
    if items.len() > 0 {
        let rest = items.drop_last();
        lemma_items_height(rest, bound);
        assert forall|i: int| 0 <= i < rest.len() implies rest[i] == items[i] by {}
    }
}

/// Each value is no deeper than the entries together, and values that all
/// stay within a depth keep the entries within it.
pub proof fn lemma_entries_height(entries: Seq<(Seq<char>, JsonModel)>, bound: nat)
    ensures
        forall|i: int| 0 <= i < entries.len() ==> height(#[trigger] entries[i].1) <= entries_height(entries),
        (forall|i: int| 0 <= i < entries.len() ==> height(#[trigger] entries[i].1) <= bound) ==> entries_height(entries) <= bound,
    decreases entries.len(),
{
    if entries.len() > 0 {
        let rest = entries.drop_last();
        lemma_entries_height(rest, bound);
        assert forall|i: int| 0 <= i < rest.len() implies rest[i] == entries[i] by {}
    }
}

/// The larger of two depths.
pub open spec fn max_height(a: nat, b: nat) -> nat {
    if a >= b { a } else { b }
}

/// A value looked up in entries is no deeper than the entries.
pub proof fn lemma_get_height(entries: Seq<(Seq<char>, JsonModel)>, key: Seq<char>)
    ensures
        model_get(entries, key) matches Some(value) ==> height(value) <= entries_height(entries),
{
    lemma_key_position(entries, key);
    lemma_entries_height(entries, 0);
}

/// Inserting a value makes entries no deeper than the entries and the value.
pub proof fn lemma_insert_height(entries: Seq<(Seq<char>, JsonModel)>, key: Seq<char>, value: JsonModel)
    ensures
        entries_height(model_insert(entries, key, value)) <= max_height(entries_height(entries), height(value)),
{
    let bound = max_height(entries_height(entries), height(value));
    lemma_key_position(entries, key);
    lemma_entries_height(entries, 0);
    let inserted = model_insert(entries, key, value);
    assert forall|i: int| 0 <= i < inserted.len() implies height(#[trigger] inserted[i].1) <= bound by {
        if i < entries.len() && inserted[i] == entries[i] {
        } else {
            assert(inserted[i].1 == value);
        }
    }
    lemma_entries_height(inserted, bound);
}

/// Removing a key never makes entries deeper.
pub proof fn lemma_remove_height(entries: Seq<(Seq<char>, JsonModel)>, key: Seq<char>)
    ensures
        entries_height(model_remove(entries, key)) <= entries_height(entries),
{
    lemma_key_position(entries, key);
    lemma_entries_height(entries, 0);
    let removed = model_remove(entries, key);
    let bound = entries_height(entries);
    assert forall|i: int| 0 <= i < removed.len() implies height(#[trigger] removed[i].1) <= bound by {
        match key_position(entries, key) {
            Some(p) => {
                if i < p {
                    assert(removed[i] == entries[i]);
                } else {
                    assert(removed[i] == entries[i + 1]);
                }
            },
            None => {},
        }
    }
    lemma_entries_height(removed, bound);
}

/// Step one of an object's edit: schema version 1 becomes 2.
pub open spec fn step_schema(entries: Seq<(Seq<char>, JsonModel)>) -> Seq<(Seq<char>, JsonModel)> {
    if model_get(entries, "schema_version"@) == Some(JsonModel::Number(NumberModel::PosInt(1))) {
        model_insert(entries, "schema_version"@, JsonModel::Number(NumberModel::PosInt(2)))
    } else {
        entries
    }
}

/// Step two: a model name is corrected.
pub open spec fn step_model(entries: Seq<(Seq<char>, JsonModel)>) -> Seq<(Seq<char>, JsonModel)> {
    match model_get(entries, "model"@) {
        Some(JsonModel::String(model)) => model_insert(entries, "model"@, JsonModel::String(fixed_model(model))),
        _ => entries,
    }
}

/// The quality name an old quality flag stands for.
pub open spec fn quality_name(enabled: bool) -> Seq<char> {
    if enabled { "standard"@ } else { "none"@ }
}

/// Step three: a boolean quality flag becomes a quality name.
pub open spec fn step_quality(entries: Seq<(Seq<char>, JsonModel)>) -> Seq<(Seq<char>, JsonModel)> {
    match model_get(entries, "quality"@) {
        Some(JsonModel::Bool(enabled)) => model_insert(entries, "quality"@, JsonModel::String(quality_name(enabled))),
        _ => entries,
    }
}

/// Step four: an object with a quality gets an opaque background unless it
/// chose one.
pub open spec fn step_transparent(entries: Seq<(Seq<char>, JsonModel)>) -> Seq<(Seq<char>, JsonModel)> {
    if model_get(entries, "quality"@) is Some && model_get(entries, "transparent_background"@) is None {
        model_insert(entries, "transparent_background"@, JsonModel::Bool(false))
    } else {
        entries
    }
}

/// An image reference without its extracted-information field.
pub open spec fn strip_info(item: JsonModel) -> JsonModel {
    match item {
        JsonModel::Object(fields) => JsonModel::Object(model_remove(fields, "info_extracted"@)),
        _ => item,
    }
}

/// A list of vibe images as references.
pub open spec fn images_as_references(images: JsonModel) -> JsonModel {
    match images {
        JsonModel::Array(items) => JsonModel::Array(items.map_values(|item: JsonModel| strip_info(item))),
        _ => images,
    }
}

/// An old vibe configuration in the new shape: its images become references.
pub open spec fn controlnet_as_vibe_transfer(controlnet: JsonModel) -> JsonModel {
    match controlnet {
        JsonModel::Object(config) => match model_get(config, "images"@) {
            Some(images) => JsonModel::Object(
                model_insert(model_remove(config, "images"@), "references"@, images_as_references(images)),
            ),
            None => controlnet,
        },
        _ => controlnet,
    }
}

/// Step five, for submitted payloads: `i2i` becomes `img2img` and
/// `controlnet` becomes `vibe_transfer`.
pub open spec fn step_protocol(entries: Seq<(Seq<char>, JsonModel)>) -> Seq<(Seq<char>, JsonModel)> {
    let renamed = match model_get(entries, "i2i"@) {
        Some(img2img) => model_insert(model_remove(entries, "i2i"@), "img2img"@, img2img),
        None => entries,
    };
    match model_get(renamed, "controlnet"@) {
        Some(controlnet) => model_insert(
            model_remove(renamed, "controlnet"@),
            "vibe_transfer"@,
            controlnet_as_vibe_transfer(controlnet),
        ),
        None => renamed,
    }
}

/// The edits an object receives before its values are migrated.
pub open spec fn edit_object(entries: Seq<(Seq<char>, JsonModel)>, protocol_fields: bool) -> Seq<(Seq<char>, JsonModel)> {
    let edited = step_transparent(step_quality(step_model(step_schema(entries))));
    if protocol_fields {
        step_protocol(edited)
    } else {
        edited
    }
}

/// Dropping an item's extracted information never makes it deeper.
pub proof fn lemma_strip_info_height(item: JsonModel)
    ensures
        height(strip_info(item)) <= height(item),
{
    if let JsonModel::Object(fields) = item {
        lemma_remove_height(fields, "info_extracted"@);
    }
}

/// Turning images into references never makes them deeper.
pub proof fn lemma_references_height(images: JsonModel)
    ensures
        height(images_as_references(images)) <= height(images),
{
    if let JsonModel::Array(items) = images {
        let stripped = items.map_values(|item: JsonModel| strip_info(item));
        lemma_items_height(items, 0);
        let bound = items_height(items);
        assert forall|i: int| 0 <= i < stripped.len() implies height(#[trigger] stripped[i]) <= bound by {
            lemma_strip_info_height(items[i]);
        }
        lemma_items_height(stripped, bound);
    }
}

/// Turning a control net into a vibe transfer never makes it deeper.
pub proof fn lemma_controlnet_height(controlnet: JsonModel)
    ensures
        height(controlnet_as_vibe_transfer(controlnet)) <= height(controlnet),
{
    if let JsonModel::Object(config) = controlnet {
        if let Some(images) = model_get(config, "images"@) {
            lemma_get_height(config, "images"@);
            lemma_references_height(images);
            lemma_remove_height(config, "images"@);
            lemma_insert_height(model_remove(config, "images"@), "references"@, images_as_references(images));
        }
    }
}

/// An object's edits never make it deeper.
pub proof fn lemma_edit_height(entries: Seq<(Seq<char>, JsonModel)>, protocol_fields: bool)
    ensures
        entries_height(edit_object(entries, protocol_fields)) <= entries_height(entries),
{
    let s1 = step_schema(entries);
    lemma_insert_height(entries, "schema_version"@, JsonModel::Number(NumberModel::PosInt(2)));
    let s2 = step_model(s1);
    if let Some(JsonModel::String(model)) = model_get(s1, "model"@) {
        lemma_insert_height(s1, "model"@, JsonModel::String(fixed_model(model)));
    }
    let s3 = step_quality(s2);
    if let Some(JsonModel::Bool(enabled)) = model_get(s2, "quality"@) {
        lemma_insert_height(s2, "quality"@, JsonModel::String(quality_name(enabled)));
    }
    let s4 = step_transparent(s3);
    lemma_insert_height(s3, "transparent_background"@, JsonModel::Bool(false));
    if protocol_fields {
        let renamed = match model_get(s4, "i2i"@) {
            Some(img2img) => model_insert(model_remove(s4, "i2i"@), "img2img"@, img2img),
            None => s4,
        };
        if let Some(img2img) = model_get(s4, "i2i"@) {
            lemma_get_height(s4, "i2i"@);
            lemma_remove_height(s4, "i2i"@);
            lemma_insert_height(model_remove(s4, "i2i"@), "img2img"@, img2img);
        }
        if let Some(controlnet) = model_get(renamed, "controlnet"@) {
            lemma_get_height(renamed, "controlnet"@);
            lemma_controlnet_height(controlnet);
            lemma_remove_height(renamed, "controlnet"@);
            lemma_insert_height(model_remove(renamed, "controlnet"@), "vibe_transfer"@, controlnet_as_vibe_transfer(controlnet));
        }
    }
}

/// A stored document moved to the version 2 shape: every object, at any
/// depth, is edited and then its values are migrated in turn.
pub open spec fn migrated(value: JsonModel, protocol_fields: bool) -> JsonModel
    decreases height(value), 0nat,
{
    match value {
        JsonModel::Array(items) => JsonModel::Array(migrated_items(items, protocol_fields)),
        JsonModel::Object(entries) => {
            proof {
                lemma_edit_height(entries, protocol_fields);
            }
            JsonModel::Object(migrated_entries(edit_object(entries, protocol_fields), protocol_fields))
        },
        _ => value,
    }
}

/// Each of `items` migrated.
pub open spec fn migrated_items(items: Seq<JsonModel>, protocol_fields: bool) -> Seq<JsonModel>
    decreases items_height(items), items.len(),
{
    if items.len() == 0 {
        Seq::empty()
    } else {
        proof {
            lemma_items_height(items, 0);
            lemma_items_height(items.drop_last(), items_height(items));
            assert forall|i: int| 0 <= i < items.drop_last().len() implies
                height(#[trigger] items.drop_last()[i]) <= items_height(items) by {
                assert(items.drop_last()[i] == items[i]);
            }
        }
        migrated_items(items.drop_last(), protocol_fields).push(migrated(items.last(), protocol_fields))
    }
}

/// Each value of `entries` migrated, keys kept.
pub open spec fn migrated_entries(entries: Seq<(Seq<char>, JsonModel)>, protocol_fields: bool) -> Seq<(Seq<char>, JsonModel)>
    decreases entries_height(entries), entries.len(),
{
    if entries.len() == 0 {
        Seq::empty()
    } else {
        proof {
            lemma_entries_height(entries, 0);
            lemma_entries_height(entries.drop_last(), entries_height(entries));
            assert forall|i: int| 0 <= i < entries.drop_last().len() implies
                height(#[trigger] entries.drop_last()[i].1) <= entries_height(entries) by {
                assert(entries.drop_last()[i] == entries[i]);
            }
        }
        migrated_entries(entries.drop_last(), protocol_fields).push(
            (entries.last().0, migrated(entries.last().1, protocol_fields)),
        )
    }
}

fn value_at_is_count_one(entries: &Vec<(String, JsonValue)>, position: usize) -> (is_one: bool)
    requires
        position < entries@.len(),
    ensures
        is_one == (json_view(entries@[position as int].1) == JsonModel::Number(NumberModel::PosInt(1))),
{
    match &entries[position].1 {
        JsonValue::Number(JsonNumber::PosInt(count)) => *count == 1,
        _ => false,
    }
}

fn edit_schema(entries: &mut Vec<(String, JsonValue)>)
    ensures
        entries_view(final(entries)@) == step_schema(entries_view(old(entries)@)),
{
    proof {
        reveal_strlit("schema_version");
        lemma_entries_view(entries@);
        lemma_key_position(entries_view(entries@), "schema_version"@);
    }
    if let Some(position) = object_position(entries, "schema_version") {
        if value_at_is_count_one(entries, position) {
            object_insert(entries, "schema_version".to_owned(), JsonValue::Number(JsonNumber::PosInt(2)));
        }
    }
}

fn corrected_model_at(entries: &Vec<(String, JsonValue)>, position: usize) -> (fixed: Option<String>)
    requires
        position < entries@.len(),
    ensures
        match json_view(entries@[position as int].1) {
            JsonModel::String(model) => fixed matches Some(text) && text@ == fixed_model(model),
            _ => fixed is None,
        },
{
    match &entries[position].1 {
        JsonValue::String(model) => Some(fix_model_string(model.as_str())),
        _ => None,
    }
}

fn edit_model(entries: &mut Vec<(String, JsonValue)>)
    ensures
        entries_view(final(entries)@) == step_model(entries_view(old(entries)@)),
{
    proof {
        reveal_strlit("model");
        lemma_entries_view(entries@);
        lemma_key_position(entries_view(entries@), "model"@);
    }
    if let Some(position) = object_position(entries, "model") {
        if let Some(fixed) = corrected_model_at(entries, position) {
            object_insert(entries, "model".to_owned(), JsonValue::String(fixed));
        }
    }
}

fn quality_flag_at(entries: &Vec<(String, JsonValue)>, position: usize) -> (flag: Option<bool>)
    requires
        position < entries@.len(),
    ensures
        match json_view(entries@[position as int].1) {
            JsonModel::Bool(enabled) => flag == Some(enabled),
            _ => flag is None,
        },
{
    match &entries[position].1 {
        JsonValue::Bool(enabled) => Some(*enabled),
        _ => None,
    }
}

fn edit_quality(entries: &mut Vec<(String, JsonValue)>)
    ensures
        entries_view(final(entries)@) == step_quality(entries_view(old(entries)@)),
{
    proof {
        reveal_strlit("quality");
        reveal_strlit("standard");
        reveal_strlit("none");
        lemma_entries_view(entries@);
        lemma_key_position(entries_view(entries@), "quality"@);
    }
    if let Some(position) = object_position(entries, "quality") {
        if let Some(enabled) = quality_flag_at(entries, position) {
            let name = if enabled { "standard".to_owned() } else { "none".to_owned() };
            object_insert(entries, "quality".to_owned(), JsonValue::String(name));
        }
    }
}

fn edit_transparent(entries: &mut Vec<(String, JsonValue)>)
    ensures
        entries_view(final(entries)@) == step_transparent(entries_view(old(entries)@)),
{
    proof {
        reveal_strlit("quality");
        reveal_strlit("transparent_background");
        lemma_entries_view(entries@);
        lemma_key_position(entries_view(entries@), "quality"@);
        lemma_key_position(entries_view(entries@), "transparent_background"@);
    }
    if object_position(entries, "quality").is_some() && object_position(entries, "transparent_background").is_none() {
        object_insert(entries, "transparent_background".to_owned(), JsonValue::Bool(false));
    }
}

fn strip_info_value(item: JsonValue) -> (stripped: JsonValue)
    ensures
        json_view(stripped) == strip_info(json_view(item)),
{
    proof {
        reveal_strlit("info_extracted");
    }
    match item {
        JsonValue::Object(mut fields) => {
            let _ = object_remove(&mut fields, "info_extracted");
            JsonValue::Object(fields)
        },
        other => other,
    }
}

fn references_value(images: JsonValue) -> (references: JsonValue)
    ensures
        json_view(references) == images_as_references(json_view(images)),
{
    match images {
        JsonValue::Array(items) => {
            proof {
                lemma_items_view(items@);
            }
            let ghost stored = items@;
            let ghost model = items_view(items@);
            let mut remaining = items;
            let mut out: Vec<JsonValue> = Vec::new();
            while remaining.len() > 0
                invariant
                    out@.len() + remaining@.len() == stored.len(),
                    remaining@ == stored.skip(out@.len() as int),
                    model == items_view(stored),
                    model.len() == stored.len(),
                    forall|i: int| 0 <= i < stored.len() ==> #[trigger] model[i] == json_view(stored[i]),
                    items_view(out@) == model.take(out@.len() as int).map_values(|item: JsonModel| strip_info(item)),
                decreases remaining.len(),
            {
                let ghost done = out@.len() as int;
                let item = remaining.remove(0);
                assert(item == stored[done]);
                let stripped = strip_info_value(item);
                let ghost before = out@;
                out.push(stripped);
                proof {
                    crate::json::lemma_items_view_push(before, stripped);
                    assert(model.take(done + 1) =~= model.take(done).push(model[done]));
                    assert(items_view(out@) =~= model.take(out@.len() as int).map_values(|item: JsonModel| strip_info(item)));
                    assert(remaining@ =~= stored.skip(out@.len() as int));
                }
            }
            assert(model.take(model.len() as int) =~= model);
            JsonValue::Array(out)
        },
        other => other,
    }
}

fn vibe_transfer_value(controlnet: JsonValue) -> (vibe_transfer: JsonValue)
    ensures
        json_view(vibe_transfer) == controlnet_as_vibe_transfer(json_view(controlnet)),
{
    proof {
        reveal_strlit("images");
        reveal_strlit("references");
    }
    match controlnet {
        JsonValue::Object(mut config) => {
            match object_remove(&mut config, "images") {
                Some(images) => {
                    object_insert(&mut config, "references".to_owned(), references_value(images));
                },
                None => {},
            }
            JsonValue::Object(config)
        },
        other => other,
    }
}

fn edit_protocol(entries: &mut Vec<(String, JsonValue)>)
    ensures
        entries_view(final(entries)@) == step_protocol(entries_view(old(entries)@)),
{
    proof {
        reveal_strlit("i2i");
        reveal_strlit("img2img");
        reveal_strlit("controlnet");
        reveal_strlit("vibe_transfer");
    }
    match object_remove(entries, "i2i") {
        Some(img2img) => object_insert(entries, "img2img".to_owned(), img2img),
        None => {},
    }
    match object_remove(entries, "controlnet") {
        Some(controlnet) => object_insert(entries, "vibe_transfer".to_owned(), vibe_transfer_value(controlnet)),
        None => {},
    }
}

/// Applies an object's edits in place.
fn edit_object_entries(entries: &mut Vec<(String, JsonValue)>, protocol_fields: bool)
    ensures
        entries_view(final(entries)@) == edit_object(entries_view(old(entries)@), protocol_fields),
{
    edit_schema(entries);
    edit_model(entries);
    edit_quality(entries);
    edit_transparent(entries);
    if protocol_fields {
        edit_protocol(entries);
    }
}

/// Moves a stored document to the version 2 shape; `protocol_fields` also
/// renames the protocol fields of submitted payloads.
pub fn migrate_value(value: JsonValue, protocol_fields: bool) -> (result: JsonValue)
    ensures
        json_view(result) == migrated(json_view(value), protocol_fields),
    decreases height(json_view(value)),
{
    match value {
        JsonValue::Array(items) => {
            proof {
                lemma_items_view(items@);
                lemma_items_height(items_view(items@), 0);
            }
            let ghost stored = items@;
            let ghost model = items_view(items@);
            let ghost whole = height(json_view(value));
            let mut remaining = items;
            let mut out: Vec<JsonValue> = Vec::new();
            while remaining.len() > 0
                invariant
                    out@.len() + remaining@.len() == stored.len(),
                    remaining@ == stored.skip(out@.len() as int),
                    model == items_view(stored),
                    model.len() == stored.len(),
                    forall|i: int| 0 <= i < stored.len() ==> #[trigger] model[i] == json_view(stored[i]),
                    forall|i: int| 0 <= i < model.len() ==> height(#[trigger] model[i]) <= items_height(model),
                    whole == height(json_view(value)),
                    whole == 1 + items_height(model),
                    items_view(out@) == migrated_items(model.take(out@.len() as int), protocol_fields),
                decreases remaining.len(),
            {
                let ghost done = out@.len() as int;
                let item = remaining.remove(0);
                assert(item == stored[done]);
                assert(height(json_view(item)) <= items_height(model)) by {
                    assert(model[done] == json_view(item));
                }
                let migrated_item = migrate_value(item, protocol_fields);
                let ghost before = out@;
                out.push(migrated_item);
                proof {
                    crate::json::lemma_items_view_push(before, migrated_item);
                    assert(model.take(done + 1).drop_last() =~= model.take(done));
                    assert(model.take(done + 1).last() == model[done]);
                    assert(remaining@ =~= stored.skip(out@.len() as int));
                }
            }
            assert(model.take(model.len() as int) =~= model);
            JsonValue::Array(out)
        },
        JsonValue::Object(entries) => {
            let ghost original = entries_view(entries@);
            let mut entries = entries;
            edit_object_entries(&mut entries, protocol_fields);
            proof {
                lemma_edit_height(original, protocol_fields);
                lemma_entries_view(entries@);
                lemma_entries_height(entries_view(entries@), 0);
            }
            let ghost stored = entries@;
            let ghost model = entries_view(entries@);
            let ghost whole = height(json_view(value));
            let mut remaining = entries;
            let mut out: Vec<(String, JsonValue)> = Vec::new();
            while remaining.len() > 0
                invariant
                    out@.len() + remaining@.len() == stored.len(),
                    remaining@ == stored.skip(out@.len() as int),
                    model == entries_view(stored),
                    model.len() == stored.len(),
                    forall|i: int| 0 <= i < stored.len() ==> #[trigger] model[i] == (stored[i].0@, json_view(stored[i].1)),
                    forall|i: int| 0 <= i < model.len() ==> height(#[trigger] model[i].1) <= entries_height(model),
                    entries_height(model) < whole,
                    whole == height(json_view(value)),
                    entries_view(out@) == migrated_entries(model.take(out@.len() as int), protocol_fields),
                decreases remaining.len(),
            {
                let ghost done = out@.len() as int;
                let (key, item) = remaining.remove(0);
                assert((key, item) == stored[done]);
                assert(height(json_view(item)) <= entries_height(model)) by {
                    assert(model[done].1 == json_view(item));
                }
                let migrated_item = migrate_value(item, protocol_fields);
                let ghost before = out@;
                out.push((key, migrated_item));
                proof {
                    crate::json::lemma_entries_view_push(before, (key, migrated_item));
                    assert(model.take(done + 1).drop_last() =~= model.take(done));
                    assert(model.take(done + 1).last() == model[done]);
                    assert(remaining@ =~= stored.skip(out@.len() as int));
                }
            }
            assert(model.take(model.len() as int) =~= model);
            JsonValue::Object(out)
        },
        other => other,
    }
}

/// The model a draft is written for: its model name, corrected, or the
/// current full model when it names none.
pub open spec fn draft_model(entries: Seq<(Seq<char>, JsonModel)>) -> Seq<char> {
    match model_get(entries, "model"@) {
        Some(JsonModel::String(model)) => fixed_model(model),
        _ => fixed_model("nai-diffusion-4-5-full"@),
    }
}

/// Moves `field`, when the draft has it, from the draft into the prompt
/// state.
pub open spec fn move_field(
    draft: Seq<(Seq<char>, JsonModel)>,
    state: Seq<(Seq<char>, JsonModel)>,
    field: Seq<char>,
) -> (Seq<(Seq<char>, JsonModel)>, Seq<(Seq<char>, JsonModel)>) {
    match model_get(draft, field) {
        Some(value) => (model_remove(draft, field), model_insert(state, field, value)),
        None => (draft, state),
    }
}

/// Sets `key` to `value` unless it is already set.
pub open spec fn or_insert(entries: Seq<(Seq<char>, JsonModel)>, key: Seq<char>, value: JsonModel) -> Seq<(Seq<char>, JsonModel)> {
    if model_get(entries, key) is Some {
        entries
    } else {
        model_insert(entries, key, value)
    }
}

/// The draft after its prompt fields moved out, and the prompt state they
/// moved into (with defaults for the fields it lacked).
pub open spec fn split_draft(draft: Seq<(Seq<char>, JsonModel)>) -> (Seq<(Seq<char>, JsonModel)>, Seq<(Seq<char>, JsonModel)>) {
    let state0 = seq![("model"@, JsonModel::String(draft_model(draft)))];
    let (d1, s1) = move_field(draft, state0, "main_preset_id"@);
    let (d2, s2) = move_field(d1, s1, "prompt"@);
    let (d3, s3) = move_field(d2, s2, "negative_prompt"@);
    let (d4, s4) = move_field(d3, s3, "characters"@);
    let (d5, s5) = move_field(d4, s4, "character_position_mode"@);
    let s6 = or_insert(s5, "main_preset_id"@, JsonModel::Null);
    let s7 = or_insert(s6, "prompt"@, JsonModel::String(Seq::empty()));
    let s8 = or_insert(s7, "negative_prompt"@, JsonModel::String(Seq::empty()));
    let s9 = or_insert(s8, "characters"@, JsonModel::Array(Seq::empty()));
    let s10 = or_insert(s9, "character_position_mode"@, JsonModel::String("global"@));
    (d5, s10)
}

/// A vibe slot bound to `model`, when it is an object.
pub open spec fn slot_with_model(slot: JsonModel, model: Seq<char>) -> JsonModel {
    match slot {
        JsonModel::Object(fields) => JsonModel::Object(model_insert(fields, "model"@, JsonModel::String(model))),
        _ => slot,
    }
}

/// The draft with each of its vibe slots bound to `model`, when it has an
/// object `vibe` with an array of `slots`.
pub open spec fn slots_with_model(draft: Seq<(Seq<char>, JsonModel)>, model: Seq<char>) -> Seq<(Seq<char>, JsonModel)> {
    match key_position(draft, "vibe"@) {
        Some(v) => match draft[v].1 {
            JsonModel::Object(vibe) => match key_position(vibe, "slots"@) {
                Some(s) => match vibe[s].1 {
                    JsonModel::Array(slots) => draft.update(v, (draft[v].0, JsonModel::Object(vibe.update(
                        s,
                        (vibe[s].0, JsonModel::Array(slots.map_values(|slot: JsonModel| slot_with_model(slot, model)))),
                    )))),
                    _ => draft,
                },
                None => draft,
            },
            _ => draft,
        },
        None => draft,
    }
}

/// A generation draft at schema version 4: its prompt fields gathered into a
/// single prompt state for its model, its vibe slots bound to that model, and
/// then migrated like any other stored document.
pub open spec fn migrated_draft(draft: Seq<(Seq<char>, JsonModel)>) -> JsonModel {
    let model = draft_model(draft);
    let (rest, state) = split_draft(draft);
    let with_states = model_insert(rest, "prompt_states"@, JsonModel::Array(seq![JsonModel::Object(state)]));
    migrated(JsonModel::Object(slots_with_model(with_states, model)), false)
}

/// The message for a draft that is not an object.
pub open spec fn draft_not_object_message() -> Seq<char> {
    "generation draft JSON must be an object during schema v4 migration"@
}

fn draft_model_name(entries: &Vec<(String, JsonValue)>) -> (model: String)
    ensures
        model@ == draft_model(entries_view(entries@)),
{
    proof {
        reveal_strlit("model");
        lemma_entries_view(entries@);
        lemma_key_position(entries_view(entries@), "model"@);
    }
    if let Some(position) = object_position(entries, "model") {
        if let Some(fixed) = corrected_model_at(entries, position) {
            return fixed;
        }
    }
    fix_model_string("nai-diffusion-4-5-full")
}

fn move_field_entries(draft: &mut Vec<(String, JsonValue)>, state: &mut Vec<(String, JsonValue)>, field: &str)
    ensures
        (entries_view(final(draft)@), entries_view(final(state)@))
            == move_field(entries_view(old(draft)@), entries_view(old(state)@), field@),
{
    match object_remove(draft, field) {
        Some(value) => object_insert(state, field.to_owned(), value),
        None => {},
    }
}

fn or_insert_entries(entries: &mut Vec<(String, JsonValue)>, key: &str, value: JsonValue)
    ensures
        entries_view(final(entries)@) == or_insert(entries_view(old(entries)@), key@, json_view(value)),
{
    proof {
        lemma_entries_view(entries@);
        lemma_key_position(entries_view(entries@), key@);
    }
    if object_position(entries, key).is_none() {
        object_insert(entries, key.to_owned(), value);
    }
}

fn split_draft_entries(draft: &mut Vec<(String, JsonValue)>, model: &String) -> (state: Vec<(String, JsonValue)>)
    requires
        model@ == draft_model(entries_view(old(draft)@)),
    ensures
        (entries_view(final(draft)@), entries_view(state@)) == split_draft(entries_view(old(draft)@)),
{
    proof {
        reveal_strlit("model");
        reveal_strlit("main_preset_id");
        reveal_strlit("prompt");
        reveal_strlit("negative_prompt");
        reveal_strlit("characters");
        reveal_strlit("character_position_mode");
        reveal_strlit("global");
    }
    let mut state: Vec<(String, JsonValue)> = Vec::new();
    let first = ("model".to_owned(), JsonValue::String(model.clone()));
    state.push(first);
    proof {
        crate::json::lemma_entries_view_push(Seq::empty(), first);
        assert(state@ =~= Seq::empty().push(first));
        assert(entries_view(Seq::<(String, JsonValue)>::empty()) =~= Seq::empty());
        assert(entries_view(state@) =~= seq![("model"@, JsonModel::String(model@))]);
    }
    move_field_entries(draft, &mut state, "main_preset_id");
    move_field_entries(draft, &mut state, "prompt");
    move_field_entries(draft, &mut state, "negative_prompt");
    move_field_entries(draft, &mut state, "characters");
    move_field_entries(draft, &mut state, "character_position_mode");
    or_insert_entries(&mut state, "main_preset_id", JsonValue::Null);
    or_insert_entries(&mut state, "prompt", JsonValue::String(String::new()));
    or_insert_entries(&mut state, "negative_prompt", JsonValue::String(String::new()));
    or_insert_entries(&mut state, "characters", JsonValue::Array(Vec::new()));
    or_insert_entries(&mut state, "character_position_mode", JsonValue::String("global".to_owned()));
    proof {
        assert(items_view(Seq::<JsonValue>::empty()) =~= Seq::empty());
    }
    state
}

fn bind_slots(slots: Vec<JsonValue>, model: &String) -> (bound: Vec<JsonValue>)
    ensures
        items_view(bound@) == items_view(slots@).map_values(|slot: JsonModel| slot_with_model(slot, model@)),
{
    proof {
        reveal_strlit("model");
        lemma_items_view(slots@);
    }
    let ghost stored = slots@;
    let ghost model_items = items_view(slots@);
    let mut remaining = slots;
    let mut out: Vec<JsonValue> = Vec::new();
    while remaining.len() > 0
        invariant
            out@.len() + remaining@.len() == stored.len(),
            remaining@ == stored.skip(out@.len() as int),
            model_items == items_view(stored),
            model_items.len() == stored.len(),
            forall|i: int| 0 <= i < stored.len() ==> #[trigger] model_items[i] == json_view(stored[i]),
            items_view(out@) == model_items.take(out@.len() as int).map_values(|slot: JsonModel| slot_with_model(slot, model@)),
        decreases remaining.len(),
    {
        let ghost done = out@.len() as int;
        let slot = remaining.remove(0);
        assert(slot == stored[done]);
        let updated = match slot {
            JsonValue::Object(mut fields) => {
                object_insert(&mut fields, "model".to_owned(), JsonValue::String(model.clone()));
                JsonValue::Object(fields)
            },
            other => other,
        };
        let ghost before = out@;
        out.push(updated);
        proof {
            crate::json::lemma_items_view_push(before, updated);
            assert(model_items[done] == json_view(stored[done]));
            assert(model_items.take(done + 1) =~= model_items.take(done).push(model_items[done]));
            assert(items_view(out@) =~= model_items.take(out@.len() as int).map_values(|slot: JsonModel| slot_with_model(slot, model@)));
            assert(remaining@ =~= stored.skip(out@.len() as int));
        }
    }
    assert(model_items.take(model_items.len() as int) =~= model_items);
    out
}

fn bind_vibe(vibe: JsonValue, model: &String) -> (bound: JsonValue)
    ensures
        match json_view(vibe) {
            JsonModel::Object(fields) => match key_position(fields, "slots"@) {
                Some(s) => match fields[s].1 {
                    JsonModel::Array(slots) => json_view(bound) == JsonModel::Object(fields.update(
                        s,
                        (fields[s].0, JsonModel::Array(slots.map_values(|slot: JsonModel| slot_with_model(slot, model@)))),
                    )),
                    _ => json_view(bound) == json_view(vibe),
                },
                None => json_view(bound) == json_view(vibe),
            },
            _ => json_view(bound) == json_view(vibe),
        },
{
    proof {
        reveal_strlit("slots");
    }
    match vibe {
        JsonValue::Object(mut fields) => {
            proof {
                lemma_entries_view(fields@);
                lemma_key_position(entries_view(fields@), "slots"@);
            }
            match object_position(&fields, "slots") {
                Some(index) => {
                    let ghost before = fields@;
                    let (key, value) = fields.remove(index);
                    match value {
                        JsonValue::Array(slots) => {
                            let bound_slots = bind_slots(slots, model);
                            let ghost replaced = (key, JsonValue::Array(bound_slots));
                            fields.insert(index, (key, JsonValue::Array(bound_slots)));
                            proof {
                                assert(fields@ =~= before.update(index as int, replaced));
                                crate::json::lemma_entries_view_update(before, index as int, replaced);
                            }
                            JsonValue::Object(fields)
                        },
                        other => {
                            let ghost kept = (key, other);
                            fields.insert(index, (key, other));
                            proof {
                                assert(fields@ =~= before.update(index as int, kept));
                                assert(fields@ =~= before);
                            }
                            JsonValue::Object(fields)
                        },
                    }
                },
                None => JsonValue::Object(fields),
            }
        },
        other => other,
    }
}

fn bind_draft_slots(draft: &mut Vec<(String, JsonValue)>, model: &String)
    ensures
        entries_view(final(draft)@) == slots_with_model(entries_view(old(draft)@), model@),
{
    proof {
        reveal_strlit("vibe");
        lemma_entries_view(draft@);
        lemma_key_position(entries_view(draft@), "vibe"@);
    }
    match object_position(draft, "vibe") {
        Some(index) => {
            let ghost before = draft@;
            let (key, value) = draft.remove(index);
            let bound = bind_vibe(value, model);
            let ghost replaced = (key, bound);
            draft.insert(index, (key, bound));
            proof {
                assert(draft@ =~= before.update(index as int, replaced));
                crate::json::lemma_entries_view_update(before, index as int, replaced);
                lemma_entries_view(before);
                let original = entries_view(before);
                if !(json_view(value) is Object) || key_position(json_view(value)->Object_0, "slots"@) is None {
                    assert(entries_view(draft@) =~= original);
                } else {
                    let fields = json_view(value)->Object_0;
                    let s = key_position(fields, "slots"@)->0;
                    if !(fields[s].1 is Array) {
                        assert(entries_view(draft@) =~= original);
                    }
                }
            }
        },
        None => {},
    }
}

/// Moves the generation draft to schema version 4; the draft must be an
/// object.
pub fn migrate_draft(value: JsonValue) -> (result: DatabaseResult<JsonValue>)
    ensures
        match json_view(value) {
            JsonModel::Object(entries) => result matches Ok(draft) && json_view(draft) == migrated_draft(entries),
            _ => result matches Err(error) && error.spec_kind() == DatabaseErrorKind::Database
                && error.spec_message() == draft_not_object_message(),
        },
{
    proof {
        reveal_strlit("prompt_states");
    }
    match value {
        JsonValue::Object(mut draft) => {
            let model = draft_model_name(&draft);
            let state = split_draft_entries(&mut draft, &model);
            let mut states: Vec<JsonValue> = Vec::new();
            states.push(JsonValue::Object(state));
            proof {
                crate::json::lemma_items_view_push(Seq::empty(), states@[0]);
                assert(states@ =~= Seq::empty().push(states@[0]));
                assert(items_view(Seq::<JsonValue>::empty()) =~= Seq::empty());
            }
            object_insert(&mut draft, "prompt_states".to_owned(), JsonValue::Array(states));
            bind_draft_slots(&mut draft, &model);
            Ok(migrate_value(JsonValue::Object(draft), false))
        },
        _ => Err(DatabaseError::new(
            "generation draft JSON must be an object during schema v4 migration".to_owned(),
        )),
    }
}

} // verus!
