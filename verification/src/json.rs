//! JSON documents as the stored records hold them, for the rewrites that
//! migrations and the resource library apply to them.
//!
//! A document is read as a [`JsonModel`]: strings as character sequences,
//! arrays as sequences, objects as sequences of entries. Objects are looked up
//! by the first entry with a key; the stored documents never repeat a key.

use vstd::prelude::*;

use crate::text::str_eq;

verus! {

/// A JSON number, of the kind it was read as; a fractional number keeps its
/// text.
#[derive(Clone, Debug, PartialEq, Eq)]
pub enum JsonNumber {
    PosInt(u64),
    NegInt(i64),
    Float(String),
}

/// A JSON value.
#[derive(Debug)]
pub enum JsonValue {
    Null,
    Bool(bool),
    Number(JsonNumber),
    String(String),
    Array(Vec<JsonValue>),
    Object(Vec<(String, JsonValue)>),
}

/// The mathematical reading of a JSON number.
pub enum NumberModel {
    PosInt(u64),
    NegInt(i64),
    Float(Seq<char>),
}

/// The mathematical reading of a JSON value.
pub enum JsonModel {
    Null,
    Bool(bool),
    Number(NumberModel),
    String(Seq<char>),
    Array(Seq<JsonModel>),
    Object(Seq<(Seq<char>, JsonModel)>),
}

/// The reading of `number`.
pub open spec fn number_view(number: JsonNumber) -> NumberModel {
    match number {
        JsonNumber::PosInt(n) => NumberModel::PosInt(n),
        JsonNumber::NegInt(n) => NumberModel::NegInt(n),
        JsonNumber::Float(text) => NumberModel::Float(text@),
    }
}

/// The reading of `value`.
pub open spec fn json_view(value: JsonValue) -> JsonModel
    decreases value, 0nat,
{
    match value {
        JsonValue::Null => JsonModel::Null,
        JsonValue::Bool(flag) => JsonModel::Bool(flag),
        JsonValue::Number(number) => JsonModel::Number(number_view(number)),
        JsonValue::String(text) => JsonModel::String(text@),
        JsonValue::Array(items) => JsonModel::Array(items_view(items@)),
        JsonValue::Object(entries) => JsonModel::Object(entries_view(entries@)),
    }
}

/// The readings of `items`.
pub open spec fn items_view(items: Seq<JsonValue>) -> Seq<JsonModel>
    decreases items, items.len(),
{
    if items.len() == 0 {
        Seq::empty()
    } else {
        items_view(items.drop_last()).push(json_view(items.last()))
    }
}

/// The readings of the entries of an object.
pub open spec fn entries_view(entries: Seq<(String, JsonValue)>) -> Seq<(Seq<char>, JsonModel)>
    decreases entries, entries.len(),
{
    if entries.len() == 0 {
        Seq::empty()
    } else {
        entries_view(entries.drop_last()).push((entries.last().0@, json_view(entries.last().1)))
    }
}

/// Reading items one by one.
pub proof fn lemma_items_view(items: Seq<JsonValue>)
    ensures
        items_view(items).len() == items.len(),
        forall|i: int| 0 <= i < items.len() ==> #[trigger] items_view(items)[i] == json_view(items[i]),
    decreases items.len(),
{
    if items.len() > 0 {
        lemma_items_view(items.drop_last());
    }
}

/// Reading entries one by one.
pub proof fn lemma_entries_view(entries: Seq<(String, JsonValue)>)
    ensures
        entries_view(entries).len() == entries.len(),
        forall|i: int| 0 <= i < entries.len() ==> #[trigger] entries_view(entries)[i] == (entries[i].0@, json_view(entries[i].1)),
    decreases entries.len(),
{
    if entries.len() > 0 {
        lemma_entries_view(entries.drop_last());
    }
}

/// Reading a list that has been extended by one entry.
pub proof fn lemma_entries_view_push(entries: Seq<(String, JsonValue)>, entry: (String, JsonValue))
    ensures
        entries_view(entries.push(entry)) == entries_view(entries).push((entry.0@, json_view(entry.1))),
{
    assert(entries.push(entry).drop_last() =~= entries);
}

/// Reading a list of items that has been extended by one item.
pub proof fn lemma_items_view_push(items: Seq<JsonValue>, item: JsonValue)
    ensures
        items_view(items.push(item)) == items_view(items).push(json_view(item)),
{
    assert(items.push(item).drop_last() =~= items);
}

/// Reading a list in which one entry's value was replaced.
pub proof fn lemma_entries_view_update(entries: Seq<(String, JsonValue)>, i: int, entry: (String, JsonValue))
    requires
        0 <= i < entries.len(),
    ensures
        entries_view(entries.update(i, entry)) == entries_view(entries).update(i, (entry.0@, json_view(entry.1))),
{
    lemma_entries_view(entries);
    lemma_entries_view(entries.update(i, entry));
    assert(entries_view(entries.update(i, entry)) =~= entries_view(entries).update(i, (entry.0@, json_view(entry.1))));
}

/// Reading a list from which one entry was removed.
pub proof fn lemma_entries_view_remove(entries: Seq<(String, JsonValue)>, i: int)
    requires
        0 <= i < entries.len(),
    ensures
        entries_view(entries.remove(i)) == entries_view(entries).remove(i),
{
    lemma_entries_view(entries);
    lemma_entries_view(entries.remove(i));
    assert(entries_view(entries.remove(i)) =~= entries_view(entries).remove(i));
}

/// Some string inside `value`, at any depth, equals `needle`.
pub open spec fn contains_string(value: JsonModel, needle: Seq<char>) -> bool
    decreases value, 0nat,
{
    match value {
        JsonModel::String(text) => text == needle,
        JsonModel::Array(items) => items_contain_string(items, needle),
        JsonModel::Object(entries) => entries_contain_string(entries, needle),
        _ => false,
    }
}

/// Some string inside one of `items` equals `needle`.
pub open spec fn items_contain_string(items: Seq<JsonModel>, needle: Seq<char>) -> bool
    decreases items, items.len(),
{
    if items.len() == 0 {
        false
    } else {
        items_contain_string(items.drop_last(), needle) || contains_string(items.last(), needle)
    }
}

/// Some string inside one of the values of `entries` equals `needle`.
pub open spec fn entries_contain_string(entries: Seq<(Seq<char>, JsonModel)>, needle: Seq<char>) -> bool
    decreases entries, entries.len(),
{
    if entries.len() == 0 {
        false
    } else {
        entries_contain_string(entries.drop_last(), needle) || contains_string(entries.last().1, needle)
    }
}

proof fn lemma_items_prefix_contains(items: Seq<JsonModel>, needle: Seq<char>, count: int)
    requires
        0 < count <= items.len(),
        contains_string(items[count - 1], needle),
    ensures
        items_contain_string(items, needle),
    decreases items.len() - count,
{
    if count == items.len() {
        assert(items.last() == items[count - 1]);
    } else {
        let shorter = items.drop_last();
        assert(shorter[count - 1] == items[count - 1]);
        lemma_items_prefix_contains(shorter, needle, count);
    }
}

proof fn lemma_entries_prefix_contains(entries: Seq<(Seq<char>, JsonModel)>, needle: Seq<char>, count: int)
    requires
        0 < count <= entries.len(),
        contains_string(entries[count - 1].1, needle),
    ensures
        entries_contain_string(entries, needle),
    decreases entries.len() - count,
{
    if count == entries.len() {
        assert(entries.last() == entries[count - 1]);
    } else {
        let shorter = entries.drop_last();
        assert(shorter[count - 1] == entries[count - 1]);
        lemma_entries_prefix_contains(shorter, needle, count);
    }
}

/// Whether some string inside `value`, at any depth, equals `needle`.
pub fn json_contains_string(value: &JsonValue, needle: &str) -> (found: bool)
    ensures
        found == contains_string(json_view(*value), needle@),
    decreases value,
{
    match value {
        JsonValue::String(text) => str_eq(text.as_str(), needle),
        JsonValue::Array(items) => {
            proof {
                lemma_items_view(items@);
            }
            let ghost model = items_view(items@);
            let mut index: usize = 0;
            while index < items.len()
                invariant
                    index <= items@.len(),
                    *value == JsonValue::Array(*items),
                    model == items_view(items@),
                    model.len() == items@.len(),
                    forall|i: int| 0 <= i < items@.len() ==> #[trigger] model[i] == json_view(items@[i]),
                    !items_contain_string(model.take(index as int), needle@),
                decreases items.len() - index,
            {
                proof {
                    broadcast use vstd::std_specs::vec::axiom_vec_decreases_to_view;
                    assert(decreases_to!(*value => value->Array_0));
                    assert(decreases_to!(value->Array_0 => items@));
                    assert(decreases_to!(items@ => items@[index as int]));
                    assert(model.take(index + 1).drop_last() =~= model.take(index as int));
                }
                if json_contains_string(&items[index], needle) {
                    proof {
                        lemma_items_prefix_contains(model, needle@, index + 1);
                    }
                    return true;
                }
                index = index + 1;
            }
            assert(model.take(model.len() as int) =~= model);
            false
        },
        JsonValue::Object(entries) => {
            proof {
                lemma_entries_view(entries@);
            }
            let ghost model = entries_view(entries@);
            let mut index: usize = 0;
            while index < entries.len()
                invariant
                    index <= entries@.len(),
                    *value == JsonValue::Object(*entries),
                    model == entries_view(entries@),
                    model.len() == entries@.len(),
                    forall|i: int| 0 <= i < entries@.len() ==> #[trigger] model[i] == (entries@[i].0@, json_view(entries@[i].1)),
                    !entries_contain_string(model.take(index as int), needle@),
                decreases entries.len() - index,
            {
                proof {
                    broadcast use vstd::std_specs::vec::axiom_vec_decreases_to_view;
                    assert(decreases_to!(*value => value->Object_0));
                    assert(decreases_to!(value->Object_0 => entries@));
                    assert(decreases_to!(entries@ => entries@[index as int]));
                    assert(decreases_to!(entries@[index as int] => entries@[index as int].1));
                    assert(model.take(index + 1).drop_last() =~= model.take(index as int));
                    assert(model[index as int].1 == json_view(entries@[index as int].1));
                }
                if json_contains_string(&entries[index].1, needle) {
                    proof {
                        lemma_entries_prefix_contains(model, needle@, index + 1);
                    }
                    return true;
                }
                index = index + 1;
            }
            assert(model.take(model.len() as int) =~= model);
            false
        },
        _ => false,
    }
}

/// The index of the first entry of `entries` with `key`, if any.
pub open spec fn key_position(entries: Seq<(Seq<char>, JsonModel)>, key: Seq<char>) -> Option<int>
    decreases entries.len(),
{
    if entries.len() == 0 {
        None
    } else {
        match key_position(entries.drop_last(), key) {
            Some(i) => Some(i),
            None => if entries.last().0 == key {
                Some(entries.len() - 1)
            } else {
                None
            },
        }
    }
}

/// The value of `key` in `entries`, if it has one.
pub open spec fn model_get(entries: Seq<(Seq<char>, JsonModel)>, key: Seq<char>) -> Option<JsonModel> {
    match key_position(entries, key) {
        Some(i) => Some(entries[i].1),
        None => None,
    }
}

/// `entries` with `key` set to `value`: in place when the key is present,
/// appended otherwise.
pub open spec fn model_insert(entries: Seq<(Seq<char>, JsonModel)>, key: Seq<char>, value: JsonModel) -> Seq<(Seq<char>, JsonModel)> {
    match key_position(entries, key) {
        Some(i) => entries.update(i, (key, value)),
        None => entries.push((key, value)),
    }
}

/// `entries` without `key`.
pub open spec fn model_remove(entries: Seq<(Seq<char>, JsonModel)>, key: Seq<char>) -> Seq<(Seq<char>, JsonModel)> {
    match key_position(entries, key) {
        Some(i) => entries.remove(i),
        None => entries,
    }
}

/// Where the first entry with `key` lies, and that the entries before it have
/// other keys.
pub proof fn lemma_key_position(entries: Seq<(Seq<char>, JsonModel)>, key: Seq<char>)
    ensures
        key_position(entries, key) matches Some(i) ==> 0 <= i < entries.len() && entries[i].0 == key
            && forall|j: int| 0 <= j < i ==> #[trigger] entries[j].0 != key,
        key_position(entries, key) is None ==> forall|j: int| 0 <= j < entries.len() ==> #[trigger] entries[j].0 != key,
    decreases entries.len(),
{
    if entries.len() > 0 {
        let shorter = entries.drop_last();
        lemma_key_position(shorter, key);
        assert forall|j: int| 0 <= j < shorter.len() implies #[trigger] entries[j] == shorter[j] by {}
    }
}

proof fn lemma_key_position_prefix(entries: Seq<(Seq<char>, JsonModel)>, key: Seq<char>, index: int)
    requires
        0 <= index < entries.len(),
        entries[index].0 == key,
        forall|j: int| 0 <= j < index ==> #[trigger] entries[j].0 != key,
    ensures
        key_position(entries, key) == Some(index),
    decreases entries.len(),
{
    lemma_key_position(entries, key);
    if entries.len() - 1 > index {
        let shorter = entries.drop_last();
        assert(shorter[index] == entries[index]);
        assert forall|j: int| 0 <= j < index implies #[trigger] shorter[j].0 != key by {
            assert(shorter[j] == entries[j]);
        }
        lemma_key_position_prefix(shorter, key, index);
    } else {
        lemma_key_position(entries.drop_last(), key);
        assert forall|j: int| 0 <= j < entries.drop_last().len() implies #[trigger] entries.drop_last()[j].0 != key by {
            assert(entries.drop_last()[j] == entries[j]);
        }
    }
}

/// The index of the first entry of `entries` with `key`, if any.
pub fn object_position(entries: &Vec<(String, JsonValue)>, key: &str) -> (position: Option<usize>)
    ensures
        match key_position(entries_view(entries@), key@) {
            Some(i) => position matches Some(p) && p == i,
            None => position is None,
        },
{
    proof {
        lemma_entries_view(entries@);
    }
    let ghost model = entries_view(entries@);
    let mut index: usize = 0;
    while index < entries.len()
        invariant
            index <= entries@.len(),
            model == entries_view(entries@),
            model.len() == entries@.len(),
            forall|i: int| 0 <= i < entries@.len() ==> #[trigger] model[i] == (entries@[i].0@, json_view(entries@[i].1)),
            forall|j: int| 0 <= j < index ==> #[trigger] model[j].0 != key@,
        decreases entries.len() - index,
    {
        if str_eq(entries[index].0.as_str(), key) {
            proof {
                lemma_key_position_prefix(model, key@, index as int);
            }
            return Some(index);
        }
        assert(model[index as int].0 != key@);
        index = index + 1;
    }
    proof {
        lemma_key_position(model, key@);
        if key_position(model, key@) is Some {
            let i = key_position(model, key@)->0;
            assert(model[i].0 == key@);
        }
    }
    None
}

/// Sets `key` to `value` in an object's entries: in place when the key is
/// present, appended otherwise.
pub fn object_insert(entries: &mut Vec<(String, JsonValue)>, key: String, value: JsonValue)
    ensures
        entries_view(final(entries)@) == model_insert(entries_view(old(entries)@), key@, json_view(value)),
{
    match object_position(entries, key.as_str()) {
        Some(index) => {
            proof {
                lemma_key_position(entries_view(entries@), key@);
                lemma_entries_view(entries@);
                lemma_entries_view_update(entries@, index as int, (key, value));
            }
            let ghost before = entries@;
            let ghost inserted = (key, value);
            let ghost key_view = key@;
            let ghost value_view = json_view(value);
            entries.set(index, (key, value));
            assert(entries@ == before.update(index as int, inserted));
            assert(key_position(entries_view(before), key_view) == Some(index as int));
            assert(entries_view(entries@) == entries_view(before).update(index as int, (key_view, value_view)));
        },
        None => {
            proof {
                lemma_entries_view_push(entries@, (key, value));
            }
            let ghost before = entries@;
            entries.push((key, value));
            assert(key_position(entries_view(before), key@) is None);
        },
    }
}

/// Takes `key` out of an object's entries and gives back its value, if it
/// had one.
pub fn object_remove(entries: &mut Vec<(String, JsonValue)>, key: &str) -> (removed: Option<JsonValue>)
    ensures
        entries_view(final(entries)@) == model_remove(entries_view(old(entries)@), key@),
        match removed {
            Some(value) => model_get(entries_view(old(entries)@), key@) == Some(json_view(value)),
            None => model_get(entries_view(old(entries)@), key@) is None,
        },
{
    match object_position(entries, key) {
        Some(index) => {
            proof {
                lemma_key_position(entries_view(entries@), key@);
                lemma_entries_view(entries@);
                lemma_entries_view_remove(entries@, index as int);
            }
            let (_, value) = entries.remove(index);
            Some(value)
        },
        None => None,
    }
}

} // verus!
