//! Schema version 5: the resource library is filled from the prompt chunks,
//! presets and vibes that existed before it. Each distinct category of a
//! namespace becomes a root folder, each resource a node in its category's
//! folder (or at the root), and every node gets an identifier that no sibling
//! shares.

use vstd::prelude::*;

use crate::text::{decimal_text, str_eq, str_trim, trimmed_text, u64_to_decimal};

verus! {

/// A prompt chunk, preset or vibe as it was stored before the library.
#[derive(Clone, Debug)]
pub struct LegacyResource {
    pub namespace: String,
    pub owner_id: String,
    pub display_name: String,
    pub category: Option<String>,
    pub created_at_ms: i64,
    pub updated_at_ms: i64,
}

/// A category as the library uses it: trimmed, and none when blank.
pub open spec fn normalized(category: Option<Seq<char>>) -> Option<Seq<char>> {
    match category {
        Some(text) => if trimmed_text(text).len() == 0 {
            None
        } else {
            Some(trimmed_text(text))
        },
        None => None,
    }
}

/// The optional text of an optional string.
pub open spec fn optional_text(value: Option<String>) -> Option<Seq<char>> {
    match value {
        Some(text) => Some(text@),
        None => None,
    }
}

/// Trims a category; a blank one is no category.
pub fn normalized_category(value: Option<&str>) -> (category: Option<String>)
    ensures
        optional_text(category) == normalized(match value {
            Some(text) => Some(text@),
            None => None,
        }),
{
    match value {
        Some(text) => {
            let trimmed = str_trim(text);
            if trimmed.unicode_len() == 0 {
                None
            } else {
                Some(trimmed.to_owned())
            }
        },
        None => None,
    }
}

/// A root folder created for a category: the namespace and category it
/// stands for, and the timestamps of the first resource filed under it.
#[derive(Clone, Debug)]
pub struct BackfillFolder {
    pub namespace: String,
    pub category: String,
    pub created_at_ms: i64,
    pub updated_at_ms: i64,
}

/// What identifies a folder: its namespace and category.
pub open spec fn folder_key(folder: BackfillFolder) -> (Seq<char>, Seq<char>) {
    (folder.namespace@, folder.category@)
}

/// Some folder of `folders` stands for `key`.
pub open spec fn has_folder(folders: Seq<BackfillFolder>, key: (Seq<char>, Seq<char>)) -> bool {
    exists|i: int| 0 <= i < folders.len() && #[trigger] folder_key(folders[i]) == key
}

/// The folders to create for `resources`: one per distinct (namespace,
/// normalized category), in the order the categories first appear, with the
/// timestamps of the resource where each first appears.
pub open spec fn folders_of(resources: Seq<LegacyResource>) -> Seq<(Seq<char>, Seq<char>, i64, i64)>
    decreases resources.len(),
{
    if resources.len() == 0 {
        Seq::empty()
    } else {
        let rest = folders_of(resources.drop_last());
        let resource = resources.last();
        match normalized(optional_text(resource.category)) {
            Some(category) => if exists|i: int| 0 <= i < rest.len()
                && #[trigger] rest[i].0 == resource.namespace@ && rest[i].1 == category {
                rest
            } else {
                rest.push((resource.namespace@, category, resource.created_at_ms, resource.updated_at_ms))
            },
            None => rest,
        }
    }
}

/// What a folder records.
pub open spec fn folder_view(folder: BackfillFolder) -> (Seq<char>, Seq<char>, i64, i64) {
    (folder.namespace@, folder.category@, folder.created_at_ms, folder.updated_at_ms)
}

fn find_folder(folders: &Vec<BackfillFolder>, namespace: &str, category: &str) -> (position: Option<usize>)
    ensures
        match position {
            Some(p) => p < folders@.len() && folder_key(folders@[p as int]) == (namespace@, category@)
                && forall|j: int| 0 <= j < p ==> #[trigger] folder_key(folders@[j]) != (namespace@, category@),
            None => forall|j: int| 0 <= j < folders@.len() ==> #[trigger] folder_key(folders@[j]) != (namespace@, category@),
        },
{
    let mut index: usize = 0;
    while index < folders.len()
        invariant
            index <= folders@.len(),
            forall|j: int| 0 <= j < index ==> #[trigger] folder_key(folders@[j]) != (namespace@, category@),
        decreases folders.len() - index,
    {
        if str_eq(folders[index].namespace.as_str(), namespace) && str_eq(folders[index].category.as_str(), category) {
            return Some(index);
        }
        index = index + 1;
    }
    None
}

/// The root folders the backfill creates, one per distinct category of each
/// namespace.
pub fn backfill_folders(resources: &Vec<LegacyResource>) -> (folders: Vec<BackfillFolder>)
    ensures
        folders@.map_values(|folder: BackfillFolder| folder_view(folder)) == folders_of(resources@),
{
    let mut folders: Vec<BackfillFolder> = Vec::new();
    let mut index: usize = 0;
    while index < resources.len()
        invariant
            index <= resources@.len(),
            folders@.map_values(|folder: BackfillFolder| folder_view(folder)) == folders_of(resources@.take(index as int)),
        decreases resources.len() - index,
    {
        let resource = &resources[index];
        let ghost before = folders@;
        let ghost views = before.map_values(|folder: BackfillFolder| folder_view(folder));
        proof {
            assert(resources@.take(index + 1).drop_last() =~= resources@.take(index as int));
            assert(resources@.take(index + 1).last() == resources@[index as int]);
        }
        let category = match &resource.category {
            Some(text) => normalized_category(Some(text.as_str())),
            None => normalized_category(None),
        };
        if let Some(category) = category {
            match find_folder(&folders, resource.namespace.as_str(), category.as_str()) {
                Some(position) => {
                    proof {
                        assert(views[position as int].0 == resource.namespace@ && views[position as int].1 == category@);
                    }
                },
                None => {
                    proof {
                        assert forall|i: int| 0 <= i < views.len() implies
                            !(#[trigger] views[i].0 == resource.namespace@ && views[i].1 == category@) by {
                            assert(folder_key(before[i]) != (resource.namespace@, category@));
                        }
                    }
                    folders.push(BackfillFolder {
                        namespace: resource.namespace.clone(),
                        category,
                        created_at_ms: resource.created_at_ms,
                        updated_at_ms: resource.updated_at_ms,
                    });
                    assert(folders@.map_values(|folder: BackfillFolder| folder_view(folder)) =~= folders_of(
                        resources@.take(index + 1),
                    ));
                },
            }
        }
        index = index + 1;
    }
    assert(resources@.take(resources@.len() as int) =~= resources@);
    folders
}

/// The folder a resource is filed under: the one for its namespace and
/// normalized category, if it has a category.
pub open spec fn parent_of(folders: Seq<BackfillFolder>, resource: LegacyResource) -> Option<int> {
    match normalized(optional_text(resource.category)) {
        Some(category) => if has_folder(folders, (resource.namespace@, category)) {
            Some(choose|i: int| 0 <= i < folders.len() && folder_key(folders[i]) == (resource.namespace@, category)
                && forall|j: int| 0 <= j < i ==> #[trigger] folder_key(folders[j]) != (resource.namespace@, category))
        } else {
            None
        },
        None => None,
    }
}

/// The folder each resource is filed under, as an index into `folders`.
pub fn backfill_parents(resources: &Vec<LegacyResource>, folders: &Vec<BackfillFolder>) -> (parents: Vec<Option<usize>>)
    ensures
        parents@.len() == resources@.len(),
        forall|i: int| 0 <= i < resources@.len() ==> match #[trigger] parents@[i] {
            Some(p) => parent_of(folders@, resources@[i]) == Some(p as int),
            None => parent_of(folders@, resources@[i]) is None,
        },
{
    let mut parents: Vec<Option<usize>> = Vec::new();
    let mut index: usize = 0;
    while index < resources.len()
        invariant
            index <= resources@.len(),
            parents@.len() == index,
            forall|i: int| 0 <= i < index ==> match #[trigger] parents@[i] {
                Some(p) => parent_of(folders@, resources@[i]) == Some(p as int),
                None => parent_of(folders@, resources@[i]) is None,
            },
        decreases resources.len() - index,
    {
        let resource = &resources[index];
        let category = match &resource.category {
            Some(text) => normalized_category(Some(text.as_str())),
            None => normalized_category(None),
        };
        let parent = match category {
            Some(category) => {
                let found = find_folder(folders, resource.namespace.as_str(), category.as_str());
                proof {
                    let key = (resource.namespace@, category@);
                    match found {
                        Some(p) => {
                            assert(has_folder(folders@, key));
                            let chosen = choose|i: int| 0 <= i < folders@.len() && folder_key(folders@[i]) == key
                                && forall|j: int| 0 <= j < i ==> #[trigger] folder_key(folders@[j]) != key;
                            if chosen < p {
                                assert(folder_key(folders@[chosen]) != key);
                            } else if chosen > p {
                                assert(folder_key(folders@[p as int]) != key);
                            }
                        },
                        None => {
                            if has_folder(folders@, key) {
                                let i = choose|i: int| 0 <= i < folders@.len() && #[trigger] folder_key(folders@[i]) == key;
                                assert(folder_key(folders@[i]) != key);
                            }
                        },
                    }
                }
                found
            },
            None => None,
        };
        parents.push(parent);
        index = index + 1;
    }
    parents
}

/// What identifies a node among its siblings: namespace, parent folder and
/// identifier.
pub type SiblingKey = (Seq<char>, Option<usize>, Seq<char>);

/// The `k`-th identifier tried for `base`: `base` itself, then `base-2`,
/// `base-3`, and so on.
pub open spec fn candidate_text(base: Seq<char>, k: nat) -> Seq<char> {
    if k <= 1 {
        base
    } else {
        base + "-"@ + decimal_text(k)
    }
}

/// `chosen` is the first identifier tried for `base` that no sibling in
/// `used` has yet.
pub open spec fn is_first_free(
    namespace: Seq<char>,
    parent: Option<usize>,
    base: Seq<char>,
    chosen: Seq<char>,
    used: Set<SiblingKey>,
) -> bool {
    exists|k: nat| #![trigger candidate_text(base, k)]
        1 <= k && chosen == candidate_text(base, k) && !used.contains((namespace, parent, chosen))
            && forall|j: nat| 1 <= j < k ==> used.contains((namespace, parent, #[trigger] candidate_text(base, j)))
}

/// Identifiers tried for one base are all different.
pub proof fn lemma_candidates_distinct(base: Seq<char>, j: nat, k: nat)
    requires
        1 <= j,
        1 <= k,
        candidate_text(base, j) == candidate_text(base, k),
    ensures
        j == k,
{
    reveal_strlit("-");
    crate::text::lemma_decimal_text_len(j);
    crate::text::lemma_decimal_text_len(k);
    if j >= 2 && k >= 2 {
        let prefix = base + "-"@;
        assert(candidate_text(base, j) == prefix + decimal_text(j));
        assert(candidate_text(base, k) == prefix + decimal_text(k));
        assert((prefix + decimal_text(j)).subrange(prefix.len() as int, (prefix + decimal_text(j)).len() as int) =~= decimal_text(j));
        assert((prefix + decimal_text(k)).subrange(prefix.len() as int, (prefix + decimal_text(k)).len() as int) =~= decimal_text(k));
        crate::text::lemma_decimal_text_injective(j, k);
    } else if j >= 2 {
        assert(candidate_text(base, j).len() > base.len());
    } else if k >= 2 {
        assert(candidate_text(base, k).len() > base.len());
    }
}

/// A node's place among its siblings: namespace, parent folder and the base
/// its identifier is made from.
#[derive(Clone, Debug)]
pub struct IdentifierRequest {
    pub namespace: String,
    pub parent: Option<usize>,
    pub base: String,
}

/// What a taken identifier records.
pub open spec fn used_key(key: (String, Option<usize>, String)) -> SiblingKey {
    (key.0@, key.1, key.2@)
}

/// The identifiers `used` records as taken.
pub open spec fn used_set(used: Seq<(String, Option<usize>, String)>) -> Set<SiblingKey> {
    used.map_values(|key: (String, Option<usize>, String)| used_key(key)).to_set()
}

fn is_used(used: &Vec<(String, Option<usize>, String)>, namespace: &str, parent: Option<usize>, candidate: &str) -> (taken: bool)
    ensures
        taken == used_set(used@).contains((namespace@, parent, candidate@)),
{
    let ghost keys = used@.map_values(|key: (String, Option<usize>, String)| used_key(key));
    let mut index: usize = 0;
    while index < used.len()
        invariant
            index <= used@.len(),
            keys == used@.map_values(|key: (String, Option<usize>, String)| used_key(key)),
            forall|j: int| 0 <= j < index ==> #[trigger] keys[j] != (namespace@, parent, candidate@),
        decreases used.len() - index,
    {
        let (taken_namespace, taken_parent, taken_identifier) = &used[index];
        if str_eq(taken_namespace.as_str(), namespace) && *taken_parent == parent
            && str_eq(taken_identifier.as_str(), candidate) {
            assert(keys[index as int] == (namespace@, parent, candidate@));
            assert(keys.to_set().contains(keys[index as int]));
            return true;
        }
        index = index + 1;
    }
    assert(!keys.to_set().contains((namespace@, parent, candidate@))) by {
        if keys.to_set().contains((namespace@, parent, candidate@)) {
            let j = choose|j: int| 0 <= j < keys.len() && keys[j] == (namespace@, parent, candidate@);
            assert(keys[j] != (namespace@, parent, candidate@));
        }
    }
    false
}

fn candidate(base: &str, suffix: usize) -> (text: String)
    requires
        2 <= suffix,
    ensures
        text@ == candidate_text(base@, suffix as nat),
{
    let mut text = base.to_owned();
    text.append("-");
    let digits = u64_to_decimal(suffix as u64);
    text.append(digits.as_str());
    text
}

proof fn lemma_tried_bound(start: Set<SiblingKey>, namespace: Seq<char>, parent: Option<usize>, base: Seq<char>, count: nat)
    requires
        start.finite(),
        forall|j: nat| 1 <= j <= count ==> start.contains((namespace, parent, #[trigger] candidate_text(base, j))),
    ensures
        count <= start.len(),
{
    let keys = Seq::new(count, |i: int| (namespace, parent, candidate_text(base, (i + 1) as nat)));
    assert forall|i: int, j: int| 0 <= i < j < keys.len() implies keys[i] != keys[j] by {
        if keys[i] == keys[j] {
            lemma_candidates_distinct(base, (i + 1) as nat, (j + 1) as nat);
        }
    }
    assert(keys.no_duplicates());
    keys.unique_seq_to_set();
    assert forall|k: SiblingKey| keys.to_set().contains(k) implies start.contains(k) by {
        let i = choose|i: int| 0 <= i < keys.len() && keys[i] == k;
        assert(start.contains((namespace, parent, candidate_text(base, (i + 1) as nat))));
    }
    vstd::set_lib::lemma_len_subset(keys.to_set(), start);
}

proof fn lemma_push_to_set(keys: Seq<SiblingKey>, key: SiblingKey)
    ensures
        keys.push(key).to_set() == keys.to_set().insert(key),
{
    let pushed = keys.push(key);
    assert forall|x: SiblingKey| pushed.to_set().contains(x) <==> keys.to_set().insert(key).contains(x) by {
        if pushed.to_set().contains(x) {
            let i = choose|i: int| 0 <= i < pushed.len() && pushed[i] == x;
            if i < keys.len() {
                assert(keys[i] == x);
            }
        }
        if keys.to_set().contains(x) {
            let i = choose|i: int| 0 <= i < keys.len() && keys[i] == x;
            assert(pushed[i] == x);
        }
        if x == key {
            assert(pushed[keys.len() as int] == x);
        }
    }
    assert(pushed.to_set() =~= keys.to_set().insert(key));
}

/// Gives a node the first identifier tried for `base` that none of its
/// siblings has yet, and records it as taken.
pub fn unique_identifier(
    namespace: &str,
    parent: Option<usize>,
    base: &str,
    used: &mut Vec<(String, Option<usize>, String)>,
) -> (identifier: String)
    requires
        old(used)@.len() + 2 <= usize::MAX,
    ensures
        is_first_free(namespace@, parent, base@, identifier@, used_set(old(used)@)),
        used_set(final(used)@) == used_set(old(used)@).insert((namespace@, parent, identifier@)),
        final(used)@.len() == old(used)@.len() + 1,
{
    let ghost start = used_set(used@);
    let mut current = base.to_owned();
    let mut suffix: usize = 2;
    proof {
        let keys = used@.map_values(|key: (String, Option<usize>, String)| used_key(key));
        keys.lemma_cardinality_of_set();
        vstd::seq_lib::seq_to_set_is_finite(keys);
    }
    loop
        invariant
            2 <= suffix,
            suffix <= used@.len() + 2,
            used@.len() + 2 <= usize::MAX,
            used@ == old(used)@,
            start == used_set(used@),
            start.len() <= used@.len(),
            start.finite(),
            current@ == candidate_text(base@, (suffix - 1) as nat),
            forall|j: nat| 1 <= j < suffix - 1 ==> start.contains((namespace@, parent, #[trigger] candidate_text(base@, j))),
        decreases used@.len() + 2 - suffix,
    {
        if !is_used(used, namespace, parent, current.as_str()) {
            let ghost chosen = (suffix - 1) as nat;
            let ghost key = (namespace@, parent, current@);
            let ghost before = used@;
            used.push((namespace.to_owned(), parent, current.clone()));
            proof {
                let keys = before.map_values(|k: (String, Option<usize>, String)| used_key(k));
                let after = used@.map_values(|k: (String, Option<usize>, String)| used_key(k));
                assert(after =~= keys.push(key));
                lemma_push_to_set(keys, key);
                assert(is_first_free(namespace@, parent, base@, current@, start)) by {
                    assert(current@ == candidate_text(base@, chosen));
                }
            }
            return current;
        }
        proof {
            assert(start.contains((namespace@, parent, candidate_text(base@, (suffix - 1) as nat))));
            lemma_tried_bound(start, namespace@, parent, base@, (suffix - 1) as nat);
        }
        current = candidate(base, suffix);
        suffix = suffix + 1;
    }
}

/// The identifiers the first `count` requests were given, as sibling keys.
pub open spec fn taken_before(requests: Seq<IdentifierRequest>, identifiers: Seq<String>, count: int) -> Set<SiblingKey> {
    Set::new(|key: SiblingKey| exists|j: int| 0 <= j < count
        && key == (requests[j].namespace@, requests[j].parent, #[trigger] identifiers[j]@))
}

/// Gives every node, in order, the first identifier tried for its base that
/// no earlier sibling took: the identifiers of a namespace's root folders and
/// resources, folders first.
pub fn unique_identifiers(requests: &Vec<IdentifierRequest>) -> (identifiers: Vec<String>)
    requires
        requests@.len() + 2 <= usize::MAX,
    ensures
        identifiers@.len() == requests@.len(),
        forall|i: int| 0 <= i < requests@.len() ==> #[trigger] is_first_free(
            requests@[i].namespace@,
            requests@[i].parent,
            requests@[i].base@,
            identifiers@[i]@,
            taken_before(requests@, identifiers@, i),
        ),
{
    let mut used: Vec<(String, Option<usize>, String)> = Vec::new();
    let mut identifiers: Vec<String> = Vec::new();
    let mut index: usize = 0;
    assert(used_set(used@) =~= taken_before(requests@, identifiers@, 0));
    while index < requests.len()
        invariant
            index <= requests@.len(),
            requests@.len() + 2 <= usize::MAX,
            used@.len() == index,
            identifiers@.len() == index,
            used_set(used@) == taken_before(requests@, identifiers@, index as int),
            forall|i: int| 0 <= i < index ==> #[trigger] is_first_free(
                requests@[i].namespace@,
                requests@[i].parent,
                requests@[i].base@,
                identifiers@[i]@,
                taken_before(requests@, identifiers@, i),
            ),
        decreases requests.len() - index,
    {
        let request = &requests[index];
        let ghost before_ids = identifiers@;
        let identifier = unique_identifier(request.namespace.as_str(), request.parent, request.base.as_str(), &mut used);
        identifiers.push(identifier);
        proof {
            assert forall|i: int| 0 <= i <= index implies #[trigger] taken_before(requests@, identifiers@, i)
                == taken_before(requests@, before_ids, i) by {
                assert(taken_before(requests@, identifiers@, i) =~= taken_before(requests@, before_ids, i)) by {
                    assert forall|j: int| 0 <= j < i implies identifiers@[j] == before_ids[j] by {}
                }
            }
            assert(taken_before(requests@, identifiers@, index + 1) =~= taken_before(requests@, before_ids, index as int).insert(
                (request.namespace@, request.parent, identifiers@[index as int]@),
            )) by {
                assert forall|j: int| 0 <= j < index implies identifiers@[j] == before_ids[j] by {}
            }
        }
        index = index + 1;
    }
    identifiers
}

} // verus!
