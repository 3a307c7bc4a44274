//! Deleting a library folder with everything below it: which resources go,
//! when the deletion must be refused, and the statements that remove the
//! resources' feature rows and the folder's nodes.

use vstd::prelude::*;

use crate::domain::library::{ResourceLibraryError, ResourceLibraryErrorKind, ResourceLibraryResult};
use crate::json::{contains_string, json_contains_string, json_view, JsonModel, JsonValue};
use crate::codec::scalars::owner_kind_text;
use crate::domain::catalog::ResourceOwnerKind;
use crate::schema::v5_to_v6::renames_for;
use crate::text::str_eq;

verus! {

/// A node of a folder's subtree, as the cascade query returns it: deepest
/// nodes first.
#[derive(Clone, Debug)]
pub struct FolderNode {
    pub node_id: String,
    pub namespace: String,
    pub path: String,
    pub node_kind: String,
    pub depth: i64,
}

/// A resource removed with its folder.
#[derive(Clone, Debug)]
pub struct DeleteResource {
    pub id: String,
    pub namespace: String,
    pub path: String,
}

/// The resources among `nodes`, in order.
pub open spec fn resources_of(nodes: Seq<FolderNode>) -> Seq<DeleteResource>
    decreases nodes.len(),
{
    if nodes.len() == 0 {
        Seq::empty()
    } else {
        let node = nodes.last();
        let rest = resources_of(nodes.drop_last());
        if node.node_kind@ == "resource"@ {
            rest.push(DeleteResource { id: node.node_id, namespace: node.namespace, path: node.path })
        } else {
            rest
        }
    }
}

/// The resources a folder deletion removes, given the folder's subtree; a
/// folder that does not exist has an empty subtree and is reported as not
/// found.
pub fn deletion_targets(nodes: &Vec<FolderNode>) -> (result: ResourceLibraryResult<Vec<DeleteResource>>)
    ensures
        nodes@.len() == 0 ==> (result matches Err(error) && {
            &&& error.spec_kind() == ResourceLibraryErrorKind::NotFound
            &&& error.spec_message() == "library folder does not exist"@
        }),
        nodes@.len() > 0 ==> (result matches Ok(resources) && resources@ == resources_of(nodes@)),
{
    if nodes.len() == 0 {
        return Err(ResourceLibraryError::new(
            ResourceLibraryErrorKind::NotFound,
            "library folder does not exist".to_owned(),
        ));
    }
    let mut resources: Vec<DeleteResource> = Vec::new();
    let mut index: usize = 0;
    while index < nodes.len()
        invariant
            index <= nodes@.len(),
            resources@ == resources_of(nodes@.take(index as int)),
        decreases nodes.len() - index,
    {
        let node = &nodes[index];
        assert(nodes@.take(index + 1).drop_last() =~= nodes@.take(index as int));
        proof {
            reveal_strlit("resource");
        }
        if str_eq(node.node_kind.as_str(), "resource") {
            resources.push(DeleteResource {
                id: node.node_id.clone(),
                namespace: node.namespace.clone(),
                path: node.path.clone(),
            });
        }
        index = index + 1;
    }
    assert(nodes@.take(nodes@.len() as int) =~= nodes@);
    Ok(resources)
}

/// `id` is the id of one of `resources`.
pub open spec fn is_deleted_id(resources: Seq<DeleteResource>, id: Seq<char>) -> bool {
    exists|i: int| 0 <= i < resources.len() && #[trigger] resources[i].id@ == id
}

fn contains_id(resources: &Vec<DeleteResource>, id: &str) -> (found: bool)
    ensures
        found == is_deleted_id(resources@, id@),
{
    let mut index: usize = 0;
    while index < resources.len()
        invariant
            index <= resources@.len(),
            forall|j: int| 0 <= j < index ==> #[trigger] resources@[j].id@ != id@,
        decreases resources.len() - index,
    {
        if str_eq(resources[index].id.as_str(), id) {
            return true;
        }
        index = index + 1;
    }
    false
}

/// The texts of `rows` (owner id, text) whose owner is not being deleted, in
/// order.
pub open spec fn surviving_texts_of(resources: Seq<DeleteResource>, rows: Seq<(String, String)>) -> Seq<String>
    decreases rows.len(),
{
    if rows.len() == 0 {
        Seq::empty()
    } else {
        let rest = surviving_texts_of(resources, rows.drop_last());
        if is_deleted_id(resources, rows.last().0@) {
            rest
        } else {
            rest.push(rows.last().1)
        }
    }
}

/// The editable prompt texts that stay after the deletion: those of `rows`
/// whose owner is not among `resources`.
pub fn surviving_texts(resources: &Vec<DeleteResource>, rows: &Vec<(String, String)>) -> (texts: Vec<String>)
    ensures
        texts@ == surviving_texts_of(resources@, rows@),
{
    let mut texts: Vec<String> = Vec::new();
    let mut index: usize = 0;
    while index < rows.len()
        invariant
            index <= rows@.len(),
            texts@ == surviving_texts_of(resources@, rows@.take(index as int)),
        decreases rows.len() - index,
    {
        assert(rows@.take(index + 1).drop_last() =~= rows@.take(index as int));
        if !contains_id(resources, rows[index].0.as_str()) {
            texts.push(rows[index].1.clone());
        }
        index = index + 1;
    }
    assert(rows@.take(rows@.len() as int) =~= rows@);
    texts
}

/// The paths of the prompt chunks among `resources`, in order.
pub open spec fn chunk_paths_of(resources: Seq<DeleteResource>) -> Seq<String>
    decreases resources.len(),
{
    if resources.len() == 0 {
        Seq::empty()
    } else {
        let rest = chunk_paths_of(resources.drop_last());
        if resources.last().namespace@ == "prompt_chunk"@ {
            rest.push(resources.last().path)
        } else {
            rest
        }
    }
}

/// The paths of the prompt chunks being deleted: the chunk keys that other
/// prompts must not reference.
pub fn chunk_paths(resources: &Vec<DeleteResource>) -> (paths: Vec<String>)
    ensures
        paths@ == chunk_paths_of(resources@),
{
    let mut paths: Vec<String> = Vec::new();
    let mut index: usize = 0;
    while index < resources.len()
        invariant
            index <= resources@.len(),
            paths@ == chunk_paths_of(resources@.take(index as int)),
        decreases resources.len() - index,
    {
        assert(resources@.take(index + 1).drop_last() =~= resources@.take(index as int));
        proof {
            reveal_strlit("prompt_chunk");
        }
        if str_eq(resources[index].namespace.as_str(), "prompt_chunk") {
            paths.push(resources[index].path.clone());
        }
        index = index + 1;
    }
    assert(resources@.take(resources@.len() as int) =~= resources@);
    paths
}

/// The id of one of `resources` appears as a string in `draft`.
pub open spec fn draft_names_resource(draft: JsonModel, resources: Seq<DeleteResource>) -> bool {
    exists|i: int| 0 <= i < resources.len() && #[trigger] contains_string(draft, resources[i].id@)
}

/// Whether the generation draft names one of the deleted resources.
pub fn draft_references_resources(draft: &JsonValue, resources: &Vec<DeleteResource>) -> (found: bool)
    ensures
        found == draft_names_resource(json_view(*draft), resources@),
{
    let mut index: usize = 0;
    while index < resources.len()
        invariant
            index <= resources@.len(),
            forall|j: int| 0 <= j < index ==> !contains_string(json_view(*draft), #[trigger] resources@[j].id@),
        decreases resources.len() - index,
    {
        if json_contains_string(draft, resources[index].id.as_str()) {
            return true;
        }
        index = index + 1;
    }
    false
}

/// What the deletion check learned of the draft: absent when there is no
/// generation draft; otherwise the draft and whether one of its strings
/// references a deleted chunk key.
pub struct DraftReferences {
    pub draft: JsonValue,
    pub references_chunk: bool,
}

/// Refuses a folder deletion that would break references: when a surviving
/// editable prompt references a deleted chunk (`texts_reference_chunk`), or
/// when the generation draft references a deleted chunk or names a deleted
/// resource.
pub fn ensure_delete_is_unreferenced(
    resources: &Vec<DeleteResource>,
    texts_reference_chunk: bool,
    draft: &Option<DraftReferences>,
) -> (result: ResourceLibraryResult<()>)
    ensures
        texts_reference_chunk ==> (result matches Err(error) && {
            &&& error.spec_kind() == ResourceLibraryErrorKind::Conflict
            &&& error.spec_message() == "folder contains prompt chunks referenced from outside the deleted subtree"@
        }),
        !texts_reference_chunk && (draft matches Some(found) && (found.references_chunk
            || draft_names_resource(json_view(found.draft), resources@))) ==> (result matches Err(error) && {
            &&& error.spec_kind() == ResourceLibraryErrorKind::Conflict
            &&& error.spec_message() == "folder contains resources referenced by the current generation draft"@
        }),
        !texts_reference_chunk && !(draft matches Some(found) && (found.references_chunk
            || draft_names_resource(json_view(found.draft), resources@))) ==> result is Ok,
{
    if texts_reference_chunk {
        return Err(ResourceLibraryError::new(
            ResourceLibraryErrorKind::Conflict,
            "folder contains prompt chunks referenced from outside the deleted subtree".to_owned(),
        ));
    }
    if let Some(found) = draft {
        if found.references_chunk || draft_references_resources(&found.draft, resources) {
            return Err(ResourceLibraryError::new(
                ResourceLibraryErrorKind::Conflict,
                "folder contains resources referenced by the current generation draft".to_owned(),
            ));
        }
    }
    Ok(())
}

/// A statement of a library deletion.
#[derive(Clone, Debug)]
pub enum LibraryDeleteStatement {
    DeletePromptChunk { chunk_id: String },
    DeletePromptPreset { preset_id: String },
    DeleteVibeEncodings { vibe_id: String },
    DeleteVibeDocument { vibe_id: String },
    /// Drops every resource link the owner holds.
    DeleteOwnerLinks { owner_kind: String, owner_local_id: String },
    DeleteNode { node_id: String },
}

/// What a [`LibraryDeleteStatement`] does, with its texts as character
/// sequences.
pub enum DeleteStatementView {
    DeletePromptChunk(Seq<char>),
    DeletePromptPreset(Seq<char>),
    DeleteVibeEncodings(Seq<char>),
    DeleteVibeDocument(Seq<char>),
    DeleteOwnerLinks(Seq<char>, Seq<char>),
    DeleteNode(Seq<char>),
}

impl LibraryDeleteStatement {
    /// What this statement does.
    pub open spec fn spec_view(&self) -> DeleteStatementView {
        match *self {
            LibraryDeleteStatement::DeletePromptChunk { chunk_id } => DeleteStatementView::DeletePromptChunk(chunk_id@),
            LibraryDeleteStatement::DeletePromptPreset { preset_id } => DeleteStatementView::DeletePromptPreset(preset_id@),
            LibraryDeleteStatement::DeleteVibeEncodings { vibe_id } => DeleteStatementView::DeleteVibeEncodings(vibe_id@),
            LibraryDeleteStatement::DeleteVibeDocument { vibe_id } => DeleteStatementView::DeleteVibeDocument(vibe_id@),
            LibraryDeleteStatement::DeleteOwnerLinks { owner_kind, owner_local_id } =>
                DeleteStatementView::DeleteOwnerLinks(owner_kind@, owner_local_id@),
            LibraryDeleteStatement::DeleteNode { node_id } => DeleteStatementView::DeleteNode(node_id@),
        }
    }
}

/// What each of `statements` does.
pub open spec fn statement_views(statements: Seq<LibraryDeleteStatement>) -> Seq<DeleteStatementView> {
    statements.map_values(|statement: LibraryDeleteStatement| statement.spec_view())
}

/// The statements that remove a deleted resource's feature rows and the
/// resource links they own: a prompt chunk's row and the links of
/// `chunk:<id>`, a preset's row and the links of `preset:<id>`, a vibe's
/// encodings, document and links; nothing for another namespace.
pub open spec fn feature_statements(resource: DeleteResource) -> Seq<DeleteStatementView> {
    if resource.namespace@ == "prompt_chunk"@ {
        seq![
            DeleteStatementView::DeletePromptChunk(resource.id@),
            DeleteStatementView::DeleteOwnerLinks("prompt_resource"@, "chunk:"@ + resource.id@),
        ]
    } else if resource.namespace@ == "main_preset"@ || resource.namespace@ == "character_preset"@ {
        seq![
            DeleteStatementView::DeletePromptPreset(resource.id@),
            DeleteStatementView::DeleteOwnerLinks("prompt_resource"@, "preset:"@ + resource.id@),
        ]
    } else if resource.namespace@ == "vibe"@ {
        seq![
            DeleteStatementView::DeleteVibeEncodings(resource.id@),
            DeleteStatementView::DeleteVibeDocument(resource.id@),
            DeleteStatementView::DeleteOwnerLinks("vibe"@, resource.id@),
        ]
    } else {
        Seq::empty()
    }
}

/// Deleting a library resource drops the resource links of the owner under
/// which that resource's links are stored: the vibe owner named by the
/// vibe's own id for a vibe, the prompt-resource owners `chunk:<id>` and
/// `preset:<id>` for chunks and presets. These are the owners, of the stored
/// owner kinds, that the move to library ids gives a resource's links, and
/// the vibe whose links are dropped is the vibe whose document is deleted.
pub proof fn lemma_deletion_drops_the_resources_own_links(resource: DeleteResource, old_id: Seq<char>)
    ensures
        ({
            let statements = feature_statements(resource);
            let renames = renames_for(old_id, resource.id@);
            &&& resource.namespace@ == "vibe"@ ==> {
                &&& statements.contains(DeleteStatementView::DeleteOwnerLinks(renames[2].0, renames[2].2))
                &&& renames[2].0 == owner_kind_text(ResourceOwnerKind::Vibe)
                &&& forall|i: int, j: int| #![trigger statements[i], statements[j]]
                    0 <= i < statements.len() && 0 <= j < statements.len() ==>
                    match (statements[i], statements[j]) {
                        (DeleteStatementView::DeleteVibeDocument(document), DeleteStatementView::DeleteOwnerLinks(_, owner)) =>
                            owner == document,
                        _ => true,
                    }
            }
            &&& resource.namespace@ == "prompt_chunk"@ ==> {
                &&& statements.contains(DeleteStatementView::DeleteOwnerLinks(renames[0].0, renames[0].2))
                &&& renames[0].0 == owner_kind_text(ResourceOwnerKind::PromptResource)
            }
            &&& (resource.namespace@ == "main_preset"@ || resource.namespace@ == "character_preset"@) ==> {
                &&& statements.contains(DeleteStatementView::DeleteOwnerLinks(renames[1].0, renames[1].2))
                &&& renames[1].0 == owner_kind_text(ResourceOwnerKind::PromptResource)
            }
        }),
{
    reveal_strlit("vibe");
    reveal_strlit("prompt_chunk");
    reveal_strlit("main_preset");
    reveal_strlit("character_preset");
    assert("vibe"@.len() == 4);
    assert("prompt_chunk"@.len() == 12);
    assert("main_preset"@.len() == 11);
    assert("character_preset"@.len() == 16);
    let statements = feature_statements(resource);
    let renames = renames_for(old_id, resource.id@);
    if resource.namespace@ == "vibe"@ {
        assert(statements[2] == DeleteStatementView::DeleteOwnerLinks("vibe"@, resource.id@));
        assert(renames[2] == ("vibe"@, old_id, resource.id@));
        assert(statements.contains(DeleteStatementView::DeleteOwnerLinks(renames[2].0, renames[2].2)));
        assert(renames[2].0 == owner_kind_text(ResourceOwnerKind::Vibe));
        assert(statements.len() == 3);
        assert forall|i: int, j: int| #![trigger statements[i], statements[j]]
            0 <= i < statements.len() && 0 <= j < statements.len() implies
            match (statements[i], statements[j]) {
                (DeleteStatementView::DeleteVibeDocument(document), DeleteStatementView::DeleteOwnerLinks(_, owner)) =>
                    owner == document,
                _ => true,
            } by {
            assert(statements[0] == DeleteStatementView::DeleteVibeEncodings(resource.id@));
            assert(statements[1] == DeleteStatementView::DeleteVibeDocument(resource.id@));
        }
    } else if resource.namespace@ == "prompt_chunk"@ {
        assert(statements[1] == DeleteStatementView::DeleteOwnerLinks("prompt_resource"@, "chunk:"@ + resource.id@));
    } else if resource.namespace@ == "main_preset"@ || resource.namespace@ == "character_preset"@ {
        assert(statements[1] == DeleteStatementView::DeleteOwnerLinks("prompt_resource"@, "preset:"@ + resource.id@));
    }
}

fn prefixed(prefix: &str, id: &String) -> (text: String)
    ensures
        text@ == prefix@ + id@,
{
    let mut text = prefix.to_owned();
    text.append(id.as_str());
    text
}

/// The statements that remove `resource`'s feature rows and links.
pub fn delete_feature_resource(resource: &DeleteResource) -> (statements: Vec<LibraryDeleteStatement>)
    ensures
        statement_views(statements@) == feature_statements(*resource),
{
    let mut statements: Vec<LibraryDeleteStatement> = Vec::new();
    let namespace = resource.namespace.as_str();
    if str_eq(namespace, "prompt_chunk") {
        statements.push(LibraryDeleteStatement::DeletePromptChunk { chunk_id: resource.id.clone() });
        statements.push(LibraryDeleteStatement::DeleteOwnerLinks {
            owner_kind: "prompt_resource".to_owned(),
            owner_local_id: prefixed("chunk:", &resource.id),
        });
    } else if str_eq(namespace, "main_preset") || str_eq(namespace, "character_preset") {
        statements.push(LibraryDeleteStatement::DeletePromptPreset { preset_id: resource.id.clone() });
        statements.push(LibraryDeleteStatement::DeleteOwnerLinks {
            owner_kind: "prompt_resource".to_owned(),
            owner_local_id: prefixed("preset:", &resource.id),
        });
    } else if str_eq(namespace, "vibe") {
        statements.push(LibraryDeleteStatement::DeleteVibeEncodings { vibe_id: resource.id.clone() });
        statements.push(LibraryDeleteStatement::DeleteVibeDocument { vibe_id: resource.id.clone() });
        statements.push(LibraryDeleteStatement::DeleteOwnerLinks {
            owner_kind: "vibe".to_owned(),
            owner_local_id: resource.id.clone(),
        });
    }
    assert(statement_views(statements@) =~= feature_statements(*resource));
    statements
}

/// The feature statements of each of `resources`, in order.
pub open spec fn all_feature_statements(resources: Seq<DeleteResource>) -> Seq<DeleteStatementView>
    decreases resources.len(),
{
    if resources.len() == 0 {
        Seq::empty()
    } else {
        all_feature_statements(resources.drop_last()) + feature_statements(resources.last())
    }
}

/// Deletions of every node of `nodes`, in order.
pub open spec fn node_deletions(nodes: Seq<FolderNode>) -> Seq<DeleteStatementView> {
    nodes.map_values(|node: FolderNode| DeleteStatementView::DeleteNode(node.node_id@))
}

/// The writes of a folder deletion that passed its reference check: the
/// feature rows and links of every deleted resource, then every node of the
/// subtree, deepest first.
pub fn delete_folder_cascade(resources: &Vec<DeleteResource>, nodes: &Vec<FolderNode>) -> (statements: Vec<LibraryDeleteStatement>)
    ensures
        statement_views(statements@) == all_feature_statements(resources@) + node_deletions(nodes@),
{
    let mut statements: Vec<LibraryDeleteStatement> = Vec::new();
    let mut index: usize = 0;
    while index < resources.len()
        invariant
            index <= resources@.len(),
            statement_views(statements@) == all_feature_statements(resources@.take(index as int)),
        decreases resources.len() - index,
    {
        let feature = delete_feature_resource(&resources[index]);
        let ghost before = statements@;
        let mut remaining = feature;
        let ghost added = remaining@;
        assert(added.len() == remaining.len());
        let mut moved: usize = 0;
        while remaining.len() > 0
            invariant
                moved <= added.len(),
                added.len() <= usize::MAX,
                remaining@ == added.skip(moved as int),
                statements@ == before + added.take(moved as int),
            decreases remaining.len(),
        {
            assert(moved < added.len());
            let statement = remaining.remove(0);
            statements.push(statement);
            proof {
                assert(added.take(moved + 1) =~= added.take(moved as int).push(added[moved as int]));
                assert(remaining@ =~= added.skip(moved + 1));
            }
            moved = moved + 1;
        }
        proof {
            assert(added.take(moved as int) =~= added);
            assert(resources@.take(index + 1).drop_last() =~= resources@.take(index as int));
            assert(statement_views(statements@) =~= statement_views(before) + statement_views(added));
        }
        index = index + 1;
    }
    assert(resources@.take(resources@.len() as int) =~= resources@);
    let ghost features = statements@;
    let mut node_index: usize = 0;
    while node_index < nodes.len()
        invariant
            node_index <= nodes@.len(),
            statements@ == features + statements@.skip(features.len() as int),
            statement_views(features) == all_feature_statements(resources@),
            statement_views(statements@.skip(features.len() as int)) == node_deletions(nodes@.take(node_index as int)),
        decreases nodes.len() - node_index,
    {
        let ghost before = statements@;
        statements.push(LibraryDeleteStatement::DeleteNode { node_id: nodes[node_index].node_id.clone() });
        proof {
            assert(statements@.skip(features.len() as int) =~= before.skip(features.len() as int).push(
                LibraryDeleteStatement::DeleteNode { node_id: nodes@[node_index as int].node_id },
            ));
            assert(node_deletions(nodes@.take(node_index + 1)) =~= node_deletions(nodes@.take(node_index as int)).push(
                DeleteStatementView::DeleteNode(nodes@[node_index as int].node_id@),
            ));
            assert(statement_views(statements@.skip(features.len() as int)) =~= node_deletions(nodes@.take(node_index + 1)));
            assert(statements@ =~= features + statements@.skip(features.len() as int));
        }
        node_index = node_index + 1;
    }
    assert(nodes@.take(nodes@.len() as int) =~= nodes@);
    assert(statement_views(statements@) =~= statement_views(features) + statement_views(statements@.skip(features.len() as int)));
    statements
}

} // verus!
