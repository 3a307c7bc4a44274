//! The gallery index: the filter and page of a listing, and the hard deletion
//! of items, whose statements remove an item, its artifact, its run outputs
//! and its ownership of resources in one transaction.

use vstd::prelude::*;

use crate::codec::gallery::{safety_label_as_str, safety_label_text};
use crate::codec::scalars::{
    artifact_kind_as_str, artifact_kind_text, safety_override_as_str, safety_override_text, source_kind_as_str,
    source_kind_text,
};
use crate::domain::gallery::{GalleryError, GalleryErrorKind, GalleryQuery, GalleryResult};
use crate::domain::safety::SafetyLabel;

verus! {

/// The transient owner that held an item's resources before the gallery did
/// (a job or an import staging area).
#[derive(Clone, Debug)]
pub struct GalleryTransientOwner {
    pub kind: String,
    pub local_id: String,
}

/// What to delete for one gallery item.
#[derive(Clone, Debug)]
pub struct GalleryHardDeletePlan {
    pub item_id: String,
    pub artifact_id: String,
    pub resource_ids: Vec<String>,
    pub transient_owner: GalleryTransientOwner,
    pub force_delete_pending: bool,
}

/// One statement of a hard deletion.
#[derive(Clone, Debug)]
pub enum GalleryDeleteStatement {
    /// Drops the gallery item's primary link to a resource.
    UnlinkGalleryItem { resource_id: String, item_id: String },
    /// Drops the transient owner's primary link to a resource.
    UnlinkTransientOwner { resource_id: String, owner_kind: String, owner_local_id: String },
    /// Marks a resource that nothing links any more for deletion: always when
    /// `force` holds, otherwise only a job-scoped or cache resource.
    MarkDeletePendingIfUnowned { resource_id: String, force: bool },
    /// Deletes the run outputs that point at the item.
    DeleteRunOutputs { item_id: String },
    /// Deletes the item's artifact.
    DeleteArtifact { artifact_id: String },
    /// Deletes the item's row; the rows it removes are what the deletion counts.
    DeleteGalleryItem { item_id: String },
}

/// The statements that release each of `resource_ids` from the plan's owners.
pub open spec fn resource_statements(resource_ids: Seq<String>, plan: GalleryHardDeletePlan) -> Seq<GalleryDeleteStatement>
    decreases resource_ids.len(),
{
    if resource_ids.len() == 0 {
        Seq::empty()
    } else {
        let resource_id = resource_ids.last();
        resource_statements(resource_ids.drop_last(), plan) + seq![
            GalleryDeleteStatement::UnlinkGalleryItem { resource_id, item_id: plan.item_id },
            GalleryDeleteStatement::UnlinkTransientOwner {
                resource_id,
                owner_kind: plan.transient_owner.kind,
                owner_local_id: plan.transient_owner.local_id,
            },
            GalleryDeleteStatement::MarkDeletePendingIfUnowned { resource_id, force: plan.force_delete_pending },
        ]
    }
}

/// The statements of one plan: release every resource, then delete the run
/// outputs, the artifact and the item.
pub open spec fn plan_statements(plan: GalleryHardDeletePlan) -> Seq<GalleryDeleteStatement> {
    resource_statements(plan.resource_ids@, plan) + seq![
        GalleryDeleteStatement::DeleteRunOutputs { item_id: plan.item_id },
        GalleryDeleteStatement::DeleteArtifact { artifact_id: plan.artifact_id },
        GalleryDeleteStatement::DeleteGalleryItem { item_id: plan.item_id },
    ]
}

/// The statements of every plan, plan after plan.
pub open spec fn plans_statements(plans: Seq<GalleryHardDeletePlan>) -> Seq<GalleryDeleteStatement>
    decreases plans.len(),
{
    if plans.len() == 0 {
        Seq::empty()
    } else {
        plans_statements(plans.drop_last()) + plan_statements(plans.last())
    }
}

fn release_resource(plan: &GalleryHardDeletePlan, index: usize, statements: &mut Vec<GalleryDeleteStatement>)
    requires
        index < plan.resource_ids@.len(),
    ensures
        final(statements)@ == old(statements)@
            + (resource_statements(plan.resource_ids@.take(index + 1), *plan)
                .skip(resource_statements(plan.resource_ids@.take(index as int), *plan).len() as int)),
{
    let resource_id = &plan.resource_ids[index];
    let ghost ids = plan.resource_ids@.take(index + 1);
    assert(ids.drop_last() =~= plan.resource_ids@.take(index as int));
    statements.push(GalleryDeleteStatement::UnlinkGalleryItem {
        resource_id: resource_id.clone(),
        item_id: plan.item_id.clone(),
    });
    statements.push(GalleryDeleteStatement::UnlinkTransientOwner {
        resource_id: resource_id.clone(),
        owner_kind: plan.transient_owner.kind.clone(),
        owner_local_id: plan.transient_owner.local_id.clone(),
    });
    statements.push(GalleryDeleteStatement::MarkDeletePendingIfUnowned {
        resource_id: resource_id.clone(),
        force: plan.force_delete_pending,
    });
    proof {
        let before = resource_statements(plan.resource_ids@.take(index as int), *plan);
        let after = resource_statements(ids, *plan);
        assert(after.skip(before.len() as int) =~= final(statements)@.skip(old(statements)@.len() as int));
        assert(final(statements)@ =~= old(statements)@ + after.skip(before.len() as int));
    }
}

fn push_plan_statements(plan: &GalleryHardDeletePlan, statements: &mut Vec<GalleryDeleteStatement>)
    ensures
        final(statements)@ == old(statements)@ + plan_statements(*plan),
{
    let ghost start = statements@;
    let mut index: usize = 0;
    while index < plan.resource_ids.len()
        invariant
            index <= plan.resource_ids@.len(),
            statements@ == start + resource_statements(plan.resource_ids@.take(index as int), *plan),
        decreases plan.resource_ids.len() - index,
    {
        let ghost before = statements@;
        release_resource(plan, index, statements);
        proof {
            let prefix = resource_statements(plan.resource_ids@.take(index as int), *plan);
            let extended = resource_statements(plan.resource_ids@.take(index + 1), *plan);
            let ids = plan.resource_ids@.take(index + 1);
            assert(ids.drop_last() =~= plan.resource_ids@.take(index as int));
            assert(extended =~= prefix + extended.skip(prefix.len() as int));
            assert(statements@ =~= start + extended);
        }
        index = index + 1;
    }
    assert(plan.resource_ids@.take(plan.resource_ids@.len() as int) =~= plan.resource_ids@);
    statements.push(GalleryDeleteStatement::DeleteRunOutputs { item_id: plan.item_id.clone() });
    statements.push(GalleryDeleteStatement::DeleteArtifact { artifact_id: plan.artifact_id.clone() });
    statements.push(GalleryDeleteStatement::DeleteGalleryItem { item_id: plan.item_id.clone() });
    assert(statements@ =~= start + plan_statements(*plan));
}

/// The statements that hard-delete the gallery items of `plans`, in order.
/// No plan, no statement: an empty request touches nothing.
pub fn hard_delete_statements(plans: &Vec<GalleryHardDeletePlan>) -> (statements: Vec<GalleryDeleteStatement>)
    ensures
        statements@ == plans_statements(plans@),
{
    let mut statements = Vec::new();
    let mut index: usize = 0;
    while index < plans.len()
        invariant
            index <= plans@.len(),
            statements@ == plans_statements(plans@.take(index as int)),
        decreases plans.len() - index,
    {
        push_plan_statements(&plans[index], &mut statements);
        assert(plans@.take(index + 1).drop_last() =~= plans@.take(index as int));
        index = index + 1;
    }
    assert(plans@.take(plans@.len() as int) =~= plans@);
    statements
}

/// The rows the item deletions of `statements` removed, given the rows each
/// statement affected.
pub open spec fn deleted_items(statements: Seq<GalleryDeleteStatement>, affected: Seq<usize>) -> int
    decreases statements.len(),
{
    if statements.len() == 0 {
        0
    } else {
        deleted_items(statements.drop_last(), affected.take(statements.len() - 1)) + (
            if statements.last() is DeleteGalleryItem { affected[statements.len() - 1] as int } else { 0 }
        )
    }
}

/// Counts the gallery rows a hard deletion removed: the rows affected by its
/// item deletions.
pub fn count_deleted_items(statements: &Vec<GalleryDeleteStatement>, affected: &Vec<usize>) -> (deleted: usize)
    requires
        affected@.len() == statements@.len(),
        deleted_items(statements@, affected@) <= usize::MAX,
    ensures
        deleted == deleted_items(statements@, affected@),
{
    let mut deleted: usize = 0;
    let mut index: usize = 0;
    while index < statements.len()
        invariant
            index <= statements@.len(),
            affected@.len() == statements@.len(),
            deleted_items(statements@, affected@) <= usize::MAX,
            deleted == deleted_items(statements@.take(index as int), affected@.take(index as int)),
        decreases statements.len() - index,
    {
        proof {
            let s = statements@.take(index + 1);
            let a = affected@.take(index + 1);
            assert(s.drop_last() =~= statements@.take(index as int));
            assert(a.take(index as int) =~= affected@.take(index as int));
            lemma_deleted_items_monotone(statements@, affected@, index + 1);
        }
        if let GalleryDeleteStatement::DeleteGalleryItem { .. } = &statements[index] {
            deleted = deleted + affected[index];
        }
        index = index + 1;
    }
    assert(statements@.take(statements@.len() as int) =~= statements@);
    assert(affected@.take(affected@.len() as int) =~= affected@);
    deleted
}

proof fn lemma_deleted_items_monotone(statements: Seq<GalleryDeleteStatement>, affected: Seq<usize>, count: int)
    requires
        0 <= count <= statements.len(),
        affected.len() == statements.len(),
    ensures
        deleted_items(statements.take(count), affected.take(count)) <= deleted_items(statements, affected),
    decreases statements.len() - count,
{
    if count < statements.len() {
        lemma_deleted_items_monotone(statements, affected, count + 1);
        let s = statements.take(count + 1);
        let a = affected.take(count + 1);
        assert(s.drop_last() =~= statements.take(count));
        assert(a.take(count) =~= affected.take(count));
    } else {
        assert(statements.take(count) =~= statements);
        assert(affected.take(count) =~= affected);
    }
}

/// Each plan ends by deleting its run outputs, its artifact and then its item,
/// after releasing every one of its resources.
pub proof fn lemma_plan_deletes_item_last(plan: GalleryHardDeletePlan)
    ensures
        ({
            let statements = plan_statements(plan);
            let released = resource_statements(plan.resource_ids@, plan).len();
            &&& released == 3 * plan.resource_ids@.len()
            &&& statements.len() == released + 3
            &&& statements.last() == (GalleryDeleteStatement::DeleteGalleryItem { item_id: plan.item_id })
            &&& statements[statements.len() - 2] == (GalleryDeleteStatement::DeleteArtifact { artifact_id: plan.artifact_id })
        }),
{
    lemma_resource_statements_len(plan.resource_ids@, plan);
}

/// Every plan deletes the run outputs that point at the very item it
/// deletes: right before its artifact and item deletions comes the deletion
/// of the run outputs of the item that the final statement removes, and in a
/// deletion of several items each item's run outputs are deleted.
pub proof fn lemma_plans_delete_their_run_outputs(plans: Seq<GalleryHardDeletePlan>, k: int)
    requires
        0 <= k < plans.len(),
    ensures
        ({
            let statements = plan_statements(plans[k]);
            &&& statements[statements.len() - 3] matches GalleryDeleteStatement::DeleteRunOutputs { item_id: outputs_of }
                && statements.last() matches GalleryDeleteStatement::DeleteGalleryItem { item_id: deleted }
                && outputs_of == deleted && deleted == plans[k].item_id
        }),
        plans_statements(plans).contains(GalleryDeleteStatement::DeleteRunOutputs { item_id: plans[k].item_id }),
    decreases plans.len(),
{
    lemma_resource_statements_len(plans[k].resource_ids@, plans[k]);
    let statements = plan_statements(plans[k]);
    let n = resource_statements(plans[k].resource_ids@, plans[k]).len();
    assert(statements[n as int] == GalleryDeleteStatement::DeleteRunOutputs { item_id: plans[k].item_id });
    if k == plans.len() - 1 {
        let earlier = plans_statements(plans.drop_last());
        assert(plans_statements(plans)[(earlier.len() + n) as int] == statements[n as int]);
    } else {
        let rest = plans.drop_last();
        assert(rest[k] == plans[k]);
        lemma_plans_delete_their_run_outputs(rest, k);
        let earlier = plans_statements(rest);
        let i = choose|i: int| 0 <= i < earlier.len()
            && earlier[i] == GalleryDeleteStatement::DeleteRunOutputs { item_id: plans[k].item_id };
        assert(plans_statements(plans)[i] == earlier[i]);
    }
}

proof fn lemma_resource_statements_len(resource_ids: Seq<String>, plan: GalleryHardDeletePlan)
    ensures
        resource_statements(resource_ids, plan).len() == 3 * resource_ids.len(),
    decreases resource_ids.len(),
{
    if resource_ids.len() > 0 {
        lemma_resource_statements_len(resource_ids.drop_last(), plan);
    }
}

/// The filter of a gallery listing, as the stored columns are compared with it.
#[derive(Clone, Debug, PartialEq, Eq)]
pub struct GalleryFilter {
    pub artifact_kind: Option<&'static str>,
    pub source_kind: Option<&'static str>,
    pub manual_safety_override: Option<&'static str>,
    /// Leave out items whose manual override hides them, unless an override
    /// is asked for.
    pub exclude_hidden: bool,
    pub safety_label: Option<&'static str>,
}

/// The stored text of an optional value, given the text of each value.
pub open spec fn optional_text<T>(value: Option<T>, text: spec_fn(T) -> Seq<char>) -> Option<Seq<char>> {
    match value {
        Some(v) => Some(text(v)),
        None => None,
    }
}

/// The texts of an optional stored text.
pub open spec fn optional_view(value: Option<&'static str>) -> Option<Seq<char>> {
    match value {
        Some(text) => Some(text@),
        None => None,
    }
}

/// Hidden items are left out of a listing unless it asks for the hidden label.
pub open spec fn excludes_hidden(query: GalleryQuery) -> bool {
    query.safety_label != Some(SafetyLabel::Hidden)
}

/// The filter of `query`: each asked-for value by its stored text.
pub fn gallery_filter(query: &GalleryQuery) -> (filter: GalleryFilter)
    ensures
        optional_view(filter.artifact_kind) == optional_text(query.artifact_kind, |v| artifact_kind_text(v)),
        optional_view(filter.source_kind) == optional_text(query.source_kind, |v| source_kind_text(v)),
        optional_view(filter.manual_safety_override)
            == optional_text(query.manual_safety_override, |v| safety_override_text(v)),
        filter.exclude_hidden == excludes_hidden(*query),
        optional_view(filter.safety_label) == optional_text(query.safety_label, |v| safety_label_text(v)),
{
    let artifact_kind = match query.artifact_kind {
        Some(kind) => Some(artifact_kind_as_str(kind)),
        None => None,
    };
    let source_kind = match query.source_kind {
        Some(kind) => Some(source_kind_as_str(kind)),
        None => None,
    };
    let manual_safety_override = match query.manual_safety_override {
        Some(value) => Some(safety_override_as_str(value)),
        None => None,
    };
    let exclude_hidden = match query.safety_label {
        Some(SafetyLabel::Hidden) => false,
        _ => true,
    };
    let safety_label = match query.safety_label {
        Some(label) => Some(safety_label_as_str(label)),
        None => None,
    };
    GalleryFilter { artifact_kind, source_kind, manual_safety_override, exclude_hidden, safety_label }
}

/// The message of a number that does not fit where it goes.
pub open spec fn range_message() -> Seq<char> {
    "out of range integral type conversion attempted"@
}

fn range_error() -> (error: GalleryError)
    ensures
        error.spec_kind() == GalleryErrorKind::Repository,
        error.spec_message() == range_message(),
{
    GalleryError::new(GalleryErrorKind::Repository, "out of range integral type conversion attempted".to_owned())
}

/// The limit and offset of a listing as SQLite takes them; either one above
/// `i64::MAX` is refused.
pub fn gallery_page(query: &GalleryQuery) -> (result: GalleryResult<(i64, i64)>)
    ensures
        query.limit <= i64::MAX && query.offset <= i64::MAX
            ==> result == Ok::<(i64, i64), GalleryError>((query.limit as i64, query.offset as i64)),
        !(query.limit <= i64::MAX && query.offset <= i64::MAX) ==> (result matches Err(error)
            && error.spec_kind() == GalleryErrorKind::Repository && error.spec_message() == range_message()),
{
    if query.limit as u64 > 9223372036854775807u64 {
        return Err(range_error());
    }
    if query.offset as u64 > 9223372036854775807u64 {
        return Err(range_error());
    }
    Ok((query.limit as i64, query.offset as i64))
}

/// The number of items SQLite counted; a count outside `usize` is refused.
pub fn gallery_count(count: i64) -> (result: GalleryResult<usize>)
    ensures
        0 <= count <= usize::MAX ==> result == Ok::<usize, GalleryError>(count as usize),
        !(0 <= count <= usize::MAX) ==> (result matches Err(error)
            && error.spec_kind() == GalleryErrorKind::Repository && error.spec_message() == range_message()),
{
    if count < 0 {
        return Err(range_error());
    }
    if count as u64 > usize::MAX as u64 {
        return Err(range_error());
    }
    Ok(count as usize)
}

/// The message when an item to relabel does not exist.
pub open spec fn missing_item_message() -> Seq<char> {
    "gallery item does not exist"@
}

/// The error when an item to relabel does not exist.
pub fn missing_item_error() -> (error: GalleryError)
    ensures
        error.spec_kind() == GalleryErrorKind::NotFound,
        error.spec_message() == missing_item_message(),
{
    GalleryError::new(GalleryErrorKind::NotFound, "gallery item does not exist".to_owned())
}

} // verus!
