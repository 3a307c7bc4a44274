//! A resource catalog transaction: changes are collected in memory and
//! written together when the transaction commits. Links, readiness marks,
//! deletion marks and orphan-marker removals are sets; records and variants
//! are inserted in the order they were added.

use vstd::prelude::*;

use crate::domain::catalog::{ResourceLink, ResourceRecord, ResourceState, ResourceVariant};
use crate::error::{DatabaseError, DatabaseErrorKind, DatabaseResult};
use crate::text::str_eq;

verus! {

/// A write of a committing catalog transaction.
#[derive(Debug)]
pub enum CatalogStatement {
    InsertRecord(ResourceRecord),
    DeleteLink(ResourceLink),
    /// Inserts the link unless it is already stored.
    InsertLinkIfAbsent(ResourceLink),
    MarkDeletePending(String),
    InsertVariant(ResourceVariant),
    ClearOrphanMarker(String),
}

/// The texts of `values`.
pub open spec fn text_views(values: Seq<String>) -> Seq<Seq<char>> {
    values.map_values(|value: String| value@)
}

/// The keys of `links`.
pub open spec fn link_keys(links: Seq<ResourceLink>) -> Seq<(Seq<char>, crate::domain::catalog::ResourceOwnerKind, Seq<char>, crate::domain::catalog::ResourceRelation)> {
    links.map_values(|link: ResourceLink| link.spec_key())
}

/// The changes a catalog transaction has collected.
#[derive(Debug)]
pub struct DatabaseResourceCatalogTransaction {
    pending_records: Vec<ResourceRecord>,
    links_to_attach: Vec<ResourceLink>,
    links_to_detach: Vec<ResourceLink>,
    variants: Vec<ResourceVariant>,
    ready_records: Vec<String>,
    delete_pending: Vec<String>,
    orphan_markers_to_clear: Vec<String>,
}

fn same_link(left: &ResourceLink, right: &ResourceLink) -> (same: bool)
    ensures
        same == (left.spec_key() == right.spec_key()),
{
    str_eq(left.resource_id.as_str(), right.resource_id.as_str())
        && left.owner.kind == right.owner.kind
        && str_eq(left.owner.local_id.as_str(), right.owner.local_id.as_str())
        && left.relation == right.relation
}

/// No two elements of `values` are equal.
pub open spec fn all_distinct<T>(values: Seq<T>) -> bool {
    forall|i: int, j: int| 0 <= i < j < values.len() ==> values[i] != values[j]
}

/// Adding a link only when no link with its key is held keeps the held
/// links' keys distinct, so the links to attach or detach form a set.
pub proof fn lemma_link_set_stays_distinct(links: Seq<ResourceLink>, link: ResourceLink)
    requires
        all_distinct(link_keys(links)),
    ensures
        !link_keys(links).contains(link.spec_key()) ==> all_distinct(link_keys(links.push(link))),
{
    if !link_keys(links).contains(link.spec_key()) {
        let pushed = link_keys(links.push(link));
        assert forall|i: int, j: int| 0 <= i < j < pushed.len() implies pushed[i] != pushed[j] by {
            if j == links.len() {
                assert(pushed[i] == link_keys(links)[i]);
            } else {
                assert(pushed[i] == link_keys(links)[i]);
                assert(pushed[j] == link_keys(links)[j]);
            }
        }
    }
}

/// Adding a text only when it is not held keeps the held texts distinct, so
/// the ready records, deletion marks and orphan markers form sets.
pub proof fn lemma_text_set_stays_distinct(values: Seq<String>, text: String)
    requires
        all_distinct(text_views(values)),
    ensures
        !text_views(values).contains(text@) ==> all_distinct(text_views(values.push(text))),
{
    if !text_views(values).contains(text@) {
        let pushed = text_views(values.push(text));
        assert forall|i: int, j: int| 0 <= i < j < pushed.len() implies pushed[i] != pushed[j] by {
            if j == values.len() {
                assert(pushed[i] == text_views(values)[i]);
            } else {
                assert(pushed[i] == text_views(values)[i]);
                assert(pushed[j] == text_views(values)[j]);
            }
        }
    }
}

fn add_link(links: &mut Vec<ResourceLink>, link: ResourceLink)
    ensures
        link_keys(old(links)@).contains(link.spec_key()) ==> final(links)@ == old(links)@,
        !link_keys(old(links)@).contains(link.spec_key()) ==> final(links)@ == old(links)@.push(link),
{
    let mut index: usize = 0;
    while index < links.len()
        invariant
            index <= links@.len(),
            forall|j: int| 0 <= j < index ==> #[trigger] links@[j].spec_key() != link.spec_key(),
        decreases links.len() - index,
    {
        if same_link(&links[index], &link) {
            assert(link_keys(links@)[index as int] == link.spec_key());
            return;
        }
        index = index + 1;
    }
    assert(!link_keys(links@).contains(link.spec_key())) by {
        if link_keys(links@).contains(link.spec_key()) {
            let j = choose|j: int| 0 <= j < link_keys(links@).len() && link_keys(links@)[j] == link.spec_key();
            assert(links@[j].spec_key() == link.spec_key());
        }
    }
    links.push(link);
}

fn contains_text(values: &Vec<String>, text: &str) -> (found: bool)
    ensures
        found == text_views(values@).contains(text@),
{
    let mut index: usize = 0;
    while index < values.len()
        invariant
            index <= values@.len(),
            forall|j: int| 0 <= j < index ==> #[trigger] values@[j]@ != text@,
        decreases values.len() - index,
    {
        if str_eq(values[index].as_str(), text) {
            assert(text_views(values@)[index as int] == text@);
            return true;
        }
        index = index + 1;
    }
    assert(!text_views(values@).contains(text@)) by {
        if text_views(values@).contains(text@) {
            let j = choose|j: int| 0 <= j < text_views(values@).len() && text_views(values@)[j] == text@;
            assert(values@[j]@ == text@);
        }
    }
    false
}

fn add_text(values: &mut Vec<String>, text: String)
    ensures
        text_views(old(values)@).contains(text@) ==> final(values)@ == old(values)@,
        !text_views(old(values)@).contains(text@) ==> final(values)@ == old(values)@.push(text),
{
    if !contains_text(values, text.as_str()) {
        values.push(text);
    }
}

/// `record` as committed: ready when its id was marked ready.
pub open spec fn committed_record(record: ResourceRecord, ready: Seq<Seq<char>>) -> ResourceRecord {
    if ready.contains(record.id@) {
        ResourceRecord { state: ResourceState::Ready, ..record }
    } else {
        record
    }
}

/// Links of `links` whose key is not in `detached`.
pub open spec fn count_kept(links: Seq<ResourceLink>, detached: Seq<ResourceLink>) -> nat
    decreases links.len(),
{
    if links.len() == 0 {
        0
    } else {
        count_kept(links.drop_last(), detached) + if link_keys(detached).contains(links.last().spec_key()) { 0nat } else { 1nat }
    }
}

/// Links of `links` on resource `id`.
pub open spec fn count_on_resource(links: Seq<ResourceLink>, id: Seq<char>) -> nat
    decreases links.len(),
{
    if links.len() == 0 {
        0
    } else {
        count_on_resource(links.drop_last(), id) + if links.last().resource_id@ == id { 1nat } else { 0nat }
    }
}

proof fn lemma_count_kept_bound(links: Seq<ResourceLink>, detached: Seq<ResourceLink>)
    ensures
        count_kept(links, detached) <= links.len(),
    decreases links.len(),
{
    if links.len() > 0 {
        lemma_count_kept_bound(links.drop_last(), detached);
    }
}

proof fn lemma_count_on_resource_bound(links: Seq<ResourceLink>, id: Seq<char>)
    ensures
        count_on_resource(links, id) <= links.len(),
    decreases links.len(),
{
    if links.len() > 0 {
        lemma_count_on_resource_bound(links.drop_last(), id);
    }
}

impl DatabaseResourceCatalogTransaction {
    /// Records to insert, in order.
    pub closed spec fn spec_pending_records(&self) -> Seq<ResourceRecord> {
        self.pending_records@
    }

    /// Links to attach, each once.
    pub closed spec fn spec_links_to_attach(&self) -> Seq<ResourceLink> {
        self.links_to_attach@
    }

    /// Links to detach, each once.
    pub closed spec fn spec_links_to_detach(&self) -> Seq<ResourceLink> {
        self.links_to_detach@
    }

    /// Variants to insert, in order.
    pub closed spec fn spec_variants(&self) -> Seq<ResourceVariant> {
        self.variants@
    }

    /// Resources to insert as ready, each once.
    pub closed spec fn spec_ready_records(&self) -> Seq<String> {
        self.ready_records@
    }

    /// Resources to mark for deletion, each once.
    pub closed spec fn spec_delete_pending(&self) -> Seq<String> {
        self.delete_pending@
    }

    /// Orphan markers to clear, each once.
    pub closed spec fn spec_orphan_markers_to_clear(&self) -> Seq<String> {
        self.orphan_markers_to_clear@
    }

    /// An empty transaction.
    pub fn new() -> (transaction: Self)
        ensures
            transaction.spec_pending_records().len() == 0,
            transaction.spec_links_to_attach().len() == 0,
            transaction.spec_links_to_detach().len() == 0,
            transaction.spec_variants().len() == 0,
            transaction.spec_ready_records().len() == 0,
            transaction.spec_delete_pending().len() == 0,
            transaction.spec_orphan_markers_to_clear().len() == 0,
    {
        DatabaseResourceCatalogTransaction {
            pending_records: Vec::new(),
            links_to_attach: Vec::new(),
            links_to_detach: Vec::new(),
            variants: Vec::new(),
            ready_records: Vec::new(),
            delete_pending: Vec::new(),
            orphan_markers_to_clear: Vec::new(),
        }
    }

    /// Queues a record for insertion.
    pub fn insert_pending_record(&mut self, record: ResourceRecord)
        ensures
            final(self).spec_pending_records() == old(self).spec_pending_records().push(record),
            final(self).spec_links_to_attach() == old(self).spec_links_to_attach(),
            final(self).spec_links_to_detach() == old(self).spec_links_to_detach(),
            final(self).spec_variants() == old(self).spec_variants(),
            final(self).spec_ready_records() == old(self).spec_ready_records(),
            final(self).spec_delete_pending() == old(self).spec_delete_pending(),
            final(self).spec_orphan_markers_to_clear() == old(self).spec_orphan_markers_to_clear(),
    {
        self.pending_records.push(record);
    }

    /// Adds a link to those to attach (once).
    pub fn attach_owner(&mut self, link: ResourceLink)
        ensures
            link_keys(old(self).spec_links_to_attach()).contains(link.spec_key()) ==>
                final(self).spec_links_to_attach() == old(self).spec_links_to_attach(),
            !link_keys(old(self).spec_links_to_attach()).contains(link.spec_key()) ==>
                final(self).spec_links_to_attach() == old(self).spec_links_to_attach().push(link),
            final(self).spec_pending_records() == old(self).spec_pending_records(),
            final(self).spec_links_to_detach() == old(self).spec_links_to_detach(),
            final(self).spec_variants() == old(self).spec_variants(),
            final(self).spec_ready_records() == old(self).spec_ready_records(),
            final(self).spec_delete_pending() == old(self).spec_delete_pending(),
            final(self).spec_orphan_markers_to_clear() == old(self).spec_orphan_markers_to_clear(),
    {
        add_link(&mut self.links_to_attach, link);
    }

    /// Adds a link to those to detach (once).
    pub fn detach_owner(&mut self, link: ResourceLink)
        ensures
            link_keys(old(self).spec_links_to_detach()).contains(link.spec_key()) ==>
                final(self).spec_links_to_detach() == old(self).spec_links_to_detach(),
            !link_keys(old(self).spec_links_to_detach()).contains(link.spec_key()) ==>
                final(self).spec_links_to_detach() == old(self).spec_links_to_detach().push(link),
            final(self).spec_pending_records() == old(self).spec_pending_records(),
            final(self).spec_links_to_attach() == old(self).spec_links_to_attach(),
            final(self).spec_variants() == old(self).spec_variants(),
            final(self).spec_ready_records() == old(self).spec_ready_records(),
            final(self).spec_delete_pending() == old(self).spec_delete_pending(),
            final(self).spec_orphan_markers_to_clear() == old(self).spec_orphan_markers_to_clear(),
    {
        add_link(&mut self.links_to_detach, link);
    }

    /// The owner links of resource `id` once this transaction commits: the
    /// stored links `persisted` that are not being detached, plus the links
    /// being attached to it.
    pub fn count_owner_links(&self, id: &str, persisted: &Vec<ResourceLink>) -> (count: usize)
        requires
            persisted@.len() + self.spec_links_to_attach().len() <= usize::MAX,
        ensures
            count == count_kept(persisted@, self.spec_links_to_detach())
                + count_on_resource(self.spec_links_to_attach(), id@),
    {
        let mut kept: usize = 0;
        let mut index: usize = 0;
        while index < persisted.len()
            invariant
                index <= persisted@.len(),
                kept == count_kept(persisted@.take(index as int), self.links_to_detach@),
                kept <= index,
            decreases persisted.len() - index,
        {
            assert(persisted@.take(index + 1).drop_last() =~= persisted@.take(index as int));
            let mut detached = false;
            let mut probe: usize = 0;
            while probe < self.links_to_detach.len()
                invariant
                    probe <= self.links_to_detach@.len(),
                    index < persisted@.len(),
                    detached == exists|j: int| 0 <= j < probe
                        && #[trigger] self.links_to_detach@[j].spec_key() == persisted@[index as int].spec_key(),
                decreases self.links_to_detach.len() - probe,
            {
                if same_link(&self.links_to_detach[probe], &persisted[index]) {
                    detached = true;
                }
                probe = probe + 1;
            }
            proof {
                let keys = link_keys(self.links_to_detach@);
                let key = persisted@[index as int].spec_key();
                if detached {
                    let j = choose|j: int| 0 <= j < probe
                        && #[trigger] self.links_to_detach@[j].spec_key() == key;
                    assert(keys[j] == key);
                } else if keys.contains(key) {
                    let j = choose|j: int| 0 <= j < keys.len() && keys[j] == key;
                    assert(self.links_to_detach@[j].spec_key() == key);
                }
            }
            if !detached {
                kept = kept + 1;
            }
            index = index + 1;
        }
        assert(persisted@.take(persisted@.len() as int) =~= persisted@);
        let mut attached: usize = 0;
        let mut position: usize = 0;
        while position < self.links_to_attach.len()
            invariant
                position <= self.links_to_attach@.len(),
                attached == count_on_resource(self.links_to_attach@.take(position as int), id@),
                attached <= position,
            decreases self.links_to_attach.len() - position,
        {
            assert(self.links_to_attach@.take(position + 1).drop_last() =~= self.links_to_attach@.take(position as int));
            if str_eq(self.links_to_attach[position].resource_id.as_str(), id) {
                attached = attached + 1;
            }
            position = position + 1;
        }
        assert(self.links_to_attach@.take(self.links_to_attach@.len() as int) =~= self.links_to_attach@);
        kept + attached
    }

    /// Marks a resource to be inserted as ready (once).
    pub fn mark_ready(&mut self, id: String)
        ensures
            text_views(old(self).spec_ready_records()).contains(id@) ==>
                final(self).spec_ready_records() == old(self).spec_ready_records(),
            !text_views(old(self).spec_ready_records()).contains(id@) ==>
                final(self).spec_ready_records() == old(self).spec_ready_records().push(id),
            final(self).spec_pending_records() == old(self).spec_pending_records(),
            final(self).spec_links_to_attach() == old(self).spec_links_to_attach(),
            final(self).spec_links_to_detach() == old(self).spec_links_to_detach(),
            final(self).spec_variants() == old(self).spec_variants(),
            final(self).spec_delete_pending() == old(self).spec_delete_pending(),
            final(self).spec_orphan_markers_to_clear() == old(self).spec_orphan_markers_to_clear(),
    {
        add_text(&mut self.ready_records, id);
    }

    /// Marks a resource for deletion (once).
    pub fn mark_delete_pending(&mut self, id: String)
        ensures
            text_views(old(self).spec_delete_pending()).contains(id@) ==>
                final(self).spec_delete_pending() == old(self).spec_delete_pending(),
            !text_views(old(self).spec_delete_pending()).contains(id@) ==>
                final(self).spec_delete_pending() == old(self).spec_delete_pending().push(id),
            final(self).spec_pending_records() == old(self).spec_pending_records(),
            final(self).spec_links_to_attach() == old(self).spec_links_to_attach(),
            final(self).spec_links_to_detach() == old(self).spec_links_to_detach(),
            final(self).spec_variants() == old(self).spec_variants(),
            final(self).spec_ready_records() == old(self).spec_ready_records(),
            final(self).spec_orphan_markers_to_clear() == old(self).spec_orphan_markers_to_clear(),
    {
        add_text(&mut self.delete_pending, id);
    }

    /// Queues a variant for insertion.
    pub fn insert_variant(&mut self, variant: ResourceVariant)
        ensures
            final(self).spec_variants() == old(self).spec_variants().push(variant),
            final(self).spec_pending_records() == old(self).spec_pending_records(),
            final(self).spec_links_to_attach() == old(self).spec_links_to_attach(),
            final(self).spec_links_to_detach() == old(self).spec_links_to_detach(),
            final(self).spec_ready_records() == old(self).spec_ready_records(),
            final(self).spec_delete_pending() == old(self).spec_delete_pending(),
            final(self).spec_orphan_markers_to_clear() == old(self).spec_orphan_markers_to_clear(),
    {
        self.variants.push(variant);
    }

    /// Queues the removal of a blob's orphan marker (once).
    pub fn clear_orphan_blob_marker(&mut self, blob_id: String)
        ensures
            text_views(old(self).spec_orphan_markers_to_clear()).contains(blob_id@) ==>
                final(self).spec_orphan_markers_to_clear() == old(self).spec_orphan_markers_to_clear(),
            !text_views(old(self).spec_orphan_markers_to_clear()).contains(blob_id@) ==>
                final(self).spec_orphan_markers_to_clear() == old(self).spec_orphan_markers_to_clear().push(blob_id),
            final(self).spec_pending_records() == old(self).spec_pending_records(),
            final(self).spec_links_to_attach() == old(self).spec_links_to_attach(),
            final(self).spec_links_to_detach() == old(self).spec_links_to_detach(),
            final(self).spec_variants() == old(self).spec_variants(),
            final(self).spec_ready_records() == old(self).spec_ready_records(),
            final(self).spec_delete_pending() == old(self).spec_delete_pending(),
    {
        add_text(&mut self.orphan_markers_to_clear, blob_id);
    }

    /// The writes of this transaction, in the order they are made: records
    /// (ready when marked so), detached links, attached links, deletion
    /// marks, variants, cleared orphan markers.
    pub open spec fn commit_statements(&self) -> Seq<CatalogStatement> {
        let ready = text_views(self.spec_ready_records());
        self.spec_pending_records().map_values(|record: ResourceRecord| CatalogStatement::InsertRecord(committed_record(record, ready)))
            + self.spec_links_to_detach().map_values(|link: ResourceLink| CatalogStatement::DeleteLink(link))
            + self.spec_links_to_attach().map_values(|link: ResourceLink| CatalogStatement::InsertLinkIfAbsent(link))
            + self.spec_delete_pending().map_values(|id: String| CatalogStatement::MarkDeletePending(id))
            + self.spec_variants().map_values(|variant: ResourceVariant| CatalogStatement::InsertVariant(variant))
            + self.spec_orphan_markers_to_clear().map_values(|blob_id: String| CatalogStatement::ClearOrphanMarker(blob_id))
    }

    /// Ends the transaction with the writes to make.
    pub fn commit(self) -> (statements: Vec<CatalogStatement>)
        ensures
            statements@ == self.commit_statements(),
    {
        let ghost ready = text_views(self.ready_records@);
        let DatabaseResourceCatalogTransaction {
            pending_records,
            links_to_attach,
            links_to_detach,
            variants,
            ready_records,
            delete_pending,
            orphan_markers_to_clear,
        } = self;
        let mut statements: Vec<CatalogStatement> = Vec::new();

        let ghost records = pending_records@;
        let mut remaining = pending_records;
        assert(records.len() == remaining.len());
        let mut done: usize = 0;
        while remaining.len() > 0
            invariant
                done <= records.len(),
                records.len() <= usize::MAX,
                remaining@ == records.skip(done as int),
                ready == text_views(ready_records@),
                statements@ == records.take(done as int).map_values(|record: ResourceRecord|
                    CatalogStatement::InsertRecord(committed_record(record, ready))),
            decreases remaining.len(),
        {
            assert(done < records.len());
            let mut record = remaining.remove(0);
            let ghost original = record;
            if contains_text(&ready_records, record.id.as_str()) {
                record.state = ResourceState::Ready;
            }
            assert(record == committed_record(original, ready));
            statements.push(CatalogStatement::InsertRecord(record));
            proof {
                assert(original == records[done as int]);
                assert(records.take(done + 1) =~= records.take(done as int).push(records[done as int]));
                assert(remaining@ =~= records.skip(done + 1));
            }
            done = done + 1;
            assert(statements@ =~= records.take(done as int).map_values(|record: ResourceRecord|
                CatalogStatement::InsertRecord(committed_record(record, ready))));
        }
        assert(records.take(done as int) =~= records);
        let ghost first = statements@;

        let ghost detached = links_to_detach@;
        let mut remaining_detach = links_to_detach;
        assert(detached.len() == remaining_detach.len());
        let mut moved: usize = 0;
        while remaining_detach.len() > 0
            invariant
                moved <= detached.len(),
                detached.len() <= usize::MAX,
                remaining_detach@ == detached.skip(moved as int),
                statements@ == first + detached.take(moved as int).map_values(|link: ResourceLink| CatalogStatement::DeleteLink(link)),
            decreases remaining_detach.len(),
        {
            assert(moved < detached.len());
            let link = remaining_detach.remove(0);
            statements.push(CatalogStatement::DeleteLink(link));
            proof {
                assert(detached.take(moved + 1) =~= detached.take(moved as int).push(detached[moved as int]));
                assert(remaining_detach@ =~= detached.skip(moved + 1));
            }
            moved = moved + 1;
            assert(statements@ =~= first + detached.take(moved as int).map_values(|link: ResourceLink| CatalogStatement::DeleteLink(link)));
        }
        assert(detached.take(moved as int) =~= detached);
        let ghost second = statements@;

        let ghost attached = links_to_attach@;
        let mut remaining_attach = links_to_attach;
        assert(attached.len() == remaining_attach.len());
        let mut attached_moved: usize = 0;
        while remaining_attach.len() > 0
            invariant
                attached_moved <= attached.len(),
                attached.len() <= usize::MAX,
                remaining_attach@ == attached.skip(attached_moved as int),
                statements@ == second + attached.take(attached_moved as int).map_values(|link: ResourceLink| CatalogStatement::InsertLinkIfAbsent(link)),
            decreases remaining_attach.len(),
        {
            assert(attached_moved < attached.len());
            let link = remaining_attach.remove(0);
            statements.push(CatalogStatement::InsertLinkIfAbsent(link));
            proof {
                assert(attached.take(attached_moved + 1) =~= attached.take(attached_moved as int).push(attached[attached_moved as int]));
                assert(remaining_attach@ =~= attached.skip(attached_moved + 1));
            }
            attached_moved = attached_moved + 1;
            assert(statements@ =~= second + attached.take(attached_moved as int).map_values(|link: ResourceLink| CatalogStatement::InsertLinkIfAbsent(link)));
        }
        assert(attached.take(attached_moved as int) =~= attached);
        let ghost third = statements@;

        let ghost pending = delete_pending@;
        let mut remaining_pending = delete_pending;
        assert(pending.len() == remaining_pending.len());
        let mut marked: usize = 0;
        while remaining_pending.len() > 0
            invariant
                marked <= pending.len(),
                pending.len() <= usize::MAX,
                remaining_pending@ == pending.skip(marked as int),
                statements@ == third + pending.take(marked as int).map_values(|id: String| CatalogStatement::MarkDeletePending(id)),
            decreases remaining_pending.len(),
        {
            assert(marked < pending.len());
            let id = remaining_pending.remove(0);
            statements.push(CatalogStatement::MarkDeletePending(id));
            proof {
                assert(pending.take(marked + 1) =~= pending.take(marked as int).push(pending[marked as int]));
                assert(remaining_pending@ =~= pending.skip(marked + 1));
            }
            marked = marked + 1;
            assert(statements@ =~= third + pending.take(marked as int).map_values(|id: String| CatalogStatement::MarkDeletePending(id)));
        }
        assert(pending.take(marked as int) =~= pending);
        let ghost fourth = statements@;

        let ghost all_variants = variants@;
        let mut remaining_variants = variants;
        assert(all_variants.len() == remaining_variants.len());
        let mut inserted: usize = 0;
        while remaining_variants.len() > 0
            invariant
                inserted <= all_variants.len(),
                all_variants.len() <= usize::MAX,
                remaining_variants@ == all_variants.skip(inserted as int),
                statements@ == fourth + all_variants.take(inserted as int).map_values(|variant: ResourceVariant| CatalogStatement::InsertVariant(variant)),
            decreases remaining_variants.len(),
        {
            assert(inserted < all_variants.len());
            let variant = remaining_variants.remove(0);
            statements.push(CatalogStatement::InsertVariant(variant));
            proof {
                assert(all_variants.take(inserted + 1) =~= all_variants.take(inserted as int).push(all_variants[inserted as int]));
                assert(remaining_variants@ =~= all_variants.skip(inserted + 1));
            }
            inserted = inserted + 1;
            assert(statements@ =~= fourth + all_variants.take(inserted as int).map_values(|variant: ResourceVariant| CatalogStatement::InsertVariant(variant)));
        }
        assert(all_variants.take(inserted as int) =~= all_variants);
        let ghost fifth = statements@;

        let ghost markers = orphan_markers_to_clear@;
        let mut remaining_markers = orphan_markers_to_clear;
        assert(markers.len() == remaining_markers.len());
        let mut cleared: usize = 0;
        while remaining_markers.len() > 0
            invariant
                cleared <= markers.len(),
                markers.len() <= usize::MAX,
                remaining_markers@ == markers.skip(cleared as int),
                statements@ == fifth + markers.take(cleared as int).map_values(|blob_id: String| CatalogStatement::ClearOrphanMarker(blob_id)),
            decreases remaining_markers.len(),
        {
            assert(cleared < markers.len());
            let blob_id = remaining_markers.remove(0);
            statements.push(CatalogStatement::ClearOrphanMarker(blob_id));
            proof {
                assert(markers.take(cleared + 1) =~= markers.take(cleared as int).push(markers[cleared as int]));
                assert(remaining_markers@ =~= markers.skip(cleared + 1));
            }
            cleared = cleared + 1;
            assert(statements@ =~= fifth + markers.take(cleared as int).map_values(|blob_id: String| CatalogStatement::ClearOrphanMarker(blob_id)));
        }
        assert(markers.take(cleared as int) =~= markers);
        statements
    }
}

/// The message of an integer that does not fit the column or field it goes to.
pub open spec fn integer_range_message() -> Seq<char> {
    "out of range integral type conversion attempted"@
}

fn integer_range_error() -> (error: DatabaseError)
    ensures
        error.spec_kind() == DatabaseErrorKind::Database,
        error.spec_message() == integer_range_message(),
{
    DatabaseError::new("out of range integral type conversion attempted".to_owned())
}

/// A stored size or timestamp as the signed integer SQLite keeps; one above
/// `i64::MAX` is refused.
pub fn optional_u64_to_i64(value: Option<u64>) -> (result: DatabaseResult<Option<i64>>)
    ensures
        match value {
            None => result == Ok::<Option<i64>, DatabaseError>(None),
            Some(n) => if n <= i64::MAX {
                result == Ok::<Option<i64>, DatabaseError>(Some(n as i64))
            } else {
                result matches Err(error) && error.spec_kind() == DatabaseErrorKind::Database
                    && error.spec_message() == integer_range_message()
            },
        },
{
    match value {
        None => Ok(None),
        Some(n) => if n <= 9223372036854775807u64 {
            Ok(Some(n as i64))
        } else {
            Err(integer_range_error())
        },
    }
}

/// A stored dimension as the signed integer SQLite keeps; every one fits.
pub fn optional_u32_to_i64(value: Option<u32>) -> (result: Option<i64>)
    ensures
        match value {
            None => result == None::<i64>,
            Some(n) => result == Some(n as i64),
        },
{
    match value {
        None => None,
        Some(n) => Some(n as i64),
    }
}

/// A stored integer read back as a size or timestamp; a negative one is
/// refused.
pub fn optional_i64_to_u64(value: Option<i64>) -> (result: DatabaseResult<Option<u64>>)
    ensures
        match value {
            None => result == Ok::<Option<u64>, DatabaseError>(None),
            Some(n) => if n >= 0 {
                result == Ok::<Option<u64>, DatabaseError>(Some(n as u64))
            } else {
                result matches Err(error) && error.spec_kind() == DatabaseErrorKind::Database
                    && error.spec_message() == integer_range_message()
            },
        },
{
    match value {
        None => Ok(None),
        Some(n) => if n >= 0 {
            Ok(Some(n as u64))
        } else {
            Err(integer_range_error())
        },
    }
}

/// A stored integer read back as a dimension; one outside `u32` is refused.
pub fn optional_i64_to_u32(value: Option<i64>) -> (result: DatabaseResult<Option<u32>>)
    ensures
        match value {
            None => result == Ok::<Option<u32>, DatabaseError>(None),
            Some(n) => if 0 <= n <= u32::MAX {
                result == Ok::<Option<u32>, DatabaseError>(Some(n as u32))
            } else {
                result matches Err(error) && error.spec_kind() == DatabaseErrorKind::Database
                    && error.spec_message() == integer_range_message()
            },
        },
{
    match value {
        None => Ok(None),
        Some(n) => if 0 <= n && n <= 4294967295i64 {
            Ok(Some(n as u32))
        } else {
            Err(integer_range_error())
        },
    }
}

} // verus!
