//! Stored records, catalog transactions, gallery deletion, the resource
//! library and the transaction lock.

use atelier_adapter_database::agent::events::{event_kind_as_str, StoredEventKind, StoredPersonaSnapshot};
use atelier_adapter_database::domain::agent::{AgentEventKind, AgentPersonaSnapshot};
use atelier_adapter_database::generation_codec::payload::{decode_compiled_snapshot, submitted_payload_version};
use atelier_adapter_database::generation_codec::prompt::{CompiledPromptDto, PromptTraceDto};
use atelier_adapter_database::catalog::{
    optional_i64_to_u32, optional_i64_to_u64, optional_u32_to_i64, optional_u64_to_i64, CatalogStatement,
    DatabaseResourceCatalogTransaction,
};
use atelier_adapter_database::library::paths::{to_i64, to_u64};
use atelier_adapter_database::codec::artifact::{
    embedded_metadata_status_as_str, embedded_metadata_status_from_str, ArtifactRecordDto, ArtifactSourceDto,
    EmbeddedMetadataWarningDto,
};
use atelier_adapter_database::codec::json::JsonCodec;
use atelier_adapter_database::codec::resource::ResourceRefDto;
use atelier_adapter_database::connection::TransactionGateState;
use atelier_adapter_database::domain::artifacts::{
    ArtifactKind, ArtifactMetadata, ArtifactRecord, ArtifactSource, EmbeddedMetadataStatus, EmbeddedMetadataWarning,
    VisualAssetRef, VisualAssetRole,
};
use atelier_adapter_database::domain::catalog::{
    ResourceKind, ResourceLifecycle, ResourceLink, ResourceMetadata, ResourceOwner, ResourceOwnerKind, ResourceRecord,
    ResourceRef, ResourceRelation, ResourceState,
};
use atelier_adapter_database::domain::jobs::{
    ActiveJobBatchSnapshot, BatchStatus, JobBatch, JobKind, JobQueueSnapshot, JobRecord, JobStatus, QueueDelay,
    RetryPolicy,
};
use atelier_adapter_database::domain::library::{LibraryNamespace, ResourceLibraryErrorKind};
use atelier_adapter_database::error::{decode_error, ensure_schema, DatabaseError, DatabaseErrorKind};
use atelier_adapter_database::domain::gallery::{GalleryErrorKind, GalleryQuery, GallerySafetyOverride, GallerySourceKind};
use atelier_adapter_database::domain::safety::SafetyLabel;
use atelier_adapter_database::gallery::{
    gallery_count, gallery_filter, gallery_page, missing_item_error, GalleryFilter,
    count_deleted_items, hard_delete_statements, GalleryDeleteStatement, GalleryHardDeletePlan, GalleryTransientOwner,
};
use atelier_adapter_database::job_history::snapshot::{duration_to_ms, job_store_error, JobQueueSnapshotDto};
use atelier_adapter_database::json::JsonValue;
use atelier_adapter_database::library::deletion::{
    chunk_paths, delete_feature_resource, delete_folder_cascade, deletion_targets, ensure_delete_is_unreferenced,
    surviving_texts, DeleteResource, DraftReferences, FolderNode, LibraryDeleteStatement,
};
use atelier_adapter_database::library::namespace::{namespace_as_str, namespace_from_str};
use atelier_adapter_database::library::paths::{apply_path_changes, path_changes, sync_display_name, LibraryUpdateStatement};

fn resource_ref(id: &str) -> ResourceRef {
    ResourceRef { id: id.to_owned(), variant_id: None }
}

fn metadata() -> ArtifactMetadata {
    ArtifactMetadata {
        request_seed: Some(7),
        seed: Some(8),
        sample_index: Some(0),
        model_name: Some("nai-diffusion-4-5-full".to_owned()),
        embedded_metadata_status: Some(EmbeddedMetadataStatus::Parsed),
        embedded_prompt: None,
        embedded_negative_prompt: None,
        embedded_metadata_json: None,
        embedded_metadata_error: None,
        embedded_metadata_warnings: vec![EmbeddedMetadataWarning::Unknown("future-warning".to_owned())],
        extensions: vec![("key".to_owned(), "value".to_owned())],
    }
}

fn artifact() -> ArtifactRecord {
    ArtifactRecord {
        id: "artifact-1".to_owned(),
        kind: ArtifactKind::GeneratedImage,
        source: ArtifactSource::GenerationJob { job_id: "job-1".to_owned(), batch_id: Some("batch-1".to_owned()) },
        primary_resource: resource_ref("resource-1"),
        metadata: metadata(),
        replay: None,
        assets: vec![VisualAssetRef {
            role: VisualAssetRole::Thumbnail,
            resource: ResourceRef { id: "resource-2".to_owned(), variant_id: Some("variant-2".to_owned()) },
            variant_kind: None,
        }],
    }
}

#[test]
fn artifact_records_round_trip_through_their_stored_form() {
    let record = artifact();
    let dto = ArtifactRecordDto::from_domain(&record);
    assert_eq!(dto.schema_version, 1);
    assert_eq!(dto.kind, "generated_image");
    assert_eq!(dto.assets[0].role, "thumbnail");
    let decoded = dto.into_domain().unwrap();
    assert_eq!(decoded, record);
}

#[test]
fn artifact_records_report_version_kind_and_source_errors() {
    let mut dto = ArtifactRecordDto::from_domain(&artifact());
    dto.schema_version = 2;
    assert_eq!(dto.into_domain().unwrap_err().message(), "unsupported JSON schema version 2");
    let mut dto = ArtifactRecordDto::from_domain(&artifact());
    dto.kind = "painting".to_owned();
    assert_eq!(dto.into_domain().unwrap_err().message(), "unknown artifact kind `painting`");
    let mut dto = ArtifactRecordDto::from_domain(&artifact());
    dto.source = ArtifactSourceDto { job_id: None, batch_id: None, run_id: None };
    assert_eq!(dto.into_domain().unwrap_err().message(), "artifact source is missing a source id");
    let mut dto = ArtifactRecordDto::from_domain(&artifact());
    dto.assets[0].role = "poster".to_owned();
    assert_eq!(dto.into_domain().unwrap_err().message(), "unknown visual asset role `poster`");
}

#[test]
fn artifact_warnings_use_only_the_current_structured_shape() {
    let dto = EmbeddedMetadataWarningDto::from_domain(&EmbeddedMetadataWarning::Unknown("future-warning".to_owned()));
    assert_eq!(dto.code, "unknown");
    assert_eq!(dto.keyword, None);
    assert_eq!(dto.message.as_deref(), Some("future-warning"));
    let other = EmbeddedMetadataWarningDto { code: "brand-new".to_owned(), keyword: None, message: None };
    assert_eq!(other.into_domain(), EmbeddedMetadataWarning::Unknown("brand-new".to_owned()));
    let chunk = EmbeddedMetadataWarningDto { code: "invalid_text_chunk".to_owned(), keyword: None, message: Some("bad".to_owned()) };
    assert_eq!(
        chunk.into_domain(),
        EmbeddedMetadataWarning::InvalidTextChunk { keyword: String::new(), message: "bad".to_owned() }
    );
    assert_eq!(embedded_metadata_status_as_str(EmbeddedMetadataStatus::NotPresent), "not_present");
    assert_eq!(embedded_metadata_status_from_str("garbled"), EmbeddedMetadataStatus::Invalid);
}

#[test]
fn resource_references_round_trip() {
    let reference = ResourceRef { id: "r".to_owned(), variant_id: Some("v".to_owned()) };
    assert_eq!(ResourceRefDto::from_domain(&reference).into_domain(), reference);
}

#[test]
fn errors_carry_their_kind_and_message() {
    assert_eq!(ensure_schema(1).is_ok(), true);
    assert_eq!(ensure_schema(0).unwrap_err().message(), "unsupported JSON schema version 0");
    let error = decode_error("resource kind", "blob");
    assert_eq!(error.kind(), DatabaseErrorKind::Database);
    assert_eq!(error.message(), "unknown resource kind `blob`");
    assert_eq!(DatabaseError::unsupported_schema("old".to_owned()).kind(), DatabaseErrorKind::UnsupportedSchema);
    assert_eq!(job_store_error("broken".to_owned()).message(), "broken");
}

fn delay(min: u128, max: u128) -> QueueDelay {
    QueueDelay { min_millis: min, max_millis: max }
}

fn job(id: &str, status: JobStatus) -> JobRecord {
    JobRecord {
        job_id: id.to_owned(),
        kind: JobKind::GenerateImage,
        payload_ref: format!("payload-{id}"),
        prepared_payload_ref: None,
        status,
        retry_attempts: 1,
    }
}

#[test]
fn job_queue_snapshots_round_trip_in_whole_milliseconds() {
    let snapshot = JobQueueSnapshot {
        active_batch: Some(ActiveJobBatchSnapshot {
            batch: JobBatch {
                batch_id: "batch-1".to_owned(),
                status: BatchStatus::Running,
                jobs: vec![job("a", JobStatus::Running), job("b", JobStatus::Queued)],
            },
            current_job: Some("a".to_owned()),
            pending_delay: Some(delay(100, 200)),
            paused_delay: None,
            pause_after_current: false,
            stop_after_current: true,
        }),
        retry_policy: RetryPolicy { task_interval: delay(0, 0), rate_limit_fallback: delay(1000, 5000), max_rate_limit_retries: 3 },
    };
    let dto = JobQueueSnapshotDto::from_domain(&snapshot);
    let decoded = dto.into_domain().unwrap();
    let active = decoded.active_batch.unwrap();
    assert_eq!(active.batch.jobs.len(), 2);
    assert_eq!(active.batch.jobs[1].status, JobStatus::Queued);
    assert_eq!(active.pending_delay, Some(delay(100, 200)));
    assert_eq!(decoded.retry_policy, snapshot.retry_policy);
    assert_eq!(duration_to_ms(u128::MAX), u64::MAX);
    assert_eq!(duration_to_ms(42), 42);
}

#[test]
fn job_queue_snapshots_report_unknown_states() {
    let mut dto = JobQueueSnapshotDto::from_domain(&JobQueueSnapshot {
        active_batch: Some(ActiveJobBatchSnapshot {
            batch: JobBatch { batch_id: "b".to_owned(), status: BatchStatus::Paused, jobs: vec![job("a", JobStatus::Failed)] },
            current_job: None,
            pending_delay: None,
            paused_delay: None,
            pause_after_current: false,
            stop_after_current: false,
        }),
        retry_policy: RetryPolicy { task_interval: delay(1, 2), rate_limit_fallback: delay(3, 4), max_rate_limit_retries: 0 },
    });
    if let Some(active) = dto.active_batch.as_mut() {
        active.batch.jobs[0].status = "exploded".to_owned();
    }
    assert_eq!(dto.into_domain().unwrap_err().message(), "unknown job status `exploded`");
}

fn link(resource: &str, owner: &str) -> ResourceLink {
    ResourceLink {
        resource_id: resource.to_owned(),
        owner: ResourceOwner { kind: ResourceOwnerKind::GalleryItem, local_id: owner.to_owned() },
        relation: ResourceRelation::Primary,
    }
}

fn record(id: &str) -> ResourceRecord {
    ResourceRecord {
        id: id.to_owned(),
        kind: ResourceKind::GeneratedImage,
        lifecycle: ResourceLifecycle::JobScoped,
        state: ResourceState::Pending,
        blob_id: format!("blob-{id}"),
        metadata: ResourceMetadata { mime_type: None, byte_size: None, content_hash: None, width: None, height: None, created_at_ms: None },
    }
}

#[test]
fn catalog_transactions_collect_sets_and_commit_in_order() {
    let mut transaction = DatabaseResourceCatalogTransaction::new();
    transaction.insert_pending_record(record("r1"));
    transaction.insert_pending_record(record("r2"));
    transaction.mark_ready("r2".to_owned());
    transaction.mark_ready("r2".to_owned());
    transaction.attach_owner(link("r1", "item-1"));
    transaction.attach_owner(link("r1", "item-1"));
    transaction.detach_owner(link("r0", "item-0"));
    transaction.mark_delete_pending("r0".to_owned());
    transaction.clear_orphan_blob_marker("blob-r1".to_owned());

    let persisted = vec![link("r0", "item-0"), link("r0", "item-9")];
    assert_eq!(transaction.count_owner_links("r0", &persisted), 1);
    assert_eq!(transaction.count_owner_links("r1", &Vec::new()), 1);

    let statements = transaction.commit();
    assert_eq!(statements.len(), 6);
    match &statements[1] {
        CatalogStatement::InsertRecord(ready) => assert_eq!(ready.state, ResourceState::Ready),
        other => panic!("unexpected statement {other:?}"),
    }
    match &statements[0] {
        CatalogStatement::InsertRecord(pending) => assert_eq!(pending.state, ResourceState::Pending),
        other => panic!("unexpected statement {other:?}"),
    }
    assert!(matches!(&statements[2], CatalogStatement::DeleteLink(_)));
    assert!(matches!(&statements[3], CatalogStatement::InsertLinkIfAbsent(_)));
    assert!(matches!(&statements[4], CatalogStatement::MarkDeletePending(id) if id == "r0"));
    assert!(matches!(&statements[5], CatalogStatement::ClearOrphanMarker(blob) if blob == "blob-r1"));
}

fn plan(item: &str, resources: &[&str]) -> GalleryHardDeletePlan {
    GalleryHardDeletePlan {
        item_id: item.to_owned(),
        artifact_id: format!("artifact-{item}"),
        resource_ids: resources.iter().map(|id| (*id).to_owned()).collect(),
        transient_owner: GalleryTransientOwner { kind: "job".to_owned(), local_id: "job-1".to_owned() },
        force_delete_pending: false,
    }
}

#[test]
fn gallery_hard_delete_releases_resources_before_deleting_items() {
    assert!(hard_delete_statements(&Vec::new()).is_empty());
    let statements = hard_delete_statements(&vec![plan("item-1", &["r1", "r2"]), plan("item-2", &[])]);
    assert_eq!(statements.len(), 3 * 2 + 3 + 3);
    assert!(matches!(&statements[0], GalleryDeleteStatement::UnlinkGalleryItem { resource_id, item_id } if resource_id == "r1" && item_id == "item-1"));
    assert!(matches!(&statements[1], GalleryDeleteStatement::UnlinkTransientOwner { owner_kind, .. } if owner_kind == "job"));
    assert!(matches!(&statements[2], GalleryDeleteStatement::MarkDeletePendingIfUnowned { force: false, .. }));
    assert!(matches!(&statements[8], GalleryDeleteStatement::DeleteGalleryItem { item_id } if item_id == "item-1"));
    assert!(matches!(&statements[11], GalleryDeleteStatement::DeleteGalleryItem { item_id } if item_id == "item-2"));
    let affected = vec![1, 1, 0, 1, 1, 0, 2, 1, 1, 0, 0, 1];
    assert_eq!(count_deleted_items(&statements, &affected), 2);
}

#[test]
fn transaction_lock_admits_one_holder_and_wakes_waiters() {
    let mut state = TransactionGateState::new();
    let held = state.poll_acquire(1).expect("open lock is taken");
    assert!(state.poll_acquire(2).is_none());
    assert!(state.poll_acquire(3).is_none());
    assert!(state.poll_acquire(2).is_none());
    let woken = state.release(held);
    assert_eq!(woken, vec![3, 2]);
    assert!(state.poll_acquire(3).is_some());
}

fn node(id: &str, namespace: &str, path: &str, kind: &str, depth: i64) -> FolderNode {
    FolderNode {
        node_id: id.to_owned(),
        namespace: namespace.to_owned(),
        path: path.to_owned(),
        node_kind: kind.to_owned(),
        depth,
    }
}

#[test]
fn folder_deletion_targets_resources_and_refuses_references() {
    let missing = deletion_targets(&Vec::new()).unwrap_err();
    assert_eq!(missing.kind(), ResourceLibraryErrorKind::NotFound);
    assert_eq!(missing.message(), "library folder does not exist");

    let nodes = vec![
        node("chunk-1", "prompt_chunk", "animals/cat", "resource", 1),
        node("folder-1", "prompt_chunk", "animals", "folder", 0),
    ];
    let targets = deletion_targets(&nodes).unwrap();
    assert_eq!(targets.len(), 1);
    assert_eq!(chunk_paths(&targets), vec!["animals/cat".to_owned()]);
    let rows = vec![("chunk-1".to_owned(), "own text".to_owned()), ("chunk-2".to_owned(), "<animals/cat>".to_owned())];
    assert_eq!(surviving_texts(&targets, &rows), vec!["<animals/cat>".to_owned()]);

    let refused = ensure_delete_is_unreferenced(&targets, true, &None).unwrap_err();
    assert_eq!(refused.kind(), ResourceLibraryErrorKind::Conflict);
    assert_eq!(refused.message(), "folder contains prompt chunks referenced from outside the deleted subtree");
    let draft = DraftReferences {
        draft: JsonValue::Object(vec![("main_preset_id".to_owned(), JsonValue::String("chunk-1".to_owned()))]),
        references_chunk: false,
    };
    let refused = ensure_delete_is_unreferenced(&targets, false, &Some(draft)).unwrap_err();
    assert_eq!(refused.message(), "folder contains resources referenced by the current generation draft");
    assert!(ensure_delete_is_unreferenced(&targets, false, &None).is_ok());

    let statements = delete_folder_cascade(&targets, &nodes);
    assert_eq!(statements.len(), 4);
    assert!(matches!(&statements[0], LibraryDeleteStatement::DeletePromptChunk { chunk_id } if chunk_id == "chunk-1"));
    assert!(matches!(&statements[1], LibraryDeleteStatement::DeleteOwnerLinks { owner_kind, owner_local_id }
        if owner_kind == "prompt_resource" && owner_local_id == "chunk:chunk-1"));
    assert!(matches!(&statements[3], LibraryDeleteStatement::DeleteNode { node_id } if node_id == "folder-1"));
}

#[test]
fn feature_rows_of_each_namespace_are_deleted() {
    let resource = |namespace: &str| DeleteResource { id: "id".to_owned(), namespace: namespace.to_owned(), path: "p".to_owned() };
    assert_eq!(delete_feature_resource(&resource("main_preset")).len(), 2);
    assert!(matches!(&delete_feature_resource(&resource("character_preset"))[1],
        LibraryDeleteStatement::DeleteOwnerLinks { owner_local_id, .. } if owner_local_id == "preset:id"));
    assert_eq!(delete_feature_resource(&resource("vibe")).len(), 3);
    assert!(delete_feature_resource(&resource("other")).is_empty());
}

#[test]
fn path_changes_follow_moved_resources() {
    let before = vec![("a".to_owned(), "x/a".to_owned()), ("b".to_owned(), "x/b".to_owned()), ("c".to_owned(), "c".to_owned())];
    let after = vec![("a".to_owned(), "y/a".to_owned()), ("b".to_owned(), "x/b".to_owned())];
    let changes = path_changes(&before, &after);
    assert_eq!(changes.len(), 1);
    assert_eq!(changes[0].new_path, "y/a");
    let updates = apply_path_changes(LibraryNamespace::PromptChunk, &changes, 5).unwrap();
    assert!(matches!(&updates[0], LibraryUpdateStatement::UpdateChunkKey { chunk_key, updated_at_ms: 5, .. } if chunk_key == "y/a"));
    assert!(apply_path_changes(LibraryNamespace::Vibe, &changes, 5).unwrap().is_empty());
    let error = apply_path_changes(LibraryNamespace::MainPreset, &changes, u64::MAX).unwrap_err();
    assert_eq!(error.message(), "database: out of range integral type conversion attempted");
    assert!(apply_path_changes(LibraryNamespace::MainPreset, &Vec::new(), u64::MAX).unwrap().is_empty());
}

#[test]
fn renamed_vibes_update_their_document_summary() {
    let document = JsonValue::Object(vec![(
        "summary".to_owned(),
        JsonValue::Object(vec![("display_name".to_owned(), JsonValue::String("Old".to_owned()))]),
    )]);
    let updates = sync_display_name(LibraryNamespace::Vibe, &"vibe-1".to_owned(), &"New".to_owned(), Some(document));
    match &updates[0] {
        LibraryUpdateStatement::UpdateVibeDisplay { document_json: JsonValue::Object(entries), display_name, .. } => {
            assert_eq!(display_name, "New");
            match &entries[0].1 {
                JsonValue::Object(summary) => {
                    assert_eq!(summary.len(), 1);
                    assert!(matches!(&summary[0].1, JsonValue::String(name) if name == "New"));
                },
                other => panic!("unexpected summary {other:?}"),
            }
        },
        other => panic!("unexpected update {other:?}"),
    }
    assert!(sync_display_name(LibraryNamespace::PromptChunk, &"c".to_owned(), &"n".to_owned(), None).is_empty());
    assert_eq!(namespace_as_str(LibraryNamespace::CharacterPreset), "character_preset");
    assert_eq!(namespace_from_str("vibe").unwrap(), LibraryNamespace::Vibe);
    let unknown = namespace_from_str("bogus").unwrap_err();
    assert_eq!(unknown.kind(), ResourceLibraryErrorKind::Repository);
    assert_eq!(unknown.message(), "unknown resource library namespace `bogus`");
}

#[test]
fn stored_integers_convert_within_range_only() {
    assert_eq!(optional_u64_to_i64(None).unwrap(), None);
    assert_eq!(optional_u64_to_i64(Some(42)).unwrap(), Some(42));
    assert_eq!(optional_u64_to_i64(Some(i64::MAX as u64)).unwrap(), Some(i64::MAX));
    let error = optional_u64_to_i64(Some(u64::MAX)).unwrap_err();
    assert_eq!(error.message(), "out of range integral type conversion attempted");
    assert_eq!(optional_u32_to_i64(Some(u32::MAX)), Some(i64::from(u32::MAX)));
    assert_eq!(optional_u32_to_i64(None), None);
    assert_eq!(optional_i64_to_u64(Some(7)).unwrap(), Some(7));
    assert!(optional_i64_to_u64(Some(-1)).is_err());
    assert_eq!(optional_i64_to_u32(Some(i64::from(u32::MAX))).unwrap(), Some(u32::MAX));
    assert!(optional_i64_to_u32(Some(i64::from(u32::MAX) + 1)).is_err());
    assert!(optional_i64_to_u32(Some(-5)).is_err());
    assert_eq!(optional_i64_to_u32(None).unwrap(), None);

    assert_eq!(to_i64(5).unwrap(), 5);
    let error = to_i64(u64::MAX).unwrap_err();
    assert_eq!(error.kind(), ResourceLibraryErrorKind::Repository);
    assert_eq!(error.message(), "database: out of range integral type conversion attempted");
    assert_eq!(to_u64(9).unwrap(), 9);
    assert!(to_u64(-9).is_err());
}

#[test]
fn agent_events_keep_their_fields_when_stored() {
    let events = vec![
        AgentEventKind::UserMessage { content: "draw a cat".to_owned() },
        AgentEventKind::AssistantMessage { content: "done".to_owned(), interrupted: true },
        AgentEventKind::ToolCall { tool_name: "generate".to_owned(), arguments_json: "{}".to_owned() },
        AgentEventKind::ToolResult { tool_name: "generate".to_owned(), result_json: "[1]".to_owned(), failed: false },
        AgentEventKind::Approval { tool_name: "delete".to_owned(), approved: false },
        AgentEventKind::Warning { content: "slow".to_owned() },
    ];
    let kinds: Vec<&str> = events.iter().map(event_kind_as_str).collect();
    assert_eq!(kinds, vec!["user_message", "assistant_message", "tool_call", "tool_result", "approval", "warning"]);
    for event in events {
        let stored = StoredEventKind::from_domain(&event);
        assert_eq!(stored.into_domain(), event);
    }
    match StoredEventKind::from_domain(&AgentEventKind::ToolResult {
        tool_name: "t".to_owned(),
        result_json: "r".to_owned(),
        failed: true,
    }) {
        StoredEventKind::ToolResult { tool_name, result_json, failed } => {
            assert_eq!((tool_name.as_str(), result_json.as_str(), failed), ("t", "r", true));
        }
        other => panic!("unexpected stored event {other:?}"),
    }

    let persona = AgentPersonaSnapshot {
        display_name: "Muse".to_owned(),
        instructions: "be brief".to_owned(),
        v5_prompt_guidance: "v5".to_owned(),
        tag_prompt_guidance: "tags".to_owned(),
    };
    let stored = StoredPersonaSnapshot::from_domain(&persona);
    assert_eq!(stored.instructions, "be brief");
    assert_eq!(stored.into_domain(), persona);
}

fn gallery_query(safety_label: Option<SafetyLabel>, limit: usize, offset: usize) -> GalleryQuery {
    GalleryQuery {
        artifact_kind: None,
        source_kind: None,
        manual_safety_override: None,
        safety_label,
        offset,
        limit,
    }
}

#[test]
fn gallery_listing_filters_by_stored_texts_and_hides_hidden_items_by_default() {
    let default_filter = gallery_filter(&gallery_query(None, 50, 0));
    assert_eq!(
        default_filter,
        GalleryFilter {
            artifact_kind: None,
            source_kind: None,
            manual_safety_override: None,
            exclude_hidden: true,
            safety_label: None,
        }
    );
    let safe = gallery_filter(&gallery_query(Some(SafetyLabel::Safe), 1, 0));
    assert_eq!(safe.safety_label, Some("safe"));
    assert!(safe.exclude_hidden);
    let hidden = gallery_filter(&gallery_query(Some(SafetyLabel::Hidden), 1, 0));
    assert_eq!(hidden.safety_label, Some("hidden"));
    assert!(!hidden.exclude_hidden);

    let full = gallery_filter(&GalleryQuery {
        artifact_kind: Some(ArtifactKind::ImportedImage),
        source_kind: Some(GallerySourceKind::Director),
        manual_safety_override: Some(GallerySafetyOverride::Sensitive),
        safety_label: None,
        offset: 0,
        limit: 10,
    });
    assert_eq!(full.artifact_kind, Some("imported_image"));
    assert_eq!(full.source_kind, Some("director"));
    assert_eq!(full.manual_safety_override, Some("sensitive"));
}

#[test]
fn gallery_pages_and_counts_fit_sqlite_integers() {
    assert_eq!(gallery_page(&gallery_query(None, 1, 40)).unwrap(), (1, 40));
    let error = gallery_page(&gallery_query(None, usize::MAX, 0)).unwrap_err();
    assert_eq!(error.kind(), GalleryErrorKind::Repository);
    assert_eq!(error.message(), "out of range integral type conversion attempted");
    assert!(gallery_page(&gallery_query(None, 5, usize::MAX)).is_err());
    assert_eq!(gallery_count(12).unwrap(), 12);
    assert!(gallery_count(-1).is_err());
    let missing = missing_item_error();
    assert_eq!(missing.kind(), GalleryErrorKind::NotFound);
    assert_eq!(missing.message(), "gallery item does not exist");
}

#[test]
fn transactions_run_one_at_a_time_in_turn() {
    let mut state = TransactionGateState::new();
    let mut order = Vec::new();
    let mut holder = (1u64, state.poll_acquire(1).expect("open lock is taken"));
    let mut waiting: Vec<u64> = vec![2, 3, 4];
    for waiter in &waiting {
        assert!(state.poll_acquire(*waiter).is_none());
    }
    state.forget_waiter(4);
    waiting.retain(|waiter| *waiter != 4);
    while !waiting.is_empty() {
        order.push(holder.0);
        let woken = state.release(holder.1);
        assert_eq!(woken, waiting);
        let next = woken[0];
        let token = state.poll_acquire(next).expect("released lock is taken by the first woken task");
        for other in &woken[1..] {
            assert!(state.poll_acquire(*other).is_none());
        }
        waiting = woken[1..].to_vec();
        holder = (next, token);
    }
    order.push(holder.0);
    assert_eq!(order, vec![1, 2, 3]);
    assert!(state.poll_acquire(4).is_none());
}

#[test]
fn database_errors_read_with_their_prefix() {
    let error = DatabaseError::new("boom".to_owned());
    assert_eq!(error.kind(), DatabaseErrorKind::Database);
    assert_eq!(error.to_string(), "database: boom");
    let old = DatabaseError::unsupported_schema("old".to_owned());
    assert_eq!(old.kind(), DatabaseErrorKind::UnsupportedSchema);
    assert_eq!(old.to_string(), "database: old");
}

fn compiled_snapshot(expanded: &str, traced: &str) -> CompiledPromptDto {
    CompiledPromptDto {
        expanded_prompt: expanded.to_owned(),
        trace: PromptTraceDto {
            raw_prompt: "$chunk(hero)".to_owned(),
            expanded_prompt: traced.to_owned(),
            function_calls: Vec::new(),
        },
    }
}

#[test]
fn submitted_versions_preserve_the_compilation_stage() {
    for compiled in [false, true] {
        let version = submitted_payload_version(compiled);
        assert_eq!(version, if compiled { 4 } else { 3 });
        let snapshot = compiled.then(|| compiled_snapshot("resolved", "resolved"));
        let decoded = decode_compiled_snapshot(version, snapshot, "resolved").unwrap();
        assert_eq!(decoded.is_some(), compiled);
        if let Some(prompt) = decoded {
            assert_eq!(prompt.expanded_prompt, "resolved");
            assert_eq!(prompt.trace.raw_prompt, "$chunk(hero)");
        }
    }
}

#[test]
fn submitted_rejects_ambiguous_versions_and_inconsistent_snapshots() {
    for (compiled, version) in [(false, 4), (true, 3), (true, 5)] {
        let snapshot = compiled.then(|| compiled_snapshot("resolved", "resolved"));
        let error = decode_compiled_snapshot(version, snapshot, "resolved").unwrap_err();
        assert_eq!(
            error.message(),
            format!("unknown submitted payload version or compiled snapshot `{version}`")
        );
    }
    let error = decode_compiled_snapshot(4, Some(compiled_snapshot("different", "different")), "resolved").unwrap_err();
    assert_eq!(error.message(), "unknown compiled snapshot `prompt mismatch`");
    assert!(decode_compiled_snapshot(4, Some(compiled_snapshot("resolved", "other")), "resolved").is_err());
}
