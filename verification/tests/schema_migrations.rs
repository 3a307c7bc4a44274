//! Schema checks, migration plans and the JSON rewrites of the migrations.

use atelier_adapter_database::error::DatabaseErrorKind;
use atelier_adapter_database::json::{json_contains_string, JsonNumber, JsonValue};
use atelier_adapter_database::migration::{
    run_migrations, LegacyAppliedVersions, LegacyColumn, LegacyMigrationStep, LegacyScript,
};
use atelier_adapter_database::schema::v1_to_v2::{migrate_gallery_item, set_json_schema};
use atelier_adapter_database::schema::v3_to_v4::{fix_model_string, migrate_draft, migrate_value};
use atelier_adapter_database::schema::v4_to_v5::{
    backfill_folders, backfill_parents, normalized_category, unique_identifier, unique_identifiers, IdentifierRequest,
    LegacyResource,
};
use atelier_adapter_database::schema::v5_to_v6::{copy_vibe, update_resource_owners, LegacyVibeDocument, LegacyVibeEncoding};
use atelier_adapter_database::schema::v7_to_v8::{invalid_snapshot_error, migrate_model_snapshot};
use atelier_adapter_database::schema::{next_schema_migration, validate_schema_metadata, SchemaMigration};

fn from_serde(value: &serde_json::Value) -> JsonValue {
    match value {
        serde_json::Value::Null => JsonValue::Null,
        serde_json::Value::Bool(flag) => JsonValue::Bool(*flag),
        serde_json::Value::Number(number) => match (number.as_u64(), number.as_i64()) {
            (Some(n), _) => JsonValue::Number(JsonNumber::PosInt(n)),
            (None, Some(n)) => JsonValue::Number(JsonNumber::NegInt(n)),
            _ => JsonValue::Number(JsonNumber::Float(number.to_string())),
        },
        serde_json::Value::String(text) => JsonValue::String(text.clone()),
        serde_json::Value::Array(items) => JsonValue::Array(items.iter().map(from_serde).collect()),
        serde_json::Value::Object(entries) => {
            JsonValue::Object(entries.iter().map(|(key, value)| (key.clone(), from_serde(value))).collect())
        },
    }
}

fn parse(text: &str) -> JsonValue {
    from_serde(&serde_json::from_str(text).unwrap())
}

fn get<'a>(value: &'a JsonValue, key: &str) -> Option<&'a JsonValue> {
    match value {
        JsonValue::Object(entries) => entries.iter().find(|(name, _)| name == key).map(|(_, value)| value),
        _ => None,
    }
}

fn at(value: &JsonValue, index: usize) -> &JsonValue {
    match value {
        JsonValue::Array(items) => &items[index],
        other => panic!("not an array: {other:?}"),
    }
}

fn text(value: &JsonValue) -> &str {
    match value {
        JsonValue::String(text) => text,
        other => panic!("not a string: {other:?}"),
    }
}

#[test]
fn backfills_model_bindings_and_rewrites_json() {
    let draft = parse(
        r#"{"schema_version":1,"model":"nai-diffusion-3-furry","main_preset_id":null,"prompt":"中文 😀","negative_prompt":"","characters":[],"character_position_mode":"global","quality":true,"i2i":null,"vibe":{"slots":[{"id":"slot"}]}}"#,
    );
    let draft = migrate_draft(draft).unwrap();
    assert_eq!(text(get(&draft, "model").unwrap()), "nai-diffusion-furry-3");
    assert_eq!(text(get(&draft, "quality").unwrap()), "standard");
    let state = at(get(&draft, "prompt_states").unwrap(), 0);
    assert_eq!(text(get(state, "prompt").unwrap()), "中文 😀");
    let slot = at(get(get(&draft, "vibe").unwrap(), "slots").unwrap(), 0);
    assert_eq!(text(get(slot, "model").unwrap()), "nai-diffusion-furry-3");
    assert!(get(&draft, "i2i").is_some());
    assert!(matches!(get(&draft, "schema_version"), Some(JsonValue::Number(JsonNumber::PosInt(2)))));
    assert!(matches!(get(&draft, "transparent_background"), Some(JsonValue::Bool(false))));

    let payload = parse(
        r#"{"schema_version":1,"request":{"quality":false,"i2i":{"strength":0.5},"controlnet":{"images":[{"encoding":"abc","info_extracted":0.7,"strength":1.0}]}}}"#,
    );
    let payload = migrate_value(payload, true);
    let request = get(&payload, "request").unwrap();
    assert_eq!(text(get(request, "quality").unwrap()), "none");
    assert!(get(request, "img2img").is_some());
    assert!(get(request, "i2i").is_none());
    let reference = at(get(get(request, "vibe_transfer").unwrap(), "references").unwrap(), 0);
    assert!(get(reference, "info_extracted").is_none());
    assert_eq!(text(get(reference, "encoding").unwrap()), "abc");
}

#[test]
fn draft_defaults_missing_prompt_fields() {
    let draft = migrate_draft(parse(r#"{"prompt":"cat"}"#)).unwrap();
    let state = at(get(&draft, "prompt_states").unwrap(), 0);
    assert_eq!(text(get(state, "model").unwrap()), "nai-diffusion-4-5-full");
    assert_eq!(text(get(state, "prompt").unwrap()), "cat");
    assert_eq!(text(get(state, "negative_prompt").unwrap()), "");
    assert_eq!(text(get(state, "character_position_mode").unwrap()), "global");
    assert!(matches!(get(state, "main_preset_id"), Some(JsonValue::Null)));
    assert!(get(&draft, "prompt").is_none());
    let error = migrate_draft(parse("[1,2]")).unwrap_err();
    assert_eq!(error.message(), "generation draft JSON must be an object during schema v4 migration");
}

#[test]
fn model_names_are_corrected() {
    assert_eq!(fix_model_string("nai-diffusion-3-furry"), "nai-diffusion-furry-3");
    assert_eq!(fix_model_string("nai-diffusion-4-full"), "nai-diffusion-4-full");
}

#[test]
fn database_rejects_unknown_format_and_non_current_versions() {
    assert_eq!(validate_schema_metadata(Some(("atelier-workspace-database".to_owned(), 0))).unwrap(), 0);
    let newer = validate_schema_metadata(Some(("atelier-workspace-database".to_owned(), 3))).unwrap_err();
    assert_eq!(newer.kind(), DatabaseErrorKind::UnsupportedSchema);
    assert_eq!(newer.message(), "database schema version 3 is newer than supported version 2");
    let other = validate_schema_metadata(Some(("another-database".to_owned(), 2))).unwrap_err();
    assert_eq!(other.kind(), DatabaseErrorKind::UnsupportedSchema);
    assert_eq!(
        other.message(),
        "unsupported database schema `another-database` version 2; expected `atelier-workspace-database` version 2"
    );
    let missing = validate_schema_metadata(None).unwrap_err();
    assert_eq!(missing.message(), "database does not contain valid Atelier schema metadata");
    let unstartable = next_schema_migration(0, 2).unwrap_err();
    assert_eq!(unstartable.kind(), DatabaseErrorKind::UnsupportedSchema);
    assert_eq!(unstartable.message(), "no database migration starts at schema version 0");
}

#[test]
fn schema_migrations_step_one_version_at_a_time() {
    assert_eq!(next_schema_migration(1, 2).unwrap(), Some(SchemaMigration::V1ToV2));
    assert_eq!(next_schema_migration(2, 2).unwrap(), None);
    assert_eq!(next_schema_migration(5, 8).unwrap(), Some(SchemaMigration::V5ToV6));
    assert_eq!(SchemaMigration::V7ToV8.to_version(), 8);
    assert_eq!(next_schema_migration(-3, 2).unwrap_err().message(), "no database migration starts at schema version -3");
}

#[test]
fn current_marker_database_only_reruns_idempotent_scripts() {
    let applied = LegacyAppliedVersions { current: true, v1: true, v2: true, v3: true, v4: true, v5: true, v6: true, v7: true };
    assert_eq!(
        run_migrations(applied),
        vec![
            LegacyMigrationStep::Execute(LegacyScript::ApiKeyRegistry),
            LegacyMigrationStep::Execute(LegacyScript::PromptResources),
            LegacyMigrationStep::Execute(LegacyScript::Settings),
            LegacyMigrationStep::Execute(LegacyScript::JobHistory),
            LegacyMigrationStep::ExecuteIfColumnMissing(LegacyColumn::RunOutputsOutputState, LegacyScript::RunOutputLifecycle),
            LegacyMigrationStep::Execute(LegacyScript::GenerationBatchHistoryIndex),
        ]
    );
}

#[test]
fn marker_upgrade_marks_missing_versions_and_backfills_history() {
    let applied = LegacyAppliedVersions { current: false, v1: true, v2: false, v3: true, v4: true, v5: false, v6: false, v7: false };
    let steps = run_migrations(applied);
    assert_eq!(steps.first(), Some(&LegacyMigrationStep::BeginTransaction));
    assert_eq!(steps.last(), Some(&LegacyMigrationStep::Commit));
    assert!(steps.contains(&LegacyMigrationStep::MarkApplied(2)));
    assert!(steps.contains(&LegacyMigrationStep::MarkApplied(5)));
    assert!(steps.contains(&LegacyMigrationStep::MarkApplied(6)));
    assert!(!steps.contains(&LegacyMigrationStep::MarkApplied(1)));
    assert!(steps.contains(&LegacyMigrationStep::Execute(LegacyScript::GenerationBatchHistory)));
    assert!(steps.contains(&LegacyMigrationStep::Execute(LegacyScript::GalleryEffectiveSafety)));
    assert_eq!(steps[steps.len() - 2], LegacyMigrationStep::MarkApplied(10));
}

#[test]
fn gallery_items_replace_legacy_assessments_with_scan_state() {
    let (item, state) = migrate_gallery_item(parse(r#"{"id":"item","safety_assessment":null}"#)).unwrap();
    assert_eq!(state, "unscanned");
    assert_eq!(text(get(get(&item, "safety").unwrap(), "state").unwrap()), "unscanned");
    assert!(get(&item, "safety_assessment").is_none());
    let (item, state) = migrate_gallery_item(parse(r#"{"id":"item","safety_assessment":{"score":0.9}}"#)).unwrap();
    assert_eq!(state, "unavailable");
    let safety = get(&item, "safety").unwrap();
    assert_eq!(text(get(safety, "message").unwrap()), "legacy safety assessment requires rescan");
    assert!(matches!(get(&item, "schema_version"), Some(JsonValue::Number(JsonNumber::PosInt(2)))));
    let error = migrate_gallery_item(parse("\"text\"")).unwrap_err();
    assert_eq!(error.message(), "database migration 1->2 failed: gallery item JSON is not an object");
    let stamped = set_json_schema(parse(r#"{"a":1}"#), 2).unwrap();
    assert!(matches!(get(&stamped, "schema_version"), Some(JsonValue::Number(JsonNumber::PosInt(2)))));
    assert_eq!(set_json_schema(parse("3"), 2).unwrap_err().message(), "database migration 1->2 failed: stored JSON is not an object");
}

fn legacy(namespace: &str, owner: &str, name: &str, category: Option<&str>, created: i64) -> LegacyResource {
    LegacyResource {
        namespace: namespace.to_owned(),
        owner_id: owner.to_owned(),
        display_name: name.to_owned(),
        category: category.map(str::to_owned),
        created_at_ms: created,
        updated_at_ms: created + 1,
    }
}

#[test]
fn library_backfill_files_resources_under_category_folders() {
    let resources = vec![
        legacy("prompt_chunk", "c1", "cat", Some(" animals "), 10),
        legacy("prompt_chunk", "c2", "dog", Some("animals"), 20),
        legacy("main_preset", "p1", "base", Some("animals"), 30),
        legacy("prompt_chunk", "c3", "sky", Some("   "), 40),
        legacy("vibe", "v1", "glow", None, 0),
    ];
    let folders = backfill_folders(&resources);
    assert_eq!(folders.len(), 2);
    assert_eq!(folders[0].namespace, "prompt_chunk");
    assert_eq!(folders[0].category, "animals");
    assert_eq!(folders[0].created_at_ms, 10);
    assert_eq!(folders[1].namespace, "main_preset");
    let parents = backfill_parents(&resources, &folders);
    assert_eq!(parents, vec![Some(0), Some(0), Some(1), None, None]);
    assert_eq!(normalized_category(Some("  x  ")), Some("x".to_owned()));
    assert_eq!(normalized_category(Some(" \t ")), None);
    assert_eq!(normalized_category(None), None);
}

#[test]
fn sibling_identifiers_get_numbered_suffixes() {
    let request = |parent: Option<usize>, base: &str| IdentifierRequest {
        namespace: "prompt_chunk".to_owned(),
        parent,
        base: base.to_owned(),
    };
    let identifiers = unique_identifiers(&vec![
        request(None, "item"),
        request(None, "item"),
        request(Some(0), "item"),
        request(None, "item"),
        request(None, "item-2"),
    ]);
    assert_eq!(identifiers, vec!["item", "item-2", "item", "item-3", "item-2-2"]);
    let mut used = Vec::new();
    assert_eq!(unique_identifier("vibe", None, "glow", &mut used), "glow");
    assert_eq!(unique_identifier("vibe", None, "glow", &mut used), "glow-2");
    assert_eq!(used.len(), 2);
}

#[test]
fn vibes_move_to_library_ids_with_their_encodings() {
    let ids = vec![("source-1".to_owned(), "lib-1".to_owned())];
    let document = LegacyVibeDocument {
        vibe_id: "source-1".to_owned(),
        display_name: "Glow".to_owned(),
        has_image: 1,
        document: parse(r#"{"summary":{"document_id":"source-1","display_name":"Glow"}}"#),
    };
    let encodings = vec![LegacyVibeEncoding {
        cache_key: "key".to_owned(),
        source_hash: "hash".to_owned(),
        model: "v4full".to_owned(),
        information_extracted_key: "1.0".to_owned(),
        record: parse(r#"{"vibe_id":"source-1"}"#),
    }];
    let (row, encoded) = copy_vibe(&ids, document, encodings);
    assert_eq!(row.vibe_id, "lib-1");
    assert_eq!(row.source_id, "source-1");
    let summary = get(&row.document, "summary").unwrap();
    assert_eq!(text(get(summary, "document_id").unwrap()), "lib-1");
    assert_eq!(text(get(summary, "source_id").unwrap()), "source-1");
    assert_eq!(encoded.len(), 1);
    assert_eq!(encoded[0].vibe_id, "lib-1");
    assert_eq!(text(get(&encoded[0].record, "vibe_id").unwrap()), "lib-1");

    let renames = update_resource_owners(&ids);
    let views: Vec<(String, String, String)> =
        renames.into_iter().map(|rename| (rename.owner_kind, rename.old_local_id, rename.new_local_id)).collect();
    assert_eq!(
        views,
        vec![
            ("prompt_resource".to_owned(), "chunk:source-1".to_owned(), "chunk:lib-1".to_owned()),
            ("prompt_resource".to_owned(), "preset:source-1".to_owned(), "preset:lib-1".to_owned()),
            ("vibe".to_owned(), "source-1".to_owned(), "lib-1".to_owned()),
        ]
    );
}

#[test]
fn json_strings_are_found_at_any_depth() {
    let draft = parse(r#"{"a":[1,{"b":"needle"}],"c":"other"}"#);
    assert!(json_contains_string(&draft, "needle"));
    assert!(json_contains_string(&draft, "other"));
    assert!(!json_contains_string(&draft, "a"));
}

#[test]
fn migrates_agent_model_capabilities() {
    let migrated = migrate_model_snapshot("session", parse(r#"{"model_id":"m","supports_vision":true}"#)).unwrap();
    let capabilities = get(&migrated, "capabilities").unwrap();
    assert!(matches!(get(capabilities, "image_input"), Some(JsonValue::String(text)) if text == "tool_result"));
    assert!(get(&migrated, "supports_vision").is_none());
    assert!(matches!(get(&migrated, "model_id"), Some(JsonValue::String(text)) if text == "m"));
}

#[test]
fn models_without_vision_take_no_images() {
    for text in [r#"{"model_id":"m"}"#, r#"{"supports_vision":false}"#, r#"{"supports_vision":"yes"}"#] {
        let migrated = migrate_model_snapshot("s", parse(text)).unwrap();
        let capabilities = get(&migrated, "capabilities").unwrap();
        assert!(matches!(get(capabilities, "image_input"), Some(JsonValue::String(text)) if text == "none"));
        assert!(get(&migrated, "supports_vision").is_none());
    }
    let error = migrate_model_snapshot("s-1", parse("[1]")).unwrap_err();
    assert_eq!(error.message(), "Agent model snapshot for session `s-1` must be an object");
    assert_eq!(
        invalid_snapshot_error("s-2", "EOF while parsing").message(),
        "invalid Agent model snapshot for session `s-2`: EOF while parsing"
    );
}

fn to_serde(value: &JsonValue) -> serde_json::Value {
    match value {
        JsonValue::Null => serde_json::Value::Null,
        JsonValue::Bool(flag) => serde_json::Value::Bool(*flag),
        JsonValue::Number(JsonNumber::PosInt(n)) => serde_json::Value::from(*n),
        JsonValue::Number(JsonNumber::NegInt(n)) => serde_json::Value::from(*n),
        JsonValue::Number(JsonNumber::Float(text)) => serde_json::from_str(text).unwrap(),
        JsonValue::String(text) => serde_json::Value::String(text.clone()),
        JsonValue::Array(items) => serde_json::Value::Array(items.iter().map(to_serde).collect()),
        JsonValue::Object(entries) => serde_json::Value::Object(
            entries.iter().map(|(key, value)| (key.clone(), to_serde(value))).collect(),
        ),
    }
}

#[test]
fn rewriting_a_rewritten_document_changes_nothing() {
    let text = r#"{"schema_version":1,"model":"nai-diffusion-3-furry","quality":true,
        "i2i":{"strength":0.5},"controlnet":{"images":[{"image":"a","info_extracted":1.0}]},
        "history":[{"schema_version":1,"quality":false}]}"#;
    for protocol_fields in [false, true] {
        let once = migrate_value(parse(text), protocol_fields);
        let twice = migrate_value(parse(&serde_json::to_string(&to_serde(&once)).unwrap()), protocol_fields);
        assert_eq!(to_serde(&once), to_serde(&twice));
    }
}
