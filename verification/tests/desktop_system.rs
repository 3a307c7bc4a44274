//! The desktop boundary: safety-scanner assets and the open/reveal path policy.

use std::cell::RefCell;

use atelier_adapter_database::desktop::{
    choose_safety_assets, DesktopFileDialog, DesktopNotifier, DesktopPath, DesktopPathOpener, DesktopPathResolver,
    DesktopPaths, DesktopSystem, DesktopSystemError, DesktopSystemResult, PickFilesOptions, ProbedFile,
    SafetyAssetProbe,
};

fn path(text: &str) -> DesktopPath {
    DesktopPath {
        display: text.to_owned(),
        components: text.split('/').filter(|part| !part.is_empty()).map(str::to_owned).collect(),
    }
}

fn probed(text: &str, exists: bool) -> ProbedFile {
    ProbedFile { path: path(text), exists }
}

fn paths_with_app_data(app_data: &str) -> DesktopPaths {
    DesktopPaths {
        app_data_dir: path(app_data),
        app_config_dir: path("/tmp/t/config"),
        app_cache_dir: path("/tmp/t/cache"),
        suggested_workspace_dir: path("/tmp/t/workspace"),
        resource_dir: Some(path("/tmp/t/resources")),
    }
}

fn resolved_roots(system: &DesktopSystem) -> Vec<Option<DesktopPath>> {
    system.app_owned_roots().into_iter().map(Some).collect()
}

#[derive(Default)]
struct RecordingOpener {
    calls: RefCell<Vec<String>>,
}

impl DesktopPathOpener for RecordingOpener {
    fn open_path(&self, path: &DesktopPath) -> DesktopSystemResult<()> {
        self.calls.borrow_mut().push(format!("open:{}", path.display));
        Ok(())
    }

    fn reveal_path(&self, path: &DesktopPath) -> DesktopSystemResult<()> {
        self.calls.borrow_mut().push(format!("reveal:{}", path.display));
        Ok(())
    }
}

struct FakeDialog {
    directory: Option<DesktopPath>,
    files: Vec<DesktopPath>,
    calls: RefCell<Vec<String>>,
}

impl DesktopFileDialog for FakeDialog {
    fn pick_directory(&self) -> DesktopSystemResult<Option<DesktopPath>> {
        self.calls.borrow_mut().push("pick_directory".to_owned());
        Ok(self.directory.clone())
    }

    fn pick_files(&self, options: PickFilesOptions) -> DesktopSystemResult<Vec<DesktopPath>> {
        self.calls.borrow_mut().push(format!("pick_files:{}", options.extensions.join(",")));
        Ok(self.files.clone())
    }
}

/// Resolves every path to itself, except those under `/missing`.
struct IdentityResolver;

impl DesktopPathResolver for IdentityResolver {
    fn canonicalize(&self, path: &DesktopPath) -> DesktopSystemResult<DesktopPath> {
        if path.display.starts_with("/missing") {
            Err(DesktopSystemError::new(format!("failed to resolve path {}: not found", path.display)))
        } else {
            Ok(path.clone())
        }
    }
}

#[derive(Default)]
struct RecordingNotifier {
    calls: RefCell<Vec<String>>,
}

impl DesktopNotifier for RecordingNotifier {
    fn notify(&self, title: &str, body: &str) -> DesktopSystemResult<()> {
        self.calls.borrow_mut().push(format!("{title}|{body}"));
        Ok(())
    }
}

#[test]
fn safety_assets_prefer_environment_paths() {
    let probe = SafetyAssetProbe {
        env_model: Some(probed("/tmp/t/env-model.onnx", true)),
        env_runtime: Some(probed("/tmp/t/libonnxruntime.so", true)),
        bundled: Some((probed("/tmp/t/resources/safety/open_nsfw.onnx", true), probed("/tmp/t/resources/safety/libonnxruntime.so", true))),
    };
    let assets = choose_safety_assets(probe).unwrap().unwrap();
    assert_eq!(assets.model_path.display, "/tmp/t/env-model.onnx");
    assert_eq!(assets.runtime_library_path.unwrap().display, "/tmp/t/libonnxruntime.so");
}

#[test]
fn safety_assets_fall_back_to_bundled_resource_paths() {
    let probe = SafetyAssetProbe {
        env_model: None,
        env_runtime: None,
        bundled: Some((probed("/tmp/t/resources/safety/open_nsfw.onnx", true), probed("/tmp/t/resources/safety/libonnxruntime.so", true))),
    };
    let assets = choose_safety_assets(probe).unwrap().unwrap();
    assert_eq!(assets.model_path.display, "/tmp/t/resources/safety/open_nsfw.onnx");
    assert_eq!(assets.runtime_library_path.unwrap().display, "/tmp/t/resources/safety/libonnxruntime.so");
}

#[test]
fn safety_assets_are_optional_when_missing() {
    let probe = SafetyAssetProbe {
        env_model: None,
        env_runtime: None,
        bundled: Some((probed("/tmp/t/resources/safety/open_nsfw.onnx", false), probed("/tmp/t/resources/safety/libonnxruntime.so", false))),
    };
    assert!(choose_safety_assets(probe).unwrap().is_none());
    let no_resources = SafetyAssetProbe { env_model: None, env_runtime: None, bundled: None };
    assert!(choose_safety_assets(no_resources).unwrap().is_none());
}

#[test]
fn safety_assets_report_incomplete_environment() {
    let missing_runtime = SafetyAssetProbe { env_model: Some(probed("/m.onnx", true)), env_runtime: None, bundled: None };
    assert_eq!(
        choose_safety_assets(missing_runtime).unwrap_err().message(),
        "NAI_ATELIER_ONNX_RUNTIME must be set when safety model env is set"
    );
    let missing_model = SafetyAssetProbe {
        env_model: Some(probed("/m.onnx", false)),
        env_runtime: Some(probed("/r.so", true)),
        bundled: None,
    };
    assert_eq!(choose_safety_assets(missing_model).unwrap_err().message(), "safety model file is missing: /m.onnx");
    let missing_library = SafetyAssetProbe {
        env_model: Some(probed("/m.onnx", true)),
        env_runtime: Some(probed("/r.so", false)),
        bundled: None,
    };
    assert_eq!(
        choose_safety_assets(missing_library).unwrap_err().message(),
        "ONNX Runtime library file is missing: /r.so"
    );
}

#[test]
fn open_and_reveal_reject_paths_outside_app_roots_or_user_picks() {
    let system = DesktopSystem::new(paths_with_app_data("/tmp/t/app-data"));
    let opener = RecordingOpener::default();
    let outside = path("/tmp/t/outside.png");
    let roots = resolved_roots(&system);

    let opened = system.open_path(&outside, Ok(outside.clone()), &roots, &opener);
    let revealed = system.reveal_path(&outside, Ok(outside.clone()), &roots, &opener);

    assert_eq!(opened.unwrap_err().message(), "desktop path is not app-owned or user-selected: /tmp/t/outside.png");
    assert!(revealed.is_err());
    assert!(opener.calls.borrow().is_empty());
}

#[test]
fn open_and_reveal_allow_app_owned_and_user_selected_paths() {
    let mut system = DesktopSystem::new(paths_with_app_data("/tmp/t/app-data"));
    let app_owned = path("/tmp/t/app-data/gallery/image.png");
    let selected = path("/tmp/t/selected.png");
    system.allow_user_path(Ok(selected.clone())).unwrap();
    let opener = RecordingOpener::default();
    let roots = resolved_roots(&system);

    system.open_path(&app_owned, Ok(app_owned.clone()), &roots, &opener).unwrap();
    system.reveal_path(&selected, Ok(selected.clone()), &roots, &opener).unwrap();

    assert_eq!(
        *opener.calls.borrow(),
        vec!["open:/tmp/t/app-data/gallery/image.png".to_owned(), "reveal:/tmp/t/selected.png".to_owned()]
    );
}

#[test]
fn dialog_picks_are_recorded_as_user_allowed_paths() {
    let mut system = DesktopSystem::new(paths_with_app_data("/tmp/t/app-data"));
    let picked_dir = path("/tmp/t/workspace-pick");
    let picked_file = path("/tmp/t/source.png");
    let dialog = FakeDialog {
        directory: Some(picked_dir.clone()),
        files: vec![picked_file.clone()],
        calls: RefCell::new(Vec::new()),
    };
    let opener = RecordingOpener::default();

    assert_eq!(
        system.pick_workspace_directory(&dialog, &IdentityResolver).unwrap(),
        Some(picked_dir.clone())
    );
    assert_eq!(
        system.pick_image_files(&dialog, &IdentityResolver, PickFilesOptions::default()).unwrap(),
        vec![picked_file.clone()]
    );
    let roots = resolved_roots(&system);
    system.open_path(&picked_dir, Ok(picked_dir.clone()), &roots, &opener).unwrap();
    system.reveal_path(&picked_file, Ok(picked_file.clone()), &roots, &opener).unwrap();

    assert_eq!(
        *opener.calls.borrow(),
        vec!["open:/tmp/t/workspace-pick".to_owned(), "reveal:/tmp/t/source.png".to_owned()]
    );
}

#[test]
fn cancelled_or_unresolvable_picks_record_nothing() {
    let mut system = DesktopSystem::new(paths_with_app_data("/tmp/t/app-data"));
    let cancelled = FakeDialog { directory: None, files: Vec::new(), calls: RefCell::new(Vec::new()) };
    assert_eq!(system.pick_export_directory(&cancelled, &IdentityResolver).unwrap(), None);
    assert!(system.pick_vibe_documents(&cancelled, &IdentityResolver, PickFilesOptions::default()).unwrap().is_empty());

    let missing = path("/missing/workspace");
    let broken = FakeDialog {
        directory: Some(missing.clone()),
        files: vec![path("/tmp/t/a.naiv4vibe"), path("/missing/b.naiv4vibe"), path("/tmp/t/c.naiv4vibe")],
        calls: RefCell::new(Vec::new()),
    };
    let error = system.pick_workspace_directory(&broken, &IdentityResolver).unwrap_err();
    assert_eq!(error.message(), "failed to resolve path /missing/workspace: not found");
    assert!(!system.is_user_allowed_path(&missing));

    let options = PickFilesOptions { extensions: vec!["naiv4vibe".to_owned()] };
    let error = system.pick_vibe_documents(&broken, &IdentityResolver, options).unwrap_err();
    assert_eq!(error.message(), "failed to resolve path /missing/b.naiv4vibe: not found");
    assert!(system.is_user_allowed_path(&path("/tmp/t/a.naiv4vibe")));
    assert!(!system.is_user_allowed_path(&path("/tmp/t/c.naiv4vibe")));
    assert_eq!(*broken.calls.borrow(), vec!["pick_directory".to_owned(), "pick_files:naiv4vibe".to_owned()]);
}

#[test]
fn opened_workspace_root_can_be_recorded_without_picker() {
    let mut system = DesktopSystem::new(paths_with_app_data("/tmp/t/app-data"));
    let workspace = path("/tmp/t/external-workspace");
    let workspace_file = path("/tmp/t/external-workspace/workspace.json");
    let opener = RecordingOpener::default();

    system.allow_user_path(Ok(workspace)).unwrap();
    let roots = resolved_roots(&system);
    system.reveal_path(&workspace_file, Ok(workspace_file.clone()), &roots, &opener).unwrap();

    assert_eq!(*opener.calls.borrow(), vec!["reveal:/tmp/t/external-workspace/workspace.json".to_owned()]);
}

#[test]
fn notifier_backend_receives_notification_request() {
    let system = DesktopSystem::new(paths_with_app_data("/tmp/t/app-data"));
    let notifier = RecordingNotifier::default();

    system.notify("Generation finished", "job-1 completed", &notifier).unwrap();

    assert_eq!(*notifier.calls.borrow(), vec!["Generation finished|job-1 completed".to_owned()]);
}

#[test]
fn unresolved_picks_stop_recording_at_the_first_failure() {
    let mut system = DesktopSystem::new(paths_with_app_data("/tmp/t/app-data"));
    let first = path("/tmp/t/a.png");
    let third = path("/tmp/t/c.png");
    let failure = DesktopSystemError::new("failed to resolve path /tmp/t/b.png: missing".to_owned());
    let result = system.allow_user_paths(vec![Ok(first.clone()), Err(failure), Ok(third.clone())]);
    assert_eq!(result.unwrap_err().message(), "failed to resolve path /tmp/t/b.png: missing");
    assert!(system.is_user_allowed_path(&first));
    assert!(!system.is_user_allowed_path(&third));
}

#[test]
fn prefixes_compare_whole_components() {
    let mut system = DesktopSystem::new(paths_with_app_data("/tmp/t/app-data"));
    system.allow_user_path(Ok(path("/tmp/t/work"))).unwrap();
    assert!(system.is_user_allowed_path(&path("/tmp/t/work/file.png")));
    assert!(!system.is_user_allowed_path(&path("/tmp/t/workshop/file.png")));
    let roots = vec![None, Some(path("/tmp/t/app-data"))];
    assert!(system.is_app_owned_path(&path("/tmp/t/app-data/x"), &roots));
    assert!(!system.is_app_owned_path(&path("/tmp/t/config/x"), &roots));
    assert_eq!(system.app_owned_roots().len(), 5);
    assert_eq!(PickFilesOptions::default().extensions.len(), 0);
}

#[test]
fn unresolvable_path_reports_its_resolution_error() {
    let system = DesktopSystem::new(paths_with_app_data("/tmp/t/app-data"));
    let opener = RecordingOpener::default();
    let missing = path("/tmp/t/missing.png");
    let failure = DesktopSystemError::new("failed to resolve path /tmp/t/missing.png: not found".to_owned());
    let roots = resolved_roots(&system);
    let result = system.open_path(&missing, Err(failure), &roots, &opener);
    assert_eq!(result.unwrap_err().message(), "failed to resolve path /tmp/t/missing.png: not found");
    assert!(opener.calls.borrow().is_empty());
}

/// Resolves a path to the same path under `/real`.
struct PrefixResolver;

impl DesktopPathResolver for PrefixResolver {
    fn canonicalize(&self, path: &DesktopPath) -> DesktopSystemResult<DesktopPath> {
        Ok(self::path(&format!("/real{}", path.display)))
    }
}

#[test]
fn picks_return_what_the_dialog_gave_and_record_canonical_forms() {
    let mut system = DesktopSystem::new(paths_with_app_data("/tmp/t/app-data"));
    let dialog = FakeDialog {
        directory: Some(path("/link/workspace")),
        files: vec![path("/link/a.png"), path("/link/b.png")],
        calls: RefCell::new(Vec::new()),
    };
    assert_eq!(system.pick_workspace_directory(&dialog, &PrefixResolver).unwrap(), Some(path("/link/workspace")));
    assert!(system.is_user_allowed_path(&path("/real/link/workspace")));
    assert!(!system.is_user_allowed_path(&path("/link/workspace")));
    let files = system.pick_image_files(&dialog, &PrefixResolver, PickFilesOptions::default()).unwrap();
    assert_eq!(files, vec![path("/link/a.png"), path("/link/b.png")]);
    assert!(system.is_user_allowed_path(&path("/real/link/a.png")));
    assert!(system.is_user_allowed_path(&path("/real/link/b.png")));
    assert!(!system.is_user_allowed_path(&path("/link/a.png")));
}
