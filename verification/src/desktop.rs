//! Desktop integration boundary: which filesystem paths the application may
//! open or reveal, and where the optional safety-scanner assets live.
//!
//! Paths are held as their components (what `Path` equality and
//! `Path::starts_with` compare) together with the text shown in messages.
//! Resolving a path to its canonical form touches the filesystem, so callers
//! resolve first and hand the outcome to these functions.

use vstd::prelude::*;

use crate::text::str_eq;

verus! {

/// The components of a path, each as text.
pub open spec fn components_view(components: Seq<String>) -> Seq<Seq<char>> {
    components.map_values(|component: String| component@)
}

/// `prefix` names `path` itself or a directory that contains it, comparing
/// whole components.
pub open spec fn is_component_prefix(prefix: Seq<Seq<char>>, path: Seq<Seq<char>>) -> bool {
    prefix.len() <= path.len() && path.subrange(0, prefix.len() as int) == prefix
}

/// A filesystem path: the text shown to users and its components.
#[derive(Clone, Debug, PartialEq, Eq)]
pub struct DesktopPath {
    pub display: String,
    pub components: Vec<String>,
}

impl DesktopPath {
    /// The components of this path.
    pub open spec fn spec_components(&self) -> Seq<Seq<char>> {
        components_view(self.components@)
    }

    /// The shown text and the components of this path.
    pub open spec fn spec_view(&self) -> (Seq<char>, Seq<Seq<char>>) {
        (self.display@, self.spec_components())
    }
}

/// A copy of `path`.
pub fn clone_path(path: &DesktopPath) -> (copy: DesktopPath)
    ensures
        copy.spec_view() == path.spec_view(),
{
    let components = path.components.clone();
    assert(components@ =~= path.components@);
    DesktopPath { display: path.display.clone(), components }
}

/// Compares two component lists one component at a time.
fn components_equal_prefix(path: &Vec<String>, prefix: &Vec<String>) -> (starts: bool)
    ensures
        starts == is_component_prefix(components_view(prefix@), components_view(path@)),
{
    if prefix.len() > path.len() {
        return false;
    }
    let mut index: usize = 0;
    while index < prefix.len()
        invariant
            prefix.len() <= path.len(),
            index <= prefix.len(),
            forall|j: int| 0 <= j < index ==> path@[j]@ == prefix@[j]@,
        decreases prefix.len() - index,
    {
        if !str_eq(path[index].as_str(), prefix[index].as_str()) {
            proof {
                let p = components_view(path@).subrange(0, prefix@.len() as int);
                assert(p[index as int] != components_view(prefix@)[index as int]);
            }
            return false;
        }
        index = index + 1;
    }
    assert(components_view(path@).subrange(0, prefix@.len() as int) =~= components_view(prefix@));
    true
}

/// `path` starts with `prefix`, comparing whole components.
pub fn path_starts_with(path: &DesktopPath, prefix: &DesktopPath) -> (starts: bool)
    ensures
        starts == is_component_prefix(prefix.spec_components(), path.spec_components()),
{
    components_equal_prefix(&path.components, &prefix.components)
}

/// A failure of a desktop operation, with its message.
#[derive(Clone, Debug, PartialEq, Eq)]
pub struct DesktopSystemError {
    message: String,
}

/// The result type of desktop operations.
pub type DesktopSystemResult<T> = Result<T, DesktopSystemError>;

impl DesktopSystemError {
    /// The message of this error.
    pub closed spec fn spec_message(&self) -> Seq<char> {
        self.message@
    }

    /// An error carrying `message`.
    pub fn new(message: String) -> (error: Self)
        ensures
            error.spec_message() == message@,
    {
        DesktopSystemError { message }
    }

    /// The message of this error, as shown to users.
    pub fn message(&self) -> (message: &str)
        ensures
            message@ == self.spec_message(),
    {
        self.message.as_str()
    }
}

/// The directories the application owns.
#[derive(Clone, Debug, PartialEq, Eq)]
pub struct DesktopPaths {
    pub app_data_dir: DesktopPath,
    pub app_config_dir: DesktopPath,
    pub app_cache_dir: DesktopPath,
    pub suggested_workspace_dir: DesktopPath,
    pub resource_dir: Option<DesktopPath>,
}

/// Index of the first path in `resolved` that could not be resolved, or the
/// length of `resolved` when every path resolved.
pub open spec fn first_unresolved(resolved: Seq<DesktopSystemResult<DesktopPath>>) -> int
    decreases resolved.len(),
{
    if resolved.len() == 0 {
        0
    } else if resolved[0] is Err {
        0
    } else {
        1 + first_unresolved(resolved.skip(1))
    }
}

/// The components of every path in `resolved` that resolved.
pub open spec fn resolved_paths(resolved: Seq<DesktopSystemResult<DesktopPath>>) -> Set<Seq<Seq<char>>> {
    Set::new(|path: Seq<Seq<char>>|
        exists|i: int| 0 <= i < resolved.len() && #[trigger] resolved[i] is Ok
            && resolved[i]->Ok_0.spec_components() == path)
}

proof fn lemma_first_unresolved_at(resolved: Seq<DesktopSystemResult<DesktopPath>>, at: int)
    requires
        0 <= at < resolved.len(),
        resolved[at] is Err,
        forall|j: int| 0 <= j < at ==> #[trigger] resolved[j] is Ok,
    ensures
        first_unresolved(resolved) == at,
    decreases at,
{
    if at > 0 {
        assert(resolved[0] is Ok);
        let rest = resolved.skip(1);
        assert forall|j: int| 0 <= j < at - 1 implies #[trigger] rest[j] is Ok by {
            assert(rest[j] == resolved[j + 1]);
        }
        lemma_first_unresolved_at(rest, at - 1);
    }
}

proof fn lemma_first_unresolved_none(resolved: Seq<DesktopSystemResult<DesktopPath>>)
    requires
        forall|j: int| 0 <= j < resolved.len() ==> #[trigger] resolved[j] is Ok,
    ensures
        first_unresolved(resolved) == resolved.len(),
    decreases resolved.len(),
{
    if resolved.len() > 0 {
        assert(resolved[0] is Ok);
        let rest = resolved.skip(1);
        assert forall|j: int| 0 <= j < rest.len() implies #[trigger] rest[j] is Ok by {
            assert(rest[j] == resolved[j + 1]);
        }
        lemma_first_unresolved_none(rest);
    }
}

proof fn lemma_resolved_paths_push(start: Set<Seq<Seq<char>>>, resolved: Seq<DesktopSystemResult<DesktopPath>>, at: int)
    requires
        0 <= at < resolved.len(),
        resolved[at] is Ok,
    ensures
        start.union(resolved_paths(resolved.take(at))).insert(resolved[at]->Ok_0.spec_components())
            == start.union(resolved_paths(resolved.take(at + 1))),
{
    let before = resolved.take(at);
    let after = resolved.take(at + 1);
    let added = resolved[at]->Ok_0.spec_components();
    assert forall|path: Seq<Seq<char>>| #[trigger] resolved_paths(after).contains(path)
        <==> resolved_paths(before).insert(added).contains(path) by {
        if resolved_paths(after).contains(path) {
            let i = choose|i: int| 0 <= i < after.len() && #[trigger] after[i] is Ok
                && after[i]->Ok_0.spec_components() == path;
            if i < at {
                assert(before[i] == after[i]);
            }
        }
        if resolved_paths(before).contains(path) {
            let i = choose|i: int| 0 <= i < before.len() && #[trigger] before[i] is Ok
                && before[i]->Ok_0.spec_components() == path;
            assert(after[i] == before[i]);
        }
        if path == added {
            assert(after[at] == resolved[at]);
        }
    }
    assert(resolved_paths(after) =~= resolved_paths(before).insert(added));
    assert(start.union(resolved_paths(before)).insert(added) =~= start.union(resolved_paths(after)));
}

/// The roots the application owns, in the order they are checked.
pub open spec fn app_owned_roots_of(paths: DesktopPaths) -> Seq<DesktopPath> {
    let fixed = seq![
        paths.app_data_dir,
        paths.app_config_dir,
        paths.app_cache_dir,
        paths.suggested_workspace_dir,
    ];
    match paths.resource_dir {
        Some(resource_dir) => fixed.push(resource_dir),
        None => fixed,
    }
}

/// The application's roots are exactly its directories: data, config,
/// cache and suggested workspace, and the resource directory when it has
/// one; each of them is among the roots.
pub proof fn lemma_app_roots_are_the_app_directories(paths: DesktopPaths)
    ensures
        app_owned_roots_of(paths).contains(paths.app_data_dir),
        app_owned_roots_of(paths).contains(paths.app_config_dir),
        app_owned_roots_of(paths).contains(paths.app_cache_dir),
        app_owned_roots_of(paths).contains(paths.suggested_workspace_dir),
        paths.resource_dir matches Some(dir) ==> app_owned_roots_of(paths).contains(dir),
        app_owned_roots_of(paths).len() == (if paths.resource_dir is Some { 5int } else { 4int }),
        forall|i: int| 0 <= i < app_owned_roots_of(paths).len() ==> {
            let root = #[trigger] app_owned_roots_of(paths)[i];
            ||| root == paths.app_data_dir
            ||| root == paths.app_config_dir
            ||| root == paths.app_cache_dir
            ||| root == paths.suggested_workspace_dir
            ||| paths.resource_dir == Some(root)
        },
{
    let roots = app_owned_roots_of(paths);
    assert(roots[0] == paths.app_data_dir);
    assert(roots[1] == paths.app_config_dir);
    assert(roots[2] == paths.app_cache_dir);
    assert(roots[3] == paths.suggested_workspace_dir);
    if let Some(dir) = paths.resource_dir {
        assert(roots[4] == dir);
    }
}

/// A path whose canonical form lies under one of the application's
/// directories (each resolving to itself) may be opened, whatever the user
/// has selected.
pub proof fn lemma_paths_under_app_directories_open(
    paths: DesktopPaths,
    allowed: Set<Seq<Seq<char>>>,
    directory: DesktopPath,
    canonical: DesktopPath,
)
    requires
        directory == paths.app_data_dir || directory == paths.app_config_dir || directory == paths.app_cache_dir
            || directory == paths.suggested_workspace_dir || paths.resource_dir == Some(directory),
        is_component_prefix(directory.spec_components(), canonical.spec_components()),
    ensures
        open_allowed(
            allowed,
            app_owned_roots_of(paths).map_values(|root: DesktopPath| Some(root)),
            Ok::<DesktopPath, DesktopSystemError>(canonical),
        ),
{
    lemma_app_roots_are_the_app_directories(paths);
    let roots = app_owned_roots_of(paths);
    let resolved = roots.map_values(|root: DesktopPath| Some(root));
    let i = choose|i: int| 0 <= i < roots.len() && roots[i] == directory;
    assert(resolved[i] == Some(directory));
    assert(app_roots_cover(resolved, canonical.spec_components()));
}

/// File-type filters of a file picker.
#[derive(Clone, Debug, PartialEq, Eq)]
pub struct PickFilesOptions {
    pub extensions: Vec<String>,
}

impl Default for PickFilesOptions {
    fn default() -> (options: Self)
        ensures
            options.extensions@.len() == 0,
    {
        PickFilesOptions { extensions: Vec::new() }
    }
}

/// Opens or reveals paths through the host operating system.
pub trait DesktopPathOpener {
    /// Opens a path through the host OS.
    fn open_path(&self, path: &DesktopPath) -> DesktopSystemResult<()>;

    /// Reveals a path in the host file manager.
    fn reveal_path(&self, path: &DesktopPath) -> DesktopSystemResult<()>;
}

/// Native directory and file pickers.
pub trait DesktopFileDialog {
    /// Opens a directory picker; `None` when the user cancels.
    fn pick_directory(&self) -> DesktopSystemResult<Option<DesktopPath>>;

    /// Opens a multi-file picker.
    fn pick_files(&self, options: PickFilesOptions) -> DesktopSystemResult<Vec<DesktopPath>>;
}

/// Resolves paths on the host filesystem.
pub trait DesktopPathResolver {
    /// The canonical form of an existing path, or why it cannot be resolved.
    fn canonicalize(&self, path: &DesktopPath) -> DesktopSystemResult<DesktopPath>;
}

/// Sends desktop notifications.
pub trait DesktopNotifier {
    /// Sends a desktop notification.
    fn notify(&self, title: &str, body: &str) -> DesktopSystemResult<()>;
}

/// What picking a directory does, given the dialog's answer `picked` and,
/// when it picked a path, the resolver's answer `resolution` for that path:
/// the picked path is returned and its canonical form recorded; a cancelled
/// pick is returned as such; every failure is passed on and records nothing.
pub open spec fn directory_pick_outcome(
    before: Set<Seq<Seq<char>>>,
    after: Set<Seq<Seq<char>>>,
    picked: DesktopSystemResult<Option<DesktopPath>>,
    resolution: DesktopSystemResult<DesktopPath>,
    result: DesktopSystemResult<Option<DesktopPath>>,
) -> bool {
    match picked {
        Err(error) => result == Err::<Option<DesktopPath>, DesktopSystemError>(error) && after == before,
        Ok(None) => result == Ok::<Option<DesktopPath>, DesktopSystemError>(None) && after == before,
        Ok(Some(path)) => match resolution {
            Ok(canonical) => result == Ok::<Option<DesktopPath>, DesktopSystemError>(Some(path))
                && after == before.insert(canonical.spec_components()),
            Err(error) => result == Err::<Option<DesktopPath>, DesktopSystemError>(error) && after == before,
        },
    }
}

/// What picking files does, given the dialog's answer `picked` and the
/// resolver's answers `resolved` for its files, taken in order up to and
/// including the first that failed: the canonical forms of the files before
/// that failure are recorded; when every file resolved, the files are
/// returned as the dialog gave them, otherwise the failure is passed on; a
/// failed dialog is passed on and records nothing.
pub open spec fn files_pick_outcome(
    before: Set<Seq<Seq<char>>>,
    after: Set<Seq<Seq<char>>>,
    picked: DesktopSystemResult<Vec<DesktopPath>>,
    resolved: Seq<DesktopSystemResult<DesktopPath>>,
    result: DesktopSystemResult<Vec<DesktopPath>>,
) -> bool {
    match picked {
        Err(error) => result == Err::<Vec<DesktopPath>, DesktopSystemError>(error) && after == before,
        Ok(files) => {
            let stop = first_unresolved(resolved);
            &&& resolved.len() <= files@.len()
            &&& after == before.union(resolved_paths(resolved.take(stop)))
            &&& if stop < resolved.len() {
                &&& stop == resolved.len() - 1
                &&& result == Err::<Vec<DesktopPath>, DesktopSystemError>(resolved[stop]->Err_0)
            } else {
                &&& resolved.len() == files@.len()
                &&& result matches Ok(returned) && returned@ == files@
            }
        },
    }
}

/// The resolver answered `resolved[i]` for the `i`th of `files`.
pub open spec fn resolutions_of<R: DesktopPathResolver>(
    resolver: &R,
    files: Seq<DesktopPath>,
    resolved: Seq<DesktopSystemResult<DesktopPath>>,
) -> bool {
    &&& resolved.len() <= files.len()
    &&& forall|i: int| 0 <= i < resolved.len() ==> call_ensures(R::canonicalize, (resolver, &files[i]), #[trigger] resolved[i])
}

/// Some recorded path is `path` itself or one of its ancestors.
pub open spec fn user_allowed_covers(allowed: Set<Seq<Seq<char>>>, path: Seq<Seq<char>>) -> bool {
    exists|recorded: Seq<Seq<char>>| allowed.contains(recorded) && is_component_prefix(recorded, path)
}

/// Some resolved application root is `path` itself or one of its ancestors.
pub open spec fn app_roots_cover(roots: Seq<Option<DesktopPath>>, path: Seq<Seq<char>>) -> bool {
    exists|i: int|
        0 <= i < roots.len() && #[trigger] roots[i] is Some
            && is_component_prefix(roots[i]->0.spec_components(), path)
}

/// The message refusing to open `display`.
pub open spec fn not_allowed_message(display: Seq<char>) -> Seq<char> {
    "desktop path is not app-owned or user-selected: "@ + display
}

/// The desktop boundary: the application's directories and the paths the
/// user has selected. A host that hands the boundary to several callers
/// shares one value, so that a path recorded through one caller is allowed
/// for all of them.
#[derive(Debug)]
pub struct DesktopSystem {
    paths: DesktopPaths,
    user_allowed_paths: Vec<DesktopPath>,
}

impl DesktopSystem {
    /// The application's directories.
    pub closed spec fn spec_paths(&self) -> DesktopPaths {
        self.paths
    }

    /// The canonical paths the user has selected.
    pub closed spec fn user_allowed(&self) -> Set<Seq<Seq<char>>> {
        Set::new(|path: Seq<Seq<char>>|
            exists|i: int| 0 <= i < self.user_allowed_paths@.len()
                && #[trigger] self.user_allowed_paths@[i].spec_components() == path)
    }

    /// A boundary over `paths` with no user-selected path yet.
    pub fn new(paths: DesktopPaths) -> (system: Self)
        ensures
            system.spec_paths() == paths,
            system.user_allowed() == Set::<Seq<Seq<char>>>::empty(),
    {
        let system = DesktopSystem { paths, user_allowed_paths: Vec::new() };
        assert(system.user_allowed() =~= Set::<Seq<Seq<char>>>::empty());
        system
    }

    /// The application's directories.
    pub fn paths(&self) -> (paths: &DesktopPaths)
        ensures
            *paths == self.spec_paths(),
    {
        &self.paths
    }

    /// Records a user-selected path, given its canonical form, as safe for
    /// later open or reveal actions. A path that could not be resolved is
    /// reported with the resolution's error and nothing is recorded.
    pub fn allow_user_path(&mut self, resolved: DesktopSystemResult<DesktopPath>) -> (result: DesktopSystemResult<()>)
        ensures
            final(self).spec_paths() == old(self).spec_paths(),
            match resolved {
                Ok(canonical) => {
                    &&& result is Ok
                    &&& final(self).user_allowed() == old(self).user_allowed().insert(canonical.spec_components())
                },
                Err(error) => {
                    &&& result == Err::<(), DesktopSystemError>(error)
                    &&& final(self).user_allowed() == old(self).user_allowed()
                },
            },
    {
        match resolved {
            Ok(canonical) => {
                self.record(canonical);
                Ok(())
            },
            Err(error) => Err(error),
        }
    }

    fn record(&mut self, canonical: DesktopPath)
        ensures
            final(self).spec_paths() == old(self).spec_paths(),
            final(self).user_allowed() == old(self).user_allowed().insert(canonical.spec_components()),
    {
        let ghost before = self.user_allowed();
        let mut index: usize = 0;
        let mut present = false;
        while index < self.user_allowed_paths.len()
            invariant
                index <= self.user_allowed_paths.len(),
                before == self.user_allowed(),
                present ==> before.contains(canonical.spec_components()),
            decreases self.user_allowed_paths.len() - index,
        {
            if path_starts_with(&self.user_allowed_paths[index], &canonical)
                && path_starts_with(&canonical, &self.user_allowed_paths[index]) {
                proof {
                    let entry = self.user_allowed_paths@[index as int].spec_components();
                    assert(entry.subrange(0, canonical.spec_components().len() as int) == canonical.spec_components());
                    assert(entry =~= canonical.spec_components());
                    assert(before.contains(entry));
                }
                present = true;
            }
            index = index + 1;
        }
        if present {
            assert(before.insert(canonical.spec_components()) =~= before);
        } else {
            self.user_allowed_paths.push(canonical);
            assert(self.user_allowed() =~= before.insert(canonical.spec_components())) by {
                assert forall|path: Seq<Seq<char>>| #[trigger] self.user_allowed().contains(path)
                    implies before.insert(canonical.spec_components()).contains(path) by {
                    let i = choose|i: int| 0 <= i < self.user_allowed_paths@.len()
                        && #[trigger] self.user_allowed_paths@[i].spec_components() == path;
                    if i < self.user_allowed_paths@.len() - 1 {
                        assert(before.contains(path));
                    }
                }
                assert forall|path: Seq<Seq<char>>| #[trigger] before.insert(canonical.spec_components()).contains(path)
                    implies self.user_allowed().contains(path) by {
                    if path == canonical.spec_components() {
                        let last = self.user_allowed_paths@.len() - 1;
                        assert(self.user_allowed_paths@[last].spec_components() == path);
                    } else {
                        let i = choose|i: int| 0 <= i < old(self).user_allowed_paths@.len()
                            && #[trigger] old(self).user_allowed_paths@[i].spec_components() == path;
                        assert(self.user_allowed_paths@[i].spec_components() == path);
                    }
                }
            }
        }
    }

    /// Opens a directory picker for workspace roots and records the chosen
    /// directory, resolved by `resolver`, as user-selected. A cancelled pick
    /// and every failure leave the selected paths as they were.
    pub fn pick_workspace_directory<D: DesktopFileDialog, R: DesktopPathResolver>(
        &mut self,
        dialog: &D,
        resolver: &R,
    ) -> (result: DesktopSystemResult<Option<DesktopPath>>)
        ensures
            final(self).spec_paths() == old(self).spec_paths(),
            exists|picked: DesktopSystemResult<Option<DesktopPath>>, resolution: DesktopSystemResult<DesktopPath>|
                call_ensures(D::pick_directory, (dialog,), picked)
                && (picked matches Ok(Some(path)) ==> call_ensures(R::canonicalize, (resolver, &path), resolution))
                && #[trigger] directory_pick_outcome(
                    old(self).user_allowed(), final(self).user_allowed(), picked, resolution, result),
    {
        let answer = dialog.pick_directory();
        let ghost picked = answer;
        let picked_path = match answer {
            Ok(Some(path)) => path,
            Ok(None) => {
                assert(directory_pick_outcome(
                    old(self).user_allowed(), self.user_allowed(), picked, vstd::pervasive::arbitrary(), Ok(None)));
                return Ok(None);
            },
            Err(error) => {
                assert(directory_pick_outcome(
                    old(self).user_allowed(), self.user_allowed(), picked, vstd::pervasive::arbitrary(), Err(error)));
                return Err(error);
            },
        };
        let resolution = resolver.canonicalize(&picked_path);
        let ghost resolution_view = resolution;
        match resolution {
            Ok(canonical) => {
                let ghost recorded = canonical.spec_components();
                let _ = self.allow_user_path(Ok(canonical));
                assert(self.user_allowed() == old(self).user_allowed().insert(recorded));
                let ghost returned = Ok::<Option<DesktopPath>, DesktopSystemError>(Some(picked_path));
                assert(directory_pick_outcome(
                    old(self).user_allowed(), self.user_allowed(), picked, resolution_view, returned));
                Ok(Some(picked_path))
            },
            Err(error) => {
                assert(directory_pick_outcome(
                    old(self).user_allowed(), self.user_allowed(), picked, resolution_view, Err(error)));
                Err(error)
            },
        }
    }

    /// Opens a directory picker for export targets; the same as picking a
    /// workspace directory.
    pub fn pick_export_directory<D: DesktopFileDialog, R: DesktopPathResolver>(
        &mut self,
        dialog: &D,
        resolver: &R,
    ) -> (result: DesktopSystemResult<Option<DesktopPath>>)
        ensures
            final(self).spec_paths() == old(self).spec_paths(),
            exists|picked: DesktopSystemResult<Option<DesktopPath>>, resolution: DesktopSystemResult<DesktopPath>|
                call_ensures(D::pick_directory, (dialog,), picked)
                && (picked matches Ok(Some(path)) ==> call_ensures(R::canonicalize, (resolver, &path), resolution))
                && #[trigger] directory_pick_outcome(
                    old(self).user_allowed(), final(self).user_allowed(), picked, resolution, result),
    {
        self.pick_workspace_directory(dialog, resolver)
    }

    /// Opens a file picker for image resources and records each chosen file.
    pub fn pick_image_files<D: DesktopFileDialog, R: DesktopPathResolver>(
        &mut self,
        dialog: &D,
        resolver: &R,
        options: PickFilesOptions,
    ) -> (result: DesktopSystemResult<Vec<DesktopPath>>)
        ensures
            final(self).spec_paths() == old(self).spec_paths(),
            exists|picked: DesktopSystemResult<Vec<DesktopPath>>, resolved: Seq<DesktopSystemResult<DesktopPath>>|
                call_ensures(D::pick_files, (dialog, options), picked)
                && (picked matches Ok(files) ==> resolutions_of(resolver, files@, resolved))
                && #[trigger] files_pick_outcome(old(self).user_allowed(), final(self).user_allowed(), picked, resolved, result),
    {
        self.pick_files(dialog, resolver, options)
    }

    /// Opens a file picker for Vibe documents and records each chosen file.
    pub fn pick_vibe_documents<D: DesktopFileDialog, R: DesktopPathResolver>(
        &mut self,
        dialog: &D,
        resolver: &R,
        options: PickFilesOptions,
    ) -> (result: DesktopSystemResult<Vec<DesktopPath>>)
        ensures
            final(self).spec_paths() == old(self).spec_paths(),
            exists|picked: DesktopSystemResult<Vec<DesktopPath>>, resolved: Seq<DesktopSystemResult<DesktopPath>>|
                call_ensures(D::pick_files, (dialog, options), picked)
                && (picked matches Ok(files) ==> resolutions_of(resolver, files@, resolved))
                && #[trigger] files_pick_outcome(old(self).user_allowed(), final(self).user_allowed(), picked, resolved, result),
    {
        self.pick_files(dialog, resolver, options)
    }

    /// Records each picked file, resolved in turn, stopping at the first one
    /// that cannot be resolved; the files before it stay recorded.
    fn pick_files<D: DesktopFileDialog, R: DesktopPathResolver>(
        &mut self,
        dialog: &D,
        resolver: &R,
        options: PickFilesOptions,
    ) -> (result: DesktopSystemResult<Vec<DesktopPath>>)
        ensures
            final(self).spec_paths() == old(self).spec_paths(),
            exists|picked: DesktopSystemResult<Vec<DesktopPath>>, resolved: Seq<DesktopSystemResult<DesktopPath>>|
                call_ensures(D::pick_files, (dialog, options), picked)
                && (picked matches Ok(files) ==> resolutions_of(resolver, files@, resolved))
                && #[trigger] files_pick_outcome(old(self).user_allowed(), final(self).user_allowed(), picked, resolved, result),
    {
        let answer = dialog.pick_files(options);
        let ghost picked = answer;
        let files = match answer {
            Ok(files) => files,
            Err(error) => {
                assert(files_pick_outcome(
                    old(self).user_allowed(), self.user_allowed(), picked, Seq::empty(), Err(error)));
                return Err(error);
            },
        };
        let mut resolved: Vec<DesktopSystemResult<DesktopPath>> = Vec::new();
        let mut index: usize = 0;
        let mut failed = false;
        while index < files.len() && !failed
            invariant
                index <= files@.len(),
                resolved@.len() == index,
                resolutions_of(resolver, files@, resolved@),
                !failed ==> forall|j: int| 0 <= j < index ==> #[trigger] resolved@[j] is Ok,
                failed ==> index > 0 && resolved@[index - 1] is Err
                    && forall|j: int| 0 <= j < index - 1 ==> #[trigger] resolved@[j] is Ok,
            decreases files.len() - index,
        {
            let resolution = resolver.canonicalize(&files[index]);
            failed = resolution.is_err();
            resolved.push(resolution);
            index = index + 1;
        }
        let ghost all = resolved@;
        proof {
            if failed {
                lemma_first_unresolved_at(all, index - 1);
            } else {
                lemma_first_unresolved_none(all);
            }
        }
        let ghost before = self.user_allowed();
        match self.allow_user_paths(resolved) {
            Ok(()) => {
                assert(files_pick_outcome(
                    old(self).user_allowed(), self.user_allowed(), picked, all, Ok(files)));
                Ok(files)
            },
            Err(error) => {
                assert(files_pick_outcome(
                    old(self).user_allowed(), self.user_allowed(), picked, all, Err(error)));
                Err(error)
            },
        }
    }

    /// Records each resolved path in turn, stopping at the first path that
    /// could not be resolved and reporting its error; the paths before it stay
    /// recorded.
    pub fn allow_user_paths(&mut self, resolved: Vec<DesktopSystemResult<DesktopPath>>) -> (result: DesktopSystemResult<()>)
        ensures
            final(self).spec_paths() == old(self).spec_paths(),
            ({
                let stop = first_unresolved(resolved@);
                &&& final(self).user_allowed() == old(self).user_allowed().union(resolved_paths(resolved@.take(stop)))
                &&& if stop < resolved@.len() {
                    result == Err::<(), DesktopSystemError>(resolved@[stop]->Err_0)
                } else {
                    result is Ok
                }
            }),
    {
        let mut remaining = resolved;
        let ghost all = remaining@;
        let ghost start = self.user_allowed();
        let ghost mut taken: int = 0;
        while remaining.len() > 0
            invariant
                0 <= taken <= all.len(),
                all == resolved@,
                start == old(self).user_allowed(),
                remaining@ == all.skip(taken),
                forall|j: int| 0 <= j < taken ==> #[trigger] all[j] is Ok,
                self.spec_paths() == old(self).spec_paths(),
                self.user_allowed() == start.union(resolved_paths(all.take(taken))),
            decreases remaining.len(),
        {
            let next = remaining.remove(0);
            proof {
                assert(next == all[taken]);
            }
            match next {
                Ok(canonical) => {
                    self.record(canonical);
                    proof {
                        lemma_resolved_paths_push(start, all, taken);
                        taken = taken + 1;
                        assert(remaining@ =~= all.skip(taken));
                    }
                },
                Err(error) => {
                    proof {
                        lemma_first_unresolved_at(all, taken);
                        assert(all == resolved@);
                        assert(first_unresolved(resolved@) == taken);
                        assert(resolved@[taken]->Err_0 == error);

                    }
                    return Err(error);
                },
            }
        }
        proof {
            lemma_first_unresolved_none(all);
            assert(all.take(taken) =~= all.take(all.len() as int));
        }
        Ok(())
    }

    /// The roots the application owns: its data, config, cache and suggested
    /// workspace directories, then its resource directory when it has one.
    pub fn app_owned_roots(&self) -> (roots: Vec<DesktopPath>)
        ensures
            roots@.map_values(|root: DesktopPath| root.spec_view())
                == app_owned_roots_of(self.spec_paths()).map_values(|root: DesktopPath| root.spec_view()),
    {
        let mut roots = Vec::new();
        roots.push(clone_path(&self.paths.app_data_dir));
        roots.push(clone_path(&self.paths.app_config_dir));
        roots.push(clone_path(&self.paths.app_cache_dir));
        roots.push(clone_path(&self.paths.suggested_workspace_dir));
        if let Some(resource_dir) = &self.paths.resource_dir {
            roots.push(clone_path(resource_dir));
        }
        assert(roots@.map_values(|root: DesktopPath| root.spec_view())
            =~= app_owned_roots_of(self.spec_paths()).map_values(|root: DesktopPath| root.spec_view()));
        roots
    }

    /// Whether `canonical` lies under one of the application's roots, given
    /// each root's canonical form (`None` for a root that could not be
    /// resolved, which is skipped).
    pub fn is_app_owned_path(&self, canonical: &DesktopPath, resolved_roots: &Vec<Option<DesktopPath>>) -> (owned: bool)
        ensures
            owned == app_roots_cover(resolved_roots@, canonical.spec_components()),
    {
        let mut index: usize = 0;
        while index < resolved_roots.len()
            invariant
                index <= resolved_roots.len(),
                forall|j: int| 0 <= j < index ==> !(#[trigger] resolved_roots@[j] is Some
                    && is_component_prefix(resolved_roots@[j]->0.spec_components(), canonical.spec_components())),
            decreases resolved_roots.len() - index,
        {
            if let Some(root) = &resolved_roots[index] {
                if path_starts_with(canonical, root) {
                    assert(resolved_roots@[index as int] is Some);
                    return true;
                }
            }
            index = index + 1;
        }
        false
    }

    /// Whether `canonical` is a user-selected path or lies under one.
    pub fn is_user_allowed_path(&self, canonical: &DesktopPath) -> (allowed: bool)
        ensures
            allowed == user_allowed_covers(self.user_allowed(), canonical.spec_components()),
    {
        let mut index: usize = 0;
        while index < self.user_allowed_paths.len()
            invariant
                index <= self.user_allowed_paths.len(),
                forall|j: int| 0 <= j < index ==> !is_component_prefix(
                    #[trigger] self.user_allowed_paths@[j].spec_components(), canonical.spec_components()),
            decreases self.user_allowed_paths.len() - index,
        {
            if path_starts_with(canonical, &self.user_allowed_paths[index]) {
                assert(self.user_allowed().contains(self.user_allowed_paths@[index as int].spec_components()));
                return true;
            }
            index = index + 1;
        }
        assert forall|recorded: Seq<Seq<char>>| self.user_allowed().contains(recorded)
            implies !is_component_prefix(recorded, canonical.spec_components()) by {
            let i = choose|i: int| 0 <= i < self.user_allowed_paths@.len()
                && #[trigger] self.user_allowed_paths@[i].spec_components() == recorded;
            assert(!is_component_prefix(self.user_allowed_paths@[i].spec_components(), canonical.spec_components()));
        }
        false
    }

    /// Allows opening `path`, whose canonical form is `resolved`, only when it
    /// is app-owned or user-selected; `resolved_roots` are the application's
    /// roots in canonical form.
    pub fn ensure_open_allowed(
        &self,
        path: &DesktopPath,
        resolved: DesktopSystemResult<DesktopPath>,
        resolved_roots: &Vec<Option<DesktopPath>>,
    ) -> (result: DesktopSystemResult<()>)
        ensures
            open_decision(self.user_allowed(), resolved_roots@, path.display@, resolved, result),
    {
        let canonical = match resolved {
            Ok(canonical) => canonical,
            Err(error) => return Err(error),
        };
        if self.is_app_owned_path(&canonical, resolved_roots) || self.is_user_allowed_path(&canonical) {
            return Ok(());
        }
        let mut message = "desktop path is not app-owned or user-selected: ".to_owned();
        message.append(path.display.as_str());
        Err(DesktopSystemError::new(message))
    }

    /// Opens `path` after checking that it is app-owned or user-selected; a
    /// refused path is reported without reaching `opener`.
    pub fn open_path<O: DesktopPathOpener>(
        &self,
        path: &DesktopPath,
        resolved: DesktopSystemResult<DesktopPath>,
        resolved_roots: &Vec<Option<DesktopPath>>,
        opener: &O,
    ) -> (result: DesktopSystemResult<()>)
        ensures
            !open_allowed(self.user_allowed(), resolved_roots@, resolved) ==>
                open_decision(self.user_allowed(), resolved_roots@, path.display@, resolved, result),
            open_allowed(self.user_allowed(), resolved_roots@, resolved) ==>
                call_ensures(O::open_path, (opener, path), result),
    {
        match self.ensure_open_allowed(path, resolved, resolved_roots) {
            Ok(()) => opener.open_path(path),
            Err(error) => Err(error),
        }
    }

    /// Reveals `path` after checking that it is app-owned or user-selected; a
    /// refused path is reported without reaching `opener`.
    pub fn reveal_path<O: DesktopPathOpener>(
        &self,
        path: &DesktopPath,
        resolved: DesktopSystemResult<DesktopPath>,
        resolved_roots: &Vec<Option<DesktopPath>>,
        opener: &O,
    ) -> (result: DesktopSystemResult<()>)
        ensures
            !open_allowed(self.user_allowed(), resolved_roots@, resolved) ==>
                open_decision(self.user_allowed(), resolved_roots@, path.display@, resolved, result),
            open_allowed(self.user_allowed(), resolved_roots@, resolved) ==>
                call_ensures(O::reveal_path, (opener, path), result),
    {
        match self.ensure_open_allowed(path, resolved, resolved_roots) {
            Ok(()) => opener.reveal_path(path),
            Err(error) => Err(error),
        }
    }

    /// Sends a desktop notification through `notifier`.
    pub fn notify<N: DesktopNotifier>(&self, title: &str, body: &str, notifier: &N) -> (result: DesktopSystemResult<()>)
        ensures
            call_ensures(N::notify, (notifier, title, body), result),
    {
        notifier.notify(title, body)
    }
}

/// A path whose resolution is `resolved` may be opened: it resolved, and it
/// is app-owned or user-selected.
pub open spec fn open_allowed(
    allowed: Set<Seq<Seq<char>>>,
    roots: Seq<Option<DesktopPath>>,
    resolved: DesktopSystemResult<DesktopPath>,
) -> bool {
    match resolved {
        Err(_) => false,
        Ok(canonical) => app_roots_cover(roots, canonical.spec_components())
            || user_allowed_covers(allowed, canonical.spec_components()),
    }
}

/// `result` is the outcome of checking whether a path may be opened.
pub open spec fn open_decision(
    allowed: Set<Seq<Seq<char>>>,
    roots: Seq<Option<DesktopPath>>,
    display: Seq<char>,
    resolved: DesktopSystemResult<DesktopPath>,
    result: DesktopSystemResult<()>,
) -> bool {
    match resolved {
        Err(error) => result == Err::<(), DesktopSystemError>(error),
        Ok(canonical) => if app_roots_cover(roots, canonical.spec_components())
            || user_allowed_covers(allowed, canonical.spec_components()) {
            result is Ok
        } else {
            result matches Err(error) && error.spec_message() == not_allowed_message(display)
        },
    }
}

/// Recording a path allows that path and everything under it.
pub proof fn lemma_recorded_path_allows_descendants(
    allowed: Set<Seq<Seq<char>>>,
    recorded: Seq<Seq<char>>,
    path: Seq<Seq<char>>,
)
    requires
        is_component_prefix(recorded, path),
    ensures
        user_allowed_covers(allowed.insert(recorded), path),
{
    assert(allowed.insert(recorded).contains(recorded));
}

/// Recording a path never withdraws a permission granted before.
pub proof fn lemma_recording_keeps_allowed(
    allowed: Set<Seq<Seq<char>>>,
    recorded: Seq<Seq<char>>,
    path: Seq<Seq<char>>,
)
    requires
        user_allowed_covers(allowed, path),
    ensures
        user_allowed_covers(allowed.insert(recorded), path),
{
    let witness = choose|w: Seq<Seq<char>>| allowed.contains(w) && is_component_prefix(w, path);
    assert(allowed.insert(recorded).contains(witness));
}

/// Permission passes down the directory tree: whatever is allowed under a
/// path is allowed under every path below it.
pub proof fn lemma_allowed_below_allowed(
    allowed: Set<Seq<Seq<char>>>,
    path: Seq<Seq<char>>,
    below: Seq<Seq<char>>,
)
    requires
        user_allowed_covers(allowed, path),
        is_component_prefix(path, below),
    ensures
        user_allowed_covers(allowed, below),
{
    let witness = choose|w: Seq<Seq<char>>| allowed.contains(w) && is_component_prefix(w, path);
    assert(below.subrange(0, witness.len() as int) =~= path.subrange(0, witness.len() as int));
}

/// A candidate file and whether it exists.
#[derive(Clone, Debug)]
pub struct ProbedFile {
    pub path: DesktopPath,
    pub exists: bool,
}

/// What a host found of the safety scanner's files: the model and runtime
/// named by the environment, and the model and runtime under the bundled
/// resource directory (absent when there is no resource directory).
#[derive(Clone, Debug)]
pub struct SafetyAssetProbe {
    pub env_model: Option<ProbedFile>,
    pub env_runtime: Option<ProbedFile>,
    pub bundled: Option<(ProbedFile, ProbedFile)>,
}

/// The safety scanner's model and runtime library.
#[derive(Clone, Debug)]
pub struct SafetyAssetPaths {
    pub model_path: DesktopPath,
    pub runtime_library_path: Option<DesktopPath>,
}

/// The message reporting a missing file.
pub open spec fn missing_file_message(label: Seq<char>, display: Seq<char>) -> Seq<char> {
    label + " file is missing: "@ + display
}

/// The outcome of choosing the safety scanner's files: the environment's
/// files when the environment names a model (both must be named and exist),
/// otherwise the bundled files when both exist, otherwise none.
pub open spec fn safety_assets_outcome(probe: SafetyAssetProbe) -> Result<Option<(DesktopPath, DesktopPath)>, Seq<char>> {
    match probe.env_model {
        Some(model) => match probe.env_runtime {
            None => Err("NAI_ATELIER_ONNX_RUNTIME must be set when safety model env is set"@),
            Some(runtime) => if !model.exists {
                Err(missing_file_message("safety model"@, model.path.display@))
            } else if !runtime.exists {
                Err(missing_file_message("ONNX Runtime library"@, runtime.path.display@))
            } else {
                Ok(Some((model.path, runtime.path)))
            },
        },
        None => match probe.bundled {
            Some((model, runtime)) => if model.exists && runtime.exists {
                Ok(Some((model.path, runtime.path)))
            } else {
                Ok(None)
            },
            None => Ok(None),
        },
    }
}

/// The scanner's files are handed out only when both exist: whenever a model
/// and runtime are chosen, they are the environment's files or the bundled
/// files, and the chosen model file and runtime library file both exist.
pub proof fn lemma_chosen_safety_assets_exist(probe: SafetyAssetProbe)
    ensures
        safety_assets_outcome(probe) matches Ok(Some((model, runtime))) ==> {
            ||| (probe.env_model matches Some(m) && probe.env_runtime matches Some(r)
                && m.path == model && m.exists && r.path == runtime && r.exists)
            ||| (probe.bundled matches Some((m, r))
                && m.path == model && m.exists && r.path == runtime && r.exists)
        },
        probe.env_model is None ==> (probe.bundled matches Some((m, r)) && !(m.exists && r.exists)
            ==> safety_assets_outcome(probe) == Ok::<Option<(DesktopPath, DesktopPath)>, Seq<char>>(None)),
{
}

fn missing_file_error(label: &str, path: &DesktopPath) -> (error: DesktopSystemError)
    ensures
        error.spec_message() == missing_file_message(label@, path.display@),
{
    let mut message = label.to_owned();
    message.append(" file is missing: ");
    message.append(path.display.as_str());
    DesktopSystemError::new(message)
}

/// Chooses the safety scanner's model and runtime library from what the host
/// found; the scanner is optional, so finding neither is no error.
pub fn choose_safety_assets(probe: SafetyAssetProbe) -> (result: DesktopSystemResult<Option<SafetyAssetPaths>>)
    ensures
        match (result, safety_assets_outcome(probe)) {
            (Ok(None), Ok(None)) => true,
            (Ok(Some(assets)), Ok(Some((model, runtime)))) => {
                &&& assets.model_path == model
                &&& assets.runtime_library_path == Some(runtime)
            },
            (Err(error), Err(message)) => error.spec_message() == message,
            _ => false,
        },
{
    match probe.env_model {
        Some(model) => match probe.env_runtime {
            None => Err(DesktopSystemError::new(
                "NAI_ATELIER_ONNX_RUNTIME must be set when safety model env is set".to_owned(),
            )),
            Some(runtime) => if !model.exists {
                Err(missing_file_error("safety model", &model.path))
            } else if !runtime.exists {
                Err(missing_file_error("ONNX Runtime library", &runtime.path))
            } else {
                Ok(Some(SafetyAssetPaths { model_path: model.path, runtime_library_path: Some(runtime.path) }))
            },
        },
        None => match probe.bundled {
            Some((model, runtime)) => if model.exists && runtime.exists {
                Ok(Some(SafetyAssetPaths { model_path: model.path, runtime_library_path: Some(runtime.path) }))
            } else {
                Ok(None)
            },
            None => Ok(None),
        },
    }
}

} // verus!
