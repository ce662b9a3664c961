//! The inputs that surround the command line: the optional project
//! configuration file, per-package overrides, the package graph, and the
//! facts about the local machine and repository that are read once at the
//! boundary and passed in as plain values.

use vstd::prelude::*;

verus! {

/// Path to the project configuration file, as given on the command line.
pub struct ConfigPath {
    pub path: Option<String>,
}

impl Default for ConfigPath {
    fn default() -> (r: Self)
        ensures
            r.path is None,
    {
        ConfigPath { path: None }
    }
}

/// The update behaviour configured for one package.
#[derive(Clone, Copy, Debug, PartialEq, Eq, Structural)]
pub struct PackageUpdateConfig {
    pub semver_check: bool,
    pub changelog_update: bool,
}

impl Default for PackageUpdateConfig {
    fn default() -> (r: Self)
        ensures
            r == (PackageUpdateConfig { semver_check: true, changelog_update: true }),
    {
        PackageUpdateConfig { semver_check: true, changelog_update: true }
    }
}

/// A per-package override from the configuration file, keyed by package name.
#[derive(Debug)]
pub struct PackageOverride {
    pub name: String,
    pub config: PackageUpdateConfig,
}

/// The project-wide defaults read from the configuration file.
pub struct WorkspaceConfig {
    pub dependencies_update: Option<bool>,
    pub allow_dirty: Option<bool>,
    pub changelog_config: Option<String>,
    pub changelog_update: Option<bool>,
    pub repo_url: Option<String>,
    pub release_commits: Option<String>,
}

impl Default for WorkspaceConfig {
    fn default() -> (r: Self)
        ensures
            r.dependencies_update is None,
            r.allow_dirty is None,
            r.changelog_config is None,
            r.changelog_update is None,
            r.repo_url is None,
            r.release_commits is None,
    {
        WorkspaceConfig {
            dependencies_update: None,
            allow_dirty: None,
            changelog_config: None,
            changelog_update: None,
            repo_url: None,
            release_commits: None,
        }
    }
}

/// The parsed project configuration file: workspace-wide defaults, whether
/// the inline `[changelog]` section was left untouched, and the per-package
/// override table.
pub struct Config {
    pub workspace: WorkspaceConfig,
    pub changelog_is_default: bool,
    pub packages: Vec<PackageOverride>,
}

impl Default for Config {
    fn default() -> (r: Self)
        ensures
            r.workspace.dependencies_update is None,
            r.workspace.allow_dirty is None,
            r.workspace.changelog_config is None,
            r.workspace.changelog_update is None,
            r.workspace.repo_url is None,
            r.workspace.release_commits is None,
            r.changelog_is_default,
            r.packages@.len() == 0,
    {
        Config {
            workspace: Default::default(),
            changelog_is_default: true,
            packages: Vec::new(),
        }
    }
}

/// What the surrounding process knows about the machine and the repository,
/// read once at the boundary: the working directory, the per-user
/// configuration directory, the default git remote, and a handful of
/// existence facts that only the file system and git can answer.
pub struct Env {
    /// The current working directory.
    pub cwd: String,
    /// The per-user configuration directory, where one exists.
    pub config_dir: Option<String>,
    /// The URL of the default git remote, where one could be determined.
    pub default_remote_url: Option<String>,
    /// Whether a git repository encloses the resolved manifest.
    pub git_repo_found: bool,
    /// Whether git ignores the lock file next to the manifest.
    pub cargo_lock_ignored: bool,
    /// Whether the lock file next to the manifest is committed.
    pub cargo_lock_committed: bool,
    /// Whether the user-given changelog configuration path exists.
    pub user_changelog_path_exists: bool,
    /// Whether a changelog configuration file exists at the default location.
    pub default_changelog_config_exists: bool,
    /// Whether the registry manifest path exists.
    pub registry_manifest_exists: bool,
}

/// The package graph of the workspace: the manifest paths of its packages.
pub struct PackageGraph {
    pub manifest_paths: Vec<String>,
}

/// Whether the graph holds a package with the given manifest path.
pub open spec fn graph_contains(g: PackageGraph, path: Seq<char>) -> bool {
    exists|i: int| 0 <= i < g.manifest_paths@.len() && g.manifest_paths@[i]@ == path
}

impl PackageGraph {
    /// Whether this graph holds a package with the given manifest path.
    pub fn contains_manifest(&self, path: &String) -> (r: bool)
        ensures
            r == graph_contains(*self, path@),
    {
        let mut i: usize = 0;
        while i < self.manifest_paths.len()
            invariant
                0 <= i <= self.manifest_paths@.len(),
                forall|j: int| 0 <= j < i ==> self.manifest_paths@[j]@ != path@,
            decreases self.manifest_paths@.len() - i,
        {
            if self.manifest_paths[i] == *path {
                return true;
            }
            i += 1;
        }
        false
    }
}

} // verus!
