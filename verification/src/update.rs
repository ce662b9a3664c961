//! The update command and the assembly of its canonical request: precedence
//! rules across command line, configuration file and workspace facts, the
//! pre-flight repository check, forge selection and changelog-configuration
//! discovery.

use vstd::prelude::*;

verus! {

use crate::config::{Config, ConfigPath, Env, PackageGraph, PackageUpdateConfig};
use crate::config::graph_contains;
use crate::date::{chrono_parse_ymd, parse_ymd, Date};
use crate::errors::{ErrorV, UpdateError};
use crate::forge::{ForgeV, GitForge, GitHub, GitLab, Gitea};
use crate::repo_url::{spec_git_pr_link, spec_parse_repo_url, RepoUrl, RepoUrlV};
use crate::request::{
    ChangelogRequest,
    ChangelogRequestV,
    ChangelogSource,
    ChangelogSourceV,
    RequestV,
    UpdateRequest,
};
use vstd::string::StringExecFns;

/// The kind of git host the project lives on.
#[derive(Clone, Copy, Debug, PartialEq, Eq, Structural)]
pub enum GitForgeKind {
    Github,
    Gitea,
    Gitlab,
}

/// The update command: every knob of a local update, with absent values
/// deferring to the configuration file or to a default.
pub struct Update {
    /// Path to the manifest of the project to update.
    pub manifest_path: Option<String>,
    /// Path to the manifest of the already-released version to compare with.
    pub registry_manifest_path: Option<String>,
    /// Update a single package rather than the whole workspace.
    pub package: Option<String>,
    /// Don't create or update the changelog.
    pub no_changelog: bool,
    /// Date of the release, `YYYY-MM-DD`.
    pub release_date: Option<String>,
    /// Registry where the packages are stored.
    pub registry: Option<String>,
    /// Update all dependencies in the lock file.
    pub update_deps: bool,
    /// Path to the changelog configuration file.
    pub changelog_config: Option<String>,
    /// Allow a dirty working directory to be updated.
    pub allow_dirty: bool,
    /// Repository URL where the project is hosted.
    pub repo_url: Option<String>,
    /// Path to the project configuration file.
    pub config: ConfigPath,
    /// Git token used to create the pull request.
    pub git_token: Option<String>,
    /// Kind of git host where the project is hosted.
    pub forge: GitForgeKind,
}

/// Whether the release-commits filter compiles as a pattern, as the `regex`
/// crate decides it.
pub uninterp spec fn regex_parse_ok(pattern: Seq<char>) -> bool;

/// Relies on `regex::Regex::new`: whether a pattern compiles is a function
/// of the pattern alone.
#[verifier::external_body]
pub(crate) fn release_commits_regex_is_valid(pattern: &str) -> (r: bool)
    ensures
        r == regex_parse_ok(pattern@),
{
    regex::Regex::new(pattern).is_ok()
}

/// The manifest the update works on: the given path, or the manifest file
/// in the working directory where none was given.
pub open spec fn spec_manifest_path(u: Update, cwd: Seq<char>) -> Seq<char> {
    match u.manifest_path {
        Some(p) => p@,
        None => cwd + "/Cargo.toml"@,
    }
}

/// The pre-flight repository check: the manifest must sit in a git
/// repository, and the lock file must not be both ignored and committed.
pub open spec fn spec_lock_check(e: Env) -> Result<(), ErrorV> {
    if !e.git_repo_found {
        Err(ErrorV::RepoRootNotFound)
    } else if e.cargo_lock_ignored && e.cargo_lock_committed {
        Err(ErrorV::LockFileHazard)
    } else {
        Ok(())
    }
}

/// The repository URL string that applies: the command line wins, then the
/// configuration file, then the default git remote.
pub open spec fn spec_effective_repo_url_str(u: Update, c: Config, e: Env) -> Option<Seq<char>> {
    match u.repo_url {
        Some(s) => Some(s@),
        None => match c.workspace.repo_url {
            Some(s) => Some(s@),
            None => match e.default_remote_url {
                Some(s) => Some(s@),
                None => None,
            },
        },
    }
}

/// The resolved repository URL: the effective URL string, decomposed; any
/// failure degrades to "no URL" rather than aborting.
pub open spec fn spec_repo_url(u: Update, c: Config, e: Env) -> Option<RepoUrlV> {
    match spec_effective_repo_url_str(u, c, e) {
        None => None,
        Some(s) => match spec_parse_repo_url(s) {
            Ok(r) => Some(r),
            Err(_) => None,
        },
    }
}

/// Whether the changelog is suppressed: by the command-line flag, or by the
/// configuration file where the command line says nothing.
pub open spec fn spec_suppressed(u: Update, c: Config) -> bool {
    u.no_changelog || c.workspace.changelog_update == Some(false)
}

/// The changelog configuration path the user asked for: the command line
/// wins over the configuration file.
pub open spec fn spec_user_changelog_path(u: Update, c: Config) -> Option<Seq<char>> {
    match u.changelog_config {
        Some(p) => Some(p@),
        None => match c.workspace.changelog_config {
            Some(p) => Some(p@),
            None => None,
        },
    }
}

/// The changelog configuration file at the default system location.
pub open spec fn spec_default_changelog_path(config_dir: Seq<char>) -> Seq<char> {
    config_dir + "/git-cliff/cliff.toml"@
}

/// Which changelog configuration applies: a user-given path must exist; the
/// default path is used only where present; a configuration file excludes an
/// inline `[changelog]` section; with neither, the inline section plus the
/// pull-request link is used.
pub open spec fn spec_changelog_source(
    u: Update,
    c: Config,
    e: Env,
    pr_link: Option<Seq<char>>,
) -> Result<ChangelogSourceV, ErrorV> {
    match e.config_dir {
        None => Err(ErrorV::NoConfigDir),
        Some(dir) => match spec_user_changelog_path(u, c) {
            Some(p) => if !e.user_changelog_path_exists {
                Err(ErrorV::CannotReadChangelogConfig { path: p })
            } else if !c.changelog_is_default {
                Err(ErrorV::ChangelogConfigConflict)
            } else {
                Ok(ChangelogSourceV::File { path: p })
            },
            None => if e.default_changelog_config_exists {
                if !c.changelog_is_default {
                    Err(ErrorV::ChangelogConfigConflict)
                } else {
                    Ok(ChangelogSourceV::File { path: spec_default_changelog_path(dir@) })
                }
            } else {
                Ok(ChangelogSourceV::Inline { pr_link })
            },
        },
    }
}

/// The parsed release date: absent stays absent, and a given string must
/// parse strictly as `YYYY-MM-DD`.
pub open spec fn spec_release_date(u: Update) -> Result<Option<Date>, ErrorV> {
    match u.release_date {
        None => Ok(None),
        Some(s) => match chrono_parse_ymd(s@) {
            Some(ymd) => Ok(
                Some(Date { year: ymd.0 as i32, month: ymd.1 as u8, day: ymd.2 as u8 }),
            ),
            None => Err(ErrorV::ReleaseDateParse),
        },
    }
}

/// The changelog request: nothing where the changelog is suppressed, else
/// the parsed release date and the resolved changelog configuration, with
/// the pull-request link of the resolved repository URL.
pub open spec fn spec_changelog_req(u: Update, c: Config, e: Env, repo: Option<RepoUrlV>) -> Result<
    Option<ChangelogRequestV>,
    ErrorV,
> {
    if spec_suppressed(u, c) {
        Ok(None)
    } else {
        match spec_release_date(u) {
            Err(err) => Err(err),
            Ok(date) => {
                let pr_link = match repo {
                    Some(r) => Some(spec_git_pr_link(r)),
                    None => None,
                };
                match spec_changelog_source(u, c, e, pr_link) {
                    Err(err) => Err(err),
                    Ok(source) => Ok(
                        Some(ChangelogRequestV { release_date: date, changelog_config: source }),
                    ),
                }
            },
        }
    }
}

/// The attached registry manifest path: a given path must exist.
pub open spec fn spec_registry_manifest(u: Update, e: Env) -> Result<Option<Seq<char>>, ErrorV> {
    match u.registry_manifest_path {
        None => Ok(None),
        Some(p) => if e.registry_manifest_exists {
            Ok(Some(p@))
        } else {
            Err(ErrorV::RegistryManifestNotFound { path: p@ })
        },
    }
}

/// The attached release-commits filter: a configured filter must compile.
pub open spec fn spec_release_commits(c: Config) -> Result<Option<Seq<char>>, ErrorV> {
    match c.workspace.release_commits {
        None => Ok(None),
        Some(p) => if regex_parse_ok(p@) {
            Ok(Some(p@))
        } else {
            Err(ErrorV::InvalidReleaseCommits { pattern: p@ })
        },
    }
}

/// Which forge handle the token and forge kind select for a repository:
/// no token means no forge; GitHub demands a GitHub host; Gitea and GitLab
/// take the repository URL as it is. The handle carries the given token.
pub open spec fn spec_git_forge(u: Update, repo: RepoUrlV) -> Result<Option<ForgeV>, ErrorV> {
    match u.git_token {
        None => Ok(None),
        Some(t) => match u.forge {
            GitForgeKind::Github => if repo.host == "github.com"@ {
                Ok(Some(ForgeV::Github { owner: repo.owner, repo: repo.name, token: t@ }))
            } else {
                Err(ErrorV::ForgeNotGithub)
            },
            GitForgeKind::Gitea => Ok(Some(ForgeV::Gitea { remote: repo, token: t@ })),
            GitForgeKind::Gitlab => Ok(Some(ForgeV::Gitlab { remote: repo, token: t@ })),
        },
    }
}

/// The forge step of the assembly: without a repository URL no forge is
/// attached; with one, the forge resolution decides.
pub open spec fn spec_forge_step(u: Update, repo: Option<RepoUrlV>) -> Result<
    Option<ForgeV>,
    ErrorV,
> {
    match repo {
        None => Ok(None),
        Some(r) => spec_git_forge(u, r),
    }
}

/// The per-package override table of the configuration file, as a sequence
/// of name/configuration pairs.
pub open spec fn spec_package_overrides(c: Config) -> Seq<(Seq<char>, PackageUpdateConfig)> {
    c.packages@.map_values(|p: crate::config::PackageOverride| (p.name@, p.config))
}

/// The whole assembly: the precedence rules, checks and error order of
/// `Update::update_request`, as one function from the inputs to the
/// canonical request or the first error.
pub open spec fn spec_assemble(u: Update, c: Config, e: Env, g: PackageGraph) -> Result<
    RequestV,
    ErrorV,
> {
    if spec_suppressed(u, c) && u.release_date is Some {
        Err(ErrorV::NoChangelogReleaseDate)
    } else if u.registry is Some && u.registry_manifest_path is Some {
        Err(ErrorV::RegistryConflict)
    } else {
        let manifest = spec_manifest_path(u, e.cwd@);
        match spec_lock_check(e) {
            Err(err) => Err(err),
            Ok(_) => if !graph_contains(g, manifest) {
                Err(ErrorV::ManifestNotFound { path: manifest })
            } else {
                let repo = spec_repo_url(u, c, e);
                match spec_registry_manifest(u, e) {
                    Err(err) => Err(err),
                    Ok(registry_manifest) => match spec_changelog_req(u, c, e, repo) {
                        Err(err) => Err(err),
                        Ok(changelog_req) => match spec_release_commits(c) {
                            Err(err) => Err(err),
                            Ok(release_commits) => match spec_forge_step(u, repo) {
                                Err(err) => Err(err),
                                Ok(forge) => Ok(
                                    RequestV {
                                        local_manifest: manifest,
                                        registry_manifest_path: registry_manifest,
                                        dependencies_update: u.update_deps
                                            || c.workspace.dependencies_update == Some(true),
                                        allow_dirty: u.allow_dirty || c.workspace.allow_dirty
                                            == Some(true),
                                        repo_url: repo,
                                        single_package: u.package.deep_view(),
                                        registry: u.registry.deep_view(),
                                        changelog_req,
                                        release_commits,
                                        git_forge: forge,
                                        default_package_config: PackageUpdateConfig {
                                            semver_check: true,
                                            changelog_update: true,
                                        },
                                        package_overrides: spec_package_overrides(c),
                                    },
                                ),
                            },
                        },
                    },
                }
            },
        }
    }
}

/// The pre-flight repository check: fails where no git repository encloses
/// the manifest, or where the lock file is both ignored and committed —
/// a state that silently gives inconsistent dependency resolution across
/// clones.
pub fn check_if_cargo_lock_is_ignored_and_committed(env: &Env) -> (r: Result<(), UpdateError>)
    ensures
        match r {
            Ok(_) => spec_lock_check(*env) == Ok::<(), ErrorV>(()),
            Err(e) => spec_lock_check(*env) == Err::<(), ErrorV>(e@),
        },
{
    if !env.git_repo_found {
        Err(UpdateError::RepoRootNotFound)
    } else if env.cargo_lock_ignored && env.cargo_lock_committed {
        Err(UpdateError::LockFileHazard)
    } else {
        Ok(())
    }
}

impl Update {
    /// The manifest the update works on.
    pub fn manifest_path(&self, cwd: &String) -> (r: String)
        ensures
            r@ == spec_manifest_path(*self, cwd@),
    {
        match &self.manifest_path {
            Some(manifest) => manifest.clone(),
            None => cwd.clone().concat("/Cargo.toml"),
        }
    }

    /// Whether dependencies are updated: either source may enable it.
    pub fn dependencies_update(&self, config: &Config) -> (r: bool)
        ensures
            r == (self.update_deps || config.workspace.dependencies_update == Some(true)),
    {
        self.update_deps || (match config.workspace.dependencies_update {
            Some(b) => b,
            None => false,
        })
    }

    /// Whether a dirty working directory is allowed: either source may
    /// enable it.
    pub fn allow_dirty(&self, config: &Config) -> (r: bool)
        ensures
            r == (self.allow_dirty || config.workspace.allow_dirty == Some(true)),
    {
        self.allow_dirty || (match config.workspace.allow_dirty {
            Some(b) => b,
            None => false,
        })
    }

    /// The changelog configuration path the user asked for, if any.
    pub fn user_changelog_config<'a>(&'a self, config: &'a Config) -> (r: Option<&'a String>)
        ensures
            match r {
                Some(p) => spec_user_changelog_path(*self, *config) == Some(p@),
                None => spec_user_changelog_path(*self, *config) is None,
            },
    {
        match &self.changelog_config {
            Some(p) => Some(p),
            None => match &config.workspace.changelog_config {
                Some(p) => Some(p),
                None => None,
            },
        }
    }

    /// The resolved repository URL, or nothing where none can be
    /// determined; the caller goes on without release links in that case.
    pub fn get_repo_url(&self, config: &Config, env: &Env) -> (r: Option<RepoUrl>)
        ensures
            match r {
                Some(u) => spec_repo_url(*self, *config, *env) == Some(u@),
                None => spec_repo_url(*self, *config, *env) is None,
            },
    {
        let url_str = match &self.repo_url {
            Some(s) => s,
            None => match &config.workspace.repo_url {
                Some(s) => s,
                None => match &env.default_remote_url {
                    Some(s) => s,
                    None => {
                        return None;
                    },
                },
            },
        };
        match RepoUrl::parse(url_str) {
            Ok(u) => Some(u),
            Err(_) => None,
        }
    }

    /// Which changelog configuration applies; see `spec_changelog_source`.
    pub fn changelog_config(&self, config: &Config, pr_link: Option<String>, env: &Env) -> (r:
        Result<ChangelogSource, UpdateError>)
        ensures
            match r {
                Ok(s) => spec_changelog_source(*self, *config, *env, pr_link.deep_view()) == Ok::<
                    ChangelogSourceV,
                    ErrorV,
                >(s@),
                Err(e) => spec_changelog_source(*self, *config, *env, pr_link.deep_view())
                    == Err::<ChangelogSourceV, ErrorV>(e@),
            },
    {
        let default_dir = match &env.config_dir {
            Some(d) => d,
            None => {
                return Err(UpdateError::NoConfigDir);
            },
        };
        match self.user_changelog_config(config) {
            Some(p) => {
                if !env.user_changelog_path_exists {
                    Err(UpdateError::CannotReadChangelogConfig { path: p.clone() })
                } else if !config.changelog_is_default {
                    Err(UpdateError::ChangelogConfigConflict)
                } else {
                    Ok(ChangelogSource::File { path: p.clone() })
                }
            },
            None => {
                if env.default_changelog_config_exists {
                    if !config.changelog_is_default {
                        Err(UpdateError::ChangelogConfigConflict)
                    } else {
                        Ok(
                            ChangelogSource::File {
                                path: default_dir.clone().concat("/git-cliff/cliff.toml"),
                            },
                        )
                    }
                } else {
                    Ok(ChangelogSource::Inline { pr_link })
                }
            },
        }
    }

    /// The forge handle for the repository, or nothing without a token;
    /// see `spec_git_forge`.
    pub fn git_forge(&self, repo: RepoUrl) -> (r: Result<Option<GitForge>, UpdateError>)
        ensures
            match r {
                Ok(f) => spec_git_forge(*self, repo@) == Ok::<Option<ForgeV>, ErrorV>(
                    match f {
                        Some(g) => Some(g@),
                        None => None,
                    },
                ),
                Err(e) => spec_git_forge(*self, repo@) == Err::<Option<ForgeV>, ErrorV>(e@),
            },
    {
        let token = match &self.git_token {
            Some(t) => t.clone(),
            None => {
                return Ok(None);
            },
        };
        match self.forge {
            GitForgeKind::Github => {
                if repo.is_on_github() {
                    let RepoUrl { scheme: _, host: _, owner, name } = repo;
                    Ok(Some(GitForge::Github(GitHub::new(owner, name, token))))
                } else {
                    Err(UpdateError::ForgeNotGithub)
                }
            },
            GitForgeKind::Gitea => Ok(Some(GitForge::Gitea(Gitea::new(repo, token)))),
            GitForgeKind::Gitlab => Ok(Some(GitForge::Gitlab(GitLab::new(repo, token)))),
        }
    }

    /// Assembles the canonical update request out of the command line, the
    /// configuration file, the boundary facts and the package graph; see
    /// `spec_assemble` for the precedence rules and the error order.
    pub fn update_request(&self, config: Config, env: &Env, graph: &PackageGraph) -> (r: Result<
        UpdateRequest,
        UpdateError,
    >)
        ensures
            match r {
                Ok(req) => spec_assemble(*self, config, *env, *graph) == Ok::<RequestV, ErrorV>(
                    req@,
                ),
                Err(e) => spec_assemble(*self, config, *env, *graph) == Err::<RequestV, ErrorV>(
                    e@,
                ),
            },
    {
        let suppressed = self.no_changelog || (match config.workspace.changelog_update {
            Some(b) => !b,
            None => false,
        });
        if suppressed && self.release_date.is_some() {
            return Err(UpdateError::NoChangelogReleaseDate);
        }
        if self.registry.is_some() && self.registry_manifest_path.is_some() {
            return Err(UpdateError::RegistryConflict);
        }
        let project_manifest = self.manifest_path(&env.cwd);
        match check_if_cargo_lock_is_ignored_and_committed(env) {
            Ok(_) => (),
            Err(e) => {
                return Err(e);
            },
        }
        if !graph.contains_manifest(&project_manifest) {
            return Err(UpdateError::ManifestNotFound { path: project_manifest });
        }
        let repo_url = self.get_repo_url(&config, env);
        let registry_manifest_path = match &self.registry_manifest_path {
            None => None,
            Some(p) => {
                if env.registry_manifest_exists {
                    Some(p.clone())
                } else {
                    return Err(UpdateError::RegistryManifestNotFound { path: p.clone() });
                }
            },
        };
        let changelog_req = if suppressed {
            None
        } else {
            let release_date = match &self.release_date {
                None => None,
                Some(s) => match parse_ymd(s.as_str()) {
                    Some(d) => Some(d),
                    None => {
                        return Err(UpdateError::ReleaseDateParse);
                    },
                },
            };
            let pr_link = match &repo_url {
                Some(u) => Some(u.git_pr_link()),
                None => None,
            };
            let source = match self.changelog_config(&config, pr_link, env) {
                Ok(s) => s,
                Err(e) => {
                    return Err(e);
                },
            };
            Some(ChangelogRequest { release_date, changelog_config: source })
        };
        let release_commits = match &config.workspace.release_commits {
            None => None,
            Some(p) => {
                if release_commits_regex_is_valid(p.as_str()) {
                    Some(p.clone())
                } else {
                    return Err(UpdateError::InvalidReleaseCommits { pattern: p.clone() });
                }
            },
        };
        let git_forge = match &repo_url {
            None => None,
            Some(u) => match self.git_forge(u.clone()) {
                Ok(f) => f,
                Err(e) => {
                    return Err(e);
                },
            },
        };
        let dependencies_update = self.dependencies_update(&config);
        let allow_dirty = self.allow_dirty(&config);
        let single_package = match &self.package {
            Some(p) => Some(p.clone()),
            None => None,
        };
        let registry = match &self.registry {
            Some(p) => Some(p.clone()),
            None => None,
        };
        let req = UpdateRequest {
            local_manifest: project_manifest,
            registry_manifest_path,
            dependencies_update,
            allow_dirty,
            repo_url,
            single_package,
            registry,
            changelog_req,
            release_commits,
            git_forge,
            default_package_config: PackageUpdateConfig {
                semver_check: true,
                changelog_update: true,
            },
            packages: config.packages,
        };
        proof {
            assert(spec_assemble(*self, config, *env, *graph) =~~= Ok::<RequestV, ErrorV>(req@));
        }
        Ok(req)
    }
}

} // verus!
