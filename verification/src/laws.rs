//! The laws of the resolution pipeline: what holds of every assembly, for
//! all inputs, proved once and for all against the spec functions that the
//! executable functions are verified against.

use vstd::prelude::*;

verus! {

use crate::config::{Config, Env, PackageGraph};
use crate::config::graph_contains;
use crate::errors::{is_config_error, spec_message, ErrorV};
use crate::repo_url::RepoUrlV;
use crate::request::{ChangelogSourceV, RequestV};
use crate::update::{
    spec_assemble,
    spec_changelog_source,
    spec_git_forge,
    spec_lock_check,
    spec_manifest_path,
    spec_suppressed,
    spec_user_changelog_path,
    GitForgeKind,
    Update,
};
use crate::forge::{forge_token, ForgeV};

/// Suppressing the changelog excludes an explicit release date: whenever
/// both are set, assembly fails with that configuration error, whatever
/// else the inputs hold.
pub proof fn lemma_no_changelog_excludes_release_date(
    u: Update,
    c: Config,
    e: Env,
    g: PackageGraph,
)
    requires
        u.no_changelog,
        u.release_date is Some,
    ensures
        spec_assemble(u, c, e, g) == Err::<RequestV, ErrorV>(ErrorV::NoChangelogReleaseDate),
{
}

/// A registry name excludes a registry manifest path: whenever both are
/// set, assembly fails with a configuration error.
pub proof fn lemma_registry_options_conflict(u: Update, c: Config, e: Env, g: PackageGraph)
    requires
        u.registry is Some,
        u.registry_manifest_path is Some,
    ensures
        spec_assemble(u, c, e, g) matches Err(err) && is_config_error(err),
{
}

/// A manifest path that the package graph does not hold fails the
/// assembly, with an error whose message carries the computed path.
pub proof fn lemma_missing_manifest_fails(u: Update, c: Config, e: Env, g: PackageGraph)
    requires
        !(spec_suppressed(u, c) && u.release_date is Some),
        !(u.registry is Some && u.registry_manifest_path is Some),
        spec_lock_check(e) == Ok::<(), ErrorV>(()),
        !graph_contains(g, spec_manifest_path(u, e.cwd@)),
    ensures
        spec_assemble(u, c, e, g) == Err::<RequestV, ErrorV>(
            ErrorV::ManifestNotFound { path: spec_manifest_path(u, e.cwd@) },
        ),
        spec_message(ErrorV::ManifestNotFound { path: spec_manifest_path(u, e.cwd@) })
            == "Cannot find file "@ + spec_manifest_path(u, e.cwd@)
            + ". Make sure you are inside a rust project or that --manifest-path points to a valid Cargo.toml file."@,
{
}

/// With a token present, selecting GitHub for a repository whose host is
/// not GitHub fails the forge resolution, while GitLab takes the same
/// repository as it is, handing the given token to the handle.
pub proof fn lemma_forge_kind_mismatch(u: Update, repo: RepoUrlV)
    requires
        u.git_token is Some,
        repo.host != "github.com"@,
    ensures
        u.forge == GitForgeKind::Github ==> spec_git_forge(u, repo) == Err::<
            Option<ForgeV>,
            ErrorV,
        >(ErrorV::ForgeNotGithub),
        u.forge == GitForgeKind::Gitlab ==> match u.git_token {
            Some(t) => spec_git_forge(u, repo) == Ok::<Option<ForgeV>, ErrorV>(
                Some(ForgeV::Gitlab { remote: repo, token: t@ }),
            ),
            None => false,
        },
{
}

/// Without a token there is never a forge, whatever the forge kind and
/// whatever the repository URL.
pub proof fn lemma_no_token_no_forge(u: Update, repo: RepoUrlV)
    requires
        u.git_token is None,
    ensures
        spec_git_forge(u, repo) == Ok::<Option<ForgeV>, ErrorV>(None),
{
}

/// A forge handle attached to an assembled request always carries the
/// token that was supplied; no other token can appear there.
pub proof fn lemma_forge_carries_given_token(u: Update, c: Config, e: Env, g: PackageGraph)
    ensures
        spec_assemble(u, c, e, g) matches Ok(req) ==> match req.git_forge {
            Some(f) => u.git_token matches Some(t) && forge_token(f) == t@,
            None => true,
        },
{
}

/// Without a token, an assembled request carries no forge handle.
pub proof fn lemma_no_token_assembles_without_forge(u: Update, c: Config, e: Env, g: PackageGraph)
    requires
        u.git_token is None,
    ensures
        spec_assemble(u, c, e, g) matches Ok(req) ==> req.git_forge is None,
{
}

/// A user-given changelog configuration path that does not exist fails the
/// resolution with a "cannot read" error naming that path; it never falls
/// back to a default silently.
pub proof fn lemma_missing_user_changelog_config(
    u: Update,
    c: Config,
    e: Env,
    pr_link: Option<Seq<char>>,
)
    requires
        spec_user_changelog_path(u, c) is Some,
        !e.user_changelog_path_exists,
        e.config_dir is Some,
    ensures
        match spec_user_changelog_path(u, c) {
            Some(p) => spec_changelog_source(u, c, e, pr_link) == Err::<ChangelogSourceV, ErrorV>(
                ErrorV::CannotReadChangelogConfig { path: p },
            ) && spec_message(ErrorV::CannotReadChangelogConfig { path: p }) == "cannot read "@
                + p,
            None => false,
        },
{
}

/// With no user-given changelog configuration path and no file at the
/// default location, the resolution falls back to the inline configuration
/// and never fails over the missing default file.
pub proof fn lemma_inline_changelog_fallback(u: Update, c: Config, e: Env, pr_link: Option<
    Seq<char>,
>)
    requires
        spec_user_changelog_path(u, c) is None,
        e.config_dir is Some,
        !e.default_changelog_config_exists,
    ensures
        spec_changelog_source(u, c, e, pr_link) == Ok::<ChangelogSourceV, ErrorV>(
            ChangelogSourceV::Inline { pr_link },
        ),
{
}

/// The dependency-update and dirty-allowance flags of an assembled request
/// are the logical or of the command-line flag and the configured default:
/// true as soon as either source enables them, false only where both are
/// absent or false.
pub proof fn lemma_flag_merge(u: Update, c: Config, e: Env, g: PackageGraph)
    ensures
        spec_assemble(u, c, e, g) matches Ok(req) ==> req.dependencies_update == (u.update_deps
            || c.workspace.dependencies_update == Some(true)),
        spec_assemble(u, c, e, g) matches Ok(req) ==> req.allow_dirty == (u.allow_dirty
            || c.workspace.allow_dirty == Some(true)),
{
}

/// The mutual exclusions hold of every assembled request by construction:
/// a registry name and a registry manifest path never both appear, and a
/// suppressed changelog leaves no changelog request — so no release date
/// either.
pub proof fn lemma_assembled_request_exclusive(u: Update, c: Config, e: Env, g: PackageGraph)
    ensures
        spec_assemble(u, c, e, g) matches Ok(req) ==> !(req.registry is Some
            && req.registry_manifest_path is Some),
        spec_assemble(u, c, e, g) matches Ok(req) ==> (spec_suppressed(u, c) <==> req.changelog_req
            is None),
{
}

} // verus!
