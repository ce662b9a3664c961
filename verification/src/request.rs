//! The canonical update request: the one value the whole resolution
//! pipeline exists to produce, with every knob resolved.

use vstd::prelude::*;

verus! {

use crate::config::{PackageOverride, PackageUpdateConfig};
use crate::date::Date;
use crate::forge::{ForgeV, GitForge};
use crate::repo_url::{RepoUrl, RepoUrlV};

/// Where the changelog configuration comes from: a configuration file on
/// disk, or the inline section of the project configuration plus an
/// optional pull-request link template.
#[derive(Debug)]
pub enum ChangelogSource {
    File { path: String },
    Inline { pr_link: Option<String> },
}

/// The mathematical model of a `ChangelogSource`.
#[verifier::ext_equal]
pub enum ChangelogSourceV {
    File { path: Seq<char> },
    Inline { pr_link: Option<Seq<char>> },
}

impl View for ChangelogSource {
    type V = ChangelogSourceV;

    open spec fn view(&self) -> ChangelogSourceV {
        match self {
            ChangelogSource::File { path } => ChangelogSourceV::File { path: path@ },
            ChangelogSource::Inline { pr_link } => ChangelogSourceV::Inline {
                pr_link: pr_link.deep_view(),
            },
        }
    }
}

/// What the changelog of this release should look like: an optional release
/// date and the changelog configuration to use.
#[derive(Debug)]
pub struct ChangelogRequest {
    pub release_date: Option<Date>,
    pub changelog_config: ChangelogSource,
}

/// The mathematical model of a `ChangelogRequest`.
#[verifier::ext_equal]
pub struct ChangelogRequestV {
    pub release_date: Option<Date>,
    pub changelog_config: ChangelogSourceV,
}

impl View for ChangelogRequest {
    type V = ChangelogRequestV;

    open spec fn view(&self) -> ChangelogRequestV {
        ChangelogRequestV {
            release_date: self.release_date,
            changelog_config: self.changelog_config@,
        }
    }
}

/// The canonical update request.
#[derive(Debug)]
pub struct UpdateRequest {
    pub local_manifest: String,
    pub registry_manifest_path: Option<String>,
    pub dependencies_update: bool,
    pub allow_dirty: bool,
    pub repo_url: Option<RepoUrl>,
    pub single_package: Option<String>,
    pub registry: Option<String>,
    pub changelog_req: Option<ChangelogRequest>,
    pub release_commits: Option<String>,
    pub git_forge: Option<GitForge>,
    pub default_package_config: PackageUpdateConfig,
    pub packages: Vec<PackageOverride>,
}

/// The mathematical model of an `UpdateRequest`.
#[verifier::ext_equal]
pub struct RequestV {
    pub local_manifest: Seq<char>,
    pub registry_manifest_path: Option<Seq<char>>,
    pub dependencies_update: bool,
    pub allow_dirty: bool,
    pub repo_url: Option<RepoUrlV>,
    pub single_package: Option<Seq<char>>,
    pub registry: Option<Seq<char>>,
    pub changelog_req: Option<ChangelogRequestV>,
    pub release_commits: Option<Seq<char>>,
    pub git_forge: Option<ForgeV>,
    pub default_package_config: PackageUpdateConfig,
    pub package_overrides: Seq<(Seq<char>, PackageUpdateConfig)>,
}

impl View for UpdateRequest {
    type V = RequestV;

    open spec fn view(&self) -> RequestV {
        RequestV {
            local_manifest: self.local_manifest@,
            registry_manifest_path: self.registry_manifest_path.deep_view(),
            dependencies_update: self.dependencies_update,
            allow_dirty: self.allow_dirty,
            repo_url: match self.repo_url {
                Some(u) => Some(u@),
                None => None,
            },
            single_package: self.single_package.deep_view(),
            registry: self.registry.deep_view(),
            changelog_req: match self.changelog_req {
                Some(c) => Some(c@),
                None => None,
            },
            release_commits: self.release_commits.deep_view(),
            git_forge: match self.git_forge {
                Some(f) => Some(f@),
                None => None,
            },
            default_package_config: self.default_package_config,
            package_overrides: self.packages@.map_values(
                |p: PackageOverride| (p.name@, p.config),
            ),
        }
    }
}

/// The update behaviour of a package: the first override with its name, or
/// the default where none names it.
pub open spec fn spec_package_config(
    overrides: Seq<(Seq<char>, PackageUpdateConfig)>,
    default_config: PackageUpdateConfig,
    name: Seq<char>,
) -> PackageUpdateConfig
    decreases overrides.len(),
{
    if overrides.len() == 0 {
        default_config
    } else if overrides[0].0 == name {
        overrides[0].1
    } else {
        spec_package_config(overrides.drop_first(), default_config, name)
    }
}

impl UpdateRequest {
    /// The update behaviour configured for the given package.
    pub fn get_package_config(&self, package: &String) -> (r: PackageUpdateConfig)
        ensures
            r == spec_package_config(
                self@.package_overrides,
                self.default_package_config,
                package@,
            ),
    {
        let overrides = Ghost(self@.package_overrides);
        assert(overrides@.skip(0) =~= overrides@);
        let mut i: usize = 0;
        while i < self.packages.len()
            invariant
                0 <= i <= self.packages@.len(),
                overrides@ == self@.package_overrides,
                overrides@.len() == self.packages@.len(),
                spec_package_config(overrides@, self.default_package_config, package@)
                    == spec_package_config(
                    overrides@.skip(i as int),
                    self.default_package_config,
                    package@,
                ),
            decreases self.packages@.len() - i,
        {
            assert(overrides@[i as int] == (self.packages@[i as int].name@, self.packages@[
                i as int].config));
            assert(overrides@.skip(i as int)[0] == overrides@[i as int]);
            if self.packages[i].name == *package {
                return self.packages[i].config;
            }
            assert(overrides@.skip(i as int).drop_first() =~= overrides@.skip(i as int + 1));
            i += 1;
        }
        assert(overrides@.skip(i as int).len() == 0);
        self.default_package_config
    }
}

} // verus!
