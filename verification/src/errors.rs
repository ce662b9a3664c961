//! The error taxonomy of the resolution pipeline: configuration conflicts,
//! resolution failures and validation failures, each carrying the offending
//! path, URL or pattern.

use vstd::prelude::*;

verus! {

use vstd::string::StringExecFns;

/// Everything that can abort the assembly of an update request.
#[derive(Debug)]
pub enum UpdateError {
    /// The changelog is suppressed and a release date was given at the same time.
    NoChangelogReleaseDate,
    /// Both a registry name and a registry manifest path were given.
    RegistryConflict,
    /// No enclosing git repository was found for the manifest.
    RepoRootNotFound,
    /// The lock file is both ignored by git and committed.
    LockFileHazard,
    /// The resolved manifest path does not belong to the package graph.
    ManifestNotFound { path: String },
    /// The registry manifest path does not point to an existing manifest.
    RegistryManifestNotFound { path: String },
    /// The release date string is not a valid `YYYY-MM-DD` date.
    ReleaseDateParse,
    /// A changelog configuration path was given but cannot be read.
    CannotReadChangelogConfig { path: String },
    /// An inline changelog configuration and a changelog configuration file
    /// were both given.
    ChangelogConfigConflict,
    /// The per-user configuration directory could not be determined.
    NoConfigDir,
    /// The release-commits filter is not a valid pattern.
    InvalidReleaseCommits { pattern: String },
    /// The repository is not hosted on GitHub, yet GitHub was selected.
    ForgeNotGithub,
    /// The repository URL could not be parsed.
    UrlParse { url: String },
    /// The repository URL has no path segments at all.
    UrlNoSegments { url: String },
    /// The repository URL has no owner segment.
    UrlNoOwner { url: String },
    /// The repository URL has no repository-name segment.
    UrlNoRepo { url: String },
}

/// The mathematical model of an `UpdateError`.
#[verifier::ext_equal]
pub enum ErrorV {
    NoChangelogReleaseDate,
    RegistryConflict,
    RepoRootNotFound,
    LockFileHazard,
    ManifestNotFound { path: Seq<char> },
    RegistryManifestNotFound { path: Seq<char> },
    ReleaseDateParse,
    CannotReadChangelogConfig { path: Seq<char> },
    ChangelogConfigConflict,
    NoConfigDir,
    InvalidReleaseCommits { pattern: Seq<char> },
    ForgeNotGithub,
    UrlParse { url: Seq<char> },
    UrlNoSegments { url: Seq<char> },
    UrlNoOwner { url: Seq<char> },
    UrlNoRepo { url: Seq<char> },
}

impl View for UpdateError {
    type V = ErrorV;

    open spec fn view(&self) -> ErrorV {
        match self {
            UpdateError::NoChangelogReleaseDate => ErrorV::NoChangelogReleaseDate,
            UpdateError::RegistryConflict => ErrorV::RegistryConflict,
            UpdateError::RepoRootNotFound => ErrorV::RepoRootNotFound,
            UpdateError::LockFileHazard => ErrorV::LockFileHazard,
            UpdateError::ManifestNotFound { path } => ErrorV::ManifestNotFound { path: path@ },
            UpdateError::RegistryManifestNotFound { path } => ErrorV::RegistryManifestNotFound {
                path: path@,
            },
            UpdateError::ReleaseDateParse => ErrorV::ReleaseDateParse,
            UpdateError::CannotReadChangelogConfig { path } => ErrorV::CannotReadChangelogConfig {
                path: path@,
            },
            UpdateError::ChangelogConfigConflict => ErrorV::ChangelogConfigConflict,
            UpdateError::NoConfigDir => ErrorV::NoConfigDir,
            UpdateError::InvalidReleaseCommits { pattern } => ErrorV::InvalidReleaseCommits {
                pattern: pattern@,
            },
            UpdateError::ForgeNotGithub => ErrorV::ForgeNotGithub,
            UpdateError::UrlParse { url } => ErrorV::UrlParse { url: url@ },
            UpdateError::UrlNoSegments { url } => ErrorV::UrlNoSegments { url: url@ },
            UpdateError::UrlNoOwner { url } => ErrorV::UrlNoOwner { url: url@ },
            UpdateError::UrlNoRepo { url } => ErrorV::UrlNoRepo { url: url@ },
        }
    }
}

/// The configuration errors: two options that exclude each other were both set.
pub open spec fn is_config_error(e: ErrorV) -> bool {
    e is NoChangelogReleaseDate || e is RegistryConflict || e is ChangelogConfigConflict
}

/// The human-readable message of each error.
pub open spec fn spec_message(e: ErrorV) -> Seq<char> {
    match e {
        ErrorV::NoChangelogReleaseDate => "cannot set the release date when the changelog is disabled"@,
        ErrorV::RegistryConflict => "cannot use both a registry name and a registry manifest path"@,
        ErrorV::RepoRootNotFound => "cannot find the root of the git repository"@,
        ErrorV::LockFileHazard => "Cargo.lock is present in your .gitignore and is also committed. Remove it from your repository or from your `.gitignore` file."@,
        ErrorV::ManifestNotFound { path } => "Cannot find file "@ + path
            + ". Make sure you are inside a rust project or that --manifest-path points to a valid Cargo.toml file."@,
        ErrorV::RegistryManifestNotFound { path } => "cannot find project manifest "@ + path,
        ErrorV::ReleaseDateParse => "cannot parse release_date to y-m-d format"@,
        ErrorV::CannotReadChangelogConfig { path } => "cannot read "@ + path,
        ErrorV::ChangelogConfigConflict => "specifying the `[changelog]` configuration has no effect if `changelog_config` path is specified"@,
        ErrorV::NoConfigDir => "cannot get config dir"@,
        ErrorV::InvalidReleaseCommits { pattern } => "invalid release_commits pattern "@ + pattern,
        ErrorV::ForgeNotGithub => "Can't create PR: the repository is not hosted in GitHub. Please select a different forge."@,
        ErrorV::UrlParse { url } => "cannot parse url "@ + url,
        ErrorV::UrlNoSegments { url } => "cannot find github owner and repo from url "@ + url,
        ErrorV::UrlNoOwner { url } => "cannot find github owner from url "@ + url,
        ErrorV::UrlNoRepo { url } => "cannot find github repo from url "@ + url,
    }
}

impl UpdateError {
    /// The human-readable message of the error.
    pub fn message(&self) -> (r: String)
        ensures
            r@ == spec_message(self@),
    {
        match self {
            UpdateError::NoChangelogReleaseDate => String::from_str(
                "cannot set the release date when the changelog is disabled",
            ),
            UpdateError::RegistryConflict => String::from_str(
                "cannot use both a registry name and a registry manifest path",
            ),
            UpdateError::RepoRootNotFound => String::from_str(
                "cannot find the root of the git repository",
            ),
            UpdateError::LockFileHazard => String::from_str(
                "Cargo.lock is present in your .gitignore and is also committed. Remove it from your repository or from your `.gitignore` file.",
            ),
            UpdateError::ManifestNotFound { path } => String::from_str("Cannot find file ").concat(
                path.as_str(),
            ).concat(
                ". Make sure you are inside a rust project or that --manifest-path points to a valid Cargo.toml file.",
            ),
            UpdateError::RegistryManifestNotFound { path } => String::from_str(
                "cannot find project manifest ",
            ).concat(path.as_str()),
            UpdateError::ReleaseDateParse => String::from_str(
                "cannot parse release_date to y-m-d format",
            ),
            UpdateError::CannotReadChangelogConfig { path } => String::from_str(
                "cannot read ",
            ).concat(path.as_str()),
            UpdateError::ChangelogConfigConflict => String::from_str(
                "specifying the `[changelog]` configuration has no effect if `changelog_config` path is specified",
            ),
            UpdateError::NoConfigDir => String::from_str("cannot get config dir"),
            UpdateError::InvalidReleaseCommits { pattern } => String::from_str(
                "invalid release_commits pattern ",
            ).concat(pattern.as_str()),
            UpdateError::ForgeNotGithub => String::from_str(
                "Can't create PR: the repository is not hosted in GitHub. Please select a different forge.",
            ),
            UpdateError::UrlParse { url } => String::from_str("cannot parse url ").concat(
                url.as_str(),
            ),
            UpdateError::UrlNoSegments { url } => String::from_str(
                "cannot find github owner and repo from url ",
            ).concat(url.as_str()),
            UpdateError::UrlNoOwner { url } => String::from_str(
                "cannot find github owner from url ",
            ).concat(url.as_str()),
            UpdateError::UrlNoRepo { url } => String::from_str(
                "cannot find github repo from url ",
            ).concat(url.as_str()),
        }
    }
}

} // verus!
