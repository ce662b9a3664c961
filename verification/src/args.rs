//! The plain update command: a manifest path, an optional reference
//! manifest, and — for the pull-request variant — a GitHub token and a
//! repository URL out of which owner and repository name are read.

use vstd::prelude::*;

verus! {

use crate::errors::{ErrorV, UpdateError};
use crate::forge::GitHub;
use crate::repo_url::{parse_url_parts, url_decompose, UrlParts};
use vstd::string::StringExecFns;

/// The arguments of a local-only update.
pub struct Update {
    pub project_manifest: Option<String>,
    pub reference_project_manifest: Option<String>,
}

/// The request a local-only update hands to the update engine.
pub struct UpdateRequest {
    pub local_manifest: String,
    pub remote_manifest: Option<String>,
}

/// The manifest the update works on: the given path, or the manifest file
/// in the working directory where none was given.
pub open spec fn spec_local_manifest(u: Update, cwd: Seq<char>) -> Seq<char> {
    match u.project_manifest {
        Some(p) => p@,
        None => cwd + "/Cargo.toml"@,
    }
}

impl Update {
    /// Builds the update request: the resolved local manifest and the
    /// reference manifest as given.
    pub fn update_request(&self, cwd: &String) -> (r: UpdateRequest)
        ensures
            r.local_manifest@ == spec_local_manifest(*self, cwd@),
            match r.remote_manifest {
                Some(m) => self.reference_project_manifest matches Some(p) && p@ == m@,
                None => self.reference_project_manifest is None,
            },
    {
        let remote_manifest = match &self.reference_project_manifest {
            Some(p) => Some(p.clone()),
            None => None,
        };
        UpdateRequest { local_manifest: self.local_manifest(cwd), remote_manifest }
    }

    fn local_manifest(&self, cwd: &String) -> (r: String)
        ensures
            r@ == spec_local_manifest(*self, cwd@),
    {
        match &self.project_manifest {
            Some(manifest) => manifest.clone(),
            None => cwd.clone().concat("/Cargo.toml"),
        }
    }
}

/// The arguments of an update that also opens a pull request.
pub struct UpdateWithPr {
    pub update: Update,
    pub github_token: String,
    pub repo_url: String,
}

/// The GitHub handle read out of a repository URL: the first path segment
/// is the owner, the second the repository name.
pub open spec fn spec_github_from_url(url: Seq<char>, token: Seq<char>) -> Result<
    (Seq<char>, Seq<char>),
    ErrorV,
> {
    match url_decompose(url) {
        None => Err(ErrorV::UrlParse { url }),
        Some(parts) => match parts.2 {
            None => Err(ErrorV::UrlNoSegments { url }),
            Some(segs) => if segs.len() < 1 {
                Err(ErrorV::UrlNoOwner { url })
            } else if segs.len() < 2 {
                Err(ErrorV::UrlNoRepo { url })
            } else {
                Ok((segs[0], segs[1]))
            },
        },
    }
}

impl UpdateWithPr {
    /// The GitHub handle for the pull request: owner and repository name
    /// from the URL's path segments, together with the token.
    pub fn github(&self) -> (r: Result<GitHub, UpdateError>)
        ensures
            match r {
                Ok(g) => spec_github_from_url(self.repo_url@, self.github_token@) == Ok::<
                    _,
                    ErrorV,
                >((g.owner@, g.repo@)) && g.token@ == self.github_token@,
                Err(e) => spec_github_from_url(self.repo_url@, self.github_token@) == Err::<
                    (Seq<char>, Seq<char>),
                    ErrorV,
                >(e@),
            },
    {
        let parts = match parse_url_parts(self.repo_url.as_str()) {
            Some(p) => p,
            None => {
                return Err(UpdateError::UrlParse { url: self.repo_url.clone() });
            },
        };
        let UrlParts { scheme: _, host: _, segments } = parts;
        let segments = match segments {
            Some(s) => s,
            None => {
                return Err(UpdateError::UrlNoSegments { url: self.repo_url.clone() });
            },
        };
        if segments.len() < 1 {
            Err(UpdateError::UrlNoOwner { url: self.repo_url.clone() })
        } else if segments.len() < 2 {
            Err(UpdateError::UrlNoRepo { url: self.repo_url.clone() })
        } else {
            let owner = segments[0].clone();
            let repo = segments[1].clone();
            assert(segments.deep_view()[0] == owner@);
            assert(segments.deep_view()[1] == repo@);
            Ok(GitHub { owner, repo, token: self.github_token.clone() })
        }
    }
}

} // verus!
