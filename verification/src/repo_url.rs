//! The repository URL, decomposed into plain parts: scheme, host, owner and
//! repository name. The decomposition itself is done by the `url` crate; the
//! selection of owner and name out of the decomposed parts is verified.

use vstd::prelude::*;

verus! {

use crate::errors::{ErrorV, UpdateError};
use vstd::string::StringExecFns;

/// The plain parts of a parsed URL: its scheme, its host where it has one,
/// and its path segments where it can have any.
pub struct UrlParts {
    pub scheme: String,
    pub host: Option<String>,
    pub segments: Option<Vec<String>>,
}

/// The scheme, host and path segments that the `url` crate reads out of a
/// string, or nothing where it refuses the string.
pub uninterp spec fn url_decompose(s: Seq<char>) -> Option<
    (Seq<char>, Option<Seq<char>>, Option<Seq<Seq<char>>>),
>;

/// Relies on `url::Url::parse` (WHATWG URL Standard): the parse result is a
/// function of the input string alone; `scheme`, `host_str` and
/// `path_segments` read the scheme, host and path segments of the parsed
/// value.
#[verifier::external_body]
pub(crate) fn parse_url_parts(s: &str) -> (r: Option<UrlParts>)
    ensures
        match r {
            Some(p) => url_decompose(s@) == Some(
                (p.scheme@, p.host.deep_view(), p.segments.deep_view()),
            ),
            None => url_decompose(s@) is None,
        },
{
    match url::Url::parse(s) {
        Ok(u) => Some(
            UrlParts {
                scheme: u.scheme().to_string(),
                host: u.host_str().map(|h| h.to_string()),
                segments: u.path_segments().map(|c| c.map(|x| x.to_string()).collect()),
            },
        ),
        Err(_) => None,
    }
}

/// A repository URL in decomposed form.
#[derive(Debug)]
pub struct RepoUrl {
    pub scheme: String,
    pub host: String,
    pub owner: String,
    pub name: String,
}

/// The mathematical model of a `RepoUrl`.
#[verifier::ext_equal]
pub struct RepoUrlV {
    pub scheme: Seq<char>,
    pub host: Seq<char>,
    pub owner: Seq<char>,
    pub name: Seq<char>,
}

impl View for RepoUrl {
    type V = RepoUrlV;

    open spec fn view(&self) -> RepoUrlV {
        RepoUrlV { scheme: self.scheme@, host: self.host@, owner: self.owner@, name: self.name@ }
    }
}

impl Clone for RepoUrl {
    fn clone(&self) -> (r: Self)
        ensures
            r == *self,
    {
        RepoUrl {
            scheme: self.scheme.clone(),
            host: self.host.clone(),
            owner: self.owner.clone(),
            name: self.name.clone(),
        }
    }
}

/// How a repository URL is read out of decomposed URL parts: the host must
/// be present, and the first two path segments give the owner and the
/// repository name.
pub open spec fn spec_repo_url_from_parts(
    scheme: Seq<char>,
    host: Option<Seq<char>>,
    segments: Option<Seq<Seq<char>>>,
    url: Seq<char>,
) -> Result<RepoUrlV, ErrorV> {
    match host {
        None => Err(ErrorV::UrlParse { url }),
        Some(h) => match segments {
            None => Err(ErrorV::UrlNoSegments { url }),
            Some(segs) => if segs.len() < 1 {
                Err(ErrorV::UrlNoOwner { url })
            } else if segs.len() < 2 {
                Err(ErrorV::UrlNoRepo { url })
            } else {
                Ok(RepoUrlV { scheme, host: h, owner: segs[0], name: segs[1] })
            },
        },
    }
}

/// How a repository URL is read out of a string: what the `url` crate
/// decomposes the string into, passed through `spec_repo_url_from_parts`.
pub open spec fn spec_parse_repo_url(s: Seq<char>) -> Result<RepoUrlV, ErrorV> {
    match url_decompose(s) {
        None => Err(ErrorV::UrlParse { url: s }),
        Some(parts) => spec_repo_url_from_parts(parts.0, parts.1, parts.2, s),
    }
}

/// Builds a repository URL from already-decomposed URL parts.
pub fn repo_url_from_parts(parts: UrlParts, url: &String) -> (r: Result<RepoUrl, UpdateError>)
    ensures
        match r {
            Ok(u) => spec_repo_url_from_parts(
                parts.scheme@,
                parts.host.deep_view(),
                parts.segments.deep_view(),
                url@,
            ) == Ok::<RepoUrlV, ErrorV>(u@),
            Err(e) => spec_repo_url_from_parts(
                parts.scheme@,
                parts.host.deep_view(),
                parts.segments.deep_view(),
                url@,
            ) == Err::<RepoUrlV, ErrorV>(e@),
        },
{
    let UrlParts { scheme, host, segments } = parts;
    let host = match host {
        Some(h) => h,
        None => {
            return Err(UpdateError::UrlParse { url: url.clone() });
        },
    };
    let segments = match segments {
        Some(s) => s,
        None => {
            return Err(UpdateError::UrlNoSegments { url: url.clone() });
        },
    };
    if segments.len() < 1 {
        Err(UpdateError::UrlNoOwner { url: url.clone() })
    } else if segments.len() < 2 {
        Err(UpdateError::UrlNoRepo { url: url.clone() })
    } else {
        let owner = segments[0].clone();
        let name = segments[1].clone();
        assert(segments.deep_view()[0] == owner@);
        assert(segments.deep_view()[1] == name@);
        Ok(RepoUrl { scheme, host, owner, name })
    }
}

impl RepoUrl {
    /// Parses a repository URL string into its decomposed form.
    pub fn parse(s: &String) -> (r: Result<RepoUrl, UpdateError>)
        ensures
            match r {
                Ok(u) => spec_parse_repo_url(s@) == Ok::<RepoUrlV, ErrorV>(u@),
                Err(e) => spec_parse_repo_url(s@) == Err::<RepoUrlV, ErrorV>(e@),
            },
    {
        match parse_url_parts(s.as_str()) {
            None => Err(UpdateError::UrlParse { url: s.clone() }),
            Some(parts) => repo_url_from_parts(parts, s),
        }
    }

    /// Whether the repository is hosted on GitHub.
    pub fn is_on_github(&self) -> (r: bool)
        ensures
            r == (self@.host == "github.com"@),
    {
        self.host == String::from_str("github.com")
    }

    /// The link under which the repository's pull requests live, used to
    /// format release-note links in the changelog.
    pub fn git_pr_link(&self) -> (r: String)
        ensures
            r@ == spec_git_pr_link(self@),
    {
        self.scheme.clone().concat("://").concat(self.host.as_str()).concat("/").concat(
            self.owner.as_str(),
        ).concat("/").concat(self.name.as_str()).concat("/pull")
    }
}

/// The pull-request link of a repository:
/// `scheme://host/owner/name/pull`.
pub open spec fn spec_git_pr_link(u: RepoUrlV) -> Seq<char> {
    u.scheme + "://"@ + u.host + "/"@ + u.owner + "/"@ + u.name + "/pull"@
}

} // verus!
