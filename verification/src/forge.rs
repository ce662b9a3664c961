//! The handle of the git-hosting backend a pull request would go to:
//! GitHub, Gitea or GitLab, each carrying what its client needs. Built once
//! per run; no network is touched here.

use vstd::prelude::*;

verus! {

use crate::repo_url::{RepoUrl, RepoUrlV};

/// A GitHub client handle: owner, repository name and access token.
#[derive(Debug)]
pub struct GitHub {
    pub owner: String,
    pub repo: String,
    pub token: String,
}

impl GitHub {
    pub fn new(owner: String, repo: String, token: String) -> (r: Self)
        ensures
            r.owner == owner,
            r.repo == repo,
            r.token == token,
    {
        GitHub { owner, repo, token }
    }
}

/// A Gitea client handle: the decomposed repository URL and access token.
#[derive(Debug)]
pub struct Gitea {
    pub repo: RepoUrl,
    pub token: String,
}

impl Gitea {
    pub fn new(repo: RepoUrl, token: String) -> (r: Self)
        ensures
            r.repo == repo,
            r.token == token,
    {
        Gitea { repo, token }
    }
}

/// A GitLab client handle: the decomposed repository URL and access token.
#[derive(Debug)]
pub struct GitLab {
    pub repo: RepoUrl,
    pub token: String,
}

impl GitLab {
    pub fn new(repo: RepoUrl, token: String) -> (r: Self)
        ensures
            r.repo == repo,
            r.token == token,
    {
        GitLab { repo, token }
    }
}

/// The git-hosting backend a pull request would be created on.
#[derive(Debug)]
pub enum GitForge {
    Github(GitHub),
    Gitea(Gitea),
    Gitlab(GitLab),
}

/// The mathematical model of a `GitForge`: the coordinates of the backend
/// and the access token the handle carries.
#[verifier::ext_equal]
pub enum ForgeV {
    Github { owner: Seq<char>, repo: Seq<char>, token: Seq<char> },
    Gitea { remote: RepoUrlV, token: Seq<char> },
    Gitlab { remote: RepoUrlV, token: Seq<char> },
}

/// The access token a forge handle carries, whichever backend it is for.
pub open spec fn forge_token(f: ForgeV) -> Seq<char> {
    match f {
        ForgeV::Github { token, .. } => token,
        ForgeV::Gitea { token, .. } => token,
        ForgeV::Gitlab { token, .. } => token,
    }
}

impl View for GitForge {
    type V = ForgeV;

    open spec fn view(&self) -> ForgeV {
        match self {
            GitForge::Github(g) => ForgeV::Github {
                owner: g.owner@,
                repo: g.repo@,
                token: g.token@,
            },
            GitForge::Gitea(g) => ForgeV::Gitea { remote: g.repo@, token: g.token@ },
            GitForge::Gitlab(g) => ForgeV::Gitlab { remote: g.repo@, token: g.token@ },
        }
    }
}

} // verus!
