use release_plz::config::{
    Config, ConfigPath, Env, PackageGraph, PackageOverride, PackageUpdateConfig,
};
use release_plz::date::Date;
use release_plz::errors::UpdateError;
use release_plz::forge::GitForge;
use release_plz::repo_url::RepoUrl;
use release_plz::request::ChangelogSource;
use release_plz::update::{check_if_cargo_lock_is_ignored_and_committed, GitForgeKind, Update};

fn base_update() -> Update {
    Update {
        manifest_path: None,
        registry_manifest_path: None,
        package: None,
        no_changelog: false,
        release_date: None,
        registry: None,
        update_deps: false,
        changelog_config: None,
        allow_dirty: false,
        repo_url: None,
        config: ConfigPath::default(),
        git_token: None,
        forge: GitForgeKind::Github,
    }
}

fn base_env() -> Env {
    Env {
        cwd: "/work/project".to_string(),
        config_dir: Some("/home/me/.config".to_string()),
        default_remote_url: None,
        git_repo_found: true,
        cargo_lock_ignored: false,
        cargo_lock_committed: false,
        user_changelog_path_exists: false,
        default_changelog_config_exists: false,
        registry_manifest_exists: false,
    }
}

fn base_graph() -> PackageGraph {
    PackageGraph {
        manifest_paths: vec!["/work/project/Cargo.toml".to_string()],
    }
}

#[test]
fn input_generates_correct_release_request() {
    let update_args = Update {
        manifest_path: None,
        registry_manifest_path: None,
        package: None,
        no_changelog: false,
        release_date: None,
        registry: None,
        update_deps: false,
        changelog_config: None,
        allow_dirty: false,
        repo_url: None,
        config: ConfigPath::default(),
        forge: GitForgeKind::Github,
        git_token: None,
    };
    let req = update_args
        .update_request(Config::default(), &base_env(), &base_graph())
        .unwrap();
    let pkg_config = req.get_package_config(&"aaa".to_string());
    assert_eq!(pkg_config, PackageUpdateConfig::default());
}

#[test]
fn no_changelog_and_release_date_conflict() {
    let mut u = base_update();
    u.no_changelog = true;
    u.release_date = Some("2024-01-01".to_string());
    let err = u
        .update_request(Config::default(), &base_env(), &base_graph())
        .unwrap_err();
    assert!(matches!(err, UpdateError::NoChangelogReleaseDate));
}

#[test]
fn workspace_suppression_and_release_date_conflict() {
    let mut u = base_update();
    u.release_date = Some("2024-01-01".to_string());
    let mut c = Config::default();
    c.workspace.changelog_update = Some(false);
    let err = u.update_request(c, &base_env(), &base_graph()).unwrap_err();
    assert!(matches!(err, UpdateError::NoChangelogReleaseDate));
}

#[test]
fn registry_and_registry_manifest_conflict() {
    let mut u = base_update();
    u.registry = Some("my-registry".to_string());
    u.registry_manifest_path = Some("/elsewhere/Cargo.toml".to_string());
    let err = u
        .update_request(Config::default(), &base_env(), &base_graph())
        .unwrap_err();
    assert!(matches!(err, UpdateError::RegistryConflict));
}

#[test]
fn missing_manifest_error_names_path() {
    let u = base_update();
    let graph = PackageGraph {
        manifest_paths: vec!["/other/Cargo.toml".to_string()],
    };
    let err = u
        .update_request(Config::default(), &base_env(), &graph)
        .unwrap_err();
    assert!(matches!(err, UpdateError::ManifestNotFound { .. }));
    assert!(err.message().contains("/work/project/Cargo.toml"));
}

#[test]
fn explicit_manifest_path_is_used() {
    let mut u = base_update();
    u.manifest_path = Some("/somewhere/else/Cargo.toml".to_string());
    let graph = PackageGraph {
        manifest_paths: vec!["/somewhere/else/Cargo.toml".to_string()],
    };
    let req = u.update_request(Config::default(), &base_env(), &graph).unwrap();
    assert_eq!(req.local_manifest, "/somewhere/else/Cargo.toml");
}

#[test]
fn lock_file_hazard_aborts() {
    let u = base_update();
    let mut env = base_env();
    env.cargo_lock_ignored = true;
    env.cargo_lock_committed = true;
    let err = u
        .update_request(Config::default(), &env, &base_graph())
        .unwrap_err();
    assert!(matches!(err, UpdateError::LockFileHazard));
    assert!(err.message().contains(".gitignore"));
}

#[test]
fn lock_file_only_ignored_passes() {
    let mut env = base_env();
    env.cargo_lock_ignored = true;
    assert!(check_if_cargo_lock_is_ignored_and_committed(&env).is_ok());
    let mut env = base_env();
    env.cargo_lock_committed = true;
    assert!(check_if_cargo_lock_is_ignored_and_committed(&env).is_ok());
}

#[test]
fn no_git_repository_aborts() {
    let u = base_update();
    let mut env = base_env();
    env.git_repo_found = false;
    let err = u
        .update_request(Config::default(), &env, &base_graph())
        .unwrap_err();
    assert!(matches!(err, UpdateError::RepoRootNotFound));
}

#[test]
fn github_forge_rejects_other_host() {
    let mut u = base_update();
    u.git_token = Some("token".to_string());
    let repo = RepoUrl::parse(&"https://gitlab.example.com/owner/repo".to_string()).unwrap();
    let err = u.git_forge(repo).unwrap_err();
    assert!(matches!(err, UpdateError::ForgeNotGithub));
    assert!(err.message().contains("not hosted in GitHub"));

    u.forge = GitForgeKind::Gitlab;
    let repo = RepoUrl::parse(&"https://gitlab.example.com/owner/repo".to_string()).unwrap();
    match u.git_forge(repo).unwrap().unwrap() {
        GitForge::Gitlab(g) => {
            assert_eq!(g.repo.host, "gitlab.example.com");
            assert_eq!(g.token, "token");
        }
        _ => panic!("expected a GitLab forge"),
    }
}

#[test]
fn github_forge_extracts_owner_and_repo() {
    let mut u = base_update();
    u.git_token = Some("token".to_string());
    let repo = RepoUrl::parse(&"https://github.com/owner/repo".to_string()).unwrap();
    assert_eq!(repo.owner, "owner");
    assert_eq!(repo.name, "repo");
    match u.git_forge(repo).unwrap().unwrap() {
        GitForge::Github(g) => {
            assert_eq!(g.owner, "owner");
            assert_eq!(g.repo, "repo");
            assert_eq!(g.token, "token");
        }
        _ => panic!("expected a GitHub forge"),
    }
}

#[test]
fn no_token_means_no_forge() {
    for kind in [GitForgeKind::Github, GitForgeKind::Gitea, GitForgeKind::Gitlab] {
        let mut u = base_update();
        u.forge = kind;
        let repo = RepoUrl::parse(&"https://github.com/o/r".to_string()).unwrap();
        assert!(matches!(u.git_forge(repo), Ok(None)));
    }
    let mut u = base_update();
    u.repo_url = Some("https://github.com/o/r".to_string());
    let req = u
        .update_request(Config::default(), &base_env(), &base_graph())
        .unwrap();
    assert!(req.git_forge.is_none());
    assert!(req.repo_url.is_some());
}

#[test]
fn invalid_calendar_date_fails() {
    let mut u = base_update();
    u.release_date = Some("2024-02-30".to_string());
    let err = u
        .update_request(Config::default(), &base_env(), &base_graph())
        .unwrap_err();
    assert!(matches!(err, UpdateError::ReleaseDateParse));
}

#[test]
fn leap_day_parses() {
    let mut u = base_update();
    u.release_date = Some("2024-02-29".to_string());
    let req = u
        .update_request(Config::default(), &base_env(), &base_graph())
        .unwrap();
    let changelog_req = req.changelog_req.unwrap();
    assert_eq!(
        changelog_req.release_date,
        Some(Date { year: 2024, month: 2, day: 29 })
    );
}

#[test]
fn century_leap_rule() {
    let mut u = base_update();
    u.release_date = Some("1900-02-29".to_string());
    let err = u
        .update_request(Config::default(), &base_env(), &base_graph())
        .unwrap_err();
    assert!(matches!(err, UpdateError::ReleaseDateParse));

    let mut u = base_update();
    u.release_date = Some("2000-02-29".to_string());
    let req = u
        .update_request(Config::default(), &base_env(), &base_graph())
        .unwrap();
    assert_eq!(
        req.changelog_req.unwrap().release_date,
        Some(Date { year: 2000, month: 2, day: 29 })
    );
}

#[test]
fn missing_changelog_config_path_fails() {
    let mut u = base_update();
    u.changelog_config = Some("/nope/cliff.toml".to_string());
    let err = u
        .update_request(Config::default(), &base_env(), &base_graph())
        .unwrap_err();
    match &err {
        UpdateError::CannotReadChangelogConfig { path } => {
            assert_eq!(path, "/nope/cliff.toml");
        }
        other => panic!("unexpected error: {other:?}", other = other.message()),
    }
    assert!(err.message().contains("/nope/cliff.toml"));
}

#[test]
fn inline_changelog_fallback() {
    let u = base_update();
    let req = u
        .update_request(Config::default(), &base_env(), &base_graph())
        .unwrap();
    match req.changelog_req.unwrap().changelog_config {
        ChangelogSource::Inline { pr_link } => assert_eq!(pr_link, None),
        ChangelogSource::File { .. } => panic!("expected the inline fallback"),
    }
}

#[test]
fn pr_link_flows_into_inline_config() {
    let mut u = base_update();
    u.repo_url = Some("https://github.com/owner/repo".to_string());
    let req = u
        .update_request(Config::default(), &base_env(), &base_graph())
        .unwrap();
    match req.changelog_req.unwrap().changelog_config {
        ChangelogSource::Inline { pr_link } => {
            assert_eq!(pr_link.as_deref(), Some("https://github.com/owner/repo/pull"));
        }
        ChangelogSource::File { .. } => panic!("expected the inline fallback"),
    }
}

#[test]
fn default_changelog_config_file_is_used() {
    let u = base_update();
    let mut env = base_env();
    env.default_changelog_config_exists = true;
    let req = u.update_request(Config::default(), &env, &base_graph()).unwrap();
    match req.changelog_req.unwrap().changelog_config {
        ChangelogSource::File { path } => {
            assert_eq!(path, "/home/me/.config/git-cliff/cliff.toml");
        }
        ChangelogSource::Inline { .. } => panic!("expected the default file"),
    }
}

#[test]
fn inline_and_file_changelog_config_conflict() {
    let mut u = base_update();
    u.changelog_config = Some("/conf/cliff.toml".to_string());
    let mut env = base_env();
    env.user_changelog_path_exists = true;
    let mut c = Config::default();
    c.changelog_is_default = false;
    let err = u.update_request(c, &env, &base_graph()).unwrap_err();
    assert!(matches!(err, UpdateError::ChangelogConfigConflict));
}

#[test]
fn missing_config_dir_aborts() {
    let u = base_update();
    let mut env = base_env();
    env.config_dir = None;
    let err = u
        .update_request(Config::default(), &env, &base_graph())
        .unwrap_err();
    assert!(matches!(err, UpdateError::NoConfigDir));
}

#[test]
fn workspace_suppression_drops_changelog() {
    let u = base_update();
    let mut c = Config::default();
    c.workspace.changelog_update = Some(false);
    let req = u.update_request(c, &base_env(), &base_graph()).unwrap();
    assert!(req.changelog_req.is_none());
}

#[test]
fn registry_manifest_must_exist() {
    let mut u = base_update();
    u.registry_manifest_path = Some("/released/Cargo.toml".to_string());
    let err = u
        .update_request(Config::default(), &base_env(), &base_graph())
        .unwrap_err();
    match &err {
        UpdateError::RegistryManifestNotFound { path } => {
            assert_eq!(path, "/released/Cargo.toml");
        }
        other => panic!("unexpected error: {other:?}", other = other.message()),
    }

    let mut u = base_update();
    u.registry_manifest_path = Some("/released/Cargo.toml".to_string());
    let mut env = base_env();
    env.registry_manifest_exists = true;
    let req = u.update_request(Config::default(), &env, &base_graph()).unwrap();
    assert_eq!(
        req.registry_manifest_path.as_deref(),
        Some("/released/Cargo.toml")
    );
}

#[test]
fn invalid_release_commits_pattern_fails() {
    let u = base_update();
    let mut c = Config::default();
    c.workspace.release_commits = Some("(".to_string());
    let err = u.update_request(c, &base_env(), &base_graph()).unwrap_err();
    match &err {
        UpdateError::InvalidReleaseCommits { pattern } => assert_eq!(pattern, "("),
        other => panic!("unexpected error: {other:?}", other = other.message()),
    }

    let u = base_update();
    let mut c = Config::default();
    c.workspace.release_commits = Some("^feat:".to_string());
    let req = u.update_request(c, &base_env(), &base_graph()).unwrap();
    assert_eq!(req.release_commits.as_deref(), Some("^feat:"));
}

#[test]
fn flags_resolve_by_or() {
    let cases: [(bool, Option<bool>, bool); 5] = [
        (false, None, false),
        (false, Some(false), false),
        (true, None, true),
        (false, Some(true), true),
        (true, Some(true), true),
    ];
    for (cli, cfg, expect) in cases {
        let mut u = base_update();
        u.update_deps = cli;
        u.allow_dirty = cli;
        let mut c = Config::default();
        c.workspace.dependencies_update = cfg;
        c.workspace.allow_dirty = cfg;
        assert_eq!(u.dependencies_update(&c), expect);
        assert_eq!(u.allow_dirty(&c), expect);
        let req = u.update_request(c, &base_env(), &base_graph()).unwrap();
        assert_eq!(req.dependencies_update, expect);
        assert_eq!(req.allow_dirty, expect);
    }
}

#[test]
fn repo_url_precedence() {
    let mut u = base_update();
    u.repo_url = Some("https://github.com/cli/one".to_string());
    let mut c = Config::default();
    c.workspace.repo_url = Some("https://github.com/conf/two".to_string());
    let mut env = base_env();
    env.default_remote_url = Some("https://github.com/remote/three".to_string());
    let url = u.get_repo_url(&c, &env).unwrap();
    assert_eq!(url.owner, "cli");

    let u = base_update();
    let url = u.get_repo_url(&c, &env).unwrap();
    assert_eq!(url.owner, "conf");

    let c = Config::default();
    let url = u.get_repo_url(&c, &env).unwrap();
    assert_eq!(url.owner, "remote");

    let env = base_env();
    assert!(u.get_repo_url(&c, &env).is_none());
}

#[test]
fn unparsable_repo_url_degrades_softly() {
    let mut u = base_update();
    u.repo_url = Some("http://[bad".to_string());
    let req = u
        .update_request(Config::default(), &base_env(), &base_graph())
        .unwrap();
    assert!(req.repo_url.is_none());
    assert!(req.git_forge.is_none());
}

#[test]
fn package_overrides_are_looked_up_by_name() {
    let u = base_update();
    let special = PackageUpdateConfig { semver_check: false, changelog_update: true };
    let mut c = Config::default();
    c.packages = vec![PackageOverride { name: "aaa".to_string(), config: special }];
    let req = u.update_request(c, &base_env(), &base_graph()).unwrap();
    assert_eq!(req.get_package_config(&"aaa".to_string()), special);
    assert_eq!(
        req.get_package_config(&"bbb".to_string()),
        PackageUpdateConfig::default()
    );
}

#[test]
fn single_package_and_registry_are_attached() {
    let mut u = base_update();
    u.package = Some("one-package".to_string());
    u.registry = Some("my-registry".to_string());
    let req = u
        .update_request(Config::default(), &base_env(), &base_graph())
        .unwrap();
    assert_eq!(req.single_package.as_deref(), Some("one-package"));
    assert_eq!(req.registry.as_deref(), Some("my-registry"));
}

#[test]
fn gitea_forge_takes_repo_as_is() {
    let mut u = base_update();
    u.git_token = Some("token".to_string());
    u.forge = GitForgeKind::Gitea;
    u.repo_url = Some("https://git.example.org/owner/repo".to_string());
    let req = u
        .update_request(Config::default(), &base_env(), &base_graph())
        .unwrap();
    match req.git_forge.unwrap() {
        GitForge::Gitea(g) => {
            assert_eq!(g.repo.host, "git.example.org");
            assert_eq!(g.repo.owner, "owner");
            assert_eq!(g.repo.name, "repo");
            assert_eq!(g.token, "token");
        }
        _ => panic!("expected a Gitea forge"),
    }
}
