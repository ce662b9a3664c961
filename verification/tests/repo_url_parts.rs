use release_plz::errors::UpdateError;
use release_plz::repo_url::{repo_url_from_parts, RepoUrl, UrlParts};

#[test]
fn parts_select_owner_and_name() {
    let parts = UrlParts {
        scheme: "https".to_string(),
        host: Some("example.org".to_string()),
        segments: Some(vec![
            "owner".to_string(),
            "name".to_string(),
            "extra".to_string(),
        ]),
    };
    let url = "https://example.org/owner/name/extra".to_string();
    let repo = repo_url_from_parts(parts, &url).unwrap();
    assert_eq!(repo.scheme, "https");
    assert_eq!(repo.host, "example.org");
    assert_eq!(repo.owner, "owner");
    assert_eq!(repo.name, "name");
}

#[test]
fn parts_without_host_fail() {
    let parts = UrlParts {
        scheme: "file".to_string(),
        host: None,
        segments: Some(vec!["a".to_string(), "b".to_string()]),
    };
    let err = repo_url_from_parts(parts, &"file:///a/b".to_string()).unwrap_err();
    assert!(matches!(err, UpdateError::UrlParse { .. }));
}

#[test]
fn parts_without_owner_fail() {
    let parts = UrlParts {
        scheme: "https".to_string(),
        host: Some("example.org".to_string()),
        segments: Some(vec![]),
    };
    let err = repo_url_from_parts(parts, &"https://example.org".to_string()).unwrap_err();
    assert!(matches!(err, UpdateError::UrlNoOwner { .. }));
    assert!(err.message().contains("cannot find github owner from url"));
}

#[test]
fn pr_link_is_formatted_from_the_parts() {
    let repo = RepoUrl::parse(&"https://github.com/owner/repo".to_string()).unwrap();
    assert_eq!(repo.git_pr_link(), "https://github.com/owner/repo/pull");
}

#[test]
fn parse_reads_scheme_and_host() {
    let repo = RepoUrl::parse(&"http://gitea.local/me/proj".to_string()).unwrap();
    assert_eq!(repo.scheme, "http");
    assert_eq!(repo.host, "gitea.local");
    assert!(!repo.is_on_github());
    let repo = RepoUrl::parse(&"https://github.com/me/proj".to_string()).unwrap();
    assert!(repo.is_on_github());
}
