use k_releaser::repo_url::RepoUrl;

const GITHUB_COM: &str = "github.com";

#[test]
fn https_github_url_is_parsed() {
    let expected_owner = "MarcoIeni";
    let expected_repo = "release-plz";
    let url = format!("https://{GITHUB_COM}/{expected_owner}/{expected_repo}");
    let repo = RepoUrl::new(&url).unwrap();
    assert_eq!(expected_owner, repo.owner);
    assert_eq!(expected_repo, repo.name);
    assert_eq!(GITHUB_COM, repo.host);
    assert!(repo.is_on_github());
}

#[test]
fn git_github_url_is_parsed() {
    let expected_owner = "MarcoIeni";
    let expected_repo = "release-plz";
    let url = format!("git@github.com:{expected_owner}/{expected_repo}.git");
    let repo = RepoUrl::new(&url).unwrap();
    assert_eq!(expected_owner, repo.owner);
    assert_eq!(expected_repo, repo.name);
    assert_eq!(GITHUB_COM, repo.host);
    assert!(repo.is_on_github());
}

#[test]
fn gitea_url_is_parsed() {
    let host = "example.com";
    let expected_owner = "MarcoIeni";
    let expected_repo = "release-plz";
    let url = format!("https://{host}/{expected_owner}/{expected_repo}");
    let repo = RepoUrl::new(&url).unwrap();
    assert_eq!(expected_owner, repo.owner);
    assert_eq!(expected_repo, repo.name);
    assert_eq!(host, repo.host);
    assert_eq!("https", repo.scheme);
    assert!(!repo.is_on_github());
    assert_eq!(format!("https://{host}/api/v1/"), repo.gitea_api_url());
}

#[test]
fn trailing_slash_and_git_suffix_are_dropped() {
    let repo = RepoUrl::new("https://gitlab.com/group/project.git/").unwrap();
    assert_eq!("group", repo.owner);
    assert_eq!("project", repo.name);
    assert_eq!("gitlab.com", repo.host);
}

#[test]
fn url_without_repository_is_rejected() {
    assert!(RepoUrl::new("https://github.com/owner").is_err());
    assert!(RepoUrl::new("github.com/owner/repo").is_err());
    assert!(RepoUrl::new("git@github.com").is_err());
}

#[test]
fn links_are_built_from_the_url() {
    let repo = RepoUrl::new("https://github.com/o/r").unwrap();
    assert_eq!("https://github.com", repo.full_host());
    assert_eq!("https://github.com/o/r/pull", repo.git_pr_link());
    assert_eq!(
        "https://github.com/o/r/compare/v0.1.0...v0.2.0",
        repo.git_release_link("v0.1.0", "v0.2.0")
    );
    let gitea = RepoUrl::new("https://example.com/o/r").unwrap();
    assert_eq!("https://example.com/o/r/pulls", gitea.git_pr_link());
}
