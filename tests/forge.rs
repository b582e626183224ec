use k_releaser::forge::{
    contributors_from_commits, detect_release_pr, validate_labels, Author, Commit, ForgeType,
    GitPr, Label, LabelProblem, PrCommit, PrEdit, Remote,
};

#[test]
fn contributors_are_extracted_from_commits() {
    let commits = vec![
        PrCommit {
            author: Some(Author {
                id: 1,
                login: "bob".to_string(),
            }),
            sha: "abc".to_string(),
        },
        PrCommit {
            author: Some(Author {
                id: 2,
                login: "marco".to_string(),
            }),
            sha: "abc".to_string(),
        },
        PrCommit {
            author: Some(Author {
                id: 3,
                login: "release[bot]".to_string(),
            }),
            sha: "abc".to_string(),
        },
        PrCommit {
            author: Some(Author {
                id: -2,
                login: "gitea-actions".to_string(),
            }),
            sha: "abc".to_string(),
        },
        PrCommit {
            author: None,
            sha: "abc".to_string(),
        },
    ];
    let contributors = contributors_from_commits(&commits, ForgeType::Gitea);
    assert_eq!(contributors, vec!["marco"]);
}

fn commit(login: &str) -> PrCommit {
    PrCommit { author: Some(Author { id: 5, login: login.to_string() }), sha: "s".to_string() }
}

#[test]
fn contributors_are_unique_in_first_seen_order() {
    let commits = vec![commit("author"), commit("x"), commit("y"), commit("x"), commit("author")];
    assert_eq!(contributors_from_commits(&commits, ForgeType::Github), vec!["x", "y", "author"]);
    let gh = vec![commit("a"), PrCommit { author: Some(Author { id: -2, login: "z".to_string() }), sha: "s".to_string() }];
    assert_eq!(contributors_from_commits(&gh, ForgeType::Github), vec!["z"]);
    assert!(contributors_from_commits(&[], ForgeType::Gitlab).is_empty());
}

#[test]
fn labels_are_validated() {
    assert!(validate_labels(&["a".to_string(), "b".to_string()]).is_ok());
    let err = validate_labels(&["a".to_string(), " b".to_string()]).unwrap_err();
    assert_eq!(err.problem, LabelProblem::Whitespace);
    assert_eq!(err.label, " b");
    assert_eq!(
        err.message(),
        "Failed to add label ` b`: leading or trailing whitespace is not allowed."
    );
    let err = validate_labels(&["a".to_string(), "a".to_string()]).unwrap_err();
    assert_eq!(err.problem, LabelProblem::Duplicate);
    let err = validate_labels(&["".to_string()]).unwrap_err();
    assert_eq!(err.problem, LabelProblem::Empty);
    let err = validate_labels(&["x".repeat(51)]).unwrap_err();
    assert_eq!(err.problem, LabelProblem::TooLong);
    assert!(validate_labels(&["x".repeat(50)]).is_ok());
}

fn pr(branch: &str) -> GitPr {
    GitPr {
        user: Author { id: 1, login: "u".to_string() },
        number: 1,
        html_url: "u".to_string(),
        head: Commit { ref_field: branch.to_string(), sha: "abc".to_string() },
        title: "t".to_string(),
        body: None,
        labels: vec![Label { name: "l1".to_string(), id: Some(3) }],
    }
}

#[test]
fn at_most_one_open_release_pr_is_accepted() {
    assert!(matches!(detect_release_pr(&[pr("main")], "release-"), Ok(None)));
    assert!(matches!(detect_release_pr(&[pr("main"), pr("release-1")], "release-"), Ok(Some(1))));
    assert!(detect_release_pr(&[pr("release-1"), pr("x"), pr("release-2")], "release-").is_err());
    assert_eq!(pr("main").label_names(), vec!["l1".to_string()]);
    assert_eq!(pr("feature").branch(), "feature");
}

#[test]
fn pr_edit_tracks_changes() {
    let edit = PrEdit::new();
    assert!(!edit.contains_edit());
    let edit = edit.with_title("t".to_string()).with_state("closed".to_string());
    assert!(edit.contains_edit());
    let gitlab = edit.into_gitlab();
    assert_eq!(gitlab.title, Some("t".to_string()));
    assert_eq!(gitlab.state_event, Some("closed".to_string()));
    assert_eq!(gitlab.description, None);
}

#[test]
fn dialects_differ_in_their_words() {
    assert_eq!(ForgeType::Gitea.per_page(), "limit");
    assert_eq!(ForgeType::Github.per_page(), "per_page");
    assert_eq!(ForgeType::Gitlab.param_value_pr_state_open(), "opened");
    assert_eq!(ForgeType::Gitea.param_value_pr_state_open(), "open");
    assert_eq!(ForgeType::Gitlab.closed_pr_state(), "close");
    assert_eq!(ForgeType::Github.closed_pr_state(), "closed");
    let remote = Remote { owner: "o".to_string(), repo: "r".to_string(), base_url: "b".to_string() };
    assert_eq!(remote.owner_slash_repo(), "o/r");
}

use k_releaser::forge::GitLabMr;
use k_releaser::forge::GitLabAuthor;
use k_releaser::forge_api::{
    associated_prs_url, categorize_labels, commits_api_path, issues_url, next_page,
    pr_labels_url, pulls_url, repo_api_url,
};

fn remote() -> Remote {
    Remote { owner: "o".to_string(), repo: "r".to_string(), base_url: "https://api.github.com/".to_string() }
}

#[test]
fn api_endpoints_follow_the_dialect() {
    let r = remote();
    assert_eq!(repo_api_url(ForgeType::Github, &r), "https://api.github.com/repos/o/r");
    assert_eq!(repo_api_url(ForgeType::Gitlab, &r), "https://api.github.com/");
    assert_eq!(pulls_url(ForgeType::Gitea, &r), "https://api.github.com/repos/o/r/pulls");
    assert_eq!(pulls_url(ForgeType::Gitlab, &r), "https://api.github.com//merge_requests");
    assert_eq!(issues_url(ForgeType::Github, &r), "https://api.github.com/repos/o/r/issues");
    assert_eq!(pr_labels_url(ForgeType::Github, &r, 42), "https://api.github.com/repos/o/r/issues/42/labels");
    assert_eq!(
        associated_prs_url(ForgeType::Github, &r, "abc"),
        "https://api.github.com/repos/o/r/commits/abc/pulls"
    );
    assert_eq!(
        associated_prs_url(ForgeType::Gitea, &r, "abc"),
        "https://api.github.com/repos/o/r/commits/abc/pull"
    );
    assert_eq!(
        commits_api_path(ForgeType::Gitea, &r, "abc"),
        Some("https://api.github.com/repos/o/r/git/commits/abc".to_string())
    );
    assert_eq!(commits_api_path(ForgeType::Gitlab, &r, "abc"), None);
    assert_eq!(next_page(1, 30, 30), Some(2));
    assert_eq!(next_page(1, 29, 30), None);
}

#[test]
fn labels_are_split_into_created_and_added() {
    let existing = vec![
        Label { name: "bug".to_string(), id: Some(1) },
        Label { name: "release".to_string(), id: Some(2) },
        Label { name: "gitlab".to_string(), id: None },
    ];
    let requested = vec!["release".to_string(), "new".to_string(), "bug".to_string(), "new".to_string()];
    let on_pr = vec!["bug".to_string()];
    let (create, ids) = categorize_labels(&requested, &existing, &on_pr).unwrap();
    assert_eq!(create, vec!["new".to_string()]);
    assert_eq!(ids, vec![2]);
    let err = categorize_labels(&["gitlab".to_string()], &existing, &vec![]).unwrap_err();
    assert_eq!(err.label, "gitlab");
}

#[test]
fn gitlab_merge_requests_convert_to_pull_requests() {
    let mr = GitLabMr {
        author: GitLabAuthor { id: 9, username: "dev".to_string() },
        iid: 5,
        web_url: "https://gitlab.com/o/r/-/merge_requests/5".to_string(),
        sha: "abc".to_string(),
        source_branch: "release-1".to_string(),
        title: "t".to_string(),
        description: String::new(),
        labels: vec!["l".to_string()],
    };
    let pr = GitPr::from_gitlab(mr);
    assert_eq!(pr.number, 5);
    assert_eq!(pr.body, None);
    assert_eq!(pr.branch(), "release-1");
    assert_eq!(pr.user.login, "dev");
    assert_eq!(pr.labels[0].id, None);
    let back = pr.into_gitlab();
    assert_eq!(back.description, "");
    assert_eq!(back.labels, vec!["l".to_string()]);
    assert_eq!(back.iid, 5);
}

use k_releaser::forge::{GitForge, GitRelease};

#[test]
fn forge_kind_and_remote_are_split() {
    let release = GitRelease { forge: GitForge::Gitea(remote()) };
    let (kind, r) = release.forge.into_parts();
    assert_eq!(kind, ForgeType::Gitea);
    assert_eq!(r.owner, "o");
}

use k_releaser::forge_api::{no_association, open_pr_request, release_request, releases_url, OpenPrBody, ReleaseBody};
use k_releaser::release_config::GitReleaseInfo;

#[test]
fn label_length_is_counted_in_bytes() {
    let err = validate_labels(&["é".repeat(26)]).unwrap_err();
    assert_eq!(err.problem, LabelProblem::TooLong);
    assert!(validate_labels(&["é".repeat(25)]).is_ok());
}

#[test]
fn open_pr_body_follows_the_dialect() {
    let b = open_pr_request(ForgeType::Gitlab, "t".into(), "b".into(), "main".into(), "rel".into(), false);
    assert!(matches!(b, OpenPrBody::MergeRequest { ref description, ref target_branch, ref source_branch, remove_source_branch: true, .. }
        if description == "b" && target_branch == "main" && source_branch == "rel"));
    let b = open_pr_request(ForgeType::Github, "t".into(), "b".into(), "main".into(), "rel".into(), true);
    assert!(matches!(b, OpenPrBody::Pull { ref base, ref head, draft: true, .. } if base == "main" && head == "rel"));
}

fn info(latest: Option<bool>) -> GitReleaseInfo {
    GitReleaseInfo {
        git_tag: "v1.0.0".into(),
        release_name: "Version 1.0.0".into(),
        release_body: "notes".into(),
        latest,
        draft: false,
        pre_release: false,
    }
}

#[test]
fn latest_is_only_for_github() {
    let r = release_request(ForgeType::Github, info(Some(false))).unwrap();
    assert!(matches!(r, ReleaseBody::Release(ref o) if o.make_latest == Some("false".to_string()) && o.tag_name == "v1.0.0"));
    assert!(release_request(ForgeType::Gitea, info(Some(true))).is_err());
    assert!(release_request(ForgeType::Gitlab, info(Some(true))).is_err());
    let r = release_request(ForgeType::Gitlab, info(None)).unwrap();
    assert!(matches!(r, ReleaseBody::GitlabRelease { ref description, .. } if description == "notes"));
    assert_eq!(releases_url(ForgeType::Github, &remote()), "https://api.github.com/repos/o/r/releases");
}

#[test]
fn missing_association_is_no_error() {
    assert!(no_association(ForgeType::Github, 404));
    assert!(no_association(ForgeType::Github, 422));
    assert!(!no_association(ForgeType::Gitea, 422));
    assert!(!no_association(ForgeType::Gitlab, 500));
}
