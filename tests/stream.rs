use k_releaser::commits::{filter_release_commits, next_workspace_version, parse_git_log, subject, Commit};
use k_releaser::resolver::VersionUpdater;
use k_releaser::version::Version;

fn commit(id: &str, message: &str) -> Commit {
    Commit { id: id.to_string(), message: message.to_string() }
}

#[test]
fn git_log_listing_is_parsed_with_full_messages() {
    let output = "aaa\nfeat: improved UI\n\nMore modern UI\n--END-COMMIT--\nbbb\nci: pipeline\n--END-COMMIT--\n";
    let commits = parse_git_log(output);
    assert_eq!(commits.len(), 2);
    assert_eq!(commits[0].id, "aaa");
    assert_eq!(commits[0].message, "feat: improved UI\n\nMore modern UI");
    assert_eq!(commits[1].id, "bbb");
    assert_eq!(commits[1].message, "ci: pipeline");
    assert!(parse_git_log("").is_empty());
    assert!(parse_git_log("\n--END-COMMIT--\n").is_empty());
    let single = parse_git_log("ccc");
    assert_eq!(single.len(), 1);
    assert_eq!(single[0].message, "");
}

#[test]
fn release_commits_filter_looks_at_subjects() {
    let commits = vec![
        commit("1", "feat: new file"),
        commit("2", "fix: x\n\nfeat: in body only"),
        commit("3", "feat(scope): other"),
    ];
    let kept = filter_release_commits(&commits, "^feat").unwrap();
    let ids: Vec<&str> = kept.iter().map(|c| c.id.as_str()).collect();
    assert_eq!(ids, vec!["1", "3"]);
    assert!(filter_release_commits(&commits, "(").is_err());
    assert!(filter_release_commits(&[], "(").unwrap().is_empty());
    assert_eq!(subject("a\nb"), "a");
}

#[test]
fn feature_on_merged_branch_bumps_the_workspace() {
    // History since v0.1.0, newest first, including the side-branch commit.
    let output = "m2\nchore: workspace versions\n--END-COMMIT--\nm1\nMerge branch 'feature'\n--END-COMMIT--\n\
c2\nchore: version update\n--END-COMMIT--\nf1\nfeat: improved UI\n--END-COMMIT--\nc1\nci: pipeline\n--END-COMMIT--\n";
    let commits = parse_git_log(output);
    let next = next_workspace_version(&Version::new(0, 1, 0), &commits, None, &VersionUpdater::new()).unwrap();
    assert_eq!(next.to_string(), "0.1.1");
}

#[test]
fn release_commits_pattern_can_hold_back_a_release() {
    let commits = vec![commit("1", "fix: small")];
    let v = Version::new(1, 0, 0);
    let next = next_workspace_version(&v, &commits, Some("^feat:"), &VersionUpdater::new()).unwrap();
    assert_eq!(next.to_string(), "1.0.0");
    let next = next_workspace_version(&v, &commits, None, &VersionUpdater::new()).unwrap();
    assert_eq!(next.to_string(), "1.0.1");
}

#[test]
fn no_new_commits_keep_the_version() {
    let v = Version::new(0, 2, 0);
    let next = next_workspace_version(&v, &[], None, &VersionUpdater::new()).unwrap();
    assert_eq!(next.to_string(), "0.2.0");
}

use k_releaser::commits::{should_update, NextVersionError};

#[test]
fn raw_messages_are_kept_as_git_writes_them() {
    // As `git log --format=%H%n%B%n--END-COMMIT--` writes it: %B ends with a newline.
    let output = "aaa\nfix: x\n\n  indented body\n\nBREAKING CHANGE: gone\n\n--END-COMMIT--\nbbb\nchore: y\n\n--END-COMMIT--\n";
    let commits = parse_git_log(output);
    assert_eq!(commits.len(), 2);
    assert_eq!(commits[0].message, "fix: x\n\n  indented body\n\nBREAKING CHANGE: gone\n");
    assert_eq!(commits[1].message, "chore: y\n");
    let next = next_workspace_version(&Version::new(1, 0, 0), &commits, None, &VersionUpdater::new()).unwrap();
    assert_eq!(next.to_string(), "2.0.0");
}

#[test]
fn next_version_errors_are_reported() {
    let commits = vec![commit("1", "fix: x")];
    assert_eq!(
        next_workspace_version(&Version::new(1, 0, 0), &commits, Some("("), &VersionUpdater::new()).unwrap_err(),
        NextVersionError::InvalidPattern
    );
    assert_eq!(
        next_workspace_version(&Version::new(1, 0, u64::MAX), &commits, None, &VersionUpdater::new()).unwrap_err(),
        NextVersionError::TooLarge
    );
}

#[test]
fn update_needs_commits_and_a_new_version() {
    let a = Version::new(0, 1, 0);
    let b = Version::new(0, 1, 1);
    assert!(should_update(&a, &b, 1));
    assert!(!should_update(&a, &b, 0));
    assert!(!should_update(&a, &Version::new(0, 1, 0), 3));
}
