use k_releaser::changelog::{
    extract_changelog_from_pr_body, last_changes, last_version_from_str, render_pr_body,
    synthesize_changelog,
};
use k_releaser::forge::{Author, Commit, GitPr};
use k_releaser::release::{
    default_tag_name, default_unified_release_name, dry_run_skipped, find_release_pr,
    git_release_info, release_decision, tag_message, unique_logins, ShouldRelease,
};
use k_releaser::release_config::{GitReleaseConfig, ReleaseType};
use k_releaser::version::Version;

#[test]
fn test_extract_changelog_from_pr_body() {
    let pr_body = r#"
## New release v0.1.1

This release updates all workspace packages to version **0.1.1**.

### Packages updated

* `my-package`


<details><summary><i><b>Changelog</b></i></summary>

### Fixed

- add config file
- cargo init

### Other

- Initial commit

</details>



---
Generated by k-releaser"#;

    let changelog = extract_changelog_from_pr_body(pr_body);
    assert!(changelog.contains("### Fixed"));
    assert!(changelog.contains("- add config file"));
    assert!(changelog.contains("- cargo init"));
    assert!(changelog.contains("### Other"));
    assert!(changelog.contains("- Initial commit"));
    assert!(!changelog.contains("<details>"));
    assert!(!changelog.contains("</details>"));
    assert!(!changelog.contains("Generated by k-releaser"));
}

#[test]
fn test_extract_changelog_from_pr_body_without_details_tag() {
    let pr_body = "Some custom PR body without details tag";
    let changelog = extract_changelog_from_pr_body(pr_body);
    assert_eq!(changelog, pr_body);
}

#[test]
fn git_release_config_pre_release_default_works() {
    let config = GitReleaseConfig::default();
    let version = Version::parse("1.0.0").unwrap();
    let rc_version = Version::parse("1.0.0-rc1").unwrap();

    assert!(!config.is_pre_release(&version));
    assert!(!config.is_pre_release(&rc_version));
}

#[test]
fn git_release_config_pre_release_auto_works() {
    let mut config = GitReleaseConfig::default();
    config = config.set_release_type(ReleaseType::Auto);
    let version = Version::parse("1.0.0").unwrap();
    let rc_version = Version::parse("1.0.0-rc1").unwrap();

    assert!(!config.is_pre_release(&version));
    assert!(config.is_pre_release(&rc_version));
}

#[test]
fn git_release_config_pre_release_pre_works() {
    let mut config = GitReleaseConfig::default();
    config = config.set_release_type(ReleaseType::Pre);
    let version = Version::parse("1.0.0").unwrap();
    let rc_version = Version::parse("1.0.0-rc1").unwrap();

    assert!(config.is_pre_release(&version));
    assert!(config.is_pre_release(&rc_version));
}

#[test]
fn same_version_is_not_added_to_changelog() {
    let old = r"## [1.1.0] - 1970-01-01

### fix bugs
- my awesomefix

### other
- complex update
";
    let section = "## [1.1.0] - 1970-01-01\n\n### Fixed\n- myfix\n";
    let new = synthesize_changelog(Some(old), "1.1.0", section);
    assert_eq!(old, new.0);
    assert_eq!("", new.1);
}

#[test]
fn pr_body_round_trip_gives_the_changelog_back() {
    let changelog = "### Fixed\n\n- fix x";
    let body = render_pr_body(changelog);
    assert_eq!(
        body,
        "<details><summary>Changelog</summary>\n\n### Fixed\n\n- fix x\n</details>\n"
    );
    assert_eq!(extract_changelog_from_pr_body(&body), changelog);
    assert_eq!(extract_changelog_from_pr_body(&render_pr_body("")), "");
}

#[test]
fn new_section_is_spliced_after_the_header() {
    let old = "# Changelog\n\n## [0.1.0] - 2024-01-01\n\n- first\n";
    let section = "## [0.1.1] - 2024-02-01\n\n- second\n\n";
    let (full, entry) = synthesize_changelog(Some(old), "0.1.1", section);
    assert_eq!(
        full,
        "# Changelog\n\n## [0.1.1] - 2024-02-01\n\n- second\n\n## [0.1.0] - 2024-01-01\n\n- first\n"
    );
    assert_eq!(entry, "## [0.1.1] - 2024-02-01\n\n- second");
    let (fresh, _) = synthesize_changelog(None, "0.1.0", section);
    assert_eq!(fresh, section);
}

#[test]
fn last_entry_is_read_from_the_changelog() {
    let text = "# Changelog\n\n## [0.2.0] - 2024-02-01\n\n### Added\n- b\n\n## [0.1.0]\n- a\n";
    assert_eq!(last_version_from_str(text), Some("0.2.0".to_string()));
    assert_eq!(last_changes(text), Some("### Added\n- b".to_string()));
    assert_eq!(last_version_from_str("no sections"), None);
    assert_eq!(last_changes("no sections"), None);
    assert_eq!(last_changes("## [1.0.0]\n- only\n"), Some("- only".to_string()));
}

fn pr(branch: &str) -> GitPr {
    GitPr {
        user: Author { id: 1, login: "u".to_string() },
        number: 7,
        html_url: "https://github.com/o/r/pull/7".to_string(),
        head: Commit { ref_field: branch.to_string(), sha: "abc".to_string() },
        title: "t".to_string(),
        body: None,
        labels: vec![],
    }
}

#[test]
fn release_pr_is_found_by_branch_prefix() {
    let prs = vec![pr("feature"), pr("release-plz-2024"), pr("release-plz-old")];
    assert_eq!(find_release_pr(&prs, "release-plz-"), Some(1));
    assert_eq!(find_release_pr(&prs, "nothing"), None);
}

#[test]
fn release_decision_follows_the_release_pr() {
    assert!(matches!(
        release_decision(true, Some("aaa"), "bbb", true, false),
        ShouldRelease::YesWithCommit(ref s) if s == "aaa"
    ));
    assert!(matches!(release_decision(true, Some("aaa"), "bbb", false, false), ShouldRelease::Yes));
    assert!(matches!(release_decision(true, Some("bbb"), "bbb", true, false), ShouldRelease::Yes));
    assert!(matches!(release_decision(true, None, "bbb", true, false), ShouldRelease::Yes));
    assert!(matches!(release_decision(false, None, "bbb", true, true), ShouldRelease::Yes));
    assert!(matches!(release_decision(false, None, "bbb", true, false), ShouldRelease::No));
}

#[test]
fn release_names_and_tags() {
    let v = Version::new(1, 2, 3);
    assert_eq!(default_unified_release_name(&v), "Version 1.2.3");
    assert_eq!(tag_message("p", &v), "chore: Release package p version 1.2.3");
    assert_eq!(default_tag_name("p", &v, false), "p-v1.2.3");
    assert_eq!(default_tag_name("p", &v, true), "v1.2.3");
}

#[test]
fn release_info_marks_pre_releases() {
    let config = GitReleaseConfig::default().set_release_type(ReleaseType::Auto).set_draft(true);
    let rc = Version::parse("2.0.0-rc.1").unwrap();
    let info = git_release_info(&config, &rc, "v2.0.0-rc.1".to_string(), "n".to_string(), "b".to_string());
    assert!(info.pre_release && info.draft);
    assert_eq!(info.latest, None);
    assert_eq!(info.git_tag, "v2.0.0-rc.1");
}

#[test]
fn contributors_of_a_release_are_deduplicated() {
    let logins = vec!["a".to_string(), "b".to_string(), "a".to_string(), "c".to_string(), "b".to_string()];
    assert_eq!(unique_logins(&logins), vec!["a", "b", "c"]);
}

#[test]
fn dry_run_lists_what_it_skips() {
    assert_eq!(
        dry_run_skipped("v1.0.0", true, true),
        vec!["creation of tag 'v1.0.0'".to_string(), "creation of git release".to_string()]
    );
    assert!(dry_run_skipped("v1.0.0", false, false).is_empty());
}

use k_releaser::release::{last_changelog_entry, workspace_changelog_entry};

#[test]
fn release_notes_come_from_the_changelog_file() {
    let text = "# Changelog\n\n## [1.0.0]\n\n- done\n";
    assert_eq!(last_changelog_entry(true, Some(text)), "- done");
    assert_eq!(last_changelog_entry(false, Some(text)), "");
    assert_eq!(last_changelog_entry(true, None), "");
    assert_eq!(last_changelog_entry(true, Some("no entries")), "");
}

#[test]
fn unified_release_notes_come_from_the_release_pr() {
    let mut with_body = pr("release-plz-1");
    with_body.body = Some(render_pr_body("### Fixed\n- x"));
    let prs = vec![pr("feature"), with_body];
    assert_eq!(workspace_changelog_entry(&prs, "release-plz-"), "### Fixed\n- x");
    assert_eq!(workspace_changelog_entry(&prs, "other-"), "");
    assert_eq!(workspace_changelog_entry(&[pr("release-plz-2")], "release-plz-"), "");
}

use k_releaser::release::{release_steps, TagAction};

#[test]
fn existing_tag_skips_the_package() {
    let s = release_steps(true, false, true, true, false);
    assert!(s.skip && !s.create_release);
    assert_eq!(s.tag, TagAction::NoTag);
    let s = release_steps(false, true, true, true, false);
    assert!(s.report_only && !s.create_release);
    let s = release_steps(false, false, true, true, true);
    assert_eq!(s.tag, TagAction::Local);
    assert!(s.create_release);
    let s = release_steps(false, false, true, false, false);
    assert_eq!(s.tag, TagAction::Forge);
    assert!(!s.create_release);
}

use k_releaser::changelog::previous_version;
use k_releaser::release::unified_release;

#[test]
fn unified_release_reports_one_workspace_entry() {
    let v = Version::new(0, 2, 0);
    let r = unified_release(false, false, v.clone(), "v0.2.0".to_string(), vec![12]).unwrap();
    assert_eq!(r.releases.len(), 1);
    assert_eq!(r.releases[0].package_name, "workspace");
    assert_eq!(r.releases[0].tag, "v0.2.0");
    assert_eq!(r.releases[0].version.to_string(), "0.2.0");
    assert_eq!(r.releases[0].prs, vec![12]);
    assert!(unified_release(true, false, v.clone(), "v0.2.0".to_string(), vec![]).is_none());
    assert!(unified_release(false, true, v, "v0.2.0".to_string(), vec![]).is_none());
}

#[test]
fn previous_version_comes_from_the_changelog() {
    let v = Version::new(0, 3, 0);
    assert_eq!(previous_version(Some("## [0.2.5] - x\n"), &v), "0.2.5");
    assert_eq!(previous_version(Some("# Changelog\n"), &v), "0.3.0");
    assert_eq!(previous_version(None, &v), "0.3.0");
}

#[test]
fn dry_run_names_the_git_release() {
    assert_eq!(dry_run_skipped("t", false, true), vec!["creation of git release".to_string()]);
}
