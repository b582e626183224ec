use k_releaser::resolver::VersionUpdater;
use k_releaser::version::{Version, VersionIncrement};

fn msgs(v: &[&str]) -> Vec<String> {
    v.iter().map(|s| s.to_string()).collect()
}

#[test]
fn returns_true_for_matching_custom_type() {
    let updater = VersionUpdater::new().with_custom_major_increment_regex("custom".to_string()).unwrap();
    let commits = msgs(&["custom: A custom commit"]);
    let inc = VersionIncrement::from_commits_with_updater(&updater, &Version::new(1, 2, 3), &commits);
    assert_eq!(inc, Some(VersionIncrement::Major));
}

#[test]
fn returns_false_for_non_custom_commit_types() {
    let updater = VersionUpdater::new().with_custom_major_increment_regex("custom".to_string()).unwrap();
    let commits = msgs(&["feat: A feature commit"]);
    let inc = VersionIncrement::from_commits_with_updater(&updater, &Version::new(1, 2, 3), &commits);
    assert_eq!(inc, Some(VersionIncrement::Minor));
}

#[test]
fn returns_false_for_empty_commits_list() {
    let updater = VersionUpdater::new().with_custom_major_increment_regex("custom".to_string()).unwrap();
    let inc = VersionIncrement::from_commits_with_updater(&updater, &Version::new(1, 2, 3), &[]);
    assert_eq!(inc, None);
}

#[test]
fn feat_with_body_parses_correctly() {
    let commits = msgs(&["feat: improved UI (#966)\n\nMore modern and consistent UI"]);
    let inc = VersionIncrement::from_commits(&Version::new(1, 0, 0), &commits);
    assert_eq!(inc, Some(VersionIncrement::Minor));
}

#[test]
fn feat_without_blank_line_fails_to_parse() {
    // Not a conventional commit: it counts as uncategorized, with patch weight.
    let commits = msgs(&["feat: improved UI (#966)\nMore modern and consistent UI"]);
    let inc = VersionIncrement::from_commits(&Version::new(1, 0, 0), &commits);
    assert_eq!(inc, Some(VersionIncrement::Patch));
}

#[test]
fn uncategorized_commits_bump_the_patch() {
    let commits = msgs(&["simple update", "docs: readme"]);
    assert_eq!(VersionIncrement::from_commits(&Version::new(0, 3, 1), &commits), Some(VersionIncrement::Patch));
    let next = VersionUpdater::new().increment(&Version::new(0, 3, 1), &commits).unwrap();
    assert_eq!(next.to_string(), "0.3.2");
}

#[test]
fn irrelevant_commits_keep_the_version() {
    let commits = msgs(&["docs: readme", "chore: tidy", "ci: pipeline", "Style: x"]);
    let v = Version::new(0, 3, 1);
    assert_eq!(VersionIncrement::from_commits(&v, &commits), None);
    let next = VersionUpdater::new().increment(&v, &commits).unwrap();
    assert_eq!(next.to_string(), "0.3.1");
}

#[test]
fn breaking_commits_follow_pre_1_0_rules() {
    let breaking = msgs(&["refactor!: drop api"]);
    assert_eq!(VersionUpdater::new().increment(&Version::new(1, 3, 3), &breaking).unwrap().to_string(), "2.0.0");
    assert_eq!(VersionUpdater::new().increment(&Version::new(0, 3, 3), &breaking).unwrap().to_string(), "0.4.0");
    assert_eq!(VersionUpdater::new().increment(&Version::new(0, 0, 3), &breaking).unwrap().to_string(), "0.0.4");
    let footer = msgs(&["fix: x\n\nBREAKING CHANGE: gone"]);
    assert_eq!(VersionUpdater::new().increment(&Version::new(2, 1, 0), &footer).unwrap().to_string(), "3.0.0");
    let forced = VersionUpdater::new().with_breaking_always_increment_major(true);
    assert_eq!(forced.increment(&Version::new(0, 3, 3), &breaking).unwrap().to_string(), "1.0.0");
}

#[test]
fn features_bump_minor_from_1_0_and_patch_before() {
    let feat = msgs(&["feat: new"]);
    assert_eq!(VersionUpdater::new().increment(&Version::new(0, 1, 0), &feat).unwrap().to_string(), "0.1.1");
    assert_eq!(VersionUpdater::new().increment(&Version::new(1, 1, 0), &feat).unwrap().to_string(), "1.2.0");
    let minor = VersionUpdater::new().with_features_always_increment_minor(true);
    assert_eq!(minor.increment(&Version::new(0, 1, 0), &feat).unwrap().to_string(), "0.2.0");
    let fix = msgs(&["fix: x"]);
    assert_eq!(VersionUpdater::new().increment(&Version::new(1, 1, 0), &fix).unwrap().to_string(), "1.1.1");
}

#[test]
fn custom_minor_pattern_bumps_minor() {
    let updater = VersionUpdater::new().with_custom_minor_increment_regex("^deps$".to_string()).unwrap();
    let commits = msgs(&["deps: bump"]);
    assert_eq!(updater.increment(&Version::new(1, 5, 2), &commits).unwrap().to_string(), "1.6.0");
    // Before 1.0 a custom minor match is demoted like a feature.
    assert_eq!(updater.increment(&Version::new(0, 5, 2), &commits).unwrap().to_string(), "0.5.3");
    let always = updater.with_features_always_increment_minor(true);
    assert_eq!(always.increment(&Version::new(0, 5, 2), &commits).unwrap().to_string(), "0.6.0");
}

#[test]
fn custom_major_pattern_is_demoted_before_1_0() {
    let updater = VersionUpdater::new().with_custom_major_increment_regex("^big$".to_string()).unwrap();
    let commits = msgs(&["big: rework"]);
    assert_eq!(updater.increment(&Version::new(2, 5, 2), &commits).unwrap().to_string(), "3.0.0");
    assert_eq!(updater.increment(&Version::new(0, 5, 2), &commits).unwrap().to_string(), "0.6.0");
    assert_eq!(updater.increment(&Version::new(0, 0, 2), &commits).unwrap().to_string(), "0.0.3");
}

#[test]
fn invalid_custom_pattern_is_refused() {
    assert!(VersionUpdater::new().with_custom_major_increment_regex("(".to_string()).is_err());
    assert!(VersionUpdater::new().with_custom_minor_increment_regex("[".to_string()).is_err());
}

#[test]
fn increment_without_room_is_refused() {
    let fix = msgs(&["fix: x"]);
    assert!(VersionUpdater::new().increment(&Version::new(1, 0, u64::MAX), &fix).is_none());
    let docs = msgs(&["docs: x"]);
    let same = VersionUpdater::new().increment(&Version::new(u64::MAX, u64::MAX, u64::MAX), &docs).unwrap();
    assert_eq!(same.patch, u64::MAX);
    assert!(VersionIncrement::Minor.fits(&Version::new(1, 2, u64::MAX)));
}

#[test]
fn prerelease_counter_is_incremented() {
    let commits = msgs(&["fix: x"]);
    let v = Version::parse("1.0.0-alpha.1").unwrap();
    assert_eq!(VersionUpdater::new().increment(&v, &commits).unwrap().to_string(), "1.0.0-alpha.2");
    let v = Version::parse("1.0.0-rc").unwrap();
    assert_eq!(VersionUpdater::new().increment(&v, &commits).unwrap().to_string(), "1.0.0-rc.1");
    let v = Version::parse("1.0.0-beta.9+build5").unwrap();
    assert_eq!(VersionUpdater::new().increment(&v, &commits).unwrap().to_string(), "1.0.0-beta.10+build5");
}

#[test]
fn breaking_increment_and_bump() {
    assert_eq!(VersionIncrement::breaking(&Version::new(0, 3, 3)), VersionIncrement::Minor);
    assert_eq!(VersionIncrement::breaking(&Version::new(1, 3, 3)), VersionIncrement::Major);
    assert_eq!(
        VersionIncrement::breaking(&Version::parse("1.3.3-alpha.1").unwrap()),
        VersionIncrement::Prerelease
    );
    assert_eq!(VersionIncrement::breaking(&Version::new(0, 0, 1)), VersionIncrement::Patch);
    assert_eq!(VersionIncrement::Minor.bump(&Version::new(1, 2, 3)).to_string(), "1.3.0");
}

#[test]
fn versions_are_parsed_and_printed() {
    let v = Version::parse("10.20.30-rc.1+meta").unwrap();
    assert_eq!((v.major, v.minor, v.patch), (10, 20, 30));
    assert_eq!(v.pre, "rc.1");
    assert_eq!(v.build, "meta");
    assert!(v.is_prerelease());
    assert_eq!(v.to_string(), "10.20.30-rc.1+meta");
    assert!(Version::parse("1.2").is_none());
    assert!(v.same_as(&Version::parse("10.20.30-rc.1+meta").unwrap()));
}
