use k_releaser::config::{PackageConfig, PackageSpecificConfig};
use k_releaser::update::{PackageUpdate, PackageUpdateConfig, PackagesUpdate, SemverCheck, UpdateConfig};
use k_releaser::version::Version;

#[test]
fn update_settings_default_to_no_changelog_file() {
    let c = UpdateConfig::default();
    assert!(c.semver_check && !c.changelog_update && !c.features_always_increment_minor);
    let c = PackageConfig::default().update_config();
    assert!(c.semver_check && !c.changelog_update);
    let mut p = PackageConfig::default();
    p.changelog_update = Some(true);
    p.semver_check = Some(false);
    p.features_always_increment_minor = Some(true);
    let c = p.update_config();
    assert!(!c.semver_check && c.changelog_update);
    assert!(c.version_updater().features_always_increment_minor);
    let specific = PackageSpecificConfig { common: p, changelog_include: None, version_group: None };
    let pc = PackageUpdateConfig::from_package(&specific);
    assert!(pc.should_update_changelog() && !pc.semver_check());
    assert!(pc.changelog_include.is_empty());
    let g = PackageUpdateConfig::from_generic(UpdateConfig::default().with_changelog_update(true));
    assert!(g.should_update_changelog());
}

#[test]
fn update_summary_lists_changes_and_breaking_sections() {
    let mut update = PackagesUpdate::new(vec![
        PackageUpdate {
            name: "a".to_string(),
            current: Version::new(0, 1, 0),
            next: Version::new(0, 2, 0),
            semver_check: SemverCheck::Incompatible("removed fn x".to_string()),
        },
        PackageUpdate {
            name: "b".to_string(),
            current: Version::new(1, 0, 0),
            next: Version::new(1, 0, 0),
            semver_check: SemverCheck::Skipped,
        },
        PackageUpdate {
            name: "c".to_string(),
            current: Version::new(1, 0, 0),
            next: Version::new(1, 0, 1),
            semver_check: SemverCheck::Compatible,
        },
    ]);
    assert_eq!(
        update.updates_summary(),
        "\n* `a`: 0.1.0 -> 0.2.0 (⚠ API breaking changes)\n* `b`: 1.0.0\n* `c`: 1.0.0 -> 1.0.1 (✓ API compatible changes)"
    );
    assert_eq!(update.breaking_changes(), "\n### `a` breaking changes\n\n```removed fn x```\n");
    assert!(update.summary().ends_with("changes)\n\n### `a` breaking changes\n\n```removed fn x```\n"));
    assert!(update.workspace_version().is_none());
    update.with_workspace_version(Version::new(0, 2, 0));
    assert_eq!(update.workspace_version().unwrap().to_string(), "0.2.0");
    assert_eq!(update.updates().len(), 3);
}

use k_releaser::update::unified_updates;

#[test]
fn unified_update_gives_every_package_the_workspace_version() {
    let names = vec!["a".to_string(), "b".to_string(), "c".to_string()];
    let flags = vec![true, false, true];
    let v = Version::new(0, 2, 0);
    let updates = unified_updates(&names, &flags, &[2, 0], &v, "### Fixed\n- x");
    assert_eq!(updates.len(), 2);
    assert_eq!(updates[0].name, "c");
    assert_eq!(updates[1].name, "a");
    assert!(updates.iter().all(|u| u.version.to_string() == "0.2.0" && u.changelog_entry == "### Fixed\n- x"));
    assert!(updates[0].update_changelog && updates[1].update_changelog);
}
