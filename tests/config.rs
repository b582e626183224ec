use k_releaser::config::{
    default_max_analyze_commits, git_release, parse_duration, parse_duration_unit, parse_u64,
    DurationError, DurationUnit, PackageConfig, PackageSpecificConfig,
};
use k_releaser::release_config::ReleaseType;

#[test]
fn test_parse_duration() {
    assert_eq!(parse_duration("30s").unwrap(), 30);
    assert_eq!(parse_duration("5m").unwrap(), 300);
    assert_eq!(parse_duration("1h").unwrap(), 3600);
    assert_eq!(parse_duration("60").unwrap(), 60); // Default to seconds
    assert_eq!(
        parse_duration("").unwrap_err().message(),
        "input cannot be empty"
    );
    assert_eq!(
        parse_duration("30x").unwrap_err().message(),
        "'x' is not a valid time unit. Valid units are: 's', 'm' and 'h'"
    );
    assert_eq!(
        parse_duration("-30s").unwrap_err().message(),
        "invalid duration number"
    );
}

#[test]
fn duration_edge_cases() {
    assert_eq!(parse_duration("+7m"), Ok(420));
    assert_eq!(parse_duration("s"), Err(DurationError::InvalidNumber));
    assert_eq!(parse_duration("18446744073709551615"), Ok(u64::MAX));
    assert_eq!(parse_duration("18446744073709551616"), Err(DurationError::InvalidNumber));
    assert_eq!(parse_duration("18446744073709551615m"), Err(DurationError::TooLarge));
    assert_eq!(parse_duration("10Q"), Err(DurationError::InvalidUnit('Q')));
    assert_eq!(parse_duration_unit("12h").unwrap(), ("12", DurationUnit::Hours));
    assert_eq!(parse_duration_unit("12").unwrap(), ("12", DurationUnit::Seconds));
    assert_eq!(parse_u64("007"), Some(7));
    assert_eq!(parse_u64(""), None);
    assert_eq!(parse_u64("+"), None);
}

#[test]
fn default_max_analyze_commits_is_1000() {
    assert_eq!(default_max_analyze_commits(), Some(1000));
}

#[test]
fn package_settings_win_over_workspace_defaults() {
    let mut package = PackageConfig::default();
    package.git_tag_name = Some("pkg-{{ version }}".to_string());
    package.publish_allow_dirty = Some(false);
    let mut workspace = PackageConfig::default();
    workspace.git_tag_name = Some("v{{ version }}".to_string());
    workspace.publish_allow_dirty = Some(true);
    workspace.semver_check = Some(false);
    let merged = package.merge(workspace);
    assert_eq!(merged.git_tag_name, Some("pkg-{{ version }}".to_string()));
    assert_eq!(merged.publish_allow_dirty, Some(false));
    assert_eq!(merged.semver_check, Some(false));
    assert_eq!(merged.changelog_update, None);
}

#[test]
fn package_specific_merge_keeps_its_own_fields() {
    let specific = PackageSpecificConfig {
        common: PackageConfig::default(),
        changelog_include: Some(vec!["other".to_string()]),
        version_group: Some("group".to_string()),
    };
    let mut defaults = PackageConfig::default();
    defaults.changelog_update = Some(true);
    let merged = specific.merge(defaults);
    assert_eq!(merged.common().changelog_update, Some(true));
    assert_eq!(merged.changelog_include, Some(vec!["other".to_string()]));
    assert_eq!(merged.version_group, Some("group".to_string()));
}

#[test]
fn git_release_settings_follow_the_package_config() {
    let config = PackageConfig::default();
    let g = git_release(&config);
    assert!(g.enabled && !g.draft && g.latest.is_none());
    assert_eq!(g.release_type, ReleaseType::Prod);

    let mut config = PackageConfig::default();
    config.git_release_enable = Some(false);
    config.git_release_draft = Some(true);
    config.git_release_latest = Some(false);
    config.git_release_type = Some(ReleaseType::Auto);
    config.git_release_name = Some("n".to_string());
    let g = git_release(&config);
    assert!(!g.enabled && g.draft);
    assert_eq!(g.latest, Some(false));
    assert_eq!(g.release_type, ReleaseType::Auto);
    assert_eq!(g.name_template, Some("n".to_string()));
}

#[test]
fn release_and_publish_settings_follow_the_package_config() {
    let mut config = PackageConfig::default();
    config.publish_skip_build_check = Some(true);
    config.publish_features = Some(vec!["a".to_string()]);
    config.changelog_update = Some(false);
    config.git_tag_enable = Some(false);
    let r = config.release_config();
    assert!(r.skip_build_check && !r.allow_dirty && !r.changelog_update && !r.git_tag.enabled);
    assert_eq!(r.features, vec!["a".to_string()]);
    let p = config.publish_package_config();
    assert!(p.skip_build_check && p.publish.enabled);
    assert_eq!(p.features, vec!["a".to_string()]);
}
