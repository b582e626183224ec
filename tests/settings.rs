use k_releaser::config::{PackageConfig, PackageSpecificConfig, PackageSpecificConfigWithName};
use k_releaser::config_show::Workspace;
use k_releaser::publish::check_publish_fields;
use k_releaser::settings::Config;

fn config_with(package: PackageConfig) -> Config {
    let mut workspace = Workspace::default();
    workspace.packages_defaults.publish_features = Some(vec!["default-feature".to_string()]);
    workspace.packages_defaults.publish_all_features = Some(true);
    Config {
        workspace,
        package: vec![PackageSpecificConfigWithName {
            name: "p".to_string(),
            config: PackageSpecificConfig { common: package, changelog_include: None, version_group: None },
        }],
    }
}

#[test]
fn publish_settings_merge_package_over_workspace() {
    let mut package = PackageConfig::default();
    package.publish_features = Some(vec!["own".to_string()]);
    let config = config_with(package);
    let filled = config.fill_publish_config(false, false);
    assert_eq!(filled.default.features, vec!["default-feature".to_string()]);
    assert!(filled.default.all_features && !filled.default.allow_dirty);
    assert_eq!(filled.overrides.len(), 1);
    assert_eq!(filled.overrides[0].0, "p");
    assert_eq!(filled.get("p").features, vec!["own".to_string()]);
    assert!(filled.get("p").all_features);
    assert_eq!(filled.get("other").features, vec!["default-feature".to_string()]);
    assert_eq!(filled.overridden_packages(), vec!["p".to_string()]);
}

#[test]
fn command_line_flags_force_their_settings() {
    let mut package = PackageConfig::default();
    package.publish_allow_dirty = Some(false);
    let filled = config_with(package).fill_publish_config(true, true);
    assert!(filled.default.allow_dirty && filled.default.skip_build_check);
    assert!(filled.get("p").allow_dirty && filled.get("p").skip_build_check);
}

#[test]
fn publish_conflict_is_found_before_any_registry_call() {
    // The manifest of `p` has `publish = []`.
    let manifest = vec![("p".to_string(), false)];
    // A package entry that does not set `publish` is no conflict.
    let config = config_with(PackageConfig::default());
    assert!(config.explicit_publish_fields().is_empty());
    assert!(check_publish_fields(&manifest, &config.explicit_publish_fields()).is_ok());
    // `publish = true` in the configuration is.
    let mut package = PackageConfig::default();
    package.publish = Some(true);
    let config = config_with(package);
    let fields = config.explicit_publish_fields();
    assert_eq!(fields, vec![("p".to_string(), true)]);
    let err = check_publish_fields(&manifest, &fields).unwrap_err();
    assert_eq!(err.package, "p");
    // `publish = false` agrees with the manifest and turns publishing off.
    let mut package = PackageConfig::default();
    package.publish = Some(false);
    let config = config_with(package);
    assert!(check_publish_fields(&manifest, &config.explicit_publish_fields()).is_ok());
    assert!(!config.fill_publish_config(false, false).get("p").publish.is_enabled());
    assert!(config.fill_publish_config(false, false).get("q").publish.is_enabled());
}
