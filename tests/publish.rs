use k_releaser::publish::{
    check_publish_fields, join_features, package_publish_config, publish_args, publish_outcome,
    published_check, registries_for, should_use_trusted_publishing, IndexChoice, IndexError,
    PackageOrderInfo, PublishOrderOutput, PublishOutcome,
};
use k_releaser::release_config::{PublishConfig, PublishPackageConfig};
use k_releaser::version::Version;

#[test]
fn already_published_package_is_skipped() {
    assert_eq!(published_check(Ok(true), None), Ok((true, IndexChoice::Primary)));
    assert_eq!(published_check(Ok(false), Some(Ok(true))), Ok((false, IndexChoice::Primary)));
    assert_eq!(published_check(Err(()), Some(Ok(true))), Ok((true, IndexChoice::Fallback)));
    assert_eq!(published_check(Err(()), Some(Err(()))), Err(IndexError));
    assert_eq!(published_check(Err(()), None), Err(IndexError));
}

#[test]
fn publish_output_decides_the_outcome() {
    let v = Version::new(1, 2, 3);
    assert_eq!(publish_outcome(true, "Packaging\nUploading p v1.2.3\n", &v), PublishOutcome::Published);
    assert_eq!(publish_outcome(false, "Uploading\n", &v), PublishOutcome::Failed);
    assert_eq!(publish_outcome(true, "Uploading\nerror: bad\n", &v), PublishOutcome::Failed);
    assert_eq!(publish_outcome(true, "Packaging\n", &v), PublishOutcome::Failed);
    assert_eq!(
        publish_outcome(false, "error: crate version `1.2.3` is already uploaded\n", &v),
        PublishOutcome::AlreadyUploaded
    );
    assert_eq!(
        publish_outcome(false, "error: crate version `1.2.4` is already uploaded\n", &v),
        PublishOutcome::Failed
    );
}

#[test]
fn config_manifest_conflict_fails_before_publishing() {
    let packages = vec![("a".to_string(), true), ("p".to_string(), false)];
    let overrides = vec![("p".to_string(), true)];
    let err = check_publish_fields(&packages, &overrides).unwrap_err();
    assert_eq!(err.package, "p");
    assert!(err.message().contains("`p`"));
    assert!(check_publish_fields(&packages, &[("p".to_string(), false)]).is_ok());
    assert!(check_publish_fields(&packages, &[("a".to_string(), true)]).is_ok());
}

#[test]
fn registries_are_chosen() {
    let list = vec!["my-reg".to_string()];
    assert_eq!(registries_for(None, None), vec![None]);
    assert_eq!(registries_for(Some(&vec![]), None), vec![None]);
    assert_eq!(registries_for(Some(&list), None), vec![Some("my-reg".to_string())]);
    assert_eq!(registries_for(Some(&list), Some("my-reg")), vec![Some("my-reg".to_string())]);
    assert_eq!(registries_for(Some(&list), Some("other")), Vec::<Option<String>>::new());
    assert_eq!(registries_for(None, Some("other")), vec![Some("other".to_string())]);
}

#[test]
fn trusted_publishing_only_without_token_in_ci() {
    assert!(should_use_trusted_publishing(false, false, true, false, true));
    assert!(!should_use_trusted_publishing(true, false, true, false, true));
    assert!(!should_use_trusted_publishing(false, false, true, true, true));
    assert!(!should_use_trusted_publishing(false, false, false, false, true));
}

#[test]
fn publish_arguments_follow_the_settings() {
    let config = PublishPackageConfig::default()
        .with_allow_dirty(true)
        .with_skip_build_check(true)
        .with_features(vec!["a".to_string(), "b".to_string()])
        .with_all_features(true);
    let args = publish_args("crates/p/Cargo.toml", "p", Some("reg"), None, true, &config);
    assert_eq!(
        args,
        vec![
            "publish", "--color", "always", "--manifest-path", "crates/p/Cargo.toml", "--package", "p",
            "--registry", "reg", "--dry-run", "--allow-dirty", "--no-verify", "--features", "a,b",
            "--all-features",
        ]
    );
    let plain = publish_args("Cargo.toml", "q", None, Some("tok"), false, &PublishPackageConfig::default());
    assert_eq!(
        plain,
        vec!["publish", "--color", "always", "--manifest-path", "Cargo.toml", "--package", "q", "--token", "tok"]
    );
    assert_eq!(join_features(&vec![]), "");
}

#[test]
fn package_settings_fall_back_to_defaults() {
    let default = PublishPackageConfig::default();
    let overrides = vec![(
        "p".to_string(),
        PublishPackageConfig::default().with_publish(PublishConfig::enabled(false)),
    )];
    assert!(!package_publish_config(&overrides, &default, "p").publish.is_enabled());
    assert!(package_publish_config(&overrides, &default, "q").publish.is_enabled());
}

#[test]
fn publish_order_is_displayed() {
    let out = PublishOrderOutput {
        publish_order: vec![
            PackageOrderInfo { name: "b".to_string(), path: "crates/b".to_string() },
            PackageOrderInfo { name: "a".to_string(), path: ".".to_string() },
        ],
    };
    assert_eq!(
        out.display(),
        "Packages will be published in this order:\n1. b (crates/b)\n2. a (.)\n\nTotal: 2 packages"
    );
}

use k_releaser::publish::{empty_ci_token_is_error, index_url, relative_package_path, IndexUrl};

#[test]
fn index_urls_are_classified() {
    assert!(matches!(index_url("sparse+https://index.crates.io/"), IndexUrl::Sparse(ref u) if u == "sparse+https://index.crates.io/"));
    assert!(matches!(index_url("https://github.com/rust-lang/crates.io-index"), IndexUrl::Git(ref u) if u == "registry+https://github.com/rust-lang/crates.io-index"));
    assert!(empty_ci_token_is_error(true, true));
    assert!(!empty_ci_token_is_error(false, true));
}

#[test]
fn package_paths_are_relative_to_the_root() {
    assert_eq!(relative_package_path("/ws/crates/a", "/ws"), "crates/a");
    assert_eq!(relative_package_path("/ws", "/ws"), "");
    assert_eq!(relative_package_path("/other/a", "/ws"), ".");
    assert_eq!(relative_package_path("/wsx/a", "/ws"), ".");
}

use k_releaser::publish::{after_publish, AfterPublish};

#[test]
fn publish_outcome_decides_the_next_step() {
    assert_eq!(after_publish(PublishOutcome::Published, false), AfterPublish::WaitForIndex);
    assert_eq!(after_publish(PublishOutcome::Published, true), AfterPublish::Done);
    assert_eq!(after_publish(PublishOutcome::AlreadyUploaded, false), AfterPublish::Done);
    assert_eq!(after_publish(PublishOutcome::Failed, false), AfterPublish::Fail);
}

use k_releaser::publish::{publish_order, NoPublishablePackages};

#[test]
fn publish_order_lists_publishable_packages() {
    let names = vec!["a".to_string(), "b".to_string(), "c".to_string()];
    let paths = vec!["crates/a".to_string(), "crates/b".to_string(), ".".to_string()];
    let out = publish_order(&names, &paths, &[2, 0]).unwrap();
    assert_eq!(out.publish_order.len(), 2);
    assert_eq!(out.publish_order[0].name, "c");
    assert_eq!(out.publish_order[0].path, ".");
    assert_eq!(out.publish_order[1].name, "a");
    let err = publish_order(&names, &paths, &[]).unwrap_err();
    assert_eq!(err, NoPublishablePackages);
    assert_eq!(err.message(), "No publishable packages found in workspace");
}
