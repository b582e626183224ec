//! Per-package settings of tagging, forge releases and publishing.
use vstd::prelude::*;
use crate::version::Version;

verus! {

/// Whether a forge release is marked as pre-release.
#[derive(Clone, Copy, Debug, PartialEq, Eq, Structural)]
pub enum ReleaseType {
    /// Ready for production.
    Prod,
    /// Always a pre-release.
    Pre,
    /// A pre-release when the version has a pre-release tag.
    Auto,
}

impl Default for ReleaseType {
    fn default() -> (r: Self)
        ensures
            r == ReleaseType::Prod,
    {
        ReleaseType::Prod
    }
}

/// Whether a package is published to a registry.
#[derive(Clone, Copy, Debug, PartialEq, Eq, Structural)]
pub struct PublishConfig {
    pub enabled: bool,
}

impl Default for PublishConfig {
    fn default() -> (r: Self)
        ensures
            r.enabled,
    {
        PublishConfig { enabled: true }
    }
}

impl PublishConfig {
    pub fn enabled(enabled: bool) -> (r: Self)
        ensures
            r.enabled == enabled,
    {
        PublishConfig { enabled }
    }

    pub fn is_enabled(&self) -> (r: bool)
        ensures
            r == self.enabled,
    {
        self.enabled
    }
}

/// Settings of the forge release of a package.
#[derive(Clone, Debug)]
pub struct GitReleaseConfig {
    pub enabled: bool,
    pub draft: bool,
    pub latest: Option<bool>,
    pub release_type: ReleaseType,
    pub name_template: Option<String>,
    pub body_template: Option<String>,
}

impl Default for GitReleaseConfig {
    fn default() -> (r: Self)
        ensures
            r.enabled && !r.draft && r.latest is None && r.release_type == ReleaseType::Prod,
            r.name_template is None && r.body_template is None,
    {
        Self::enabled(true)
    }
}

impl GitReleaseConfig {
    /// Enabled or not, with every other setting at its default.
    pub fn enabled(enabled: bool) -> (r: Self)
        ensures
            r.enabled == enabled && !r.draft && r.latest is None,
            r.release_type == ReleaseType::Prod,
            r.name_template is None && r.body_template is None,
    {
        GitReleaseConfig {
            enabled,
            draft: false,
            latest: None,
            release_type: ReleaseType::Prod,
            name_template: None,
            body_template: None,
        }
    }

    pub fn is_enabled(&self) -> (r: bool)
        ensures
            r == self.enabled,
    {
        self.enabled
    }

    pub fn set_draft(self, draft: bool) -> (r: Self)
        ensures
            r == (GitReleaseConfig { draft, ..self }),
    {
        GitReleaseConfig { draft, ..self }
    }

    pub fn set_latest(self, latest: bool) -> (r: Self)
        ensures
            r == (GitReleaseConfig { latest: Some(latest), ..self }),
    {
        GitReleaseConfig { latest: Some(latest), ..self }
    }

    pub fn set_release_type(self, release_type: ReleaseType) -> (r: Self)
        ensures
            r == (GitReleaseConfig { release_type, ..self }),
    {
        GitReleaseConfig { release_type, ..self }
    }

    pub fn set_name_template(self, name_template: Option<String>) -> (r: Self)
        ensures
            r == (GitReleaseConfig { name_template, ..self }),
    {
        GitReleaseConfig { name_template, ..self }
    }

    pub fn set_body_template(self, body_template: Option<String>) -> (r: Self)
        ensures
            r == (GitReleaseConfig { body_template, ..self }),
    {
        GitReleaseConfig { body_template, ..self }
    }

    /// Whether the release of `version` is a pre-release: always for `Pre`,
    /// never for `Prod`, and for `Auto` when the version has a pre-release tag.
    pub fn is_pre_release(&self, version: &Version) -> (r: bool)
        ensures
            r == match self.release_type {
                ReleaseType::Pre => true,
                ReleaseType::Auto => version.pre@.len() > 0,
                ReleaseType::Prod => false,
            },
    {
        match self.release_type {
            ReleaseType::Pre => true,
            ReleaseType::Auto => version.is_prerelease(),
            ReleaseType::Prod => false,
        }
    }
}

/// Settings of the git tag of a package.
#[derive(Clone, Debug)]
pub struct GitTagConfig {
    pub enabled: bool,
    pub name_template: Option<String>,
}

impl Default for GitTagConfig {
    fn default() -> (r: Self)
        ensures
            r.enabled && r.name_template is None,
    {
        Self::enabled(true)
    }
}

impl GitTagConfig {
    pub fn enabled(enabled: bool) -> (r: Self)
        ensures
            r.enabled == enabled && r.name_template is None,
    {
        GitTagConfig { enabled, name_template: None }
    }

    pub fn set_name_template(self, name_template: Option<String>) -> (r: Self)
        ensures
            r.enabled == self.enabled && r.name_template == name_template,
    {
        GitTagConfig { name_template, ..self }
    }

    pub fn is_enabled(&self) -> (r: bool)
        ensures
            r == self.enabled,
    {
        self.enabled
    }
}

/// Release settings of a package.
#[derive(Clone, Debug)]
pub struct ReleaseConfig {
    pub publish: PublishConfig,
    pub git_release: GitReleaseConfig,
    pub git_tag: GitTagConfig,
    /// Adds the no-verify flag to the publish command.
    pub skip_build_check: bool,
    /// Adds `--allow-dirty` to the publish command.
    pub allow_dirty: bool,
    /// Passed with `--features` to the publish command when not empty.
    pub features: Vec<String>,
    /// Adds `--all-features` to the publish command.
    pub all_features: bool,
    pub changelog_path: Option<String>,
    /// Whether the package has a changelog file that is kept up to date.
    pub changelog_update: bool,
}

impl Default for ReleaseConfig {
    fn default() -> (r: Self)
        ensures
            r.publish.enabled && r.git_release.enabled && r.git_tag.enabled,
            !r.git_release.draft && r.git_release.latest is None,
            r.git_release.release_type == ReleaseType::Prod,
            r.git_release.name_template is None && r.git_release.body_template is None,
            r.git_tag.name_template is None,
            !r.skip_build_check && !r.allow_dirty && r.features@.len() == 0 && !r.all_features,
            r.changelog_path is None && r.changelog_update,
    {
        ReleaseConfig {
            publish: PublishConfig::enabled(true),
            git_release: GitReleaseConfig::enabled(true),
            git_tag: GitTagConfig::enabled(true),
            skip_build_check: false,
            allow_dirty: false,
            features: Vec::new(),
            all_features: false,
            changelog_path: None,
            changelog_update: true,
        }
    }
}

impl ReleaseConfig {
    pub fn with_publish(self, publish: PublishConfig) -> (r: Self)
        ensures
            r == (ReleaseConfig { publish, ..self }),
    {
        ReleaseConfig { publish, ..self }
    }

    pub fn with_git_release(self, git_release: GitReleaseConfig) -> (r: Self)
        ensures
            r == (ReleaseConfig { git_release, ..self }),
    {
        ReleaseConfig { git_release, ..self }
    }

    pub fn with_git_tag(self, git_tag: GitTagConfig) -> (r: Self)
        ensures
            r == (ReleaseConfig { git_tag, ..self }),
    {
        ReleaseConfig { git_tag, ..self }
    }

    pub fn with_skip_build_check(self, skip_build_check: bool) -> (r: Self)
        ensures
            r == (ReleaseConfig { skip_build_check, ..self }),
    {
        ReleaseConfig { skip_build_check, ..self }
    }

    pub fn with_allow_dirty(self, allow_dirty: bool) -> (r: Self)
        ensures
            r == (ReleaseConfig { allow_dirty, ..self }),
    {
        ReleaseConfig { allow_dirty, ..self }
    }

    pub fn with_features(self, features: Vec<String>) -> (r: Self)
        ensures
            r == (ReleaseConfig { features, ..self }),
    {
        ReleaseConfig { features, ..self }
    }

    pub fn with_all_features(self, all_features: bool) -> (r: Self)
        ensures
            r == (ReleaseConfig { all_features, ..self }),
    {
        ReleaseConfig { all_features, ..self }
    }

    pub fn with_changelog_path(self, changelog_path: String) -> (r: Self)
        ensures
            r == (ReleaseConfig { changelog_path: Some(changelog_path), ..self }),
    {
        ReleaseConfig { changelog_path: Some(changelog_path), ..self }
    }

    pub fn with_changelog_update(self, changelog_update: bool) -> (r: Self)
        ensures
            r == (ReleaseConfig { changelog_update, ..self }),
    {
        ReleaseConfig { changelog_update, ..self }
    }

    pub fn publish(&self) -> (r: &PublishConfig)
        ensures
            *r == self.publish,
    {
        &self.publish
    }

    pub fn git_release(&self) -> (r: &GitReleaseConfig)
        ensures
            *r == self.git_release,
    {
        &self.git_release
    }
}

/// Publish settings of a package.
#[derive(Clone, Debug)]
pub struct PublishPackageConfig {
    pub publish: PublishConfig,
    pub skip_build_check: bool,
    pub allow_dirty: bool,
    pub features: Vec<String>,
    pub all_features: bool,
}

impl Default for PublishPackageConfig {
    fn default() -> (r: Self)
        ensures
            r.publish.enabled && !r.skip_build_check && !r.allow_dirty && r.features@.len() == 0
                && !r.all_features,
    {
        PublishPackageConfig {
            publish: PublishConfig::enabled(true),
            skip_build_check: false,
            allow_dirty: false,
            features: Vec::new(),
            all_features: false,
        }
    }
}

impl PublishPackageConfig {
    pub fn with_publish(self, publish: PublishConfig) -> (r: Self)
        ensures
            r == (PublishPackageConfig { publish, ..self }),
    {
        PublishPackageConfig { publish, ..self }
    }

    pub fn with_skip_build_check(self, skip_build_check: bool) -> (r: Self)
        ensures
            r == (PublishPackageConfig { skip_build_check, ..self }),
    {
        PublishPackageConfig { skip_build_check, ..self }
    }

    pub fn with_allow_dirty(self, allow_dirty: bool) -> (r: Self)
        ensures
            r == (PublishPackageConfig { allow_dirty, ..self }),
    {
        PublishPackageConfig { allow_dirty, ..self }
    }

    pub fn with_features(self, features: Vec<String>) -> (r: Self)
        ensures
            r == (PublishPackageConfig { features, ..self }),
    {
        PublishPackageConfig { features, ..self }
    }

    pub fn with_all_features(self, all_features: bool) -> (r: Self)
        ensures
            r == (PublishPackageConfig { all_features, ..self }),
    {
        PublishPackageConfig { all_features, ..self }
    }
}

/// What a forge release is created with.
#[derive(Debug)]
pub struct GitReleaseInfo {
    pub git_tag: String,
    pub release_name: String,
    pub release_body: String,
    pub latest: Option<bool>,
    pub draft: bool,
    pub pre_release: bool,
}

} // verus!
