//! Release engine for multi-package workspaces.
//!
//! - [`commits`]: the commit stream read from the history, and the
//!   release-commits filter.
//! - [`version`], [`resolver`]: semantic versions and the next version that
//!   conventional commits call for.
//! - [`changelog`]: changelog sections, the same-version no-op, and the
//!   changelog carried in release PR bodies.
//! - [`project`]: the release order of packages.
//! - [`forge`], [`forge_api`], [`repo_url`]: pull requests, labels and
//!   endpoints of the three forge dialects.
//! - [`release`], [`publish`]: the decisions of the release and publish commands.
//! - [`config`], [`settings`], [`release_config`], [`update`], [`config_show`]:
//!   configuration, its merge over workspace defaults, and its display.
//! - [`text`]: character-level string helpers.
pub mod text;
pub mod commits;
pub mod version;
pub mod resolver;
pub mod changelog;
pub mod project;
pub mod forge;
pub mod forge_api;
pub mod repo_url;
pub mod release_config;
pub mod release;
pub mod publish;
pub mod config;
pub mod settings;
pub mod update;
pub mod config_show;
pub mod template;
