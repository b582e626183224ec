//! The publish settings of every package, from the user's configuration.
use vstd::prelude::*;
use vstd::string::*;
use crate::config::{merged, PackageConfig, PackageSpecificConfigWithName};
use crate::config_show::Workspace;
use crate::release_config::{PublishConfig, PublishPackageConfig};
use crate::text::owned;

verus! {

/// The whole configuration: workspace settings and per-package settings.
#[derive(Clone, Debug)]
pub struct Config {
    pub workspace: Workspace,
    pub package: Vec<PackageSpecificConfigWithName>,
}

/// Publish settings: those of packages without their own, and those of
/// named packages.
#[derive(Clone, Debug)]
pub struct PackagesConfig {
    pub default: PublishPackageConfig,
    pub overrides: Vec<(String, PublishPackageConfig)>,
}

/// Package settings with the command-line flags applied: `--allow-dirty`
/// and the no-verify flag force their settings on.
pub open spec fn with_flags(c: PackageConfig, allow_dirty: bool, skip_build_check: bool) -> PackageConfig {
    PackageConfig {
        publish_allow_dirty: if allow_dirty {
            Some(true)
        } else {
            c.publish_allow_dirty
        },
        publish_skip_build_check: if skip_build_check {
            Some(true)
        } else {
            c.publish_skip_build_check
        },
        ..c
    }
}

/// The publish settings that package settings give.
pub open spec fn publish_of(c: PackageConfig, p: PublishPackageConfig) -> bool {
    &&& p.publish.enabled == (c.publish != Some(false))
    &&& p.skip_build_check == (c.publish_skip_build_check == Some(true))
    &&& p.allow_dirty == (c.publish_allow_dirty == Some(true))
    &&& p.all_features == (c.publish_all_features == Some(true))
    &&& match c.publish_features {
        Some(f) => p.features@ == f@,
        None => p.features@.len() == 0,
    }
}

fn features_of<'a>(a: &'a Option<Vec<String>>, b: &'a Option<Vec<String>>) -> (r: &'a Option<Vec<String>>)
    ensures
        *r == crate::config::or_spec(*a, *b),
{
    if a.is_some() {
        a
    } else {
        b
    }
}

/// The publish settings of package settings merged over defaults, with the
/// command-line flags applied.
fn publish_config_merged(
    pkg: &PackageConfig,
    def: &PackageConfig,
    allow_dirty: bool,
    skip_build_check: bool,
) -> (r: PublishPackageConfig)
    ensures
        publish_of(with_flags(merged(*pkg, *def), allow_dirty, skip_build_check), r),
{
    let skip = skip_build_check || match pkg.publish_skip_build_check {
        Some(v) => v,
        None => def.publish_skip_build_check == Some(true),
    };
    let dirty = allow_dirty || match pkg.publish_allow_dirty {
        Some(v) => v,
        None => def.publish_allow_dirty == Some(true),
    };
    let all = match pkg.publish_all_features {
        Some(v) => v,
        None => def.publish_all_features == Some(true),
    };
    let features = match crate::text::clone_opt_strings(features_of(&pkg.publish_features, &def.publish_features)) {
        Some(f) => f,
        None => Vec::new(),
    };
    PublishPackageConfig {
        publish: PublishConfig::enabled(
            match pkg.publish {
                Some(v) => v,
                None => def.publish != Some(false),
            },
        ),
        skip_build_check: skip,
        allow_dirty: dirty,
        features,
        all_features: all,
    }
}

impl Config {
    /// The publish settings of every package: the workspace defaults for
    /// packages without settings of their own; for each configured package its
    /// settings merged over the defaults; the flags applied to all.
    pub fn fill_publish_config(&self, allow_dirty: bool, skip_build_check: bool) -> (r: PackagesConfig)
        ensures
            publish_of(
                with_flags(self.workspace.packages_defaults, allow_dirty, skip_build_check),
                r.default,
            ),
            r.overrides@.len() == self.package@.len(),
            forall|i: int|
                0 <= i < r.overrides@.len() ==> (#[trigger] r.overrides@[i]).0@ == self.package@[i].name@
                    && publish_of(
                    with_flags(
                        merged(self.package@[i].config.common, self.workspace.packages_defaults),
                        allow_dirty,
                        skip_build_check,
                    ),
                    r.overrides@[i].1,
                ),
    {
        let defaults = &self.workspace.packages_defaults;
        let default = publish_config_merged(defaults, defaults, allow_dirty, skip_build_check);
        assert(merged(*defaults, *defaults) == *defaults);
        let mut overrides: Vec<(String, PublishPackageConfig)> = Vec::new();
        let mut i: usize = 0;
        while i < self.package.len()
            invariant
                i <= self.package@.len(),
                overrides@.len() == i,
                forall|k: int|
                    0 <= k < i ==> (#[trigger] overrides@[k]).0@ == self.package@[k].name@ && publish_of(
                        with_flags(
                            merged(self.package@[k].config.common, self.workspace.packages_defaults),
                            allow_dirty,
                            skip_build_check,
                        ),
                        overrides@[k].1,
                    ),
            decreases self.package@.len() - i,
        {
            let p = &self.package[i];
            let c = publish_config_merged(&p.config.common, &self.workspace.packages_defaults, allow_dirty, skip_build_check);
            overrides.push((owned(p.name.as_str()), c));
            i = i + 1;
        }
        PackagesConfig { default, overrides }
    }
}

/// The `publish` setting of each of the first `n` configured packages that
/// sets it itself, in order.
pub open spec fn explicit_publish_upto(pkgs: Seq<PackageSpecificConfigWithName>, n: int) -> Seq<
    (Seq<char>, bool),
>
    decreases n,
{
    if n <= 0 {
        Seq::empty()
    } else {
        let prev = explicit_publish_upto(pkgs, n - 1);
        match pkgs[n - 1].config.common.publish {
            Some(b) => prev.push((pkgs[n - 1].name@, b)),
            None => prev,
        }
    }
}

impl Config {
    /// The packages whose own configuration sets `publish`, with that
    /// setting, in order. The publish pre-flight check tests these against
    /// the manifests.
    pub fn explicit_publish_fields(&self) -> (r: Vec<(String, bool)>)
        ensures
            crate::publish::pair_views(r@) == explicit_publish_upto(self.package@, self.package@.len() as int),
    {
        let mut r: Vec<(String, bool)> = Vec::new();
        let mut i: usize = 0;
        while i < self.package.len()
            invariant
                i <= self.package@.len(),
                crate::publish::pair_views(r@) == explicit_publish_upto(self.package@, i as int),
            decreases self.package@.len() - i,
        {
            let p = &self.package[i];
            if let Some(b) = p.config.common.publish {
                let ghost before = crate::publish::pair_views(r@);
                r.push((owned(p.name.as_str()), b));
                assert(crate::publish::pair_views(r@) =~= before.push((p.name@, b)));
            }
            i = i + 1;
        }
        r
    }
}

impl PackagesConfig {
    /// The settings of a package: its own when it has some, else the defaults.
    pub fn get(&self, package: &str) -> (r: &PublishPackageConfig)
        ensures
            (exists|i: int| 0 <= i < self.overrides@.len() && self.overrides@[i].0@ == package@) ==> exists|
                i: int,
            |
                0 <= i < self.overrides@.len() && self.overrides@[i].0@ == package@ && *r
                    == self.overrides@[i].1,
            (forall|i: int| 0 <= i < self.overrides@.len() ==> self.overrides@[i].0@ != package@) ==> *r
                == self.default,
    {
        crate::publish::package_publish_config(self.overrides.as_slice(), &self.default, package)
    }

    /// The `publish` setting of each package with settings of its own, in order.
    pub fn publish_overrides_fields(&self) -> (r: Vec<(String, bool)>)
        ensures
            r@.len() == self.overrides@.len(),
            forall|i: int|
                0 <= i < r@.len() ==> (#[trigger] r@[i]).0@ == self.overrides@[i].0@ && r@[i].1
                    == self.overrides@[i].1.publish.enabled,
    {
        let mut r: Vec<(String, bool)> = Vec::new();
        let mut i: usize = 0;
        while i < self.overrides.len()
            invariant
                i <= self.overrides@.len(),
                r@.len() == i,
                forall|k: int|
                    0 <= k < i ==> (#[trigger] r@[k]).0@ == self.overrides@[k].0@ && r@[k].1
                        == self.overrides@[k].1.publish.enabled,
            decreases self.overrides@.len() - i,
        {
            r.push((owned(self.overrides[i].0.as_str()), self.overrides[i].1.publish.is_enabled()));
            i = i + 1;
        }
        r
    }

    /// The names of the packages with settings of their own.
    pub fn overridden_packages(&self) -> (r: Vec<String>)
        ensures
            r@.len() == self.overrides@.len(),
            forall|i: int| 0 <= i < r@.len() ==> (#[trigger] r@[i])@ == self.overrides@[i].0@,
    {
        let mut r: Vec<String> = Vec::new();
        let mut i: usize = 0;
        while i < self.overrides.len()
            invariant
                i <= self.overrides@.len(),
                r@.len() == i,
                forall|k: int| 0 <= k < i ==> (#[trigger] r@[k])@ == self.overrides@[k].0@,
            decreases self.overrides@.len() - i,
        {
            r.push(owned(self.overrides[i].0.as_str()));
            i = i + 1;
        }
        r
    }
}

} // verus!
