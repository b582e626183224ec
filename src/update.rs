//! Settings of the update command and the summary of what it changed.
use vstd::prelude::*;
use vstd::string::*;
use crate::config::{PackageConfig, PackageSpecificConfig};
use crate::resolver::VersionUpdater;
use crate::text::{clone_opt, clone_opt_strings, owned};
use crate::version::{version_text, Version};

verus! {

/// Update settings of a package.
#[derive(Clone, Debug)]
pub struct UpdateConfig {
    /// Relative to the workspace root.
    pub changelog_path: Option<String>,
    /// Whether to run the semver checker (only on libraries).
    pub semver_check: bool,
    /// Whether to create or update a changelog file.
    pub changelog_update: bool,
    /// Whether feature commits bump the minor version before 1.0 too.
    pub features_always_increment_minor: bool,
    pub tag_name_template: Option<String>,
}

impl Default for UpdateConfig {
    fn default() -> (r: Self)
        ensures
            r.semver_check && !r.changelog_update && !r.features_always_increment_minor,
            r.tag_name_template is None && r.changelog_path is None,
    {
        UpdateConfig {
            semver_check: true,
            changelog_update: false,
            features_always_increment_minor: false,
            tag_name_template: None,
            changelog_path: None,
        }
    }
}

impl UpdateConfig {
    pub fn with_semver_check(self, semver_check: bool) -> (r: Self)
        ensures
            r == (UpdateConfig { semver_check, ..self }),
    {
        UpdateConfig { semver_check, ..self }
    }

    pub fn with_features_always_increment_minor(self, features_always_increment_minor: bool) -> (r:
        Self)
        ensures
            r == (UpdateConfig { features_always_increment_minor, ..self }),
    {
        UpdateConfig { features_always_increment_minor, ..self }
    }

    pub fn with_changelog_update(self, changelog_update: bool) -> (r: Self)
        ensures
            r == (UpdateConfig { changelog_update, ..self }),
    {
        UpdateConfig { changelog_update, ..self }
    }

    /// The version derivation settings of this package.
    pub fn version_updater(&self) -> (r: VersionUpdater)
        ensures
            r.features_always_increment_minor == self.features_always_increment_minor,
            !r.breaking_always_increment_major,
            r.custom_major_increment_regex is None && r.custom_minor_increment_regex is None,
    {
        VersionUpdater::new().with_features_always_increment_minor(
            self.features_always_increment_minor,
        )
    }
}

impl PackageConfig {
    /// The update settings these settings give: the semver check unless
    /// disabled, a changelog file only when asked for.
    pub fn update_config(&self) -> (r: UpdateConfig)
        ensures
            r.semver_check == (self.semver_check != Some(false)),
            r.changelog_update == (self.changelog_update == Some(true)),
            r.features_always_increment_minor == (self.features_always_increment_minor == Some(true)),
            r.tag_name_template == self.git_tag_name,
            r.changelog_path == self.changelog_path,
    {
        UpdateConfig {
            semver_check: self.semver_check != Some(false),
            changelog_update: self.changelog_update == Some(true),
            tag_name_template: clone_opt(&self.git_tag_name),
            features_always_increment_minor: self.features_always_increment_minor == Some(true),
            changelog_path: clone_opt(&self.changelog_path),
        }
    }
}

/// Update settings of a package, with those only a package has.
#[derive(Clone, Debug)]
pub struct PackageUpdateConfig {
    pub generic: UpdateConfig,
    /// Packages whose changelogs are included in this package's changelog.
    pub changelog_include: Vec<String>,
    pub version_group: Option<String>,
}

impl PackageUpdateConfig {
    /// The settings of a package that has none of its own.
    pub fn from_generic(generic: UpdateConfig) -> (r: Self)
        ensures
            r.generic == generic && r.changelog_include@.len() == 0 && r.version_group is None,
    {
        PackageUpdateConfig { generic, changelog_include: Vec::new(), version_group: None }
    }

    /// The update settings of package-specific settings.
    pub fn from_package(config: &PackageSpecificConfig) -> (r: Self)
        ensures
            r.generic.semver_check == (config.common.semver_check != Some(false)),
            r.generic.changelog_update == (config.common.changelog_update == Some(true)),
            r.version_group == config.version_group,
            match config.changelog_include {
                Some(l) => r.changelog_include@ == l@,
                None => r.changelog_include@.len() == 0,
            },
    {
        let included = match clone_opt_strings(&config.changelog_include) {
            Some(l) => l,
            None => Vec::new(),
        };
        PackageUpdateConfig {
            generic: config.common.update_config(),
            changelog_include: included,
            version_group: clone_opt(&config.version_group),
        }
    }

    pub fn semver_check(&self) -> (r: bool)
        ensures
            r == self.generic.semver_check,
    {
        self.generic.semver_check
    }

    pub fn should_update_changelog(&self) -> (r: bool)
        ensures
            r == self.generic.changelog_update,
    {
        self.generic.changelog_update
    }
}

/// The semver checker's verdict on an update.
#[derive(Clone, Debug)]
pub enum SemverCheck {
    Compatible,
    /// The incompatibilities it found.
    Incompatible(String),
    Skipped,
}

/// The note a verdict adds to the summary line of an update.
pub open spec fn outcome_note(c: SemverCheck) -> Seq<char> {
    match c {
        SemverCheck::Incompatible(_) => " (⚠ API breaking changes)"@,
        SemverCheck::Compatible => " (✓ API compatible changes)"@,
        SemverCheck::Skipped => Seq::empty(),
    }
}

impl SemverCheck {
    /// The note of the verdict (see [`outcome_note`]).
    pub fn outcome_str(&self) -> (r: &'static str)
        ensures
            r@ == outcome_note(*self),
    {
        proof {
            reveal_strlit("");
        }
        match self {
            SemverCheck::Incompatible(_) => " (⚠ API breaking changes)",
            SemverCheck::Compatible => " (✓ API compatible changes)",
            SemverCheck::Skipped => "",
        }
    }
}

/// A package and the version it is updated to.
#[derive(Clone, Debug)]
pub struct PackageUpdate {
    pub name: String,
    pub current: Version,
    pub next: Version,
    pub semver_check: SemverCheck,
}

/// What the update command changed.
#[derive(Clone, Debug)]
pub struct PackagesUpdate {
    pub updates: Vec<PackageUpdate>,
    /// The new workspace version, when it changes.
    pub workspace_version: Option<Version>,
}

/// The same version, pre-release and build.
pub open spec fn same_version(a: Version, b: Version) -> bool {
    a.major == b.major && a.minor == b.minor && a.patch == b.patch && a.pre@ == b.pre@ && a.build@
        == b.build@
}

/// The summary line of one update.
pub open spec fn update_line(u: PackageUpdate) -> Seq<char> {
    if same_version(u.current, u.next) {
        "\n* `"@ + u.name@ + "`: "@ + version_text(u.current)
    } else {
        "\n* `"@ + u.name@ + "`: "@ + version_text(u.current) + " -> "@ + version_text(u.next)
            + outcome_note(u.semver_check)
    }
}

/// The breaking-changes section of one update.
pub open spec fn breaking_section(u: PackageUpdate) -> Seq<char> {
    match u.semver_check {
        SemverCheck::Incompatible(s) => "\n### `"@ + u.name@ + "` breaking changes\n\n```"@ + s@
            + "```\n"@,
        _ => Seq::empty(),
    }
}

/// The summary lines of the first `n` updates.
pub open spec fn update_lines(v: Seq<PackageUpdate>, n: int) -> Seq<char>
    decreases n,
{
    if n <= 0 {
        Seq::empty()
    } else {
        update_lines(v, n - 1) + update_line(v[n - 1])
    }
}

/// The breaking-changes sections of the first `n` updates.
pub open spec fn breaking_sections(v: Seq<PackageUpdate>, n: int) -> Seq<char>
    decreases n,
{
    if n <= 0 {
        Seq::empty()
    } else {
        breaking_sections(v, n - 1) + breaking_section(v[n - 1])
    }
}

impl PackagesUpdate {
    pub fn new(updates: Vec<PackageUpdate>) -> (r: Self)
        ensures
            r.updates == updates && r.workspace_version is None,
    {
        PackagesUpdate { updates, workspace_version: None }
    }

    pub fn with_workspace_version(&mut self, workspace_version: Version)
        ensures
            final(self).workspace_version == Some(workspace_version),
            final(self).updates == old(self).updates,
    {
        self.workspace_version = Some(workspace_version);
    }

    pub fn updates(&self) -> (r: &[PackageUpdate])
        ensures
            r@ == self.updates@,
    {
        self.updates.as_slice()
    }

    pub fn workspace_version(&self) -> (r: Option<&Version>)
        ensures
            match (r, self.workspace_version) {
                (Some(a), Some(b)) => *a == b,
                (None, None) => true,
                _ => false,
            },
    {
        match &self.workspace_version {
            Some(v) => Some(v),
            None => None,
        }
    }

    /// One line per update: the package and its version, or its old and new
    /// versions with the semver checker's note.
    pub fn updates_summary(&self) -> (r: String)
        ensures
            r@ == update_lines(self.updates@, self.updates@.len() as int),
    {
        let mut out = String::new();
        let mut i: usize = 0;
        while i < self.updates.len()
            invariant
                i <= self.updates@.len(),
                out@ == update_lines(self.updates@, i as int),
            decreases self.updates@.len() - i,
        {
            let u = &self.updates[i];
            let ghost before = out@;
            out.append("\n* `");
            out.append(u.name.as_str());
            out.append("`: ");
            let current = u.current.to_string();
            out.append(current.as_str());
            if !u.current.same_as(&u.next) {
                out.append(" -> ");
                let next = u.next.to_string();
                out.append(next.as_str());
                out.append(u.semver_check.outcome_str());
            }
            assert(out@ =~= before + update_line(self.updates@[i as int]));
            i = i + 1;
        }
        out
    }

    /// A section per update with breaking changes, holding what the semver
    /// checker found.
    pub fn breaking_changes(&self) -> (r: String)
        ensures
            r@ == breaking_sections(self.updates@, self.updates@.len() as int),
    {
        let mut out = String::new();
        let mut i: usize = 0;
        while i < self.updates.len()
            invariant
                i <= self.updates@.len(),
                out@ == breaking_sections(self.updates@, i as int),
            decreases self.updates@.len() - i,
        {
            let u = &self.updates[i];
            let ghost before = out@;
            match &u.semver_check {
                SemverCheck::Incompatible(s) => {
                    out.append("\n### `");
                    out.append(u.name.as_str());
                    out.append("` breaking changes\n\n```");
                    out.append(s.as_str());
                    out.append("```\n");
                },
                _ => {},
            }
            assert(out@ =~= before + breaking_section(self.updates@[i as int]));
            i = i + 1;
        }
        out
    }

    /// The summary lines, a newline, then the breaking-changes sections.
    pub fn summary(&self) -> (r: String)
        ensures
            r@ == update_lines(self.updates@, self.updates@.len() as int) + "\n"@ + breaking_sections(
                self.updates@,
                self.updates@.len() as int,
            ),
    {
        let mut out = self.updates_summary();
        out.append("\n");
        let b = self.breaking_changes();
        out.append(b.as_str());
        out
    }
}

/// One package of a unified workspace update.
#[derive(Debug)]
pub struct WorkspaceUpdate {
    pub name: String,
    /// The workspace version, the same for every package.
    pub version: Version,
    /// The new changelog entry, the same for every package.
    pub changelog_entry: String,
    /// Whether the package keeps a changelog file that is written.
    pub update_changelog: bool,
}

/// The updates of a unified workspace: each package of `order` (the
/// publishable packages in release order, as indices), once and in that
/// order, with the workspace version and entry, and its changelog setting.
pub fn unified_updates(
    names: &[String],
    update_changelog: &[bool],
    order: &[usize],
    version: &Version,
    entry: &str,
) -> (r: Vec<WorkspaceUpdate>)
    requires
        names@.len() == update_changelog@.len(),
        forall|k: int| 0 <= k < order@.len() ==> (#[trigger] order@[k] as int) < names@.len(),
    ensures
        r@.len() == order@.len(),
        forall|k: int|
            0 <= k < order@.len() ==> {
                let u = #[trigger] r@[k];
                &&& u.name@ == names@[order@[k] as int]@
                &&& u.version == *version
                &&& u.changelog_entry@ == entry@
                &&& u.update_changelog == update_changelog@[order@[k] as int]
            },
{
    let mut r: Vec<WorkspaceUpdate> = Vec::new();
    let mut k: usize = 0;
    while k < order.len()
        invariant
            k <= order@.len(),
            names@.len() == update_changelog@.len(),
            forall|j: int| 0 <= j < order@.len() ==> (#[trigger] order@[j] as int) < names@.len(),
            r@.len() == k,
            forall|j: int|
                0 <= j < k ==> {
                    let u = #[trigger] r@[j];
                    &&& u.name@ == names@[order@[j] as int]@
                    &&& u.version == *version
                    &&& u.changelog_entry@ == entry@
                    &&& u.update_changelog == update_changelog@[order@[j] as int]
                },
        decreases order@.len() - k,
    {
        let i = order[k];
        r.push(
            WorkspaceUpdate {
                name: owned(names[i].as_str()),
                version: version.copy(),
                changelog_entry: owned(entry),
                update_changelog: update_changelog[i],
            },
        );
        k = k + 1;
    }
    r
}

} // verus!
