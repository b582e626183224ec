//! The effective configuration, as shown to the user.
use vstd::prelude::*;
use vstd::string::*;
use crate::config::{duration_spec, parse_duration, DurationError, PackageConfig};
use crate::release_config::ReleaseType;
use crate::text::{append_decimal, clone_opt, clone_opt_strings, clone_strings, decimal, owned, str_eq};

verus! {

/// Workspace-level settings.
#[derive(Clone, Debug)]
pub struct Workspace {
    /// Settings that apply to every package unless it overrides them.
    pub packages_defaults: PackageConfig,
    pub allow_dirty: Option<bool>,
    /// Path of the changelog generator's configuration file.
    pub changelog_config: Option<String>,
    pub dependencies_update: Option<bool>,
    pub pr_name: Option<String>,
    pub pr_body: Option<String>,
    pub pr_draft: bool,
    pub pr_labels: Vec<String>,
    pub pr_branch_prefix: Option<String>,
    pub publish_timeout: Option<String>,
    pub repo_url: Option<String>,
    pub release_commits: Option<String>,
    pub release_always: Option<bool>,
    pub max_analyze_commits: Option<u32>,
}

impl Default for Workspace {
    fn default() -> (r: Self)
        ensures
            r.allow_dirty is None && r.changelog_config is None && r.dependencies_update is None,
            r.pr_name is None && r.pr_body is None && !r.pr_draft && r.pr_labels@.len() == 0,
            r.pr_branch_prefix is None && r.publish_timeout is None && r.repo_url is None,
            r.release_commits is None && r.release_always is None,
            r.max_analyze_commits == Some(1000u32),
    {
        Workspace {
            packages_defaults: PackageConfig::default(),
            allow_dirty: None,
            changelog_config: None,
            dependencies_update: None,
            pr_name: None,
            pr_body: None,
            pr_draft: false,
            pr_labels: Vec::new(),
            pr_branch_prefix: None,
            publish_timeout: None,
            repo_url: None,
            release_commits: None,
            release_always: None,
            max_analyze_commits: crate::config::default_max_analyze_commits(),
        }
    }
}

impl Workspace {
    /// The publish timeout in seconds; 30 minutes when not set.
    pub fn publish_timeout(&self) -> (r: Result<u64, DurationError>)
        ensures
            match self.publish_timeout {
                Some(t) => r == duration_spec(t@),
                None => r == Ok::<u64, DurationError>(1800),
            },
    {
        match &self.publish_timeout {
            Some(t) => parse_duration(t.as_str()),
            None => Ok(1800),
        }
    }
}

/// The workspace defaults, for display.
#[derive(Debug)]
pub struct WorkspaceDefaultsDisplay {
    pub changelog_path: Option<String>,
    pub changelog_update: Option<bool>,
    pub features_always_increment_minor: Option<bool>,
    pub git_release_enable: Option<bool>,
    pub git_release_body: Option<String>,
    pub git_release_type: Option<String>,
    pub git_release_draft: Option<bool>,
    pub git_release_latest: Option<bool>,
    pub git_release_name: Option<String>,
    pub git_tag_enable: Option<bool>,
    pub git_tag_name: Option<String>,
    pub publish_allow_dirty: Option<bool>,
    pub publish_skip_build_check: Option<bool>,
    pub publish_features: Option<Vec<String>>,
    pub publish_all_features: Option<bool>,
    pub semver_check: Option<bool>,
}

/// The workspace-only settings, for display.
#[derive(Debug)]
pub struct WorkspaceOverridesDisplay {
    pub allow_dirty: Option<bool>,
    pub changelog_config: Option<String>,
    pub dependencies_update: Option<bool>,
    pub pr_name: Option<String>,
    pub pr_body: Option<String>,
    pub pr_draft: bool,
    pub pr_labels: Vec<String>,
    pub pr_branch_prefix: Option<String>,
    pub publish_timeout: Option<String>,
    pub repo_url: Option<String>,
    pub release_commits: Option<String>,
    pub release_always: Option<bool>,
    pub max_analyze_commits: Option<u32>,
}

/// The settings a package sets itself, as (key, value) pairs in a fixed order.
#[derive(Debug)]
pub struct ExplicitOverrides {
    pub entries: Vec<(String, String)>,
}

/// One package, for display.
#[derive(Debug)]
pub struct PackageConfigDisplay {
    pub name: String,
    pub path: String,
    pub explicit_overrides: ExplicitOverrides,
}

/// The whole configuration, for display.
#[derive(Debug)]
pub struct ConfigDisplay {
    pub config_source: String,
    pub workspace_defaults: WorkspaceDefaultsDisplay,
    pub workspace_overrides: WorkspaceOverridesDisplay,
    pub packages: Vec<PackageConfigDisplay>,
}

/// The name of a release type.
pub open spec fn release_type_name(t: ReleaseType) -> Seq<char> {
    match t {
        ReleaseType::Prod => "Prod"@,
        ReleaseType::Pre => "Pre"@,
        ReleaseType::Auto => "Auto"@,
    }
}

fn release_type_text(t: ReleaseType) -> (r: String)
    ensures
        r@ == release_type_name(t),
{
    match t {
        ReleaseType::Prod => owned("Prod"),
        ReleaseType::Pre => owned("Pre"),
        ReleaseType::Auto => owned("Auto"),
    }
}

/// The workspace defaults, for display: each setting as set, the release
/// type by name.
pub fn extract_workspace_defaults(defaults: &PackageConfig) -> (r: WorkspaceDefaultsDisplay)
    ensures
        r.changelog_path == defaults.changelog_path,
        r.changelog_update == defaults.changelog_update,
        r.features_always_increment_minor == defaults.features_always_increment_minor,
        r.git_release_enable == defaults.git_release_enable,
        r.git_release_body == defaults.git_release_body,
        match (r.git_release_type, defaults.git_release_type) {
            (Some(a), Some(t)) => a@ == release_type_name(t),
            (None, None) => true,
            _ => false,
        },
        r.git_release_draft == defaults.git_release_draft,
        r.git_release_latest == defaults.git_release_latest,
        r.git_release_name == defaults.git_release_name,
        r.git_tag_enable == defaults.git_tag_enable,
        r.git_tag_name == defaults.git_tag_name,
        r.publish_allow_dirty == defaults.publish_allow_dirty,
        r.publish_skip_build_check == defaults.publish_skip_build_check,
        match (r.publish_features, defaults.publish_features) {
            (Some(a), Some(b)) => a@ == b@,
            (None, None) => true,
            _ => false,
        },
        r.publish_all_features == defaults.publish_all_features,
        r.semver_check == defaults.semver_check,
{
    WorkspaceDefaultsDisplay {
        changelog_path: clone_opt(&defaults.changelog_path),
        changelog_update: defaults.changelog_update,
        features_always_increment_minor: defaults.features_always_increment_minor,
        git_release_enable: defaults.git_release_enable,
        git_release_body: clone_opt(&defaults.git_release_body),
        git_release_type: match defaults.git_release_type {
            Some(t) => Some(release_type_text(t)),
            None => None,
        },
        git_release_draft: defaults.git_release_draft,
        git_release_latest: defaults.git_release_latest,
        git_release_name: clone_opt(&defaults.git_release_name),
        git_tag_enable: defaults.git_tag_enable,
        git_tag_name: clone_opt(&defaults.git_tag_name),
        publish_allow_dirty: defaults.publish_allow_dirty,
        publish_skip_build_check: defaults.publish_skip_build_check,
        publish_features: clone_opt_strings(&defaults.publish_features),
        publish_all_features: defaults.publish_all_features,
        semver_check: defaults.semver_check,
    }
}

/// The workspace-only settings, for display.
pub fn extract_workspace_overrides(workspace: &Workspace) -> (r: WorkspaceOverridesDisplay)
    ensures
        r.allow_dirty == workspace.allow_dirty,
        r.changelog_config == workspace.changelog_config,
        r.dependencies_update == workspace.dependencies_update,
        r.pr_name == workspace.pr_name,
        r.pr_body == workspace.pr_body,
        r.pr_draft == workspace.pr_draft,
        r.pr_labels@ == workspace.pr_labels@,
        r.pr_branch_prefix == workspace.pr_branch_prefix,
        r.publish_timeout == workspace.publish_timeout,
        r.repo_url == workspace.repo_url,
        r.release_commits == workspace.release_commits,
        r.release_always == workspace.release_always,
        r.max_analyze_commits == workspace.max_analyze_commits,
{
    WorkspaceOverridesDisplay {
        allow_dirty: workspace.allow_dirty,
        changelog_config: clone_opt(&workspace.changelog_config),
        dependencies_update: workspace.dependencies_update,
        pr_name: clone_opt(&workspace.pr_name),
        pr_body: clone_opt(&workspace.pr_body),
        pr_draft: workspace.pr_draft,
        pr_labels: clone_strings(&workspace.pr_labels),
        pr_branch_prefix: clone_opt(&workspace.pr_branch_prefix),
        publish_timeout: clone_opt(&workspace.publish_timeout),
        repo_url: clone_opt(&workspace.repo_url),
        release_commits: clone_opt(&workspace.release_commits),
        release_always: workspace.release_always,
        max_analyze_commits: workspace.max_analyze_commits,
    }
}

/// `true` or `false`.
pub open spec fn bool_text(b: bool) -> Seq<char> {
    if b {
        "true"@
    } else {
        "false"@
    }
}

/// How `{:?}` writes a character inside a string: quote, backslash, tab,
/// carriage return, newline and NUL escaped; others as they are.
pub open spec fn escaped_char(c: char) -> Seq<char> {
    if c == '"' {
        seq!['\\', '"']
    } else if c == '\\' {
        seq!['\\', '\\']
    } else if c == '\t' {
        seq!['\\', 't']
    } else if c == '\r' {
        seq!['\\', 'r']
    } else if c == '\n' {
        seq!['\\', 'n']
    } else if c == '\0' {
        seq!['\\', '0']
    } else {
        seq![c]
    }
}

/// A string with each character escaped (see [`escaped_char`]).
pub open spec fn escaped(s: Seq<char>) -> Seq<char>
    decreases s.len(),
{
    if s.len() == 0 {
        Seq::empty()
    } else {
        escaped(s.drop_last()) + escaped_char(s.last())
    }
}

/// A list of strings as `{:?}` writes it: `["a", "b"]`.
pub open spec fn debug_list(v: Seq<Seq<char>>) -> Seq<char> {
    seq!['['] + debug_items(v) + seq![']']
}

/// The quoted, escaped items of a list, separated by `, `.
pub open spec fn debug_items(v: Seq<Seq<char>>) -> Seq<char>
    decreases v.len(),
{
    if v.len() == 0 {
        Seq::empty()
    } else if v.len() == 1 {
        seq!['"'] + escaped(v[0]) + seq!['"']
    } else {
        debug_items(v.drop_last()) + seq![',', ' ', '"'] + escaped(v.last()) + seq!['"']
    }
}

fn append_escaped(out: &mut String, s: &str)
    ensures
        final(out)@ == old(out)@ + escaped(s@),
{
    let n = s.unicode_len();
    let mut i: usize = 0;
    while i < n
        invariant
            n == s@.len(),
            i <= n,
            out@ == old(out)@ + escaped(s@.subrange(0, i as int)),
        decreases n - i,
    {
        proof {
            reveal_strlit("\\\"");
            reveal_strlit("\\\\");
            reveal_strlit("\\t");
            reveal_strlit("\\r");
            reveal_strlit("\\n");
            reveal_strlit("\\0");
        }
        let c = s.get_char(i);
        let ghost before = out@;
        if c == '"' {
            out.append("\\\"");
        } else if c == '\\' {
            out.append("\\\\");
        } else if c == '\t' {
            out.append("\\t");
        } else if c == '\r' {
            out.append("\\r");
        } else if c == '\n' {
            out.append("\\n");
        } else if c == '\0' {
            out.append("\\0");
        } else {
            out.append(s.substring_char(i, i + 1));
        }
        assert(out@ =~= before + escaped_char(c));
        assert(s@.subrange(0, i as int + 1).drop_last() =~= s@.subrange(0, i as int));
        i = i + 1;
    }
    assert(s@.subrange(0, n as int) =~= s@);
}

fn append_debug_list(out: &mut String, v: &Vec<String>)
    ensures
        final(out)@ == old(out)@ + debug_list(crate::forge::views(v@)),
{
    let ghost vv = crate::forge::views(v@);
    proof {
        reveal_strlit("[");
        reveal_strlit("]");
        reveal_strlit("\"");
        reveal_strlit(", \"");
    }
    out.append("[");
    let ghost start = out@;
    let mut i: usize = 0;
    while i < v.len()
        invariant
            i <= v@.len(),
            vv == crate::forge::views(v@),
            out@ == start + debug_items(vv.subrange(0, i as int)),
        decreases v@.len() - i,
    {
        proof {
            reveal_strlit("\"");
            reveal_strlit(", \"");
        }
        let ghost before = out@;
        let ghost sub = vv.subrange(0, i as int + 1);
        assert(sub.drop_last() =~= vv.subrange(0, i as int));
        assert(sub.last() == v@[i as int]@);
        if i == 0 {
            out.append("\"");
        } else {
            out.append(", \"");
        }
        append_escaped(out, v[i].as_str());
        out.append("\"");
        proof {
            if i == 0 {
                assert(vv.subrange(0, 0) =~= Seq::<Seq<char>>::empty());
                assert(sub[0] == sub.last());
            }
        }
        assert(out@ =~= start + debug_items(sub));
        i = i + 1;
    }
    assert(vv.subrange(0, i as int) =~= vv);
    out.append("]");
}

/// A line `{prefix}{value}` and a newline, for a set boolean.
pub open spec fn bool_field(prefix: Seq<char>, v: Option<bool>) -> Seq<char> {
    match v {
        Some(b) => prefix + bool_text(b) + "\n"@,
        None => Seq::empty(),
    }
}

/// A line `{prefix}{value}` and a newline, for a set string.
pub open spec fn str_field(prefix: Seq<char>, v: Option<String>) -> Seq<char> {
    match v {
        Some(s) => prefix + s@ + "\n"@,
        None => Seq::empty(),
    }
}

/// A line `{prefix}{list}` and a newline, for a set list.
pub open spec fn list_field(prefix: Seq<char>, v: Option<Vec<String>>) -> Seq<char> {
    match v {
        Some(l) => prefix + debug_list(crate::forge::views(l@)) + "\n"@,
        None => Seq::empty(),
    }
}

fn push_bool_field(out: &mut String, prefix: &str, v: Option<bool>)
    ensures
        final(out)@ == old(out)@ + bool_field(prefix@, v),
{
    if let Some(b) = v {
        out.append(prefix);
        if b {
            out.append("true");
        } else {
            out.append("false");
        }
        out.append("\n");
    }
    assert(out@ =~= old(out)@ + bool_field(prefix@, v));
}

fn push_str_field(out: &mut String, prefix: &str, v: &Option<String>)
    ensures
        final(out)@ == old(out)@ + str_field(prefix@, *v),
{
    if let Some(s) = v {
        out.append(prefix);
        out.append(s.as_str());
        out.append("\n");
    }
    assert(out@ =~= old(out)@ + str_field(prefix@, *v));
}

fn push_list_field(out: &mut String, prefix: &str, v: &Option<Vec<String>>)
    ensures
        final(out)@ == old(out)@ + list_field(prefix@, *v),
{
    if let Some(l) = v {
        out.append(prefix);
        append_debug_list(out, l);
        out.append("\n");
    }
    assert(out@ =~= old(out)@ + list_field(prefix@, *v));
}

/// The lines of the set workspace defaults, in field order.
pub open spec fn defaults_lines(d: WorkspaceDefaultsDisplay) -> Seq<char> {
    str_field("  changelog_path: "@, d.changelog_path) + bool_field(
        "  changelog_update: "@,
        d.changelog_update,
    ) + bool_field("  features_always_increment_minor: "@, d.features_always_increment_minor)
        + bool_field("  git_release_enable: "@, d.git_release_enable) + str_field(
        "  git_release_body: "@,
        d.git_release_body,
    ) + str_field("  git_release_type: "@, d.git_release_type) + bool_field(
        "  git_release_draft: "@,
        d.git_release_draft,
    ) + bool_field("  git_release_latest: "@, d.git_release_latest) + str_field(
        "  git_release_name: "@,
        d.git_release_name,
    ) + bool_field("  git_tag_enable: "@, d.git_tag_enable) + str_field(
        "  git_tag_name: "@,
        d.git_tag_name,
    ) + bool_field("  publish_allow_dirty: "@, d.publish_allow_dirty) + bool_field(
        "  publish_skip_build_check: "@,
        d.publish_skip_build_check,
    ) + list_field("  publish_features: "@, d.publish_features) + bool_field(
        "  publish_all_features: "@,
        d.publish_all_features,
    ) + bool_field("  semver_check: "@, d.semver_check)
}

/// The workspace defaults as text: one `  key: value` line per set field, or
/// a note that none is set.
pub open spec fn format_option_fields_spec(d: WorkspaceDefaultsDisplay) -> Seq<char> {
    if defaults_lines(d).len() == 0 {
        "  (No explicit workspace defaults set)\n"@
    } else {
        defaults_lines(d)
    }
}

/// The workspace defaults as text (see [`format_option_fields_spec`]).
pub fn format_option_fields(defaults: &WorkspaceDefaultsDisplay) -> (r: String)
    ensures
        r@ == format_option_fields_spec(*defaults),
{
    let mut out = String::new();
    push_str_field(&mut out, "  changelog_path: ", &defaults.changelog_path);
    push_bool_field(&mut out, "  changelog_update: ", defaults.changelog_update);
    push_bool_field(
        &mut out,
        "  features_always_increment_minor: ",
        defaults.features_always_increment_minor,
    );
    push_bool_field(&mut out, "  git_release_enable: ", defaults.git_release_enable);
    push_str_field(&mut out, "  git_release_body: ", &defaults.git_release_body);
    push_str_field(&mut out, "  git_release_type: ", &defaults.git_release_type);
    push_bool_field(&mut out, "  git_release_draft: ", defaults.git_release_draft);
    push_bool_field(&mut out, "  git_release_latest: ", defaults.git_release_latest);
    push_str_field(&mut out, "  git_release_name: ", &defaults.git_release_name);
    push_bool_field(&mut out, "  git_tag_enable: ", defaults.git_tag_enable);
    push_str_field(&mut out, "  git_tag_name: ", &defaults.git_tag_name);
    push_bool_field(&mut out, "  publish_allow_dirty: ", defaults.publish_allow_dirty);
    push_bool_field(&mut out, "  publish_skip_build_check: ", defaults.publish_skip_build_check);
    push_list_field(&mut out, "  publish_features: ", &defaults.publish_features);
    push_bool_field(&mut out, "  publish_all_features: ", defaults.publish_all_features);
    push_bool_field(&mut out, "  semver_check: ", defaults.semver_check);
    assert(out@ =~= defaults_lines(*defaults));
    if out.unicode_len() == 0 {
        out.append("  (No explicit workspace defaults set)\n");
        assert(out@ =~= "  (No explicit workspace defaults set)\n"@);
    }
    out
}

/// The `max_analyze_commits` line: shown only when set to something else than 1000.
pub open spec fn max_commits_field(v: Option<u32>) -> Seq<char> {
    match v {
        Some(n) => if n != 1000 {
            "  max_analyze_commits: "@ + decimal(n as nat) + "\n"@
        } else {
            Seq::empty()
        },
        None => Seq::empty(),
    }
}

/// The lines of the set workspace-only settings, in field order; `pr_draft`
/// is not shown, `pr_labels` only when not empty.
pub open spec fn overrides_lines(o: WorkspaceOverridesDisplay) -> Seq<char> {
    bool_field("  allow_dirty: "@, o.allow_dirty) + str_field(
        "  changelog_config: "@,
        o.changelog_config,
    ) + bool_field("  dependencies_update: "@, o.dependencies_update) + str_field(
        "  pr_name: "@,
        o.pr_name,
    ) + str_field("  pr_body: "@, o.pr_body) + (if o.pr_labels@.len() > 0 {
        "  pr_labels: "@ + debug_list(crate::forge::views(o.pr_labels@)) + "\n"@
    } else {
        Seq::empty()
    }) + str_field("  pr_branch_prefix: "@, o.pr_branch_prefix) + str_field(
        "  publish_timeout: "@,
        o.publish_timeout,
    ) + str_field("  repo_url: "@, o.repo_url) + str_field(
        "  release_commits: "@,
        o.release_commits,
    ) + bool_field("  release_always: "@, o.release_always) + max_commits_field(
        o.max_analyze_commits,
    )
}

/// The workspace-only settings as text, or a note that none is set.
pub open spec fn format_workspace_overrides_spec(o: WorkspaceOverridesDisplay) -> Seq<char> {
    if overrides_lines(o).len() == 0 {
        "  (No workspace-specific settings set)\n"@
    } else {
        overrides_lines(o)
    }
}

/// The workspace-only settings as text (see [`format_workspace_overrides_spec`]).
pub fn format_workspace_overrides(overrides: &WorkspaceOverridesDisplay) -> (r: String)
    ensures
        r@ == format_workspace_overrides_spec(*overrides),
{
    let mut out = String::new();
    push_bool_field(&mut out, "  allow_dirty: ", overrides.allow_dirty);
    push_str_field(&mut out, "  changelog_config: ", &overrides.changelog_config);
    push_bool_field(&mut out, "  dependencies_update: ", overrides.dependencies_update);
    push_str_field(&mut out, "  pr_name: ", &overrides.pr_name);
    push_str_field(&mut out, "  pr_body: ", &overrides.pr_body);
    let ghost before_labels = out@;
    if overrides.pr_labels.len() > 0 {
        out.append("  pr_labels: ");
        append_debug_list(&mut out, &overrides.pr_labels);
        out.append("\n");
    }
    assert(out@ =~= before_labels + (if overrides.pr_labels@.len() > 0 {
        "  pr_labels: "@ + debug_list(crate::forge::views(overrides.pr_labels@)) + "\n"@
    } else {
        Seq::empty()
    }));
    push_str_field(&mut out, "  pr_branch_prefix: ", &overrides.pr_branch_prefix);
    push_str_field(&mut out, "  publish_timeout: ", &overrides.publish_timeout);
    push_str_field(&mut out, "  repo_url: ", &overrides.repo_url);
    push_str_field(&mut out, "  release_commits: ", &overrides.release_commits);
    push_bool_field(&mut out, "  release_always: ", overrides.release_always);
    let ghost before_max = out@;
    if let Some(n) = overrides.max_analyze_commits {
        if n != 1000 {
            out.append("  max_analyze_commits: ");
            append_decimal(&mut out, n as u64);
            out.append("\n");
        }
    }
    assert(out@ =~= before_max + max_commits_field(overrides.max_analyze_commits));
    assert(out@ =~= overrides_lines(*overrides));
    if out.unicode_len() == 0 {
        out.append("  (No workspace-specific settings set)\n");
        assert(out@ =~= "  (No workspace-specific settings set)\n"@);
    }
    out
}

impl ExplicitOverrides {
    /// No overrides.
    pub fn new() -> (r: Self)
        ensures
            r.entries@.len() == 0,
    {
        ExplicitOverrides { entries: Vec::new() }
    }

    /// Whether there is none.
    pub fn is_empty(&self) -> (r: bool)
        ensures
            r == (self.entries@.len() == 0),
    {
        self.entries.len() == 0
    }

    /// The number of overrides.
    pub fn len(&self) -> (r: usize)
        ensures
            r == self.entries@.len(),
    {
        self.entries.len()
    }

    /// The value of `key`, if the package sets it.
    pub fn get(&self, key: &str) -> (r: Option<&String>)
        ensures
            match r {
                Some(v) => exists|i: int|
                    0 <= i < self.entries@.len() && self.entries@[i].0@ == key@ && *v
                        == self.entries@[i].1,
                None => forall|i: int| 0 <= i < self.entries@.len() ==> self.entries@[i].0@ != key@,
            },
    {
        let mut i: usize = 0;
        while i < self.entries.len()
            invariant
                i <= self.entries@.len(),
                forall|j: int| 0 <= j < i ==> self.entries@[j].0@ != key@,
            decreases self.entries@.len() - i,
        {
            if str_eq(self.entries[i].0.as_str(), key) {
                return Some(&self.entries[i].1);
            }
            i = i + 1;
        }
        None
    }
}

/// The (key, value) views of override entries.
pub open spec fn entry_views(v: Seq<(String, String)>) -> Seq<(Seq<char>, Seq<char>)> {
    v.map_values(|e: (String, String)| (e.0@, e.1@))
}

/// The entry of a set value.
pub open spec fn entry_of(key: Seq<char>, v: Option<Seq<char>>) -> Seq<(Seq<char>, Seq<char>)> {
    match v {
        Some(x) => seq![(key, x)],
        None => Seq::empty(),
    }
}

pub open spec fn bool_value(v: Option<bool>) -> Option<Seq<char>> {
    match v {
        Some(b) => Some(bool_text(b)),
        None => None,
    }
}

pub open spec fn str_value(v: Option<String>) -> Option<Seq<char>> {
    match v {
        Some(s) => Some(s@),
        None => None,
    }
}

pub open spec fn type_value(v: Option<ReleaseType>) -> Option<Seq<char>> {
    match v {
        Some(t) => Some(release_type_name(t)),
        None => None,
    }
}

pub open spec fn list_value(v: Option<Vec<String>>) -> Option<Seq<char>> {
    match v {
        Some(l) => Some(debug_list(crate::forge::views(l@))),
        None => None,
    }
}

/// The settings a package sets itself, in field order, with their values as
/// text: booleans as `true` / `false`, the release type by name, features as
/// a list.
pub open spec fn explicit_entries(c: PackageConfig) -> Seq<(Seq<char>, Seq<char>)> {
    entry_of("changelog_path"@, str_value(c.changelog_path)) + entry_of(
        "changelog_update"@,
        bool_value(c.changelog_update),
    ) + entry_of(
        "features_always_increment_minor"@,
        bool_value(c.features_always_increment_minor),
    ) + entry_of("git_release_enable"@, bool_value(c.git_release_enable)) + entry_of(
        "git_release_body"@,
        str_value(c.git_release_body),
    ) + entry_of("git_release_type"@, type_value(c.git_release_type)) + entry_of(
        "git_release_draft"@,
        bool_value(c.git_release_draft),
    ) + entry_of("git_release_latest"@, bool_value(c.git_release_latest)) + entry_of(
        "git_release_name"@,
        str_value(c.git_release_name),
    ) + entry_of("git_tag_enable"@, bool_value(c.git_tag_enable)) + entry_of(
        "git_tag_name"@,
        str_value(c.git_tag_name),
    ) + entry_of("publish_allow_dirty"@, bool_value(c.publish_allow_dirty)) + entry_of(
        "publish_skip_build_check"@,
        bool_value(c.publish_skip_build_check),
    ) + entry_of("publish_features"@, list_value(c.publish_features)) + entry_of(
        "publish_all_features"@,
        bool_value(c.publish_all_features),
    ) + entry_of("semver_check"@, bool_value(c.semver_check))
}

fn add_entry(o: &mut Vec<(String, String)>, key: &str, v: Option<String>)
    ensures
        entry_views(final(o)@) == entry_views(old(o)@) + entry_of(key@, str_value(v)),
{
    if let Some(x) = v {
        o.push((owned(key), x));
    }
    assert(entry_views(o@) =~= entry_views(old(o)@) + entry_of(key@, str_value(v)));
}

fn bool_opt_text(v: Option<bool>) -> (r: Option<String>)
    ensures
        str_value(r) == bool_value(v),
{
    match v {
        Some(true) => Some(owned("true")),
        Some(false) => Some(owned("false")),
        None => None,
    }
}

/// The settings a package sets itself (see [`explicit_entries`]).
#[verifier::rlimit(40)]
pub fn extract_explicit_overrides(config: &PackageConfig) -> (r: ExplicitOverrides)
    ensures
        entry_views(r.entries@) == explicit_entries(*config),
{
    let mut e: Vec<(String, String)> = Vec::new();
    add_entry(&mut e, "changelog_path", clone_opt(&config.changelog_path));
    add_entry(&mut e, "changelog_update", bool_opt_text(config.changelog_update));
    add_entry(
        &mut e,
        "features_always_increment_minor",
        bool_opt_text(config.features_always_increment_minor),
    );
    add_entry(&mut e, "git_release_enable", bool_opt_text(config.git_release_enable));
    add_entry(&mut e, "git_release_body", clone_opt(&config.git_release_body));
    let t = match config.git_release_type {
        Some(t) => Some(release_type_text(t)),
        None => None,
    };
    add_entry(&mut e, "git_release_type", t);
    add_entry(&mut e, "git_release_draft", bool_opt_text(config.git_release_draft));
    add_entry(&mut e, "git_release_latest", bool_opt_text(config.git_release_latest));
    add_entry(&mut e, "git_release_name", clone_opt(&config.git_release_name));
    add_entry(&mut e, "git_tag_enable", bool_opt_text(config.git_tag_enable));
    add_entry(&mut e, "git_tag_name", clone_opt(&config.git_tag_name));
    add_entry(&mut e, "publish_allow_dirty", bool_opt_text(config.publish_allow_dirty));
    add_entry(&mut e, "publish_skip_build_check", bool_opt_text(config.publish_skip_build_check));
    let f = match &config.publish_features {
        Some(l) => {
            let mut s = String::new();
            append_debug_list(&mut s, l);
            Some(s)
        },
        None => None,
    };
    add_entry(&mut e, "publish_features", f);
    add_entry(&mut e, "publish_all_features", bool_opt_text(config.publish_all_features));
    add_entry(&mut e, "semver_check", bool_opt_text(config.semver_check));
    ExplicitOverrides { entries: e }
}

/// The lines of the first `n` override entries of a package.
pub open spec fn entry_lines(e: Seq<(String, String)>, n: int) -> Seq<char>
    decreases n,
{
    if n <= 0 {
        Seq::empty()
    } else {
        entry_lines(e, n - 1) + "    "@ + e[n - 1].0@ + ": "@ + e[n - 1].1@ + "\n"@
    }
}

/// The block of a package in the display: nothing when it overrides nothing.
pub open spec fn package_block(p: PackageConfigDisplay) -> Seq<char> {
    let e = p.explicit_overrides.entries@;
    if e.len() == 0 {
        Seq::empty()
    } else {
        "Package: "@ + p.name@ + " ("@ + p.path@ + ")\n"@ + "  Explicit overrides:\n"@
            + entry_lines(e, e.len() as int) + "\n"@
    }
}

/// The blocks of the first `n` packages.
pub open spec fn package_blocks(v: Seq<PackageConfigDisplay>, n: int) -> Seq<char>
    decreases n,
{
    if n <= 0 {
        Seq::empty()
    } else {
        package_blocks(v, n - 1) + package_block(v[n - 1])
    }
}

/// Some package overrides something.
pub open spec fn any_overrides(v: Seq<PackageConfigDisplay>) -> bool {
    exists|i: int| 0 <= i < v.len() && (#[trigger] v[i]).explicit_overrides.entries@.len() > 0
}

/// The whole display text.
pub open spec fn display_spec(c: ConfigDisplay) -> Seq<char> {
    "Configuration source: "@ + c.config_source@ + "\n\n"@ + "=== Workspace Defaults ===\n"@
        + "(These apply to all packages unless overridden)\n\n"@ + format_option_fields_spec(
        c.workspace_defaults,
    ) + "\n"@ + "=== Workspace-Specific Settings ===\n"@
        + "(These don't apply to individual packages)\n\n"@ + format_workspace_overrides_spec(
        c.workspace_overrides,
    ) + "\n"@ + "=== Package Configurations ===\n"@
        + "(Only showing packages with explicit overrides)\n\n"@ + package_blocks(
        c.packages@,
        c.packages@.len() as int,
    ) + if any_overrides(c.packages@) {
        Seq::empty()
    } else {
        "  No packages have explicit overrides\n"@ + "  All packages use workspace defaults\n\n"@
    }
}

impl ConfigDisplay {
    /// The configuration as text: its source, the workspace defaults, the
    /// workspace-only settings, then each package that overrides something.
    pub fn display(&self) -> (r: String)
        ensures
            r@ == display_spec(*self),
    {
        let mut out = owned("Configuration source: ");
        out.append(self.config_source.as_str());
        out.append("\n\n");
        out.append("=== Workspace Defaults ===\n");
        out.append("(These apply to all packages unless overridden)\n\n");
        let d = format_option_fields(&self.workspace_defaults);
        out.append(d.as_str());
        out.append("\n");
        out.append("=== Workspace-Specific Settings ===\n");
        out.append("(These don't apply to individual packages)\n\n");
        let w = format_workspace_overrides(&self.workspace_overrides);
        out.append(w.as_str());
        out.append("\n");
        out.append("=== Package Configurations ===\n");
        out.append("(Only showing packages with explicit overrides)\n\n");
        let ghost head = out@;
        let mut any = false;
        let mut i: usize = 0;
        while i < self.packages.len()
            invariant
                i <= self.packages@.len(),
                out@ == head + package_blocks(self.packages@, i as int),
                any == exists|k: int|
                    0 <= k < i && (#[trigger] self.packages@[k]).explicit_overrides.entries@.len() > 0,
            decreases self.packages@.len() - i,
        {
            let pkg = &self.packages[i];
            let ghost before = out@;
            if !pkg.explicit_overrides.is_empty() {
                any = true;
                out.append("Package: ");
                out.append(pkg.name.as_str());
                out.append(" (");
                out.append(pkg.path.as_str());
                out.append(")\n");
                out.append("  Explicit overrides:\n");
                let ghost start = out@;
                let mut j: usize = 0;
                while j < pkg.explicit_overrides.entries.len()
                    invariant
                        j <= pkg.explicit_overrides.entries@.len(),
                        out@ == start + entry_lines(pkg.explicit_overrides.entries@, j as int),
                    decreases pkg.explicit_overrides.entries@.len() - j,
                {
                    let ghost b = out@;
                    out.append("    ");
                    out.append(pkg.explicit_overrides.entries[j].0.as_str());
                    out.append(": ");
                    out.append(pkg.explicit_overrides.entries[j].1.as_str());
                    out.append("\n");
                    assert(out@ =~= b + "    "@ + pkg.explicit_overrides.entries@[j as int].0@ + ": "@
                        + pkg.explicit_overrides.entries@[j as int].1@ + "\n"@);
                    j = j + 1;
                }
                out.append("\n");
            }
            assert(out@ =~= before + package_block(self.packages@[i as int]));
            i = i + 1;
        }
        if !any {
            out.append("  No packages have explicit overrides\n");
            out.append("  All packages use workspace defaults\n\n");
        }
        assert(out@ =~= display_spec(*self));
        out
    }
}

} // verus!
